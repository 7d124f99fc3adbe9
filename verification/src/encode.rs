use vstd::prelude::*;
use vstd::string::*;

use crate::film::Film;
use crate::film::FilmView;

verus! {

/// How one character of field text is written inside a JSON string:
/// quote and backslash are escaped, every control character is written
/// as its named escape or as `\\u00xx`, and any other character stands
/// for itself.
pub open spec fn escaped_char(c: char) -> Seq<char> {
    if c == '"' {
        "\\\""@
    } else if c == '\\' {
        "\\\\"@
    } else if c == '\x00' {
        "\\u0000"@
    } else if c == '\x01' {
        "\\u0001"@
    } else if c == '\x02' {
        "\\u0002"@
    } else if c == '\x03' {
        "\\u0003"@
    } else if c == '\x04' {
        "\\u0004"@
    } else if c == '\x05' {
        "\\u0005"@
    } else if c == '\x06' {
        "\\u0006"@
    } else if c == '\x07' {
        "\\u0007"@
    } else if c == '\x08' {
        "\\b"@
    } else if c == '\x09' {
        "\\t"@
    } else if c == '\x0a' {
        "\\n"@
    } else if c == '\x0b' {
        "\\u000b"@
    } else if c == '\x0c' {
        "\\f"@
    } else if c == '\x0d' {
        "\\r"@
    } else if c == '\x0e' {
        "\\u000e"@
    } else if c == '\x0f' {
        "\\u000f"@
    } else if c == '\x10' {
        "\\u0010"@
    } else if c == '\x11' {
        "\\u0011"@
    } else if c == '\x12' {
        "\\u0012"@
    } else if c == '\x13' {
        "\\u0013"@
    } else if c == '\x14' {
        "\\u0014"@
    } else if c == '\x15' {
        "\\u0015"@
    } else if c == '\x16' {
        "\\u0016"@
    } else if c == '\x17' {
        "\\u0017"@
    } else if c == '\x18' {
        "\\u0018"@
    } else if c == '\x19' {
        "\\u0019"@
    } else if c == '\x1a' {
        "\\u001a"@
    } else if c == '\x1b' {
        "\\u001b"@
    } else if c == '\x1c' {
        "\\u001c"@
    } else if c == '\x1d' {
        "\\u001d"@
    } else if c == '\x1e' {
        "\\u001e"@
    } else if c == '\x1f' {
        "\\u001f"@
    } else {
        seq![c]
    }
}

/// The text written inside a JSON string for the field text `s`.
pub open spec fn escaped(s: Seq<char>) -> Seq<char>
    decreases s.len(),
{
    if s.len() == 0 {
        Seq::empty()
    } else {
        escaped_char(s[0]) + escaped(s.drop_first())
    }
}

/// One `"key":"value"` member of the encoded record.
pub open spec fn json_member(key: Seq<char>, value: Seq<char>) -> Seq<char> {
    "\""@ + key + "\":\""@ + escaped(value) + "\""@
}

/// The JSON document a film record encodes to: one object holding the
/// eleven fields in their canonical order.
pub open spec fn film_json(v: FilmView) -> Seq<char> {
    "{"@ + json_member("Title"@, v.title) + ","@ + json_member("Year"@, v.year) + ","@
        + json_member("Runtime"@, v.runtime) + ","@ + json_member("Rated"@, v.rated) + ","@
        + json_member("Released"@, v.released) + ","@ + json_member("Genre"@, v.genre) + ","@
        + json_member("Director"@, v.director) + ","@ + json_member("Writer"@, v.writer) + ","@
        + json_member("Actors"@, v.actors) + ","@ + json_member("Plot"@, v.plot) + ","@
        + json_member("Language"@, v.language) + "}"@
}

/// Escaping distributes over concatenation.
proof fn lemma_escaped_concat(a: Seq<char>, b: Seq<char>)
    ensures
        escaped(a + b) == escaped(a) + escaped(b),
    decreases a.len(),
{
    if a.len() == 0 {
        assert(a + b =~= b);
        assert(Seq::<char>::empty() + escaped(b) =~= escaped(b));
    } else {
        assert((a + b)[0] == a[0]);
        assert((a + b).drop_first() =~= a.drop_first() + b);
        lemma_escaped_concat(a.drop_first(), b);
        assert(escaped(a + b) =~= escaped(a) + escaped(b));
    }
}

/// Extending the escaped prefix by one character.
proof fn lemma_escaped_snoc(s: Seq<char>, i: int)
    requires
        0 <= i < s.len(),
    ensures
        escaped(s.take(i + 1)) == escaped(s.take(i)) + escaped_char(s[i]),
{
    assert(s.take(i + 1) =~= s.take(i) + seq![s[i]]);
    lemma_escaped_concat(s.take(i), seq![s[i]]);
    let single = seq![s[i]];
    assert(single.drop_first() =~= Seq::<char>::empty());
    assert(escaped(Seq::<char>::empty()) == Seq::<char>::empty());
    assert(escaped(single) =~= escaped_char(s[i]));
}

/// The field text `s` with the JSON string escapes applied.
fn escaped_string(s: &str) -> (r: String)
    ensures
        r@ == escaped(s@),
{
    let n: usize = s.unicode_len();
    let mut out = String::new();
    let mut i: usize = 0;
    while i < n
        invariant
            n == s@.len(),
            i <= n,
            out@ == escaped(s@.take(i as int)),
        decreases n - i,
    {
        let c = s.get_char(i);
        if c == '"' {
            out.append("\\\"");
        } else if c == '\\' {
            out.append("\\\\");
        } else if c == '\x00' {
            out.append("\\u0000");
        } else if c == '\x01' {
            out.append("\\u0001");
        } else if c == '\x02' {
            out.append("\\u0002");
        } else if c == '\x03' {
            out.append("\\u0003");
        } else if c == '\x04' {
            out.append("\\u0004");
        } else if c == '\x05' {
            out.append("\\u0005");
        } else if c == '\x06' {
            out.append("\\u0006");
        } else if c == '\x07' {
            out.append("\\u0007");
        } else if c == '\x08' {
            out.append("\\b");
        } else if c == '\x09' {
            out.append("\\t");
        } else if c == '\x0a' {
            out.append("\\n");
        } else if c == '\x0b' {
            out.append("\\u000b");
        } else if c == '\x0c' {
            out.append("\\f");
        } else if c == '\x0d' {
            out.append("\\r");
        } else if c == '\x0e' {
            out.append("\\u000e");
        } else if c == '\x0f' {
            out.append("\\u000f");
        } else if c == '\x10' {
            out.append("\\u0010");
        } else if c == '\x11' {
            out.append("\\u0011");
        } else if c == '\x12' {
            out.append("\\u0012");
        } else if c == '\x13' {
            out.append("\\u0013");
        } else if c == '\x14' {
            out.append("\\u0014");
        } else if c == '\x15' {
            out.append("\\u0015");
        } else if c == '\x16' {
            out.append("\\u0016");
        } else if c == '\x17' {
            out.append("\\u0017");
        } else if c == '\x18' {
            out.append("\\u0018");
        } else if c == '\x19' {
            out.append("\\u0019");
        } else if c == '\x1a' {
            out.append("\\u001a");
        } else if c == '\x1b' {
            out.append("\\u001b");
        } else if c == '\x1c' {
            out.append("\\u001c");
        } else if c == '\x1d' {
            out.append("\\u001d");
        } else if c == '\x1e' {
            out.append("\\u001e");
        } else if c == '\x1f' {
            out.append("\\u001f");
        } else {
            let piece = s.substring_char(i, i + 1);
            proof {
                assert(piece@ =~= seq![s@[i as int]]);
            }
            out.append(piece);
        }
        proof {
            lemma_escaped_snoc(s@, i as int);
        }
        i += 1;
    }
    proof {
        assert(s@.take(n as int) =~= s@);
    }
    out
}

/// One encoded member, `"key":"value"` with the value escaped.
fn member_string(key: &str, value: &str) -> (r: String)
    ensures
        r@ == json_member(key@, value@),
{
    let mut out = String::new();
    out.append("\"");
    out.append(key);
    out.append("\":\"");
    let escaped_value = escaped_string(value);
    out.append(escaped_value.as_str());
    out.append("\"");
    proof {
        assert(out@ =~= json_member(key@, value@));
    }
    out
}

impl Film {
    /// Encodes the record as the JSON document it decodes from.
    pub fn to_json(&self) -> (r: String)
        ensures
            r@ == film_json(self@),
    {
        let mut out = String::new();
        out.append("{");
        let member = member_string("Title", self.get_title().as_str());
        out.append(member.as_str());
        out.append(",");
        let member = member_string("Year", self.get_year().as_str());
        out.append(member.as_str());
        out.append(",");
        let member = member_string("Runtime", self.get_runtime().as_str());
        out.append(member.as_str());
        out.append(",");
        let member = member_string("Rated", self.get_rated().as_str());
        out.append(member.as_str());
        out.append(",");
        let member = member_string("Released", self.get_released().as_str());
        out.append(member.as_str());
        out.append(",");
        let member = member_string("Genre", self.get_genre().as_str());
        out.append(member.as_str());
        out.append(",");
        let member = member_string("Director", self.get_director().as_str());
        out.append(member.as_str());
        out.append(",");
        let member = member_string("Writer", self.get_writer().as_str());
        out.append(member.as_str());
        out.append(",");
        let member = member_string("Actors", self.get_actors().as_str());
        out.append(member.as_str());
        out.append(",");
        let member = member_string("Plot", self.get_plot().as_str());
        out.append(member.as_str());
        out.append(",");
        let member = member_string("Language", self.get_language().as_str());
        out.append(member.as_str());
        out.append("}");
        proof {
            assert(out@ =~= film_json(self@));
        }
        out
    }
}

} // verus!
