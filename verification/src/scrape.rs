use vstd::prelude::*;
use vstd::string::*;

verus! {

/// Whether `c` is a letter or a digit, in the full Unicode sense of
/// `char::is_alphanumeric`.
pub uninterp spec fn is_letter_or_digit(c: char) -> bool;

/// Whether `c` is whitespace, in the full Unicode sense of
/// `char::is_whitespace`.
pub uninterp spec fn is_white_space(c: char) -> bool;

/// Relies on `char::is_alphanumeric`: whether a character is in one of
/// the Unicode letter or number categories is a function of the
/// character alone.
pub assume_specification[ char::is_alphanumeric ](c: char) -> (b: bool)
    ensures
        b == is_letter_or_digit(c),
;

/// Relies on `char::is_whitespace`: whether a character has the Unicode
/// whitespace property is a function of the character alone.
pub assume_specification[ char::is_whitespace ](c: char) -> (b: bool)
    ensures
        b == is_white_space(c),
;

/// The characters admitted inside a scraped title: letters and digits,
/// underscore, and whitespace.
pub open spec fn is_word_space(c: char) -> bool {
    ||| is_letter_or_digit(c)
    ||| c == '_'
    ||| is_white_space(c)
}

/// The text that opens one title member in a search response body.
pub open spec fn title_marker() -> Seq<char> {
    "\"Title\":\""@
}

/// The end of the run of word/space characters that starts at `p`: the
/// least index at or after `p` holding any other character, or the end
/// of the text.
pub open spec fn run_end(s: Seq<char>, p: int) -> int
    recommends
        0 <= p <= s.len(),
    decreases s.len() - p,
{
    if p < s.len() && is_word_space(s[p]) {
        run_end(s, p + 1)
    } else {
        p
    }
}

/// Whether a title member stands at position `i`: the marker, then a
/// nonempty run of word/space characters, then a closing quote.
pub open spec fn match_at(s: Seq<char>, i: int) -> bool {
    &&& 0 <= i
    &&& i + 9 <= s.len()
    &&& s.subrange(i, i + 9) == title_marker()
    &&& run_end(s, i + 9) > i + 9
    &&& run_end(s, i + 9) < s.len()
    &&& s[run_end(s, i + 9)] == '"'
}

/// The title captured by a match at `i`: the run between the marker and
/// the closing quote.
pub open spec fn match_content(s: Seq<char>, i: int) -> Seq<char>
    recommends
        match_at(s, i),
{
    s.subrange(i + 9, run_end(s, i + 9))
}

/// The index just past the closing quote of a match at `i`.
pub open spec fn match_end(s: Seq<char>, i: int) -> int
    recommends
        match_at(s, i),
{
    run_end(s, i + 9) + 1
}

/// Every title scraped from `s` at or after position `i`, leftmost match
/// first, matches not overlapping.
pub open spec fn titles_from(s: Seq<char>, i: int) -> Seq<Seq<char>>
    decreases s.len() - i,
{
    if i >= s.len() {
        Seq::empty()
    } else if match_at(s, i) {
        seq![match_content(s, i)] + titles_from(s, match_end(s, i))
    } else {
        titles_from(s, i + 1)
    }
}

/// The views of a sequence of strings.
pub open spec fn views_of(strings: Seq<String>) -> Seq<Seq<char>> {
    strings.map_values(|s: String| s@)
}

/// Extending the start of a run scan over word/space characters does not
/// move its end.
proof fn lemma_run_end_extend(s: Seq<char>, p: int, j: int)
    requires
        0 <= p <= j <= s.len(),
        forall|k: int| p <= k < j ==> is_word_space(s[k]),
    ensures
        run_end(s, p) == run_end(s, j),
    decreases j - p,
{
    if p < j {
        assert(is_word_space(s[p]));
        lemma_run_end_extend(s, p + 1, j);
    }
}

/// Whether the nine marker characters stand at position `i`.
fn marker_at(text: &str, i: usize, n: usize) -> (b: bool)
    requires
        n == text@.len(),
        i + 9 <= n,
    ensures
        b == (text@.subrange(i as int, i as int + 9) == title_marker()),
{
    proof {
        reveal_strlit("\"Title\":\"");
    }
    let b = text.get_char(i) == '"' && text.get_char(i + 1) == 'T' && text.get_char(i + 2) == 'i'
        && text.get_char(i + 3) == 't' && text.get_char(i + 4) == 'l' && text.get_char(i + 5) == 'e'
        && text.get_char(i + 6) == '"' && text.get_char(i + 7) == ':' && text.get_char(i + 8) == '"';
    proof {
        let sub = text@.subrange(i as int, i as int + 9);
        if b {
            assert(sub =~= title_marker());
        }
        if sub == title_marker() {
            assert(text@[i as int] == sub[0]);
            assert(text@[i as int + 1] == sub[1]);
            assert(text@[i as int + 2] == sub[2]);
            assert(text@[i as int + 3] == sub[3]);
            assert(text@[i as int + 4] == sub[4]);
            assert(text@[i as int + 5] == sub[5]);
            assert(text@[i as int + 6] == sub[6]);
            assert(text@[i as int + 7] == sub[7]);
            assert(text@[i as int + 8] == sub[8]);
        }
    }
    b
}

/// Whether `c` is a word/space character.
fn word_space(c: char) -> (b: bool)
    ensures
        b == is_word_space(c),
{
    c.is_alphanumeric() || c == '_' || c.is_whitespace()
}

/// Scrapes every candidate title out of a search response body, in order
/// of appearance.
pub fn extract_titles(text: &str) -> (titles: Vec<String>)
    ensures
        views_of(titles@) == titles_from(text@, 0),
{
    let n: usize = text.unicode_len();
    let mut titles: Vec<String> = Vec::new();
    let mut i: usize = 0;
    while i < n
        invariant
            n == text@.len(),
            i <= n,
            titles_from(text@, 0) == views_of(titles@) + titles_from(text@, i as int),
        decreases n - i,
    {
        if n - i >= 9 && marker_at(text, i, n) {
            let mut j: usize = i + 9;
            while j < n && word_space(text.get_char(j))
                invariant
                    n == text@.len(),
                    i + 9 <= j <= n,
                    forall|k: int| i + 9 <= k < j ==> is_word_space(text@[k]),
                decreases n - j,
            {
                j += 1;
            }
            proof {
                lemma_run_end_extend(text@, i as int + 9, j as int);
                assert(run_end(text@, i as int + 9) == j as int);
            }
            if j < n && j > i + 9 && text.get_char(j) == '"' {
                let ghost old_titles = titles@;
                let content = text.substring_char(i + 9, j);
                titles.push(content.to_owned());
                proof {
                    assert(match_at(text@, i as int));
                    assert(match_content(text@, i as int) == content@);
                    assert(views_of(titles@) =~= views_of(old_titles) + seq![content@]);
                    assert(views_of(old_titles) + seq![content@] + titles_from(text@, j as int + 1)
                        =~= views_of(old_titles) + (seq![content@] + titles_from(text@, j as int + 1)));
                }
                i = j + 1;
            } else {
                proof {
                    assert(!match_at(text@, i as int));
                }
                i = i + 1;
            }
        } else {
            proof {
                assert(!match_at(text@, i as int));
            }
            i = i + 1;
        }
    }
    proof {
        assert(views_of(titles@) + Seq::<Seq<char>>::empty() =~= views_of(titles@));
    }
    titles
}

} // verus!
