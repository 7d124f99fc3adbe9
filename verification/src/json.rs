use vstd::prelude::*;

use crate::film::FilmView;

verus! {

/// The string value at `key` of the JSON object written in `text`, if
/// `text` is a JSON document whose top-level value is an object holding a
/// string at that key; `None` otherwise.  The full JSON grammar is not
/// written out here: this name stands for what the JSON parser returns,
/// which depends on `text` and `key` alone.
pub uninterp spec fn json_string_field(text: Seq<char>, key: Seq<char>) -> Option<Seq<char>>;

/// Relies on `serde_json::from_str::<serde_json::Value>`,
/// `serde_json::Value::get` and `serde_json::Value::as_str`: parsing a
/// document is a pure function of its text; `get` returns the member of a
/// JSON object at the given key and `None` for a missing key or a
/// non-object; `as_str` returns the text of a JSON string and `None` for
/// any other value.
#[verifier::external_body]
pub(crate) fn string_field(text: &str, key: &str) -> (r: Option<String>)
    ensures
        (match r {
            Some(s) => json_string_field(text@, key@) == Some(s@),
            None => json_string_field(text@, key@) is None,
        }),
{
    match serde_json::from_str::<serde_json::Value>(text) {
        Ok(value) => value.get(key).and_then(|v| v.as_str()).map(String::from),
        Err(_) => None,
    }
}

/// Whether the document holds every field of a film record as a string.
pub open spec fn film_fields_present(body: Seq<char>) -> bool {
    &&& json_string_field(body, "Title"@) is Some
    &&& json_string_field(body, "Year"@) is Some
    &&& json_string_field(body, "Runtime"@) is Some
    &&& json_string_field(body, "Rated"@) is Some
    &&& json_string_field(body, "Released"@) is Some
    &&& json_string_field(body, "Genre"@) is Some
    &&& json_string_field(body, "Director"@) is Some
    &&& json_string_field(body, "Writer"@) is Some
    &&& json_string_field(body, "Actors"@) is Some
    &&& json_string_field(body, "Plot"@) is Some
    &&& json_string_field(body, "Language"@) is Some
}

/// The film record a single-result response body decodes to: all eleven
/// fields must be present as strings, or the decode fails wholesale.
pub open spec fn decoded_film(body: Seq<char>) -> Option<FilmView> {
    if film_fields_present(body) {
        Some(FilmView {
            title: json_string_field(body, "Title"@).unwrap(),
            year: json_string_field(body, "Year"@).unwrap(),
            runtime: json_string_field(body, "Runtime"@).unwrap(),
            rated: json_string_field(body, "Rated"@).unwrap(),
            released: json_string_field(body, "Released"@).unwrap(),
            genre: json_string_field(body, "Genre"@).unwrap(),
            director: json_string_field(body, "Director"@).unwrap(),
            writer: json_string_field(body, "Writer"@).unwrap(),
            actors: json_string_field(body, "Actors"@).unwrap(),
            plot: json_string_field(body, "Plot"@).unwrap(),
            language: json_string_field(body, "Language"@).unwrap(),
        })
    } else {
        None
    }
}

} // verus!
