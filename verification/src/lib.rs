//! A verified client library for the OMDb movie-metadata web service.
//!
//! The library covers everything about an OMDb interaction that can be
//! stated and checked ahead of time: building query URLs, decoding a
//! response body into a [`Film`] record, scraping candidate titles out of
//! a search response, encoding a [`Film`] back to JSON, and mapping
//! failures to a small error taxonomy.  The network transport itself is
//! left to the embedding application, which hands each response body (or
//! a transport failure) to this crate as a plain value.

mod client;
mod encode;
mod error;
mod film;
mod json;
mod scrape;
mod url;

pub use client::FetchOutcome;
pub use client::films_from_lookups;
pub use client::lemma_search_lookup_transport_reported;
pub use client::lemma_transport_failure_reported;
pub use client::lookup_outcome_spec;
pub use client::lookups_spec;
pub use client::search_candidates;
pub use client::search_outcome_spec;
pub use client::views_of_films;
pub use encode::escaped;
pub use encode::escaped_char;
pub use encode::film_json;
pub use encode::json_member;
pub use error::FilmError;
pub use film::Film;
pub use film::FilmView;
pub use json::decoded_film;
pub use json::film_fields_present;
pub use json::json_string_field;
pub use scrape::extract_titles;
pub use scrape::is_letter_or_digit;
pub use scrape::is_white_space;
pub use scrape::is_word_space;
pub use scrape::match_at;
pub use scrape::match_content;
pub use scrape::match_end;
pub use scrape::run_end;
pub use scrape::title_marker;
pub use scrape::titles_from;
pub use scrape::views_of;
pub use url::id_query_url;
pub use url::query_url;
pub use url::search_query_url;
pub use url::title_query_url;
