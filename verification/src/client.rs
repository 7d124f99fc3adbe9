use vstd::prelude::*;

use crate::error::FilmError;
use crate::film::Film;
use crate::film::FilmView;
use crate::json::decoded_film;
use crate::json::string_field;
use crate::scrape::extract_titles;
use crate::scrape::titles_from;
use crate::scrape::views_of;

verus! {

/// What the transport handed back for one request: the response body, or
/// the fact that the request could not be completed (connection failure
/// or timeout).
pub enum FetchOutcome {
    Body(String),
    Failed,
}

/// What a single-record lookup returns for a given transport outcome: the
/// decoded film, `FilmNotFound` when the body does not decode to a film
/// record, and `Transport` when the request itself failed.
pub open spec fn lookup_outcome_spec(outcome: FetchOutcome) -> Result<FilmView, FilmError> {
    match outcome {
        FetchOutcome::Body(body) => match decoded_film(body@) {
            Some(v) => Ok(v),
            None => Err(FilmError::FilmNotFound),
        },
        FetchOutcome::Failed => Err(FilmError::Transport),
    }
}

/// Decodes the outcome of one single-record request.
fn decode_lookup(outcome: &FetchOutcome) -> (r: Result<Film, FilmError>)
    ensures
        (match (r, lookup_outcome_spec(*outcome)) {
            (Ok(film), Ok(v)) => film@ == v,
            (Err(e1), Err(e2)) => e1 == e2,
            _ => false,
        }),
{
    match outcome {
        FetchOutcome::Failed => Err(FilmError::Transport),
        FetchOutcome::Body(body) => {
            let fields = (
                string_field(body.as_str(), "Title"),
                string_field(body.as_str(), "Year"),
                string_field(body.as_str(), "Runtime"),
                string_field(body.as_str(), "Rated"),
                string_field(body.as_str(), "Released"),
                string_field(body.as_str(), "Genre"),
                string_field(body.as_str(), "Director"),
                string_field(body.as_str(), "Writer"),
                string_field(body.as_str(), "Actors"),
                string_field(body.as_str(), "Plot"),
                string_field(body.as_str(), "Language"),
            );
            if let (
                Some(title),
                Some(year),
                Some(runtime),
                Some(rated),
                Some(released),
                Some(genre),
                Some(director),
                Some(writer),
                Some(actors),
                Some(plot),
                Some(language),
            ) = fields {
                Ok(Film::new(
                    title, year, runtime, rated, released, genre, director, writer, actors,
                    plot, language,
                ))
            } else {
                Err(FilmError::FilmNotFound)
            }
        },
    }
}

impl Film {
    /// Interprets the outcome of a lookup-by-title request: the film the
    /// body decodes to, or the error the outcome calls for.
    pub fn from_title(outcome: FetchOutcome) -> (r: Result<Film, FilmError>)
        ensures
            (match (r, lookup_outcome_spec(outcome)) {
                (Ok(film), Ok(v)) => film@ == v,
                (Err(e1), Err(e2)) => e1 == e2,
                _ => false,
            }),
    {
        decode_lookup(&outcome)
    }

    /// Interprets the outcome of a lookup-by-identifier request: the film
    /// the body decodes to, or the error the outcome calls for.
    pub fn from_id(outcome: FetchOutcome) -> (r: Result<Film, FilmError>)
        ensures
            (match (r, lookup_outcome_spec(outcome)) {
                (Ok(film), Ok(v)) => film@ == v,
                (Err(e1), Err(e2)) => e1 == e2,
                _ => false,
            }),
    {
        decode_lookup(&outcome)
    }
}

/// What a search returns for the outcome of its endpoint request: the
/// scraped candidate titles in order of appearance, `FilmNotFound` when
/// the body cannot be matched at all, and `Transport` when the request
/// itself failed.
pub open spec fn search_outcome_spec(outcome: FetchOutcome) -> Result<Seq<Seq<char>>, FilmError> {
    match outcome {
        FetchOutcome::Body(body) => if titles_from(body@, 0).len() == 0 {
            Err(FilmError::FilmNotFound)
        } else {
            Ok(titles_from(body@, 0))
        },
        FetchOutcome::Failed => Err(FilmError::Transport),
    }
}

/// The candidate titles the search endpoint's response yields, in the
/// order they appear in the body.
pub fn search_candidates(outcome: &FetchOutcome) -> (r: Result<Vec<String>, FilmError>)
    ensures
        (match (r, search_outcome_spec(*outcome)) {
            (Ok(titles), Ok(ts)) => views_of(titles@) == ts,
            (Err(e1), Err(e2)) => e1 == e2,
            _ => false,
        }),
{
    match outcome {
        FetchOutcome::Failed => Err(FilmError::Transport),
        FetchOutcome::Body(body) => {
            let titles = extract_titles(body.as_str());
            if titles.len() == 0 {
                Err(FilmError::FilmNotFound)
            } else {
                Ok(titles)
            }
        },
    }
}

/// The views of a sequence of films.
pub open spec fn views_of_films(films: Seq<Film>) -> Seq<FilmView> {
    films.map_values(|f: Film| f@)
}

/// What decoding a sequence of per-candidate lookup outcomes returns:
/// the decoded films in order, or the error of the first outcome that
/// does not decode, the remaining ones abandoned.
pub open spec fn lookups_spec(outcomes: Seq<FetchOutcome>) -> Result<Seq<FilmView>, FilmError>
    decreases outcomes.len(),
{
    if outcomes.len() == 0 {
        Ok(Seq::empty())
    } else {
        match lookup_outcome_spec(outcomes[0]) {
            Ok(v) => match lookups_spec(outcomes.drop_first()) {
                Ok(rest) => Ok(seq![v] + rest),
                Err(e) => Err(e),
            },
            Err(e) => Err(e),
        }
    }
}

/// When every outcome decodes, the sequence decode returns exactly the
/// per-outcome films.
proof fn lemma_lookups_all_ok(outcomes: Seq<FetchOutcome>, films: Seq<FilmView>)
    requires
        films.len() == outcomes.len(),
        forall|k: int|
            0 <= k < outcomes.len() ==> lookup_outcome_spec(outcomes[k]) == Ok::<
                FilmView,
                FilmError,
            >(films[k]),
    ensures
        lookups_spec(outcomes) == Ok::<Seq<FilmView>, FilmError>(films),
    decreases outcomes.len(),
{
    if outcomes.len() == 0 {
        assert(films =~= Seq::<FilmView>::empty());
    } else {
        let tail = outcomes.drop_first();
        let ftail = films.drop_first();
        assert forall|k: int|
            0 <= k < tail.len() implies lookup_outcome_spec(tail[k]) == Ok::<
            FilmView,
            FilmError,
        >(ftail[k]) by {
            assert(tail[k] == outcomes[k + 1]);
            assert(ftail[k] == films[k + 1]);
        }
        lemma_lookups_all_ok(tail, ftail);
        assert(films =~= seq![films[0]] + ftail);
    }
}

/// The first outcome that does not decode determines the error of the
/// sequence decode.
proof fn lemma_lookups_first_err(outcomes: Seq<FetchOutcome>, i: int, e: FilmError)
    requires
        0 <= i < outcomes.len(),
        forall|k: int| 0 <= k < i ==> lookup_outcome_spec(outcomes[k]) is Ok,
        lookup_outcome_spec(outcomes[i]) == Err::<FilmView, FilmError>(e),
    ensures
        lookups_spec(outcomes) == Err::<Seq<FilmView>, FilmError>(e),
    decreases i,
{
    if i > 0 {
        let tail = outcomes.drop_first();
        assert(lookup_outcome_spec(outcomes[0]) is Ok);
        assert forall|k: int| 0 <= k < i - 1 implies lookup_outcome_spec(tail[k]) is Ok by {
            assert(tail[k] == outcomes[k + 1]);
        }
        assert(tail[i - 1] == outcomes[i]);
        lemma_lookups_first_err(tail, i - 1, e);
    }
}

/// Decodes the outcomes of the per-candidate lookups a search performs,
/// in the order the candidates were scraped, stopping at the first
/// outcome that does not decode.
pub fn films_from_lookups(outcomes: &Vec<FetchOutcome>) -> (r: Result<Vec<Film>, FilmError>)
    ensures
        (match (r, lookups_spec(outcomes@)) {
            (Ok(films), Ok(vs)) => views_of_films(films@) == vs,
            (Err(e1), Err(e2)) => e1 == e2,
            _ => false,
        }),
{
    let mut films: Vec<Film> = Vec::new();
    let mut i: usize = 0;
    while i < outcomes.len()
        invariant
            i <= outcomes.len(),
            films@.len() == i,
            forall|k: int|
                0 <= k < i ==> lookup_outcome_spec(outcomes@[k]) == Ok::<FilmView, FilmError>(
                    films@[k]@,
                ),
        decreases outcomes.len() - i,
    {
        match decode_lookup(&outcomes[i]) {
            Ok(film) => {
                films.push(film);
            },
            Err(e) => {
                proof {
                    lemma_lookups_first_err(outcomes@, i as int, e);
                }
                return Err(e);
            },
        }
        i += 1;
    }
    proof {
        let vs = views_of_films(films@);
        assert forall|k: int|
            0 <= k < outcomes@.len() implies lookup_outcome_spec(outcomes@[k]) == Ok::<
            FilmView,
            FilmError,
        >(vs[k]) by {
            assert(vs[k] == films@[k]@);
        }
        lemma_lookups_all_ok(outcomes@, vs);
    }
    Ok(films)
}

/// Law: when the transport fails, each of the three operations reports
/// the failure as an error value; a lookup by title or by identifier
/// returns the transport error, and so does a search whose endpoint
/// request failed.
pub proof fn lemma_transport_failure_reported()
    ensures
        lookup_outcome_spec(FetchOutcome::Failed) == Err::<FilmView, FilmError>(
            FilmError::Transport,
        ),
        search_outcome_spec(FetchOutcome::Failed) == Err::<Seq<Seq<char>>, FilmError>(
            FilmError::Transport,
        ),
{
}

/// Law: when a per-candidate lookup of a search meets a transport
/// failure after the earlier candidates decoded, the search reports the
/// transport error.
pub proof fn lemma_search_lookup_transport_reported(outcomes: Seq<FetchOutcome>, i: int)
    requires
        0 <= i < outcomes.len(),
        forall|k: int| 0 <= k < i ==> lookup_outcome_spec(outcomes[k]) is Ok,
        outcomes[i] == FetchOutcome::Failed,
    ensures
        lookups_spec(outcomes) == Err::<Seq<FilmView>, FilmError>(FilmError::Transport),
{
    lemma_lookups_first_err(outcomes, i, FilmError::Transport);
}

} // verus!
