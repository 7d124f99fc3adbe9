use omdbrs::FetchOutcome;
use omdbrs::Film;
use omdbrs::FilmError;
use omdbrs::extract_titles;
use omdbrs::films_from_lookups;
use omdbrs::id_query_url;
use omdbrs::search_candidates;
use omdbrs::search_query_url;
use omdbrs::title_query_url;

fn shrek_body() -> String {
    String::from(
        "{\"Title\":\"Shrek\",\"Year\":\"2001\",\"Runtime\":\"90 min\",\
         \"Rated\":\"PG\",\"Released\":\"18 May 2001\",\"Genre\":\"Animation\",\
         \"Director\":\"Andrew Adamson\",\"Writer\":\"William Steig\",\
         \"Actors\":\"Mike Myers\",\"Plot\":\"An ogre rescues a princess.\",\
         \"Language\":\"English\"}",
    )
}

fn shrek_two_body() -> String {
    String::from(
        "{\"Title\":\"Shrek 2\",\"Year\":\"2004\",\"Runtime\":\"93 min\",\
         \"Rated\":\"PG\",\"Released\":\"19 May 2004\",\"Genre\":\"Animation\",\
         \"Director\":\"Andrew Adamson\",\"Writer\":\"William Steig\",\
         \"Actors\":\"Mike Myers\",\"Plot\":\"The ogre meets the in-laws.\",\
         \"Language\":\"English\"}",
    )
}

fn not_found_body() -> String {
    String::from("{\"Response\":\"False\",\"Error\":\"Movie not found!\"}")
}

#[test]
fn it_works() {
    assert_eq!(2 + 2, 4);
}

#[test]
fn from_title_test() {
    let film: Film = Film::from_title(FetchOutcome::Body(shrek_body())).unwrap();

    assert_eq!(film.get_title(), "Shrek");
    assert_eq!(film.get_year(), "2001");
    assert_eq!(film.get_runtime(), "90 min");

    assert!(Film::from_title(FetchOutcome::Body(not_found_body())).is_err());
}

#[test]
fn from_id_test() {
    let film: Film = Film::from_id(FetchOutcome::Body(shrek_body())).unwrap();

    assert_eq!(film.get_title(), "Shrek");
    assert_eq!(film.get_year(), "2001");

    assert!(Film::from_id(FetchOutcome::Body(not_found_body())).is_err());
}

#[test]
fn search_by_title_test() {
    let film = Film::from_title(FetchOutcome::Body(shrek_body())).unwrap();
    assert_eq!(film.get_title(), "Shrek");
    assert_eq!(film.get_year(), "2001");
}

#[test]
fn search_by_id_test() {
    let film = Film::from_id(FetchOutcome::Body(shrek_body())).unwrap();
    assert_eq!(film.get_title(), "Shrek");
    assert_eq!(film.get_year(), "2001");
}

#[test]
fn test_search_for() {
    let search_body = String::from(
        "{\"Search\":[{\"Title\":\"Shrek\",\"Year\":\"2001\"},\
         {\"Title\":\"Shrek 2\",\"Year\":\"2004\"}]}",
    );
    let candidates = search_candidates(&FetchOutcome::Body(search_body)).unwrap();
    assert_eq!(candidates, vec!["Shrek".to_string(), "Shrek 2".to_string()]);

    let outcomes = vec![
        FetchOutcome::Body(shrek_body()),
        FetchOutcome::Body(shrek_two_body()),
    ];
    let results: Vec<Film> = films_from_lookups(&outcomes).unwrap();
    assert_eq!(results[0].get_title(), "Shrek");
    assert_eq!(results[1].get_title(), "Shrek 2");
}

#[test]
fn accessors_return_constructed_values() {
    let film = Film::new(
        "A Title".to_string(),
        "1999".to_string(),
        "100 min".to_string(),
        "PG".to_string(),
        "1 Jan 1999".to_string(),
        "Drama".to_string(),
        "A Director".to_string(),
        "A Writer".to_string(),
        "Some Actors".to_string(),
        "A plot.".to_string(),
        "English".to_string(),
    );
    assert_eq!(film.get_title(), "A Title");
    assert_eq!(film.get_year(), "1999");
    assert_eq!(film.get_runtime(), "100 min");
    assert_eq!(film.get_rated(), "PG");
    assert_eq!(film.get_released(), "1 Jan 1999");
    assert_eq!(film.get_genre(), "Drama");
    assert_eq!(film.get_director(), "A Director");
    assert_eq!(film.get_writer(), "A Writer");
    assert_eq!(film.get_actors(), "Some Actors");
    assert_eq!(film.get_plot(), "A plot.");
    assert_eq!(film.get_language(), "English");
}

#[test]
fn decode_encode_round_trip() {
    let first = Film::from_title(FetchOutcome::Body(shrek_body())).unwrap();
    let encoded = first.to_json();
    let second = Film::from_title(FetchOutcome::Body(encoded)).unwrap();

    assert_eq!(first.get_title(), second.get_title());
    assert_eq!(first.get_year(), second.get_year());
    assert_eq!(first.get_runtime(), second.get_runtime());
    assert_eq!(first.get_rated(), second.get_rated());
    assert_eq!(first.get_released(), second.get_released());
    assert_eq!(first.get_genre(), second.get_genre());
    assert_eq!(first.get_director(), second.get_director());
    assert_eq!(first.get_writer(), second.get_writer());
    assert_eq!(first.get_actors(), second.get_actors());
    assert_eq!(first.get_plot(), second.get_plot());
    assert_eq!(first.get_language(), second.get_language());
}

#[test]
fn encode_produces_exact_document() {
    let film = Film::from_title(FetchOutcome::Body(shrek_body())).unwrap();
    let expected = "{\"Title\":\"Shrek\",\"Year\":\"2001\",\"Runtime\":\"90 min\",\
                    \"Rated\":\"PG\",\"Released\":\"18 May 2001\",\"Genre\":\"Animation\",\
                    \"Director\":\"Andrew Adamson\",\"Writer\":\"William Steig\",\
                    \"Actors\":\"Mike Myers\",\"Plot\":\"An ogre rescues a princess.\",\
                    \"Language\":\"English\"}";
    assert_eq!(film.to_json(), expected);
}

#[test]
fn encode_escapes_special_characters() {
    let film = Film::new(
        "A \"quoted\" \\ title\n".to_string(),
        "2001".to_string(),
        "90 min".to_string(),
        "PG".to_string(),
        "18 May 2001".to_string(),
        "Animation".to_string(),
        "D".to_string(),
        "W".to_string(),
        "A".to_string(),
        "P".to_string(),
        "L".to_string(),
    );
    let encoded = film.to_json();
    assert!(encoded.contains("A \\\"quoted\\\" \\\\ title\\n"));

    let reparsed = Film::from_title(FetchOutcome::Body(encoded)).unwrap();
    assert_eq!(reparsed.get_title(), "A \"quoted\" \\ title\n");
}

#[test]
fn encode_escapes_control_characters() {
    let film = Film::new(
        "a\u{8}b\u{c}c\u{1f}d".to_string(),
        "2001".to_string(),
        "90 min".to_string(),
        "PG".to_string(),
        "18 May 2001".to_string(),
        "Animation".to_string(),
        "D".to_string(),
        "W".to_string(),
        "A".to_string(),
        "P".to_string(),
        "L".to_string(),
    );
    let encoded = film.to_json();
    assert!(encoded.contains("a\\b"));
    assert!(encoded.contains("b\\f"));
    assert!(encoded.contains("c\\u001f"));

    let reparsed = Film::from_title(FetchOutcome::Body(encoded)).unwrap();
    assert_eq!(reparsed.get_title(), "a\u{8}b\u{c}c\u{1f}d");
}

#[test]
fn transport_failure_is_reported() {
    assert_eq!(
        Film::from_title(FetchOutcome::Failed).unwrap_err(),
        FilmError::Transport
    );
    assert_eq!(
        Film::from_id(FetchOutcome::Failed).unwrap_err(),
        FilmError::Transport
    );
    assert_eq!(
        search_candidates(&FetchOutcome::Failed).unwrap_err(),
        FilmError::Transport
    );
    let outcomes = vec![FetchOutcome::Body(shrek_body()), FetchOutcome::Failed];
    assert_eq!(
        films_from_lookups(&outcomes).unwrap_err(),
        FilmError::Transport
    );
}

#[test]
fn nonsense_lookup_is_not_found() {
    assert_eq!(
        Film::from_title(FetchOutcome::Body(not_found_body())).unwrap_err(),
        FilmError::FilmNotFound
    );
    assert_eq!(
        Film::from_id(FetchOutcome::Body(not_found_body())).unwrap_err(),
        FilmError::FilmNotFound
    );
    assert_eq!(
        Film::from_title(FetchOutcome::Body(String::from("not json at all"))).unwrap_err(),
        FilmError::FilmNotFound
    );
    let missing_field = String::from("{\"Title\":\"Shrek\",\"Year\":\"2001\"}");
    assert_eq!(
        Film::from_title(FetchOutcome::Body(missing_field)).unwrap_err(),
        FilmError::FilmNotFound
    );
}

#[test]
fn search_with_no_matches_is_not_found() {
    let empty = String::from("{\"Response\":\"False\",\"Error\":\"Movie not found!\"}");
    assert_eq!(
        search_candidates(&FetchOutcome::Body(empty)).unwrap_err(),
        FilmError::FilmNotFound
    );
}

#[test]
fn extract_titles_scans_in_order() {
    let body = "{\"Title\":\"Alpha One\",\"x\":1,\"Title\":\"Beta_2\"}";
    assert_eq!(
        extract_titles(body),
        vec!["Alpha One".to_string(), "Beta_2".to_string()]
    );
}

#[test]
fn extract_titles_admits_unicode_word_characters() {
    let body = "{\"Search\":[{\"Title\":\"Am\u{e9}lie\"},{\"Title\":\"\u{441}\u{43e}\u{43b}\u{44f}\u{440}\u{438}\u{441} 2\"}]}";
    assert_eq!(
        extract_titles(body),
        vec!["Am\u{e9}lie".to_string(), "\u{441}\u{43e}\u{43b}\u{44f}\u{440}\u{438}\u{441} 2".to_string()]
    );

    let candidates =
        search_candidates(&FetchOutcome::Body("{\"Title\":\"Am\u{e9}lie\"}".to_string())).unwrap();
    assert_eq!(candidates, vec!["Am\u{e9}lie".to_string()]);
}

#[test]
fn extract_titles_rejects_malformed_members() {
    assert_eq!(extract_titles(""), Vec::<String>::new());
    assert_eq!(extract_titles("\"Title\":\"\""), Vec::<String>::new());
    assert_eq!(extract_titles("\"Title\":\"It's Odd\""), Vec::<String>::new());
    assert_eq!(extract_titles("\"Title\":\"Unclosed"), Vec::<String>::new());
    assert_eq!(
        extract_titles("x\"Title\":\"Shrek 2\"y"),
        vec!["Shrek 2".to_string()]
    );
}

#[test]
fn query_urls_are_exact() {
    assert_eq!(
        title_query_url("shrek", "21e783b3"),
        "http://www.omdbapi.com/?apikey=21e783b3&t=shrek"
    );
    assert_eq!(
        id_query_url("tt0126029", "21e783b3"),
        "http://www.omdbapi.com/?apikey=21e783b3&i=tt0126029"
    );
    assert_eq!(
        search_query_url("shrek", "21e783b3"),
        "http://www.omdbapi.com/?apikey=21e783b3&s=shrek"
    );
}

#[test]
fn error_messages() {
    assert_eq!(
        FilmError::FilmNotFound.message(),
        "No film matching the given criteria was found"
    );
    assert_eq!(
        FilmError::Transport.message(),
        "The request could not be completed"
    );
}

#[test]
fn empty_lookup_list_yields_no_films() {
    let outcomes: Vec<FetchOutcome> = Vec::new();
    let films = films_from_lookups(&outcomes).unwrap();
    assert_eq!(films.len(), 0);
}
