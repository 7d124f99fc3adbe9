use vstd::prelude::*;

verus! {

/// The mathematical view of a [`Film`]: each field as a sequence of
/// characters.
pub struct FilmView {
    pub title: Seq<char>,
    pub year: Seq<char>,
    pub runtime: Seq<char>,
    pub rated: Seq<char>,
    pub released: Seq<char>,
    pub genre: Seq<char>,
    pub director: Seq<char>,
    pub writer: Seq<char>,
    pub actors: Seq<char>,
    pub plot: Seq<char>,
    pub language: Seq<char>,
}

/// One movie record as returned by the remote service.
///
/// A `Film` is immutable once constructed: every field is a piece of
/// free-form text that is always present (possibly empty), and the
/// accessors return copies of the stored text unchanged.
#[derive(Debug)]
pub struct Film {
    title: String,
    year: String,
    runtime: String,
    rated: String,
    released: String,
    genre: String,
    director: String,
    writer: String,
    actors: String,
    plot: String,
    language: String,
}

impl View for Film {
    type V = FilmView;

    closed spec fn view(&self) -> FilmView {
        FilmView {
            title: self.title@,
            year: self.year@,
            runtime: self.runtime@,
            rated: self.rated@,
            released: self.released@,
            genre: self.genre@,
            director: self.director@,
            writer: self.writer@,
            actors: self.actors@,
            plot: self.plot@,
            language: self.language@,
        }
    }
}

impl Film {
    /// Builds a record directly from its eleven fields; each accessor
    /// then returns exactly the text given here.
    pub fn new(
        title: String,
        year: String,
        runtime: String,
        rated: String,
        released: String,
        genre: String,
        director: String,
        writer: String,
        actors: String,
        plot: String,
        language: String,
    ) -> (film: Film)
        ensures
            film@ == (FilmView {
                title: title@,
                year: year@,
                runtime: runtime@,
                rated: rated@,
                released: released@,
                genre: genre@,
                director: director@,
                writer: writer@,
                actors: actors@,
                plot: plot@,
                language: language@,
            }),
    {
        Film { title, year, runtime, rated, released, genre, director, writer, actors, plot, language }
    }

    pub fn get_title(&self) -> (r: String)
        ensures
            r@ == self@.title,
    {
        self.title.clone()
    }

    pub fn get_year(&self) -> (r: String)
        ensures
            r@ == self@.year,
    {
        self.year.clone()
    }

    pub fn get_runtime(&self) -> (r: String)
        ensures
            r@ == self@.runtime,
    {
        self.runtime.clone()
    }

    pub fn get_rated(&self) -> (r: String)
        ensures
            r@ == self@.rated,
    {
        self.rated.clone()
    }

    pub fn get_released(&self) -> (r: String)
        ensures
            r@ == self@.released,
    {
        self.released.clone()
    }

    pub fn get_genre(&self) -> (r: String)
        ensures
            r@ == self@.genre,
    {
        self.genre.clone()
    }

    pub fn get_director(&self) -> (r: String)
        ensures
            r@ == self@.director,
    {
        self.director.clone()
    }

    pub fn get_writer(&self) -> (r: String)
        ensures
            r@ == self@.writer,
    {
        self.writer.clone()
    }

    pub fn get_actors(&self) -> (r: String)
        ensures
            r@ == self@.actors,
    {
        self.actors.clone()
    }

    pub fn get_plot(&self) -> (r: String)
        ensures
            r@ == self@.plot,
    {
        self.plot.clone()
    }

    pub fn get_language(&self) -> (r: String)
        ensures
            r@ == self@.language,
    {
        self.language.clone()
    }
}

} // verus!
