use vstd::prelude::*;

verus! {

/// The failures a client operation can report.
///
/// Every fallible step of an operation is converted into one of these
/// values and returned to the caller; nothing panics and nothing is
/// swallowed.
#[derive(Clone, Copy, Debug, PartialEq, Eq, Structural)]
pub enum FilmError {
    /// No film matching the given criteria was found, or the response
    /// could not be decoded into a film record.
    FilmNotFound,
    /// The request itself could not be completed (connection failure or
    /// timeout).
    Transport,
}

impl FilmError {
    /// A human-readable description of the error.
    pub fn message(&self) -> (r: String)
        ensures
            *self == FilmError::FilmNotFound ==> r@ == "No film matching the given criteria was found"@,
            *self == FilmError::Transport ==> r@ == "The request could not be completed"@,
    {
        match self {
            FilmError::FilmNotFound => "No film matching the given criteria was found".to_owned(),
            FilmError::Transport => "The request could not be completed".to_owned(),
        }
    }
}

} // verus!
