use vstd::prelude::*;

verus! {

/// Errors of the door game: the operation is not legal in the room's
/// current state, or a door index lies outside the room's doors.
#[derive(Debug, Clone, Copy, PartialEq, Eq, Structural)]
pub enum Error {
    InvalidOperation,
    InvalidDoorIndex,
    Impossible,
}

impl Error {
    /// A short human-readable description of the error.
    pub fn message(&self) -> (r: &'static str)
        ensures
            *self == Error::InvalidOperation ==> r@ == "Invalid operation"@,
            *self == Error::InvalidDoorIndex ==> r@ == "Invalid door index"@,
            *self == Error::Impossible ==> r@ == "Impossible"@,
    {
        match self {
            Error::InvalidOperation => "Invalid operation",
            Error::InvalidDoorIndex => "Invalid door index",
            Error::Impossible => "Impossible",
        }
    }
}

pub type Result<T> = core::result::Result<T, Error>;

} // verus!
