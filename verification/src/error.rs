use vstd::prelude::*;

verus! {

/// Errors raised by the verified parts of the framework.
#[derive(Debug)]
pub enum Error {
    /// The other side of a connection or channel is gone.
    Closed,
    /// A request id was drawn that still belongs to a pending request.
    IdCollision,
    /// An error reported by a cryptographic primitive, with its text.
    Custom(String),
}

impl Error {
    /// The human readable text of this error.
    pub fn message(&self) -> (text: String)
        ensures
            text@ == match self {
                Error::Closed => "Connection closed."@,
                Error::IdCollision => "Id collision occured."@,
                Error::Custom(s) => s@,
            },
    {
        match self {
            Error::Closed => String::from_str("Connection closed."),
            Error::IdCollision => String::from_str("Id collision occured."),
            Error::Custom(s) => s.clone(),
        }
    }
}

} // verus!
