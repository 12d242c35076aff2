use vstd::prelude::*;

verus! {

/// The bridge's single error kind: a generic failure carrying a
/// human-readable message that names the expression which could not be
/// fetched from the scripting engine.
#[derive(Debug, PartialEq, Eq)]
pub enum SpringtimeError {
    Generic(String),
}

/// The message carried by an error, as a sequence of characters.
pub open spec fn error_view(e: SpringtimeError) -> Seq<char> {
    match e {
        SpringtimeError::Generic(m) => m@,
    }
}

impl SpringtimeError {
    /// The diagnostic message carried by the error.
    pub fn message(&self) -> (m: &String)
        ensures
            m@ == error_view(*self),
    {
        match self {
            SpringtimeError::Generic(m) => m,
        }
    }
}

} // verus!
