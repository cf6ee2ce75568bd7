//! The errors of loading and registering component libraries.

use vstd::prelude::*;
use vstd::string::*;

verus! {

/// The errors of loading and registering component libraries.
#[derive(Debug, Clone, Copy, PartialEq, Eq, Structural)]
pub enum Error {
    /// the library was not found
    NotFound,
    /// the library's components could not be registered
    RegisterFailed,
    /// the library could not be unloaded
    UnloadFailed,
    /// the library's components could not be deregistered
    DeregisterFailed,
}

/// The message of an error.
pub open spec fn error_text(e: Error) -> Seq<char> {
    match e {
        Error::NotFound => "library not found"@,
        Error::RegisterFailed => "register library failed"@,
        Error::UnloadFailed => "unload of library failed"@,
        Error::DeregisterFailed => "deregister library failed"@,
    }
}

impl Error {
    /// The message of the error.
    pub fn message(&self) -> (r: String)
        ensures
            r@ == error_text(*self),
    {
        match self {
            Error::NotFound => String::from_str("library not found"),
            Error::RegisterFailed => String::from_str("register library failed"),
            Error::UnloadFailed => String::from_str("unload of library failed"),
            Error::DeregisterFailed => String::from_str("deregister library failed"),
        }
    }
}

} // verus!
