//! The errors of building communication components.

use vstd::prelude::*;
use vstd::string::*;

verus! {

/// The errors of building communication components.
#[derive(Debug, Clone, Copy, PartialEq, Eq, Structural)]
pub enum Error {
    /// no session to communicate through
    NoZenohSession,
}

impl Error {
    /// The message of the error.
    pub fn message(&self) -> (r: String)
        ensures
            r@ == "no zenoh session available"@,
    {
        match self {
            Error::NoZenohSession => String::from_str("no zenoh session available"),
        }
    }
}

} // verus!
