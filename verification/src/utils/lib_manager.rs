//! What the loading of a component library decides from what the library's
//! registration functions return.

use vstd::prelude::*;
use crate::utils::error::Error;

verus! {

/// The outcome of a library's registration function that returned `code`:
/// success for 0, else a failed registration.
pub fn registration_result(code: u32) -> (r: Result<(), Error>)
    ensures
        code == 0 ==> r is Ok,
        code != 0 ==> r == Err::<(), Error>(Error::RegisterFailed),
{
    if code == 0 {
        Ok(())
    } else {
        Err(Error::RegisterFailed)
    }
}

/// The outcome of a library's deregistration function that returned `code`:
/// success for 0, else a failed deregistration.
pub fn deregistration_result(code: u32) -> (r: Result<(), Error>)
    ensures
        code == 0 ==> r is Ok,
        code != 0 ==> r == Err::<(), Error>(Error::DeregisterFailed),
{
    if code == 0 {
        Ok(())
    } else {
        Err(Error::DeregisterFailed)
    }
}

} // verus!
