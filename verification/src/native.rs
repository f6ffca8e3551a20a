//! The native engine's raw results, read as typed outcomes.
//!
//! The engine reports failure by a null pointer or a sentinel integer and
//! keeps the reason in a slot of the calling thread. This module decides,
//! from the raw result alone, whether the call succeeded and where its error
//! is to be found; reading the slot is left to the caller, who must do so
//! before any other call into the engine on the same thread.

use vstd::prelude::*;

verus! {

/// The engine's code for success.
pub const AWS_OP_SUCCESS: i32 = 0;

/// The engine's code for failure, with the reason in the last-error slot.
pub const AWS_OP_ERR: i32 = -1;

/// Seals a trait against implementations outside the crate that declares it.
pub trait Sealed {
}

/// Where the error of a failed native call is to be found.
#[derive(Debug, Clone, Copy, PartialEq, Eq)]
pub enum ErrorSource {
    /// In the last-error slot of the calling thread.
    LastError,
    /// In the result itself, which was neither sentinel: it is taken as an error code.
    Code(i32),
}

/// What an integer result of the engine means.
pub open spec fn outcome_of_code(code: i32) -> Result<(), ErrorSource> {
    if code == AWS_OP_SUCCESS {
        Ok(())
    } else if code == AWS_OP_ERR {
        Err(ErrorSource::LastError)
    } else {
        Err(ErrorSource::Code(code))
    }
}

/// Reads an integer result of the engine. Only the success code is a
/// success; any other value is an error and is never swallowed.
pub fn ok_or_last_error(code: i32) -> (r: Result<(), ErrorSource>)
    ensures
        r == outcome_of_code(code),
{
    if code == AWS_OP_SUCCESS {
        Ok(())
    } else if code == AWS_OP_ERR {
        Err(ErrorSource::LastError)
    } else {
        Err(ErrorSource::Code(code))
    }
}

/// Reads a pointer result of the engine, given as its address: a null
/// address is a failure whose reason is in the last-error slot.
pub fn address_or_last_error(address: usize) -> (r: Result<usize, ErrorSource>)
    ensures
        address != 0 ==> r == Ok::<usize, ErrorSource>(address),
        address == 0 ==> r == Err::<usize, ErrorSource>(ErrorSource::LastError),
{
    if address == 0 {
        Err(ErrorSource::LastError)
    } else {
        Ok(address)
    }
}

/// Runs `f` where `result` is an error, and hands `result` on unchanged.
pub fn on_err<T, E, F: FnOnce()>(result: Result<T, E>, f: F) -> (out: Result<T, E>)
    requires
        result is Err ==> f.requires(()),
    ensures
        out == result,
        result is Err ==> f.ensures((), ()),
{
    match result {
        Ok(val) => Ok(val),
        Err(err) => {
            f();
            Err(err)
        },
    }
}

} // verus!
