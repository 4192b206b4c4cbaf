//! Small helpers shared by callers of the library.
//!
//! `expect` and `unwrap` take the success value out of a result. The
//! library's functions never terminate the process, so the failure case
//! is excluded up front; the caller-facing layer around the library
//! checks the result first and reports the error itself when it wants
//! the original report-and-exit behaviour.

use vstd::prelude::*;

verus! {

/// The success value of a result known to be a success; the message
/// names the operation for the caller-facing error report.
#[allow(unused_variables)]
pub fn expect<T, E>(result: Result<T, E>, msg: &str) -> (v: T)
    requires
        result is Ok,
    ensures
        result matches Ok(r) && v == r,
{
    match result {
        Ok(v) => v,
        Err(_) => vstd::pervasive::unreached(),
    }
}

/// The success value of a result known to be a success.
pub fn unwrap<T, E>(result: Result<T, E>) -> (v: T)
    requires
        result is Ok,
    ensures
        result matches Ok(r) && v == r,
{
    expect(result, "unwrap failed")
}

/// As `expect`, with a message already formatted by the caller.
#[allow(unused_variables)]
pub fn expect_fmt<T, E>(result: Result<T, E>, msg: &str) -> (v: T)
    requires
        result is Ok,
    ensures
        result matches Ok(r) && v == r,
{
    expect(result, msg)
}

} // verus!
