//! The assertion helpers of the toolkit, as verdict functions: each states
//! exactly when it accepts, and the message it reports when it does not.
//! A host-framework shim turns a returned message into a raised failure.

use crate::outcome::BodyResult;
use vstd::prelude::*;

verus! {

/// Expects a true expression; reports a failure message otherwise.
pub fn assert_true(cond: bool) -> (r: Result<(), String>)
    ensures
        r is Ok <==> cond,
        r matches Err(m) ==> m@ == "assertion failed: Expected 'true', but was 'false'"@,
{
    if cond {
        Ok(())
    } else {
        Err(String::from_str("assertion failed: Expected 'true', but was 'false'"))
    }
}

/// Expects a false expression; reports a failure message otherwise.
pub fn assert_false(cond: bool) -> (r: Result<(), String>)
    ensures
        r is Ok <==> !cond,
        r matches Err(m) ==> m@ == "assertion failed: Expected 'false', but was 'true'"@,
{
    if cond {
        Err(String::from_str("assertion failed: Expected 'false', but was 'true'"))
    } else {
        Ok(())
    }
}

/// Expects that a block raised an unwind signal.  The block runs inside an
/// unwind-capturing boundary whose captured result this function inspects:
/// a captured panic is what was expected, a value is a failure.
pub fn assert_panics<T>(outcome: &BodyResult<T>) -> (r: Result<(), String>)
    ensures
        r is Ok <==> outcome is Panicked,
        r matches Err(m) ==> m@ == "assertion failed: code in block did not panic"@,
{
    match outcome {
        BodyResult::Panicked(_) => Ok(()),
        BodyResult::Value(_) => Err(
            String::from_str("assertion failed: code in block did not panic"),
        ),
    }
}

} // verus!
