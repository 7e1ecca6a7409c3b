//! The two failure payloads a native call can report, and the bridge from
//! the out-parameter error convention to a result.

use vstd::prelude::*;

verus! {

/// The error object a failed call leaves in its caller-owned error slot:
/// a domain and a code, which is all the bridge relays.
#[derive(Clone, Copy, PartialEq, Eq, Structural, Debug)]
pub struct Error {
    /// The domain the code belongs to.
    pub domain: u64,
    /// The error code inside that domain.
    pub code: i64,
}

impl Error {
    pub fn new(domain: u64, code: i64) -> (r: Error)
        ensures
            r.domain == domain,
            r.code == code,
    {
        Error { domain, code }
    }

    /// The fallback for a call that broke the reporting convention itself:
    /// it indicated failure but left the error slot empty. Failing silently
    /// is not an option, so this generic error stands in.
    pub fn unknown_failure() -> (r: Error)
        ensures
            r == spec_unknown_failure(),
    {
        Error { domain: 0, code: -1i64 }
    }
}

/// The fallback error value, for contracts to name.
pub open spec fn spec_unknown_failure() -> Error {
    Error { domain: 0, code: -1i64 }
}

/// The exception object a range-violating call throws, caught at the
/// boundary and carried as a failure payload.
#[derive(Clone, Copy, PartialEq, Eq, Structural, Debug)]
pub struct Exception {
    /// The kind of condition the native side raised.
    pub kind: u64,
}

impl Exception {
    /// The exception raised for an index or range beyond a container's
    /// bounds.
    pub fn range_exception() -> (r: Exception)
        ensures
            r == spec_range_exception(),
    {
        Exception { kind: 1 }
    }
}

/// The range-violation exception value, for contracts to name.
pub open spec fn spec_range_exception() -> Exception {
    Exception { kind: 1 }
}

/// What the out-parameter bridge hands back for a primary return and an
/// error slot.
pub open spec fn spec_if_false(ok: bool, err: Option<Error>) -> Result<(), Error> {
    if ok {
        Ok(())
    } else {
        match err {
            Some(e) => Err(e),
            None => Err(spec_unknown_failure()),
        }
    }
}

/// The synchronous error-propagation bridge. A true primary return means
/// success, and the error slot is then ignored even if populated (native
/// frameworks sometimes fill it spuriously on success). A false primary
/// return means failure: the slot's error is surfaced, or the generic
/// fallback when the slot was left empty against convention.
pub fn if_false_result(ok: bool, err: Option<Error>) -> (r: Result<(), Error>)
    ensures
        r == spec_if_false(ok, err),
        ok <==> r is Ok,
{
    if ok {
        Ok(())
    } else {
        match err {
            Some(e) => Err(e),
            None => Err(Error::unknown_failure()),
        }
    }
}

/// A spuriously populated error slot never turns a success into a failure:
/// the bridge reads the slot only on a false primary return.
pub proof fn lemma_spurious_error_ignored(err: Option<Error>)
    ensures
        spec_if_false(true, err) == Ok::<(), Error>(()),
{
}

/// The bridge never fails silently: a false primary return surfaces an
/// error even when the slot was left empty against convention.
pub proof fn lemma_no_silent_failure(err: Option<Error>)
    ensures
        spec_if_false(false, err) is Err,
{
}

} // verus!
