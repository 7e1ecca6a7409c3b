//! The completion-callback bridge: a native asynchronous call delivers its
//! outcome through a one-shot callback, and the callback resolves a
//! single-assignment future the caller waits on.
//!
//! Resolution happens at most once: resolving demands an unresolved
//! future, and nothing ever clears a resolution, so a verified caller can
//! neither resolve twice nor lose an outcome.

use vstd::prelude::*;

use crate::ns::error::Error;

verus! {

/// A single-assignment future for an outcome of type `T`: empty until the
/// completion callback fires, then holding the delivered result or error
/// forever.
pub struct Completion<T> {
    state: Option<Result<T, Error>>,
}

impl<T> Completion<T> {
    /// Whether the callback has fired.
    pub closed spec fn resolved(self) -> bool {
        self.state is Some
    }

    /// The outcome the callback delivered.
    pub closed spec fn outcome(self) -> Result<T, Error>
        recommends
            self.resolved(),
    {
        self.state->Some_0
    }

    /// A fresh, unresolved future.
    pub fn new() -> (r: Completion<T>)
        ensures
            !r.resolved(),
    {
        Completion { state: None }
    }

    /// The completion callback's single shot: delivers the outcome into an
    /// as-yet unresolved future. A second delivery has no verified caller,
    /// because every caller must show the future still unresolved.
    pub fn resolve(&mut self, outcome: Result<T, Error>)
        requires
            !old(self).resolved(),
        ensures
            final(self).resolved(),
            final(self).outcome() == outcome,
    {
        self.state = Some(outcome);
    }

    /// Whether the future already holds its outcome.
    pub fn is_resolved(&self) -> (r: bool)
        ensures
            r == self.resolved(),
    {
        self.state.is_some()
    }

    /// The caller's suspension point: consumes the resolved future and
    /// hands over the delivered outcome.
    pub fn wait(self) -> (r: Result<T, Error>)
        requires
            self.resolved(),
        ensures
            r == self.outcome(),
    {
        match self.state {
            Some(outcome) => outcome,
            None => unreached(),
        }
    }
}

/// The future behind a completion handler that reports only success or an
/// error.
pub type ErrCompletionHandler = Completion<()>;

/// A fresh future for a success-or-error completion, as handed to an
/// asynchronous native call.
pub fn ok() -> (r: ErrCompletionHandler)
    ensures
        !r.resolved(),
{
    Completion::new()
}

/// A fresh future for a completion that delivers a result value.
pub fn result<T>() -> (r: Completion<T>)
    ensures
        !r.resolved(),
{
    Completion::new()
}

} // verus!
