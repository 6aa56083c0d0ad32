//! The one-shot shutdown signal that ends the serving phase.
use vstd::prelude::*;

verus! {

/// Why the process is asked to terminate.
#[derive(Clone, Copy, Debug, PartialEq, Eq, Structural)]
pub enum ShutdownCause {
    /// The host closed the transport channel.
    ChannelClosed,
    /// The host sent an explicit shutdown instruction.
    ShutdownRequested,
}

/// A one-shot signal: once resolved, its cause never changes.
pub struct ShutdownSignal {
    cause: Option<ShutdownCause>,
}

/// The cause held after a resolution attempt with `cause` on a signal holding `current`.
pub open spec fn resolve_spec(current: Option<ShutdownCause>, cause: ShutdownCause) -> Option<
    ShutdownCause,
> {
    match current {
        Some(c) => Some(c),
        None => Some(cause),
    }
}

impl ShutdownSignal {
    /// The cause the signal was resolved with, if it has been resolved.
    pub closed spec fn cause_spec(&self) -> Option<ShutdownCause> {
        self.cause
    }

    /// A signal that has not resolved yet.
    pub fn new() -> (r: ShutdownSignal)
        ensures
            r.cause_spec() is None,
    {
        ShutdownSignal { cause: None }
    }

    /// Resolves the signal. Returns `true` if this call resolved it; a signal
    /// that is already resolved is left as it is and `false` is returned.
    pub fn resolve(&mut self, cause: ShutdownCause) -> (first: bool)
        ensures
            first == (old(self).cause_spec() is None),
            final(self).cause_spec() == resolve_spec(old(self).cause_spec(), cause),
    {
        if self.cause.is_none() {
            self.cause = Some(cause);
            true
        } else {
            false
        }
    }

    /// Whether the signal has resolved.
    pub fn is_resolved(&self) -> (r: bool)
        ensures
            r == (self.cause_spec() is Some),
    {
        self.cause.is_some()
    }

    /// The cause of resolution, if any.
    pub fn cause(&self) -> (r: Option<ShutdownCause>)
        ensures
            r == self.cause_spec(),
    {
        self.cause
    }
}

/// A signal resolves at most once: after any resolution, a later attempt with
/// any cause leaves the first cause in place.
pub proof fn lemma_resolves_at_most_once(
    current: Option<ShutdownCause>,
    first: ShutdownCause,
    second: ShutdownCause,
)
    ensures
        resolve_spec(resolve_spec(current, first), second) == resolve_spec(current, first),
        resolve_spec(None, first) == Some(first),
        current is Some ==> resolve_spec(current, second) == current,
{
}

} // verus!
