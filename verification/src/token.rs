//! The cancellation signal of a transcription job.

use vstd::prelude::*;

verus! {

/// A one-way cancellation signal. It starts cleared, is raised by a
/// cancellation request and is cleared again only when a new job is accepted.
pub struct CancellationToken {
    raised: bool,
}

impl CancellationToken {
    /// Whether cancellation has been requested since the last reset.
    pub closed spec fn is_raised(&self) -> bool {
        self.raised
    }

    /// A token in its default state: not raised.
    pub fn new() -> (token: Self)
        ensures
            !token.is_raised(),
    {
        CancellationToken { raised: false }
    }

    /// Requests cancellation. Raising a raised token changes nothing.
    pub fn raise(&mut self)
        ensures
            final(self).is_raised(),
    {
        self.raised = true;
    }

    /// Clears the signal, as done when a new job is accepted.
    pub fn reset(&mut self)
        ensures
            !final(self).is_raised(),
    {
        self.raised = false;
    }

    /// Reads the signal; this is what the engine polls at its checkpoints.
    pub fn check(&self) -> (raised: bool)
        ensures
            raised == self.is_raised(),
    {
        self.raised
    }
}

} // verus!
