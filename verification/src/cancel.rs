//! Cooperative, single-use cancellation.
//!
//! The worker owns the receiving half of a one-shot signal and consults it
//! only at checkpoints; cancellation never preempts a blocking call in
//! progress. A checkpoint feeds the token one observation of the signal,
//! and the token latches: once the signal has fired - or once the sending
//! side is gone, which is indistinguishable from an explicit request -
//! every later checkpoint resolves to cancelled.

use vstd::prelude::*;

verus! {

/// What one observation of the one-shot cancellation signal shows.
#[derive(Clone, Copy, Debug, PartialEq, Eq, Structural)]
pub enum SignalState {
    /// The signal has fired: the consumer asked to cancel.
    Fired,
    /// The sending side was dropped without firing. Nobody will ever read
    /// further progress, so this counts as a cancellation request.
    Dropped,
    /// The signal has not fired and the sender is still alive.
    Quiet,
}

/// What a checkpoint resolves to.
#[derive(Clone, Copy, Debug, PartialEq, Eq, Structural)]
pub enum Decision {
    Continue,
    Cancelled,
}

/// The receive-once cancellation token, checked at well-defined
/// checkpoints.
pub struct CancellationToken {
    cancelled: bool,
}

impl CancellationToken {
    /// Whether some earlier checkpoint already resolved to cancelled.
    pub closed spec fn is_cancelled(&self) -> bool {
        self.cancelled
    }

    /// A fresh token: nothing observed, nothing cancelled.
    pub fn new() -> (r: CancellationToken)
        ensures
            !r.is_cancelled(),
    {
        CancellationToken { cancelled: false }
    }

    /// One checkpoint: folds an observation of the signal into the token
    /// and resolves. A fired signal and a dropped sender both cancel, and
    /// cancellation latches - once cancelled, every later checkpoint
    /// resolves to cancelled whatever is observed.
    pub fn check(&mut self, observed: SignalState) -> (r: Decision)
        ensures
            final(self).is_cancelled() == (old(self).is_cancelled() || observed
                != SignalState::Quiet),
            r == (if final(self).is_cancelled() {
                Decision::Cancelled
            } else {
                Decision::Continue
            }),
    {
        match observed {
            SignalState::Fired => {
                self.cancelled = true;
            },
            SignalState::Dropped => {
                self.cancelled = true;
            },
            SignalState::Quiet => {},
        }
        if self.cancelled {
            Decision::Cancelled
        } else {
            Decision::Continue
        }
    }
}

} // verus!
