//! Host-side state of a fence.

use vstd::prelude::*;
use crate::id::QueueId;

verus! {

/// The queue and the epoch of the submission that a fence stands for.
#[derive(Clone, Copy, Debug, PartialEq, Eq, Structural)]
pub struct FenceEpoch {
    /// The queue that the fence was submitted to.
    pub queue: QueueId,
    /// The queue's epoch at the time of the submission.
    pub epoch: u64,
}

/// What the host knows of a fence.
#[derive(Clone, Copy, Debug, PartialEq, Eq, Structural)]
pub enum FenceState {
    /// Not part of any submission.
    Unsignaled,
    /// Handed to a queue with the submission that the tag names.
    Pending(FenceEpoch),
}

/// A fence: the handle of the native fence together with its host-side state.
#[derive(Debug)]
pub struct Fence {
    raw: u64,
    state: FenceState,
}

impl Fence {
    /// The handle of the native fence.
    pub closed spec fn spec_raw(&self) -> u64 {
        self.raw
    }

    /// The host-side state.
    pub closed spec fn spec_state(&self) -> FenceState {
        self.state
    }

    /// A fresh fence around the native fence `raw`: unsignaled.
    pub fn new(raw: u64) -> (fence: Fence)
        ensures
            fence.spec_raw() == raw,
            fence.spec_state() == FenceState::Unsignaled,
    {
        Fence { raw, state: FenceState::Unsignaled }
    }

    /// The handle of the native fence.
    #[verifier::when_used_as_spec(spec_raw)]
    pub fn raw(&self) -> (raw: u64)
        ensures
            raw == self.spec_raw(),
    {
        self.raw
    }

    /// The host-side state.
    #[verifier::when_used_as_spec(spec_state)]
    pub fn state(&self) -> (state: FenceState)
        ensures
            state == self.spec_state(),
    {
        self.state
    }

    /// Whether the fence is free to go into a submission.
    pub open spec fn spec_is_unsignaled(&self) -> bool {
        self.spec_state() == FenceState::Unsignaled
    }

    /// Whether the fence is free to go into a submission.
    #[verifier::when_used_as_spec(spec_is_unsignaled)]
    pub fn is_unsignaled(&self) -> (free: bool)
        ensures
            free == self.spec_is_unsignaled(),
    {
        match self.state {
            FenceState::Unsignaled => true,
            FenceState::Pending(_) => false,
        }
    }

    /// The tag of the submission that the fence is pending on, if any.
    pub fn epoch(&self) -> (tag: Option<FenceEpoch>)
        ensures
            tag == (match self.spec_state() {
                FenceState::Unsignaled => None,
                FenceState::Pending(e) => Some(e),
            }),
    {
        match self.state {
            FenceState::Unsignaled => None,
            FenceState::Pending(e) => Some(e),
        }
    }

    /// Tags an unsignaled fence with the submission it went into.
    pub fn mark_submitted(&mut self, epoch: FenceEpoch)
        requires
            old(self).spec_is_unsignaled(),
        ensures
            final(self).spec_state() == FenceState::Pending(epoch),
            final(self).spec_raw() == old(self).spec_raw(),
    {
        self.state = FenceState::Pending(epoch);
    }
}

} // verus!
