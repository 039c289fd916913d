//! A command queue and its host-side bookkeeping: which native submit calls a
//! submission turns into, and the epoch that each fenced submission gets.

use vstd::prelude::*;
use crate::fence::{Fence, FenceEpoch, FenceState};
use crate::id::{FamilyId, QueueId};
use crate::submission::{
    SubmissionView,
    all_in_family, batch_in_family, batch_views, call_of_batch, call_views, fence_only_call,
    native_calls, NativeCall, NativeSubmission, Submission, Submit,
};

verus! {

/// The epoch counter after one submission that started at `epoch`: a fenced
/// submission takes one epoch, a fenceless one takes none.
pub open spec fn epoch_step(epoch: int, fenced: bool) -> int {
    if fenced {
        epoch + 1
    } else {
        epoch
    }
}

/// The epoch counter after a run of submissions that started at `start`;
/// `fenced` says of each submission, in order, whether it had a fence.
pub open spec fn epoch_after(start: int, fenced: Seq<bool>) -> int
    decreases fenced.len(),
{
    if fenced.len() == 0 {
        start
    } else {
        epoch_step(epoch_after(start, fenced.drop_last()), fenced.last())
    }
}

/// A run of submissions advances the epoch counter by the number of fenced
/// submissions in it. So after a run of fenced submissions on a fresh queue
/// the counter equals the length of the run, and fenceless submissions leave
/// it where it was.
pub proof fn lemma_epoch_counts_fenced(start: int, fenced: Seq<bool>)
    ensures
        epoch_after(start, fenced) == start + fenced.filter(|b: bool| b).len(),
        (forall|i: int| 0 <= i < fenced.len() ==> fenced[i]) ==> epoch_after(start, fenced) == start
            + fenced.len(),
        (forall|i: int| 0 <= i < fenced.len() ==> !fenced[i]) ==> epoch_after(start, fenced)
            == start,
    decreases fenced.len(),
{
    reveal(Seq::filter);
    if fenced.len() > 0 {
        lemma_epoch_counts_fenced(start, fenced.drop_last());
    }
}

/// Why a queue refuses a submission.
#[derive(Clone, Copy, Debug, PartialEq, Eq, Structural)]
pub enum Refusal {
    /// The fence is not unsignaled.
    FencePending,
    /// The batch at this position holds a command buffer recorded for
    /// another family, and no batch before it does.
    ForeignBuffer(usize),
    /// The fence would take an epoch, and the queue has none left.
    EpochExhausted,
}

/// Position `k` is that of the first batch of `batches` with a command buffer
/// that was not recorded for `family`.
pub open spec fn is_first_foreign(batches: Seq<SubmissionView>, family: FamilyId, k: int) -> bool {
    &&& 0 <= k < batches.len()
    &&& !batch_in_family(batches[k], family)
    &&& forall|i: int| 0 <= i < k ==> batch_in_family(#[trigger] batches[i], family)
}

/// What stands in the way of submitting `batches` to a queue of `family` at
/// `epoch`, with a fence in state `fence` if there is one. The fence is looked
/// at first, then the batches in order, then the epoch.
pub open spec fn refusal_of(
    family: FamilyId,
    epoch: u64,
    batches: Seq<SubmissionView>,
    fence: Option<FenceState>,
    refusal: Option<Refusal>,
) -> bool {
    if fence is Some && fence != Some(FenceState::Unsignaled) {
        refusal == Some(Refusal::FencePending)
    } else if !all_in_family(batches, family) {
        refusal matches Some(Refusal::ForeignBuffer(k)) && is_first_foreign(
            batches,
            family,
            k as int,
        )
    } else if fence is Some && epoch == u64::MAX {
        refusal == Some(Refusal::EpochExhausted)
    } else {
        refusal is None
    }
}

/// A command queue: the native queue together with its identifier and the
/// epoch of its next fenced submission.
#[derive(Debug)]
pub struct Queue<Q> {
    raw: Q,
    id: QueueId,
    next_epoch: u64,
}

fn copied<T: Copy>(items: &Vec<T>) -> (copy: Vec<T>)
    ensures
        copy@ == items@,
{
    let mut copy: Vec<T> = Vec::new();
    let mut i: usize = 0;
    while i < items.len()
        invariant
            i <= items.len(),
            copy@ == items@.take(i as int),
        decreases items.len() - i,
    {
        copy.push(items[i]);
        proof {
            assert(items@.take(i + 1) =~= items@.take(i as int).push(items@[i as int]));
        }
        i += 1;
    }
    proof {
        assert(items@.take(items@.len() as int) =~= items@);
    }
    copy
}

fn raw_handles(submits: &Vec<Submit>) -> (raws: Vec<u64>)
    ensures
        raws@ == submits@.map_values(|s: Submit| s.raw),
{
    let mut raws: Vec<u64> = Vec::new();
    let mut i: usize = 0;
    while i < submits.len()
        invariant
            i <= submits.len(),
            raws@ == submits@.take(i as int).map_values(|s: Submit| s.raw),
        decreases submits.len() - i,
    {
        raws.push(submits[i].raw);
        proof {
            assert(submits@.take(i + 1) =~= submits@.take(i as int).push(submits@[i as int]));
            assert(raws@ =~= submits@.take(i + 1).map_values(|s: Submit| s.raw));
        }
        i += 1;
    }
    proof {
        assert(submits@.take(submits@.len() as int) =~= submits@);
    }
    raws
}

fn recorded_for(batch: &Submission, family: FamilyId) -> (all: bool)
    ensures
        all == batch_in_family(batch@, family),
{
    let mut j: usize = 0;
    while j < batch.submits.len()
        invariant
            j <= batch.submits.len(),
            forall|k: int| 0 <= k < j ==> (#[trigger] batch.submits@[k]).family == family,
        decreases batch.submits.len() - j,
    {
        if batch.submits[j].family != family {
            proof {
                assert(batch@.submits[j as int].family != family);
            }
            return false;
        }
        j += 1;
    }
    true
}

fn issue(submissions: &Vec<Submission>, fence: Option<u64>) -> (calls: Vec<NativeSubmission>)
    ensures
        call_views(calls@) == native_calls(batch_views(submissions@), fence),
{
    let mut calls: Vec<NativeSubmission> = Vec::new();
    let count: usize = submissions.len();
    if count == 0 {
        if fence.is_some() {
            calls.push(
                NativeSubmission {
                    command_buffers: Vec::new(),
                    wait_semaphores: Vec::new(),
                    signal_semaphores: Vec::new(),
                    fence,
                },
            );
            proof {
                assert(call_views(calls@) =~= seq![fence_only_call(fence)]);
            }
        } else {
            proof {
                assert(call_views(calls@) =~= Seq::<NativeCall>::empty());
            }
        }
        return calls;
    }
    let ghost batches = batch_views(submissions@);
    let mut i: usize = 0;
    while i < count
        invariant
            count == submissions.len(),
            count > 0,
            i <= count,
            batches == batch_views(submissions@),
            calls.len() == i,
            forall|k: int|
                0 <= k < i ==> (#[trigger] calls@[k])@ == call_of_batch(
                    batches[k],
                    if k == count - 1 {
                        fence
                    } else {
                        None
                    },
                ),
        decreases count - i,
    {
        let batch = &submissions[i];
        let carried: Option<u64> = if i + 1 < count {
            None
        } else {
            fence
        };
        calls.push(
            NativeSubmission {
                command_buffers: raw_handles(&batch.submits),
                wait_semaphores: copied(&batch.waits),
                signal_semaphores: copied(&batch.signals),
                fence: carried,
            },
        );
        i += 1;
    }
    proof {
        assert(call_views(calls@) =~= native_calls(batches, fence));
    }
    calls
}

impl<Q> Queue<Q> {
    /// The native queue.
    pub closed spec fn spec_raw(&self) -> Q {
        self.raw
    }

    /// The queue's identifier.
    pub closed spec fn spec_id(&self) -> QueueId {
        self.id
    }

    /// The epoch that the next fenced submission gets.
    pub closed spec fn spec_next_epoch(&self) -> u64 {
        self.next_epoch
    }

    /// The native queue `raw`, known as `id`, before any submission: epoch 0.
    pub fn new(raw: Q, id: QueueId) -> (queue: Queue<Q>)
        ensures
            queue.spec_raw() == raw,
            queue.spec_id() == id,
            queue.spec_next_epoch() == 0,
    {
        Queue { raw, id, next_epoch: 0 }
    }

    /// The native queue, for whatever is to be done with it directly. The
    /// identifier and the epoch stay as they are.
    pub fn raw(&mut self) -> (raw: &mut Q)
        ensures
            *raw == old(self).spec_raw(),
            final(self).spec_raw() == *final(raw),
            final(self).spec_id() == old(self).spec_id(),
            final(self).spec_next_epoch() == old(self).spec_next_epoch(),
    {
        &mut self.raw
    }

    /// The native queue, for reading.
    pub fn native(&self) -> (raw: &Q)
        ensures
            *raw == self.spec_raw(),
    {
        &self.raw
    }

    /// The queue's identifier.
    #[verifier::when_used_as_spec(spec_id)]
    pub fn id(&self) -> (id: QueueId)
        ensures
            id == self.spec_id(),
    {
        self.id
    }

    /// The epoch that the next fenced submission gets.
    #[verifier::when_used_as_spec(spec_next_epoch)]
    pub fn next_epoch(&self) -> (epoch: u64)
        ensures
            epoch == self.spec_next_epoch(),
    {
        self.next_epoch
    }

    /// The position of the first batch of `submissions` with a command
    /// buffer that was not recorded for this queue's family, if there is one.
    pub fn first_foreign(&self, submissions: &Vec<Submission>) -> (found: Option<usize>)
        ensures
            match found {
                Some(k) => is_first_foreign(
                    batch_views(submissions@),
                    self.spec_id().family,
                    k as int,
                ),
                None => all_in_family(batch_views(submissions@), self.spec_id().family),
            },
    {
        let family = self.id.family;
        let mut i: usize = 0;
        while i < submissions.len()
            invariant
                i <= submissions.len(),
                family == self.spec_id().family,
                forall|k: int|
                    0 <= k < i ==> batch_in_family(
                        #[trigger] batch_views(submissions@)[k],
                        family,
                    ),
            decreases submissions.len() - i,
        {
            if !recorded_for(&submissions[i], family) {
                proof {
                    assert(!batch_in_family(batch_views(submissions@)[i as int], family));
                }
                return Some(i);
            }
            i += 1;
        }
        None
    }

    /// Whether every command buffer of `submissions` was recorded for this
    /// queue's family, as both ways of submitting demand.
    pub fn accepts(&self, submissions: &Vec<Submission>) -> (all: bool)
        ensures
            all == all_in_family(batch_views(submissions@), self.spec_id().family),
    {
        let found = self.first_foreign(submissions);
        proof {
            if let Some(k) = found {
                assert(!batch_in_family(
                    batch_views(submissions@)[k as int],
                    self.spec_id().family,
                ));
            }
        }
        found.is_none()
    }

    /// What stands in the way of [`Queue::submit`] with these arguments, if
    /// anything does. A fence that is not unsignaled is refused whatever the
    /// batches are; neither the queue nor the fence is touched. Nothing is
    /// refused exactly where `submit` may be called.
    pub fn refusal(&self, submissions: &Vec<Submission>, fence: Option<&Fence>) -> (refusal:
        Option<Refusal>)
        ensures
            refusal_of(
                self.spec_id().family,
                self.spec_next_epoch(),
                batch_views(submissions@),
                match fence {
                    Some(f) => Some(f.spec_state()),
                    None => None,
                },
                refusal,
            ),
            refusal is None <==> (fence matches Some(f) ==> f.spec_is_unsignaled()) && all_in_family(
                batch_views(submissions@),
                self.spec_id().family,
            ) && (fence is Some ==> self.spec_next_epoch() < u64::MAX),
    {
        let fenced = match fence {
            Some(f) => {
                if !f.is_unsignaled() {
                    return Some(Refusal::FencePending);
                }
                true
            },
            None => false,
        };
        match self.first_foreign(submissions) {
            Some(k) => {
                proof {
                    assert(!batch_in_family(
                        batch_views(submissions@)[k as int],
                        self.spec_id().family,
                    ));
                }
                Some(Refusal::ForeignBuffer(k))
            },
            None => {
                if fenced && self.next_epoch == u64::MAX {
                    Some(Refusal::EpochExhausted)
                } else {
                    None
                }
            },
        }
    }

    /// Plans the submission of `submissions` with an optional fence, and
    /// returns the native submit calls to make, in order.
    ///
    /// There is one call per batch, and of them only the last carries the
    /// fence; with no batches at all a fence still gets one empty call of its
    /// own. A fence comes back pending, tagged with this queue and the epoch
    /// the queue had, and takes one epoch; without a fence the epoch stays.
    ///
    /// The fence must be unsignaled, and every command buffer recorded for
    /// this queue's family.
    pub fn submit(&mut self, submissions: Vec<Submission>, fence: Option<&mut Fence>) -> (calls:
        Vec<NativeSubmission>)
        requires
            fence matches Some(f) ==> f.spec_is_unsignaled(),
            all_in_family(batch_views(submissions@), old(self).spec_id().family),
            fence is Some ==> old(self).spec_next_epoch() < u64::MAX,
        ensures
            call_views(calls@) == native_calls(
                batch_views(submissions@),
                match fence {
                    Some(f) => Some(f.spec_raw()),
                    None => None,
                },
            ),
            final(self).spec_raw() == old(self).spec_raw(),
            final(self).spec_id() == old(self).spec_id(),
            final(self).spec_next_epoch() == epoch_step(
                old(self).spec_next_epoch() as int,
                fence is Some,
            ),
            fence matches Some(f) ==> final(f).spec_raw() == f.spec_raw() && final(f).spec_state()
                == FenceState::Pending(
                FenceEpoch { queue: old(self).spec_id(), epoch: old(self).spec_next_epoch() },
            ),
    {
        match fence {
            Some(f) => {
                let calls = issue(&submissions, Some(f.raw()));
                f.mark_submitted(FenceEpoch { queue: self.id, epoch: self.next_epoch });
                self.next_epoch += 1;
                calls
            },
            None => issue(&submissions, None),
        }
    }

    /// Plans the submission of `submissions` with an optional native fence,
    /// and returns the native submit calls to make, in order, as
    /// [`Queue::submit`] does. The queue keeps its epoch and tags nothing.
    ///
    /// Every command buffer must be recorded for this queue's family.
    pub fn submit_raw_fence(&mut self, submissions: Vec<Submission>, fence: Option<u64>) -> (calls:
        Vec<NativeSubmission>)
        requires
            all_in_family(batch_views(submissions@), old(self).spec_id().family),
        ensures
            call_views(calls@) == native_calls(batch_views(submissions@), fence),
            final(self).spec_raw() == old(self).spec_raw(),
            final(self).spec_id() == old(self).spec_id(),
            final(self).spec_next_epoch() == old(self).spec_next_epoch(),
    {
        issue(&submissions, fence)
    }
}

} // verus!
