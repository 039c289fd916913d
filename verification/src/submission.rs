//! Submissions as the caller hands them in, and native submit calls as the
//! queue plans them.

use vstd::prelude::*;
use gfx_hal::pso::PipelineStage;
use crate::id::FamilyId;

verus! {

/// `gfx_hal::pso::PipelineStage`, a set of pipeline stages. A submission
/// carries such a set from the caller to the native call and never looks
/// inside.
#[verifier::external_type_specification]
#[verifier::external_body]
pub struct ExPipelineStage(gfx_hal::pso::PipelineStage);

/// A recorded command buffer: its native handle and the family it was
/// recorded for.
#[derive(Clone, Copy, Debug, PartialEq, Eq, Structural)]
pub struct Submit {
    /// The family that the buffer was recorded for.
    pub family: FamilyId,
    /// The handle of the native command buffer.
    pub raw: u64,
}

/// A semaphore to wait on, and the pipeline stages at which the wait occurs.
#[derive(Clone, Copy, Debug, PartialEq, Eq)]
pub struct Wait {
    /// The handle of the native semaphore.
    pub semaphore: u64,
    /// The pipeline stages.
    pub stage: PipelineStage,
}

/// One batch of work for a queue.
#[derive(Debug)]
pub struct Submission {
    /// Semaphores to wait on before the batch starts, in order.
    pub waits: Vec<Wait>,
    /// Command buffers to execute, in order.
    pub submits: Vec<Submit>,
    /// Semaphores to signal once the batch is done, in order.
    pub signals: Vec<u64>,
}

/// The mathematical content of a [`Submission`].
pub struct SubmissionView {
    pub waits: Seq<Wait>,
    pub submits: Seq<Submit>,
    pub signals: Seq<u64>,
}

impl View for Submission {
    type V = SubmissionView;

    open spec fn view(&self) -> SubmissionView {
        SubmissionView { waits: self.waits@, submits: self.submits@, signals: self.signals@ }
    }
}

/// One call of the native queue's submit operation.
#[derive(Debug)]
pub struct NativeSubmission {
    /// Handles of the command buffers, in order.
    pub command_buffers: Vec<u64>,
    /// Semaphores to wait on, in order.
    pub wait_semaphores: Vec<Wait>,
    /// Semaphores to signal, in order.
    pub signal_semaphores: Vec<u64>,
    /// The handle of the native fence that the call carries, if any.
    pub fence: Option<u64>,
}

/// The mathematical content of a [`NativeSubmission`].
pub struct NativeCall {
    pub command_buffers: Seq<u64>,
    pub wait_semaphores: Seq<Wait>,
    pub signal_semaphores: Seq<u64>,
    pub fence: Option<u64>,
}

impl View for NativeSubmission {
    type V = NativeCall;

    open spec fn view(&self) -> NativeCall {
        NativeCall {
            command_buffers: self.command_buffers@,
            wait_semaphores: self.wait_semaphores@,
            signal_semaphores: self.signal_semaphores@,
            fence: self.fence,
        }
    }
}

/// The contents of each batch of `batches`, in order.
pub open spec fn batch_views(batches: Seq<Submission>) -> Seq<SubmissionView> {
    batches.map_values(|s: Submission| s@)
}

/// The contents of each call of `calls`, in order.
pub open spec fn call_views(calls: Seq<NativeSubmission>) -> Seq<NativeCall> {
    calls.map_values(|c: NativeSubmission| c@)
}

/// Every command buffer of `batch` was recorded for `family`.
pub open spec fn batch_in_family(batch: SubmissionView, family: FamilyId) -> bool {
    forall|j: int| 0 <= j < batch.submits.len() ==> (#[trigger] batch.submits[j]).family == family
}

/// Every command buffer of every batch was recorded for `family`.
pub open spec fn all_in_family(batches: Seq<SubmissionView>, family: FamilyId) -> bool {
    forall|i: int| 0 <= i < batches.len() ==> batch_in_family(#[trigger] batches[i], family)
}

/// The native call that carries nothing but `fence`.
pub open spec fn fence_only_call(fence: Option<u64>) -> NativeCall {
    NativeCall {
        command_buffers: Seq::empty(),
        wait_semaphores: Seq::empty(),
        signal_semaphores: Seq::empty(),
        fence,
    }
}

/// The native call that issues `batch` and carries `fence`.
pub open spec fn call_of_batch(batch: SubmissionView, fence: Option<u64>) -> NativeCall {
    NativeCall {
        command_buffers: batch.submits.map_values(|s: Submit| s.raw),
        wait_semaphores: batch.waits,
        signal_semaphores: batch.signals,
        fence,
    }
}

/// The native calls that submitting `batches` with `fence` makes, in order:
/// one per batch, the fence on the last of them alone; for no batches, one
/// empty call if there is a fence to carry and none if there is not.
pub open spec fn native_calls(batches: Seq<SubmissionView>, fence: Option<u64>) -> Seq<NativeCall> {
    if batches.len() == 0 {
        if fence is Some {
            seq![fence_only_call(fence)]
        } else {
            Seq::empty()
        }
    } else {
        Seq::new(
            batches.len(),
            |i: int| call_of_batch(batches[i], if i == batches.len() - 1 { fence } else { None }),
        )
    }
}

/// With at least one batch and a fence, there is one native call per batch,
/// the last call carries the fence, and no earlier call carries any.
pub proof fn lemma_fence_on_last_call_only(batches: Seq<SubmissionView>, fence: u64)
    requires
        batches.len() > 0,
    ensures
        native_calls(batches, Some(fence)).len() == batches.len(),
        native_calls(batches, Some(fence)).last().fence == Some(fence),
        forall|i: int|
            0 <= i < batches.len() - 1 ==> (#[trigger] native_calls(batches, Some(fence))[i]).fence
                is None,
        native_calls(batches, Some(fence)).filter(|c: NativeCall| c.fence is Some).len() == 1,
        native_calls(batches, Some(fence)).filter(|c: NativeCall| c.fence is None).len()
            == batches.len() - 1,
{
    let calls = native_calls(batches, Some(fence));
    lemma_fenced_count(calls, calls.len() as int);
}

/// Without a fence no native call carries one.
pub proof fn lemma_no_fence_no_fenced_call(batches: Seq<SubmissionView>)
    ensures
        native_calls(batches, None).len() == batches.len(),
        forall|i: int|
            0 <= i < batches.len() ==> (#[trigger] native_calls(batches, None)[i]).fence is None,
{
}

/// The native calls keep the order of the batches: the call at each position
/// issues the batch at that position.
pub proof fn lemma_calls_follow_batches(batches: Seq<SubmissionView>, fence: Option<u64>, i: int)
    requires
        0 <= i < batches.len(),
    ensures
        native_calls(batches, fence).len() == batches.len(),
        native_calls(batches, fence)[i].command_buffers == batches[i].submits.map_values(
            |s: Submit| s.raw,
        ),
        native_calls(batches, fence)[i].wait_semaphores == batches[i].waits,
        native_calls(batches, fence)[i].signal_semaphores == batches[i].signals,
{
}

/// The native calls for the batches before position `k` of a longer run,
/// issued without a fence, are the first `k` calls for the whole run.
pub proof fn lemma_prefix_calls(batches: Seq<SubmissionView>, fence: Option<u64>, k: int)
    requires
        0 <= k < batches.len(),
    ensures
        native_calls(batches.take(k), None) == native_calls(batches, fence).take(k),
{
    assert(native_calls(batches.take(k), None) =~= native_calls(batches, fence).take(k));
}

proof fn lemma_fenced_count(calls: Seq<NativeCall>, n: int)
    requires
        0 <= n <= calls.len(),
        forall|i: int| 0 <= i < calls.len() - 1 ==> (#[trigger] calls[i]).fence is None,
        calls.len() > 0,
        calls.last().fence is Some,
    ensures
        calls.take(n).filter(|c: NativeCall| c.fence is Some).len() == (if n == calls.len() {
            1int
        } else {
            0int
        }),
        calls.take(n).filter(|c: NativeCall| c.fence is None).len() == (if n == calls.len() {
            n - 1
        } else {
            n
        }),
        n == calls.len() ==> calls.take(n) == calls,
    decreases n,
{
    reveal(Seq::filter);
    if n == 0 {
        assert(calls.take(0) =~= Seq::<NativeCall>::empty());
    } else {
        lemma_fenced_count(calls, n - 1);
        assert(calls.take(n).drop_last() =~= calls.take(n - 1));
        assert(calls.take(n).last() == calls[n - 1]);
        if n == calls.len() {
            assert(calls.take(n) =~= calls);
        }
    }
}

} // verus!
