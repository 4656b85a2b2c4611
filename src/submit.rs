//! The fence-guarded record-and-submit protocol, as a state machine.
//!
//! A command buffer is paired with a reuse fence that the device signals when
//! the buffer's last submission has finished. One submission walks through
//! the steps below; the caller performs each step on the device and reports
//! its outcome. The buffer is reset and recorded only after the fence has
//! been seen signaled.

use vstd::prelude::*;

verus! {

/// Pipeline stage bit: colour attachment output.
pub const STAGE_COLOR_ATTACHMENT_OUTPUT: u32 = 0x400;

/// The steps of one submission, in order.
#[derive(Clone, Copy, Debug, PartialEq, Eq, Structural)]
pub enum SubmitStep {
    /// Block until the reuse fence is signaled.
    WaitForFence,
    /// Reset the fence to unsignaled.
    ResetFence,
    /// Reset the command buffer, discarding what it held.
    ResetCommandBuffer,
    /// Begin recording, for a single submission.
    BeginCommandBuffer,
    /// Let the recorder issue this submission's commands.
    Record,
    /// End recording.
    EndCommandBuffer,
    /// Submit to the queue, with the wait and signal semaphores and the fence.
    Submit,
    /// The submission is on the queue.
    Complete,
    /// A step failed; nothing more is done.
    Aborted,
}

/// What the caller saw when it performed a step.
#[derive(Clone, Copy, Debug, PartialEq, Eq, Structural)]
pub enum StepOutcome {
    Done,
    /// The fence wait returned while the fence was still unsignaled.
    FenceNotSignaled,
    Failed,
}

/// Why a submission could not be made.
#[derive(Clone, Copy, Debug, PartialEq, Eq, Structural)]
pub enum SubmitError {
    /// The step failed on the device.
    StepFailed(SubmitStep),
    /// The wait stage list and the wait semaphore list differ in length.
    MismatchedWaitLists,
}

/// A step that resets or records into the command buffer, or hands it to
/// the device.
pub open spec fn touches_command_buffer(step: SubmitStep) -> bool {
    match step {
        SubmitStep::WaitForFence | SubmitStep::Aborted => false,
        _ => true,
    }
}

pub open spec fn is_finished(step: SubmitStep) -> bool {
    step == SubmitStep::Complete || step == SubmitStep::Aborted
}

/// The step after `step` once it is done.
pub open spec fn successor(step: SubmitStep) -> SubmitStep {
    match step {
        SubmitStep::WaitForFence => SubmitStep::ResetFence,
        SubmitStep::ResetFence => SubmitStep::ResetCommandBuffer,
        SubmitStep::ResetCommandBuffer => SubmitStep::BeginCommandBuffer,
        SubmitStep::BeginCommandBuffer => SubmitStep::Record,
        SubmitStep::Record => SubmitStep::EndCommandBuffer,
        SubmitStep::EndCommandBuffer => SubmitStep::Submit,
        SubmitStep::Submit => SubmitStep::Complete,
        SubmitStep::Complete => SubmitStep::Complete,
        SubmitStep::Aborted => SubmitStep::Aborted,
    }
}

/// The protocol's state after a step's outcome: the current step, and
/// whether the fence has been seen signaled.
pub open spec fn next_state(s: (SubmitStep, bool), o: StepOutcome) -> (SubmitStep, bool) {
    let (step, retired) = s;
    if is_finished(step) {
        s
    } else if step == SubmitStep::WaitForFence && o == StepOutcome::FenceNotSignaled {
        s
    } else if o == StepOutcome::Done {
        (successor(step), retired || step == SubmitStep::WaitForFence)
    } else {
        (SubmitStep::Aborted, retired)
    }
}

/// The state reached from `s` through the outcomes `os`, in order.
pub open spec fn run_from(s: (SubmitStep, bool), os: Seq<StepOutcome>) -> (SubmitStep, bool)
    decreases os.len(),
{
    if os.len() == 0 {
        s
    } else {
        next_state(run_from(s, os.drop_last()), os.last())
    }
}

/// The state in which every submission starts.
pub open spec fn initial_state() -> (SubmitStep, bool) {
    (SubmitStep::WaitForFence, false)
}

/// What one submission hands to the queue.
#[derive(Clone, Debug)]
pub struct SubmitRequest {
    pub command_buffer: u64,
    pub reuse_fence: u64,
    /// `wait_stages[i]` is the stage at which `wait_semaphores[i]` is awaited.
    pub wait_stages: Vec<u32>,
    pub wait_semaphores: Vec<u64>,
    pub signal_semaphores: Vec<u64>,
}

impl SubmitRequest {
    /// A submission that waits on each semaphore at its stage and signals
    /// the others; refused when the two wait lists differ in length.
    pub fn new(
        command_buffer: u64,
        reuse_fence: u64,
        wait_stages: Vec<u32>,
        wait_semaphores: Vec<u64>,
        signal_semaphores: Vec<u64>,
    ) -> (r: Result<SubmitRequest, SubmitError>)
        ensures
            match r {
                Ok(q) => {
                    &&& wait_stages@.len() == wait_semaphores@.len()
                    &&& q.command_buffer == command_buffer
                    &&& q.reuse_fence == reuse_fence
                    &&& q.wait_stages@ == wait_stages@
                    &&& q.wait_semaphores@ == wait_semaphores@
                    &&& q.signal_semaphores@ == signal_semaphores@
                },
                Err(e) => e == SubmitError::MismatchedWaitLists && wait_stages@.len()
                    != wait_semaphores@.len(),
            },
    {
        if wait_stages.len() != wait_semaphores.len() {
            return Err(SubmitError::MismatchedWaitLists);
        }
        Ok(SubmitRequest {
            command_buffer,
            reuse_fence,
            wait_stages,
            wait_semaphores,
            signal_semaphores,
        })
    }

    /// A setup submission: no semaphore to wait on or to signal; only the
    /// fence gates the buffer's reuse.
    pub fn one_shot(command_buffer: u64, reuse_fence: u64) -> (r: SubmitRequest)
        ensures
            r.command_buffer == command_buffer,
            r.reuse_fence == reuse_fence,
            r.wait_stages@.len() == 0,
            r.wait_semaphores@.len() == 0,
            r.signal_semaphores@.len() == 0,
    {
        SubmitRequest {
            command_buffer,
            reuse_fence,
            wait_stages: Vec::new(),
            wait_semaphores: Vec::new(),
            signal_semaphores: Vec::new(),
        }
    }

    /// A frame's draw submission: it waits for the acquired image at the
    /// colour-attachment-output stage and signals that rendering is complete.
    pub fn per_frame(
        command_buffer: u64,
        reuse_fence: u64,
        image_acquired: u64,
        rendering_complete: u64,
    ) -> (r: SubmitRequest)
        ensures
            r.command_buffer == command_buffer,
            r.reuse_fence == reuse_fence,
            r.wait_stages@ == seq![STAGE_COLOR_ATTACHMENT_OUTPUT],
            r.wait_semaphores@ == seq![image_acquired],
            r.signal_semaphores@ == seq![rendering_complete],
    {
        let r = SubmitRequest {
            command_buffer,
            reuse_fence,
            wait_stages: vec![STAGE_COLOR_ATTACHMENT_OUTPUT],
            wait_semaphores: vec![image_acquired],
            signal_semaphores: vec![rendering_complete],
        };
        assert(r.wait_stages@ =~= seq![STAGE_COLOR_ATTACHMENT_OUTPUT]);
        assert(r.wait_semaphores@ =~= seq![image_acquired]);
        assert(r.signal_semaphores@ =~= seq![rendering_complete]);
        r
    }
}

/// One submission in progress.
#[derive(Clone, Copy, Debug, PartialEq, Eq)]
pub struct FrameSubmission {
    pub step: SubmitStep,
    /// The fence has been seen signaled: the buffer's last submission retired.
    pub retired: bool,
}

impl FrameSubmission {
    /// The buffer is touched only once its last submission has retired.
    pub open spec fn wf(&self) -> bool {
        touches_command_buffer(self.step) ==> self.retired
    }

    pub open spec fn state(&self) -> (SubmitStep, bool) {
        (self.step, self.retired)
    }

    /// A submission that starts by waiting for the fence.
    pub fn new() -> (r: FrameSubmission)
        ensures
            r.state() == initial_state(),
            r.wf(),
    {
        FrameSubmission { step: SubmitStep::WaitForFence, retired: false }
    }

    /// The step that the caller is to perform next.
    pub fn next_step(&self) -> (r: SubmitStep)
        ensures
            r == self.step,
    {
        self.step
    }

    /// Takes the outcome of the current step. A fence that is not yet
    /// signaled keeps the submission waiting; any failure aborts it.
    pub fn advance(&mut self, outcome: StepOutcome) -> (r: Result<(), SubmitError>)
        requires
            old(self).wf(),
            !is_finished(old(self).step),
        ensures
            final(self).wf(),
            final(self).state() == next_state(old(self).state(), outcome),
            r == (if final(self).step == SubmitStep::Aborted {
                Err::<(), SubmitError>(SubmitError::StepFailed(old(self).step))
            } else {
                Ok::<(), SubmitError>(())
            }),
    {
        let step = self.step;
        if step == SubmitStep::WaitForFence && outcome == StepOutcome::FenceNotSignaled {
            return Ok(());
        }
        if outcome != StepOutcome::Done {
            self.step = SubmitStep::Aborted;
            return Err(SubmitError::StepFailed(step));
        }
        if step == SubmitStep::WaitForFence {
            self.retired = true;
        }
        self.step = match step {
            SubmitStep::WaitForFence => SubmitStep::ResetFence,
            SubmitStep::ResetFence => SubmitStep::ResetCommandBuffer,
            SubmitStep::ResetCommandBuffer => SubmitStep::BeginCommandBuffer,
            SubmitStep::BeginCommandBuffer => SubmitStep::Record,
            SubmitStep::Record => SubmitStep::EndCommandBuffer,
            SubmitStep::EndCommandBuffer => SubmitStep::Submit,
            _ => SubmitStep::Complete,
        };
        Ok(())
    }
}

/// Whatever outcomes the caller reports, the protocol never resets, records
/// or submits the command buffer before the reuse fence has been seen
/// signaled.
pub proof fn lemma_no_touch_before_fence_signaled(os: Seq<StepOutcome>)
    ensures
        touches_command_buffer(run_from(initial_state(), os).0) ==> run_from(initial_state(), os).1,
    decreases os.len(),
{
    if os.len() > 0 {
        lemma_no_touch_before_fence_signaled(os.drop_last());
    }
}

/// While the fence stays unsignaled the protocol keeps waiting: it neither
/// resets nor records, however often the wait returns.
pub proof fn lemma_blocks_while_fence_unsignaled(os: Seq<StepOutcome>)
    requires
        forall|k: int| 0 <= k < os.len() ==> #[trigger] os[k] == StepOutcome::FenceNotSignaled,
    ensures
        run_from(initial_state(), os) == initial_state(),
    decreases os.len(),
{
    if os.len() > 0 {
        lemma_blocks_while_fence_unsignaled(os.drop_last());
        assert(os.last() == StepOutcome::FenceNotSignaled);
    }
}

/// With every step done, a submission passes the steps in protocol order
/// and is complete after the seventh.
pub proof fn lemma_full_submission(os: Seq<StepOutcome>)
    requires
        os.len() == 7,
        forall|k: int| 0 <= k < os.len() ==> #[trigger] os[k] == StepOutcome::Done,
    ensures
        run_from(initial_state(), os.take(1)).0 == SubmitStep::ResetFence,
        run_from(initial_state(), os.take(2)).0 == SubmitStep::ResetCommandBuffer,
        run_from(initial_state(), os.take(3)).0 == SubmitStep::BeginCommandBuffer,
        run_from(initial_state(), os.take(4)).0 == SubmitStep::Record,
        run_from(initial_state(), os.take(5)).0 == SubmitStep::EndCommandBuffer,
        run_from(initial_state(), os.take(6)).0 == SubmitStep::Submit,
        run_from(initial_state(), os).0 == SubmitStep::Complete,
{
    let s = initial_state();
    assert(os.take(1).drop_last() =~= os.take(0));
    assert(os.take(2).drop_last() =~= os.take(1));
    assert(os.take(3).drop_last() =~= os.take(2));
    assert(os.take(4).drop_last() =~= os.take(3));
    assert(os.take(5).drop_last() =~= os.take(4));
    assert(os.take(6).drop_last() =~= os.take(5));
    assert(os.drop_last() =~= os.take(6));
    assert(run_from(s, os.take(0)) == s);
    assert(os.take(1).last() == StepOutcome::Done);
    assert(os.take(2).last() == StepOutcome::Done);
    assert(os.take(3).last() == StepOutcome::Done);
    assert(os.take(4).last() == StepOutcome::Done);
    assert(os.take(5).last() == StepOutcome::Done);
    assert(os.take(6).last() == StepOutcome::Done);
    assert(os.last() == StepOutcome::Done);
}

} // verus!
