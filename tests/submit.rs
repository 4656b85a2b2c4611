use tarsier::submit::{
    FrameSubmission, StepOutcome, SubmitError, SubmitRequest, SubmitStep,
    STAGE_COLOR_ATTACHMENT_OUTPUT,
};

const ORDER: [SubmitStep; 7] = [
    SubmitStep::WaitForFence,
    SubmitStep::ResetFence,
    SubmitStep::ResetCommandBuffer,
    SubmitStep::BeginCommandBuffer,
    SubmitStep::Record,
    SubmitStep::EndCommandBuffer,
    SubmitStep::Submit,
];

#[test]
fn unsignaled_fence_blocks_reset_and_record() {
    let mut s = FrameSubmission::new();
    for _ in 0..5 {
        assert_eq!(s.next_step(), SubmitStep::WaitForFence);
        assert_eq!(s.advance(StepOutcome::FenceNotSignaled), Ok(()));
        assert_eq!(s.next_step(), SubmitStep::WaitForFence);
        assert!(!s.retired);
    }
    assert_eq!(s.advance(StepOutcome::Done), Ok(()));
    assert_eq!(s.next_step(), SubmitStep::ResetFence);
    assert!(s.retired);
}

#[test]
fn steps_run_in_protocol_order() {
    let mut s = FrameSubmission::new();
    for step in ORDER {
        assert_eq!(s.next_step(), step);
        assert_eq!(s.advance(StepOutcome::Done), Ok(()));
    }
    assert_eq!(s.next_step(), SubmitStep::Complete);
}

#[test]
fn a_failed_step_aborts() {
    let mut s = FrameSubmission::new();
    s.advance(StepOutcome::Done).unwrap();
    s.advance(StepOutcome::Done).unwrap();
    assert_eq!(
        s.advance(StepOutcome::Failed),
        Err(SubmitError::StepFailed(SubmitStep::ResetCommandBuffer))
    );
    assert_eq!(s.next_step(), SubmitStep::Aborted);

    let mut w = FrameSubmission::new();
    assert_eq!(w.advance(StepOutcome::Failed), Err(SubmitError::StepFailed(SubmitStep::WaitForFence)));
    assert_eq!(w.next_step(), SubmitStep::Aborted);
}

#[test]
fn request_lists() {
    let r = SubmitRequest::new(1, 2, vec![0x400], vec![7], vec![8]).unwrap();
    assert_eq!(r.wait_stages, vec![0x400]);
    assert_eq!(r.wait_semaphores, vec![7]);
    assert_eq!(r.signal_semaphores, vec![8]);
    assert!(matches!(
        SubmitRequest::new(1, 2, vec![0x400, 0x1], vec![7], vec![]),
        Err(SubmitError::MismatchedWaitLists)
    ));
    let one = SubmitRequest::one_shot(3, 4);
    assert_eq!((one.command_buffer, one.reuse_fence), (3, 4));
    assert!(one.wait_stages.is_empty() && one.wait_semaphores.is_empty());
    assert!(one.signal_semaphores.is_empty());
    let frame = SubmitRequest::per_frame(5, 6, 10, 11);
    assert_eq!(frame.wait_stages, vec![STAGE_COLOR_ATTACHMENT_OUTPUT]);
    assert_eq!(frame.wait_semaphores, vec![10]);
    assert_eq!(frame.signal_semaphores, vec![11]);
}
