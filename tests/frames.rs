use d3d12_practice::{FenceAction, FenceEvent, FrameFence, FramePhase};

#[test]
fn frame_completes_without_waiting() {
    let mut f = FrameFence::new(0);
    assert!(f.is_recording());
    assert_eq!(f.step(FenceEvent::Submitted), FenceAction::Signal(1));
    assert!(!f.is_recording());
    assert_eq!(f.step(FenceEvent::CompletedValue(1)), FenceAction::Reset);
    assert!(f.is_recording());
    assert_eq!(f.completed, 1);
    assert_eq!(f.signaled, 1);
}

#[test]
fn frame_waits_for_fence() {
    let mut f = FrameFence::new(0);
    assert_eq!(f.step(FenceEvent::Submitted), FenceAction::Signal(1));
    assert_eq!(f.step(FenceEvent::CompletedValue(0)), FenceAction::WaitFor(1));
    assert_eq!(f.phase, FramePhase::Waiting(1));
    assert_eq!(f.step(FenceEvent::EventFired), FenceAction::Reset);
    assert_eq!(f.completed, 1);
    assert_eq!(f.step(FenceEvent::Submitted), FenceAction::Signal(2));
}

#[test]
fn out_of_order_events_are_ignored() {
    let mut f = FrameFence::new(5);
    assert_eq!(f.step(FenceEvent::EventFired), FenceAction::Ignored);
    assert_eq!(f.step(FenceEvent::CompletedValue(9)), FenceAction::Ignored);
    assert_eq!(f, FrameFence::new(5));
    assert_eq!(f.step(FenceEvent::Submitted), FenceAction::Signal(6));
    assert_eq!(f.step(FenceEvent::Submitted), FenceAction::Ignored);
    assert_eq!(f.step(FenceEvent::EventFired), FenceAction::Ignored);
    assert_eq!(f.phase, FramePhase::Signaled(6));
}

#[test]
fn fence_values_run_out() {
    let mut f = FrameFence::new(u64::MAX);
    assert_eq!(f.step(FenceEvent::Submitted), FenceAction::Exhausted);
    assert_eq!(f, FrameFence::new(u64::MAX));
}

#[test]
fn signal_values_increase_over_frames() {
    let mut f = FrameFence::new(0);
    let mut last = 0;
    for _ in 0..5 {
        match f.step(FenceEvent::Submitted) {
            FenceAction::Signal(v) => {
                assert!(v > last);
                last = v;
            }
            other => panic!("unexpected {:?}", other),
        }
        assert_eq!(f.step(FenceEvent::CompletedValue(last)), FenceAction::Reset);
    }
    assert_eq!(last, 5);
}
