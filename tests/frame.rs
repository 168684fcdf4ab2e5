use phosphor::renderer::{FrameAction, FrameEvent, FrameSequencer, RendererDrawError};
use phosphor::sequence::{submission_order, PassKind, SubmitStep};

#[test]
fn minimized_frame_is_skipped() {
    let mut s = FrameSequencer::new(true);
    let before = s;
    let a = s.step(FrameEvent::Start { width: 0, height: 0 });
    assert_eq!(a, FrameAction::Skip { reason: RendererDrawError::WindowMinimized });
    assert_eq!(s, before);
    let a = s.step(FrameEvent::Start { width: 800, height: 0 });
    assert_eq!(a, FrameAction::Skip { reason: RendererDrawError::WindowMinimized });
    let a = s.step(FrameEvent::Start { width: 0, height: 600 });
    assert_eq!(a, FrameAction::Skip { reason: RendererDrawError::WindowMinimized });
}

#[test]
fn minimized_frame_is_skipped_even_when_recreation_is_due() {
    let mut s = FrameSequencer { recreate_swapchain: true, post_present_wait: false };
    let a = s.step(FrameEvent::Start { width: 0, height: 0 });
    assert_eq!(a, FrameAction::Skip { reason: RendererDrawError::WindowMinimized });
    assert!(s.recreate_swapchain);
}

#[test]
fn normal_frame_acquires_then_submits() {
    let mut s = FrameSequencer::new(false);
    assert_eq!(s.step(FrameEvent::Start { width: 1366, height: 768 }), FrameAction::Acquire);
    assert_eq!(s.step(FrameEvent::ImageAcquired { image: 2 }), FrameAction::Submit { image: 2 });
    assert!(!s.recreate_swapchain);
}

#[test]
fn out_of_date_skips_and_recreates_next_frame() {
    let mut s = FrameSequencer::new(false);
    assert_eq!(s.step(FrameEvent::Start { width: 640, height: 480 }), FrameAction::Acquire);
    assert_eq!(
        s.step(FrameEvent::AcquireOutOfDate),
        FrameAction::Skip { reason: RendererDrawError::SwapchainOutOfDate }
    );
    assert!(s.recreate_swapchain);
    assert_eq!(s.step(FrameEvent::Start { width: 640, height: 480 }), FrameAction::RecreateSwapchain);
    assert_eq!(s.step(FrameEvent::SwapchainRecreated), FrameAction::Acquire);
    assert!(!s.recreate_swapchain);
}

#[test]
fn unsupported_dimensions_skip_and_retry() {
    let mut s = FrameSequencer { recreate_swapchain: true, post_present_wait: false };
    assert_eq!(s.step(FrameEvent::Start { width: 5, height: 5 }), FrameAction::RecreateSwapchain);
    assert_eq!(
        s.step(FrameEvent::SwapchainUnsupportedDimensions),
        FrameAction::Skip { reason: RendererDrawError::UnsupportedDimensions }
    );
    assert!(s.recreate_swapchain);
}

#[test]
fn other_failures_are_fatal() {
    let mut s = FrameSequencer::new(false);
    assert_eq!(s.step(FrameEvent::AcquireFailed), FrameAction::Fatal);
    assert_eq!(s.step(FrameEvent::SwapchainFailed), FrameAction::Fatal);
}

#[test]
fn submission_order_with_and_without_wait() {
    let mut expected = vec![
        SubmitStep::Execute { pass: PassKind::Occlusion },
        SubmitStep::Execute { pass: PassKind::DeferredShading },
        SubmitStep::Execute { pass: PassKind::DeferredLighting },
        SubmitStep::JoinOffscreen,
        SubmitStep::Execute { pass: PassKind::PostProcess },
        SubmitStep::Execute { pass: PassKind::Lines },
        SubmitStep::Execute { pass: PassKind::Text },
        SubmitStep::Execute { pass: PassKind::Overlay },
        SubmitStep::Present,
        SubmitStep::Cleanup,
    ];
    assert_eq!(submission_order(false), expected);
    expected.insert(9, SubmitStep::WaitIdle);
    assert_eq!(submission_order(true), expected);
}
