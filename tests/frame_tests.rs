use vulky::constant::MAX_FRAMES_IN_FLIGHT;
use vulky::frame::{FrameAction, FrameEngine, FrameError, FrameEvent, FrameStage};

fn run_frame(e: &mut FrameEngine, image_index: u32) -> Vec<FrameAction> {
    let events = [
        FrameEvent::Tick,
        FrameEvent::FenceSignaled,
        FrameEvent::ImageAcquired(image_index),
        FrameEvent::Recorded,
        FrameEvent::Submitted,
        FrameEvent::Presented,
    ];
    events.iter().map(|ev| e.step(*ev)).collect()
}

#[test]
fn frames_cycle_round_robin() {
    let mut e = FrameEngine::new();
    let mut slots = vec![];
    for k in 0..(3 * MAX_FRAMES_IN_FLIGHT) {
        slots.push(e.current_frame);
        let actions = run_frame(&mut e, (k % 3) as u32);
        assert_eq!(actions[0], FrameAction::WaitForFence { slot: slots[k] });
        assert_eq!(*actions.last().unwrap(), FrameAction::Nothing);
        assert_eq!(e.stage, FrameStage::Idle);
    }
    assert_eq!(slots, vec![0, 1, 0, 1, 0, 1]);
}

#[test]
fn successful_frame_action_sequence() {
    let mut e = FrameEngine::new();
    let actions = run_frame(&mut e, 2);
    assert_eq!(
        actions,
        vec![
            FrameAction::WaitForFence { slot: 0 },
            FrameAction::AcquireImage { slot: 0 },
            FrameAction::ResetAndRecord { slot: 0, image_index: 2 },
            FrameAction::Submit { slot: 0, image_index: 2 },
            FrameAction::Present { slot: 0, image_index: 2 },
            FrameAction::Nothing,
        ]
    );
    assert_eq!(e.current_frame, 1);
}

#[test]
fn no_reset_before_fence_wait() {
    let mut e = FrameEngine::new();
    assert_eq!(e.step(FrameEvent::Tick), FrameAction::WaitForFence { slot: 0 });
    // An acquired image reported before the fence was signaled is ignored.
    assert_eq!(e.step(FrameEvent::ImageAcquired(0)), FrameAction::Nothing);
    assert_eq!(e.stage, FrameStage::WaitingForFence);
    assert_eq!(e.waited_slot, None);
    assert_eq!(e.step(FrameEvent::FenceSignaled), FrameAction::AcquireImage { slot: 0 });
    assert_eq!(e.waited_slot, Some(0));
    assert_eq!(
        e.step(FrameEvent::ImageAcquired(0)),
        FrameAction::ResetAndRecord { slot: 0, image_index: 0 }
    );
}

#[test]
fn minimized_window_skips_frames() {
    let mut e = FrameEngine::new();
    assert_eq!(e.step(FrameEvent::Resized { width: 0, height: 0 }), FrameAction::Nothing);
    assert!(e.minimized);
    for _ in 0..5 {
        let before = e;
        assert_eq!(e.draw_frame(), FrameAction::Nothing);
        assert_eq!(e, before);
    }
    assert_eq!(e.step(FrameEvent::Resized { width: 640, height: 480 }), FrameAction::Nothing);
    assert!(!e.minimized);
    assert_eq!(e.draw_frame(), FrameAction::WaitForFence { slot: 0 });
}

#[test]
fn acquire_out_of_date_recreates_without_submit() {
    let mut e = FrameEngine::new();
    let mut actions = vec![];
    for ev in [FrameEvent::Tick, FrameEvent::FenceSignaled, FrameEvent::AcquireOutOfDate] {
        actions.push(e.step(ev));
    }
    for _ in 0..7 {
        actions.push(e.step(FrameEvent::StepDone));
    }
    assert_eq!(
        actions,
        vec![
            FrameAction::WaitForFence { slot: 0 },
            FrameAction::AcquireImage { slot: 0 },
            FrameAction::WaitDeviceIdle,
            FrameAction::DestroyFramebuffers,
            FrameAction::DestroyImageViews,
            FrameAction::DestroySwapchain,
            FrameAction::CreateSwapchain,
            FrameAction::CreateImageViews,
            FrameAction::CreateFramebuffers,
            FrameAction::Nothing,
        ]
    );
    assert_eq!(e.stage, FrameStage::Idle);
    assert_eq!(e.current_frame, 0);
    assert!(e.swapchain_live && e.image_views_live && e.framebuffers_live);
}

#[test]
fn recreating_twice_ends_where_once_does() {
    let mut e = FrameEngine::new();
    let mut states = vec![];
    for _ in 0..2 {
        assert_eq!(e.recreate_swapchain(), FrameAction::WaitDeviceIdle);
        let mut destroys = 0;
        let mut creates = 0;
        loop {
            match e.step(FrameEvent::StepDone) {
                FrameAction::DestroyFramebuffers | FrameAction::DestroyImageViews | FrameAction::DestroySwapchain => destroys += 1,
                FrameAction::CreateSwapchain | FrameAction::CreateImageViews | FrameAction::CreateFramebuffers => creates += 1,
                FrameAction::Nothing => break,
                other => panic!("unexpected action {:?}", other),
            }
        }
        assert_eq!(destroys, 3);
        assert_eq!(creates, 3);
        states.push(e);
    }
    assert_eq!(states[0], states[1]);
}

#[test]
fn present_out_of_date_advances_and_recreates() {
    let mut e = FrameEngine::new();
    for ev in [FrameEvent::Tick, FrameEvent::FenceSignaled, FrameEvent::ImageAcquired(1), FrameEvent::Recorded, FrameEvent::Submitted] {
        e.step(ev);
    }
    assert_eq!(e.step(FrameEvent::PresentOutOfDate), FrameAction::WaitDeviceIdle);
    assert_eq!(e.current_frame, 1);
}

#[test]
fn resize_flag_triggers_recreation_after_present() {
    let mut e = FrameEngine::new();
    e.step(FrameEvent::Resized { width: 300, height: 200 });
    assert!(e.framebuffer_resized);
    for ev in [FrameEvent::Tick, FrameEvent::FenceSignaled, FrameEvent::ImageAcquired(0), FrameEvent::Recorded, FrameEvent::Submitted] {
        e.step(ev);
    }
    assert_eq!(e.step(FrameEvent::Presented), FrameAction::WaitDeviceIdle);
    assert!(!e.framebuffer_resized);
}

#[test]
fn minimized_during_recreation_defers_creation() {
    let mut e = FrameEngine::new();
    e.recreate_swapchain();
    e.step(FrameEvent::StepDone);
    e.step(FrameEvent::StepDone);
    e.step(FrameEvent::Resized { width: 0, height: 0 });
    assert_eq!(e.step(FrameEvent::StepDone), FrameAction::DestroySwapchain);
    assert_eq!(e.step(FrameEvent::StepDone), FrameAction::Nothing);
    assert!(!e.swapchain_live);
    assert_eq!(e.draw_frame(), FrameAction::Nothing);
    e.step(FrameEvent::Resized { width: 800, height: 600 });
    assert_eq!(e.draw_frame(), FrameAction::CreateSwapchain);
    assert_eq!(e.step(FrameEvent::StepDone), FrameAction::CreateImageViews);
    assert_eq!(e.step(FrameEvent::StepDone), FrameAction::CreateFramebuffers);
    assert_eq!(e.step(FrameEvent::StepDone), FrameAction::Nothing);
    assert_eq!(e.draw_frame(), FrameAction::WaitForFence { slot: 0 });
}

#[test]
fn failures_abort_with_their_error() {
    let cases = [
        (vec![FrameEvent::Tick], FrameError::FenceWait),
        (vec![FrameEvent::Tick, FrameEvent::FenceSignaled], FrameError::AcquireImage),
        (vec![FrameEvent::Tick, FrameEvent::FenceSignaled, FrameEvent::ImageAcquired(0)], FrameError::Record),
        (vec![FrameEvent::Tick, FrameEvent::FenceSignaled, FrameEvent::ImageAcquired(0), FrameEvent::Recorded], FrameError::Submit),
        (
            vec![FrameEvent::Tick, FrameEvent::FenceSignaled, FrameEvent::ImageAcquired(0), FrameEvent::Recorded, FrameEvent::Submitted],
            FrameError::Present,
        ),
        (vec![FrameEvent::Tick, FrameEvent::FenceSignaled, FrameEvent::AcquireOutOfDate], FrameError::Recreate),
    ];
    for (events, error) in cases {
        let mut e = FrameEngine::new();
        for ev in events {
            e.step(ev);
        }
        assert_eq!(e.step(FrameEvent::OperationFailed), FrameAction::Abort(error));
        assert_eq!(e.stage, FrameStage::Failed);
        assert_eq!(e.draw_frame(), FrameAction::Nothing);
    }
}

#[test]
fn failure_between_frames_is_ignored() {
    let mut e = FrameEngine::new();
    assert_eq!(e.step(FrameEvent::OperationFailed), FrameAction::Nothing);
    assert_eq!(e, FrameEngine::new());
}

#[test]
fn recreate_swapchain_skipped_while_minimized() {
    let mut e = FrameEngine::new();
    e.step(FrameEvent::Resized { width: 0, height: 0 });
    let before = e;
    assert_eq!(e.recreate_swapchain(), FrameAction::Nothing);
    assert_eq!(e, before);
    assert!(e.swapchain_live && e.image_views_live && e.framebuffers_live);
}

#[test]
fn out_of_date_while_minimized_only_marks_stale() {
    let mut e = FrameEngine::new();
    e.step(FrameEvent::Tick);
    e.step(FrameEvent::FenceSignaled);
    e.step(FrameEvent::Resized { width: 0, height: 0 });
    assert_eq!(e.step(FrameEvent::AcquireOutOfDate), FrameAction::Nothing);
    assert_eq!(e.stage, FrameStage::Idle);
    assert!(e.framebuffer_resized);
    assert!(e.swapchain_live && e.image_views_live && e.framebuffers_live);
    assert_eq!(e.draw_frame(), FrameAction::Nothing);
    e.step(FrameEvent::Resized { width: 800, height: 600 });
    assert_eq!(e.draw_frame(), FrameAction::WaitForFence { slot: 0 });
    assert_eq!(e.step(FrameEvent::FenceSignaled), FrameAction::AcquireImage { slot: 0 });
    assert_eq!(e.step(FrameEvent::AcquireOutOfDate), FrameAction::WaitDeviceIdle);
}

#[test]
fn minimized_after_device_idle_keeps_swapchain() {
    let mut e = FrameEngine::new();
    assert_eq!(e.recreate_swapchain(), FrameAction::WaitDeviceIdle);
    e.step(FrameEvent::Resized { width: 0, height: 0 });
    assert_eq!(e.step(FrameEvent::StepDone), FrameAction::Nothing);
    assert_eq!(e.stage, FrameStage::Idle);
    assert!(e.framebuffer_resized);
    assert!(e.swapchain_live && e.image_views_live && e.framebuffers_live);
}

#[test]
fn present_out_of_date_while_minimized_advances_without_teardown() {
    let mut e = FrameEngine::new();
    for ev in [FrameEvent::Tick, FrameEvent::FenceSignaled, FrameEvent::ImageAcquired(0), FrameEvent::Recorded, FrameEvent::Submitted] {
        e.step(ev);
    }
    e.step(FrameEvent::Resized { width: 0, height: 0 });
    assert_eq!(e.step(FrameEvent::PresentOutOfDate), FrameAction::Nothing);
    assert_eq!(e.current_frame, 1);
    assert!(e.swapchain_live && e.image_views_live && e.framebuffers_live);
}
