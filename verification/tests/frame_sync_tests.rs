use engine::error::EngineError;
use engine::geometry::Extent;
use engine::swapchain::SurfaceCaps;
use engine::swapchain::WindowModel;
use engine::sync::AcquireOutcome;
use engine::sync::AcquireStep;
use engine::sync::FrameSynchronizer;
use engine::sync::Phase;
use engine::sync::SlotState;
use engine::sync::SubmitOutcome;
use engine::sync::WaitDependency;

const WIDTH: u32 = 800;
const HEIGHT: u32 = 600;

/// A provisioned synchronizer with three presentable images.
fn make_sync() -> FrameSynchronizer {
    let drawable = Extent { width: WIDTH, height: HEIGHT };
    let mut w = WindowModel::new(drawable);
    let caps = SurfaceCaps {
        min_image_count: 2,
        max_image_count: None,
        formats: vec![7],
        alpha_modes: vec![3],
    };
    w.create_swapchain(&caps, drawable).unwrap();
    FrameSynchronizer::new(w, 3).unwrap()
}

/// Runs one full successful iteration: recreation check, acquisition
/// of `index`, the fence wait if the slot is still pending, and a
/// completed submission.
fn advance_frame(s: &mut FrameSynchronizer, index: usize, suboptimal: bool) {
    s.begin_iteration(Extent { width: WIDTH, height: HEIGHT });
    let step = s.on_acquire(AcquireOutcome::Acquired { index, suboptimal });
    match step {
        AcquireStep::MustWait { index: waited, .. } => {
            assert_eq!(waited, index);
            s.note_fence_signaled();
        }
        AcquireStep::ReadyToSubmit { index: ready } => assert_eq!(ready, index),
        AcquireStep::Abandoned => panic!("acquisition abandoned unexpectedly"),
    }
    s.on_submit(SubmitOutcome::Completed);
}

#[test]
fn new_rejects_unprovisioned_window() {
    let w = WindowModel::new(Extent { width: WIDTH, height: HEIGHT });
    let r = FrameSynchronizer::new(w, 3);
    assert!(matches!(r, Err(EngineError::NotProvisioned)));
}

#[test]
fn new_synchronizer_starts_idle_and_empty() {
    let s = make_sync();
    assert_eq!(s.slots.len(), 3);
    assert!(s.slots.iter().all(|slot| *slot == SlotState::Empty));
    assert_eq!(s.previous_index, 0);
    assert!(!s.stale);
    assert!(!s.resized);
    assert_eq!(s.phase, Phase::Idle);
    assert_eq!(s.frames_in_flight(), 0);
    assert_eq!(s.command_buffers.len(), 3);
    assert_eq!(s.command_buffers[1].image_index, 1);
    assert_eq!(s.command_buffers[1].vertex_count, 3);
    assert_eq!(s.command_buffers[1].instance_count, 1);
}

#[test]
fn first_frame_waits_on_nothing() {
    let mut s = make_sync();
    s.begin_iteration(Extent { width: WIDTH, height: HEIGHT });
    let step = s.on_acquire(AcquireOutcome::Acquired { index: 0, suboptimal: false });
    assert_eq!(step, AcquireStep::ReadyToSubmit { index: 0 });
    assert_eq!(s.wait_dependency(), WaitDependency::Immediate);
    s.on_submit(SubmitOutcome::Completed);
    assert_eq!(s.slots[0], SlotState::Pending { frame: 1 });
    assert_eq!(s.previous_index, 0);
}

#[test]
fn scenario_reusing_an_image_blocks_on_its_fence() {
    // Images are acquired in order 0, 1, 2, 0, ...: the fourth frame
    // targets index 0 again and must block until frame 1's fence (the
    // one stored at index 0) has signaled.
    let mut s = make_sync();
    advance_frame(&mut s, 0, false);
    advance_frame(&mut s, 1, false);
    advance_frame(&mut s, 2, false);
    assert_eq!(s.frames_in_flight(), 3);

    s.begin_iteration(Extent { width: WIDTH, height: HEIGHT });
    let step = s.on_acquire(AcquireOutcome::Acquired { index: 0, suboptimal: false });
    assert_eq!(step, AcquireStep::MustWait { index: 0, frame: 1 });
    s.note_fence_signaled();
    assert_eq!(s.slots[0], SlotState::Signaled { frame: 1 });
    // The new frame chains on the previous frame's fence, not on the
    // fence of the slot it is reusing.
    assert_eq!(s.wait_dependency(), WaitDependency::PriorFence { frame: 3 });
    s.on_submit(SubmitOutcome::Completed);
    assert_eq!(s.slots[0], SlotState::Pending { frame: 4 });
    assert_eq!(s.previous_index, 0);
}

#[test]
fn in_flight_frames_never_exceed_image_count() {
    let mut s = make_sync();
    let order = [0usize, 1, 2, 0, 1, 2, 1, 0];
    for &index in order.iter() {
        advance_frame(&mut s, index, false);
        assert!(s.frames_in_flight() <= 3);
    }
    assert_eq!(s.frames_in_flight(), 3);
}

#[test]
fn scenario_suboptimal_frame_still_submits_then_recreates() {
    // A suboptimal acquisition on frame 5: the frame still submits
    // and presents, and frame 6 begins with a swapchain recreation
    // before acquiring.
    let mut s = make_sync();
    let order = [0usize, 1, 2, 0];
    for &index in order.iter() {
        advance_frame(&mut s, index, false);
    }
    assert_eq!(s.next_frame, 5);

    s.begin_iteration(Extent { width: WIDTH, height: HEIGHT });
    let step = s.on_acquire(AcquireOutcome::Acquired { index: 1, suboptimal: true });
    assert!(s.stale);
    assert_eq!(step, AcquireStep::MustWait { index: 1, frame: 2 });
    s.note_fence_signaled();
    s.on_submit(SubmitOutcome::Completed);
    assert_eq!(s.slots[1], SlotState::Pending { frame: 5 });

    let actions = s.begin_iteration(Extent { width: WIDTH, height: HEIGHT });
    assert!(actions.swapchain);
    assert!(!actions.pipeline_and_commands);
    assert!(!s.stale);
    assert_eq!(s.swapchain_rebuilds, 1);
    assert_eq!(s.pipeline_rebuilds, 0);
}

#[test]
fn scenario_out_of_date_abandons_the_iteration() {
    // Out of date on frame 2: no command buffer is submitted for that
    // frame, and frame 3 starts with a recreation.
    let mut s = make_sync();
    advance_frame(&mut s, 0, false);
    assert_eq!(s.next_frame, 2);

    let actions = s.begin_iteration(Extent { width: WIDTH, height: HEIGHT });
    assert!(!actions.swapchain);
    let step = s.on_acquire(AcquireOutcome::OutOfDate);
    assert_eq!(step, AcquireStep::Abandoned);
    assert_eq!(s.phase, Phase::Idle);
    assert!(s.stale);
    // Nothing was submitted: no new fence, no new frame number.
    assert_eq!(s.next_frame, 2);
    assert_eq!(s.frames_in_flight(), 1);

    let actions = s.begin_iteration(Extent { width: WIDTH, height: HEIGHT });
    assert!(actions.swapchain);
    assert!(!actions.pipeline_and_commands);
}

#[test]
fn scenario_resize_rebuilds_pipeline_and_commands_once() {
    // The drawable size changes from 800x600 to 1024x768: exactly one
    // pipeline rebuild and one command-buffer-set rebuild occur, not
    // one per framebuffer.
    let mut s = make_sync();
    advance_frame(&mut s, 0, false);
    s.note_resized();
    assert!(s.resized);

    let new_size = Extent { width: 1024, height: 768 };
    let actions = s.begin_iteration(new_size);
    assert!(actions.swapchain);
    assert!(actions.pipeline_and_commands);
    assert_eq!(s.window.get_window_viewport().extent, new_size);
    assert_eq!(s.window.get_swapchain().unwrap().extent, new_size);
    assert_eq!(s.swapchain_rebuilds, 1);
    assert_eq!(s.pipeline_rebuilds, 1);
    assert_eq!(s.command_rebuilds, 1);
    assert_eq!(s.pipeline.viewport.extent, new_size);
    assert_eq!(s.command_buffers.len(), 3);
    assert!(!s.resized);
    assert!(!s.stale);
    // The format choice and the render pass survive the resize.
    assert_eq!(s.window.get_swapchain().unwrap().format, 7);
    assert_eq!(s.window.get_render_pass().unwrap().color_format, 7);
}

#[test]
fn resize_flag_defers_all_rebuilding() {
    let mut s = make_sync();
    s.note_resized();
    assert_eq!(s.swapchain_rebuilds, 0);
    assert_eq!(s.pipeline_rebuilds, 0);
    assert_eq!(s.command_rebuilds, 0);
}

#[test]
fn out_of_date_submission_leaves_slot_empty_and_flags_stale() {
    let mut s = make_sync();
    s.begin_iteration(Extent { width: WIDTH, height: HEIGHT });
    s.on_acquire(AcquireOutcome::Acquired { index: 2, suboptimal: false });
    s.on_submit(SubmitOutcome::OutOfDate);
    assert_eq!(s.slots[2], SlotState::Empty);
    assert!(s.stale);
    assert_eq!(s.previous_index, 2);
    assert_eq!(s.next_frame, 1);
}

#[test]
fn failed_submission_drops_the_frame_and_continues() {
    let mut s = make_sync();
    s.begin_iteration(Extent { width: WIDTH, height: HEIGHT });
    s.on_acquire(AcquireOutcome::Acquired { index: 1, suboptimal: false });
    s.on_submit(SubmitOutcome::Failed);
    assert_eq!(s.slots[1], SlotState::Empty);
    assert!(!s.stale);
    assert_eq!(s.previous_index, 1);
    assert_eq!(s.next_frame, 1);
    // The loop continues: the next frame proceeds normally.
    advance_frame(&mut s, 2, false);
    assert_eq!(s.slots[2], SlotState::Pending { frame: 1 });
}
