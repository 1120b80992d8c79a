use render_core::error::{RenderError, RenderStage};
use render_core::extent::{Extent2D, SurfaceCapabilities};
use render_core::format::{ImageFormat, PresentMode, SurfaceFormat};
use render_core::scheduler::{Action, FrameScheduler, PresentOutcome, SchedulerState};
use render_core::upload::{check_payload_fits, FramePayload, VertexGroup};

fn caps_800_600() -> SurfaceCapabilities {
    SurfaceCapabilities {
        min_image_count: 2,
        max_image_count: 0,
        current_extent: Extent2D {
            width: 800,
            height: 600,
        },
        min_image_extent: Extent2D {
            width: 1,
            height: 1,
        },
        max_image_extent: Extent2D {
            width: 4096,
            height: 4096,
        },
    }
}

fn basic_scheduler(slots: usize) -> FrameScheduler {
    let formats = vec![SurfaceFormat {
        format: ImageFormat::Other(44),
        color_space: 0,
    }];
    let modes = vec![PresentMode::Fifo];
    FrameScheduler::new(slots, 1024, 32, 32, &formats, &modes, &caps_800_600(), 800, 600)
        .expect("surface must be supported")
}

fn payload(counts: &[(u64, u64)], overlay: u64) -> FramePayload {
    let mut groups = Vec::new();
    for &(category, vertex_count) in counts {
        groups.push(VertexGroup {
            category,
            vertex_count,
        });
    }
    FramePayload {
        groups,
        overlay_vertex_count: overlay,
    }
}

/// Drive one whole successful tick; returns the final action.
fn run_tick(s: &mut FrameScheduler, p: &FramePayload, image: usize) -> Action {
    assert!(s.state == SchedulerState::Idle && !s.halted);
    assert!(check_payload_fits(p, s.geometry_stride, s.overlay_stride, s.buffer_capacity));
    let a = s.begin_tick(false, p);
    assert!(matches!(a, Action::WaitFence { .. }));
    let a = s.fence_observed();
    assert!(matches!(a, Action::AcquireImage { .. }));
    assert!(image < s.images.len());
    let a = s.image_acquired(image);
    assert!(matches!(a, Action::StageUpload { .. }));
    let a = s.staging_done();
    assert!(matches!(a, Action::SubmitTransfer { .. }));
    let a = s.transfer_submitted();
    assert!(matches!(a, Action::SubmitHandoff { .. }));
    let a = s.handoff_submitted();
    assert!(matches!(a, Action::SubmitRender { .. }));
    let a = s.render_submitted();
    assert!(matches!(a, Action::Present { .. }));
    s.present_completed(PresentOutcome::Optimal)
}

#[test]
fn successful_tick_three_plus_six_vertices() {
    // Payload with 3 vertices of category A and 6 of category B, no
    // resize, preceding tick complete: the tick succeeds, the frame
    // counter advances by one, and the fence of the slot that drew has
    // been reset to unsignaled, queued to be signaled again.
    let mut s = basic_scheduler(2);
    let p = payload(&[(0, 3), (1, 6)], 6);
    assert!(check_payload_fits(&p, 32, 32, 1024));

    let a = s.begin_tick(false, &p);
    assert_eq!(a, Action::WaitFence { slot: 0 });
    let a = s.fence_observed();
    assert_eq!(a, Action::AcquireImage { slot: 0 });
    let a = s.image_acquired(1);
    assert_eq!(
        a,
        Action::StageUpload {
            image: 1,
            geometry_bytes: 288,
            overlay_bytes: 192
        }
    );
    let a = s.staging_done();
    assert_eq!(
        a,
        Action::SubmitTransfer {
            image: 1,
            geometry_bytes: 288,
            overlay_bytes: 192
        }
    );
    let a = s.transfer_submitted();
    assert_eq!(a, Action::SubmitHandoff { image: 1 });
    let a = s.handoff_submitted();
    assert_eq!(
        a,
        Action::SubmitRender {
            image: 1,
            slot: 0,
            geometry_vertices: 9,
            overlay_vertices: 6
        }
    );
    let a = s.render_submitted();
    assert_eq!(a, Action::Present { image: 1, slot: 0 });
    let a = s.present_completed(PresentOutcome::Optimal);
    assert_eq!(a, Action::TickDone { drew: true });

    assert_eq!(s.frames_drawn, 1);
    assert_eq!(s.current_slot, 1);
    assert_eq!(s.state, SchedulerState::Idle);
    // The fence of the slot that drew is unsignaled until the GPU signals
    // it again.
    assert!(!s.sync.fence_signaled[0]);
    assert!(s.sync.fence_signaled[1]);
}

#[test]
fn upload_lengths_agree_for_drawn_image() {
    let mut s = basic_scheduler(2);
    let p = payload(&[(7, 5)], 2);
    let a = run_tick(&mut s, &p, 2);
    assert_eq!(a, Action::TickDone { drew: true });
    let img = s.images[2];
    assert_eq!(img.staged_vertices, 5);
    assert_eq!(img.staged_bytes, 160);
    assert_eq!(img.device_bytes, img.staged_bytes);
    assert_eq!(img.draw_vertices, img.staged_vertices);
    assert_eq!(img.overlay_device_bytes, img.overlay_staged_bytes);
    assert_eq!(img.overlay_draw_vertices, 2);
}

#[test]
fn resize_tick_rebuilds_to_new_extent() {
    // resized = true with previous extent 800x600 and a surface now
    // reporting 1024x768: no draw is issued, the extent becomes 1024x768
    // and the per-image collections match the new image count.
    let mut s = basic_scheduler(2);
    assert_eq!(s.config.extent, Extent2D { width: 800, height: 600 });
    let p = payload(&[], 0);
    let a = s.begin_tick(true, &p);
    assert_eq!(a, Action::WaitFence { slot: 0 });
    let a = s.fence_observed();
    assert_eq!(a, Action::RebuildSurface);
    assert_eq!(s.state, SchedulerState::RecreatingSurface);

    let formats = vec![SurfaceFormat {
        format: ImageFormat::Other(44),
        color_space: 0,
    }];
    let modes = vec![PresentMode::Fifo];
    let new_caps = SurfaceCapabilities {
        min_image_count: 3,
        max_image_count: 3,
        current_extent: Extent2D {
            width: 1024,
            height: 768,
        },
        min_image_extent: Extent2D {
            width: 1,
            height: 1,
        },
        max_image_extent: Extent2D {
            width: 4096,
            height: 4096,
        },
    };
    let a = s
        .surface_rebuilt(&formats, &modes, &new_caps, 1024, 768)
        .expect("rebuild must succeed");
    assert_eq!(a, Action::TickDone { drew: false });
    assert_eq!(
        s.config.extent,
        Extent2D {
            width: 1024,
            height: 768
        }
    );
    assert_eq!(s.config.image_count, 3);
    assert_eq!(s.images.len(), 3);
    assert_eq!(s.sync.ownership_armed.len(), 3);
    assert_eq!(s.frames_drawn, 0);
    assert_eq!(s.current_slot, 0);
    assert_eq!(s.state, SchedulerState::Idle);
}

#[test]
fn rebuild_resizes_collections_when_image_count_changes() {
    // Capabilities may legally report a different image count after a
    // resize; every per-image collection follows it.
    let mut s = basic_scheduler(3);
    assert_eq!(s.images.len(), 3);
    let p = payload(&[(0, 1)], 0);
    s.begin_tick(true, &p);
    s.fence_observed();
    let formats = vec![SurfaceFormat {
        format: ImageFormat::Other(44),
        color_space: 0,
    }];
    let modes = vec![PresentMode::Fifo];
    let mut new_caps = caps_800_600();
    new_caps.min_image_count = 4;
    new_caps.max_image_count = 4;
    s.surface_rebuilt(&formats, &modes, &new_caps, 800, 600)
        .expect("rebuild must succeed");
    assert_eq!(s.config.image_count, 4);
    assert_eq!(s.images.len(), 4);
    assert_eq!(s.sync.ownership_armed.len(), 4);
    for img in &s.images {
        assert_eq!(img.staged_bytes, 0);
        assert_eq!(img.device_bytes, 0);
        assert_eq!(img.draw_vertices, 0);
    }
}

#[test]
fn handoff_submitted_only_after_transfer_signal_armed() {
    // Submit the transfer, then immediately the graphics handoff waiting
    // on its signal: the ownership signal for exactly the acquired image
    // is armed in between, so no ordering violation can arise.
    let mut s = basic_scheduler(2);
    let p = payload(&[(0, 4)], 0);
    s.begin_tick(false, &p);
    s.fence_observed();
    s.image_acquired(0);
    assert!(!s.sync.ownership_armed[0]);
    let a = s.staging_done();
    assert_eq!(
        a,
        Action::SubmitTransfer {
            image: 0,
            geometry_bytes: 128,
            overlay_bytes: 0
        }
    );
    assert!(s.sync.ownership_armed[0]);
    let a = s.transfer_submitted();
    assert_eq!(a, Action::SubmitHandoff { image: 0 });
    assert!(s.sync.ownership_armed[0]);
    let a = s.handoff_submitted();
    assert!(matches!(a, Action::SubmitRender { .. }));
    // The handoff's wait consumes the signal.
    assert!(!s.sync.ownership_armed[0]);
}

#[test]
fn acquire_out_of_date_recreates_without_drawing() {
    let mut s = basic_scheduler(2);
    let p = payload(&[(0, 1)], 0);
    s.begin_tick(false, &p);
    s.fence_observed();
    let a = s.acquire_out_of_date();
    assert_eq!(a, Action::RebuildSurface);
    let formats = vec![SurfaceFormat {
        format: ImageFormat::Other(44),
        color_space: 0,
    }];
    let modes = vec![PresentMode::Fifo];
    let a = s
        .surface_rebuilt(&formats, &modes, &caps_800_600(), 800, 600)
        .expect("rebuild must succeed");
    assert_eq!(a, Action::TickDone { drew: false });
    assert_eq!(s.frames_drawn, 0);
    assert_eq!(s.current_slot, 0);
}

#[test]
fn present_out_of_date_recreates_and_still_counts_the_frame() {
    let mut s = basic_scheduler(2);
    let p = payload(&[(0, 1)], 0);
    s.begin_tick(false, &p);
    s.fence_observed();
    s.image_acquired(0);
    s.staging_done();
    s.transfer_submitted();
    s.handoff_submitted();
    s.render_submitted();
    let a = s.present_completed(PresentOutcome::OutOfDate);
    assert_eq!(a, Action::RebuildSurface);
    let formats = vec![SurfaceFormat {
        format: ImageFormat::Other(44),
        color_space: 0,
    }];
    let modes = vec![PresentMode::Fifo];
    let a = s
        .surface_rebuilt(&formats, &modes, &caps_800_600(), 800, 600)
        .expect("rebuild must succeed");
    assert_eq!(a, Action::TickDone { drew: true });
    assert_eq!(s.frames_drawn, 1);
    assert_eq!(s.current_slot, 1);
}

#[test]
fn suboptimal_present_triggers_rebuild() {
    let mut s = basic_scheduler(2);
    let p = payload(&[(0, 1)], 0);
    s.begin_tick(false, &p);
    s.fence_observed();
    s.image_acquired(0);
    s.staging_done();
    s.transfer_submitted();
    s.handoff_submitted();
    s.render_submitted();
    let a = s.present_completed(PresentOutcome::Suboptimal);
    assert_eq!(a, Action::RebuildSurface);
    assert_eq!(s.state, SchedulerState::RecreatingSurface);
}

#[test]
fn frame_slots_rotate_modulo_k() {
    let mut s = basic_scheduler(2);
    let p = payload(&[(0, 1)], 0);
    assert_eq!(s.current_slot, 0);
    run_tick(&mut s, &p, 0);
    assert_eq!(s.current_slot, 1);
    // The GPU signals the first slot's fence before its next wait; model
    // the wait observing it inside the next tick.
    run_tick(&mut s, &p, 1);
    assert_eq!(s.current_slot, 0);
    run_tick(&mut s, &p, 2);
    assert_eq!(s.current_slot, 1);
    assert_eq!(s.frames_drawn, 3);
}

#[test]
fn at_most_k_fences_pending() {
    let mut s = basic_scheduler(2);
    let p = payload(&[(0, 1)], 0);
    for image in 0..3usize {
        run_tick(&mut s, &p, image);
        let pending = s.sync.fence_signaled.iter().filter(|f| !**f).count();
        assert!(pending <= 2);
    }
}

#[test]
fn device_error_halts_with_stage_and_code() {
    let mut s = basic_scheduler(2);
    let p = payload(&[(0, 1)], 0);
    s.begin_tick(false, &p);
    s.fence_observed();
    let e = s.device_error(RenderStage::Acquire, -4);
    assert_eq!(
        e,
        RenderError::Device {
            stage: RenderStage::Acquire,
            code: -4
        }
    );
    assert!(s.halted);
    assert_eq!(e.device_stage(), Some(RenderStage::Acquire));
}

#[test]
fn new_fails_without_formats() {
    let formats: Vec<SurfaceFormat> = Vec::new();
    let modes = vec![PresentMode::Fifo];
    let r = FrameScheduler::new(2, 1024, 32, 32, &formats, &modes, &caps_800_600(), 800, 600);
    assert_eq!(r.err(), Some(RenderError::SurfaceUnsupported));
}

#[test]
fn rebuild_fails_without_formats() {
    let mut s = basic_scheduler(2);
    let p = payload(&[], 0);
    s.begin_tick(true, &p);
    s.fence_observed();
    let formats: Vec<SurfaceFormat> = Vec::new();
    let modes = vec![PresentMode::Fifo];
    let r = s.surface_rebuilt(&formats, &modes, &caps_800_600(), 800, 600);
    assert_eq!(r.err(), Some(RenderError::SurfaceUnsupported));
    assert!(s.halted);
}
