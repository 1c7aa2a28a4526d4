use vulkan_frames::frame_loop::{FenceState, FrameAction, FrameEvent, FrameLoop, FrameLoopError};
use vulkan_frames::frames::{InFlightFrames, SyncObjects};
use vulkan_frames::swapchain::{
    choose_swapchain_extent, choose_swapchain_properties, Extent2D, SurfaceCapabilities,
    SurfaceFormat, SwapchainSupportDetails, ANY_EXTENT, COLOR_SPACE_SRGB_NONLINEAR,
    FORMAT_B8G8R8A8_UNORM, PRESENT_MODE_FIFO, PRESENT_MODE_MAILBOX,
};

fn sync(k: u64) -> SyncObjects {
    SyncObjects {
        image_available_semaphore: 10 * k + 1,
        render_finished_semaphore: 10 * k + 2,
        fence: 10 * k + 3,
    }
}

fn ring() -> Vec<SyncObjects> {
    vec![sync(0), sync(1)]
}

fn extent(width: u32, height: u32) -> Extent2D {
    Extent2D { width, height }
}

fn step(frame: &mut FrameLoop, event: FrameEvent) -> FrameAction {
    frame.on_event(event).expect("event answers the outstanding action")
}

#[test]
fn ring_returns_slot_i_mod_n() {
    let mut frames = InFlightFrames::new(vec![sync(0), sync(1)]);
    assert_eq!(frames.len(), 2);
    for i in 0..7u64 {
        assert_eq!(frames.next(), sync(i % 2));
    }
}

#[test]
fn ring_of_three_cycles() {
    let mut frames = InFlightFrames::new(vec![sync(0), sync(1), sync(2)]);
    let got: Vec<SyncObjects> = (0..6).map(|_| frames.next()).collect();
    assert_eq!(got, vec![sync(0), sync(1), sync(2), sync(0), sync(1), sync(2)]);
}

#[test]
fn ring_is_stable_across_runs() {
    let mut a = InFlightFrames::new(vec![sync(0), sync(1)]);
    let mut b = InFlightFrames::new(vec![sync(0), sync(1)]);
    for _ in 0..9 {
        assert_eq!(a.next(), b.next());
    }
}

#[test]
fn ring_of_one_slot_always_returns_it() {
    let mut frames = InFlightFrames::new(vec![sync(4)]);
    for _ in 0..3 {
        assert_eq!(frames.next(), sync(4));
    }
}

#[test]
fn first_frame_does_not_wait_on_an_unsignaled_fence() {
    let frame = FrameLoop::new(ring(), extent(800, 600));
    assert_eq!(frame.action(), FrameAction::WaitFence { slot: 0, sync: sync(0) });
    assert_eq!(frame.fence_state(0), Some(FenceState::Signaled));
    assert_eq!(frame.fence_state(1), Some(FenceState::Signaled));
    assert_eq!(frame.fence_state(2), None);
}

#[test]
fn scenario_clean_frame_at_800x600() {
    let mut frame = FrameLoop::new(ring(), extent(800, 600));
    assert_eq!(frame.action(), FrameAction::WaitFence { slot: 0, sync: sync(0) });
    assert_eq!(step(&mut frame, FrameEvent::FenceSignaled), FrameAction::AcquireImage { slot: 0, sync: sync(0) });
    assert_eq!(
        step(&mut frame, FrameEvent::ImageAcquired { image_index: 0 }),
        FrameAction::SubmitFrame { slot: 0, image_index: 0, sync: sync(0) }
    );
    assert_eq!(
        step(&mut frame, FrameEvent::Submitted),
        FrameAction::Present { slot: 0, image_index: 0, sync: sync(0) }
    );
    assert_eq!(frame.fence_state(0), Some(FenceState::Pending));
    assert_eq!(
        step(&mut frame, FrameEvent::Presented { suboptimal: false }),
        FrameAction::WaitFence { slot: 1, sync: sync(1) }
    );
    assert!(!frame.is_resize_pending());
}

#[test]
fn slots_alternate_over_frames() {
    let mut frame = FrameLoop::new(ring(), extent(800, 600));
    for i in 0..5usize {
        assert_eq!(frame.action(), FrameAction::WaitFence { slot: i % 2, sync: sync((i % 2) as u64) });
        step(&mut frame, FrameEvent::FenceSignaled);
        step(&mut frame, FrameEvent::ImageAcquired { image_index: (i % 3) as u32 });
        step(&mut frame, FrameEvent::Submitted);
        step(&mut frame, FrameEvent::Presented { suboptimal: false });
    }
}

#[test]
fn scenario_minimize_then_restore() {
    let mut frame = FrameLoop::new(ring(), extent(800, 600));
    step(&mut frame, FrameEvent::FenceSignaled);
    step(&mut frame, FrameEvent::ImageAcquired { image_index: 1 });
    step(&mut frame, FrameEvent::Submitted);
    frame.notify_resize(0, 0);
    assert!(frame.is_resize_pending());
    assert_eq!(
        step(&mut frame, FrameEvent::Presented { suboptimal: false }),
        FrameAction::PollEvents
    );
    assert_eq!(step(&mut frame, FrameEvent::EventsPolled), FrameAction::PollEvents);
    assert_eq!(step(&mut frame, FrameEvent::EventsPolled), FrameAction::PollEvents);
    frame.notify_resize(400, 300);
    assert_eq!(
        step(&mut frame, FrameEvent::EventsPolled),
        FrameAction::Rebuild { extent: extent(400, 300) }
    );
    let caps = SurfaceCapabilities {
        min_image_count: 2,
        max_image_count: 8,
        current_extent: extent(ANY_EXTENT, ANY_EXTENT),
        min_image_extent: extent(1, 1),
        max_image_extent: extent(4096, 4096),
    };
    assert_eq!(choose_swapchain_extent(&caps, frame.window_extent()), extent(400, 300));
    assert_eq!(step(&mut frame, FrameEvent::Rebuilt), FrameAction::WaitFence { slot: 1, sync: sync(1) });
    assert!(!frame.is_resize_pending());
    assert_eq!(frame.fence_state(0), Some(FenceState::Signaled));
}

#[test]
fn restored_extent_is_clamped_to_surface_bounds() {
    let caps = SurfaceCapabilities {
        min_image_count: 2,
        max_image_count: 0,
        current_extent: extent(ANY_EXTENT, ANY_EXTENT),
        min_image_extent: extent(500, 100),
        max_image_extent: extent(1000, 200),
    };
    assert_eq!(choose_swapchain_extent(&caps, extent(400, 300)), extent(500, 200));
}

#[test]
fn stale_acquire_rebuilds_without_resetting_the_fence() {
    let mut frame = FrameLoop::new(ring(), extent(800, 600));
    step(&mut frame, FrameEvent::FenceSignaled);
    assert_eq!(
        step(&mut frame, FrameEvent::AcquireOutOfDate),
        FrameAction::Rebuild { extent: extent(800, 600) }
    );
    assert_eq!(frame.fence_state(0), Some(FenceState::Signaled));
    assert_eq!(step(&mut frame, FrameEvent::Rebuilt), FrameAction::WaitFence { slot: 1, sync: sync(1) });
}

#[test]
fn suboptimal_or_stale_present_rebuilds() {
    let mut frame = FrameLoop::new(ring(), extent(640, 480));
    step(&mut frame, FrameEvent::FenceSignaled);
    step(&mut frame, FrameEvent::ImageAcquired { image_index: 2 });
    step(&mut frame, FrameEvent::Submitted);
    assert_eq!(
        step(&mut frame, FrameEvent::Presented { suboptimal: true }),
        FrameAction::Rebuild { extent: extent(640, 480) }
    );
    step(&mut frame, FrameEvent::Rebuilt);
    step(&mut frame, FrameEvent::FenceSignaled);
    step(&mut frame, FrameEvent::ImageAcquired { image_index: 0 });
    step(&mut frame, FrameEvent::Submitted);
    assert_eq!(
        step(&mut frame, FrameEvent::PresentOutOfDate),
        FrameAction::Rebuild { extent: extent(640, 480) }
    );
}

#[test]
fn resize_during_frame_rebuilds_after_present() {
    let mut frame = FrameLoop::new(ring(), extent(800, 600));
    step(&mut frame, FrameEvent::FenceSignaled);
    frame.notify_resize(1024, 768);
    step(&mut frame, FrameEvent::ImageAcquired { image_index: 0 });
    step(&mut frame, FrameEvent::Submitted);
    assert_eq!(
        step(&mut frame, FrameEvent::Presented { suboptimal: false }),
        FrameAction::Rebuild { extent: extent(1024, 768) }
    );
}

#[test]
fn unexpected_event_is_refused_and_changes_nothing() {
    let mut frame = FrameLoop::new(ring(), extent(800, 600));
    assert_eq!(frame.on_event(FrameEvent::Submitted), Err(FrameLoopError::UnexpectedEvent));
    assert_eq!(frame.on_event(FrameEvent::Rebuilt), Err(FrameLoopError::UnexpectedEvent));
    assert_eq!(frame.action(), FrameAction::WaitFence { slot: 0, sync: sync(0) });
}

fn support(formats: Vec<SurfaceFormat>, modes: Vec<i32>) -> SwapchainSupportDetails {
    SwapchainSupportDetails {
        capabilities: SurfaceCapabilities {
            min_image_count: 2,
            max_image_count: 3,
            current_extent: extent(ANY_EXTENT, ANY_EXTENT),
            min_image_extent: extent(1, 1),
            max_image_extent: extent(2048, 2048),
        },
        formats,
        present_modes: modes,
    }
}

#[test]
fn rebuild_twice_gives_identical_properties() {
    let s = support(
        vec![
            SurfaceFormat { format: 50, color_space: 0 },
            SurfaceFormat { format: FORMAT_B8G8R8A8_UNORM, color_space: COLOR_SPACE_SRGB_NONLINEAR },
        ],
        vec![PRESENT_MODE_FIFO, PRESENT_MODE_MAILBOX],
    );
    let first = choose_swapchain_properties(&s, extent(800, 600)).unwrap();
    let second = choose_swapchain_properties(&s, first.extent).unwrap();
    assert_eq!(first, second);
    assert_eq!(first.present_mode, PRESENT_MODE_MAILBOX);
    assert_eq!(first.format.format, FORMAT_B8G8R8A8_UNORM);
    assert_eq!(first.extent, extent(800, 600));
}

#[test]
fn frame_loop_walks_a_ring_of_three() {
    let mut frame = FrameLoop::new(vec![sync(0), sync(1), sync(2)], extent(800, 600));
    for i in 0..7usize {
        let k = i % 3;
        assert_eq!(frame.action(), FrameAction::WaitFence { slot: k, sync: sync(k as u64) });
        step(&mut frame, FrameEvent::FenceSignaled);
        assert_eq!(
            step(&mut frame, FrameEvent::ImageAcquired { image_index: 1 }),
            FrameAction::SubmitFrame { slot: k, image_index: 1, sync: sync(k as u64) }
        );
        step(&mut frame, FrameEvent::Submitted);
        step(&mut frame, FrameEvent::Presented { suboptimal: false });
    }
}
