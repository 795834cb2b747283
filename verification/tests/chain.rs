use gfx_core::device::{Device, QueueFamilyIndices};
use gfx_core::error::GfxError;
use gfx_core::gfx::Core;
use gfx_core::renderer::{
    render_frame, FrameAction, FrameError, FrameEvent, FrameSemaphores, FrameState, Renderer,
};
use gfx_core::surface::Extent2D;
use gfx_core::swapchain::{
    AcquireError, AcquiredImage, Dimensions, Framebuffer, RecreateOutcome, Swapchain,
};
use std::sync::Arc;

/// A generation whose handles all start from `base`, with three images.
fn generation(base: u64, width: u32, height: u32) -> Swapchain {
    Swapchain::new(
        base,
        Extent2D { width, height },
        vec![base + 1, base + 2, base + 3],
        base + 9,
        &vec![base + 11, base + 12, base + 13],
    )
    .unwrap()
}

const SEMAPHORES: FrameSemaphores = FrameSemaphores { image_acquired: 71, render_finished: 72 };

const DEVICE: Device = Device {
    physical_device: 0,
    queue_family_indices: QueueFamilyIndices { graphics: 0, present: 1 },
    device: 60,
    graphics_queue: 61,
    present_queue: 62,
};

const BEGIN: FrameEvent = FrameEvent::Begin { timeout: None };

/// One step of a frame that is drawn to a chain of three images.
fn step(state: FrameState, event: FrameEvent) -> (FrameState, FrameAction) {
    render_frame(state, event, &generation(100, 800, 600), &DEVICE, &SEMAPHORES)
}

#[test]
fn generation_binds_each_image_to_its_framebuffer() {
    let chain = generation(100, 800, 600);
    let extent = Extent2D { width: 800, height: 600 };
    assert_eq!(chain.id, 100);
    assert_eq!(chain.extent, extent);
    assert_eq!(chain.images, vec![101, 102, 103]);
    assert_eq!(chain.depth_buffer, 109);
    assert_eq!(
        chain.framebuffers,
        vec![
            Framebuffer { handle: 111, color: 101, depth: 109, extent },
            Framebuffer { handle: 112, color: 102, depth: 109, extent },
            Framebuffer { handle: 113, color: 103, depth: 109, extent },
        ]
    );
}

#[test]
fn generation_is_released_the_other_way_round() {
    assert_eq!(generation(100, 800, 600).release_order(), vec![113, 112, 111, 109, 103, 102, 101, 100]);
    let single =
        Swapchain::new(1, Extent2D { width: 8, height: 8 }, vec![2], 3, &vec![4]).unwrap();
    assert_eq!(single.release_order(), vec![4, 3, 2, 1]);
}

#[test]
fn generation_needs_a_framebuffer_for_each_image() {
    let extent = Extent2D { width: 800, height: 600 };
    assert_eq!(
        Swapchain::new(1, extent, vec![2, 3], 4, &vec![5]),
        Err(GfxError::IncompleteGeneration)
    );
    assert_eq!(
        Swapchain::new(1, extent, vec![2], 4, &vec![5, 6]),
        Err(GfxError::IncompleteGeneration)
    );
    assert_eq!(Swapchain::new(1, extent, vec![], 4, &vec![]), Err(GfxError::IncompleteGeneration));
    assert!(Swapchain::new(1, extent, vec![2], 4, &vec![5]).is_ok());
}

#[test]
fn acquired_image_comes_with_its_framebuffer() {
    let chain = generation(100, 800, 600);
    let extent = Extent2D { width: 800, height: 600 };
    assert_eq!(
        chain.acquire_next_framebuffer(Ok(AcquiredImage { index: 1, future: 55 })),
        Ok((1, Framebuffer { handle: 112, color: 102, depth: 109, extent }, 55))
    );
    assert_eq!(
        chain.acquire_next_framebuffer(Ok(AcquiredImage { index: 3, future: 55 })),
        Err(AcquireError::InvalidImageIndex)
    );
}

#[test]
fn acquire_errors_are_passed_on_as_they_are() {
    let core = Core::new(generation(100, 800, 600));
    for error in [
        AcquireError::OutOfDate,
        AcquireError::Timeout,
        AcquireError::NotReady,
        AcquireError::SurfaceLost,
        AcquireError::DeviceLost,
        AcquireError::OutOfMemory,
    ] {
        assert_eq!(core.swapchain.acquire_next_framebuffer(Err(error)), Err(error));
        assert_eq!(core.acquire_next_framebuffer(Err(error)), Err(error));
    }
    assert_eq!(
        core.acquire_next_framebuffer(Ok(AcquiredImage { index: 0, future: 9 })),
        Ok((0, core.swapchain.framebuffers[0], 9))
    );
}

#[test]
fn refresh_replaces_the_generation_whole() {
    let mut chain = generation(100, 800, 600);
    let old = chain.clone();
    let new = generation(200, 1024, 768);
    let retired = chain.refresh(RecreateOutcome::Created(new.clone()));
    assert_eq!(retired, Some(old));
    assert_eq!(chain, new);
    for (framebuffer, image) in chain.framebuffers.iter().zip(chain.images.iter()) {
        assert_eq!(framebuffer.depth, chain.depth_buffer);
        assert_eq!(framebuffer.color, *image);
        assert_eq!(framebuffer.extent, chain.extent);
    }
}

#[test]
fn refresh_with_unsupported_dimensions_changes_nothing() {
    let mut chain = generation(100, 800, 600);
    let old = chain.clone();
    assert_eq!(chain.refresh(RecreateOutcome::UnsupportedDimensions), None);
    assert_eq!(chain, old);
}

#[test]
fn recreate_twice_with_the_same_dimensions() {
    let mut core = Core::new(generation(100, 800, 600));
    let first = generation(200, 1024, 768);
    let second = generation(300, 1024, 768);

    let retired = core.recreate_swapchain(RecreateOutcome::Created(first.clone()));
    assert_eq!(retired, Some(generation(100, 800, 600)));
    assert_eq!(core.swapchain.extent, Extent2D { width: 1024, height: 768 });
    assert_eq!(core.dimensions, Dimensions { width: 1024, height: 768 });

    let retired = core.recreate_swapchain(RecreateOutcome::Created(second.clone()));
    assert_eq!(retired, Some(first));
    assert_eq!(core.swapchain, second);
    assert_eq!(core.swapchain.extent, Extent2D { width: 1024, height: 768 });
    assert_eq!(core.dimensions, Dimensions { width: 1024, height: 768 });
}

#[test]
fn recreate_retries_until_the_dimensions_are_taken() {
    let mut core = Core::new(generation(100, 800, 600));
    let sizes = [(801, 600), (845, 611), (900, 640), (1000, 700)];
    let mut attempts = 0;
    let mut done = false;
    while !done {
        let (width, height) = sizes[attempts];
        let outcome = if attempts < 3 {
            RecreateOutcome::UnsupportedDimensions
        } else {
            RecreateOutcome::Created(generation(200, width, height))
        };
        attempts += 1;
        match core.recreate_swapchain(outcome) {
            Some(retired) => {
                assert_eq!(retired, generation(100, 800, 600));
                done = true;
            }
            None => {
                assert_eq!(core.swapchain, generation(100, 800, 600));
                assert_eq!(core.dimensions, Dimensions { width: 800, height: 600 });
            }
        }
    }
    assert_eq!(attempts, 4);
    assert_eq!(core.swapchain, generation(200, 1000, 700));
    assert_eq!(core.swapchain.extent, Extent2D { width: 1000, height: 700 });
    assert_eq!(core.dimensions, Dimensions { width: 1000, height: 700 });
}

#[test]
fn core_starts_at_the_size_of_its_chain() {
    let core = Core::new(generation(100, 800, 600));
    assert_eq!(core.dimensions, Dimensions { width: 800, height: 600 });
    assert_eq!(core.swapchain, generation(100, 800, 600));
}

#[test]
fn renderer_holds_the_core() {
    let core = Arc::new(Core::new(generation(100, 800, 600)));
    let renderer = Renderer::new(core.clone()).unwrap();
    assert!(Arc::ptr_eq(&renderer.gfx, &core));
    assert_eq!(renderer.render(), Ok(()));
}

#[test]
fn frame_is_acquired_submitted_and_presented_in_turn() {
    let (state, action) = step(FrameState::Idle, BEGIN);
    assert_eq!(state, FrameState::Acquiring);
    assert_eq!(action, FrameAction::Acquire { swapchain: 100, timeout: None, signal: 71 });

    let (state, action) = step(state, FrameEvent::Acquired(2));
    assert_eq!(state, FrameState::Submitting(2));
    assert_eq!(
        action,
        FrameAction::Submit { queue: 61, command_buffer: 2, wait: 71, wait_stage: 0x1, signal: 72 }
    );

    let (state, action) = step(state, FrameEvent::Submitted);
    assert_eq!(state, FrameState::Presenting(2));
    assert_eq!(action, FrameAction::Present { queue: 62, swapchain: 100, image: 2, wait: 72 });

    let (state, action) = step(state, FrameEvent::Presented);
    assert_eq!(state, FrameState::Idle);
    assert_eq!(action, FrameAction::Complete);
}

#[test]
fn out_of_date_on_acquire_recreates_before_the_next_frame() {
    let (state, _) = step(FrameState::Idle, BEGIN);
    let (state, action) = step(state, FrameEvent::AcquireFailed(AcquireError::OutOfDate));
    assert_eq!(state, FrameState::Recreating);
    assert_eq!(action, FrameAction::Recreate);

    let (state, action) = step(state, BEGIN);
    assert_eq!(state, FrameState::Recreating);
    assert_eq!(action, FrameAction::Recreate);

    let (state, action) = step(state, FrameEvent::Recreated);
    assert_eq!(state, FrameState::Idle);
    assert_eq!(action, FrameAction::Skip);

    let (state, action) = step(state, BEGIN);
    assert_eq!(state, FrameState::Acquiring);
    assert_eq!(action, FrameAction::Acquire { swapchain: 100, timeout: None, signal: 71 });
}

#[test]
fn out_of_date_on_present_recreates() {
    assert_eq!(
        step(FrameState::Presenting(1), FrameEvent::PresentOutOfDate),
        (FrameState::Recreating, FrameAction::Recreate)
    );
}

#[test]
fn image_not_free_skips_the_frame() {
    for error in [AcquireError::Timeout, AcquireError::NotReady] {
        assert_eq!(
            step(FrameState::Acquiring, FrameEvent::AcquireFailed(error)),
            (FrameState::Idle, FrameAction::Skip)
        );
    }
}

#[test]
fn other_failures_abort_the_frame() {
    for error in [AcquireError::SurfaceLost, AcquireError::DeviceLost, AcquireError::OutOfMemory] {
        assert_eq!(
            step(FrameState::Acquiring, FrameEvent::AcquireFailed(error)),
            (FrameState::Failed, FrameAction::Abort(FrameError::Acquire(error)))
        );
    }
    assert_eq!(
        step(FrameState::Acquiring, FrameEvent::Acquired(3)),
        (
            FrameState::Failed,
            FrameAction::Abort(FrameError::Acquire(AcquireError::InvalidImageIndex))
        )
    );
    assert_eq!(
        step(FrameState::Submitting(0), FrameEvent::SubmitFailed(-4)),
        (FrameState::Failed, FrameAction::Abort(FrameError::Submit(-4)))
    );
    assert_eq!(
        step(FrameState::Presenting(0), FrameEvent::PresentFailed(-13)),
        (FrameState::Failed, FrameAction::Abort(FrameError::Present(-13)))
    );
}

#[test]
fn nothing_is_drawn_after_a_failure() {
    for event in [
        BEGIN,
        FrameEvent::Acquired(0),
        FrameEvent::Submitted,
        FrameEvent::Presented,
        FrameEvent::Resized,
        FrameEvent::Recreated,
        FrameEvent::Drained,
    ] {
        assert_eq!(
            step(FrameState::Failed, event),
            (FrameState::Failed, FrameAction::Abort(FrameError::Unexpected))
        );
    }
    assert_eq!(
        step(FrameState::Failed, FrameEvent::Shutdown),
        (FrameState::Draining, FrameAction::WaitIdle)
    );
}

#[test]
fn resize_recreates_like_a_chain_out_of_date() {
    assert_eq!(
        step(FrameState::Idle, FrameEvent::Resized),
        (FrameState::Recreating, FrameAction::Recreate)
    );
    assert_eq!(
        step(FrameState::Recreating, FrameEvent::Resized),
        (FrameState::Recreating, FrameAction::Recreate)
    );
    assert_eq!(
        step(FrameState::Submitting(1), FrameEvent::Resized),
        (FrameState::Submitting(1), FrameAction::Abort(FrameError::Unexpected))
    );
}

#[test]
fn shutdown_waits_for_the_device_once_and_then_destroys() {
    for state in [
        FrameState::Idle,
        FrameState::Acquiring,
        FrameState::Submitting(0),
        FrameState::Presenting(2),
        FrameState::Recreating,
        FrameState::Failed,
    ] {
        assert_eq!(
            step(state, FrameEvent::Shutdown),
            (FrameState::Draining, FrameAction::WaitIdle)
        );
    }
    assert_eq!(
        step(FrameState::Draining, FrameEvent::Shutdown),
        (FrameState::Draining, FrameAction::Abort(FrameError::Unexpected))
    );
    assert_eq!(
        step(FrameState::Draining, BEGIN),
        (FrameState::Draining, FrameAction::Abort(FrameError::Unexpected))
    );
    assert_eq!(
        step(FrameState::Draining, FrameEvent::Drained),
        (FrameState::Destroyed, FrameAction::Destroy)
    );
    for event in [BEGIN, FrameEvent::Shutdown, FrameEvent::Drained] {
        assert_eq!(
            step(FrameState::Destroyed, event),
            (FrameState::Destroyed, FrameAction::Abort(FrameError::Unexpected))
        );
    }
}

#[test]
fn event_out_of_turn_is_refused() {
    assert_eq!(
        step(FrameState::Idle, FrameEvent::Submitted),
        (FrameState::Idle, FrameAction::Abort(FrameError::Unexpected))
    );
    assert_eq!(
        step(FrameState::Recreating, FrameEvent::Acquired(0)),
        (FrameState::Recreating, FrameAction::Abort(FrameError::Unexpected))
    );
    assert_eq!(
        step(FrameState::Submitting(1), FrameEvent::Presented),
        (FrameState::Submitting(1), FrameAction::Abort(FrameError::Unexpected))
    );
}

#[test]
fn acquire_waits_no_longer_than_the_caller_allows() {
    assert_eq!(
        step(FrameState::Idle, FrameEvent::Begin { timeout: Some(16_000_000) }),
        (
            FrameState::Acquiring,
            FrameAction::Acquire { swapchain: 100, timeout: Some(16_000_000), signal: 71 }
        )
    );
}

#[test]
fn one_command_buffer_for_each_image_of_the_chain() {
    let single = Swapchain::new(5, Extent2D { width: 8, height: 8 }, vec![6], 7, &vec![8]).unwrap();
    assert_eq!(
        render_frame(FrameState::Acquiring, FrameEvent::Acquired(0), &single, &DEVICE, &SEMAPHORES),
        (
            FrameState::Submitting(0),
            FrameAction::Submit { queue: 61, command_buffer: 0, wait: 71, wait_stage: 0x1, signal: 72 }
        )
    );
    assert_eq!(
        render_frame(FrameState::Acquiring, FrameEvent::Acquired(1), &single, &DEVICE, &SEMAPHORES),
        (
            FrameState::Failed,
            FrameAction::Abort(FrameError::Acquire(AcquireError::InvalidImageIndex))
        )
    );
    assert_eq!(
        render_frame(FrameState::Submitting(0), FrameEvent::Submitted, &single, &DEVICE, &SEMAPHORES),
        (
            FrameState::Presenting(0),
            FrameAction::Present { queue: 62, swapchain: 5, image: 0, wait: 72 }
        )
    );
}
