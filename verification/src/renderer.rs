//! The order of a frame, and of the life of the chain around it.
//!
//! A frame is three calls to the driver: an image is acquired, the commands
//! recorded for it are submitted, and the image is presented. The caller
//! makes the calls; what to do next is decided here, from what the last call
//! gave. The same decisions cover a chain that is out of date, a window that
//! has changed its size, and the end of the program.

use crate::device::Device;
use crate::gfx::Core;
use crate::swapchain::{AcquireError, Generation, Swapchain};
use std::sync::Arc;
use vstd::prelude::*;

verus! {

/// The pipeline stage at which submitted commands wait for their image: the
/// top of the pipeline, before anything runs.
pub const PIPELINE_STAGE_TOP_OF_PIPE: u32 = 0x1;

/// Draws with what the core of the pipeline holds.
#[derive(Debug, Clone)]
pub struct Renderer {
    pub gfx: Arc<Core>,
}

impl Renderer {
    /// Takes a share in the core. Nothing can go wrong in that.
    pub fn new(gfx: Arc<Core>) -> (r: Result<Renderer, ()>)
        ensures
            r == Ok::<Renderer, ()>(Renderer { gfx }),
    {
        Ok(Renderer { gfx })
    }

    /// Draws nothing of its own: the commands of a frame are recorded
    /// elsewhere, one buffer for each image, and go to the driver in the
    /// order that [`render_frame`] gives.
    pub fn render(&self) -> (r: Result<(), ()>)
        ensures
            r == Ok::<(), ()>(()),
    {
        Ok(())
    }
}

/// The two signals that order the work of a frame on the device. They are
/// made once and used again for every frame.
#[derive(Debug, Clone, Copy, PartialEq, Eq)]
pub struct FrameSemaphores {
    /// Raised when the acquired image can be written to.
    pub image_acquired: u64,
    /// Raised when the commands of the frame have run.
    pub render_finished: u64,
}

/// What a frame is drawn with: the chain and the number of its images, for
/// each of which one command buffer is recorded, the queue that draws and
/// the queue that presents, and the two signals.
pub struct Frame {
    pub chain: u64,
    pub images: nat,
    pub graphics_queue: u64,
    pub present_queue: u64,
    pub semaphores: FrameSemaphores,
}

impl Frame {
    /// What a frame is drawn with, given the chain as it is now, the open
    /// device and the signals.
    pub open spec fn of(chain: Generation, device: Device, semaphores: FrameSemaphores) -> Frame {
        Frame {
            chain: chain.chain,
            images: chain.framebuffers.len(),
            graphics_queue: device.graphics_queue,
            present_queue: device.present_queue,
            semaphores,
        }
    }
}

/// Why drawing was given up for good.
#[derive(Debug, Clone, Copy, PartialEq, Eq, Structural)]
pub enum FrameError {
    /// No image could be had, for a reason that waiting does not mend.
    Acquire(AcquireError),
    /// The driver refused the commands; its code is kept.
    Submit(i32),
    /// The driver refused to present the image; its code is kept.
    Present(i32),
    /// Something was reported that the step before did not ask for.
    Unexpected,
}

/// How far things have come.
#[derive(Debug, Clone, Copy, PartialEq, Eq, Structural)]
pub enum FrameState {
    /// The chain is ready and no frame is under way.
    Idle,
    /// The driver was asked for the next image.
    Acquiring,
    /// The commands for the image with this index were handed to the driver.
    Submitting(usize),
    /// The image with this index was handed to the driver to be shown.
    Presenting(usize),
    /// The chain does not fit the surface and is being made anew.
    Recreating,
    /// The driver failed in a way that is not recovered from. All that is
    /// left is to shut down.
    Failed,
    /// The program is ending and waits for the device to finish its work.
    Draining,
    /// The device has finished and the resources are gone.
    Destroyed,
}

/// What the caller reports: what it wants, or what came of the last call it
/// was told to make.
#[derive(Debug, Clone, Copy, PartialEq, Eq, Structural)]
pub enum FrameEvent {
    /// A frame is to be drawn. An image is waited for no longer than
    /// `timeout`, in nanoseconds, or for as long as it takes where none is given.
    Begin { timeout: Option<u64> },
    /// The driver handed out the image with this index.
    Acquired(usize),
    AcquireFailed(AcquireError),
    Submitted,
    SubmitFailed(i32),
    Presented,
    /// The driver would not present, because the chain no longer fits the surface.
    PresentOutOfDate,
    PresentFailed(i32),
    /// The window has changed its size.
    Resized,
    /// The chain has been made anew.
    Recreated,
    /// The program is to end.
    Shutdown,
    /// The device has finished all the work it was given.
    Drained,
}

/// What the caller is to do next.
#[derive(Debug, Clone, Copy, PartialEq, Eq, Structural)]
pub enum FrameAction {
    /// Ask the driver for the next image of `swapchain`, to raise `signal`
    /// when the image can be written to, and wait no longer than `timeout`.
    Acquire { swapchain: u64, timeout: Option<u64>, signal: u64 },
    /// Submit the commands recorded for the image to `queue`. They wait for
    /// `wait` at the stage `wait_stage`, and raise `signal` when they are
    /// through.
    Submit { queue: u64, command_buffer: usize, wait: u64, wait_stage: u32, signal: u64 },
    /// Present the image of `swapchain` on `queue`, once `wait` is raised.
    Present { queue: u64, swapchain: u64, image: usize, wait: u64 },
    /// Make the chain anew for the window's present size, as often as it
    /// takes, then report `Recreated`.
    Recreate,
    /// Nothing was drawn: begin again.
    Skip,
    /// The frame is on its way to the display.
    Complete,
    /// Wait until the device has finished all its work, then report `Drained`.
    WaitIdle,
    /// Release the resources; nothing uses them any more.
    Destroy,
    /// Give up: this is not recovered from.
    Abort(FrameError),
}

impl FrameAction {
    /// The action hands work for a frame to the driver.
    pub open spec fn touches_frame(self) -> bool {
        self is Acquire || self is Submit || self is Present
    }
}

impl FrameState {
    /// The end of the program has begun, or is over.
    pub open spec fn ending(self) -> bool {
        self is Draining || self is Destroyed
    }
}

/// The state that follows `state` when `event` is reported, and what is to be
/// done then.
pub open spec fn frame_step(state: FrameState, event: FrameEvent, frame: Frame) -> (
    FrameState,
    FrameAction,
) {
    match (state, event) {
        (FrameState::Draining, FrameEvent::Drained) => (FrameState::Destroyed, FrameAction::Destroy),
        (_, FrameEvent::Shutdown) if !state.ending() => (FrameState::Draining, FrameAction::WaitIdle),
        (FrameState::Idle, FrameEvent::Begin { timeout }) => (
            FrameState::Acquiring,
            FrameAction::Acquire {
                swapchain: frame.chain,
                timeout,
                signal: frame.semaphores.image_acquired,
            },
        ),
        (FrameState::Acquiring, FrameEvent::Acquired(index)) => if index < frame.images {
            (
                FrameState::Submitting(index),
                FrameAction::Submit {
                    queue: frame.graphics_queue,
                    command_buffer: index,
                    wait: frame.semaphores.image_acquired,
                    wait_stage: PIPELINE_STAGE_TOP_OF_PIPE,
                    signal: frame.semaphores.render_finished,
                },
            )
        } else {
            (
                FrameState::Failed,
                FrameAction::Abort(FrameError::Acquire(AcquireError::InvalidImageIndex)),
            )
        },
        (FrameState::Acquiring, FrameEvent::AcquireFailed(error)) => match error {
            AcquireError::OutOfDate => (FrameState::Recreating, FrameAction::Recreate),
            AcquireError::Timeout | AcquireError::NotReady => (
                FrameState::Idle,
                FrameAction::Skip,
            ),
            _ => (FrameState::Failed, FrameAction::Abort(FrameError::Acquire(error))),
        },
        (FrameState::Submitting(index), FrameEvent::Submitted) => (
            FrameState::Presenting(index),
            FrameAction::Present {
                queue: frame.present_queue,
                swapchain: frame.chain,
                image: index,
                wait: frame.semaphores.render_finished,
            },
        ),
        (FrameState::Submitting(_), FrameEvent::SubmitFailed(code)) => (
            FrameState::Failed,
            FrameAction::Abort(FrameError::Submit(code)),
        ),
        (FrameState::Presenting(_), FrameEvent::Presented) => (
            FrameState::Idle,
            FrameAction::Complete,
        ),
        (FrameState::Presenting(_), FrameEvent::PresentOutOfDate) => (
            FrameState::Recreating,
            FrameAction::Recreate,
        ),
        (FrameState::Presenting(_), FrameEvent::PresentFailed(code)) => (
            FrameState::Failed,
            FrameAction::Abort(FrameError::Present(code)),
        ),
        (FrameState::Idle, FrameEvent::Resized) => (FrameState::Recreating, FrameAction::Recreate),
        (FrameState::Recreating, FrameEvent::Resized) => (
            FrameState::Recreating,
            FrameAction::Recreate,
        ),
        (FrameState::Recreating, FrameEvent::Begin { .. }) => (
            FrameState::Recreating,
            FrameAction::Recreate,
        ),
        (FrameState::Recreating, FrameEvent::Recreated) => (FrameState::Idle, FrameAction::Skip),
        _ => (state, FrameAction::Abort(FrameError::Unexpected)),
    }
}

/// Decides the next step from what the caller reports, for a frame that is
/// drawn to `chain` with the queues of `device`. One command buffer is
/// recorded for each image of the chain, under the index of the image.
///
/// A frame goes from `Idle` through `Acquiring`, `Submitting` and
/// `Presenting` and back to `Idle`. A chain that is found out of date, when
/// an image is asked for or when one is presented, is no failure: the state
/// becomes `Recreating`, as it does when the window changes its size, and no
/// frame is begun until `Recreated` is reported. An image that is not free
/// yet only skips the frame. Every other failure of the driver ends in
/// `Abort` and leaves nothing to do but to shut down. Shutting down waits
/// for the device first and releases the resources after.
pub fn render_frame(
    state: FrameState,
    event: FrameEvent,
    chain: &Swapchain,
    device: &Device,
    semaphores: &FrameSemaphores,
) -> (r: (FrameState, FrameAction))
    ensures
        r == frame_step(state, event, Frame::of(chain@, *device, *semaphores)),
{
    if let FrameEvent::Shutdown = event {
        return match state {
            FrameState::Draining => (state, FrameAction::Abort(FrameError::Unexpected)),
            FrameState::Destroyed => (state, FrameAction::Abort(FrameError::Unexpected)),
            _ => (FrameState::Draining, FrameAction::WaitIdle),
        };
    }
    match (state, event) {
        (FrameState::Draining, FrameEvent::Drained) => (FrameState::Destroyed, FrameAction::Destroy),
        (FrameState::Idle, FrameEvent::Begin { timeout }) => (
            FrameState::Acquiring,
            FrameAction::Acquire {
                swapchain: chain.id,
                timeout,
                signal: semaphores.image_acquired,
            },
        ),
        (FrameState::Acquiring, FrameEvent::Acquired(index)) => if index
            < chain.framebuffers.len() {
            (
                FrameState::Submitting(index),
                FrameAction::Submit {
                    queue: device.graphics_queue,
                    command_buffer: index,
                    wait: semaphores.image_acquired,
                    wait_stage: PIPELINE_STAGE_TOP_OF_PIPE,
                    signal: semaphores.render_finished,
                },
            )
        } else {
            (
                FrameState::Failed,
                FrameAction::Abort(FrameError::Acquire(AcquireError::InvalidImageIndex)),
            )
        },
        (FrameState::Acquiring, FrameEvent::AcquireFailed(error)) => match error {
            AcquireError::OutOfDate => (FrameState::Recreating, FrameAction::Recreate),
            AcquireError::Timeout => (FrameState::Idle, FrameAction::Skip),
            AcquireError::NotReady => (FrameState::Idle, FrameAction::Skip),
            _ => (FrameState::Failed, FrameAction::Abort(FrameError::Acquire(error))),
        },
        (FrameState::Submitting(index), FrameEvent::Submitted) => (
            FrameState::Presenting(index),
            FrameAction::Present {
                queue: device.present_queue,
                swapchain: chain.id,
                image: index,
                wait: semaphores.render_finished,
            },
        ),
        (FrameState::Submitting(_), FrameEvent::SubmitFailed(code)) => (
            FrameState::Failed,
            FrameAction::Abort(FrameError::Submit(code)),
        ),
        (FrameState::Presenting(_), FrameEvent::Presented) => (
            FrameState::Idle,
            FrameAction::Complete,
        ),
        (FrameState::Presenting(_), FrameEvent::PresentOutOfDate) => (
            FrameState::Recreating,
            FrameAction::Recreate,
        ),
        (FrameState::Presenting(_), FrameEvent::PresentFailed(code)) => (
            FrameState::Failed,
            FrameAction::Abort(FrameError::Present(code)),
        ),
        (FrameState::Idle, FrameEvent::Resized) => (FrameState::Recreating, FrameAction::Recreate),
        (FrameState::Recreating, FrameEvent::Resized) => (
            FrameState::Recreating,
            FrameAction::Recreate,
        ),
        (FrameState::Recreating, FrameEvent::Begin { .. }) => (
            FrameState::Recreating,
            FrameAction::Recreate,
        ),
        (FrameState::Recreating, FrameEvent::Recreated) => (FrameState::Idle, FrameAction::Skip),
        _ => (state, FrameAction::Abort(FrameError::Unexpected)),
    }
}

/// Commands are submitted only for an image that the driver has just handed
/// out, and only for that image. They go to the queue that draws; they wait,
/// at the top of the pipeline, for the signal that the image was acquired
/// with, and raise the signal that presenting waits for.
pub proof fn lemma_submit_follows_acquire(state: FrameState, event: FrameEvent, frame: Frame)
    requires
        frame_step(state, event, frame).1 is Submit,
    ensures
        state is Acquiring,
        frame_step(state, event, frame).1 matches FrameAction::Submit {
            queue,
            command_buffer,
            wait,
            wait_stage,
            signal,
        } && {
            &&& event == FrameEvent::Acquired(command_buffer)
            &&& command_buffer < frame.images
            &&& queue == frame.graphics_queue
            &&& wait == frame.semaphores.image_acquired
            &&& wait_stage == PIPELINE_STAGE_TOP_OF_PIPE
            &&& signal == frame.semaphores.render_finished
            &&& frame_step(state, event, frame).0 == FrameState::Submitting(command_buffer)
        },
{
}

/// An image is presented only after its commands were submitted. It goes to
/// the queue that presents, and presenting waits for the signal that those
/// commands raise on the device, not for the host.
pub proof fn lemma_present_follows_submit(state: FrameState, event: FrameEvent, frame: Frame)
    requires
        frame_step(state, event, frame).1 is Present,
    ensures
        event is Submitted,
        frame_step(state, event, frame).1 matches FrameAction::Present {
            queue,
            swapchain,
            image,
            wait,
        } && {
            &&& state == FrameState::Submitting(image)
            &&& queue == frame.present_queue
            &&& swapchain == frame.chain
            &&& wait == frame.semaphores.render_finished
        },
{
}

/// When the driver says, on being asked for an image, that the chain is out
/// of date, nothing is submitted or presented: the chain is made anew. Until
/// that is reported done, no step hands work for a frame to the driver, and
/// nothing but the end of the program leads elsewhere.
pub proof fn lemma_out_of_date_recreates_first(event: FrameEvent, frame: Frame)
    ensures
        frame_step(
            FrameState::Acquiring,
            FrameEvent::AcquireFailed(AcquireError::OutOfDate),
            frame,
        ) == (FrameState::Recreating, FrameAction::Recreate),
        !frame_step(FrameState::Recreating, event, frame).1.touches_frame(),
        event != FrameEvent::Recreated && event != FrameEvent::Shutdown ==> frame_step(
            FrameState::Recreating,
            event,
            frame,
        ).0 == FrameState::Recreating,
{
}

/// A window that changes its size and a chain that the driver finds out of
/// date lead to the same place: the chain is made anew before anything else.
pub proof fn lemma_resize_and_out_of_date_converge(index: usize, frame: Frame)
    ensures
        frame_step(FrameState::Idle, FrameEvent::Resized, frame) == (
            FrameState::Recreating,
            FrameAction::Recreate,
        ),
        frame_step(
            FrameState::Acquiring,
            FrameEvent::AcquireFailed(AcquireError::OutOfDate),
            frame,
        ) == (FrameState::Recreating, FrameAction::Recreate),
        frame_step(FrameState::Presenting(index), FrameEvent::PresentOutOfDate, frame) == (
            FrameState::Recreating,
            FrameAction::Recreate,
        ),
{
}

/// An image that is not free yet costs the frame and nothing else: the state
/// is the one in which a frame can be begun.
pub proof fn lemma_not_ready_skips(frame: Frame)
    ensures
        frame_step(
            FrameState::Acquiring,
            FrameEvent::AcquireFailed(AcquireError::Timeout),
            frame,
        ) == (FrameState::Idle, FrameAction::Skip),
        frame_step(
            FrameState::Acquiring,
            FrameEvent::AcquireFailed(AcquireError::NotReady),
            frame,
        ) == (FrameState::Idle, FrameAction::Skip),
{
}

/// After a failure that is not recovered from, no work for a frame goes to
/// the driver any more.
pub proof fn lemma_failure_is_final(event: FrameEvent, frame: Frame)
    ensures
        !frame_step(FrameState::Failed, event, frame).1.touches_frame(),
        frame_step(FrameState::Failed, event, frame).0 is Failed || frame_step(
            FrameState::Failed,
            event,
            frame,
        ).0 is Draining,
{
}

/// The resources are released only after the device was waited for, and it
/// is waited for once: the wait is asked for on leaving for `Draining`, and
/// there is no way back from there but on to `Destroyed`, where nothing is
/// done any more.
pub proof fn lemma_drained_before_destroyed(state: FrameState, event: FrameEvent, frame: Frame)
    ensures
        frame_step(state, event, frame).1 is Destroy ==> state is Draining && event is Drained,
        frame_step(state, event, frame).1 is WaitIdle ==> !state.ending() && event is Shutdown
            && frame_step(state, event, frame).0 is Draining,
        state.ending() ==> !frame_step(state, event, frame).1.touches_frame() && frame_step(
            state,
            event,
            frame,
        ).0.ending(),
        state is Destroyed ==> frame_step(state, event, frame) == (
            FrameState::Destroyed,
            FrameAction::Abort(FrameError::Unexpected),
        ),
{
}

} // verus!
