//! The render loop's decisions: what each window event asks of the loop,
//! and what follows from acquiring and presenting a swapchain image.

use crate::swapchain::Extent2D;
use vstd::prelude::*;

verus! {

/// The keys that the loop reacts to.
#[derive(Clone, Copy, Debug, PartialEq, Eq, Structural)]
pub enum Key {
    Escape,
    Other,
}

/// Whether a key went down or up.
#[derive(Clone, Copy, Debug, PartialEq, Eq, Structural)]
pub enum KeyState {
    Pressed,
    Released,
}

/// A window event, as far as the loop cares.
#[derive(Clone, Copy, Debug, PartialEq, Eq, Structural)]
pub enum WindowEvent {
    CloseRequested,
    Keyboard { state: KeyState, key: Key },
    Resized(Extent2D),
    /// All pending events have been handled: time for a frame.
    EventsCleared,
    Other,
}

/// What the loop does in answer to an event.
#[derive(Clone, Copy, Debug, PartialEq, Eq, Structural)]
pub enum LoopAction {
    Exit,
    /// Rebuild the swapchain for the window's new size.
    RecreateSwapchain(Extent2D),
    /// Acquire an image, record and submit the draw, present.
    DrawFrame,
    Continue,
}

/// Close on request or on an Escape press; rebuild the swapchain when the
/// window is resized to a size with area (a window without area keeps its
/// current swapchain); draw one frame each time the pending events are
/// drained; otherwise carry on.
pub open spec fn action_for(e: WindowEvent) -> LoopAction {
    match e {
        WindowEvent::CloseRequested => LoopAction::Exit,
        WindowEvent::Keyboard { state, key } => if state == KeyState::Pressed && key == Key::Escape {
            LoopAction::Exit
        } else {
            LoopAction::Continue
        },
        WindowEvent::Resized(extent) => if extent.width == 0 || extent.height == 0 {
            LoopAction::Continue
        } else {
            LoopAction::RecreateSwapchain(extent)
        },
        WindowEvent::EventsCleared => LoopAction::DrawFrame,
        WindowEvent::Other => LoopAction::Continue,
    }
}

/// Decides what one event asks of the loop.
pub fn handle_event(e: WindowEvent) -> (r: LoopAction)
    ensures
        r == action_for(e),
{
    match e {
        WindowEvent::CloseRequested => LoopAction::Exit,
        WindowEvent::Keyboard { state, key } => {
            if state == KeyState::Pressed && key == Key::Escape {
                LoopAction::Exit
            } else {
                LoopAction::Continue
            }
        },
        WindowEvent::Resized(extent) => {
            if extent.width == 0 || extent.height == 0 {
                LoopAction::Continue
            } else {
                LoopAction::RecreateSwapchain(extent)
            }
        },
        WindowEvent::EventsCleared => LoopAction::DrawFrame,
        WindowEvent::Other => LoopAction::Continue,
    }
}

/// What acquiring a swapchain image gave.
#[derive(Clone, Copy, Debug, PartialEq, Eq, Structural)]
pub enum AcquireOutcome {
    Acquired(u32),
    /// The swapchain no longer matches the surface.
    OutOfDate,
    Failed,
}

/// What presenting an image gave.
#[derive(Clone, Copy, Debug, PartialEq, Eq, Structural)]
pub enum PresentOutcome {
    Presented,
    /// The swapchain no longer matches the surface.
    OutOfDate,
    Failed,
}

/// The next step of a frame.
#[derive(Clone, Copy, Debug, PartialEq, Eq, Structural)]
pub enum FrameAction {
    /// Record and submit the draw into the framebuffer of this image.
    Draw(usize),
    /// The frame is finished.
    Done,
    /// Rebuild the swapchain for the window's current size, as a resize to
    /// that size would; the frame is dropped.
    RecreateSwapchain,
    /// A device call failed: the process ends.
    Abort,
}

/// Draw into the acquired image when it has a framebuffer; rebuild an
/// out-of-date swapchain; abort on failure or an image without framebuffer.
pub open spec fn after_acquire_spec(o: AcquireOutcome, image_count: usize) -> FrameAction {
    match o {
        AcquireOutcome::Acquired(i) => if (i as int) < image_count {
            FrameAction::Draw(i as usize)
        } else {
            FrameAction::Abort
        },
        AcquireOutcome::OutOfDate => FrameAction::RecreateSwapchain,
        AcquireOutcome::Failed => FrameAction::Abort,
    }
}

/// Decides the frame's next step after the image acquisition.
pub fn after_acquire(o: AcquireOutcome, image_count: usize) -> (r: FrameAction)
    ensures
        r == after_acquire_spec(o, image_count),
{
    match o {
        AcquireOutcome::Acquired(i) => {
            if (i as u64) < (image_count as u64) {
                FrameAction::Draw(i as usize)
            } else {
                FrameAction::Abort
            }
        },
        AcquireOutcome::OutOfDate => FrameAction::RecreateSwapchain,
        AcquireOutcome::Failed => FrameAction::Abort,
    }
}

/// Finished once presented; rebuild an out-of-date swapchain; abort on
/// failure.
pub open spec fn after_present_spec(o: PresentOutcome) -> FrameAction {
    match o {
        PresentOutcome::Presented => FrameAction::Done,
        PresentOutcome::OutOfDate => FrameAction::RecreateSwapchain,
        PresentOutcome::Failed => FrameAction::Abort,
    }
}

/// Decides the frame's next step after presenting.
pub fn after_present(o: PresentOutcome) -> (r: FrameAction)
    ensures
        r == after_present_spec(o),
{
    match o {
        PresentOutcome::Presented => FrameAction::Done,
        PresentOutcome::OutOfDate => FrameAction::RecreateSwapchain,
        PresentOutcome::Failed => FrameAction::Abort,
    }
}

} // verus!
