use vstd::prelude::*;

verus! {

/// Least time between two redraw requests, in microseconds.
pub const REDRAW_INTERVAL_US: u64 = 20_000;

/// What the window loop saw, as far as its decisions go.
#[derive(Clone, Copy, Debug, PartialEq, Eq, Structural)]
pub enum FrameEvent {
    /// All pending events were handled; `since_redraw_us` microseconds have
    /// passed since the last redraw request.
    EventsCleared { since_redraw_us: u64 },
    /// The window's drawable area changed to `width` by `height` pixels.
    Resized { width: u32, height: u32 },
    /// The Escape key went down.
    EscapePressed,
    /// The window was asked to close.
    CloseRequested,
    /// Any other window event: pointer, wheel, keys.
    WindowInput,
    /// The window system asked for a frame.
    RedrawRequested,
    /// Anything else.
    Other,
}

/// What the window loop does next.
#[derive(Clone, Copy, Debug, PartialEq, Eq, Structural)]
pub enum FrameAction {
    /// Ask the window for a redraw and restart the redraw clock.
    RequestRedraw,
    /// Leave the loop.
    Exit,
    /// Rebuild the swap chain at this size and upload a fresh matrix.
    Resize { width: u32, height: u32 },
    /// Hand the event to the camera and upload a fresh matrix.
    ForwardInput,
    /// Draw and present a frame.
    Render,
    /// Nothing.
    Wait,
}

/// The loop's rule: redraw at most once per `REDRAW_INTERVAL_US`; leave on
/// Escape or close; resize only to a non-empty area (a minimised window has
/// none, and an empty area has no aspect ratio); pass other window input to
/// the camera.
pub open spec fn action_for(e: FrameEvent) -> FrameAction {
    match e {
        FrameEvent::EventsCleared { since_redraw_us } => {
            if since_redraw_us > REDRAW_INTERVAL_US {
                FrameAction::RequestRedraw
            } else {
                FrameAction::Wait
            }
        },
        FrameEvent::Resized { width, height } => {
            if width > 0 && height > 0 {
                FrameAction::Resize { width, height }
            } else {
                FrameAction::Wait
            }
        },
        FrameEvent::EscapePressed | FrameEvent::CloseRequested => FrameAction::Exit,
        FrameEvent::WindowInput => FrameAction::ForwardInput,
        FrameEvent::RedrawRequested => FrameAction::Render,
        FrameEvent::Other => FrameAction::Wait,
    }
}

/// Decides what the window loop does with one event.
pub fn frame_action(e: FrameEvent) -> (r: FrameAction)
    ensures
        r == action_for(e),
        r matches FrameAction::Resize { width, height } ==> width > 0 && height > 0,
{
    match e {
        FrameEvent::EventsCleared { since_redraw_us } => {
            if since_redraw_us > REDRAW_INTERVAL_US {
                FrameAction::RequestRedraw
            } else {
                FrameAction::Wait
            }
        },
        FrameEvent::Resized { width, height } => {
            if width > 0 && height > 0 {
                FrameAction::Resize { width, height }
            } else {
                FrameAction::Wait
            }
        },
        FrameEvent::EscapePressed => FrameAction::Exit,
        FrameEvent::CloseRequested => FrameAction::Exit,
        FrameEvent::WindowInput => FrameAction::ForwardInput,
        FrameEvent::RedrawRequested => FrameAction::Render,
        FrameEvent::Other => FrameAction::Wait,
    }
}

} // verus!
