use vstd::prelude::*;

verus! {

/// A pointer button, as the window system reports it. Only the left (primary)
/// button drives a state transition.
#[derive(Clone, Copy, Debug, PartialEq, Eq, Structural)]
pub enum MouseButton {
    Left,
    Right,
    Middle,
    Other,
}

/// The physical keys the state machine cares about; every other key is
/// delivered as `Other` and ignored.
#[derive(Clone, Copy, Debug, PartialEq, Eq, Structural)]
pub enum KeyCode {
    Space,
    KeyZ,
    Escape,
    Other,
}

/// A window or input event, reduced to the plain values the state machine
/// reads. The host converts the window system's events into this form.
///
/// For keyboard events, `repeat` is the source's advisory flag for a held
/// key; the state machine does not rely on it alone and also tracks held
/// keys itself.
#[derive(Clone, Copy, Debug, PartialEq, Eq, Structural)]
pub enum WindowEvent {
    MouseInput { button: MouseButton, pressed: bool },
    KeyboardInput { key: KeyCode, pressed: bool, repeat: bool },
    Resized { width: u32, height: u32 },
    CloseRequested,
    RedrawRequested,
    Other,
}

/// What the event loop must do after the state machine has handled one event.
#[derive(Clone, Copy, Debug, PartialEq, Eq, Structural)]
pub enum LoopAction {
    /// Stop the event loop and tear the window down.
    Exit,
    /// Reconfigure the presentable surface at the freshly stored size.
    Reconfigure,
    /// Redraw: run the per-frame update and present one frame.
    Redraw,
    /// Nothing to do.
    Ignore,
}

/// How a frame-acquisition attempt failed, as the presenter reports it.
#[derive(Clone, Copy, Debug, PartialEq, Eq, Structural)]
pub enum SurfaceErrorKind {
    /// The surface was lost and must be rebuilt.
    Lost,
    /// The surface no longer matches the window and must be reconfigured.
    Outdated,
    /// Allocation failed; there is no recovery.
    OutOfMemory,
    /// Acquisition timed out; the frame is skipped.
    Timeout,
}

/// What the event loop must do when a frame could not be acquired.
#[derive(Clone, Copy, Debug, PartialEq, Eq, Structural)]
pub enum ErrorAction {
    /// Reconfigure the surface at the current size and retry next frame.
    Reconfigure,
    /// The condition is unrecoverable: terminate.
    Exit,
    /// Skip this frame and carry on.
    SkipFrame,
}

/// The recovery policy for a failed frame acquisition: a stale or lost
/// surface is reconfigured, resource exhaustion is fatal, a timeout only
/// skips the frame.
pub open spec fn spec_surface_error_action(e: SurfaceErrorKind) -> ErrorAction {
    match e {
        SurfaceErrorKind::Lost => ErrorAction::Reconfigure,
        SurfaceErrorKind::Outdated => ErrorAction::Reconfigure,
        SurfaceErrorKind::OutOfMemory => ErrorAction::Exit,
        SurfaceErrorKind::Timeout => ErrorAction::SkipFrame,
    }
}

/// Decides how the event loop recovers from a failed frame acquisition.
pub fn surface_error_action(e: SurfaceErrorKind) -> (a: ErrorAction)
    ensures
        a == spec_surface_error_action(e),
{
    match e {
        SurfaceErrorKind::Lost => ErrorAction::Reconfigure,
        SurfaceErrorKind::Outdated => ErrorAction::Reconfigure,
        SurfaceErrorKind::OutOfMemory => ErrorAction::Exit,
        SurfaceErrorKind::Timeout => ErrorAction::SkipFrame,
    }
}

} // verus!
