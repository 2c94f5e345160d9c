//! The lifecycle controller: exit authorization and close-request handling.
//!
//! Closing the window must never silently terminate the process. A close
//! request is intercepted, the platform's default close behavior is vetoed,
//! and the window is hidden (minimized on macOS) instead. Termination is a
//! distinct, explicitly authorized action: only a designated quit item may
//! grant it.

use vstd::prelude::*;

verus! {

/// The build-time platform selection. It decides the close-request behavior
/// (minimize on macOS, hide elsewhere) and whether a tray subsystem exists
/// at all (it is absent on macOS builds).
#[derive(Clone, Copy, Debug, PartialEq, Eq, Structural)]
pub enum PlatformProfile {
    MacOs,
    Other,
}

/// The window as the controller sees it. `Destroyed` is what the platform's
/// default close behavior would produce; the controller exists to keep the
/// window out of that state.
#[derive(Clone, Copy, Debug, PartialEq, Eq, Structural)]
pub enum WindowVisibility {
    Visible,
    Hidden,
    Minimized,
    Destroyed,
}

/// A native window operation that a handler asks the shell to perform.
#[derive(Clone, Copy, Debug, PartialEq, Eq, Structural)]
pub enum WindowAction {
    ShowWindow,
    HideWindow,
    MinimizeWindow,
    FocusWindow,
    NoAction,
}

/// A notification from the window system. Only `CloseRequested` carries
/// meaning for the controller; the remaining cases pass through untouched.
#[derive(Clone, Copy, Debug, PartialEq, Eq, Structural)]
pub enum WindowEvent {
    CloseRequested,
    Focused,
    Moved,
}

/// Whether the process is still running or an authorized exit is in
/// progress. `Terminating` is terminal and reachable only through
/// [`LifecycleController::authorize_exit`].
#[derive(Clone, Copy, Debug, PartialEq, Eq, Structural)]
pub enum LifecycleState {
    Running,
    Terminating,
}

/// How one window operation changes the window's visibility.
pub open spec fn spec_apply_action(v: WindowVisibility, a: WindowAction) -> WindowVisibility {
    match a {
        WindowAction::ShowWindow => WindowVisibility::Visible,
        WindowAction::HideWindow => WindowVisibility::Hidden,
        WindowAction::MinimizeWindow => WindowVisibility::Minimized,
        WindowAction::FocusWindow => WindowVisibility::Visible,
        WindowAction::NoAction => v,
    }
}

/// Performs a window operation on the visibility model. Focusing brings the
/// window to the front, so it leaves it visible.
pub fn apply_action(v: WindowVisibility, a: WindowAction) -> (r: WindowVisibility)
    ensures
        r == spec_apply_action(v, a),
{
    match a {
        WindowAction::ShowWindow => WindowVisibility::Visible,
        WindowAction::HideWindow => WindowVisibility::Hidden,
        WindowAction::MinimizeWindow => WindowVisibility::Minimized,
        WindowAction::FocusWindow => WindowVisibility::Visible,
        WindowAction::NoAction => v,
    }
}

/// The window operation that answers a close request on the given platform:
/// minimize on macOS, hide everywhere else.
pub open spec fn spec_close_action(p: PlatformProfile) -> WindowAction {
    match p {
        PlatformProfile::MacOs => WindowAction::MinimizeWindow,
        PlatformProfile::Other => WindowAction::HideWindow,
    }
}

/// Exec mirror of [`spec_close_action`].
pub fn close_action(p: PlatformProfile) -> (a: WindowAction)
    ensures
        a == spec_close_action(p),
{
    match p {
        PlatformProfile::MacOs => WindowAction::MinimizeWindow,
        PlatformProfile::Other => WindowAction::HideWindow,
    }
}

/// What the shell must do after a close request was handled: perform the
/// chosen window operation, and — since `veto_default` is always set —
/// suppress the platform's default destroy behavior.
#[derive(Clone, Copy, Debug, PartialEq, Eq, Structural)]
pub struct CloseDirective {
    pub veto_default: bool,
    pub action: WindowAction,
}

/// Owns the shared exit-permission flag and the running/terminating state.
///
/// The flag starts `false`, is reset to `false` on every intercepted close
/// request, and is read by the `can_app_exit` command. The sole path that
/// sets it is [`LifecycleController::authorize_exit`], reserved for a
/// designated quit item.
pub struct LifecycleController {
    pub can_exit: bool,
    pub state: LifecycleState,
}

impl LifecycleController {
    /// Whether process termination is currently authorized.
    pub open spec fn exit_permitted(self) -> bool {
        self.can_exit
    }

    /// Startup state: exit not authorized, process running.
    pub fn new() -> (c: Self)
        ensures
            !c.exit_permitted(),
            c.state == LifecycleState::Running,
    {
        LifecycleController { can_exit: false, state: LifecycleState::Running }
    }

    /// The `can_app_exit` command: a pure read of the exit-permission flag.
    /// No side effects, never blocks.
    pub fn can_app_exit(&self) -> (r: bool)
        ensures
            r == self.exit_permitted(),
    {
        self.can_exit
    }

    /// Intercepts a close request: withdraws any exit permission, stays in
    /// the current lifecycle state, and directs the shell to veto the
    /// default close and minimize (macOS) or hide (elsewhere) the window.
    pub fn handle_close_requested(&mut self, profile: PlatformProfile) -> (d: CloseDirective)
        ensures
            !final(self).exit_permitted(),
            final(self).state == old(self).state,
            d.veto_default,
            d.action == spec_close_action(profile),
    {
        self.can_exit = false;
        CloseDirective { veto_default: true, action: close_action(profile) }
    }

    /// The sole legitimate path toward termination: grants exit permission
    /// and moves to `Terminating`. Reserved for a designated quit item.
    pub fn authorize_exit(&mut self)
        ensures
            final(self).exit_permitted(),
            final(self).state == LifecycleState::Terminating,
    {
        self.can_exit = true;
        self.state = LifecycleState::Terminating;
    }
}

} // verus!
