//! Laws of the assembled shell, proved over the step functions that the
//! handlers' contracts are stated with.

use vstd::prelude::*;

use crate::assembler::{
    spec_menu_step, spec_startup_steps, spec_step, spec_tray_step, spec_window_step, App,
    AppConfig, Event, MenuItem, StartupStep, TrayEvent,
};
use crate::lifecycle::{PlatformProfile, WindowEvent};

verus! {

/// The assembled shell after a whole sequence of dispatched events.
pub open spec fn spec_run(app: App, es: Seq<Event>) -> App
    decreases es.len(),
{
    if es.len() == 0 {
        app
    } else {
        spec_run(spec_step(app, es[0]), es.drop_first())
    }
}

/// Whether an event is an activation of the designated quit item, on the
/// menu or on the tray.
pub open spec fn is_quit_request(e: Event) -> bool {
    match e {
        Event::Menu(item) => item is Quit,
        Event::Tray(t) => t matches TrayEvent::ItemClick(item) && item is Quit,
        Event::Window(_) => false,
    }
}

/// The designated quit item is the sole path to exit permission: as long as
/// no dispatched event activates it, `can_app_exit` keeps reading `false`.
pub proof fn lemma_quit_is_sole_exit_path(app: App, es: Seq<Event>)
    requires
        !app.exit_permitted(),
        forall|i: int| 0 <= i < es.len() ==> !is_quit_request(#[trigger] es[i]),
    ensures
        !spec_run(app, es).exit_permitted(),
    decreases es.len(),
{
    if es.len() > 0 {
        let next = spec_step(app, es[0]);
        assert(!is_quit_request(es[0]));
        assert(!next.exit_permitted());
        assert(forall|i: int|
            0 <= i < es.drop_first().len() ==> !is_quit_request(#[trigger] es.drop_first()[i]));
        lemma_quit_is_sole_exit_path(next, es.drop_first());
    }
}

/// Close requests never authorize exit: after any sequence of window events
/// — however many close requests among them — `can_app_exit` still reads
/// `false`.
pub proof fn lemma_close_requests_never_authorize_exit(app: App, es: Seq<Event>)
    requires
        !app.exit_permitted(),
        forall|i: int| 0 <= i < es.len() ==> (#[trigger] es[i]) is Window,
    ensures
        !spec_run(app, es).exit_permitted(),
{
    assert forall|i: int| 0 <= i < es.len() implies !is_quit_request(#[trigger] es[i]) by {
        assert(es[i] is Window);
    }
    lemma_quit_is_sole_exit_path(app, es);
}

/// On a non-macOS build, handling a close request leaves the window hidden
/// — not destroyed — and exit permission withdrawn.
pub proof fn lemma_close_request_hides_on_other(app: App)
    requires
        app.platform is Other,
    ensures
        spec_window_step(app, WindowEvent::CloseRequested).window is Hidden,
        !spec_window_step(app, WindowEvent::CloseRequested).exit_permitted(),
{
}

/// On a macOS build, handling a close request leaves the window minimized
/// and exit permission withdrawn.
pub proof fn lemma_close_request_minimizes_on_mac_os(app: App)
    requires
        app.platform is MacOs,
    ensures
        spec_window_step(app, WindowEvent::CloseRequested).window is Minimized,
        !spec_window_step(app, WindowEvent::CloseRequested).exit_permitted(),
{
}

/// With no menu attached there is no menu subscription: a synthetic menu
/// event, the quit item included, changes nothing.
pub proof fn lemma_detached_menu_is_inert(app: App, item: MenuItem)
    requires
        !app.menu_attached,
    ensures
        spec_menu_step(app, item) == app,
{
}

/// With no tray attached — on macOS always — there is no tray
/// subscription: a synthetic tray event changes nothing.
pub proof fn lemma_detached_tray_is_inert(app: App, e: TrayEvent)
    requires
        !app.tray_attached,
    ensures
        spec_tray_step(app, e) == app,
{
}

/// No dispatched event ever destroys the window: the close-request
/// interception keeps the shell out of the destroyed state forever.
pub proof fn lemma_window_never_destroyed(app: App, es: Seq<Event>)
    requires
        !(app.window is Destroyed),
    ensures
        !(spec_run(app, es).window is Destroyed),
    decreases es.len(),
{
    if es.len() > 0 {
        lemma_window_never_destroyed(spec_step(app, es[0]), es.drop_first());
    }
}

/// One dispatched event keeps the shell well formed: the surface wiring,
/// the registry and the platform never change after assembly, and the
/// window stays out of the destroyed state.
pub proof fn lemma_step_preserves_wf(app: App, e: Event)
    requires
        app.wf(),
    ensures
        spec_step(app, e).wf(),
        spec_step(app, e).config == app.config,
        spec_step(app, e).platform == app.platform,
        spec_step(app, e).menu_attached == app.menu_attached,
        spec_step(app, e).tray_attached == app.tray_attached,
        spec_step(app, e).registry == app.registry,
{
}

/// A whole run of dispatched events keeps the shell well formed.
pub proof fn lemma_run_preserves_wf(app: App, es: Seq<Event>)
    requires
        app.wf(),
    ensures
        spec_run(app, es).wf(),
        spec_run(app, es).registry == app.registry,
    decreases es.len(),
{
    if es.len() > 0 {
        lemma_step_preserves_wf(app, es[0]);
        lemma_run_preserves_wf(spec_step(app, es[0]), es.drop_first());
    }
}

/// The window is shown strictly last during startup: every subscription is
/// attached before the first close request can possibly arrive.
pub proof fn lemma_window_shown_last(c: AppConfig, p: PlatformProfile)
    ensures
        spec_startup_steps(c, p).last() == StartupStep::ShowWindow,
        forall|i: int|
            0 <= i < spec_startup_steps(c, p).len() - 1 ==> (#[trigger] spec_startup_steps(c, p)[i])
                != StartupStep::ShowWindow,
{
}

/// The optional surfaces appear in the startup sequence exactly when
/// configuration and platform call for them; in particular the tray is
/// never constructed on macOS or when configured off.
pub proof fn lemma_surfaces_match_configuration(c: AppConfig, p: PlatformProfile)
    ensures
        spec_startup_steps(c, p).contains(StartupStep::AttachMenu) <==> c.show_menu,
        spec_startup_steps(c, p).contains(StartupStep::AttachTray) <==> (p is Other
            && c.show_system_tray),
{
    let steps = spec_startup_steps(c, p);
    if c.show_menu {
        assert(steps[1] == StartupStep::AttachMenu);
    }
    if p is Other && c.show_system_tray {
        if c.show_menu {
            assert(steps[2] == StartupStep::AttachTray);
        } else {
            assert(steps[1] == StartupStep::AttachTray);
        }
    }
}

} // verus!
