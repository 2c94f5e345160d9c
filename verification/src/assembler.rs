//! The application assembler and the assembled shell model.
//!
//! [`assemble`] performs the single-shot startup decisions: which surfaces
//! (menu, tray) are wired up for a configuration and platform, which
//! commands are registered, and the initial lifecycle state. The resulting
//! [`App`] is the decision core of the running shell: the event loop feeds
//! it window, menu and tray events and command invocations, and carries out
//! the window operations it returns.

use vstd::prelude::*;

use crate::lifecycle::{
    apply_action, spec_apply_action, spec_close_action, CloseDirective, LifecycleController,
    LifecycleState, PlatformProfile, WindowAction, WindowEvent, WindowVisibility,
};
use crate::registry::{CommandKind, CommandRegistry, InvokeError};

verus! {

/// The two startup toggles read once from the configuration provider.
#[derive(Clone, Copy, Debug, PartialEq, Eq, Structural)]
pub struct AppConfig {
    pub show_menu: bool,
    pub show_system_tray: bool,
}

/// A menu item that a wired-up menu or tray menu can activate.
#[derive(Clone, Copy, Debug, PartialEq, Eq, Structural)]
pub enum MenuItem {
    ShowApp,
    HideApp,
    FocusApp,
    Quit,
}

/// An activation of the tray icon or of one of its menu items.
#[derive(Clone, Copy, Debug, PartialEq, Eq, Structural)]
pub enum TrayEvent {
    LeftClick,
    ItemClick(MenuItem),
}

/// Any event the shell's loop can dispatch to the assembled application.
#[derive(Clone, Copy, Debug, PartialEq, Eq, Structural)]
pub enum Event {
    Window(WindowEvent),
    Menu(MenuItem),
    Tray(TrayEvent),
}

/// The bridge's answer to one command invocation.
#[derive(Clone, Copy, Debug, PartialEq, Eq, Structural)]
pub enum Invocation {
    /// Completed natively: the current exit-permission value.
    ExitPermitted(bool),
    /// The work belongs to an external collaborator registered under the
    /// invoked name; the shell hands it off fire-and-forget.
    Delegate(CommandKind),
}

/// What the shell must do after one event was handled.
#[derive(Clone, Copy, Debug, PartialEq, Eq, Structural)]
pub struct EventResponse {
    pub action: WindowAction,
    pub veto_close: bool,
}

/// One step of the fixed startup sequence.
#[derive(Clone, Copy, Debug, PartialEq, Eq, Structural)]
pub enum StartupStep {
    LoadConfig,
    AttachMenu,
    AttachTray,
    ConstructWindow,
    RegisterCommands,
    AttachWindowEvents,
    ShowWindow,
}

/// The assembled shell: configuration, wired-up surfaces, the window model,
/// the lifecycle controller and the command registry.
pub struct App {
    pub config: AppConfig,
    pub platform: PlatformProfile,
    pub menu_attached: bool,
    pub tray_attached: bool,
    pub window: WindowVisibility,
    pub controller: LifecycleController,
    pub registry: CommandRegistry,
}

/// The window operation a wired-up surface performs for one menu item.
pub open spec fn spec_item_action(item: MenuItem) -> WindowAction {
    match item {
        MenuItem::ShowApp => WindowAction::ShowWindow,
        MenuItem::HideApp => WindowAction::HideWindow,
        MenuItem::FocusApp => WindowAction::FocusWindow,
        MenuItem::Quit => WindowAction::NoAction,
    }
}

/// How one activated menu item changes the assembled shell: show and hide
/// act on the window; the designated quit item authorizes termination.
pub open spec fn spec_item_step(app: App, item: MenuItem) -> App {
    match item {
        MenuItem::ShowApp => App { window: WindowVisibility::Visible, ..app },
        MenuItem::HideApp => App { window: WindowVisibility::Hidden, ..app },
        MenuItem::FocusApp => App { window: WindowVisibility::Visible, ..app },
        MenuItem::Quit => App {
            controller: LifecycleController {
                can_exit: true,
                state: LifecycleState::Terminating,
            },
            ..app
        },
    }
}

/// A menu event reaches the item handler only while a menu is attached;
/// otherwise no subscription exists and the event changes nothing.
pub open spec fn spec_menu_step(app: App, item: MenuItem) -> App {
    if app.menu_attached {
        spec_item_step(app, item)
    } else {
        app
    }
}

/// The window operation a wired-up tray performs for one tray event: a left
/// click brings the window back; a tray menu item acts like a menu item.
pub open spec fn spec_tray_action(e: TrayEvent) -> WindowAction {
    match e {
        TrayEvent::LeftClick => WindowAction::ShowWindow,
        TrayEvent::ItemClick(item) => spec_item_action(item),
    }
}

/// A tray event reaches its handler only while the tray is attached. A left
/// click brings the window back; a tray menu item acts like a menu item.
pub open spec fn spec_tray_step(app: App, e: TrayEvent) -> App {
    if app.tray_attached {
        match e {
            TrayEvent::LeftClick => App { window: WindowVisibility::Visible, ..app },
            TrayEvent::ItemClick(item) => spec_item_step(app, item),
        }
    } else {
        app
    }
}

/// How one window event changes the assembled shell. A close request is
/// intercepted: the close action for the platform is applied to the window
/// and exit permission is withdrawn; every other event changes nothing.
pub open spec fn spec_window_step(app: App, e: WindowEvent) -> App {
    match e {
        WindowEvent::CloseRequested => App {
            window: spec_apply_action(app.window, spec_close_action(app.platform)),
            controller: LifecycleController {
                can_exit: false,
                state: app.controller.state,
            },
            ..app
        },
        _ => app,
    }
}

/// One step of the assembled shell under any dispatched event.
pub open spec fn spec_step(app: App, e: Event) -> App {
    match e {
        Event::Window(w) => spec_window_step(app, w),
        Event::Menu(m) => spec_menu_step(app, m),
        Event::Tray(t) => spec_tray_step(app, t),
    }
}

/// What the shell is told to do after one dispatched event: the window
/// operation to perform, and — for an intercepted close request — that the
/// default close behavior is vetoed.
pub open spec fn spec_response(app: App, e: Event) -> EventResponse {
    match e {
        Event::Window(w) => if w is CloseRequested {
            EventResponse { action: spec_close_action(app.platform), veto_close: true }
        } else {
            EventResponse { action: WindowAction::NoAction, veto_close: false }
        },
        Event::Menu(m) => EventResponse {
            action: if app.menu_attached {
                spec_item_action(m)
            } else {
                WindowAction::NoAction
            },
            veto_close: false,
        },
        Event::Tray(t) => EventResponse {
            action: if app.tray_attached {
                spec_tray_action(t)
            } else {
                WindowAction::NoAction
            },
            veto_close: false,
        },
    }
}

/// The fixed startup order: configuration first, then the optional surfaces,
/// then window construction, command registration and the window-event
/// subscription, and showing the window strictly last — so no early close
/// request can be missed.
pub open spec fn spec_startup_steps(c: AppConfig, p: PlatformProfile) -> Seq<StartupStep> {
    seq![StartupStep::LoadConfig] + (if c.show_menu {
        seq![StartupStep::AttachMenu]
    } else {
        Seq::<StartupStep>::empty()
    }) + (if p is Other && c.show_system_tray {
        seq![StartupStep::AttachTray]
    } else {
        Seq::<StartupStep>::empty()
    }) + seq![
        StartupStep::ConstructWindow,
        StartupStep::RegisterCommands,
        StartupStep::AttachWindowEvents,
        StartupStep::ShowWindow,
    ]
}

/// Computes the startup sequence the shell must execute for one
/// configuration and platform.
pub fn startup_plan(config: AppConfig, platform: PlatformProfile) -> (plan: Vec<StartupStep>)
    ensures
        plan@ == spec_startup_steps(config, platform),
{
    let mut plan: Vec<StartupStep> = Vec::new();
    plan.push(StartupStep::LoadConfig);
    if config.show_menu {
        plan.push(StartupStep::AttachMenu);
    }
    if platform == PlatformProfile::Other && config.show_system_tray {
        plan.push(StartupStep::AttachTray);
    }
    plan.push(StartupStep::ConstructWindow);
    plan.push(StartupStep::RegisterCommands);
    plan.push(StartupStep::AttachWindowEvents);
    plan.push(StartupStep::ShowWindow);
    proof {
        assert(plan@ =~= spec_startup_steps(config, platform));
    }
    plan
}

impl App {
    /// Whether process termination is currently authorized.
    pub open spec fn exit_permitted(self) -> bool {
        self.controller.exit_permitted()
    }

    /// Well-formedness: the registry's names are distinct, each surface is
    /// attached exactly as configuration and platform demand (the tray
    /// subsystem does not exist on macOS), and the window is never in the
    /// destroyed state.
    pub open spec fn wf(self) -> bool {
        &&& self.registry.wf()
        &&& self.menu_attached == self.config.show_menu
        &&& self.tray_attached == (self.platform is Other && self.config.show_system_tray)
        &&& !(self.window is Destroyed)
    }

    /// The `can_app_exit` command: a pure read of the exit flag.
    pub fn can_app_exit(&self) -> (r: bool)
        ensures
            r == self.exit_permitted(),
    {
        self.controller.can_app_exit()
    }

    fn apply_item(&mut self, item: MenuItem) -> (a: WindowAction)
        requires
            old(self).wf(),
        ensures
            final(self).wf(),
            *final(self) == spec_item_step(*old(self), item),
            a == spec_item_action(item),
    {
        match item {
            MenuItem::ShowApp => {
                self.window = apply_action(self.window, WindowAction::ShowWindow);
                WindowAction::ShowWindow
            },
            MenuItem::HideApp => {
                self.window = apply_action(self.window, WindowAction::HideWindow);
                WindowAction::HideWindow
            },
            MenuItem::FocusApp => {
                self.window = apply_action(self.window, WindowAction::FocusWindow);
                WindowAction::FocusWindow
            },
            MenuItem::Quit => {
                self.controller.authorize_exit();
                WindowAction::NoAction
            },
        }
    }

    /// Handles a window event. A close request is vetoed and answered with
    /// the platform's close action — hide, or minimize on macOS — and exit
    /// permission reads `false` afterwards; any other event is passed
    /// through untouched.
    pub fn handle_window_event(&mut self, e: WindowEvent) -> (d: CloseDirective)
        requires
            old(self).wf(),
        ensures
            final(self).wf(),
            *final(self) == spec_window_step(*old(self), e),
            e is CloseRequested ==> d.veto_default && d.action == spec_close_action(
                old(self).platform,
            ) && !final(self).exit_permitted() && final(self).window == spec_apply_action(
                old(self).window,
                spec_close_action(old(self).platform),
            ),
            !(e is CloseRequested) ==> *final(self) == *old(self) && !d.veto_default
                && d.action == WindowAction::NoAction,
    {
        match e {
            WindowEvent::CloseRequested => {
                let d = self.controller.handle_close_requested(self.platform);
                self.window = apply_action(self.window, d.action);
                d
            },
            _ => CloseDirective { veto_default: false, action: WindowAction::NoAction },
        }
    }

    /// Handles a menu event. Without an attached menu no subscription
    /// exists: the event is a no-op. With one, the item acts on the window,
    /// or — for the designated quit item — authorizes termination.
    pub fn handle_menu_event(&mut self, item: MenuItem) -> (a: WindowAction)
        requires
            old(self).wf(),
        ensures
            final(self).wf(),
            *final(self) == spec_menu_step(*old(self), item),
            !old(self).menu_attached ==> *final(self) == *old(self) && a
                == WindowAction::NoAction,
            old(self).menu_attached ==> a == spec_item_action(item),
            old(self).menu_attached && item is Quit ==> final(self).exit_permitted()
                && final(self).controller.state == LifecycleState::Terminating,
    {
        if !self.menu_attached {
            return WindowAction::NoAction;
        }
        self.apply_item(item)
    }

    /// Handles a tray event. Without an attached tray — always the case on
    /// macOS, and whenever the tray is configured off — the event is a
    /// no-op.
    pub fn handle_tray_event(&mut self, e: TrayEvent) -> (a: WindowAction)
        requires
            old(self).wf(),
        ensures
            final(self).wf(),
            *final(self) == spec_tray_step(*old(self), e),
            !old(self).tray_attached ==> *final(self) == *old(self) && a
                == WindowAction::NoAction,
            old(self).tray_attached ==> a == spec_tray_action(e),
    {
        if !self.tray_attached {
            return WindowAction::NoAction;
        }
        match e {
            TrayEvent::LeftClick => {
                self.window = apply_action(self.window, WindowAction::ShowWindow);
                WindowAction::ShowWindow
            },
            TrayEvent::ItemClick(item) => self.apply_item(item),
        }
    }

    /// Dispatches any event to its handler and reports the window operation
    /// the shell must perform, and whether a default close was vetoed.
    pub fn handle_event(&mut self, e: Event) -> (resp: EventResponse)
        requires
            old(self).wf(),
        ensures
            final(self).wf(),
            *final(self) == spec_step(*old(self), e),
            resp == spec_response(*old(self), e),
    {
        match e {
            Event::Window(w) => {
                let d = self.handle_window_event(w);
                EventResponse { action: d.action, veto_close: d.veto_default }
            },
            Event::Menu(m) => {
                let a = self.handle_menu_event(m);
                EventResponse { action: a, veto_close: false }
            },
            Event::Tray(t) => {
                let a = self.handle_tray_event(t);
                EventResponse { action: a, veto_close: false }
            },
        }
    }

    /// Answers one invocation from web content: an unknown name yields the
    /// unknown-command error; `can_app_exit` is answered natively with the
    /// exit-permission value; a download command is delegated to its
    /// external collaborator.
    pub fn invoke(&self, name: &String) -> (r: Result<Invocation, InvokeError>)
        requires
            self.wf(),
        ensures
            (r is Ok) == self.registry.knows(name@),
            r matches Err(e) ==> e is UnknownCommand,
            (self.registry.knows(name@) && self.registry.table()[name@]
                == CommandKind::CanAppExit) ==> r == Ok::<Invocation, InvokeError>(
                Invocation::ExitPermitted(self.exit_permitted()),
            ),
            (self.registry.knows(name@) && self.registry.table()[name@]
                != CommandKind::CanAppExit) ==> r == Ok::<Invocation, InvokeError>(
                Invocation::Delegate(self.registry.table()[name@]),
            ),
    {
        match self.registry.lookup(name) {
            None => Err(InvokeError::UnknownCommand),
            Some(CommandKind::CanAppExit) => Ok(
                Invocation::ExitPermitted(self.controller.can_app_exit()),
            ),
            Some(k) => Ok(Invocation::Delegate(k)),
        }
    }
}

/// Assembles the shell once at startup: computes the surface wiring from
/// configuration and platform, registers the three commands under their
/// stable names, and starts with the window visible, exit permission
/// withheld, and the process running.
pub fn assemble(config: AppConfig, platform: PlatformProfile) -> (app: App)
    ensures
        app.wf(),
        app.config == config,
        app.platform == platform,
        app.menu_attached == config.show_menu,
        app.tray_attached == (platform is Other && config.show_system_tray),
        app.window == WindowVisibility::Visible,
        !app.exit_permitted(),
        app.controller.state == LifecycleState::Running,
        app.registry.entries@.len() == 3,
        app.registry.knows("can_app_exit"@) && app.registry.table()["can_app_exit"@]
            == CommandKind::CanAppExit,
        app.registry.knows("download_file"@) && app.registry.table()["download_file"@]
            == CommandKind::DownloadFile,
        app.registry.knows("download_file_by_binary"@) && app.registry.table()[
            "download_file_by_binary"@
        ] == CommandKind::DownloadFileByBinary,
        forall|n: Seq<char>|
            #[trigger] app.registry.knows(n) <==> (n == "can_app_exit"@ || n == "download_file"@
                || n == "download_file_by_binary"@),
{
    // The revealed literals have pairwise-distinct lengths, so each
    // registration below finds its name unused and must succeed.
    proof {
        reveal_strlit("can_app_exit");
        reveal_strlit("download_file");
        reveal_strlit("download_file_by_binary");
    }
    let mut registry = CommandRegistry::new();
    let r1 = registry.register("can_app_exit".to_owned(), CommandKind::CanAppExit);
    proof {
        assert(!Map::<Seq<char>, CommandKind>::empty().dom().contains("can_app_exit"@));
        assert(r1 is Ok);
        assert("download_file"@.len() != "can_app_exit"@.len());
        assert(!registry.knows("download_file"@));
    }
    let r2 = registry.register("download_file".to_owned(), CommandKind::DownloadFile);
    proof {
        assert(r2 is Ok);
        assert(!registry.knows("download_file_by_binary"@));
    }
    let r3 = registry.register(
        "download_file_by_binary".to_owned(),
        CommandKind::DownloadFileByBinary,
    );
    proof {
        assert(r3 is Ok);
    }
    let menu_attached = config.show_menu;
    let tray_attached = platform == PlatformProfile::Other && config.show_system_tray;
    App {
        config,
        platform,
        menu_attached,
        tray_attached,
        window: WindowVisibility::Visible,
        controller: LifecycleController::new(),
        registry,
    }
}

} // verus!
