use pake_shell::assembler::{
    assemble, startup_plan, AppConfig, Event, Invocation, MenuItem, StartupStep, TrayEvent,
};
use pake_shell::lifecycle::{
    apply_action, close_action, LifecycleState, PlatformProfile, WindowAction, WindowEvent,
    WindowVisibility,
};
use pake_shell::registry::{
    relay_collaborator_result, CommandKind, CommandRegistry, InvokeError, RegistrationError,
};

fn full_config() -> AppConfig {
    AppConfig { show_menu: true, show_system_tray: true }
}

#[test]
fn can_app_exit_false_after_startup() {
    let app = assemble(full_config(), PlatformProfile::Other);
    assert!(!app.can_app_exit());
    assert_eq!(app.controller.state, LifecycleState::Running);
    assert_eq!(app.window, WindowVisibility::Visible);
}

#[test]
fn close_request_hides_window_on_other() {
    let mut app = assemble(full_config(), PlatformProfile::Other);
    let d = app.handle_window_event(WindowEvent::CloseRequested);
    assert!(d.veto_default);
    assert_eq!(d.action, WindowAction::HideWindow);
    assert_eq!(app.window, WindowVisibility::Hidden);
    assert!(!app.can_app_exit());
}

#[test]
fn close_request_minimizes_window_on_macos() {
    let mut app = assemble(full_config(), PlatformProfile::MacOs);
    let d = app.handle_window_event(WindowEvent::CloseRequested);
    assert!(d.veto_default);
    assert_eq!(d.action, WindowAction::MinimizeWindow);
    assert_eq!(app.window, WindowVisibility::Minimized);
    assert!(!app.can_app_exit());
}

#[test]
fn can_app_exit_false_after_repeated_close_requests() {
    let mut app = assemble(full_config(), PlatformProfile::Other);
    for _ in 0..5 {
        let d = app.handle_window_event(WindowEvent::CloseRequested);
        assert!(d.veto_default);
        assert!(!app.can_app_exit());
    }
    assert_eq!(app.window, WindowVisibility::Hidden);
    assert_eq!(app.controller.state, LifecycleState::Running);
}

#[test]
fn other_window_events_pass_through() {
    let mut app = assemble(full_config(), PlatformProfile::Other);
    let d = app.handle_window_event(WindowEvent::Focused);
    assert!(!d.veto_default);
    assert_eq!(d.action, WindowAction::NoAction);
    assert_eq!(app.window, WindowVisibility::Visible);
}

#[test]
fn unknown_command_rejected() {
    let app = assemble(full_config(), PlatformProfile::Other);
    let r = app.invoke(&String::from("no_such_command"));
    assert!(matches!(r, Err(InvokeError::UnknownCommand)));
    let r2 = app.invoke(&String::from(""));
    assert!(matches!(r2, Err(InvokeError::UnknownCommand)));
}

#[test]
fn unknown_command_message() {
    let err = InvokeError::UnknownCommand;
    assert_eq!(err.message(), String::from("unknown command"));
}

#[test]
fn can_app_exit_command_answers_natively() {
    let app = assemble(full_config(), PlatformProfile::Other);
    let r = app.invoke(&String::from("can_app_exit"));
    assert_eq!(r.unwrap(), Invocation::ExitPermitted(false));
}

#[test]
fn download_commands_delegate() {
    let app = assemble(full_config(), PlatformProfile::Other);
    let r = app.invoke(&String::from("download_file"));
    assert_eq!(r.unwrap(), Invocation::Delegate(CommandKind::DownloadFile));
    let r2 = app.invoke(&String::from("download_file_by_binary"));
    assert_eq!(r2.unwrap(), Invocation::Delegate(CommandKind::DownloadFileByBinary));
}

#[test]
fn collaborator_errors_propagate_opaquely() {
    let ok = relay_collaborator_result(Ok(()));
    assert!(ok.is_ok());
    let err = relay_collaborator_result(Err(String::from("connection reset")));
    match err {
        Err(InvokeError::CommandFailed(m)) => assert_eq!(m, String::from("connection reset")),
        _ => panic!("expected an opaque command failure"),
    }
}

#[test]
fn duplicate_registration_rejected() {
    let mut registry = CommandRegistry::new();
    assert!(registry.register(String::from("ping"), CommandKind::CanAppExit).is_ok());
    let dup = registry.register(String::from("ping"), CommandKind::DownloadFile);
    assert_eq!(dup, Err(RegistrationError::DuplicateName));
    assert_eq!(registry.lookup(&String::from("ping")), Some(CommandKind::CanAppExit));
}

#[test]
fn registry_lookup_finds_registered_commands() {
    let app = assemble(full_config(), PlatformProfile::Other);
    assert_eq!(
        app.registry.lookup(&String::from("can_app_exit")),
        Some(CommandKind::CanAppExit)
    );
    assert_eq!(
        app.registry.lookup(&String::from("download_file")),
        Some(CommandKind::DownloadFile)
    );
    assert_eq!(
        app.registry.lookup(&String::from("download_file_by_binary")),
        Some(CommandKind::DownloadFileByBinary)
    );
    assert_eq!(app.registry.lookup(&String::from("downloads")), None);
}

#[test]
fn menu_event_noop_when_menu_hidden() {
    let config = AppConfig { show_menu: false, show_system_tray: true };
    let mut app = assemble(config, PlatformProfile::Other);
    assert!(!app.menu_attached);
    let a = app.handle_menu_event(MenuItem::Quit);
    assert_eq!(a, WindowAction::NoAction);
    assert!(!app.can_app_exit());
    assert_eq!(app.window, WindowVisibility::Visible);
    assert_eq!(app.controller.state, LifecycleState::Running);
}

#[test]
fn menu_items_drive_window_when_menu_shown() {
    let mut app = assemble(full_config(), PlatformProfile::Other);
    let a = app.handle_menu_event(MenuItem::HideApp);
    assert_eq!(a, WindowAction::HideWindow);
    assert_eq!(app.window, WindowVisibility::Hidden);
    let b = app.handle_menu_event(MenuItem::ShowApp);
    assert_eq!(b, WindowAction::ShowWindow);
    assert_eq!(app.window, WindowVisibility::Visible);
}

#[test]
fn focus_menu_item_restores_window() {
    let mut app = assemble(full_config(), PlatformProfile::Other);
    app.handle_window_event(WindowEvent::CloseRequested);
    assert_eq!(app.window, WindowVisibility::Hidden);
    let a = app.handle_menu_event(MenuItem::FocusApp);
    assert_eq!(a, WindowAction::FocusWindow);
    assert_eq!(app.window, WindowVisibility::Visible);
}

#[test]
fn quit_menu_item_authorizes_exit() {
    let mut app = assemble(full_config(), PlatformProfile::Other);
    let a = app.handle_menu_event(MenuItem::Quit);
    assert_eq!(a, WindowAction::NoAction);
    assert!(app.can_app_exit());
    assert_eq!(app.controller.state, LifecycleState::Terminating);
}

#[test]
fn tray_not_attached_when_configured_off() {
    let config = AppConfig { show_menu: true, show_system_tray: false };
    let app = assemble(config, PlatformProfile::Other);
    assert!(!app.tray_attached);
    let plan = startup_plan(config, PlatformProfile::Other);
    assert!(!plan.contains(&StartupStep::AttachTray));
}

#[test]
fn tray_absent_on_macos() {
    let app = assemble(full_config(), PlatformProfile::MacOs);
    assert!(!app.tray_attached);
    let plan = startup_plan(full_config(), PlatformProfile::MacOs);
    assert!(!plan.contains(&StartupStep::AttachTray));
}

#[test]
fn tray_event_noop_when_tray_detached() {
    let config = AppConfig { show_menu: true, show_system_tray: false };
    let mut app = assemble(config, PlatformProfile::Other);
    let a = app.handle_tray_event(TrayEvent::ItemClick(MenuItem::Quit));
    assert_eq!(a, WindowAction::NoAction);
    assert!(!app.can_app_exit());
    assert_eq!(app.controller.state, LifecycleState::Running);
}

#[test]
fn tray_click_restores_window() {
    let mut app = assemble(full_config(), PlatformProfile::Other);
    app.handle_window_event(WindowEvent::CloseRequested);
    assert_eq!(app.window, WindowVisibility::Hidden);
    let a = app.handle_tray_event(TrayEvent::LeftClick);
    assert_eq!(a, WindowAction::ShowWindow);
    assert_eq!(app.window, WindowVisibility::Visible);
}

#[test]
fn tray_quit_item_authorizes_exit() {
    let mut app = assemble(full_config(), PlatformProfile::Other);
    let a = app.handle_tray_event(TrayEvent::ItemClick(MenuItem::Quit));
    assert_eq!(a, WindowAction::NoAction);
    assert!(app.can_app_exit());
    assert_eq!(app.controller.state, LifecycleState::Terminating);
}

#[test]
fn startup_plan_full_configuration() {
    let plan = startup_plan(full_config(), PlatformProfile::Other);
    assert_eq!(
        plan,
        vec![
            StartupStep::LoadConfig,
            StartupStep::AttachMenu,
            StartupStep::AttachTray,
            StartupStep::ConstructWindow,
            StartupStep::RegisterCommands,
            StartupStep::AttachWindowEvents,
            StartupStep::ShowWindow,
        ]
    );
}

#[test]
fn startup_plan_minimal_configuration() {
    let config = AppConfig { show_menu: false, show_system_tray: false };
    let plan = startup_plan(config, PlatformProfile::Other);
    assert_eq!(
        plan,
        vec![
            StartupStep::LoadConfig,
            StartupStep::ConstructWindow,
            StartupStep::RegisterCommands,
            StartupStep::AttachWindowEvents,
            StartupStep::ShowWindow,
        ]
    );
}

#[test]
fn startup_plan_shows_window_last() {
    for &show_menu in &[false, true] {
        for &show_system_tray in &[false, true] {
            for &platform in &[PlatformProfile::MacOs, PlatformProfile::Other] {
                let config = AppConfig { show_menu, show_system_tray };
                let plan = startup_plan(config, platform);
                assert_eq!(plan.last(), Some(&StartupStep::ShowWindow));
                let before_show = &plan[..plan.len() - 1];
                assert!(!before_show.contains(&StartupStep::ShowWindow));
                assert!(before_show.contains(&StartupStep::AttachWindowEvents));
            }
        }
    }
}

#[test]
fn apply_action_follows_close_action() {
    let hide = close_action(PlatformProfile::Other);
    assert_eq!(
        apply_action(WindowVisibility::Visible, hide),
        WindowVisibility::Hidden
    );
    let minimize = close_action(PlatformProfile::MacOs);
    assert_eq!(
        apply_action(WindowVisibility::Visible, minimize),
        WindowVisibility::Minimized
    );
    assert_eq!(
        apply_action(WindowVisibility::Hidden, WindowAction::NoAction),
        WindowVisibility::Hidden
    );
}

#[test]
fn full_scenario_other_platform() {
    let config = full_config();
    let mut app = assemble(config, PlatformProfile::Other);
    assert_eq!(app.window, WindowVisibility::Visible);
    assert!(app.menu_attached);
    assert!(app.tray_attached);

    let resp = app.handle_event(Event::Window(WindowEvent::CloseRequested));
    assert!(resp.veto_close);
    assert_eq!(app.window, WindowVisibility::Hidden);
    assert!(!app.can_app_exit());
    assert_eq!(app.controller.state, LifecycleState::Running);

    let r = app.invoke(&String::from("can_app_exit"));
    assert_eq!(r.unwrap(), Invocation::ExitPermitted(false));
}
