use black_pearl::lifecycle::{
    quit_menu_item, tray_menu, AppLifecycleState, LifecycleAction, LifecycleController,
    LifecycleEvent,
};

#[test]
fn controller_starts_running() {
    let controller = LifecycleController::new();
    assert_eq!(controller.state(), AppLifecycleState::Running);
}

#[test]
fn close_request_minimizes_to_tray_and_only_quit_exits() {
    let mut controller = LifecycleController::new();

    let action = controller.handle(&LifecycleEvent::CloseRequested);
    assert_eq!(action, LifecycleAction::HideWindow);
    assert_eq!(controller.state(), AppLifecycleState::MinimizedToTray);

    let action = controller.handle(&LifecycleEvent::TrayMenuClick { id: "quit".to_string() });
    assert_eq!(action, LifecycleAction::ExitProcess);
    assert_eq!(controller.state(), AppLifecycleState::Exiting);
}

#[test]
fn close_request_while_minimized_stays_minimized() {
    let mut controller = LifecycleController::new();
    controller.handle(&LifecycleEvent::CloseRequested);
    let action = controller.handle(&LifecycleEvent::CloseRequested);
    assert_eq!(action, LifecycleAction::HideWindow);
    assert_eq!(controller.state(), AppLifecycleState::MinimizedToTray);
}

#[test]
fn reactivation_brings_the_window_back() {
    let mut controller = LifecycleController::new();
    controller.handle(&LifecycleEvent::CloseRequested);
    let action = controller.handle(&LifecycleEvent::WindowReactivated);
    assert_eq!(action, LifecycleAction::Ignore);
    assert_eq!(controller.state(), AppLifecycleState::Running);
}

#[test]
fn unknown_tray_menu_click_is_a_noop() {
    let mut controller = LifecycleController::new();
    let action = controller.handle(&LifecycleEvent::TrayMenuClick { id: "about".to_string() });
    assert_eq!(action, LifecycleAction::Ignore);
    assert_eq!(controller.state(), AppLifecycleState::Running);

    controller.handle(&LifecycleEvent::CloseRequested);
    let action = controller.handle(&LifecycleEvent::TrayMenuClick { id: "about".to_string() });
    assert_eq!(action, LifecycleAction::Ignore);
    assert_eq!(controller.state(), AppLifecycleState::MinimizedToTray);
}

#[test]
fn quit_exits_from_minimized_state_too() {
    let mut controller = LifecycleController::new();
    controller.handle(&LifecycleEvent::CloseRequested);
    let action = controller.handle(&LifecycleEvent::TrayMenuClick { id: "quit".to_string() });
    assert_eq!(action, LifecycleAction::ExitProcess);
    assert_eq!(controller.state(), AppLifecycleState::Exiting);
}

#[test]
fn exiting_is_terminal() {
    let mut controller = LifecycleController::new();
    controller.handle(&LifecycleEvent::TrayMenuClick { id: "quit".to_string() });
    let action = controller.handle(&LifecycleEvent::WindowReactivated);
    assert_eq!(action, LifecycleAction::Ignore);
    assert_eq!(controller.state(), AppLifecycleState::Exiting);
}

#[test]
fn process_survives_any_run_without_quit() {
    let mut controller = LifecycleController::new();
    let events = vec![
        LifecycleEvent::CloseRequested,
        LifecycleEvent::WindowReactivated,
        LifecycleEvent::TrayMenuClick { id: "about".to_string() },
        LifecycleEvent::CloseRequested,
        LifecycleEvent::CloseRequested,
        LifecycleEvent::WindowReactivated,
    ];
    for event in &events {
        let action = controller.handle(event);
        assert_ne!(action, LifecycleAction::ExitProcess);
    }
    assert_ne!(controller.state(), AppLifecycleState::Exiting);
}

#[test]
fn tray_menu_holds_the_quit_item() {
    let item = quit_menu_item();
    assert_eq!(item.id, "quit");
    assert_eq!(item.label, "Quit");

    let menu = tray_menu();
    assert_eq!(menu.len(), 1);
    assert_eq!(menu[0].id, "quit");
    assert_eq!(menu[0].label, "Quit");
}
