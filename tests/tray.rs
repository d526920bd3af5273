use cli_launcher::tray::{
    icon_action, menu_command, toggle_action, tray_menu, IconEvent, MenuCommand, MouseButton,
    WindowAction, WindowOp, EXIT_CODE, MAIN_WINDOW, TRAY_ID,
};

#[test]
fn menu_has_show_then_quit() {
    let items = tray_menu();
    assert_eq!(items.len(), 2);
    assert_eq!(items[0].id, "show");
    assert_eq!(items[0].label, "Show/Hide");
    assert!(items[0].enabled);
    assert_eq!(items[1].id, "quit");
    assert_eq!(items[1].label, "Quit");
    assert!(items[1].enabled);
}

#[test]
fn names_and_exit_code() {
    assert_eq!(MAIN_WINDOW, "main");
    assert_eq!(TRAY_ID, "tray");
    assert_eq!(EXIT_CODE, 0);
}

#[test]
fn menu_ids_map_to_commands() {
    assert_eq!(menu_command("quit"), MenuCommand::Quit);
    assert_eq!(menu_command("show"), MenuCommand::ToggleMain);
    assert_eq!(menu_command("Quit"), MenuCommand::Ignore);
    assert_eq!(menu_command(""), MenuCommand::Ignore);
    assert_eq!(menu_command("showx"), MenuCommand::Ignore);
}

#[test]
fn toggle_hides_visible_window() {
    assert_eq!(toggle_action(Some(true)), WindowAction::Hide);
    assert_eq!(toggle_action(Some(true)).ops(), vec![WindowOp::Hide]);
}

#[test]
fn toggle_shows_hidden_window() {
    assert_eq!(toggle_action(Some(false)), WindowAction::ShowAndFocus);
    assert_eq!(
        toggle_action(Some(false)).ops(),
        vec![WindowOp::Show, WindowOp::SetFocus]
    );
}

#[test]
fn failed_visibility_query_counts_as_hidden() {
    assert_eq!(toggle_action(None), WindowAction::ShowAndFocus);
}

#[test]
fn toggle_twice_returns_to_start() {
    // visible -> hidden -> visible
    let first = toggle_action(Some(true));
    assert_eq!(first, WindowAction::Hide);
    let second = toggle_action(Some(false));
    assert_eq!(second, WindowAction::ShowAndFocus);
}

#[test]
fn left_click_restores_window() {
    let a = icon_action(IconEvent::Click { button: MouseButton::Left });
    assert_eq!(a, Some(WindowAction::Restore));
    assert_eq!(
        a.unwrap().ops(),
        vec![WindowOp::Unminimize, WindowOp::Show, WindowOp::SetFocus]
    );
}

#[test]
fn other_icon_events_are_ignored() {
    assert_eq!(icon_action(IconEvent::Click { button: MouseButton::Right }), None);
    assert_eq!(icon_action(IconEvent::Click { button: MouseButton::Middle }), None);
    assert_eq!(icon_action(IconEvent::Other), None);
}
