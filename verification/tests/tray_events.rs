use clawdis::{
    on_menu_event, on_tray_icon_event, MouseButton, MouseButtonState, TrayAction, TrayIconEvent,
};

#[test]
fn new_chat_signals_the_window() {
    assert_eq!(
        on_menu_event("new_chat"),
        TrayAction::Emit { event: "tray-new-chat".to_string() }
    );
}

#[test]
fn settings_signals_the_window() {
    assert_eq!(
        on_menu_event("settings"),
        TrayAction::Emit { event: "tray-settings".to_string() }
    );
}

#[test]
fn show_reveals_the_window() {
    assert_eq!(on_menu_event("show"), TrayAction::ShowWindow);
}

#[test]
fn quit_exits_with_code_zero() {
    assert_eq!(on_menu_event("quit"), TrayAction::Exit { code: 0 });
}

#[test]
fn informational_rows_and_unknown_ids_do_nothing() {
    for id in ["status", "health", "usage", "", "Quit", "new_chat ", "tray-new-chat"] {
        assert_eq!(on_menu_event(id), TrayAction::Ignore, "id {:?}", id);
    }
}

#[test]
fn releasing_the_left_button_shows_the_window() {
    let event = TrayIconEvent::Click {
        button: MouseButton::Left,
        button_state: MouseButtonState::Up,
    };
    assert_eq!(on_tray_icon_event(event), TrayAction::ShowWindow);
    assert_eq!(on_tray_icon_event(event), on_menu_event("show"));
}

#[test]
fn other_icon_events_do_nothing() {
    let events = [
        TrayIconEvent::Click { button: MouseButton::Left, button_state: MouseButtonState::Down },
        TrayIconEvent::Click { button: MouseButton::Right, button_state: MouseButtonState::Up },
        TrayIconEvent::Click { button: MouseButton::Middle, button_state: MouseButtonState::Up },
        TrayIconEvent::DoubleClick { button: MouseButton::Left },
        TrayIconEvent::Enter,
        TrayIconEvent::Move,
        TrayIconEvent::Leave,
    ];
    for event in events {
        assert_eq!(on_tray_icon_event(event), TrayAction::Ignore);
    }
}
