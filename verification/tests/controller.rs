use prompt_manager::controller::{
    hide_popup, on_close_requested, on_hotkey, on_menu_event, on_tray_event, show_popup,
    ButtonState, HotkeyEvent, MainCommand, MouseButton, PopupStatus, PopupStep, TrayEvent,
    WindowCall,
};

fn step(call: WindowCall, must_succeed: bool) -> PopupStep {
    PopupStep { call, must_succeed }
}

#[test]
fn press_hides_a_visible_popup() {
    assert_eq!(
        on_hotkey(HotkeyEvent::Pressed, PopupStatus::Visible, (5, 6)),
        vec![step(WindowCall::Hide, false)]
    );
}

#[test]
fn press_shows_a_hidden_popup_at_the_placement() {
    let expected = vec![
        step(WindowCall::SetPosition(500, 10), false),
        step(WindowCall::Show, false),
        step(WindowCall::Focus, false),
    ];
    assert_eq!(on_hotkey(HotkeyEvent::Pressed, PopupStatus::Hidden, (500, 10)), expected);
    // A popup that does not say whether it is visible counts as hidden.
    assert_eq!(on_hotkey(HotkeyEvent::Pressed, PopupStatus::Unknown, (500, 10)), expected);
}

#[test]
fn release_and_missing_popup_do_nothing() {
    for status in [PopupStatus::Absent, PopupStatus::Visible, PopupStatus::Hidden, PopupStatus::Unknown] {
        assert!(on_hotkey(HotkeyEvent::Released, status, (1, 2)).is_empty());
    }
    assert!(on_hotkey(HotkeyEvent::Pressed, PopupStatus::Absent, (1, 2)).is_empty());
}

#[test]
fn showing_on_request_must_show() {
    assert_eq!(
        show_popup(PopupStatus::Visible, (-3, 40)),
        vec![
            step(WindowCall::SetPosition(-3, 40), false),
            step(WindowCall::Show, true),
            step(WindowCall::Focus, false),
        ]
    );
    assert!(show_popup(PopupStatus::Absent, (0, 0)).is_empty());
}

#[test]
fn hiding_on_request_must_hide() {
    assert_eq!(hide_popup(PopupStatus::Hidden), vec![step(WindowCall::Hide, true)]);
    assert!(hide_popup(PopupStatus::Absent).is_empty());
}

#[test]
fn menu_entries_show_and_quit() {
    assert_eq!(on_menu_event("show"), MainCommand::ShowAndFocus);
    assert_eq!(on_menu_event("quit"), MainCommand::Exit(0));
    assert_eq!(on_menu_event("Show"), MainCommand::Nothing);
    assert_eq!(on_menu_event(""), MainCommand::Nothing);
}

#[test]
fn left_button_let_go_on_the_tray_shows_the_main_window() {
    assert_eq!(
        on_tray_event(TrayEvent::Click(MouseButton::Left, ButtonState::Up)),
        MainCommand::ShowAndFocus
    );
    assert_eq!(
        on_tray_event(TrayEvent::Click(MouseButton::Left, ButtonState::Down)),
        MainCommand::Nothing
    );
    assert_eq!(
        on_tray_event(TrayEvent::Click(MouseButton::Right, ButtonState::Up)),
        MainCommand::Nothing
    );
    assert_eq!(on_tray_event(TrayEvent::Other), MainCommand::Nothing);
}

#[test]
fn closing_the_main_window_hides_it() {
    assert_eq!(on_close_requested(), MainCommand::HideInsteadOfClosing);
}
