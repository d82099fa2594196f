use zenit::devui::{
    accepts_input_character, key_events, modifier_events, to_imgui_key, to_imgui_mouse_button, to_winit_cursor,
    CursorIcon, ImguiKey, ImguiMouseButton, ImguiMouseCursor, KeyCode, MouseButton,
};

#[test]
fn keys_map_to_their_imgui_keys() {
    assert_eq!(to_imgui_key(KeyCode::Tab), Some(ImguiKey::Tab));
    assert_eq!(to_imgui_key(KeyCode::Back), Some(ImguiKey::Backspace));
    assert_eq!(to_imgui_key(KeyCode::Return), Some(ImguiKey::Enter));
    assert_eq!(to_imgui_key(KeyCode::Key7), Some(ImguiKey::Alpha7));
    assert_eq!(to_imgui_key(KeyCode::Numpad7), Some(ImguiKey::Keypad7));
    assert_eq!(to_imgui_key(KeyCode::Equals), Some(ImguiKey::Equal));
    assert_eq!(to_imgui_key(KeyCode::Grave), Some(ImguiKey::GraveAccent));
    assert_eq!(to_imgui_key(KeyCode::RWin), Some(ImguiKey::RightSuper));
    assert_eq!(to_imgui_key(KeyCode::Other), None);
}

#[test]
fn modifier_keys_also_send_the_general_modifier() {
    assert_eq!(
        key_events(KeyCode::LShift, true),
        vec![(ImguiKey::ModShift, true), (ImguiKey::LeftShift, true)]
    );
    assert_eq!(
        key_events(KeyCode::RControl, false),
        vec![(ImguiKey::ModCtrl, false), (ImguiKey::RightCtrl, false)]
    );
    assert_eq!(key_events(KeyCode::LWin, true), vec![(ImguiKey::ModSuper, true), (ImguiKey::LeftSuper, true)]);
    assert_eq!(key_events(KeyCode::A, true), vec![(ImguiKey::A, true)]);
    assert_eq!(key_events(KeyCode::Other, true), vec![]);
}

#[test]
fn modifier_state_changes_report_every_modifier() {
    assert_eq!(
        modifier_events(true, false, true, false),
        vec![
            (ImguiKey::ModShift, true),
            (ImguiKey::ModCtrl, false),
            (ImguiKey::ModAlt, true),
            (ImguiKey::ModSuper, false)
        ]
    );
}

#[test]
fn backspace_character_is_not_text() {
    assert!(accepts_input_character('a'));
    assert!(accepts_input_character('\u{8}'));
    assert!(!accepts_input_character('\u{7f}'));
}

#[test]
fn mouse_buttons_and_cursors() {
    assert_eq!(to_imgui_mouse_button(MouseButton::Left), Some(ImguiMouseButton::Left));
    assert_eq!(to_imgui_mouse_button(MouseButton::Other(1)), Some(ImguiMouseButton::Right));
    assert_eq!(to_imgui_mouse_button(MouseButton::Other(2)), Some(ImguiMouseButton::Middle));
    assert_eq!(to_imgui_mouse_button(MouseButton::Other(4)), Some(ImguiMouseButton::Extra2));
    assert_eq!(to_imgui_mouse_button(MouseButton::Other(5)), None);
    assert_eq!(to_winit_cursor(ImguiMouseCursor::TextInput), CursorIcon::Text);
    assert_eq!(to_winit_cursor(ImguiMouseCursor::ResizeNWSE), CursorIcon::NwseResize);
}
