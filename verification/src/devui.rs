//! Developer UI input: how window keyboard, character and mouse input becomes Dear ImGui input
//! events.

use vstd::prelude::*;

verus! {

/// The window keys that the developer UI reads; every other key is `Other`.
#[derive(Debug, Clone, Copy, PartialEq, Eq, Structural, Hash)]
pub enum KeyCode {
    Tab, Left, Right, Up, Down, PageUp, PageDown, Home, End, Insert, Delete, Back, Space, Return,
    Escape, LControl, LShift, LAlt, LWin, RControl, RShift, RAlt, RWin, Key0, Key1, Key2,
    Key3, Key4, Key5, Key6, Key7, Key8, Key9, A, B, C, D, E, F, G, H, I, J, K, L, M, N, O, P, Q,
    R, S, T, U, V, W, X, Y, Z, F1, F2, F3, F4, F5, F6, F7, F8, F9, F10, F11, F12, Apostrophe,
    Comma, Minus, Period, Slash, Semicolon, Equals, LBracket, Backslash, RBracket, Grave, Capital,
    Scroll, Numlock, Snapshot, Pause, Numpad0, Numpad1, Numpad2, Numpad3, Numpad4, Numpad5,
    Numpad6, Numpad7, Numpad8, Numpad9, NumpadDecimal, NumpadDivide, NumpadMultiply,
    NumpadSubtract, NumpadAdd, NumpadEnter, NumpadEquals, Other,
}

/// The Dear ImGui keys that window input is turned into, modifier keys included.
#[derive(Debug, Clone, Copy, PartialEq, Eq, Structural, Hash)]
pub enum ImguiKey {
    Tab, LeftArrow, RightArrow, UpArrow, DownArrow, PageUp, PageDown, Home, End, Insert, Delete,
    Backspace, Space, Enter, Escape, LeftCtrl, LeftShift, LeftAlt, LeftSuper, RightCtrl,
    RightShift, RightAlt, RightSuper, Alpha0, Alpha1, Alpha2, Alpha3, Alpha4, Alpha5,
    Alpha6, Alpha7, Alpha8, Alpha9, A, B, C, D, E, F, G, H, I, J, K, L, M, N, O, P, Q, R, S, T, U,
    V, W, X, Y, Z, F1, F2, F3, F4, F5, F6, F7, F8, F9, F10, F11, F12, Apostrophe, Comma, Minus,
    Period, Slash, Semicolon, Equal, LeftBracket, Backslash, RightBracket, GraveAccent, CapsLock,
    ScrollLock, NumLock, PrintScreen, Pause, Keypad0, Keypad1, Keypad2, Keypad3, Keypad4, Keypad5,
    Keypad6, Keypad7, Keypad8, Keypad9, KeypadDecimal, KeypadDivide, KeypadMultiply,
    KeypadSubtract, KeypadAdd, KeypadEnter, KeypadEqual, ModCtrl, ModShift, ModAlt, ModSuper,
}

/// The Dear ImGui key each window key stands for, if any.
pub open spec fn imgui_key_of(key: KeyCode) -> Option<ImguiKey> {
    match key {
        KeyCode::Tab => Some(ImguiKey::Tab),
        KeyCode::Left => Some(ImguiKey::LeftArrow),
        KeyCode::Right => Some(ImguiKey::RightArrow),
        KeyCode::Up => Some(ImguiKey::UpArrow),
        KeyCode::Down => Some(ImguiKey::DownArrow),
        KeyCode::PageUp => Some(ImguiKey::PageUp),
        KeyCode::PageDown => Some(ImguiKey::PageDown),
        KeyCode::Home => Some(ImguiKey::Home),
        KeyCode::End => Some(ImguiKey::End),
        KeyCode::Insert => Some(ImguiKey::Insert),
        KeyCode::Delete => Some(ImguiKey::Delete),
        KeyCode::Back => Some(ImguiKey::Backspace),
        KeyCode::Space => Some(ImguiKey::Space),
        KeyCode::Return => Some(ImguiKey::Enter),
        KeyCode::Escape => Some(ImguiKey::Escape),
        KeyCode::LControl => Some(ImguiKey::LeftCtrl),
        KeyCode::LShift => Some(ImguiKey::LeftShift),
        KeyCode::LAlt => Some(ImguiKey::LeftAlt),
        KeyCode::LWin => Some(ImguiKey::LeftSuper),
        KeyCode::RControl => Some(ImguiKey::RightCtrl),
        KeyCode::RShift => Some(ImguiKey::RightShift),
        KeyCode::RAlt => Some(ImguiKey::RightAlt),
        KeyCode::RWin => Some(ImguiKey::RightSuper),
        KeyCode::Key0 => Some(ImguiKey::Alpha0),
        KeyCode::Key1 => Some(ImguiKey::Alpha1),
        KeyCode::Key2 => Some(ImguiKey::Alpha2),
        KeyCode::Key3 => Some(ImguiKey::Alpha3),
        KeyCode::Key4 => Some(ImguiKey::Alpha4),
        KeyCode::Key5 => Some(ImguiKey::Alpha5),
        KeyCode::Key6 => Some(ImguiKey::Alpha6),
        KeyCode::Key7 => Some(ImguiKey::Alpha7),
        KeyCode::Key8 => Some(ImguiKey::Alpha8),
        KeyCode::Key9 => Some(ImguiKey::Alpha9),
        KeyCode::A => Some(ImguiKey::A),
        KeyCode::B => Some(ImguiKey::B),
        KeyCode::C => Some(ImguiKey::C),
        KeyCode::D => Some(ImguiKey::D),
        KeyCode::E => Some(ImguiKey::E),
        KeyCode::F => Some(ImguiKey::F),
        KeyCode::G => Some(ImguiKey::G),
        KeyCode::H => Some(ImguiKey::H),
        KeyCode::I => Some(ImguiKey::I),
        KeyCode::J => Some(ImguiKey::J),
        KeyCode::K => Some(ImguiKey::K),
        KeyCode::L => Some(ImguiKey::L),
        KeyCode::M => Some(ImguiKey::M),
        KeyCode::N => Some(ImguiKey::N),
        KeyCode::O => Some(ImguiKey::O),
        KeyCode::P => Some(ImguiKey::P),
        KeyCode::Q => Some(ImguiKey::Q),
        KeyCode::R => Some(ImguiKey::R),
        KeyCode::S => Some(ImguiKey::S),
        KeyCode::T => Some(ImguiKey::T),
        KeyCode::U => Some(ImguiKey::U),
        KeyCode::V => Some(ImguiKey::V),
        KeyCode::W => Some(ImguiKey::W),
        KeyCode::X => Some(ImguiKey::X),
        KeyCode::Y => Some(ImguiKey::Y),
        KeyCode::Z => Some(ImguiKey::Z),
        KeyCode::F1 => Some(ImguiKey::F1),
        KeyCode::F2 => Some(ImguiKey::F2),
        KeyCode::F3 => Some(ImguiKey::F3),
        KeyCode::F4 => Some(ImguiKey::F4),
        KeyCode::F5 => Some(ImguiKey::F5),
        KeyCode::F6 => Some(ImguiKey::F6),
        KeyCode::F7 => Some(ImguiKey::F7),
        KeyCode::F8 => Some(ImguiKey::F8),
        KeyCode::F9 => Some(ImguiKey::F9),
        KeyCode::F10 => Some(ImguiKey::F10),
        KeyCode::F11 => Some(ImguiKey::F11),
        KeyCode::F12 => Some(ImguiKey::F12),
        KeyCode::Apostrophe => Some(ImguiKey::Apostrophe),
        KeyCode::Comma => Some(ImguiKey::Comma),
        KeyCode::Minus => Some(ImguiKey::Minus),
        KeyCode::Period => Some(ImguiKey::Period),
        KeyCode::Slash => Some(ImguiKey::Slash),
        KeyCode::Semicolon => Some(ImguiKey::Semicolon),
        KeyCode::Equals => Some(ImguiKey::Equal),
        KeyCode::LBracket => Some(ImguiKey::LeftBracket),
        KeyCode::Backslash => Some(ImguiKey::Backslash),
        KeyCode::RBracket => Some(ImguiKey::RightBracket),
        KeyCode::Grave => Some(ImguiKey::GraveAccent),
        KeyCode::Capital => Some(ImguiKey::CapsLock),
        KeyCode::Scroll => Some(ImguiKey::ScrollLock),
        KeyCode::Numlock => Some(ImguiKey::NumLock),
        KeyCode::Snapshot => Some(ImguiKey::PrintScreen),
        KeyCode::Pause => Some(ImguiKey::Pause),
        KeyCode::Numpad0 => Some(ImguiKey::Keypad0),
        KeyCode::Numpad1 => Some(ImguiKey::Keypad1),
        KeyCode::Numpad2 => Some(ImguiKey::Keypad2),
        KeyCode::Numpad3 => Some(ImguiKey::Keypad3),
        KeyCode::Numpad4 => Some(ImguiKey::Keypad4),
        KeyCode::Numpad5 => Some(ImguiKey::Keypad5),
        KeyCode::Numpad6 => Some(ImguiKey::Keypad6),
        KeyCode::Numpad7 => Some(ImguiKey::Keypad7),
        KeyCode::Numpad8 => Some(ImguiKey::Keypad8),
        KeyCode::Numpad9 => Some(ImguiKey::Keypad9),
        KeyCode::NumpadDecimal => Some(ImguiKey::KeypadDecimal),
        KeyCode::NumpadDivide => Some(ImguiKey::KeypadDivide),
        KeyCode::NumpadMultiply => Some(ImguiKey::KeypadMultiply),
        KeyCode::NumpadSubtract => Some(ImguiKey::KeypadSubtract),
        KeyCode::NumpadAdd => Some(ImguiKey::KeypadAdd),
        KeyCode::NumpadEnter => Some(ImguiKey::KeypadEnter),
        KeyCode::NumpadEquals => Some(ImguiKey::KeypadEqual),
        KeyCode::Other => None,
    }
}

/// The window key a Dear ImGui key comes from; the modifier keys come from none.
pub open spec fn key_code_of(key: ImguiKey) -> Option<KeyCode> {
    match key {
        ImguiKey::Tab => Some(KeyCode::Tab),
        ImguiKey::LeftArrow => Some(KeyCode::Left),
        ImguiKey::RightArrow => Some(KeyCode::Right),
        ImguiKey::UpArrow => Some(KeyCode::Up),
        ImguiKey::DownArrow => Some(KeyCode::Down),
        ImguiKey::PageUp => Some(KeyCode::PageUp),
        ImguiKey::PageDown => Some(KeyCode::PageDown),
        ImguiKey::Home => Some(KeyCode::Home),
        ImguiKey::End => Some(KeyCode::End),
        ImguiKey::Insert => Some(KeyCode::Insert),
        ImguiKey::Delete => Some(KeyCode::Delete),
        ImguiKey::Backspace => Some(KeyCode::Back),
        ImguiKey::Space => Some(KeyCode::Space),
        ImguiKey::Enter => Some(KeyCode::Return),
        ImguiKey::Escape => Some(KeyCode::Escape),
        ImguiKey::LeftCtrl => Some(KeyCode::LControl),
        ImguiKey::LeftShift => Some(KeyCode::LShift),
        ImguiKey::LeftAlt => Some(KeyCode::LAlt),
        ImguiKey::LeftSuper => Some(KeyCode::LWin),
        ImguiKey::RightCtrl => Some(KeyCode::RControl),
        ImguiKey::RightShift => Some(KeyCode::RShift),
        ImguiKey::RightAlt => Some(KeyCode::RAlt),
        ImguiKey::RightSuper => Some(KeyCode::RWin),
        ImguiKey::Alpha0 => Some(KeyCode::Key0),
        ImguiKey::Alpha1 => Some(KeyCode::Key1),
        ImguiKey::Alpha2 => Some(KeyCode::Key2),
        ImguiKey::Alpha3 => Some(KeyCode::Key3),
        ImguiKey::Alpha4 => Some(KeyCode::Key4),
        ImguiKey::Alpha5 => Some(KeyCode::Key5),
        ImguiKey::Alpha6 => Some(KeyCode::Key6),
        ImguiKey::Alpha7 => Some(KeyCode::Key7),
        ImguiKey::Alpha8 => Some(KeyCode::Key8),
        ImguiKey::Alpha9 => Some(KeyCode::Key9),
        ImguiKey::A => Some(KeyCode::A),
        ImguiKey::B => Some(KeyCode::B),
        ImguiKey::C => Some(KeyCode::C),
        ImguiKey::D => Some(KeyCode::D),
        ImguiKey::E => Some(KeyCode::E),
        ImguiKey::F => Some(KeyCode::F),
        ImguiKey::G => Some(KeyCode::G),
        ImguiKey::H => Some(KeyCode::H),
        ImguiKey::I => Some(KeyCode::I),
        ImguiKey::J => Some(KeyCode::J),
        ImguiKey::K => Some(KeyCode::K),
        ImguiKey::L => Some(KeyCode::L),
        ImguiKey::M => Some(KeyCode::M),
        ImguiKey::N => Some(KeyCode::N),
        ImguiKey::O => Some(KeyCode::O),
        ImguiKey::P => Some(KeyCode::P),
        ImguiKey::Q => Some(KeyCode::Q),
        ImguiKey::R => Some(KeyCode::R),
        ImguiKey::S => Some(KeyCode::S),
        ImguiKey::T => Some(KeyCode::T),
        ImguiKey::U => Some(KeyCode::U),
        ImguiKey::V => Some(KeyCode::V),
        ImguiKey::W => Some(KeyCode::W),
        ImguiKey::X => Some(KeyCode::X),
        ImguiKey::Y => Some(KeyCode::Y),
        ImguiKey::Z => Some(KeyCode::Z),
        ImguiKey::F1 => Some(KeyCode::F1),
        ImguiKey::F2 => Some(KeyCode::F2),
        ImguiKey::F3 => Some(KeyCode::F3),
        ImguiKey::F4 => Some(KeyCode::F4),
        ImguiKey::F5 => Some(KeyCode::F5),
        ImguiKey::F6 => Some(KeyCode::F6),
        ImguiKey::F7 => Some(KeyCode::F7),
        ImguiKey::F8 => Some(KeyCode::F8),
        ImguiKey::F9 => Some(KeyCode::F9),
        ImguiKey::F10 => Some(KeyCode::F10),
        ImguiKey::F11 => Some(KeyCode::F11),
        ImguiKey::F12 => Some(KeyCode::F12),
        ImguiKey::Apostrophe => Some(KeyCode::Apostrophe),
        ImguiKey::Comma => Some(KeyCode::Comma),
        ImguiKey::Minus => Some(KeyCode::Minus),
        ImguiKey::Period => Some(KeyCode::Period),
        ImguiKey::Slash => Some(KeyCode::Slash),
        ImguiKey::Semicolon => Some(KeyCode::Semicolon),
        ImguiKey::Equal => Some(KeyCode::Equals),
        ImguiKey::LeftBracket => Some(KeyCode::LBracket),
        ImguiKey::Backslash => Some(KeyCode::Backslash),
        ImguiKey::RightBracket => Some(KeyCode::RBracket),
        ImguiKey::GraveAccent => Some(KeyCode::Grave),
        ImguiKey::CapsLock => Some(KeyCode::Capital),
        ImguiKey::ScrollLock => Some(KeyCode::Scroll),
        ImguiKey::NumLock => Some(KeyCode::Numlock),
        ImguiKey::PrintScreen => Some(KeyCode::Snapshot),
        ImguiKey::Pause => Some(KeyCode::Pause),
        ImguiKey::Keypad0 => Some(KeyCode::Numpad0),
        ImguiKey::Keypad1 => Some(KeyCode::Numpad1),
        ImguiKey::Keypad2 => Some(KeyCode::Numpad2),
        ImguiKey::Keypad3 => Some(KeyCode::Numpad3),
        ImguiKey::Keypad4 => Some(KeyCode::Numpad4),
        ImguiKey::Keypad5 => Some(KeyCode::Numpad5),
        ImguiKey::Keypad6 => Some(KeyCode::Numpad6),
        ImguiKey::Keypad7 => Some(KeyCode::Numpad7),
        ImguiKey::Keypad8 => Some(KeyCode::Numpad8),
        ImguiKey::Keypad9 => Some(KeyCode::Numpad9),
        ImguiKey::KeypadDecimal => Some(KeyCode::NumpadDecimal),
        ImguiKey::KeypadDivide => Some(KeyCode::NumpadDivide),
        ImguiKey::KeypadMultiply => Some(KeyCode::NumpadMultiply),
        ImguiKey::KeypadSubtract => Some(KeyCode::NumpadSubtract),
        ImguiKey::KeypadAdd => Some(KeyCode::NumpadAdd),
        ImguiKey::KeypadEnter => Some(KeyCode::NumpadEnter),
        ImguiKey::KeypadEqual => Some(KeyCode::NumpadEquals),
        ImguiKey::ModCtrl | ImguiKey::ModShift | ImguiKey::ModAlt | ImguiKey::ModSuper => None,
    }
}

/// Maps a window key to the Dear ImGui key it stands for, if any.
pub fn to_imgui_key(keycode: KeyCode) -> (r: Option<ImguiKey>)
    ensures
        r == imgui_key_of(keycode),
{
    match keycode {
        KeyCode::Tab => Some(ImguiKey::Tab),
        KeyCode::Left => Some(ImguiKey::LeftArrow),
        KeyCode::Right => Some(ImguiKey::RightArrow),
        KeyCode::Up => Some(ImguiKey::UpArrow),
        KeyCode::Down => Some(ImguiKey::DownArrow),
        KeyCode::PageUp => Some(ImguiKey::PageUp),
        KeyCode::PageDown => Some(ImguiKey::PageDown),
        KeyCode::Home => Some(ImguiKey::Home),
        KeyCode::End => Some(ImguiKey::End),
        KeyCode::Insert => Some(ImguiKey::Insert),
        KeyCode::Delete => Some(ImguiKey::Delete),
        KeyCode::Back => Some(ImguiKey::Backspace),
        KeyCode::Space => Some(ImguiKey::Space),
        KeyCode::Return => Some(ImguiKey::Enter),
        KeyCode::Escape => Some(ImguiKey::Escape),
        KeyCode::LControl => Some(ImguiKey::LeftCtrl),
        KeyCode::LShift => Some(ImguiKey::LeftShift),
        KeyCode::LAlt => Some(ImguiKey::LeftAlt),
        KeyCode::LWin => Some(ImguiKey::LeftSuper),
        KeyCode::RControl => Some(ImguiKey::RightCtrl),
        KeyCode::RShift => Some(ImguiKey::RightShift),
        KeyCode::RAlt => Some(ImguiKey::RightAlt),
        KeyCode::RWin => Some(ImguiKey::RightSuper),
        KeyCode::Key0 => Some(ImguiKey::Alpha0),
        KeyCode::Key1 => Some(ImguiKey::Alpha1),
        KeyCode::Key2 => Some(ImguiKey::Alpha2),
        KeyCode::Key3 => Some(ImguiKey::Alpha3),
        KeyCode::Key4 => Some(ImguiKey::Alpha4),
        KeyCode::Key5 => Some(ImguiKey::Alpha5),
        KeyCode::Key6 => Some(ImguiKey::Alpha6),
        KeyCode::Key7 => Some(ImguiKey::Alpha7),
        KeyCode::Key8 => Some(ImguiKey::Alpha8),
        KeyCode::Key9 => Some(ImguiKey::Alpha9),
        KeyCode::A => Some(ImguiKey::A),
        KeyCode::B => Some(ImguiKey::B),
        KeyCode::C => Some(ImguiKey::C),
        KeyCode::D => Some(ImguiKey::D),
        KeyCode::E => Some(ImguiKey::E),
        KeyCode::F => Some(ImguiKey::F),
        KeyCode::G => Some(ImguiKey::G),
        KeyCode::H => Some(ImguiKey::H),
        KeyCode::I => Some(ImguiKey::I),
        KeyCode::J => Some(ImguiKey::J),
        KeyCode::K => Some(ImguiKey::K),
        KeyCode::L => Some(ImguiKey::L),
        KeyCode::M => Some(ImguiKey::M),
        KeyCode::N => Some(ImguiKey::N),
        KeyCode::O => Some(ImguiKey::O),
        KeyCode::P => Some(ImguiKey::P),
        KeyCode::Q => Some(ImguiKey::Q),
        KeyCode::R => Some(ImguiKey::R),
        KeyCode::S => Some(ImguiKey::S),
        KeyCode::T => Some(ImguiKey::T),
        KeyCode::U => Some(ImguiKey::U),
        KeyCode::V => Some(ImguiKey::V),
        KeyCode::W => Some(ImguiKey::W),
        KeyCode::X => Some(ImguiKey::X),
        KeyCode::Y => Some(ImguiKey::Y),
        KeyCode::Z => Some(ImguiKey::Z),
        KeyCode::F1 => Some(ImguiKey::F1),
        KeyCode::F2 => Some(ImguiKey::F2),
        KeyCode::F3 => Some(ImguiKey::F3),
        KeyCode::F4 => Some(ImguiKey::F4),
        KeyCode::F5 => Some(ImguiKey::F5),
        KeyCode::F6 => Some(ImguiKey::F6),
        KeyCode::F7 => Some(ImguiKey::F7),
        KeyCode::F8 => Some(ImguiKey::F8),
        KeyCode::F9 => Some(ImguiKey::F9),
        KeyCode::F10 => Some(ImguiKey::F10),
        KeyCode::F11 => Some(ImguiKey::F11),
        KeyCode::F12 => Some(ImguiKey::F12),
        KeyCode::Apostrophe => Some(ImguiKey::Apostrophe),
        KeyCode::Comma => Some(ImguiKey::Comma),
        KeyCode::Minus => Some(ImguiKey::Minus),
        KeyCode::Period => Some(ImguiKey::Period),
        KeyCode::Slash => Some(ImguiKey::Slash),
        KeyCode::Semicolon => Some(ImguiKey::Semicolon),
        KeyCode::Equals => Some(ImguiKey::Equal),
        KeyCode::LBracket => Some(ImguiKey::LeftBracket),
        KeyCode::Backslash => Some(ImguiKey::Backslash),
        KeyCode::RBracket => Some(ImguiKey::RightBracket),
        KeyCode::Grave => Some(ImguiKey::GraveAccent),
        KeyCode::Capital => Some(ImguiKey::CapsLock),
        KeyCode::Scroll => Some(ImguiKey::ScrollLock),
        KeyCode::Numlock => Some(ImguiKey::NumLock),
        KeyCode::Snapshot => Some(ImguiKey::PrintScreen),
        KeyCode::Pause => Some(ImguiKey::Pause),
        KeyCode::Numpad0 => Some(ImguiKey::Keypad0),
        KeyCode::Numpad1 => Some(ImguiKey::Keypad1),
        KeyCode::Numpad2 => Some(ImguiKey::Keypad2),
        KeyCode::Numpad3 => Some(ImguiKey::Keypad3),
        KeyCode::Numpad4 => Some(ImguiKey::Keypad4),
        KeyCode::Numpad5 => Some(ImguiKey::Keypad5),
        KeyCode::Numpad6 => Some(ImguiKey::Keypad6),
        KeyCode::Numpad7 => Some(ImguiKey::Keypad7),
        KeyCode::Numpad8 => Some(ImguiKey::Keypad8),
        KeyCode::Numpad9 => Some(ImguiKey::Keypad9),
        KeyCode::NumpadDecimal => Some(ImguiKey::KeypadDecimal),
        KeyCode::NumpadDivide => Some(ImguiKey::KeypadDivide),
        KeyCode::NumpadMultiply => Some(ImguiKey::KeypadMultiply),
        KeyCode::NumpadSubtract => Some(ImguiKey::KeypadSubtract),
        KeyCode::NumpadAdd => Some(ImguiKey::KeypadAdd),
        KeyCode::NumpadEnter => Some(ImguiKey::KeypadEnter),
        KeyCode::NumpadEquals => Some(ImguiKey::KeypadEqual),
        KeyCode::Other => None,
    }
}

/// Each window key maps to its own Dear ImGui key, and never to a modifier key: the key that a
/// Dear ImGui key came from can always be told back.
pub proof fn lemma_imgui_key_injective(a: KeyCode, b: KeyCode)
    ensures
        imgui_key_of(a) matches Some(k) ==> key_code_of(k) == Some(a),
        imgui_key_of(a) is Some && imgui_key_of(a) == imgui_key_of(b) ==> a == b,
        !(imgui_key_of(a) matches Some(ImguiKey::ModCtrl | ImguiKey::ModShift | ImguiKey::ModAlt | ImguiKey::ModSuper)),
{
}

/// The modifier key that a left or right modifier key also counts as, if it is one.
pub open spec fn modifier_of(key: KeyCode) -> Option<ImguiKey> {
    match key {
        KeyCode::LShift | KeyCode::RShift => Some(ImguiKey::ModShift),
        KeyCode::LControl | KeyCode::RControl => Some(ImguiKey::ModCtrl),
        KeyCode::LAlt | KeyCode::RAlt => Some(ImguiKey::ModAlt),
        KeyCode::LWin | KeyCode::RWin => Some(ImguiKey::ModSuper),
        _ => None,
    }
}

/// The Dear ImGui key events for a window key going down (`pressed`) or up: for a left or right
/// modifier key, first the general modifier (so either "ctrl" or a specific control key can be
/// asked for), then the key itself where it maps to one.
pub open spec fn key_events_of(key: KeyCode, pressed: bool) -> Seq<(ImguiKey, bool)> {
    let modifier = match modifier_of(key) {
        Some(m) => seq![(m, pressed)],
        None => Seq::empty(),
    };
    match imgui_key_of(key) {
        Some(k) => modifier.push((k, pressed)),
        None => modifier,
    }
}

/// Turns a window key going down (`pressed`) or up into Dear ImGui key events.
pub fn key_events(key: KeyCode, pressed: bool) -> (r: Vec<(ImguiKey, bool)>)
    ensures
        r@ == key_events_of(key, pressed),
{
    let mut events: Vec<(ImguiKey, bool)> = Vec::new();
    // We map both left and right ctrl to `ModCtrl`, etc. Dear ImGui is told both "left control is
    // pressed" and "consider the control key is pressed", so that applications can ask for either
    // the general modifier or a specific key.
    if key == KeyCode::LShift || key == KeyCode::RShift {
        events.push((ImguiKey::ModShift, pressed));
    } else if key == KeyCode::LControl || key == KeyCode::RControl {
        events.push((ImguiKey::ModCtrl, pressed));
    } else if key == KeyCode::LAlt || key == KeyCode::RAlt {
        events.push((ImguiKey::ModAlt, pressed));
    } else if key == KeyCode::LWin || key == KeyCode::RWin {
        events.push((ImguiKey::ModSuper, pressed));
    }
    // Add main key event
    if let Some(imgui_key) = to_imgui_key(key) {
        events.push((imgui_key, pressed));
    }
    assert(events@ =~= key_events_of(key, pressed));
    events
}

/// The Dear ImGui modifier events for a change of the window's modifier state. Modifiers are
/// tracked apart from key events because some systems, like macOS, do not reliably send modifier
/// states during certain events.
pub fn modifier_events(shift: bool, ctrl: bool, alt: bool, logo: bool) -> (r: Vec<(ImguiKey, bool)>)
    ensures
        r@ == seq![(ImguiKey::ModShift, shift), (ImguiKey::ModCtrl, ctrl), (ImguiKey::ModAlt, alt), (ImguiKey::ModSuper, logo)],
{
    let r = vec![(ImguiKey::ModShift, shift), (ImguiKey::ModCtrl, ctrl), (ImguiKey::ModAlt, alt), (ImguiKey::ModSuper, logo)];
    assert(r@ =~= seq![(ImguiKey::ModShift, shift), (ImguiKey::ModCtrl, ctrl), (ImguiKey::ModAlt, alt), (ImguiKey::ModSuper, logo)]);
    r
}

/// Whether a received character is passed on as text input. The backspace character
/// (`'\u{7f}'`) is left out: otherwise it would be inserted and then deleted.
pub fn accepts_input_character(ch: char) -> (r: bool)
    ensures
        r == (ch != '\u{7f}'),
{
    ch != '\u{7f}'
}

/// The mouse buttons of the window; `Other` carries the button's number.
#[derive(Debug, Clone, Copy, PartialEq, Eq, Structural)]
pub enum MouseButton {
    Left,
    Right,
    Middle,
    Other(u16),
}

/// The mouse buttons Dear ImGui knows.
#[derive(Debug, Clone, Copy, PartialEq, Eq, Structural)]
pub enum ImguiMouseButton {
    Left,
    Right,
    Middle,
    Extra1,
    Extra2,
}

/// The Dear ImGui button each window mouse button stands for, if any; the numbered buttons 0 to 2
/// are the left, right and middle ones.
pub open spec fn imgui_mouse_button_of(button: MouseButton) -> Option<ImguiMouseButton> {
    match button {
        MouseButton::Left | MouseButton::Other(0) => Some(ImguiMouseButton::Left),
        MouseButton::Right | MouseButton::Other(1) => Some(ImguiMouseButton::Right),
        MouseButton::Middle | MouseButton::Other(2) => Some(ImguiMouseButton::Middle),
        MouseButton::Other(3) => Some(ImguiMouseButton::Extra1),
        MouseButton::Other(4) => Some(ImguiMouseButton::Extra2),
        _ => None,
    }
}

/// The families of keys that come in numbered runs.
#[derive(Debug, Clone, Copy, PartialEq, Eq, Structural)]
pub enum KeyGroup {
    /// The letters, A being 0.
    Letter,
    /// The digits above the letters.
    Digit,
    /// The digits of the numeric keypad.
    KeypadDigit,
    /// The function keys, F1 being 0.
    Function,
}

/// Which run a window key belongs to, and its place in it.
pub open spec fn key_group_of(key: KeyCode) -> Option<(KeyGroup, nat)> {
    match key {
        KeyCode::A => Some((KeyGroup::Letter, 0nat)),
        KeyCode::B => Some((KeyGroup::Letter, 1nat)),
        KeyCode::C => Some((KeyGroup::Letter, 2nat)),
        KeyCode::D => Some((KeyGroup::Letter, 3nat)),
        KeyCode::E => Some((KeyGroup::Letter, 4nat)),
        KeyCode::F => Some((KeyGroup::Letter, 5nat)),
        KeyCode::G => Some((KeyGroup::Letter, 6nat)),
        KeyCode::H => Some((KeyGroup::Letter, 7nat)),
        KeyCode::I => Some((KeyGroup::Letter, 8nat)),
        KeyCode::J => Some((KeyGroup::Letter, 9nat)),
        KeyCode::K => Some((KeyGroup::Letter, 10nat)),
        KeyCode::L => Some((KeyGroup::Letter, 11nat)),
        KeyCode::M => Some((KeyGroup::Letter, 12nat)),
        KeyCode::N => Some((KeyGroup::Letter, 13nat)),
        KeyCode::O => Some((KeyGroup::Letter, 14nat)),
        KeyCode::P => Some((KeyGroup::Letter, 15nat)),
        KeyCode::Q => Some((KeyGroup::Letter, 16nat)),
        KeyCode::R => Some((KeyGroup::Letter, 17nat)),
        KeyCode::S => Some((KeyGroup::Letter, 18nat)),
        KeyCode::T => Some((KeyGroup::Letter, 19nat)),
        KeyCode::U => Some((KeyGroup::Letter, 20nat)),
        KeyCode::V => Some((KeyGroup::Letter, 21nat)),
        KeyCode::W => Some((KeyGroup::Letter, 22nat)),
        KeyCode::X => Some((KeyGroup::Letter, 23nat)),
        KeyCode::Y => Some((KeyGroup::Letter, 24nat)),
        KeyCode::Z => Some((KeyGroup::Letter, 25nat)),
        KeyCode::Key0 => Some((KeyGroup::Digit, 0nat)),
        KeyCode::Key1 => Some((KeyGroup::Digit, 1nat)),
        KeyCode::Key2 => Some((KeyGroup::Digit, 2nat)),
        KeyCode::Key3 => Some((KeyGroup::Digit, 3nat)),
        KeyCode::Key4 => Some((KeyGroup::Digit, 4nat)),
        KeyCode::Key5 => Some((KeyGroup::Digit, 5nat)),
        KeyCode::Key6 => Some((KeyGroup::Digit, 6nat)),
        KeyCode::Key7 => Some((KeyGroup::Digit, 7nat)),
        KeyCode::Key8 => Some((KeyGroup::Digit, 8nat)),
        KeyCode::Key9 => Some((KeyGroup::Digit, 9nat)),
        KeyCode::Numpad0 => Some((KeyGroup::KeypadDigit, 0nat)),
        KeyCode::Numpad1 => Some((KeyGroup::KeypadDigit, 1nat)),
        KeyCode::Numpad2 => Some((KeyGroup::KeypadDigit, 2nat)),
        KeyCode::Numpad3 => Some((KeyGroup::KeypadDigit, 3nat)),
        KeyCode::Numpad4 => Some((KeyGroup::KeypadDigit, 4nat)),
        KeyCode::Numpad5 => Some((KeyGroup::KeypadDigit, 5nat)),
        KeyCode::Numpad6 => Some((KeyGroup::KeypadDigit, 6nat)),
        KeyCode::Numpad7 => Some((KeyGroup::KeypadDigit, 7nat)),
        KeyCode::Numpad8 => Some((KeyGroup::KeypadDigit, 8nat)),
        KeyCode::Numpad9 => Some((KeyGroup::KeypadDigit, 9nat)),
        KeyCode::F1 => Some((KeyGroup::Function, 0nat)),
        KeyCode::F2 => Some((KeyGroup::Function, 1nat)),
        KeyCode::F3 => Some((KeyGroup::Function, 2nat)),
        KeyCode::F4 => Some((KeyGroup::Function, 3nat)),
        KeyCode::F5 => Some((KeyGroup::Function, 4nat)),
        KeyCode::F6 => Some((KeyGroup::Function, 5nat)),
        KeyCode::F7 => Some((KeyGroup::Function, 6nat)),
        KeyCode::F8 => Some((KeyGroup::Function, 7nat)),
        KeyCode::F9 => Some((KeyGroup::Function, 8nat)),
        KeyCode::F10 => Some((KeyGroup::Function, 9nat)),
        KeyCode::F11 => Some((KeyGroup::Function, 10nat)),
        KeyCode::F12 => Some((KeyGroup::Function, 11nat)),
        _ => None,
    }
}

/// Which run a Dear ImGui key belongs to, and its place in it.
pub open spec fn imgui_key_group_of(key: ImguiKey) -> Option<(KeyGroup, nat)> {
    match key {
        ImguiKey::A => Some((KeyGroup::Letter, 0nat)),
        ImguiKey::B => Some((KeyGroup::Letter, 1nat)),
        ImguiKey::C => Some((KeyGroup::Letter, 2nat)),
        ImguiKey::D => Some((KeyGroup::Letter, 3nat)),
        ImguiKey::E => Some((KeyGroup::Letter, 4nat)),
        ImguiKey::F => Some((KeyGroup::Letter, 5nat)),
        ImguiKey::G => Some((KeyGroup::Letter, 6nat)),
        ImguiKey::H => Some((KeyGroup::Letter, 7nat)),
        ImguiKey::I => Some((KeyGroup::Letter, 8nat)),
        ImguiKey::J => Some((KeyGroup::Letter, 9nat)),
        ImguiKey::K => Some((KeyGroup::Letter, 10nat)),
        ImguiKey::L => Some((KeyGroup::Letter, 11nat)),
        ImguiKey::M => Some((KeyGroup::Letter, 12nat)),
        ImguiKey::N => Some((KeyGroup::Letter, 13nat)),
        ImguiKey::O => Some((KeyGroup::Letter, 14nat)),
        ImguiKey::P => Some((KeyGroup::Letter, 15nat)),
        ImguiKey::Q => Some((KeyGroup::Letter, 16nat)),
        ImguiKey::R => Some((KeyGroup::Letter, 17nat)),
        ImguiKey::S => Some((KeyGroup::Letter, 18nat)),
        ImguiKey::T => Some((KeyGroup::Letter, 19nat)),
        ImguiKey::U => Some((KeyGroup::Letter, 20nat)),
        ImguiKey::V => Some((KeyGroup::Letter, 21nat)),
        ImguiKey::W => Some((KeyGroup::Letter, 22nat)),
        ImguiKey::X => Some((KeyGroup::Letter, 23nat)),
        ImguiKey::Y => Some((KeyGroup::Letter, 24nat)),
        ImguiKey::Z => Some((KeyGroup::Letter, 25nat)),
        ImguiKey::Alpha0 => Some((KeyGroup::Digit, 0nat)),
        ImguiKey::Alpha1 => Some((KeyGroup::Digit, 1nat)),
        ImguiKey::Alpha2 => Some((KeyGroup::Digit, 2nat)),
        ImguiKey::Alpha3 => Some((KeyGroup::Digit, 3nat)),
        ImguiKey::Alpha4 => Some((KeyGroup::Digit, 4nat)),
        ImguiKey::Alpha5 => Some((KeyGroup::Digit, 5nat)),
        ImguiKey::Alpha6 => Some((KeyGroup::Digit, 6nat)),
        ImguiKey::Alpha7 => Some((KeyGroup::Digit, 7nat)),
        ImguiKey::Alpha8 => Some((KeyGroup::Digit, 8nat)),
        ImguiKey::Alpha9 => Some((KeyGroup::Digit, 9nat)),
        ImguiKey::Keypad0 => Some((KeyGroup::KeypadDigit, 0nat)),
        ImguiKey::Keypad1 => Some((KeyGroup::KeypadDigit, 1nat)),
        ImguiKey::Keypad2 => Some((KeyGroup::KeypadDigit, 2nat)),
        ImguiKey::Keypad3 => Some((KeyGroup::KeypadDigit, 3nat)),
        ImguiKey::Keypad4 => Some((KeyGroup::KeypadDigit, 4nat)),
        ImguiKey::Keypad5 => Some((KeyGroup::KeypadDigit, 5nat)),
        ImguiKey::Keypad6 => Some((KeyGroup::KeypadDigit, 6nat)),
        ImguiKey::Keypad7 => Some((KeyGroup::KeypadDigit, 7nat)),
        ImguiKey::Keypad8 => Some((KeyGroup::KeypadDigit, 8nat)),
        ImguiKey::Keypad9 => Some((KeyGroup::KeypadDigit, 9nat)),
        ImguiKey::F1 => Some((KeyGroup::Function, 0nat)),
        ImguiKey::F2 => Some((KeyGroup::Function, 1nat)),
        ImguiKey::F3 => Some((KeyGroup::Function, 2nat)),
        ImguiKey::F4 => Some((KeyGroup::Function, 3nat)),
        ImguiKey::F5 => Some((KeyGroup::Function, 4nat)),
        ImguiKey::F6 => Some((KeyGroup::Function, 5nat)),
        ImguiKey::F7 => Some((KeyGroup::Function, 6nat)),
        ImguiKey::F8 => Some((KeyGroup::Function, 7nat)),
        ImguiKey::F9 => Some((KeyGroup::Function, 8nat)),
        ImguiKey::F10 => Some((KeyGroup::Function, 9nat)),
        ImguiKey::F11 => Some((KeyGroup::Function, 10nat)),
        ImguiKey::F12 => Some((KeyGroup::Function, 11nat)),
        _ => None,
    }
}

/// Keys of a numbered run keep their run and their place in it: a letter maps to the same
/// letter, a digit to the same digit, a keypad digit to the same keypad digit and a function key
/// to the same function key. Left and right modifier keys keep their side and their modifier.
pub proof fn lemma_imgui_key_keeps_runs_and_sides(key: KeyCode)
    ensures
        key_group_of(key) is Some ==> (imgui_key_of(key) matches Some(k) && imgui_key_group_of(k) == key_group_of(key)),
        imgui_key_of(key) matches Some(k) ==> (imgui_key_group_of(k) is Some ==> key_group_of(key) == imgui_key_group_of(k)),
        modifier_of(key) == Some(ImguiKey::ModShift) ==> imgui_key_of(key) == Some(
            if key == KeyCode::LShift { ImguiKey::LeftShift } else { ImguiKey::RightShift }),
        modifier_of(key) == Some(ImguiKey::ModCtrl) ==> imgui_key_of(key) == Some(
            if key == KeyCode::LControl { ImguiKey::LeftCtrl } else { ImguiKey::RightCtrl }),
        modifier_of(key) == Some(ImguiKey::ModAlt) ==> imgui_key_of(key) == Some(
            if key == KeyCode::LAlt { ImguiKey::LeftAlt } else { ImguiKey::RightAlt }),
        modifier_of(key) == Some(ImguiKey::ModSuper) ==> imgui_key_of(key) == Some(
            if key == KeyCode::LWin { ImguiKey::LeftSuper } else { ImguiKey::RightSuper }),
{
}

/// Dear ImGui's number for each of its mouse buttons.
pub open spec fn imgui_mouse_button_number(button: ImguiMouseButton) -> nat {
    match button {
        ImguiMouseButton::Left => 0,
        ImguiMouseButton::Right => 1,
        ImguiMouseButton::Middle => 2,
        ImguiMouseButton::Extra1 => 3,
        ImguiMouseButton::Extra2 => 4,
    }
}

/// Each named mouse button stands for the Dear ImGui button of the same name, and a named button
/// and its number (left 0, right 1, middle 2) stand for the same one. A numbered button stands
/// for the Dear ImGui button of the same number, and only the numbers 0 to 4 stand for one.
pub proof fn lemma_mouse_buttons_keep_their_names(n: u16, m: u16)
    ensures
        imgui_mouse_button_of(MouseButton::Left) == Some(ImguiMouseButton::Left),
        imgui_mouse_button_of(MouseButton::Right) == Some(ImguiMouseButton::Right),
        imgui_mouse_button_of(MouseButton::Middle) == Some(ImguiMouseButton::Middle),
        imgui_mouse_button_of(MouseButton::Left) == imgui_mouse_button_of(MouseButton::Other(0)),
        imgui_mouse_button_of(MouseButton::Right) == imgui_mouse_button_of(MouseButton::Other(1)),
        imgui_mouse_button_of(MouseButton::Middle) == imgui_mouse_button_of(MouseButton::Other(2)),
        imgui_mouse_button_of(MouseButton::Other(n)) is Some <==> n < 5,
        imgui_mouse_button_of(MouseButton::Other(n)) matches Some(b) ==> imgui_mouse_button_number(b) == n,
        imgui_mouse_button_of(MouseButton::Other(n)) is Some && n != m ==>
            imgui_mouse_button_of(MouseButton::Other(n)) != imgui_mouse_button_of(MouseButton::Other(m)),
{
}

/// Maps a window mouse button to the Dear ImGui button it stands for, if any.
pub fn to_imgui_mouse_button(button: MouseButton) -> (r: Option<ImguiMouseButton>)
    ensures
        r == imgui_mouse_button_of(button),
{
    match button {
        MouseButton::Left | MouseButton::Other(0) => Some(ImguiMouseButton::Left),
        MouseButton::Right | MouseButton::Other(1) => Some(ImguiMouseButton::Right),
        MouseButton::Middle | MouseButton::Other(2) => Some(ImguiMouseButton::Middle),
        MouseButton::Other(3) => Some(ImguiMouseButton::Extra1),
        MouseButton::Other(4) => Some(ImguiMouseButton::Extra2),
        _ => None,
    }
}

/// The mouse cursors Dear ImGui asks for.
#[derive(Debug, Clone, Copy, PartialEq, Eq, Structural)]
pub enum ImguiMouseCursor {
    Arrow,
    TextInput,
    ResizeAll,
    ResizeNS,
    ResizeEW,
    ResizeNESW,
    ResizeNWSE,
    Hand,
    NotAllowed,
}

/// The window cursor icons the developer UI shows.
#[derive(Debug, Clone, Copy, PartialEq, Eq, Structural)]
pub enum CursorIcon {
    Default,
    Text,
    Move,
    NsResize,
    EwResize,
    NeswResize,
    NwseResize,
    Hand,
    NotAllowed,
}

/// What a cursor looks like, whichever side names it.
#[derive(Debug, Clone, Copy, PartialEq, Eq, Structural)]
pub enum CursorShape {
    Pointer,
    TextBeam,
    FourWayArrow,
    VerticalArrows,
    HorizontalArrows,
    RisingDiagonalArrows,
    FallingDiagonalArrows,
    PointingHand,
    Forbidden,
}

/// The shape of each cursor Dear ImGui asks for.
pub open spec fn imgui_cursor_shape(cursor: ImguiMouseCursor) -> CursorShape {
    match cursor {
        ImguiMouseCursor::Arrow => CursorShape::Pointer,
        ImguiMouseCursor::TextInput => CursorShape::TextBeam,
        ImguiMouseCursor::ResizeAll => CursorShape::FourWayArrow,
        ImguiMouseCursor::ResizeNS => CursorShape::VerticalArrows,
        ImguiMouseCursor::ResizeEW => CursorShape::HorizontalArrows,
        ImguiMouseCursor::ResizeNESW => CursorShape::RisingDiagonalArrows,
        ImguiMouseCursor::ResizeNWSE => CursorShape::FallingDiagonalArrows,
        ImguiMouseCursor::Hand => CursorShape::PointingHand,
        ImguiMouseCursor::NotAllowed => CursorShape::Forbidden,
    }
}

/// The shape of each window cursor icon.
pub open spec fn cursor_icon_shape(icon: CursorIcon) -> CursorShape {
    match icon {
        CursorIcon::Default => CursorShape::Pointer,
        CursorIcon::Text => CursorShape::TextBeam,
        CursorIcon::Move => CursorShape::FourWayArrow,
        CursorIcon::NsResize => CursorShape::VerticalArrows,
        CursorIcon::EwResize => CursorShape::HorizontalArrows,
        CursorIcon::NeswResize => CursorShape::RisingDiagonalArrows,
        CursorIcon::NwseResize => CursorShape::FallingDiagonalArrows,
        CursorIcon::Hand => CursorShape::PointingHand,
        CursorIcon::NotAllowed => CursorShape::Forbidden,
    }
}

/// Maps the cursor Dear ImGui asks for to the window cursor icon showing it.
pub fn to_winit_cursor(cursor: ImguiMouseCursor) -> (r: CursorIcon)
    ensures
        cursor_icon_shape(r) == imgui_cursor_shape(cursor),
        r == match cursor {
            ImguiMouseCursor::Arrow => CursorIcon::Default,
            ImguiMouseCursor::TextInput => CursorIcon::Text,
            ImguiMouseCursor::ResizeAll => CursorIcon::Move,
            ImguiMouseCursor::ResizeNS => CursorIcon::NsResize,
            ImguiMouseCursor::ResizeEW => CursorIcon::EwResize,
            ImguiMouseCursor::ResizeNESW => CursorIcon::NeswResize,
            ImguiMouseCursor::ResizeNWSE => CursorIcon::NwseResize,
            ImguiMouseCursor::Hand => CursorIcon::Hand,
            ImguiMouseCursor::NotAllowed => CursorIcon::NotAllowed,
        },
{
    match cursor {
        ImguiMouseCursor::Arrow => CursorIcon::Default,
        ImguiMouseCursor::TextInput => CursorIcon::Text,
        ImguiMouseCursor::ResizeAll => CursorIcon::Move,
        ImguiMouseCursor::ResizeNS => CursorIcon::NsResize,
        ImguiMouseCursor::ResizeEW => CursorIcon::EwResize,
        ImguiMouseCursor::ResizeNESW => CursorIcon::NeswResize,
        ImguiMouseCursor::ResizeNWSE => CursorIcon::NwseResize,
        ImguiMouseCursor::Hand => CursorIcon::Hand,
        ImguiMouseCursor::NotAllowed => CursorIcon::NotAllowed,
    }
}

} // verus!
