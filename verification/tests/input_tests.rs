use freshview::input::{
    key_text_chars, translate_key, translate_modifiers, FrameEvent, translate_mouse_click, translate_scroll, Key, KeyCode,
    KeyModifiers, Modifiers, MouseButton, MouseEventKind, PointerButton,
};

#[test]
fn test_translate_simple_char() {
    let (code, mods) = translate_key(Key::A, Modifiers::none(), Some('a'));
    assert_eq!(code, KeyCode::Char('a'));
    assert_eq!(mods, KeyModifiers::none());
}

#[test]
fn test_translate_simple_char_uppercase() {
    let (code, mods) = translate_key(Key::A, Modifiers::none(), Some('A'));
    assert_eq!(code, KeyCode::Char('A'));
    assert_eq!(mods, KeyModifiers::none());
}

#[test]
fn test_translate_char_without_text_char() {
    // When no text_char provided, should fall back to lowercase
    let (code, _mods) = translate_key(Key::A, Modifiers::none(), None);
    assert_eq!(code, KeyCode::Char('a'));
}

#[test]
fn test_translate_ctrl_s() {
    let (code, mods) = translate_key(
        Key::S,
        Modifiers {
            alt: false,
            ctrl: true,
            shift: false,
            mac_cmd: false,
            command: true,
        },
        None,
    );
    assert_eq!(code, KeyCode::Char('s'));
    assert_eq!(mods, KeyModifiers::control());
}

#[test]
fn test_translate_enter() {
    let (code, mods) = translate_key(Key::Enter, Modifiers::none(), None);
    assert_eq!(code, KeyCode::Enter);
    assert_eq!(mods, KeyModifiers::none());
}

#[test]
fn test_translate_tab() {
    let (code, _) = translate_key(Key::Tab, Modifiers::none(), None);
    assert_eq!(code, KeyCode::Tab);
}

#[test]
fn test_translate_backspace() {
    let (code, _) = translate_key(Key::Backspace, Modifiers::none(), None);
    assert_eq!(code, KeyCode::Backspace);
}

#[test]
fn test_translate_delete() {
    let (code, _) = translate_key(Key::Delete, Modifiers::none(), None);
    assert_eq!(code, KeyCode::Delete);
}

#[test]
fn test_translate_escape() {
    let (code, _) = translate_key(Key::Escape, Modifiers::none(), None);
    assert_eq!(code, KeyCode::Esc);
}

#[test]
fn test_translate_home_end() {
    let (code, _) = translate_key(Key::Home, Modifiers::none(), None);
    assert_eq!(code, KeyCode::Home);
    let (code, _) = translate_key(Key::End, Modifiers::none(), None);
    assert_eq!(code, KeyCode::End);
}

#[test]
fn test_translate_page_up_down() {
    let (code, _) = translate_key(Key::PageUp, Modifiers::none(), None);
    assert_eq!(code, KeyCode::PageUp);
    let (code, _) = translate_key(Key::PageDown, Modifiers::none(), None);
    assert_eq!(code, KeyCode::PageDown);
}

#[test]
fn test_translate_space() {
    let (code, _) = translate_key(Key::Space, Modifiers::none(), Some(' '));
    assert_eq!(code, KeyCode::Char(' '));
}

#[test]
fn test_translate_arrow_keys() {
    let (code, _) = translate_key(Key::ArrowUp, Modifiers::none(), None);
    assert_eq!(code, KeyCode::Up);

    let (code, _) = translate_key(Key::ArrowDown, Modifiers::none(), None);
    assert_eq!(code, KeyCode::Down);

    let (code, _) = translate_key(Key::ArrowLeft, Modifiers::none(), None);
    assert_eq!(code, KeyCode::Left);

    let (code, _) = translate_key(Key::ArrowRight, Modifiers::none(), None);
    assert_eq!(code, KeyCode::Right);
}

#[test]
fn test_translate_function_keys() {
    let (code, _) = translate_key(Key::F1, Modifiers::none(), None);
    assert_eq!(code, KeyCode::F(1));

    let (code, _) = translate_key(Key::F12, Modifiers::none(), None);
    assert_eq!(code, KeyCode::F(12));

    let (code, _) = translate_key(Key::F5, Modifiers::none(), None);
    assert_eq!(code, KeyCode::F(5));
}

#[test]
fn test_translate_number_keys() {
    let (code, _) = translate_key(Key::Num0, Modifiers::none(), Some('0'));
    assert_eq!(code, KeyCode::Char('0'));

    let (code, _) = translate_key(Key::Num9, Modifiers::none(), Some('9'));
    assert_eq!(code, KeyCode::Char('9'));
}

#[test]
fn test_translate_punctuation() {
    let (code, _) = translate_key(Key::Minus, Modifiers::none(), Some('-'));
    assert_eq!(code, KeyCode::Char('-'));

    let (code, _) = translate_key(Key::Equals, Modifiers::none(), Some('='));
    assert_eq!(code, KeyCode::Char('='));

    let (code, _) = translate_key(Key::Comma, Modifiers::none(), Some(','));
    assert_eq!(code, KeyCode::Char(','));

    let (code, _) = translate_key(Key::Period, Modifiers::none(), Some('.'));
    assert_eq!(code, KeyCode::Char('.'));

    let (code, _) = translate_key(Key::Slash, Modifiers::none(), Some('/'));
    assert_eq!(code, KeyCode::Char('/'));

    let (code, _) = translate_key(Key::Semicolon, Modifiers::none(), Some(';'));
    assert_eq!(code, KeyCode::Char(';'));
}

#[test]
fn test_translate_insert() {
    let (code, _) = translate_key(Key::Insert, Modifiers::none(), None);
    assert_eq!(code, KeyCode::Insert);
}

#[test]
fn test_translate_modifiers_ctrl_shift() {
    let mods = translate_modifiers(Modifiers {
        alt: false,
        ctrl: true,
        shift: true,
        mac_cmd: false,
        command: true,
    });
    assert!(mods.contains(KeyModifiers::control()));
    assert!(mods.contains(KeyModifiers::shift()));
    assert!(!mods.contains(KeyModifiers::alt()));
}

#[test]
fn test_translate_modifiers_alt() {
    let mods = translate_modifiers(Modifiers {
        alt: true,
        ctrl: false,
        shift: false,
        mac_cmd: false,
        command: false,
    });
    assert_eq!(mods, KeyModifiers::alt());
}

#[test]
fn test_translate_modifiers_command_maps_to_control() {
    // macOS compat: command key maps to CONTROL for the terminal editor
    let mods = translate_modifiers(Modifiers {
        alt: false,
        ctrl: false,
        shift: false,
        mac_cmd: true,
        command: true,
    });
    assert!(mods.contains(KeyModifiers::control()));
}

#[test]
fn test_translate_modifiers_none() {
    let mods = translate_modifiers(Modifiers::none());
    assert_eq!(mods, KeyModifiers::none());
}

#[test]
fn test_translate_mouse_click_primary() {
    let event = translate_mouse_click(PointerButton::Primary, 10, 5);
    assert_eq!(event.kind, MouseEventKind::Down(MouseButton::Left));
    assert_eq!(event.column, 10);
    assert_eq!(event.row, 5);
}

#[test]
fn test_translate_mouse_click_secondary() {
    let event = translate_mouse_click(PointerButton::Secondary, 3, 7);
    assert_eq!(event.kind, MouseEventKind::Down(MouseButton::Right));
    assert_eq!(event.column, 3);
    assert_eq!(event.row, 7);
}

#[test]
fn test_translate_mouse_click_middle() {
    let event = translate_mouse_click(PointerButton::Middle, 0, 0);
    assert_eq!(event.kind, MouseEventKind::Down(MouseButton::Middle));
}

#[test]
fn test_translate_scroll_up() {
    let delta_y: f32 = 1.0;
    let event = translate_scroll(delta_y > 0.0, 5, 10);
    assert_eq!(event.kind, MouseEventKind::ScrollUp);
    assert_eq!(event.column, 5);
    assert_eq!(event.row, 10);
}

#[test]
fn test_translate_scroll_down() {
    let delta_y: f32 = -1.0;
    let event = translate_scroll(delta_y > 0.0, 5, 10);
    assert_eq!(event.kind, MouseEventKind::ScrollDown);
    assert_eq!(event.column, 5);
    assert_eq!(event.row, 10);
}

#[test]
fn test_translate_scroll_zero_defaults_to_down() {
    // Edge case: zero delta defaults to ScrollDown
    let delta_y: f32 = 0.0;
    let event = translate_scroll(delta_y > 0.0, 0, 0);
    assert_eq!(event.kind, MouseEventKind::ScrollDown);
}

// Further cases: clipboard keys, defaults, extra buttons.

#[test]
fn test_clipboard_keys_ignore_text() {
    assert_eq!(translate_key(Key::Copy, Modifiers::none(), Some('z')).0, KeyCode::Char('c'));
    assert_eq!(translate_key(Key::Cut, Modifiers::none(), None).0, KeyCode::Char('x'));
    assert_eq!(translate_key(Key::Paste, Modifiers::none(), None).0, KeyCode::Char('v'));
}

#[test]
fn test_non_typing_keys_ignore_text_char() {
    assert_eq!(translate_key(Key::Enter, Modifiers::none(), Some('x')).0, KeyCode::Enter);
    assert_eq!(translate_key(Key::F35, Modifiers::none(), Some('x')).0, KeyCode::F(35));
}

#[test]
fn test_punctuation_defaults() {
    assert_eq!(translate_key(Key::Backslash, Modifiers::none(), None).0, KeyCode::Char('\\'));
    assert_eq!(translate_key(Key::Quote, Modifiers::none(), None).0, KeyCode::Char('\''));
    assert_eq!(translate_key(Key::Questionmark, Modifiers::none(), None).0, KeyCode::Char('?'));
    assert_eq!(translate_key(Key::Z, Modifiers::none(), None).0, KeyCode::Char('z'));
}

#[test]
fn test_all_modifiers_bits() {
    let mods = translate_modifiers(Modifiers { alt: true, ctrl: true, shift: true, mac_cmd: false, command: false });
    assert_eq!(mods.bits, 0b111);
    assert!(mods.contains(KeyModifiers::alt()));
}

#[test]
fn test_extra_buttons_fall_back_to_left() {
    let event = translate_mouse_click(PointerButton::Extra2, 1, 2);
    assert_eq!(event.kind, MouseEventKind::Down(MouseButton::Left));
    assert_eq!(event.modifiers, KeyModifiers::none());
}

#[test]
fn test_key_text_chars_pairing() {
    let events = vec![
        FrameEvent::KeyPressed,
        FrameEvent::Text(Some('H')),
        FrameEvent::KeyPressed,
        FrameEvent::Other,
        FrameEvent::Text(None),
        FrameEvent::Text(Some('i')),
        FrameEvent::KeyPressed,
        FrameEvent::Other,
    ];
    assert_eq!(
        key_text_chars(&events),
        vec![Some('H'), None, Some('i'), None, None, None, None, None]
    );
    assert_eq!(key_text_chars(&vec![FrameEvent::Text(Some('a')), FrameEvent::KeyPressed]), vec![None, None]);
    assert_eq!(key_text_chars(&vec![]), vec![]);
}
