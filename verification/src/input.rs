//! Keyboard and pointer input of the GUI layer, translated into the
//! terminal-style events that the embedded text editor consumes.

use vstd::prelude::*;

verus! {

/// A logical key of the GUI toolkit.
#[derive(Debug, Clone, Copy, PartialEq, Eq, Structural)]
pub enum Key {
    ArrowDown,
    ArrowLeft,
    ArrowRight,
    ArrowUp,
    Escape,
    Tab,
    Backspace,
    Enter,
    Space,
    Insert,
    Delete,
    Home,
    End,
    PageUp,
    PageDown,
    Copy,
    Cut,
    Paste,
    Colon,
    Comma,
    Backslash,
    Slash,
    Pipe,
    Questionmark,
    OpenBracket,
    CloseBracket,
    Backtick,
    Minus,
    Period,
    Plus,
    Equals,
    Semicolon,
    Quote,
    Num0,
    Num1,
    Num2,
    Num3,
    Num4,
    Num5,
    Num6,
    Num7,
    Num8,
    Num9,
    A,
    B,
    C,
    D,
    E,
    F,
    G,
    H,
    I,
    J,
    K,
    L,
    M,
    N,
    O,
    P,
    Q,
    R,
    S,
    T,
    U,
    V,
    W,
    X,
    Y,
    Z,
    F1,
    F2,
    F3,
    F4,
    F5,
    F6,
    F7,
    F8,
    F9,
    F10,
    F11,
    F12,
    F13,
    F14,
    F15,
    F16,
    F17,
    F18,
    F19,
    F20,
    F21,
    F22,
    F23,
    F24,
    F25,
    F26,
    F27,
    F28,
    F29,
    F30,
    F31,
    F32,
    F33,
    F34,
    F35,
}

/// Modifier keys held down while a key was pressed, as the GUI toolkit reports them.
#[derive(Debug, Clone, Copy, PartialEq, Eq, Structural)]
pub struct Modifiers {
    pub alt: bool,
    pub ctrl: bool,
    pub shift: bool,
    /// The Mac "Command" key.
    pub mac_cmd: bool,
    /// The platform's command key ("Ctrl" elsewhere, "Cmd" on Mac).
    pub command: bool,
}

impl Modifiers {
    /// No modifier held.
    pub fn none() -> (r: Modifiers)
        ensures
            !r.alt && !r.ctrl && !r.shift && !r.mac_cmd && !r.command,
    {
        Modifiers { alt: false, ctrl: false, shift: false, mac_cmd: false, command: false }
    }
}

/// A mouse button of the GUI toolkit.
#[derive(Debug, Clone, Copy, PartialEq, Eq, Structural)]
pub enum PointerButton {
    Primary,
    Secondary,
    Middle,
    Extra1,
    Extra2,
}

/// A key as the terminal editor understands it.
#[derive(Debug, Clone, Copy, PartialEq, Eq, Structural)]
pub enum KeyCode {
    Backspace,
    Enter,
    Left,
    Right,
    Up,
    Down,
    Home,
    End,
    PageUp,
    PageDown,
    Tab,
    Delete,
    Insert,
    /// Function key `F(n)`, numbered from 1.
    F(u8),
    Char(char),
    Esc,
}

/// Terminal modifier flags, one bit each.
#[derive(Debug, Clone, Copy, PartialEq, Eq, Structural)]
pub struct KeyModifiers {
    pub bits: u8,
}

impl KeyModifiers {
    /// No flag set.
    pub fn none() -> (r: KeyModifiers)
        ensures
            r.bits == 0,
    {
        KeyModifiers { bits: 0 }
    }

    /// The shift flag alone.
    pub fn shift() -> (r: KeyModifiers)
        ensures
            r.bits == 1,
    {
        KeyModifiers { bits: 1 }
    }

    /// The control flag alone.
    pub fn control() -> (r: KeyModifiers)
        ensures
            r.bits == 2,
    {
        KeyModifiers { bits: 2 }
    }

    /// The alt flag alone.
    pub fn alt() -> (r: KeyModifiers)
        ensures
            r.bits == 4,
    {
        KeyModifiers { bits: 4 }
    }

    /// Whether every flag of `other` is set in `self`.
    pub fn contains(&self, other: KeyModifiers) -> (r: bool)
        ensures
            r == (self.bits & other.bits == other.bits),
    {
        self.bits & other.bits == other.bits
    }
}

/// A terminal mouse button.
#[derive(Debug, Clone, Copy, PartialEq, Eq, Structural)]
pub enum MouseButton {
    Left,
    Right,
    Middle,
}

/// What a terminal mouse event reports.
#[derive(Debug, Clone, Copy, PartialEq, Eq, Structural)]
pub enum MouseEventKind {
    Down(MouseButton),
    ScrollDown,
    ScrollUp,
}

/// A terminal mouse event at a cell position.
#[derive(Debug, Clone, Copy, PartialEq, Eq, Structural)]
pub struct MouseEvent {
    pub kind: MouseEventKind,
    pub column: u16,
    pub row: u16,
    pub modifiers: KeyModifiers,
}

/// The character a key types when the toolkit reports no text for it:
/// space, punctuation, digits, and letters in lower case.
pub open spec fn typed_char(key: Key) -> Option<char> {
    match key {
        Key::Space => Some(' '),
        Key::Colon => Some(':'),
        Key::Comma => Some(','),
        Key::Backslash => Some('\\'),
        Key::Slash => Some('/'),
        Key::Pipe => Some('|'),
        Key::Questionmark => Some('?'),
        Key::OpenBracket => Some('['),
        Key::CloseBracket => Some(']'),
        Key::Backtick => Some('`'),
        Key::Minus => Some('-'),
        Key::Period => Some('.'),
        Key::Plus => Some('+'),
        Key::Equals => Some('='),
        Key::Semicolon => Some(';'),
        Key::Quote => Some('\''),
        Key::Num0 => Some('0'),
        Key::Num1 => Some('1'),
        Key::Num2 => Some('2'),
        Key::Num3 => Some('3'),
        Key::Num4 => Some('4'),
        Key::Num5 => Some('5'),
        Key::Num6 => Some('6'),
        Key::Num7 => Some('7'),
        Key::Num8 => Some('8'),
        Key::Num9 => Some('9'),
        Key::A => Some('a'),
        Key::B => Some('b'),
        Key::C => Some('c'),
        Key::D => Some('d'),
        Key::E => Some('e'),
        Key::F => Some('f'),
        Key::G => Some('g'),
        Key::H => Some('h'),
        Key::I => Some('i'),
        Key::J => Some('j'),
        Key::K => Some('k'),
        Key::L => Some('l'),
        Key::M => Some('m'),
        Key::N => Some('n'),
        Key::O => Some('o'),
        Key::P => Some('p'),
        Key::Q => Some('q'),
        Key::R => Some('r'),
        Key::S => Some('s'),
        Key::T => Some('t'),
        Key::U => Some('u'),
        Key::V => Some('v'),
        Key::W => Some('w'),
        Key::X => Some('x'),
        Key::Y => Some('y'),
        Key::Z => Some('z'),
        _ => None,
    }
}

/// The number of a function key.
pub open spec fn function_number(key: Key) -> Option<u8> {
    match key {
        Key::F1 => Some(1u8),
        Key::F2 => Some(2u8),
        Key::F3 => Some(3u8),
        Key::F4 => Some(4u8),
        Key::F5 => Some(5u8),
        Key::F6 => Some(6u8),
        Key::F7 => Some(7u8),
        Key::F8 => Some(8u8),
        Key::F9 => Some(9u8),
        Key::F10 => Some(10u8),
        Key::F11 => Some(11u8),
        Key::F12 => Some(12u8),
        Key::F13 => Some(13u8),
        Key::F14 => Some(14u8),
        Key::F15 => Some(15u8),
        Key::F16 => Some(16u8),
        Key::F17 => Some(17u8),
        Key::F18 => Some(18u8),
        Key::F19 => Some(19u8),
        Key::F20 => Some(20u8),
        Key::F21 => Some(21u8),
        Key::F22 => Some(22u8),
        Key::F23 => Some(23u8),
        Key::F24 => Some(24u8),
        Key::F25 => Some(25u8),
        Key::F26 => Some(26u8),
        Key::F27 => Some(27u8),
        Key::F28 => Some(28u8),
        Key::F29 => Some(29u8),
        Key::F30 => Some(30u8),
        Key::F31 => Some(31u8),
        Key::F32 => Some(32u8),
        Key::F33 => Some(33u8),
        Key::F34 => Some(34u8),
        Key::F35 => Some(35u8),
        _ => None,
    }
}

/// The fixed terminal key of the navigation, editing and clipboard keys.
/// The clipboard keys become the letters of their usual shortcuts.
pub open spec fn command_code(key: Key) -> Option<KeyCode> {
    match key {
        Key::ArrowDown => Some(KeyCode::Down),
        Key::ArrowUp => Some(KeyCode::Up),
        Key::ArrowLeft => Some(KeyCode::Left),
        Key::ArrowRight => Some(KeyCode::Right),
        Key::Escape => Some(KeyCode::Esc),
        Key::Tab => Some(KeyCode::Tab),
        Key::Backspace => Some(KeyCode::Backspace),
        Key::Enter => Some(KeyCode::Enter),
        Key::Insert => Some(KeyCode::Insert),
        Key::Delete => Some(KeyCode::Delete),
        Key::Home => Some(KeyCode::Home),
        Key::End => Some(KeyCode::End),
        Key::PageUp => Some(KeyCode::PageUp),
        Key::PageDown => Some(KeyCode::PageDown),
        Key::Copy => Some(KeyCode::Char('c')),
        Key::Cut => Some(KeyCode::Char('x')),
        Key::Paste => Some(KeyCode::Char('v')),
        _ => None,
    }
}

/// The terminal key for `key`: a typing key yields the toolkit's text
/// character when there is one and its own character otherwise; a function key
/// yields its number; every other key has a fixed code.
pub open spec fn keycode_spec(key: Key, text_char: Option<char>) -> KeyCode {
    match typed_char(key) {
        Some(default) => KeyCode::Char(text_char.unwrap_or(default)),
        None => match function_number(key) {
            Some(n) => KeyCode::F(n),
            None => command_code(key).unwrap(),
        },
    }
}

/// The modifier bits for `m`: CONTROL for ctrl, command or mac_cmd,
/// SHIFT for shift, ALT for alt.
pub open spec fn modifier_bits(m: Modifiers) -> u8 {
    ((if m.ctrl || m.command || m.mac_cmd { 2int } else { 0int })
        + (if m.shift { 1int } else { 0int })
        + (if m.alt { 4int } else { 0int })) as u8
}

/// Every key falls in exactly one class: a typing key, a function key, or a
/// key with a fixed terminal code.
pub proof fn lemma_key_classes_partition(key: Key)
    ensures
        typed_char(key) is Some || function_number(key) is Some || command_code(key) is Some,
        !(typed_char(key) is Some && function_number(key) is Some),
        !(typed_char(key) is Some && command_code(key) is Some),
        !(function_number(key) is Some && command_code(key) is Some),
{
}

/// The text character reported with a key press only matters for typing
/// keys: every other key translates to the same terminal key whatever text
/// came with it.
pub proof fn lemma_text_char_only_for_typing_keys(key: Key, t1: Option<char>, t2: Option<char>)
    requires
        typed_char(key) is None,
    ensures
        keycode_spec(key, t1) == keycode_spec(key, t2),
{
}

/// For a typing key, the reported text character takes precedence over the
/// key's own character; without one, no key falls back to an upper-case letter.
pub proof fn lemma_typing_keys(key: Key, c: char)
    requires
        typed_char(key) is Some,
    ensures
        keycode_spec(key, Some(c)) == KeyCode::Char(c),
        keycode_spec(key, None) == KeyCode::Char(typed_char(key).unwrap()),
        !('A' <= typed_char(key).unwrap() <= 'Z'),
{
}

/// Function keys keep their number, which lies between 1 and 35.
pub proof fn lemma_function_keys(key: Key, t: Option<char>)
    requires
        function_number(key) is Some,
    ensures
        keycode_spec(key, t) == KeyCode::F(function_number(key).unwrap()),
        1 <= function_number(key).unwrap() <= 35,
{
}

/// Each terminal modifier flag is set exactly when its toolkit modifiers are
/// held: CONTROL for ctrl, command or mac_cmd; SHIFT for shift; ALT for alt;
/// and no other flag is ever set.
pub proof fn lemma_modifier_flags(m: Modifiers)
    ensures
        (modifier_bits(m) & 2u8 == 2u8) <==> (m.ctrl || m.command || m.mac_cmd),
        (modifier_bits(m) & 1u8 == 1u8) <==> m.shift,
        (modifier_bits(m) & 4u8 == 4u8) <==> m.alt,
        modifier_bits(m) & 0xf8u8 == 0u8,
{
    let c: u8 = if m.ctrl || m.command || m.mac_cmd { 2 } else { 0 };
    let s: u8 = if m.shift { 1 } else { 0 };
    let a: u8 = if m.alt { 4 } else { 0 };
    assert(modifier_bits(m) == c + s + a);
    assert(((c + s + a) as u8 & 2u8 == 2u8) <==> c == 2u8) by (bit_vector)
        requires
            c == 0u8 || c == 2u8,
            s == 0u8 || s == 1u8,
            a == 0u8 || a == 4u8,
    ;
    assert(((c + s + a) as u8 & 1u8 == 1u8) <==> s == 1u8) by (bit_vector)
        requires
            c == 0u8 || c == 2u8,
            s == 0u8 || s == 1u8,
            a == 0u8 || a == 4u8,
    ;
    assert(((c + s + a) as u8 & 4u8 == 4u8) <==> a == 4u8) by (bit_vector)
        requires
            c == 0u8 || c == 2u8,
            s == 0u8 || s == 1u8,
            a == 0u8 || a == 4u8,
    ;
    assert((c + s + a) as u8 & 0xf8u8 == 0u8) by (bit_vector)
        requires
            c == 0u8 || c == 2u8,
            s == 0u8 || s == 1u8,
            a == 0u8 || a == 4u8,
    ;
}

/// Without a text character, every typing key yields its own character:
/// each letter key its letter in lower case, each digit key its digit, and
/// space and each punctuation key the character printed on it.
pub proof fn lemma_typing_key_characters()
    ensures
        keycode_spec(Key::Space, None) == KeyCode::Char(' '),
        keycode_spec(Key::Colon, None) == KeyCode::Char(':'),
        keycode_spec(Key::Comma, None) == KeyCode::Char(','),
        keycode_spec(Key::Backslash, None) == KeyCode::Char('\\'),
        keycode_spec(Key::Slash, None) == KeyCode::Char('/'),
        keycode_spec(Key::Pipe, None) == KeyCode::Char('|'),
        keycode_spec(Key::Questionmark, None) == KeyCode::Char('?'),
        keycode_spec(Key::OpenBracket, None) == KeyCode::Char('['),
        keycode_spec(Key::CloseBracket, None) == KeyCode::Char(']'),
        keycode_spec(Key::Backtick, None) == KeyCode::Char('`'),
        keycode_spec(Key::Minus, None) == KeyCode::Char('-'),
        keycode_spec(Key::Period, None) == KeyCode::Char('.'),
        keycode_spec(Key::Plus, None) == KeyCode::Char('+'),
        keycode_spec(Key::Equals, None) == KeyCode::Char('='),
        keycode_spec(Key::Semicolon, None) == KeyCode::Char(';'),
        keycode_spec(Key::Quote, None) == KeyCode::Char('\''),
        keycode_spec(Key::Num0, None) == KeyCode::Char('0'),
        keycode_spec(Key::Num1, None) == KeyCode::Char('1'),
        keycode_spec(Key::Num2, None) == KeyCode::Char('2'),
        keycode_spec(Key::Num3, None) == KeyCode::Char('3'),
        keycode_spec(Key::Num4, None) == KeyCode::Char('4'),
        keycode_spec(Key::Num5, None) == KeyCode::Char('5'),
        keycode_spec(Key::Num6, None) == KeyCode::Char('6'),
        keycode_spec(Key::Num7, None) == KeyCode::Char('7'),
        keycode_spec(Key::Num8, None) == KeyCode::Char('8'),
        keycode_spec(Key::Num9, None) == KeyCode::Char('9'),
        keycode_spec(Key::A, None) == KeyCode::Char('a'),
        keycode_spec(Key::B, None) == KeyCode::Char('b'),
        keycode_spec(Key::C, None) == KeyCode::Char('c'),
        keycode_spec(Key::D, None) == KeyCode::Char('d'),
        keycode_spec(Key::E, None) == KeyCode::Char('e'),
        keycode_spec(Key::F, None) == KeyCode::Char('f'),
        keycode_spec(Key::G, None) == KeyCode::Char('g'),
        keycode_spec(Key::H, None) == KeyCode::Char('h'),
        keycode_spec(Key::I, None) == KeyCode::Char('i'),
        keycode_spec(Key::J, None) == KeyCode::Char('j'),
        keycode_spec(Key::K, None) == KeyCode::Char('k'),
        keycode_spec(Key::L, None) == KeyCode::Char('l'),
        keycode_spec(Key::M, None) == KeyCode::Char('m'),
        keycode_spec(Key::N, None) == KeyCode::Char('n'),
        keycode_spec(Key::O, None) == KeyCode::Char('o'),
        keycode_spec(Key::P, None) == KeyCode::Char('p'),
        keycode_spec(Key::Q, None) == KeyCode::Char('q'),
        keycode_spec(Key::R, None) == KeyCode::Char('r'),
        keycode_spec(Key::S, None) == KeyCode::Char('s'),
        keycode_spec(Key::T, None) == KeyCode::Char('t'),
        keycode_spec(Key::U, None) == KeyCode::Char('u'),
        keycode_spec(Key::V, None) == KeyCode::Char('v'),
        keycode_spec(Key::W, None) == KeyCode::Char('w'),
        keycode_spec(Key::X, None) == KeyCode::Char('x'),
        keycode_spec(Key::Y, None) == KeyCode::Char('y'),
        keycode_spec(Key::Z, None) == KeyCode::Char('z'),
{
}

/// Function key F<n> yields the terminal function key n, whatever text came
/// with it.
pub proof fn lemma_function_key_numbers(t: Option<char>)
    ensures
        keycode_spec(Key::F1, t) == KeyCode::F(1),
        keycode_spec(Key::F2, t) == KeyCode::F(2),
        keycode_spec(Key::F3, t) == KeyCode::F(3),
        keycode_spec(Key::F4, t) == KeyCode::F(4),
        keycode_spec(Key::F5, t) == KeyCode::F(5),
        keycode_spec(Key::F6, t) == KeyCode::F(6),
        keycode_spec(Key::F7, t) == KeyCode::F(7),
        keycode_spec(Key::F8, t) == KeyCode::F(8),
        keycode_spec(Key::F9, t) == KeyCode::F(9),
        keycode_spec(Key::F10, t) == KeyCode::F(10),
        keycode_spec(Key::F11, t) == KeyCode::F(11),
        keycode_spec(Key::F12, t) == KeyCode::F(12),
        keycode_spec(Key::F13, t) == KeyCode::F(13),
        keycode_spec(Key::F14, t) == KeyCode::F(14),
        keycode_spec(Key::F15, t) == KeyCode::F(15),
        keycode_spec(Key::F16, t) == KeyCode::F(16),
        keycode_spec(Key::F17, t) == KeyCode::F(17),
        keycode_spec(Key::F18, t) == KeyCode::F(18),
        keycode_spec(Key::F19, t) == KeyCode::F(19),
        keycode_spec(Key::F20, t) == KeyCode::F(20),
        keycode_spec(Key::F21, t) == KeyCode::F(21),
        keycode_spec(Key::F22, t) == KeyCode::F(22),
        keycode_spec(Key::F23, t) == KeyCode::F(23),
        keycode_spec(Key::F24, t) == KeyCode::F(24),
        keycode_spec(Key::F25, t) == KeyCode::F(25),
        keycode_spec(Key::F26, t) == KeyCode::F(26),
        keycode_spec(Key::F27, t) == KeyCode::F(27),
        keycode_spec(Key::F28, t) == KeyCode::F(28),
        keycode_spec(Key::F29, t) == KeyCode::F(29),
        keycode_spec(Key::F30, t) == KeyCode::F(30),
        keycode_spec(Key::F31, t) == KeyCode::F(31),
        keycode_spec(Key::F32, t) == KeyCode::F(32),
        keycode_spec(Key::F33, t) == KeyCode::F(33),
        keycode_spec(Key::F34, t) == KeyCode::F(34),
        keycode_spec(Key::F35, t) == KeyCode::F(35),
{
}

/// The navigation and editing keys yield the terminal key of the same name,
/// and the clipboard keys the letters of their shortcuts (Copy 'c', Cut 'x',
/// Paste 'v'), whatever text came with them.
pub proof fn lemma_command_key_codes(t: Option<char>)
    ensures
        keycode_spec(Key::ArrowDown, t) == KeyCode::Down,
        keycode_spec(Key::ArrowUp, t) == KeyCode::Up,
        keycode_spec(Key::ArrowLeft, t) == KeyCode::Left,
        keycode_spec(Key::ArrowRight, t) == KeyCode::Right,
        keycode_spec(Key::Escape, t) == KeyCode::Esc,
        keycode_spec(Key::Tab, t) == KeyCode::Tab,
        keycode_spec(Key::Backspace, t) == KeyCode::Backspace,
        keycode_spec(Key::Enter, t) == KeyCode::Enter,
        keycode_spec(Key::Insert, t) == KeyCode::Insert,
        keycode_spec(Key::Delete, t) == KeyCode::Delete,
        keycode_spec(Key::Home, t) == KeyCode::Home,
        keycode_spec(Key::End, t) == KeyCode::End,
        keycode_spec(Key::PageUp, t) == KeyCode::PageUp,
        keycode_spec(Key::PageDown, t) == KeyCode::PageDown,
        keycode_spec(Key::Copy, t) == KeyCode::Char('c'),
        keycode_spec(Key::Cut, t) == KeyCode::Char('x'),
        keycode_spec(Key::Paste, t) == KeyCode::Char('v'),
{
}

/// Translate a key and its modifiers into the terminal key and modifier flags.
///
/// `text_char` is the character the key press produced, when known; for
/// typing keys it takes precedence over the key's own character.
pub fn translate_key(key: Key, modifiers: Modifiers, text_char: Option<char>) -> (r: (KeyCode, KeyModifiers))
    ensures
        r.0 == keycode_spec(key, text_char),
        r.1.bits == modifier_bits(modifiers),
{
    let code = translate_keycode(key, text_char);
    let mods = translate_modifiers(modifiers);
    (code, mods)
}

/// Translate the toolkit's modifiers into terminal modifier flags.
pub fn translate_modifiers(m: Modifiers) -> (r: KeyModifiers)
    ensures
        r.bits == modifier_bits(m),
{
    let mut bits: u8 = 0;
    if m.ctrl || m.command || m.mac_cmd {
        bits = bits + 2;
    }
    if m.shift {
        bits = bits + 1;
    }
    if m.alt {
        bits = bits + 4;
    }
    KeyModifiers { bits }
}

/// The terminal button for a toolkit button; the extra buttons fall back to
/// the left one, since a terminal knows three buttons only.
pub open spec fn button_spec(button: PointerButton) -> MouseButton {
    match button {
        PointerButton::Primary => MouseButton::Left,
        PointerButton::Secondary => MouseButton::Right,
        PointerButton::Middle => MouseButton::Middle,
        _ => MouseButton::Left,
    }
}

/// The primary, secondary and middle buttons press the terminal's left,
/// right and middle buttons, three different ones; both extra buttons press
/// the left one.
pub proof fn lemma_pointer_buttons(button: PointerButton)
    ensures
        button_spec(PointerButton::Primary) == MouseButton::Left,
        button_spec(PointerButton::Secondary) == MouseButton::Right,
        button_spec(PointerButton::Middle) == MouseButton::Middle,
        button_spec(PointerButton::Extra1) == MouseButton::Left,
        button_spec(PointerButton::Extra2) == MouseButton::Left,
        button_spec(button) == MouseButton::Right <==> button == PointerButton::Secondary,
        button_spec(button) == MouseButton::Middle <==> button == PointerButton::Middle,
{
}

/// Translate a mouse click at a cell into a terminal button-down event.
pub fn translate_mouse_click(button: PointerButton, col: u16, row: u16) -> (r: MouseEvent)
    ensures
        r.kind == MouseEventKind::Down(button_spec(button)),
        r.column == col,
        r.row == row,
        r.modifiers.bits == 0,
{
    let mouse_button = match button {
        PointerButton::Primary => MouseButton::Left,
        PointerButton::Secondary => MouseButton::Right,
        PointerButton::Middle => MouseButton::Middle,
        _ => MouseButton::Left,
    };
    MouseEvent { kind: MouseEventKind::Down(mouse_button), column: col, row, modifiers: KeyModifiers { bits: 0 } }
}

/// Translate a wheel movement into a terminal scroll event.
///
/// `delta_positive` says whether the vertical wheel delta is greater than
/// zero: a positive delta scrolls up, a negative or zero one scrolls down.
pub fn translate_scroll(delta_positive: bool, col: u16, row: u16) -> (r: MouseEvent)
    ensures
        r.kind == (if delta_positive { MouseEventKind::ScrollUp } else { MouseEventKind::ScrollDown }),
        r.column == col,
        r.row == row,
        r.modifiers.bits == 0,
{
    let kind = if delta_positive {
        MouseEventKind::ScrollUp
    } else {
        MouseEventKind::ScrollDown
    };
    MouseEvent { kind, column: col, row, modifiers: KeyModifiers { bits: 0 } }
}

/// Translate a key into a terminal key, using `text_char` when available.
pub fn translate_keycode(key: Key, text_char: Option<char>) -> (r: KeyCode)
    ensures
        r == keycode_spec(key, text_char),
{
    match key {
        Key::ArrowDown => KeyCode::Down,
        Key::ArrowUp => KeyCode::Up,
        Key::ArrowLeft => KeyCode::Left,
        Key::ArrowRight => KeyCode::Right,
        Key::Escape => KeyCode::Esc,
        Key::Tab => KeyCode::Tab,
        Key::Backspace => KeyCode::Backspace,
        Key::Enter => KeyCode::Enter,
        Key::Insert => KeyCode::Insert,
        Key::Delete => KeyCode::Delete,
        Key::Home => KeyCode::Home,
        Key::End => KeyCode::End,
        Key::PageUp => KeyCode::PageUp,
        Key::PageDown => KeyCode::PageDown,
        Key::Space => KeyCode::Char(text_char.unwrap_or(' ')),
        Key::Colon => KeyCode::Char(text_char.unwrap_or(':')),
        Key::Comma => KeyCode::Char(text_char.unwrap_or(',')),
        Key::Backslash => KeyCode::Char(text_char.unwrap_or('\\')),
        Key::Slash => KeyCode::Char(text_char.unwrap_or('/')),
        Key::Pipe => KeyCode::Char(text_char.unwrap_or('|')),
        Key::Questionmark => KeyCode::Char(text_char.unwrap_or('?')),
        Key::OpenBracket => KeyCode::Char(text_char.unwrap_or('[')),
        Key::CloseBracket => KeyCode::Char(text_char.unwrap_or(']')),
        Key::Backtick => KeyCode::Char(text_char.unwrap_or('`')),
        Key::Minus => KeyCode::Char(text_char.unwrap_or('-')),
        Key::Period => KeyCode::Char(text_char.unwrap_or('.')),
        Key::Plus => KeyCode::Char(text_char.unwrap_or('+')),
        Key::Equals => KeyCode::Char(text_char.unwrap_or('=')),
        Key::Semicolon => KeyCode::Char(text_char.unwrap_or(';')),
        Key::Quote => KeyCode::Char(text_char.unwrap_or('\'')),
        Key::Num0 => KeyCode::Char(text_char.unwrap_or('0')),
        Key::Num1 => KeyCode::Char(text_char.unwrap_or('1')),
        Key::Num2 => KeyCode::Char(text_char.unwrap_or('2')),
        Key::Num3 => KeyCode::Char(text_char.unwrap_or('3')),
        Key::Num4 => KeyCode::Char(text_char.unwrap_or('4')),
        Key::Num5 => KeyCode::Char(text_char.unwrap_or('5')),
        Key::Num6 => KeyCode::Char(text_char.unwrap_or('6')),
        Key::Num7 => KeyCode::Char(text_char.unwrap_or('7')),
        Key::Num8 => KeyCode::Char(text_char.unwrap_or('8')),
        Key::Num9 => KeyCode::Char(text_char.unwrap_or('9')),
        Key::A => KeyCode::Char(text_char.unwrap_or('a')),
        Key::B => KeyCode::Char(text_char.unwrap_or('b')),
        Key::C => KeyCode::Char(text_char.unwrap_or('c')),
        Key::D => KeyCode::Char(text_char.unwrap_or('d')),
        Key::E => KeyCode::Char(text_char.unwrap_or('e')),
        Key::F => KeyCode::Char(text_char.unwrap_or('f')),
        Key::G => KeyCode::Char(text_char.unwrap_or('g')),
        Key::H => KeyCode::Char(text_char.unwrap_or('h')),
        Key::I => KeyCode::Char(text_char.unwrap_or('i')),
        Key::J => KeyCode::Char(text_char.unwrap_or('j')),
        Key::K => KeyCode::Char(text_char.unwrap_or('k')),
        Key::L => KeyCode::Char(text_char.unwrap_or('l')),
        Key::M => KeyCode::Char(text_char.unwrap_or('m')),
        Key::N => KeyCode::Char(text_char.unwrap_or('n')),
        Key::O => KeyCode::Char(text_char.unwrap_or('o')),
        Key::P => KeyCode::Char(text_char.unwrap_or('p')),
        Key::Q => KeyCode::Char(text_char.unwrap_or('q')),
        Key::R => KeyCode::Char(text_char.unwrap_or('r')),
        Key::S => KeyCode::Char(text_char.unwrap_or('s')),
        Key::T => KeyCode::Char(text_char.unwrap_or('t')),
        Key::U => KeyCode::Char(text_char.unwrap_or('u')),
        Key::V => KeyCode::Char(text_char.unwrap_or('v')),
        Key::W => KeyCode::Char(text_char.unwrap_or('w')),
        Key::X => KeyCode::Char(text_char.unwrap_or('x')),
        Key::Y => KeyCode::Char(text_char.unwrap_or('y')),
        Key::Z => KeyCode::Char(text_char.unwrap_or('z')),
        Key::F1 => KeyCode::F(1),
        Key::F2 => KeyCode::F(2),
        Key::F3 => KeyCode::F(3),
        Key::F4 => KeyCode::F(4),
        Key::F5 => KeyCode::F(5),
        Key::F6 => KeyCode::F(6),
        Key::F7 => KeyCode::F(7),
        Key::F8 => KeyCode::F(8),
        Key::F9 => KeyCode::F(9),
        Key::F10 => KeyCode::F(10),
        Key::F11 => KeyCode::F(11),
        Key::F12 => KeyCode::F(12),
        Key::F13 => KeyCode::F(13),
        Key::F14 => KeyCode::F(14),
        Key::F15 => KeyCode::F(15),
        Key::F16 => KeyCode::F(16),
        Key::F17 => KeyCode::F(17),
        Key::F18 => KeyCode::F(18),
        Key::F19 => KeyCode::F(19),
        Key::F20 => KeyCode::F(20),
        Key::F21 => KeyCode::F(21),
        Key::F22 => KeyCode::F(22),
        Key::F23 => KeyCode::F(23),
        Key::F24 => KeyCode::F(24),
        Key::F25 => KeyCode::F(25),
        Key::F26 => KeyCode::F(26),
        Key::F27 => KeyCode::F(27),
        Key::F28 => KeyCode::F(28),
        Key::F29 => KeyCode::F(29),
        Key::F30 => KeyCode::F(30),
        Key::F31 => KeyCode::F(31),
        Key::F32 => KeyCode::F(32),
        Key::F33 => KeyCode::F(33),
        Key::F34 => KeyCode::F(34),
        Key::F35 => KeyCode::F(35),
        Key::Copy => KeyCode::Char('c'),
        Key::Cut => KeyCode::Char('x'),
        Key::Paste => KeyCode::Char('v'),
    }
}

/// One input event of a frame, as far as pairing keys with text goes.
#[derive(Debug, Clone, Copy, PartialEq, Eq, Structural)]
pub enum FrameEvent {
    /// A key was pressed.
    KeyPressed,
    /// Text was typed; its first character, if it has one.
    Text(Option<char>),
    /// Anything else (key releases, pointer events, ...).
    Other,
}

/// The character of the first non-empty text event from position `j` on,
/// before the next key press.
pub open spec fn text_after(events: Seq<FrameEvent>, j: int) -> Option<char>
    decreases events.len() - j,
{
    if j < 0 || j >= events.len() {
        None
    } else {
        match events[j] {
            FrameEvent::KeyPressed => None,
            FrameEvent::Text(Some(c)) => Some(c),
            _ => text_after(events, j + 1),
        }
    }
}

/// The text character that goes with each event of a frame: for a key
/// press, the first character of the first non-empty text that follows it
/// before the next key press; for any other event, none.
pub fn key_text_chars(events: &Vec<FrameEvent>) -> (chars: Vec<Option<char>>)
    ensures
        chars@.len() == events@.len(),
        forall|i: int| 0 <= i < events@.len() ==> #[trigger] chars@[i] == (if events@[i] is KeyPressed {
            text_after(events@, i + 1)
        } else {
            None
        }),
{
    let n = events.len();
    let mut chars: Vec<Option<char>> = Vec::new();
    let mut i: usize = 0;
    while i < n
        invariant
            n == events@.len(),
            i <= n,
            chars@.len() == i,
            forall|k: int| 0 <= k < i ==> #[trigger] chars@[k] == (if events@[k] is KeyPressed {
                text_after(events@, k + 1)
            } else {
                None
            }),
        decreases n - i,
    {
        let mut found: Option<char> = None;
        if events[i] == FrameEvent::KeyPressed {
            let mut j: usize = i + 1;
            while j < n
                invariant_except_break
                    found is None,
                    text_after(events@, i + 1) == text_after(events@, j as int),
                invariant
                    n == events@.len(),
                    i < j <= n,
                ensures
                    found == text_after(events@, i + 1),
                decreases n - j,
            {
                match events[j] {
                    FrameEvent::KeyPressed => {
                        break;
                    },
                    FrameEvent::Text(Some(c)) => {
                        found = Some(c);
                        break;
                    },
                    _ => {},
                }
                j = j + 1;
            }
        }
        proof {
            if !(events@[i as int] is KeyPressed) {
                assert(found is None);
            }
        }
        chars.push(found);
        i = i + 1;
    }
    chars
}

/// The character paired with a key press was typed after that key and
/// before any other key press.
pub proof fn lemma_key_text_comes_after_key(events: Seq<FrameEvent>, i: int, j: int, c: char)
    requires
        0 <= i < j,
        text_after(events, j) == Some(c),
        forall|k: int| i < k < j ==> !(#[trigger] events[k] is KeyPressed),
    ensures
        exists|m: int| j <= m < events.len() && events[m] == FrameEvent::Text(Some(c))
            && forall|k: int| i < k < m ==> !(#[trigger] events[k] is KeyPressed),
    decreases events.len() - j,
{
    if events[j] == FrameEvent::Text(Some(c)) {
        assert(j <= j < events.len());
    } else {
        lemma_key_text_comes_after_key(events, i, j + 1, c);
    }
}

} // verus!
