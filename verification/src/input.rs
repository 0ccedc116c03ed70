//! Input event models shared by host and viewer, and the mapping of
//! viewer keys to Windows virtual-key codes.
use vstd::prelude::*;

verus! {

/// A mouse button.
#[derive(Debug, Clone, Copy, PartialEq, Eq, Structural)]
pub enum MouseButton {
    Left,
    Right,
    Middle,
}

/// A mouse button going down or up.
#[derive(Debug, Clone, Copy, PartialEq, Eq, Structural)]
pub struct MouseButtonEvent {
    pub button: MouseButton,
    pub is_down: bool,
}

/// A key going down or up. `vk_code` is a Windows virtual-key code;
/// `modifiers` holds flag bits 1 = Shift, 2 = Ctrl, 4 = Alt, 8 = Win.
#[derive(Debug, Clone, Copy, PartialEq, Eq, Structural)]
pub struct KeyboardEvent {
    pub vk_code: u16,
    pub is_down: bool,
    pub modifiers: u8,
}

/// Keys the viewer forwards to the host; `Other` stands for every key that
/// has no virtual-key code here.
#[derive(Debug, Clone, Copy, PartialEq, Eq, Structural)]
pub enum Key {
    Enter,
    Backspace,
    Tab,
    Escape,
    Space,
    ArrowLeft,
    ArrowUp,
    ArrowRight,
    ArrowDown,
    A,
    B,
    C,
    D,
    E,
    F,
    G,
    H,
    I,
    J,
    K,
    L,
    M,
    N,
    O,
    P,
    Q,
    R,
    S,
    T,
    U,
    V,
    W,
    X,
    Y,
    Z,
    Num0,
    Num1,
    Num2,
    Num3,
    Num4,
    Num5,
    Num6,
    Num7,
    Num8,
    Num9,
    Other,
}

/// The character printed on a letter or digit key.
pub open spec fn key_glyph(key: Key) -> Option<char> {
    match key {
        Key::A => Some('A'),
        Key::B => Some('B'),
        Key::C => Some('C'),
        Key::D => Some('D'),
        Key::E => Some('E'),
        Key::F => Some('F'),
        Key::G => Some('G'),
        Key::H => Some('H'),
        Key::I => Some('I'),
        Key::J => Some('J'),
        Key::K => Some('K'),
        Key::L => Some('L'),
        Key::M => Some('M'),
        Key::N => Some('N'),
        Key::O => Some('O'),
        Key::P => Some('P'),
        Key::Q => Some('Q'),
        Key::R => Some('R'),
        Key::S => Some('S'),
        Key::T => Some('T'),
        Key::U => Some('U'),
        Key::V => Some('V'),
        Key::W => Some('W'),
        Key::X => Some('X'),
        Key::Y => Some('Y'),
        Key::Z => Some('Z'),
        Key::Num0 => Some('0'),
        Key::Num1 => Some('1'),
        Key::Num2 => Some('2'),
        Key::Num3 => Some('3'),
        Key::Num4 => Some('4'),
        Key::Num5 => Some('5'),
        Key::Num6 => Some('6'),
        Key::Num7 => Some('7'),
        Key::Num8 => Some('8'),
        Key::Num9 => Some('9'),
        _ => None,
    }
}

/// Virtual-key codes of the keys that print no character.
pub open spec fn control_key_code(key: Key) -> Option<u16> {
    match key {
        Key::Enter => Some(0x0Du16),
        Key::Backspace => Some(0x08u16),
        Key::Tab => Some(0x09u16),
        Key::Escape => Some(0x1Bu16),
        Key::Space => Some(0x20u16),
        Key::ArrowLeft => Some(0x25u16),
        Key::ArrowUp => Some(0x26u16),
        Key::ArrowRight => Some(0x27u16),
        Key::ArrowDown => Some(0x28u16),
        _ => None,
    }
}

/// The virtual-key code of `key`: a letter or digit key has the code of its
/// (upper-case) character, the control keys have theirs, any other key 0.
pub open spec fn vk_code(key: Key) -> u16 {
    match key_glyph(key) {
        Some(c) => c as u16,
        None => match control_key_code(key) {
            Some(code) => code,
            None => 0,
        },
    }
}

/// Maps a viewer key to the Windows virtual-key code sent to the host, or 0
/// for a key that is not forwarded.
pub fn map_key_to_vk(key: Key) -> (r: u16)
    ensures
        r == vk_code(key),
{
    match key {
        Key::Enter => 0x0D, // VK_RETURN
        Key::Backspace => 0x08, // VK_BACK
        Key::Tab => 0x09, // VK_TAB
        Key::Escape => 0x1B, // VK_ESCAPE
        Key::Space => 0x20, // VK_SPACE
        Key::ArrowLeft => 0x25, // VK_LEFT
        Key::ArrowUp => 0x26, // VK_UP
        Key::ArrowRight => 0x27, // VK_RIGHT
        Key::ArrowDown => 0x28, // VK_DOWN
        Key::A => 0x41,
        Key::B => 0x42,
        Key::C => 0x43,
        Key::D => 0x44,
        Key::E => 0x45,
        Key::F => 0x46,
        Key::G => 0x47,
        Key::H => 0x48,
        Key::I => 0x49,
        Key::J => 0x4A,
        Key::K => 0x4B,
        Key::L => 0x4C,
        Key::M => 0x4D,
        Key::N => 0x4E,
        Key::O => 0x4F,
        Key::P => 0x50,
        Key::Q => 0x51,
        Key::R => 0x52,
        Key::S => 0x53,
        Key::T => 0x54,
        Key::U => 0x55,
        Key::V => 0x56,
        Key::W => 0x57,
        Key::X => 0x58,
        Key::Y => 0x59,
        Key::Z => 0x5A,
        Key::Num0 => 0x30,
        Key::Num1 => 0x31,
        Key::Num2 => 0x32,
        Key::Num3 => 0x33,
        Key::Num4 => 0x34,
        Key::Num5 => 0x35,
        Key::Num6 => 0x36,
        Key::Num7 => 0x37,
        Key::Num8 => 0x38,
        Key::Num9 => 0x39,
        Key::Other => 0,
    }
}

/// The modifier flag bits of a key event: 1 = Shift, 2 = Ctrl, 4 = Alt,
/// 8 = Command/Win.
pub fn modifier_flags(shift: bool, ctrl: bool, alt: bool, command: bool) -> (r: u8)
    ensures
        r == (if shift { 1u8 } else { 0u8 }) + (if ctrl { 2u8 } else { 0u8 }) + (if alt { 4u8 } else { 0u8 })
            + (if command { 8u8 } else { 0u8 }),
{
    let mut flags: u8 = 0;
    if shift {
        flags = flags + 1;
    }
    if ctrl {
        flags = flags + 2;
    }
    if alt {
        flags = flags + 4;
    }
    if command {
        flags = flags + 8;
    }
    flags
}

/// The key event the viewer forwards for `key`, or `None` for a key that has
/// no virtual-key code.
pub fn keyboard_event_for(key: Key, pressed: bool, modifiers: u8) -> (r: Option<KeyboardEvent>)
    ensures
        vk_code(key) == 0 ==> r is None,
        vk_code(key) != 0 ==> r == Some(KeyboardEvent { vk_code: vk_code(key), is_down: pressed, modifiers }),
{
    let vk = map_key_to_vk(key);
    if vk != 0 {
        Some(KeyboardEvent { vk_code: vk, is_down: pressed, modifiers })
    } else {
        None
    }
}

/// Distinct forwarded keys have distinct codes, and exactly `Other` is not
/// forwarded.
pub proof fn lemma_vk_codes_distinct(a: Key, b: Key)
    ensures
        vk_code(a) == 0 <==> a == Key::Other,
        vk_code(a) != 0 && vk_code(a) == vk_code(b) ==> a == b,
{
}

/// Each key has the Windows virtual-key code of its key cap: VK_RETURN
/// 0x0D, VK_BACK 0x08, VK_TAB 0x09, VK_ESCAPE 0x1B, VK_SPACE 0x20, VK_LEFT
/// 0x25, VK_UP 0x26, VK_RIGHT 0x27, VK_DOWN 0x28, the letters 0x41 ('A') to
/// 0x5A ('Z') in alphabetical order, the digits 0x30 ('0') to 0x39 ('9'),
/// and 0 for a key that is not forwarded.
pub proof fn lemma_vk_codes_are_windows_codes()
    ensures
        vk_code(Key::Enter) == 0x0D,
        vk_code(Key::Backspace) == 0x08,
        vk_code(Key::Tab) == 0x09,
        vk_code(Key::Escape) == 0x1B,
        vk_code(Key::Space) == 0x20,
        vk_code(Key::ArrowLeft) == 0x25,
        vk_code(Key::ArrowUp) == 0x26,
        vk_code(Key::ArrowRight) == 0x27,
        vk_code(Key::ArrowDown) == 0x28,
        vk_code(Key::A) == 0x41,
        vk_code(Key::B) == 0x42,
        vk_code(Key::C) == 0x43,
        vk_code(Key::D) == 0x44,
        vk_code(Key::E) == 0x45,
        vk_code(Key::F) == 0x46,
        vk_code(Key::G) == 0x47,
        vk_code(Key::H) == 0x48,
        vk_code(Key::I) == 0x49,
        vk_code(Key::J) == 0x4A,
        vk_code(Key::K) == 0x4B,
        vk_code(Key::L) == 0x4C,
        vk_code(Key::M) == 0x4D,
        vk_code(Key::N) == 0x4E,
        vk_code(Key::O) == 0x4F,
        vk_code(Key::P) == 0x50,
        vk_code(Key::Q) == 0x51,
        vk_code(Key::R) == 0x52,
        vk_code(Key::S) == 0x53,
        vk_code(Key::T) == 0x54,
        vk_code(Key::U) == 0x55,
        vk_code(Key::V) == 0x56,
        vk_code(Key::W) == 0x57,
        vk_code(Key::X) == 0x58,
        vk_code(Key::Y) == 0x59,
        vk_code(Key::Z) == 0x5A,
        vk_code(Key::Num0) == 0x30,
        vk_code(Key::Num1) == 0x31,
        vk_code(Key::Num2) == 0x32,
        vk_code(Key::Num3) == 0x33,
        vk_code(Key::Num4) == 0x34,
        vk_code(Key::Num5) == 0x35,
        vk_code(Key::Num6) == 0x36,
        vk_code(Key::Num7) == 0x37,
        vk_code(Key::Num8) == 0x38,
        vk_code(Key::Num9) == 0x39,
        vk_code(Key::Other) == 0,
{
}

/// Windows `MOUSEEVENTF_*` and `KEYEVENTF_*` flag bits used to inject input.
pub const MOUSEEVENTF_MOVE: u32 = 0x0001;
pub const MOUSEEVENTF_LEFTDOWN: u32 = 0x0002;
pub const MOUSEEVENTF_LEFTUP: u32 = 0x0004;
pub const MOUSEEVENTF_RIGHTDOWN: u32 = 0x0008;
pub const MOUSEEVENTF_RIGHTUP: u32 = 0x0010;
pub const MOUSEEVENTF_MIDDLEDOWN: u32 = 0x0020;
pub const MOUSEEVENTF_MIDDLEUP: u32 = 0x0040;
pub const MOUSEEVENTF_WHEEL: u32 = 0x0800;
pub const MOUSEEVENTF_ABSOLUTE: u32 = 0x8000;
pub const KEYEVENTF_KEYUP: u32 = 0x0002;

/// The flags of an injected pointer move: an absolute position on the
/// 0..65535 desktop grid.
pub const MOUSE_MOVE_FLAGS: u32 = 0x8001;

/// The flag that injects `button` going down or up.
pub open spec fn spec_mouse_button_flags(button: MouseButton, is_down: bool) -> u32 {
    match button {
        MouseButton::Left => if is_down { MOUSEEVENTF_LEFTDOWN } else { MOUSEEVENTF_LEFTUP },
        MouseButton::Right => if is_down { MOUSEEVENTF_RIGHTDOWN } else { MOUSEEVENTF_RIGHTUP },
        MouseButton::Middle => if is_down { MOUSEEVENTF_MIDDLEDOWN } else { MOUSEEVENTF_MIDDLEUP },
    }
}

/// The `MOUSEEVENTF_*` flag that injects a button event.
pub fn mouse_button_flags(button: MouseButton, is_down: bool) -> (r: u32)
    ensures
        r == spec_mouse_button_flags(button, is_down),
{
    match button {
        MouseButton::Left => if is_down { MOUSEEVENTF_LEFTDOWN } else { MOUSEEVENTF_LEFTUP },
        MouseButton::Right => if is_down { MOUSEEVENTF_RIGHTDOWN } else { MOUSEEVENTF_RIGHTUP },
        MouseButton::Middle => if is_down { MOUSEEVENTF_MIDDLEDOWN } else { MOUSEEVENTF_MIDDLEUP },
    }
}

/// The `KEYEVENTF_*` flags that inject a key going down (none) or up.
pub fn key_event_flags(is_down: bool) -> (r: u32)
    ensures
        r == (if is_down { 0 } else { KEYEVENTF_KEYUP }),
{
    if is_down {
        0
    } else {
        KEYEVENTF_KEYUP
    }
}

/// The injection flags are the Windows constants: MOUSEEVENTF_LEFTDOWN
/// 0x0002, LEFTUP 0x0004, RIGHTDOWN 0x0008, RIGHTUP 0x0010, MIDDLEDOWN
/// 0x0020, MIDDLEUP 0x0040; a key going up carries KEYEVENTF_KEYUP 0x0002.
pub proof fn lemma_flags_are_windows_constants()
    ensures
        spec_mouse_button_flags(MouseButton::Left, true) == 0x0002,
        spec_mouse_button_flags(MouseButton::Left, false) == 0x0004,
        spec_mouse_button_flags(MouseButton::Right, true) == 0x0008,
        spec_mouse_button_flags(MouseButton::Right, false) == 0x0010,
        spec_mouse_button_flags(MouseButton::Middle, true) == 0x0020,
        spec_mouse_button_flags(MouseButton::Middle, false) == 0x0040,
        KEYEVENTF_KEYUP == 0x0002,
        MOUSE_MOVE_FLAGS == 0x8001,
        MOUSEEVENTF_WHEEL == 0x0800,
{
}

/// Every button event is injected with a flag of its own.
pub proof fn lemma_button_flags_distinct(b1: MouseButton, d1: bool, b2: MouseButton, d2: bool)
    ensures
        spec_mouse_button_flags(b1, d1) == spec_mouse_button_flags(b2, d2) <==> (b1 == b2 && d1 == d2),
{
}

/// Whether the queued event at `i` is a pointer move that the next queued
/// event, also a move, makes out of date.
pub open spec fn is_overtaken_move(is_move: Seq<bool>, i: int) -> bool {
    is_move[i] && i + 1 < is_move.len() && is_move[i + 1]
}

/// Mouse trajectory truncation: given which of a queue of input events are
/// pointer moves, says which events to send. Of every run of consecutive
/// moves only the last, the most recent position, is kept; every other event
/// is kept, so a click still lands where the pointer was before it.
pub fn coalesce_pointer_moves(is_move: &[bool]) -> (keep: Vec<bool>)
    ensures
        keep@.len() == is_move@.len(),
        forall|i: int| 0 <= i < is_move@.len() ==> keep@[i] == !is_overtaken_move(is_move@, i),
{
    let n = is_move.len();
    let mut keep: Vec<bool> = Vec::with_capacity(n);
    let mut i: usize = 0;
    while i < n
        invariant
            n == is_move@.len(),
            i <= n,
            keep@.len() == i,
            forall|j: int| 0 <= j < i ==> keep@[j] == !is_overtaken_move(is_move@, j),
        decreases n - i,
    {
        let overtaken = is_move[i] && i + 1 < n && is_move[i + 1];
        keep.push(!overtaken);
        i = i + 1;
    }
    keep
}

/// What trajectory truncation drops and keeps: it never drops an event that
/// is no pointer move, nor the newest event of the queue, nor a move that the
/// next event does not follow up with another move; it drops every move that
/// the next event overtakes with a newer position.
pub proof fn lemma_truncation_keeps_clicks_and_newest(is_move: Seq<bool>)
    ensures
        forall|i: int| 0 <= i < is_move.len() && !is_move[i] ==> !#[trigger] is_overtaken_move(is_move, i),
        is_move.len() > 0 ==> !is_overtaken_move(is_move, is_move.len() - 1),
        forall|i: int|
            0 <= i < is_move.len() - 1 && is_move[i] && is_move[i + 1] ==> #[trigger] is_overtaken_move(is_move, i),
        forall|i: int|
            0 <= i < is_move.len() - 1 && !is_move[i + 1] ==> !#[trigger] is_overtaken_move(is_move, i),
{
}

/// Injects input events into the host's desktop; the injection itself is a
/// platform call made outside this library.
#[derive(Debug, Clone, Copy)]
pub struct InputInjector;

impl InputInjector {
    pub fn new() -> Self {
        InputInjector
    }
}

} // verus!
