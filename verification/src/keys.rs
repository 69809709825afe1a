//! The abstract key enumeration and the total key tables: one per native
//! backend, each mapping a native key code to an abstract key, with `NoKey`
//! as the defined fallback for every code outside the table.

use vstd::prelude::*;

verus! {

/// The closed set of abstract keys. `NoKey` is the sentinel every unmapped
/// native code resolves to.
#[derive(Clone, Copy, Debug, PartialEq, Eq, Structural)]
pub enum Key {
    Backspace,
    Enter,
    Tab,
    Shift,
    Control,
    Pause,
    Capital,
    Escape,
    Convert,
    NonConvert,
    Accept,
    ModeChange,
    Space,
    Prior,
    Next,
    End,
    Home,
    Left,
    Up,
    Right,
    Down,
    Select,
    Print,
    Execute,
    Snapshot,
    Insert,
    Delete,
    Help,
    A,
    B,
    C,
    D,
    E,
    F,
    G,
    H,
    I,
    J,
    K,
    L,
    M,
    N,
    O,
    P,
    Q,
    R,
    S,
    T,
    U,
    V,
    W,
    X,
    Y,
    Z,
    N0,
    N1,
    N2,
    N3,
    N4,
    N5,
    N6,
    N7,
    N8,
    N9,
    Lwin,
    Rwin,
    Apps,
    Sleep,
    Numpad0,
    Numpad1,
    Numpad2,
    Numpad3,
    Numpad4,
    Numpad5,
    Numpad6,
    Numpad7,
    Numpad8,
    Numpad9,
    Multiply,
    Add,
    Separator,
    Subtract,
    Decimal,
    Divide,
    F1,
    F2,
    F3,
    F4,
    F5,
    F6,
    F7,
    F8,
    F9,
    F10,
    F11,
    F12,
    F13,
    F14,
    F15,
    F16,
    F17,
    F18,
    F19,
    F20,
    F21,
    F22,
    F23,
    F24,
    Numlock,
    ScrollLock,
    NumpadEqual,
    LShift,
    RShift,
    LControl,
    RControl,
    LAlt,
    RAlt,
    Semicolon,
    Plus,
    Comma,
    Minus,
    Period,
    Slash,
    Grave,
    NoKey,
}

/// The message-loop backend's key table: the abstract key named by a native
/// virtual-key code. Every code outside the table maps to `Key::NoKey`.
pub open spec fn key_of_code(code: u16) -> Key {
    match code {
        0x08 => Key::Backspace,
        0x0D => Key::Enter,
        0x09 => Key::Tab,
        0x10 => Key::Shift,
        0x11 => Key::Control,
        0x13 => Key::Pause,
        0x14 => Key::Capital,
        0x1B => Key::Escape,
        0x1C => Key::Convert,
        0x1D => Key::NonConvert,
        0x1E => Key::Accept,
        0x1F => Key::ModeChange,
        0x20 => Key::Space,
        0x21 => Key::Prior,
        0x22 => Key::Next,
        0x23 => Key::End,
        0x24 => Key::Home,
        0x25 => Key::Left,
        0x26 => Key::Up,
        0x27 => Key::Right,
        0x28 => Key::Down,
        0x29 => Key::Select,
        0x2A => Key::Print,
        0x2B => Key::Execute,
        0x2C => Key::Snapshot,
        0x2D => Key::Insert,
        0x2E => Key::Delete,
        0x2F => Key::Help,
        0x41 => Key::A,
        0x42 => Key::B,
        0x43 => Key::C,
        0x44 => Key::D,
        0x45 => Key::E,
        0x46 => Key::F,
        0x47 => Key::G,
        0x48 => Key::H,
        0x49 => Key::I,
        0x4A => Key::J,
        0x4B => Key::K,
        0x4C => Key::L,
        0x4D => Key::M,
        0x4E => Key::N,
        0x4F => Key::O,
        0x50 => Key::P,
        0x51 => Key::Q,
        0x52 => Key::R,
        0x53 => Key::S,
        0x54 => Key::T,
        0x55 => Key::U,
        0x56 => Key::V,
        0x57 => Key::W,
        0x58 => Key::X,
        0x59 => Key::Y,
        0x5A => Key::Z,
        0x30 => Key::N0,
        0x31 => Key::N1,
        0x32 => Key::N2,
        0x33 => Key::N3,
        0x34 => Key::N4,
        0x35 => Key::N5,
        0x36 => Key::N6,
        0x37 => Key::N7,
        0x38 => Key::N8,
        0x39 => Key::N9,
        0x5B => Key::Lwin,
        0x5C => Key::Rwin,
        0x5D => Key::Apps,
        0x5F => Key::Sleep,
        0x60 => Key::Numpad0,
        0x61 => Key::Numpad1,
        0x62 => Key::Numpad2,
        0x63 => Key::Numpad3,
        0x64 => Key::Numpad4,
        0x65 => Key::Numpad5,
        0x66 => Key::Numpad6,
        0x67 => Key::Numpad7,
        0x68 => Key::Numpad8,
        0x69 => Key::Numpad9,
        0x6A => Key::Multiply,
        0x6B => Key::Add,
        0x6C => Key::Separator,
        0x6D => Key::Subtract,
        0x6E => Key::Decimal,
        0x6F => Key::Divide,
        0x70 => Key::F1,
        0x71 => Key::F2,
        0x72 => Key::F3,
        0x73 => Key::F4,
        0x74 => Key::F5,
        0x75 => Key::F6,
        0x76 => Key::F7,
        0x77 => Key::F8,
        0x78 => Key::F9,
        0x79 => Key::F10,
        0x7A => Key::F11,
        0x7B => Key::F12,
        0x7C => Key::F13,
        0x7D => Key::F14,
        0x7E => Key::F15,
        0x7F => Key::F16,
        0x80 => Key::F17,
        0x81 => Key::F18,
        0x82 => Key::F19,
        0x83 => Key::F20,
        0x84 => Key::F21,
        0x85 => Key::F22,
        0x86 => Key::F23,
        0x87 => Key::F24,
        0x90 => Key::Numlock,
        0x91 => Key::ScrollLock,
        0x92 => Key::NumpadEqual,
        0xA0 => Key::LShift,
        0xA1 => Key::RShift,
        0xA2 => Key::LControl,
        0xA3 => Key::RControl,
        0xA4 => Key::LAlt,
        0xA5 => Key::RAlt,
        0xBA => Key::Semicolon,
        0xBB => Key::Plus,
        0xBC => Key::Comma,
        0xBD => Key::Minus,
        0xBE => Key::Period,
        0xBF => Key::Slash,
        0xC0 => Key::Grave,
        _ => Key::NoKey,
    }
}

/// The native symbol value the connection/poll backend maps to `Key::Escape`.
pub const KEYSYM_ESCAPE: u16 = 0xFF1B;

/// The connection/poll backend's key table: the abstract key named by a
/// native key symbol. Only the escape symbol is mapped; every other symbol
/// maps to `Key::NoKey` (the table's acknowledged incompleteness is kept
/// as is, with no guessed additions).
pub open spec fn key_of_keysym(sym: u16) -> Key {
    if sym == KEYSYM_ESCAPE {
        Key::Escape
    } else {
        Key::NoKey
    }
}

impl Key {
    /// Translates a native key symbol of the connection/poll backend through
    /// the keysym table.
    pub fn from_keysym(sym: u16) -> (r: Key)
        ensures
            r == key_of_keysym(sym),
    {
        if sym == KEYSYM_ESCAPE {
            Key::Escape
        } else {
            Key::NoKey
        }
    }
}

impl core::convert::From<u16> for Key {
    /// Translates a native virtual-key code of the message-loop backend
    /// through the key table.
    fn from(val: u16) -> (r: Key)
        ensures
            r == key_of_code(val),
    {
        match val {
            0x08 => Key::Backspace,
            0x0D => Key::Enter,
            0x09 => Key::Tab,
            0x10 => Key::Shift,
            0x11 => Key::Control,
            0x13 => Key::Pause,
            0x14 => Key::Capital,
            0x1B => Key::Escape,
            0x1C => Key::Convert,
            0x1D => Key::NonConvert,
            0x1E => Key::Accept,
            0x1F => Key::ModeChange,
            0x20 => Key::Space,
            0x21 => Key::Prior,
            0x22 => Key::Next,
            0x23 => Key::End,
            0x24 => Key::Home,
            0x25 => Key::Left,
            0x26 => Key::Up,
            0x27 => Key::Right,
            0x28 => Key::Down,
            0x29 => Key::Select,
            0x2A => Key::Print,
            0x2B => Key::Execute,
            0x2C => Key::Snapshot,
            0x2D => Key::Insert,
            0x2E => Key::Delete,
            0x2F => Key::Help,
            0x41 => Key::A,
            0x42 => Key::B,
            0x43 => Key::C,
            0x44 => Key::D,
            0x45 => Key::E,
            0x46 => Key::F,
            0x47 => Key::G,
            0x48 => Key::H,
            0x49 => Key::I,
            0x4A => Key::J,
            0x4B => Key::K,
            0x4C => Key::L,
            0x4D => Key::M,
            0x4E => Key::N,
            0x4F => Key::O,
            0x50 => Key::P,
            0x51 => Key::Q,
            0x52 => Key::R,
            0x53 => Key::S,
            0x54 => Key::T,
            0x55 => Key::U,
            0x56 => Key::V,
            0x57 => Key::W,
            0x58 => Key::X,
            0x59 => Key::Y,
            0x5A => Key::Z,
            0x30 => Key::N0,
            0x31 => Key::N1,
            0x32 => Key::N2,
            0x33 => Key::N3,
            0x34 => Key::N4,
            0x35 => Key::N5,
            0x36 => Key::N6,
            0x37 => Key::N7,
            0x38 => Key::N8,
            0x39 => Key::N9,
            0x5B => Key::Lwin,
            0x5C => Key::Rwin,
            0x5D => Key::Apps,
            0x5F => Key::Sleep,
            0x60 => Key::Numpad0,
            0x61 => Key::Numpad1,
            0x62 => Key::Numpad2,
            0x63 => Key::Numpad3,
            0x64 => Key::Numpad4,
            0x65 => Key::Numpad5,
            0x66 => Key::Numpad6,
            0x67 => Key::Numpad7,
            0x68 => Key::Numpad8,
            0x69 => Key::Numpad9,
            0x6A => Key::Multiply,
            0x6B => Key::Add,
            0x6C => Key::Separator,
            0x6D => Key::Subtract,
            0x6E => Key::Decimal,
            0x6F => Key::Divide,
            0x70 => Key::F1,
            0x71 => Key::F2,
            0x72 => Key::F3,
            0x73 => Key::F4,
            0x74 => Key::F5,
            0x75 => Key::F6,
            0x76 => Key::F7,
            0x77 => Key::F8,
            0x78 => Key::F9,
            0x79 => Key::F10,
            0x7A => Key::F11,
            0x7B => Key::F12,
            0x7C => Key::F13,
            0x7D => Key::F14,
            0x7E => Key::F15,
            0x7F => Key::F16,
            0x80 => Key::F17,
            0x81 => Key::F18,
            0x82 => Key::F19,
            0x83 => Key::F20,
            0x84 => Key::F21,
            0x85 => Key::F22,
            0x86 => Key::F23,
            0x87 => Key::F24,
            0x90 => Key::Numlock,
            0x91 => Key::ScrollLock,
            0x92 => Key::NumpadEqual,
            0xA0 => Key::LShift,
            0xA1 => Key::RShift,
            0xA2 => Key::LControl,
            0xA3 => Key::RControl,
            0xA4 => Key::LAlt,
            0xA5 => Key::RAlt,
            0xBA => Key::Semicolon,
            0xBB => Key::Plus,
            0xBC => Key::Comma,
            0xBD => Key::Minus,
            0xBE => Key::Period,
            0xBF => Key::Slash,
            0xC0 => Key::Grave,
            _ => Key::NoKey,
        }
    }
}

impl vstd::std_specs::convert::FromSpecImpl<u16> for Key {
    open spec fn obeys_from_spec() -> bool {
        true
    }

    open spec fn from_spec(v: u16) -> Key {
        key_of_code(v)
    }
}

} // verus!
