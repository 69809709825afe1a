use rovella_platform::keys::{Key, KEYSYM_ESCAPE};

#[test]
fn key_table_yields_specified_keys() {
    let table: [(u16, Key); 124] = [
        (0x08, Key::Backspace),
        (0x0D, Key::Enter),
        (0x09, Key::Tab),
        (0x10, Key::Shift),
        (0x11, Key::Control),
        (0x13, Key::Pause),
        (0x14, Key::Capital),
        (0x1B, Key::Escape),
        (0x1C, Key::Convert),
        (0x1D, Key::NonConvert),
        (0x1E, Key::Accept),
        (0x1F, Key::ModeChange),
        (0x20, Key::Space),
        (0x21, Key::Prior),
        (0x22, Key::Next),
        (0x23, Key::End),
        (0x24, Key::Home),
        (0x25, Key::Left),
        (0x26, Key::Up),
        (0x27, Key::Right),
        (0x28, Key::Down),
        (0x29, Key::Select),
        (0x2A, Key::Print),
        (0x2B, Key::Execute),
        (0x2C, Key::Snapshot),
        (0x2D, Key::Insert),
        (0x2E, Key::Delete),
        (0x2F, Key::Help),
        (0x41, Key::A),
        (0x42, Key::B),
        (0x43, Key::C),
        (0x44, Key::D),
        (0x45, Key::E),
        (0x46, Key::F),
        (0x47, Key::G),
        (0x48, Key::H),
        (0x49, Key::I),
        (0x4A, Key::J),
        (0x4B, Key::K),
        (0x4C, Key::L),
        (0x4D, Key::M),
        (0x4E, Key::N),
        (0x4F, Key::O),
        (0x50, Key::P),
        (0x51, Key::Q),
        (0x52, Key::R),
        (0x53, Key::S),
        (0x54, Key::T),
        (0x55, Key::U),
        (0x56, Key::V),
        (0x57, Key::W),
        (0x58, Key::X),
        (0x59, Key::Y),
        (0x5A, Key::Z),
        (0x30, Key::N0),
        (0x31, Key::N1),
        (0x32, Key::N2),
        (0x33, Key::N3),
        (0x34, Key::N4),
        (0x35, Key::N5),
        (0x36, Key::N6),
        (0x37, Key::N7),
        (0x38, Key::N8),
        (0x39, Key::N9),
        (0x5B, Key::Lwin),
        (0x5C, Key::Rwin),
        (0x5D, Key::Apps),
        (0x5F, Key::Sleep),
        (0x60, Key::Numpad0),
        (0x61, Key::Numpad1),
        (0x62, Key::Numpad2),
        (0x63, Key::Numpad3),
        (0x64, Key::Numpad4),
        (0x65, Key::Numpad5),
        (0x66, Key::Numpad6),
        (0x67, Key::Numpad7),
        (0x68, Key::Numpad8),
        (0x69, Key::Numpad9),
        (0x6A, Key::Multiply),
        (0x6B, Key::Add),
        (0x6C, Key::Separator),
        (0x6D, Key::Subtract),
        (0x6E, Key::Decimal),
        (0x6F, Key::Divide),
        (0x70, Key::F1),
        (0x71, Key::F2),
        (0x72, Key::F3),
        (0x73, Key::F4),
        (0x74, Key::F5),
        (0x75, Key::F6),
        (0x76, Key::F7),
        (0x77, Key::F8),
        (0x78, Key::F9),
        (0x79, Key::F10),
        (0x7A, Key::F11),
        (0x7B, Key::F12),
        (0x7C, Key::F13),
        (0x7D, Key::F14),
        (0x7E, Key::F15),
        (0x7F, Key::F16),
        (0x80, Key::F17),
        (0x81, Key::F18),
        (0x82, Key::F19),
        (0x83, Key::F20),
        (0x84, Key::F21),
        (0x85, Key::F22),
        (0x86, Key::F23),
        (0x87, Key::F24),
        (0x90, Key::Numlock),
        (0x91, Key::ScrollLock),
        (0x92, Key::NumpadEqual),
        (0xA0, Key::LShift),
        (0xA1, Key::RShift),
        (0xA2, Key::LControl),
        (0xA3, Key::RControl),
        (0xA4, Key::LAlt),
        (0xA5, Key::RAlt),
        (0xBA, Key::Semicolon),
        (0xBB, Key::Plus),
        (0xBC, Key::Comma),
        (0xBD, Key::Minus),
        (0xBE, Key::Period),
        (0xBF, Key::Slash),
        (0xC0, Key::Grave),
    ];
    for (code, key) in table {
        assert_eq!(Key::from(code), key);
    }
}

#[test]
fn key_code_outside_table_yields_no_key() {
    for code in [0x00u16, 0x0A, 0x12, 0x40, 0x5E, 0x88, 0x93, 0xA6, 0xC1, 0x1234, 0xFFFF] {
        assert_eq!(Key::from(code), Key::NoKey);
    }
}

#[test]
fn keysym_table_maps_escape_only() {
    assert_eq!(KEYSYM_ESCAPE, 0xFF1B);
    assert_eq!(Key::from_keysym(0xFF1B), Key::Escape);
    assert_eq!(Key::from_keysym(0x0041), Key::NoKey);
    assert_eq!(Key::from_keysym(0xFF1A), Key::NoKey);
    assert_eq!(Key::from_keysym(0), Key::NoKey);
}
