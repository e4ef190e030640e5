use rustic_yellow::keypad::{KeyboardEvent, KeyboardKey, Keypad, KeypadEvent, KeypadKey, TextEvent};
use rustic_yellow::mbc5::MBC5;
use rustic_yellow::save_state::SaveState;
use rustic_yellow::serial::Serial;

fn down(key: KeyboardKey) -> KeyboardEvent {
    KeyboardEvent::Down { key, shift: false }
}

#[test]
fn keyboard_keys_map_to_the_joypad() {
    assert_eq!(KeyboardKey::Z.into_keypad_key(), Some(KeypadKey::A));
    assert_eq!(KeyboardKey::X.into_keypad_key(), Some(KeypadKey::B));
    assert_eq!(KeyboardKey::Return.into_keypad_key(), Some(KeypadKey::Start));
    assert_eq!(KeyboardKey::Space.into_keypad_key(), Some(KeypadKey::Select));
    assert_eq!(KeyboardKey::W.into_keypad_key(), Some(KeypadKey::Up));
    assert_eq!(KeyboardKey::Q.into_keypad_key(), None);
    assert_eq!(down(KeyboardKey::Left).into_keypad_event(), Some(KeypadEvent::Down(KeypadKey::Left)));
    assert_eq!(
        KeyboardEvent::Up { key: KeyboardKey::Down }.into_keypad_event(),
        Some(KeypadEvent::Up(KeypadKey::Down))
    );
}

#[test]
fn keyboard_events_as_text() {
    assert_eq!(down(KeyboardKey::Q).into_text_event(), Some(TextEvent::Append('q')));
    assert_eq!(
        KeyboardEvent::Down { key: KeyboardKey::Q, shift: true }.into_text_event(),
        Some(TextEvent::Append('Q'))
    );
    assert_eq!(down(KeyboardKey::Backspace).into_text_event(), Some(TextEvent::Delete));
    assert_eq!(down(KeyboardKey::Return).into_text_event(), Some(TextEvent::Submit));
    assert_eq!(down(KeyboardKey::Escape).into_text_event(), Some(TextEvent::Cancel));
    assert_eq!(KeyboardEvent::Up { key: KeyboardKey::Q }.into_text_event(), None);
}

#[test]
fn pressed_button_reads_as_clear_bit() {
    let mut keypad = Keypad::new();
    // Select the button row (bit 5 low, bit 4 high).
    keypad.wb(0x10);
    let value = keypad.rb(&[down(KeyboardKey::Z), down(KeyboardKey::Return)]);
    assert_eq!(value & 0x0f, 0b0110);
    // Releasing brings the bits back.
    let value = keypad.rb(&[KeyboardEvent::Up { key: KeyboardKey::Z }]);
    assert_eq!(value & 0x0f, 0b0111);
    // The direction row is not selected, so a direction shows nothing.
    let value = keypad.rb(&[down(KeyboardKey::Left)]);
    assert_eq!(value & 0x0f, 0b0111);
}

#[test]
fn wait_returns_presses_only() {
    let mut keypad = Keypad::new();
    assert_eq!(keypad.wait(KeyboardEvent::Up { key: KeyboardKey::Z }), None);
    assert_eq!(keypad.wait(down(KeyboardKey::Q)), None);
    assert_eq!(keypad.wait(down(KeyboardKey::X)), Some(KeypadKey::B));
    assert_eq!(keypad.text(down(KeyboardKey::A)), Some(TextEvent::Append('a')));
}

#[test]
fn mbc5_banks_and_ram_enable() {
    let rom: Vec<u8> = (0..0x10000u32).map(|i| (i / 0x4000) as u8 * 0x10 + (i % 7) as u8).collect();
    let mut mbc = MBC5::new();
    assert_eq!(mbc.readrom(0x0003, &rom), 3);
    assert_eq!(mbc.readrom(0x4000, &rom), rom[0x4000]);
    mbc.writerom(0x2000, 2);
    assert_eq!(mbc.readrom(0x4001, &rom), rom[0x8001]);
    mbc.writerom(0x2000, 9);
    assert_eq!(mbc.readrom(0x4001, &rom), 0);

    assert_eq!(mbc.readram(0xa000), 0);
    mbc.writeram(0xa000, 5);
    assert_eq!(mbc.borrow_sram().byte(0), 0);
    mbc.writerom(0x0000, 0x0a);
    mbc.writeram(0xa000, 5);
    assert_eq!(mbc.readram(0xa000), 5);
    mbc.writerom(0x4000, 1);
    mbc.writeram(0xa001, 6);
    assert_eq!(mbc.borrow_sram().byte(0x2001), 6);
    mbc.writerom(0x0000, 0x00);
    assert_eq!(mbc.readram(0xa001), 0);

    let mut fresh = SaveState::new();
    fresh.set_byte(0, 0x42);
    mbc.replace_ram(fresh);
    assert_eq!(mbc.borrow_sram().byte(0), 0x42);
    assert!(mbc.save_path().is_none());
}

#[test]
fn serial_registers() {
    let mut serial = Serial::new();
    assert_eq!(serial.rb(0xff01), 0);
    serial.wb(0xff01, 0x12);
    serial.wb(0xff02, 0x81);
    assert_eq!(serial.rb(0xff01), 0x12);
    assert_eq!(serial.rb(0xff02), 0x81);
    assert_eq!(serial.interrupt, 0);
}

#[test]
fn mbc5_ram_write_keeps_other_addresses_and_bank_halves_combine() {
    let rom: Vec<u8> = (0..0x80000u32).map(|i| (i / 0x4000) as u8).collect();
    let mut mbc = MBC5::new();
    mbc.writerom(0x0000, 0x0a);
    mbc.writeram(0xa010, 0x33);
    mbc.writeram(0xa011, 0x44);
    mbc.writeram(0xa010, 0x55);
    assert_eq!(mbc.readram(0xa010), 0x55);
    assert_eq!(mbc.readram(0xa011), 0x44);

    mbc.writerom(0x2000, 0x1f);
    mbc.writerom(0x3000, 0x00);
    assert_eq!(mbc.readrom(0x4000, &rom), 0x1f);
    mbc.writerom(0x3000, 0x01);
    assert_eq!(mbc.readrom(0x4000, &rom), 0);
}
