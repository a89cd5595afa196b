use virtual_hid::key::{
    BasicKey, KeyOrigin, KeyPacket, LEDState, LEDStatePacket, Modifier, SpecialKey, ToKBytes,
};

fn report(modifier: u8, keys: &[u8]) -> [u8; 33] {
    let mut r = [0u8; 33];
    r[0] = modifier;
    for k in keys {
        r[1 + (*k as usize >> 3)] |= 1 << (k & 7);
    }
    r
}

#[test]
fn led_decode_example() {
    let b = 0b0000_0011u8;
    assert!(LEDState::NumLock.get_state(b));
    assert!(LEDState::CapsLock.get_state(b));
    assert!(!LEDState::ScrollLock.get_state(b));
    assert!(!LEDState::Compose.get_state(b));
    assert!(!LEDState::Kana.get_state(b));
}

#[test]
fn led_decode_with_kana_bit() {
    let b = 0b0001_0011u8;
    assert!(LEDState::NumLock.get_state(b));
    assert!(LEDState::CapsLock.get_state(b));
    assert!(!LEDState::ScrollLock.get_state(b));
    assert!(!LEDState::Compose.get_state(b));
    assert!(LEDState::Kana.get_state(b));
}

#[test]
fn led_each_bit() {
    assert!(LEDState::ScrollLock.get_state(0x04));
    assert!(LEDState::Compose.get_state(0x08));
    assert!(LEDState::Kana.get_state(0x10));
    assert!(!LEDState::NumLock.get_state(0xfe));
}

#[test]
fn led_packet_update_keeps_state_on_timeout() {
    let mut led = LEDStatePacket::new();
    assert_eq!(u8::from(&led), 0);
    led.update(Some(0x03));
    assert!(led.get_state(&LEDState::CapsLock));
    led.update(None);
    assert_eq!(u8::from(&led), 0x03);
    assert_eq!(u8::from(&LEDStatePacket::new_from_packet(None)), 0);
    assert_eq!(u8::from(&LEDStatePacket::new_from_packet(Some(0x10))), 0x10);
}

#[test]
fn keycode_bit_layout() {
    let p = KeyPacket::from_keycodes(0x02, 0x04);
    let b = p.bytes();
    assert_eq!(b[0], 0x02);
    assert_eq!(b[1], 0x10);
    assert!(b[2..].iter().all(|x| *x == 0));
    let last = KeyPacket::from_keycodes(0, 0xff).bytes();
    assert_eq!(last[32], 0x80);
}

#[test]
fn mod_keycode_sets_keycode_zero() {
    let b = KeyPacket::from_mod_keycode(0x10).bytes();
    assert_eq!(b, report(0x10, &[0]));
}

#[test]
fn contains_any_is_symmetric() {
    let a = KeyPacket::from_keycodes(0, 0x04);
    let mut b = KeyPacket::from_keycodes(0, 0x05);
    assert!(!a.contains_any(&b));
    assert!(!b.contains_any(&a));
    b.push_key_keycode(0x04);
    assert!(a.contains_any(&b));
    assert!(b.contains_any(&a));
}

#[test]
fn contains_any_ignores_modifiers() {
    let a = KeyPacket::from_keycodes(0x02, 0x04);
    let b = KeyPacket::from_keycodes(0x02, 0x05);
    assert!(!a.contains_any(&b));
    let mut empty = KeyPacket::new();
    assert!(!empty.contains_any(&empty));
    empty.push_modifier(&Modifier::LeftShift);
    assert!(!empty.contains_any(&empty));
    assert!(a.contains_any(&a));
}

#[test]
fn special_key_codes() {
    assert_eq!(SpecialKey::ReturnEnter.to_kbyte(), 0x28);
    assert_eq!(SpecialKey::Escape.to_kbyte(), 0x29);
    assert_eq!(SpecialKey::F24.to_kbyte(), 0x73);
    assert_eq!(SpecialKey::RightGUI.to_kbyte(), 0xE7);
    assert_eq!(SpecialKey::Comma.to_kbyte(), 0x85);
    assert_eq!(SpecialKey::Enter.to_kbyte(), 0x58);
}

#[test]
fn modifier_bytes() {
    assert_eq!(Modifier::LeftControl.to_mkbyte(), 0x01);
    assert_eq!(Modifier::LeftShift.to_mkbyte(), 0x02);
    assert_eq!(Modifier::RightMeta.to_mkbyte(), 0x80);
    assert_eq!(Modifier::all_to_byte(&[]), 0);
    assert_eq!(
        Modifier::all_to_byte(&[Modifier::LeftControl, Modifier::RightAlt, Modifier::LeftControl]),
        0x41
    );
}

#[test]
fn char_key_bytes() {
    assert_eq!('a'.to_kbytes(&KeyOrigin::Keyboard), Some([0x00, 0x04]));
    assert_eq!('A'.to_kbytes(&KeyOrigin::Keyboard), Some([0x02, 0x04]));
    assert_eq!('\n'.to_kbytes(&KeyOrigin::Keyboard), Some([0x00, 0x58]));
    assert_eq!('?'.to_kbytes(&KeyOrigin::Keyboard), Some([0x02, 0x38]));
    assert_eq!('+'.to_kbytes(&KeyOrigin::Keypad), Some([0x00, 0x57]));
    assert_eq!('a'.to_kbytes(&KeyOrigin::Keypad), None);
    assert_eq!('a'.to_kbytes(&KeyOrigin::Misc), None);
    assert_eq!('\u{e9}'.to_kbytes(&KeyOrigin::Keyboard), None);
}

#[test]
fn packet_from_list_and_char() {
    let keys = [
        ('a', KeyOrigin::Keyboard),
        ('B', KeyOrigin::Keyboard),
        ('\u{e9}', KeyOrigin::Keyboard),
        ('*', KeyOrigin::Keypad),
        ('a', KeyOrigin::Misc),
        ('a', KeyOrigin::Keyboard),
    ];
    let p = KeyPacket::from_list(&[Modifier::LeftControl], &keys);
    assert_eq!(p.bytes(), report(0x03, &[0x04, 0x05, 0x55]));
    assert!(KeyPacket::from_char(&'\u{e9}', &KeyOrigin::Keyboard).is_none());
    let c = KeyPacket::from_char(&'z', &KeyOrigin::Keyboard).unwrap();
    assert_eq!(c.bytes(), report(0, &[0x1d]));
    assert!(c.contains_char('z', &KeyOrigin::Keyboard));
    assert!(c.contains_char('Z', &KeyOrigin::Keyboard));
    assert!(!c.contains_char('y', &KeyOrigin::Keyboard));
    let s = KeyPacket::from_special(&SpecialKey::Tab);
    assert!(s.contains_special(&SpecialKey::Tab));
    assert!(!s.contains_special(&SpecialKey::Escape));
}

#[test]
fn push_key_reports_keycode() {
    let mut p = KeyPacket::new();
    assert_eq!(p.push_key(&BasicKey::Char('b', KeyOrigin::Keyboard)), Some(0x05));
    assert_eq!(p.push_key(&BasicKey::Special(SpecialKey::F1)), Some(0x3a));
    assert_eq!(p.push_key(&BasicKey::Char('\u{e9}', KeyOrigin::Keyboard)), None);
    assert_eq!(p.push_char(&'!', &KeyOrigin::Keypad), Some(0xcf));
    p.push_modifier_keycode(0x40);
    assert_eq!(p.bytes(), report(0x40, &[0x05, 0x3a, 0xcf, 0x00]));
    p.push_modifier_key_keycode(0x01, 0x06);
    assert_eq!(p.bytes(), report(0x41, &[0x05, 0x3a, 0xcf, 0x00, 0x06]));
}

#[test]
fn set_then_clear_keeps_other_bits() {
    let mut p = KeyPacket::new();
    p.push_key_keycode(0x05);
    p.push_key_keycode(0x07);
    p.push_key_keycode(0xff);
    p.push_modifier(&Modifier::LeftAlt);
    let before = p.bytes();
    p.add_key(&[0x00, 0x06]);
    assert_eq!(p.bytes(), report(0x04, &[0x05, 0x06, 0x07, 0xff]));
    p.remove_key(&[0x00, 0x06]);
    assert_eq!(p.bytes(), before);
    p.add_key(&[0x02, 0x05]);
    p.remove_key(&[0x02, 0x05]);
    assert_eq!(p.bytes(), report(0x04, &[0x07, 0xff]));
}
