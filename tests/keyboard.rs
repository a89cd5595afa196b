use virtual_hid::key::{BasicKey, KeyOrigin, KeyPacket, Keyboard, LEDState, Modifier, SpecialKey};
use virtual_hid::layout::{KeyStroke, StrokeRelease};

fn report(modifier: u8, keys: &[u8]) -> [u8; 33] {
    let mut r = [0u8; 33];
    r[0] = modifier;
    for k in keys {
        r[1 + (*k as usize >> 3)] |= 1 << (k & 7);
    }
    r
}

fn kept(keyboard: &Keyboard) -> Vec<[u8; 33]> {
    keyboard.keep_reports().iter().map(|p| p.bytes()).collect()
}

fn collide(a: &[u8; 33], b: &[u8; 33]) -> bool {
    (1..33).any(|i| a[i] & b[i] != 0)
}

const A: BasicKey = BasicKey::Char('a', KeyOrigin::Keyboard);

#[test]
fn shift_held_double_press_scenario() {
    let mut kb = Keyboard::new();
    kb.hold_mod(&Modifier::LeftShift);
    assert_eq!(kb.press_key(&A), Some(()));
    assert_eq!(kb.press_key(&A), Some(()));
    kb.release_mod(&Modifier::LeftShift);
    let written: Vec<[u8; 33]> = kb.prepare_send().iter().map(|p| p.bytes()).collect();
    kb.finish_send();
    assert_eq!(
        written,
        vec![
            report(0x02, &[]),
            report(0x02, &[0x04]),
            report(0x02, &[]),
            report(0x02, &[0x04]),
            report(0x00, &[]),
            report(0x00, &[]),
        ]
    );
    for w in written.windows(2) {
        assert!(!collide(&w[0], &w[1]));
    }
    assert_eq!(kept(&kb), vec![report(0, &[])]);
}

#[test]
fn repeated_press_never_collides() {
    let mut kb = Keyboard::new();
    kb.press_key(&BasicKey::Char('x', KeyOrigin::Keyboard));
    kb.press_key(&BasicKey::Char('x', KeyOrigin::Keyboard));
    kb.press_key(&BasicKey::Special(SpecialKey::Tab));
    kb.press_key(&BasicKey::Special(SpecialKey::Tab));
    kb.press_keycode(0x10);
    kb.press_keycode(0x10);
    let q = kept(&kb);
    assert_eq!(q.len(), 10);
    for w in q.windows(2) {
        assert!(!collide(&w[0], &w[1]));
    }
    assert_eq!(q[0], report(0, &[0x1b]));
    assert_eq!(q[1], report(0, &[]));
    assert_eq!(q[2], report(0, &[0x1b]));
}

#[test]
fn distinct_presses_need_no_release() {
    let mut kb = Keyboard::new();
    kb.press_key(&BasicKey::Char('a', KeyOrigin::Keyboard));
    kb.press_key(&BasicKey::Char('b', KeyOrigin::Keyboard));
    assert_eq!(kept(&kb), vec![report(0, &[0x04]), report(0, &[0x05]), report(0, &[])]);
}

#[test]
fn unresolved_press_changes_nothing() {
    let mut kb = Keyboard::new();
    assert_eq!(kb.press_key(&BasicKey::Char('\u{e9}', KeyOrigin::Keyboard)), None);
    assert_eq!(kept(&kb), vec![report(0, &[])]);
}

#[test]
fn flush_empties_queue_and_keep_does_not() {
    let mut kb = Keyboard::new();
    kb.hold_keycode(0x04);
    kb.press_keycode(0x05);
    let kept_once = kept(&kb);
    assert_eq!(
        kept_once,
        vec![report(0, &[0x04]), report(0, &[0x04, 0x05]), report(0, &[0x04])]
    );
    assert_eq!(kept(&kb), kept_once);
    let sent: Vec<[u8; 33]> = kb.prepare_send().iter().map(|p| p.bytes()).collect();
    assert_eq!(sent, kept_once);
    kb.finish_send();
    assert_eq!(kept(&kb), vec![report(0, &[0x04])]);
    kb.press_keycode(0x06);
    assert_eq!(kept(&kb), vec![report(0, &[0x04, 0x06]), report(0, &[0x04])]);
}

#[test]
fn flush_of_empty_queue_writes_hold_state() {
    let mut kb = Keyboard::new();
    kb.hold_mod(&Modifier::LeftShift);
    let sent: Vec<[u8; 33]> = kb.prepare_send().iter().map(|p| p.bytes()).collect();
    kb.finish_send();
    assert_eq!(sent, vec![report(0x02, &[]), report(0x02, &[])]);
    let sent: Vec<[u8; 33]> = kb.prepare_send().iter().map(|p| p.bytes()).collect();
    kb.finish_send();
    assert_eq!(sent, vec![report(0x02, &[])]);
    assert_eq!(kept(&kb), vec![report(0x02, &[])]);
}

#[test]
fn held_key_does_not_trigger_release_report() {
    let mut kb = Keyboard::new();
    kb.hold_keycode(0x05);
    kb.press_keycode(0x04);
    kb.press_keycode(0x04);
    assert_eq!(
        kept(&kb),
        vec![
            report(0, &[0x05]),
            report(0, &[0x04, 0x05]),
            report(0, &[0x05]),
            report(0, &[0x04, 0x05]),
            report(0, &[0x05]),
        ]
    );
}

#[test]
fn basic_string_after_press_is_collision_checked() {
    let mut kb = Keyboard::new();
    kb.press_key(&A);
    kb.press_basic_string("a");
    assert_eq!(
        kept(&kb),
        vec![
            report(0, &[0x04]),
            report(0, &[]),
            report(0, &[0x04]),
            report(0, &[]),
            report(0, &[]),
        ]
    );
}

#[test]
fn layout_stroke_with_held_key() {
    let mut kb = Keyboard::new();
    kb.hold_keycode(0x05);
    kb.press_strokes(&vec![KeyStroke { key: 0x04, modifier: 0, release: StrokeRelease::All }]);
    assert_eq!(
        kept(&kb),
        vec![report(0, &[0x05]), report(0, &[0x04, 0x05]), report(0, &[0x05]), report(0, &[0x05])]
    );
}

#[test]
fn hold_release_keeps_other_keys() {
    let mut kb = Keyboard::new();
    kb.hold_keycode(0x05);
    kb.hold_keycode(0xff);
    kb.hold_keycode(0x04);
    kb.release_keycode(0x04);
    let q = kept(&kb);
    assert_eq!(q[2], report(0, &[0x04, 0x05, 0xff]));
    assert_eq!(q[3], report(0, &[0x05, 0xff]));
    kb.release_keycode(0x07);
    assert_eq!(kept(&kb)[4], report(0, &[0x05, 0xff]));
}

#[test]
fn hold_and_release_keys_and_strings() {
    let mut kb = Keyboard::new();
    assert_eq!(kb.hold_key(&BasicKey::Char('Q', KeyOrigin::Keyboard)), Some(0x14));
    assert_eq!(kb.hold_key(&BasicKey::Char('\u{e9}', KeyOrigin::Keyboard)), None);
    kb.hold_string("ab\u{e9}");
    kb.release_key(&BasicKey::Special(SpecialKey::Escape));
    kb.release_string("b");
    kb.release_key(&BasicKey::Char('Q', KeyOrigin::Keyboard));
    let q = kept(&kb);
    assert_eq!(
        q,
        vec![
            report(0x02, &[0x14]),
            report(0x02, &[0x14, 0x04, 0x05]),
            report(0x02, &[0x14, 0x04, 0x05]),
            report(0x02, &[0x14, 0x04]),
            report(0x00, &[0x04]),
            report(0x00, &[0x04]),
        ]
    );
}

#[test]
fn press_modifier_and_shortcut() {
    let mut kb = Keyboard::new();
    kb.hold_keycode(0x04);
    kb.press_modifier(&Modifier::LeftAlt);
    assert_eq!(
        kb.press_shortcut(
            &[Modifier::LeftControl, Modifier::LeftShift],
            &BasicKey::Special(SpecialKey::Escape)
        ),
        Some(())
    );
    let q = kept(&kb);
    assert_eq!(
        q,
        vec![
            report(0, &[0x04]),
            report(0x04, &[0x04]),
            report(0, &[0x04]),
            report(0, &[0x04]),
            report(0x03, &[0x04, 0x29]),
            report(0, &[0x04]),
            report(0, &[0x04]),
        ]
    );
}

#[test]
fn press_packet_merges_hold_state() {
    let mut kb = Keyboard::new();
    kb.hold_mod(&Modifier::RightShift);
    kb.press_packet(KeyPacket::from_keycodes(0, 0x04));
    kb.press_packet(KeyPacket::from_keycodes(0, 0x04));
    assert_eq!(
        kept(&kb),
        vec![
            report(0x20, &[]),
            report(0x20, &[0x04]),
            report(0x20, &[]),
            report(0x20, &[0x04]),
            report(0x20, &[]),
        ]
    );
}

#[test]
fn basic_string_releases_after_each_key() {
    let mut kb = Keyboard::new();
    kb.press_basic_string("aA\u{e9}!");
    assert_eq!(
        kept(&kb),
        vec![
            report(0, &[0x04]),
            report(0, &[]),
            report(0x02, &[0x04]),
            report(0, &[]),
            report(0x02, &[0x1e]),
            report(0, &[]),
            report(0, &[]),
        ]
    );
    let parsed: Keyboard = "aA\u{e9}!".parse().unwrap();
    assert_eq!(kept(&parsed), kept(&kb));
}

#[test]
fn layout_press_types_character() {
    let mut kb = Keyboard::new();
    assert_eq!(kb.press("LAYOUT_US_ENGLISH", 'a'), Some(()));
    assert_eq!(kb.press("LAYOUT_US_ENGLISH", 'A'), Some(()));
    assert_eq!(
        kept(&kb),
        vec![
            report(0, &[0x04]),
            report(0, &[]),
            report(0x02, &[0x04]),
            report(0, &[]),
            report(0, &[]),
        ]
    );
}

#[test]
fn layout_press_control_character_is_a_combination() {
    let mut kb = Keyboard::new();
    kb.hold_mod(&Modifier::LeftAlt);
    assert_eq!(kb.press("LAYOUT_US_ENGLISH", '\u{1}'), Some(()));
    assert_eq!(
        kept(&kb),
        vec![
            report(0x04, &[]),
            report(0x14, &[0x00, 0x44]),
            report(0x04, &[]),
            report(0x04, &[]),
        ]
    );
}

#[test]
fn layout_press_unknown_layout_or_char() {
    let mut kb = Keyboard::new();
    assert_eq!(kb.press("NO_SUCH_LAYOUT", 'a'), None);
    assert_eq!(kb.press("LAYOUT_US_ENGLISH", '\u{e9}'), None);
    assert_eq!(kept(&kb), vec![report(0, &[])]);
    kb.press_string("LAYOUT_US_ENGLISH", "b\u{e9}b");
    assert_eq!(
        kept(&kb),
        vec![
            report(0, &[0x05]),
            report(0, &[]),
            report(0, &[0x05]),
            report(0, &[]),
            report(0, &[]),
        ]
    );
}

#[test]
fn strokes_with_dead_key_are_each_checked() {
    let mut kb = Keyboard::new();
    kb.press_keycode(0x2f);
    let strokes = vec![
        KeyStroke { key: 0x2f, modifier: 0, release: StrokeRelease::All },
        KeyStroke { key: 0x08, modifier: 0x02, release: StrokeRelease::All },
    ];
    kb.press_strokes(&strokes);
    assert_eq!(
        kept(&kb),
        vec![
            report(0, &[0x2f]),
            report(0, &[]),
            report(0, &[0x2f]),
            report(0, &[]),
            report(0x02, &[0x08]),
            report(0, &[]),
            report(0, &[]),
        ]
    );
}

#[test]
fn strokes_combination_shares_one_report() {
    let mut kb = Keyboard::new();
    let strokes = vec![
        KeyStroke { key: 0x04, modifier: 0x10, release: StrokeRelease::Keys },
        KeyStroke { key: 0x05, modifier: 0x10, release: StrokeRelease::Keys },
        KeyStroke { key: 0, modifier: 0, release: StrokeRelease::Nothing },
    ];
    kb.press_strokes(&strokes);
    assert_eq!(
        kept(&kb),
        vec![report(0x10, &[0x00, 0x04, 0x05]), report(0, &[]), report(0, &[])]
    );
}

#[test]
fn keyboard_led_state() {
    let mut kb = Keyboard::new();
    assert!(!kb.led_state(&LEDState::CapsLock));
    kb.update_led_state(Some(0x02));
    assert!(kb.led_state(&LEDState::CapsLock));
    kb.update_led_state(None);
    assert!(kb.led_state(&LEDState::CapsLock));
    kb.update_led_state(Some(0x01));
    assert!(!kb.led_state(&LEDState::CapsLock));
    assert!(kb.led_state(&LEDState::NumLock));
}

#[test]
fn empty_strings() {
    let mut kb = Keyboard::new();
    kb.press_basic_string("");
    kb.press_string("LAYOUT_US_ENGLISH", "");
    assert_eq!(kept(&kb), vec![report(0, &[])]);
    kb.hold_string("");
    assert_eq!(kept(&kb), vec![report(0, &[]), report(0, &[])]);
}
