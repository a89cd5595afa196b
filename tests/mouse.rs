use virtual_hid::mouse::{Mouse, MouseButton, MouseDir};

#[test]
fn test() {
    let mut mouse = Mouse::new();
    mouse.press_button(&MouseButton::Middle);
    mouse.move_mouse(&127, &MouseDir::X);
    mouse.move_mouse(&127, &MouseDir::Y);
    mouse.scroll_wheel(&127);
    for byte in mouse.pending_report() {
        println!("{:02x}", byte);
    }
}

#[test]
fn pending_report_fields() {
    let mut mouse = Mouse::new();
    mouse.press_button(&MouseButton::Middle);
    mouse.press_button(&MouseButton::Left);
    mouse.move_mouse(&127, &MouseDir::X);
    mouse.move_mouse(&-128, &MouseDir::Y);
    mouse.scroll_wheel(&-1);
    assert_eq!(mouse.pending_report(), [0x05, 0x7f, 0x80, 0xff, 0x00]);
}

#[test]
fn button_bytes() {
    assert_eq!(MouseButton::Left.to_byte(), 0x01);
    assert_eq!(MouseButton::Right.to_byte(), 0x02);
    assert_eq!(MouseButton::Middle.to_byte(), 0x04);
}

#[test]
fn flush_without_hold_ends_all_zero() {
    let mut mouse = Mouse::new();
    mouse.press_button(&MouseButton::Right);
    mouse.move_mouse(&-5, &MouseDir::X);
    let (first, last) = mouse.prepare_send();
    assert_eq!(first, [0x02, 0xfb, 0x00, 0x00, 0x00]);
    assert_eq!(last, [0, 0, 0, 0, 0]);
    mouse.finish_send();
    assert_eq!(mouse.pending_report(), [0, 0, 0, 0, 0]);
}

#[test]
fn flush_with_hold_ends_with_held_buttons() {
    let mut mouse = Mouse::new();
    mouse.hold_button(&MouseButton::Left);
    mouse.hold_button(&MouseButton::Middle);
    mouse.press_button(&MouseButton::Right);
    mouse.move_mouse(&10, &MouseDir::Y);
    mouse.scroll_wheel(&3);
    let (first, last) = mouse.prepare_send();
    assert_eq!(first, [0x07, 0x00, 0x0a, 0x03, 0x00]);
    assert_eq!(last, [0x05, 0, 0, 0, 0]);
    mouse.finish_send();
    assert_eq!(mouse.pending_report(), [0, 0, 0, 0, 0]);
    let (first, last) = mouse.prepare_send();
    assert_eq!(first, [0x05, 0, 0, 0, 0]);
    assert_eq!(last, [0x05, 0, 0, 0, 0]);
}

#[test]
fn released_button_no_longer_held() {
    let mut mouse = Mouse::new();
    mouse.hold_button(&MouseButton::Left);
    mouse.hold_button(&MouseButton::Right);
    mouse.release_button(&MouseButton::Left);
    let (_, last) = mouse.prepare_send();
    assert_eq!(last, [0x02, 0, 0, 0, 0]);
    mouse.release_button(&MouseButton::Right);
    mouse.finish_send();
    let (first, last) = mouse.prepare_send();
    assert_eq!(first, [0, 0, 0, 0, 0]);
    assert_eq!(last, [0, 0, 0, 0, 0]);
}
