use procon::{Button, UsbSwitchProControllerReport};

#[test]
fn new_report_is_at_rest() {
    let r = UsbSwitchProControllerReport::new();
    assert_eq!(r.buttons, 0);
    assert_eq!((r.left_stick_x, r.left_stick_y), (127, 127));
    assert_eq!((r.right_stick_x, r.right_stick_y), (127, 127));
    assert_eq!((r.left_trigger, r.right_trigger), (0, 0));
    assert_eq!(r.battery_life, 100);
}

#[test]
fn buttons_set_and_clear_independently() {
    let mut r = UsbSwitchProControllerReport::new();
    r.set_button(Button::A, true);
    r.set_button(Button::DpadRight, true);
    assert_eq!(r.buttons, 0b10_0000_0000_0001);
    assert!(r.get_button(Button::A));
    assert!(r.get_button(Button::DpadRight));
    assert!(!r.get_button(Button::B));
    r.set_button(Button::A, false);
    assert!(!r.get_button(Button::A));
    assert!(r.get_button(Button::DpadRight));
    assert_eq!(Button::Start.mask(), 1 << 7);
}

#[test]
fn sticks_triggers_battery() {
    let mut r = UsbSwitchProControllerReport::new();
    r.set_left_stick(-128, 5);
    r.set_right_stick(0, -1);
    r.set_triggers(255, 3);
    r.set_battery_life(42);
    assert_eq!((r.left_stick_x, r.left_stick_y), (-128, 5));
    assert_eq!((r.right_stick_x, r.right_stick_y), (0, -1));
    assert_eq!((r.left_trigger, r.right_trigger), (255, 3));
    assert_eq!(r.battery_life, 42);
}
