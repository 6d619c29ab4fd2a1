use procon::{pad_frame, ButtonsStatus, ControllerState, Stick, FRAME_LEN};

#[test]
fn timer_wraps_after_256_reports() {
    let mut state = ControllerState::new();
    let mut seen = vec![state.timer()];
    for _ in 0..256 {
        let r = state.standard();
        assert_eq!(r.timer, state.timer());
        seen.push(r.timer);
    }
    let expected: Vec<u8> = (0..=255u8).chain(std::iter::once(0)).collect();
    assert_eq!(seen, expected);
}

#[test]
fn standard_report_snapshots_inputs() {
    let mut state = ControllerState::new();
    state.set_buttons(ButtonsStatus { right: 0x08, middle: 0x02, left: 0x01 });
    state.set_sticks(Stick { x: 0x123, y: 0xABC }, Stick::new());
    state.set_status(0x8E);
    let r = state.standard();
    assert_eq!(r.timer, 1);
    assert_eq!(r.info, 0x8E);
    assert_eq!(r.buttons, ButtonsStatus { right: 0x08, middle: 0x02, left: 0x01 });
    assert_eq!(r.left_stick, Stick { x: 0x123, y: 0xABC });
    assert_eq!(r.right_stick, Stick { x: 0x800, y: 0x800 });
    assert_eq!(r.vibrator, 0);
}

#[test]
fn stick_packing_in_frame() {
    let mut s = procon::Session::new();
    s.controller_mut().set_sticks(Stick { x: 0x123, y: 0xABC }, Stick { x: 0xFFF, y: 0 });
    let f = s.periodic_report();
    assert_eq!(&f[6..12], &[0x23, 0xC1, 0xAB, 0xFF, 0x0F, 0x00]);
    assert_eq!(s.controller().timer(), 1);
}

#[test]
fn pad_frame_zero_fills() {
    let f = pad_frame(&[1, 2, 3]);
    assert_eq!(f.len(), FRAME_LEN);
    assert_eq!(&f[..3], &[1, 2, 3]);
    assert!(f[3..].iter().all(|b| *b == 0));
    let full = pad_frame(&[7u8; 64]);
    assert_eq!(full, [7u8; 64]);
    assert_eq!(pad_frame(&[]), [0u8; 64]);
}
