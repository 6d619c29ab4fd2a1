use procon::{handshake_response, HandshakeState, NintendoReportType, Session};

fn control(b: u8) -> [u8; 64] {
    let mut f = [0u8; 64];
    f[0] = 0x80;
    f[1] = b;
    f
}

fn connected() -> Session {
    let mut s = Session::new();
    assert_eq!(s.handshake_state(), HandshakeState::Disconnected);
    s.connect();
    assert_eq!(s.handshake_state(), HandshakeState::AwaitingHandshake);
    s
}

#[test]
fn handshake_frame_gets_two_byte_ack() {
    let mut s = connected();
    let out = s.on_frame(&control(0x02));
    let mut expected = [0u8; 64];
    expected[0] = 0x81;
    expected[1] = 0x02;
    assert_eq!(out.reply, Some(expected));
    assert!(!out.start_streaming);
    assert_eq!(s.handshake_state(), HandshakeState::HandshakeAccepted);
}

#[test]
fn status_reply_carries_identifier() {
    let reply = NintendoReportType::Status.resp().unwrap();
    assert_eq!(&reply[..10], &[0x81, 0x01, 0x00, 0x03, 0x79, 0x5c, 0xed, 0xeb, 0x68, 0xdc]);
    assert!(reply[10..].iter().all(|b| *b == 0));
    let baud = NintendoReportType::Baudrate.resp().unwrap();
    assert_eq!(&baud[..3], &[0x81, 0x03, 0x00]);
    assert!(NintendoReportType::NoTimeout.resp().is_none());
}

#[test]
fn handshake_response_reads_second_byte() {
    assert_eq!(handshake_response(&control(0x01)), Some(NintendoReportType::Status));
    assert_eq!(handshake_response(&control(0x03)), Some(NintendoReportType::Baudrate));
    assert_eq!(handshake_response(&control(0x04)), Some(NintendoReportType::NoTimeout));
    assert_eq!(handshake_response(&control(0x07)), None);
}

#[test]
fn enter_streaming_has_no_reply_and_starts_reports() {
    let mut s = connected();
    s.on_frame(&control(0x01));
    s.on_frame(&control(0x02));
    s.on_frame(&control(0x03));
    let out = s.on_frame(&control(0x04));
    assert_eq!(out.reply, None);
    assert!(out.start_streaming);
    assert_eq!(s.handshake_state(), HandshakeState::Streaming);
    let t0 = s.controller().timer();
    let first = s.periodic_report();
    let second = s.periodic_report();
    assert_eq!(first[0], 0x21);
    assert_eq!(first[1], t0.wrapping_add(1));
    assert_eq!(second[1], t0.wrapping_add(2));
}

#[test]
fn gate_fires_once_in_every_valid_ordering() {
    let orderings: [&[u8]; 5] = [
        &[0x01, 0x02, 0x03, 0x04],
        &[0x02, 0x03, 0x04],
        &[0x01, 0x01, 0x02, 0x01, 0x03, 0x04],
        &[0x02, 0x02, 0x03, 0x01, 0x03, 0x04, 0x04, 0x02, 0x04],
        &[0x01, 0x02, 0x01, 0x03, 0x02, 0x01, 0x04, 0x01],
    ];
    for order in orderings {
        let mut s = connected();
        let mut fires = 0;
        for b in order {
            if s.on_frame(&control(*b)).start_streaming {
                fires += 1;
            }
        }
        assert_eq!(fires, 1, "{:?}", order);
        assert_eq!(s.handshake_state(), HandshakeState::Streaming);
    }
}

#[test]
fn out_of_order_frames_do_not_advance() {
    let mut s = connected();
    assert!(!s.on_frame(&control(0x04)).start_streaming);
    assert_eq!(s.handshake_state(), HandshakeState::AwaitingHandshake);
    assert!(s.on_frame(&control(0x03)).reply.is_some());
    assert_eq!(s.handshake_state(), HandshakeState::AwaitingHandshake);
    s.on_frame(&control(0x02));
    assert!(!s.on_frame(&control(0x04)).start_streaming);
    assert_eq!(s.handshake_state(), HandshakeState::HandshakeAccepted);
}

#[test]
fn retried_frames_get_same_reply_in_later_stage() {
    let mut s = connected();
    let early_status = s.on_frame(&control(0x01)).reply;
    let early_handshake = s.on_frame(&control(0x02)).reply;
    s.on_frame(&control(0x03));
    s.on_frame(&control(0x04));
    assert_eq!(s.on_frame(&control(0x01)).reply, early_status);
    assert_eq!(s.on_frame(&control(0x02)).reply, early_handshake);
    assert_eq!(s.handshake_state(), HandshakeState::Streaming);
}

#[test]
fn state_machine_transitions() {
    assert_eq!(HandshakeState::Disconnected.connect(), HandshakeState::AwaitingHandshake);
    assert_eq!(HandshakeState::Streaming.connect(), HandshakeState::Streaming);
    assert_eq!(HandshakeState::AwaitingHandshake.advance(NintendoReportType::Status), HandshakeState::AwaitingHandshake);
    assert_eq!(HandshakeState::AwaitingHandshake.advance(NintendoReportType::Handshake), HandshakeState::HandshakeAccepted);
    assert_eq!(HandshakeState::HandshakeAccepted.advance(NintendoReportType::Baudrate), HandshakeState::BaudrateAccepted);
    assert_eq!(HandshakeState::BaudrateAccepted.advance(NintendoReportType::NoTimeout), HandshakeState::Streaming);
    assert_eq!(HandshakeState::Streaming.advance(NintendoReportType::Handshake), HandshakeState::Streaming);
    assert_eq!(HandshakeState::Disconnected.advance(NintendoReportType::Handshake), HandshakeState::Disconnected);
}
