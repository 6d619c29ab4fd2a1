use procon::subcommand::{ACK_DEVICE_INFO, ACK_EMPTY, ACK_SPI_READ};
use procon::{
    device_info, dispatch, handle_request, ControllerState, OutputReport, Session,
    SubcommandRequest,
};

const STICK_CALIBRATION: [u8; 18] = [
    0x00, 0x07, 0x70, 0x00, 0x08, 0x80, 0x00, 0x07, 0x70, 0x00, 0x08, 0x80, 0x00, 0x07, 0x70,
    0x00, 0x07, 0x70,
];

fn subcommand_frame(id: u8, args: &[u8]) -> [u8; 64] {
    let mut f = [0u8; 64];
    f[0] = 0x01;
    f[1] = 0x05;
    f[10] = id;
    f[11..11 + args.len()].copy_from_slice(args);
    f
}

fn streaming_session() -> Session {
    let mut s = Session::new();
    s.connect();
    s
}

#[test]
fn device_info_request_reply() {
    let mut s = streaming_session();
    let out = s.on_frame(&subcommand_frame(0x02, &[]));
    let f = out.reply.expect("device info is answered");
    assert_eq!(f[0], 0x21);
    assert_eq!(f[1], 1);
    assert_eq!(f[13], 0x82);
    assert_eq!(f[14], 0x02);
    assert_eq!(
        &f[15..27],
        &[0x03, 0x48, 0x03, 0x02, 0xDC, 0x68, 0xEB, 0xED, 0x5C, 0x79, 0x01, 0x00]
    );
    assert!(f[27..].iter().all(|b| *b == 0));
    assert!(!out.start_streaming);
}

#[test]
fn device_info_fields() {
    let d = device_info();
    assert_eq!([d.firmware_major, d.firmware_minor], [0x03, 0x48]);
    assert_eq!(d.controller_kind, 0x03);
    assert_eq!(d.mac, [0xDC, 0x68, 0xEB, 0xED, 0x5C, 0x79]);
    assert_eq!(d.to_bytes().len(), 12);
}

#[test]
fn stick_calibration_read_reply() {
    let mut s = streaming_session();
    let f = s
        .on_frame(&subcommand_frame(0x10, &[0x3D, 0x60, 0x00, 0x00, 0x12]))
        .reply
        .expect("calibration read is answered");
    assert_eq!(f[13], ACK_SPI_READ);
    assert_eq!(f[14], 0x10);
    assert_eq!(&f[15..20], &[0x3D, 0x60, 0x00, 0x00, 0x12]);
    assert_eq!(&f[20..38], &STICK_CALIBRATION);
    assert!(f[38..].iter().all(|b| *b == 0));
}

#[test]
fn read_outside_every_region_has_no_reply() {
    let mut s = streaming_session();
    let before = s.controller().timer();
    let out = s.on_frame(&subcommand_frame(0x10, &[0x00, 0x70, 0x00, 0x00, 0x10]));
    assert!(out.reply.is_none());
    assert_eq!(s.controller().timer(), before);
}

#[test]
fn read_inside_region_returns_whole_region() {
    let r = dispatch(&SubcommandRequest::SpiRead { address: 0x6045, size: 2 }).unwrap();
    assert_eq!(r.ack, ACK_SPI_READ);
    assert_eq!(&r.data[..5], &[0x3D, 0x60, 0x00, 0x00, 0x12]);
    assert_eq!(&r.data[5..], &STICK_CALIBRATION);
}

#[test]
fn simple_subcommands_get_empty_ack() {
    for req in [
        SubcommandRequest::GetOnlyControllerState,
        SubcommandRequest::BluetoothManualPairing,
        SubcommandRequest::SetInputReportMode(0x30),
        SubcommandRequest::SetShipmentMode(0),
        SubcommandRequest::SetMcuState(1),
        SubcommandRequest::SetUnknownData,
        SubcommandRequest::SetPlayerLights(1),
        SubcommandRequest::SetHomeLight,
        SubcommandRequest::SetImuMode(1),
        SubcommandRequest::SetImuSens,
        SubcommandRequest::EnableVibration(1),
        SubcommandRequest::Reserved(0x5A),
        SubcommandRequest::Unrecognized(0x77),
    ] {
        let r = dispatch(&req).expect("acknowledged");
        assert_eq!(r.ack, ACK_EMPTY);
        assert_eq!(r.subcommand_id, req.id());
        assert!(r.data.is_empty());
    }
}

#[test]
fn data_replies() {
    let t = dispatch(&SubcommandRequest::GetTriggerButtonsElapsedTime).unwrap();
    assert_eq!((t.ack, t.subcommand_id), (0x83, 0x04));
    assert_eq!(t.data, vec![0u8; 14]);
    let w = dispatch(&SubcommandRequest::SpiWrite { address: 0x8010, size: 4 }).unwrap();
    assert_eq!((w.ack, w.subcommand_id, w.data), (0x80, 0x11, vec![0x00]));
    let m = dispatch(&SubcommandRequest::SetMcuConf).unwrap();
    assert_eq!((m.ack, m.subcommand_id), (0xA0, 0x21));
    assert_eq!(m.data, vec![0x01, 0x00, 0xFF, 0x00, 0x08, 0x00, 0x1B, 0x01]);
    let d = dispatch(&SubcommandRequest::RequestDeviceInfo).unwrap();
    assert_eq!(d.ack, ACK_DEVICE_INFO);
}

#[test]
fn accessory_request_is_ignored() {
    assert!(dispatch(&SubcommandRequest::MaybeAccessory).is_none());
    let mut s = streaming_session();
    assert!(s.on_frame(&subcommand_frame(0x58, &[1, 2, 3])).reply.is_none());
}

#[test]
fn decode_subcommand_ids() {
    let mut p = [0u8; 53];
    p[..5].copy_from_slice(&[0x20, 0x60, 0x00, 0x00, 0x18]);
    assert_eq!(
        SubcommandRequest::decode(0x10, &p),
        SubcommandRequest::SpiRead { address: 0x6020, size: 0x18 }
    );
    assert_eq!(SubcommandRequest::decode(0x03, &p), SubcommandRequest::SetInputReportMode(0x20));
    assert_eq!(SubcommandRequest::decode(0x5C, &p), SubcommandRequest::Reserved(0x5C));
    assert_eq!(SubcommandRequest::decode(0x58, &p), SubcommandRequest::MaybeAccessory);
    assert_eq!(SubcommandRequest::decode(0x99, &p), SubcommandRequest::Unrecognized(0x99));
}

#[test]
fn non_subcommand_reports_have_no_reply() {
    let mut state = ControllerState::new();
    let rumble = OutputReport::RumbleOnly { counter: 1, rumble_l: [0; 4], rumble_r: [0; 4] };
    assert!(handle_request(&rumble, &mut state).is_none());
    let mcu = OutputReport::RequestMcuData {
        counter: 1,
        rumble_l: [0; 4],
        rumble_r: [0; 4],
        subcommand: 1,
        payload: [0; 53],
    };
    assert!(handle_request(&mcu, &mut state).is_none());
    assert!(handle_request(&OutputReport::McuFwUpdate { body: [0; 63] }, &mut state).is_none());
    assert_eq!(state.timer(), 0);
}

#[test]
fn subcommand_reply_advances_timer() {
    let mut state = ControllerState::new();
    let req = OutputReport::RumbleAndSubcmd {
        counter: 0,
        rumble_l: [0; 4],
        rumble_r: [0; 4],
        subcommand_id: 0x48,
        payload: [0; 53],
    };
    let r = handle_request(&req, &mut state).unwrap();
    assert_eq!(r.standard.timer, 1);
    assert_eq!(state.timer(), 1);
    assert_eq!((r.reply.ack, r.reply.subcommand_id), (0x80, 0x48));
    let f = r.encode();
    assert_eq!(&f[..3], &[0x21, 0x01, 0x00]);
    assert_eq!(&f[6..12], &[0x00, 0x08, 0x80, 0x00, 0x08, 0x80]);
    assert_eq!(&f[13..15], &[0x80, 0x48]);
}
