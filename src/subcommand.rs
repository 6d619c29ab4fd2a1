//! Subcommands multiplexed inside rumble-class output reports: decoding of a
//! request from its ID and payload, and the reply policy for each of them.
use vstd::prelude::*;
use crate::report::{device_info, device_mac, firmware_version, ReplyView, SubcommandReply, PRO_CONTROLLER};
use crate::storage::{handle_spi_read, region_at, region_base, region_payload, StorageRegion};

verus! {

/// Bytes of subcommand payload carried by an output report.
pub const SUBCMD_PAYLOAD_LEN: usize = 53;

/// Acknowledgment byte of a reply that carries no data.
pub const ACK_EMPTY: u8 = 0x80;

pub const ACK_DEVICE_INFO: u8 = 0x82;

pub const ACK_TRIGGER_TIME: u8 = 0x83;

pub const ACK_SPI_READ: u8 = 0x90;

pub const ACK_MCU: u8 = 0xA0;

/// A decoded subcommand request.
#[derive(Clone, Copy, Debug, PartialEq, Eq, Structural)]
pub enum SubcommandRequest {
    GetOnlyControllerState,
    BluetoothManualPairing,
    RequestDeviceInfo,
    SetInputReportMode(u8),
    GetTriggerButtonsElapsedTime,
    SetShipmentMode(u8),
    SpiRead { address: u32, size: u8 },
    SpiWrite { address: u32, size: u8 },
    SetMcuConf,
    SetMcuState(u8),
    SetUnknownData,
    SetPlayerLights(u8),
    SetHomeLight,
    SetImuMode(u8),
    SetImuSens,
    EnableVibration(u8),
    /// Configuration of an attached accessory, which is not modeled.
    MaybeAccessory,
    /// One of the reserved IDs `0x59..=0x5C`.
    Reserved(u8),
    /// An ID outside the known set.
    Unrecognized(u8),
}

/// Little-endian `u32` from the first four bytes of `p`.
pub open spec fn le_u32(p: Seq<u8>) -> u32 {
    (p[0] + p[1] * 0x100 + p[2] * 0x1_0000 + p[3] * 0x100_0000) as u32
}

/// Little-endian bytes of `v`.
pub open spec fn le_bytes(v: u32) -> Seq<u8> {
    seq![
        (v % 0x100) as u8,
        ((v / 0x100) % 0x100) as u8,
        ((v / 0x1_0000) % 0x100) as u8,
        (v / 0x100_0000) as u8,
    ]
}

/// The request with subcommand ID `id` and payload `p`.
pub open spec fn request_of(id: u8, p: Seq<u8>) -> SubcommandRequest {
    match id {
        0x00 => SubcommandRequest::GetOnlyControllerState,
        0x01 => SubcommandRequest::BluetoothManualPairing,
        0x02 => SubcommandRequest::RequestDeviceInfo,
        0x03 => SubcommandRequest::SetInputReportMode(p[0]),
        0x04 => SubcommandRequest::GetTriggerButtonsElapsedTime,
        0x08 => SubcommandRequest::SetShipmentMode(p[0]),
        0x10 => SubcommandRequest::SpiRead { address: le_u32(p), size: p[4] },
        0x11 => SubcommandRequest::SpiWrite { address: le_u32(p), size: p[4] },
        0x21 => SubcommandRequest::SetMcuConf,
        0x22 => SubcommandRequest::SetMcuState(p[0]),
        0x24 => SubcommandRequest::SetUnknownData,
        0x30 => SubcommandRequest::SetPlayerLights(p[0]),
        0x38 => SubcommandRequest::SetHomeLight,
        0x40 => SubcommandRequest::SetImuMode(p[0]),
        0x41 => SubcommandRequest::SetImuSens,
        0x48 => SubcommandRequest::EnableVibration(p[0]),
        0x58 => SubcommandRequest::MaybeAccessory,
        0x59 | 0x5A | 0x5B | 0x5C => SubcommandRequest::Reserved(id),
        _ => SubcommandRequest::Unrecognized(id),
    }
}

impl SubcommandRequest {
    pub open spec fn spec_id(self) -> u8 {
        match self {
            SubcommandRequest::GetOnlyControllerState => 0x00,
            SubcommandRequest::BluetoothManualPairing => 0x01,
            SubcommandRequest::RequestDeviceInfo => 0x02,
            SubcommandRequest::SetInputReportMode(_) => 0x03,
            SubcommandRequest::GetTriggerButtonsElapsedTime => 0x04,
            SubcommandRequest::SetShipmentMode(_) => 0x08,
            SubcommandRequest::SpiRead { .. } => 0x10,
            SubcommandRequest::SpiWrite { .. } => 0x11,
            SubcommandRequest::SetMcuConf => 0x21,
            SubcommandRequest::SetMcuState(_) => 0x22,
            SubcommandRequest::SetUnknownData => 0x24,
            SubcommandRequest::SetPlayerLights(_) => 0x30,
            SubcommandRequest::SetHomeLight => 0x38,
            SubcommandRequest::SetImuMode(_) => 0x40,
            SubcommandRequest::SetImuSens => 0x41,
            SubcommandRequest::EnableVibration(_) => 0x48,
            SubcommandRequest::MaybeAccessory => 0x58,
            SubcommandRequest::Reserved(id) => id,
            SubcommandRequest::Unrecognized(id) => id,
        }
    }

    /// The subcommand ID of this request.
    pub fn id(&self) -> (r: u8)
        ensures
            r == self.spec_id(),
    {
        match self {
            SubcommandRequest::GetOnlyControllerState => 0x00,
            SubcommandRequest::BluetoothManualPairing => 0x01,
            SubcommandRequest::RequestDeviceInfo => 0x02,
            SubcommandRequest::SetInputReportMode(_) => 0x03,
            SubcommandRequest::GetTriggerButtonsElapsedTime => 0x04,
            SubcommandRequest::SetShipmentMode(_) => 0x08,
            SubcommandRequest::SpiRead { .. } => 0x10,
            SubcommandRequest::SpiWrite { .. } => 0x11,
            SubcommandRequest::SetMcuConf => 0x21,
            SubcommandRequest::SetMcuState(_) => 0x22,
            SubcommandRequest::SetUnknownData => 0x24,
            SubcommandRequest::SetPlayerLights(_) => 0x30,
            SubcommandRequest::SetHomeLight => 0x38,
            SubcommandRequest::SetImuMode(_) => 0x40,
            SubcommandRequest::SetImuSens => 0x41,
            SubcommandRequest::EnableVibration(_) => 0x48,
            SubcommandRequest::MaybeAccessory => 0x58,
            SubcommandRequest::Reserved(id) => *id,
            SubcommandRequest::Unrecognized(id) => *id,
        }
    }

    /// Decodes the request with subcommand ID `id` from its payload. Every ID
    /// decodes: those outside the known set become `Unrecognized`.
    pub fn decode(id: u8, payload: &[u8; 53]) -> (r: SubcommandRequest)
        ensures
            r == request_of(id, payload@),
    {
        match id {
            0x00 => SubcommandRequest::GetOnlyControllerState,
            0x01 => SubcommandRequest::BluetoothManualPairing,
            0x02 => SubcommandRequest::RequestDeviceInfo,
            0x03 => SubcommandRequest::SetInputReportMode(payload[0]),
            0x04 => SubcommandRequest::GetTriggerButtonsElapsedTime,
            0x08 => SubcommandRequest::SetShipmentMode(payload[0]),
            0x10 => SubcommandRequest::SpiRead { address: read_le_u32(payload), size: payload[4] },
            0x11 => SubcommandRequest::SpiWrite { address: read_le_u32(payload), size: payload[4] },
            0x21 => SubcommandRequest::SetMcuConf,
            0x22 => SubcommandRequest::SetMcuState(payload[0]),
            0x24 => SubcommandRequest::SetUnknownData,
            0x30 => SubcommandRequest::SetPlayerLights(payload[0]),
            0x38 => SubcommandRequest::SetHomeLight,
            0x40 => SubcommandRequest::SetImuMode(payload[0]),
            0x41 => SubcommandRequest::SetImuSens,
            0x48 => SubcommandRequest::EnableVibration(payload[0]),
            0x58 => SubcommandRequest::MaybeAccessory,
            0x59 | 0x5A | 0x5B | 0x5C => SubcommandRequest::Reserved(id),
            _ => SubcommandRequest::Unrecognized(id),
        }
    }
}

fn read_le_u32(p: &[u8; 53]) -> (r: u32)
    ensures
        r == le_u32(p@),
{
    p[0] as u32 + p[1] as u32 * 0x100 + p[2] as u32 * 0x1_0000 + p[3] as u32 * 0x100_0000
}

/// The device-info record of the emulated controller, on the wire.
pub open spec fn configured_device_info() -> Seq<u8> {
    firmware_version() + seq![PRO_CONTROLLER, 0x02u8] + device_mac() + seq![0x01u8, 0x00]
}

/// Status of an idle auxiliary microcontroller, sent when the host configures it.
pub open spec fn mcu_standby_report() -> Seq<u8> {
    seq![0x01u8, 0x00, 0xFF, 0x00, 0x08, 0x00, 0x1B, 0x01]
}

/// Data of a storage-read reply: the region's base address and length, then
/// its bytes.
pub open spec fn spi_read_data(g: StorageRegion) -> Seq<u8> {
    le_bytes(region_base(g)) + seq![region_payload(g).len() as u8] + region_payload(g)
}

/// An acknowledgment without data.
pub open spec fn empty_ack(id: u8) -> ReplyView {
    ReplyView { ack: ACK_EMPTY, subcommand_id: id, data: Seq::empty() }
}

/// The reply policy. Accessory configuration is left unanswered (the host
/// times out on its own), as is a storage read outside every region; device
/// info, trigger timing, storage reads and writes and auxiliary configuration
/// carry data; everything else, reserved and unrecognized IDs included, gets
/// an empty acknowledgment.
pub open spec fn reply_of(req: SubcommandRequest) -> Option<ReplyView> {
    match req {
        SubcommandRequest::MaybeAccessory => None,
        SubcommandRequest::SpiRead { address, .. } => match region_at(address) {
            Some(g) => Some(ReplyView { ack: ACK_SPI_READ, subcommand_id: 0x10, data: spi_read_data(g) }),
            None => None,
        },
        SubcommandRequest::RequestDeviceInfo => Some(
            ReplyView { ack: ACK_DEVICE_INFO, subcommand_id: 0x02, data: configured_device_info() },
        ),
        SubcommandRequest::GetTriggerButtonsElapsedTime => Some(
            ReplyView { ack: ACK_TRIGGER_TIME, subcommand_id: 0x04, data: Seq::new(14, |i: int| 0u8) },
        ),
        SubcommandRequest::SpiWrite { .. } => Some(
            ReplyView { ack: ACK_EMPTY, subcommand_id: 0x11, data: seq![0x00u8] },
        ),
        SubcommandRequest::SetMcuConf => Some(
            ReplyView { ack: ACK_MCU, subcommand_id: 0x21, data: mcu_standby_report() },
        ),
        _ => Some(empty_ack(req.spec_id())),
    }
}

/// Answers one subcommand request following `reply_of`. Never touches the
/// controller state; storage writes are acknowledged without being stored.
pub fn dispatch(req: &SubcommandRequest) -> (r: Option<SubcommandReply>)
    ensures
        match reply_of(*req) {
            Some(v) => r matches Some(x) && x@ == v,
            None => r is None,
        },
        r matches Some(x) ==> x.data@.len() <= 49,
{
    match req {
        SubcommandRequest::MaybeAccessory => None,
        SubcommandRequest::SpiRead { address, .. } => match handle_spi_read(*address) {
            Some(res) => {
                let mut data: Vec<u8> = Vec::new();
                data.push((res.address % 0x100) as u8);
                data.push(((res.address / 0x100) % 0x100) as u8);
                data.push(((res.address / 0x1_0000) % 0x100) as u8);
                data.push((res.address / 0x100_0000) as u8);
                data.push(res.size);
                let mut bytes = res.data;
                data.append(&mut bytes);
                proof {
                    let g = region_at(*address)->0;
                    assert(data@ =~= spi_read_data(g));
                }
                Some(SubcommandReply { ack: ACK_SPI_READ, subcommand_id: 0x10, data })
            },
            None => None,
        },
        SubcommandRequest::RequestDeviceInfo => {
            let data = device_info().to_bytes();
            assert(data@ =~= configured_device_info());
            Some(SubcommandReply { ack: ACK_DEVICE_INFO, subcommand_id: 0x02, data })
        },
        SubcommandRequest::GetTriggerButtonsElapsedTime => {
            let data = vec![0u8; 14];
            assert(data@ =~= Seq::new(14, |i: int| 0u8));
            Some(SubcommandReply { ack: ACK_TRIGGER_TIME, subcommand_id: 0x04, data })
        },
        SubcommandRequest::SpiWrite { .. } => {
            let data = vec![0x00u8];
            assert(data@ =~= seq![0x00u8]);
            Some(SubcommandReply { ack: ACK_EMPTY, subcommand_id: 0x11, data })
        },
        SubcommandRequest::SetMcuConf => {
            let data = vec![0x01u8, 0x00, 0xFF, 0x00, 0x08, 0x00, 0x1B, 0x01];
            assert(data@ =~= mcu_standby_report());
            Some(SubcommandReply { ack: ACK_MCU, subcommand_id: 0x21, data })
        },
        _ => {
            let data: Vec<u8> = Vec::new();
            assert(data@ =~= Seq::<u8>::empty());
            Some(SubcommandReply { ack: ACK_EMPTY, subcommand_id: req.id(), data })
        },
    }
}

} // verus!
