//! Device-to-host reports: subcommand replies, the device-info record and the
//! standard report that carries them.
use vstd::prelude::*;
use crate::controller::{Stick, StandardInputReport};
use crate::frame::zero_pad;

verus! {

/// Report ID of a standard report carrying a subcommand reply.
pub const STANDARD_AND_SUBCMD_ID: u8 = 0x21;

/// Bytes of a frame in front of a subcommand reply's data.
pub const REPLY_DATA_OFFSET: usize = 15;

/// Largest amount of reply data that fits in one frame.
pub const MAX_REPLY_DATA: usize = 49;

/// Identity of the emulated controller, as sent in device-info replies.
#[derive(Clone, Copy, Debug)]
pub struct DeviceInfo {
    pub firmware_major: u8,
    pub firmware_minor: u8,
    pub controller_kind: u8,
    pub mac: [u8; 6],
    pub use_spi_colors: u8,
}

/// The wire form of a device-info record.
pub open spec fn device_info_bytes(d: DeviceInfo) -> Seq<u8> {
    seq![d.firmware_major, d.firmware_minor, d.controller_kind, 0x02u8] + d.mac@ + seq![
        0x01u8,
        d.use_spi_colors,
    ]
}

/// Firmware version reported to the host.
pub open spec fn firmware_version() -> Seq<u8> {
    seq![0x03u8, 0x48]
}

/// Controller kind byte of a full-size pro controller.
pub const PRO_CONTROLLER: u8 = 0x03;

/// Device identifier (MAC-like, most significant byte first).
pub open spec fn device_mac() -> Seq<u8> {
    seq![0xDCu8, 0x68, 0xEB, 0xED, 0x5C, 0x79]
}

/// The configured identity: firmware version, controller kind, identifier,
/// and no custom colors.
pub fn device_info() -> (r: DeviceInfo)
    ensures
        seq![r.firmware_major, r.firmware_minor] == firmware_version(),
        r.controller_kind == PRO_CONTROLLER,
        r.mac@ == device_mac(),
        r.use_spi_colors == 0,
{
    let r = DeviceInfo {
        firmware_major: 0x03,
        firmware_minor: 0x48,
        controller_kind: PRO_CONTROLLER,
        mac: [0xDC, 0x68, 0xEB, 0xED, 0x5C, 0x79],
        use_spi_colors: 0,
    };
    assert(r.mac@ =~= device_mac());
    assert(seq![r.firmware_major, r.firmware_minor] =~= firmware_version());
    r
}

impl DeviceInfo {
    pub fn to_bytes(&self) -> (r: Vec<u8>)
        ensures
            r@ == device_info_bytes(*self),
    {
        let r = vec![
            self.firmware_major,
            self.firmware_minor,
            self.controller_kind,
            0x02,
            self.mac[0],
            self.mac[1],
            self.mac[2],
            self.mac[3],
            self.mac[4],
            self.mac[5],
            0x01,
            self.use_spi_colors,
        ];
        assert(r@ =~= device_info_bytes(*self));
        r
    }
}

/// A reply to one subcommand: an acknowledgment byte, the subcommand's ID and
/// the reply's data.
#[derive(Debug)]
pub struct SubcommandReply {
    pub ack: u8,
    pub subcommand_id: u8,
    pub data: Vec<u8>,
}

/// The mathematical content of a subcommand reply.
pub ghost struct ReplyView {
    pub ack: u8,
    pub subcommand_id: u8,
    pub data: Seq<u8>,
}

impl View for SubcommandReply {
    type V = ReplyView;

    open spec fn view(&self) -> ReplyView {
        ReplyView { ack: self.ack, subcommand_id: self.subcommand_id, data: self.data@ }
    }
}

/// The three wire bytes of a stick: x in the low 12 bits, y in the high 12.
pub open spec fn stick_bytes(s: Stick) -> Seq<u8> {
    seq![
        (s.x % 256) as u8,
        ((s.x / 256) % 16 + (s.y % 16) * 16) as u8,
        ((s.y / 16) % 256) as u8,
    ]
}

/// The twelve bytes of a standard report that follow its report ID.
pub open spec fn standard_bytes(r: StandardInputReport) -> Seq<u8> {
    seq![r.timer, r.info, r.buttons.right, r.buttons.middle, r.buttons.left] + stick_bytes(
        r.left_stick,
    ) + stick_bytes(r.right_stick) + seq![r.vibrator]
}

/// The frame of a standard report carrying `reply`.
pub open spec fn input_frame(standard: StandardInputReport, reply: ReplyView) -> Seq<u8> {
    zero_pad(
        seq![STANDARD_AND_SUBCMD_ID] + standard_bytes(standard) + seq![
            reply.ack,
            reply.subcommand_id,
        ] + reply.data,
    )
}

fn write_stick(f: &mut [u8; 64], at: usize, s: Stick)
    requires
        at + 3 <= 64,
    ensures
        forall|j: int|
            0 <= j < 64 && !(at <= j < at + 3) ==> #[trigger] final(f)@[j] == old(f)@[j],
        final(f)@.subrange(at as int, at + 3) == stick_bytes(s),
{
    f[at] = (s.x % 256) as u8;
    f[at + 1] = ((s.x / 256) % 16 + (s.y % 16) * 16) as u8;
    f[at + 2] = ((s.y / 16) % 256) as u8;
    assert(f@.subrange(at as int, at + 3) =~= stick_bytes(s));
}

/// A standard report together with the subcommand reply it carries.
#[derive(Debug)]
pub struct InputReport {
    pub standard: StandardInputReport,
    pub reply: SubcommandReply,
}

impl InputReport {
    /// The 64-byte frame of this report, zero-padded after the reply data.
    pub fn encode(&self) -> (f: [u8; 64])
        requires
            self.reply.data@.len() <= MAX_REPLY_DATA,
        ensures
            f@ == input_frame(self.standard, self.reply@),
    {
        let s = &self.standard;
        let mut f = [0u8; 64];
        f[0] = STANDARD_AND_SUBCMD_ID;
        f[1] = s.timer;
        f[2] = s.info;
        f[3] = s.buttons.right;
        f[4] = s.buttons.middle;
        f[5] = s.buttons.left;
        write_stick(&mut f, 6, s.left_stick);
        write_stick(&mut f, 9, s.right_stick);
        f[12] = s.vibrator;
        f[13] = self.reply.ack;
        f[14] = self.reply.subcommand_id;
        let ghost head = seq![STANDARD_AND_SUBCMD_ID] + standard_bytes(*s) + seq![
            self.reply.ack,
            self.reply.subcommand_id,
        ];
        assert(f@.subrange(0, 15) =~= head) by {
            assert(f@.subrange(6, 9) == stick_bytes(s.left_stick));
            assert(f@.subrange(9, 12) == stick_bytes(s.right_stick));
            assert forall|j: int| 6 <= j < 9 implies f@[j] == f@.subrange(6, 9)[j - 6] by {}
            assert forall|j: int| 9 <= j < 12 implies f@[j] == f@.subrange(9, 12)[j - 9] by {}
        }
        let n = self.reply.data.len();
        for i in 0..n
            invariant
                n == self.reply.data@.len(),
                n <= MAX_REPLY_DATA,
                f@.subrange(0, 15) == head,
                forall|j: int| 0 <= j < i ==> f@[15 + j] == self.reply.data@[j],
                forall|j: int| 15 + i <= j < 64 ==> f@[j] == 0u8,
        {
            let ghost before = f@;
            f[REPLY_DATA_OFFSET + i] = self.reply.data[i];
            assert(f@.subrange(0, 15) =~= before.subrange(0, 15));
        }
        assert(f@ =~= input_frame(self.standard, self.reply@)) by {
            assert forall|j: int| 0 <= j < 15 implies f@[j] == f@.subrange(0, 15)[j] by {}
        }
        f
    }
}

} // verus!
