//! Host-to-device frames: classification of a raw 64-byte frame into a typed
//! output report, and the inverse encoding.
use vstd::prelude::*;
use crate::frame::zero_pad;
use crate::handshake::{control_kind, handshake_response, NintendoReportType, CONTROL_REPORT_ID};

verus! {

pub const RUMBLE_AND_SUBCMD_ID: u8 = 0x01;

pub const MCU_FW_UPDATE_ID: u8 = 0x03;

pub const RUMBLE_ONLY_ID: u8 = 0x10;

pub const REQUEST_MCU_DATA_ID: u8 = 0x11;

/// A frame from the host, by report ID.
#[derive(Clone, Copy, Debug)]
pub enum OutputReport {
    /// A bring-up control frame.
    Control(NintendoReportType),
    /// Rumble data for both motors followed by a subcommand and its payload.
    RumbleAndSubcmd {
        counter: u8,
        rumble_l: [u8; 4],
        rumble_r: [u8; 4],
        subcommand_id: u8,
        payload: [u8; 53],
    },
    /// Rumble data alone.
    RumbleOnly { counter: u8, rumble_l: [u8; 4], rumble_r: [u8; 4] },
    /// A chunk of firmware for the auxiliary microcontroller.
    McuFwUpdate { body: [u8; 63] },
    /// Rumble data followed by a request to the auxiliary microcontroller.
    RequestMcuData {
        counter: u8,
        rumble_l: [u8; 4],
        rumble_r: [u8; 4],
        subcommand: u8,
        payload: [u8; 53],
    },
}

/// The frame that encodes `r`.
pub open spec fn output_frame(r: OutputReport) -> Seq<u8> {
    match r {
        OutputReport::Control(k) => zero_pad(seq![CONTROL_REPORT_ID, k.spec_code()]),
        OutputReport::RumbleAndSubcmd { counter, rumble_l, rumble_r, subcommand_id, payload } =>
            seq![RUMBLE_AND_SUBCMD_ID, counter] + rumble_l@ + rumble_r@ + seq![subcommand_id]
                + payload@,
        OutputReport::RumbleOnly { counter, rumble_l, rumble_r } => zero_pad(
            seq![RUMBLE_ONLY_ID, counter] + rumble_l@ + rumble_r@,
        ),
        OutputReport::McuFwUpdate { body } => seq![MCU_FW_UPDATE_ID] + body@,
        OutputReport::RequestMcuData { counter, rumble_l, rumble_r, subcommand, payload } =>
            seq![REQUEST_MCU_DATA_ID, counter] + rumble_l@ + rumble_r@ + seq![subcommand]
                + payload@,
    }
}

/// A 64-byte frame `b` that a decoder classifies at all.
pub open spec fn known_frame(b: Seq<u8>) -> bool {
    ||| b[0] == CONTROL_REPORT_ID && control_kind(b[1]) is Some
    ||| b[0] == RUMBLE_AND_SUBCMD_ID
    ||| b[0] == RUMBLE_ONLY_ID
    ||| b[0] == MCU_FW_UPDATE_ID
    ||| b[0] == REQUEST_MCU_DATA_ID
}

/// `r` is the report that the 64-byte frame `b` holds: its variant is the one
/// that the report ID selects and each field is read from its place.
pub open spec fn decodes_to(b: Seq<u8>, r: OutputReport) -> bool {
    &&& b.len() == 64
    &&& match r {
        OutputReport::Control(k) => b[0] == CONTROL_REPORT_ID && control_kind(b[1]) == Some(k),
        OutputReport::RumbleAndSubcmd { counter, rumble_l, rumble_r, subcommand_id, payload } => {
            &&& b[0] == RUMBLE_AND_SUBCMD_ID
            &&& b[1] == counter
            &&& rumble_l@ == b.subrange(2, 6)
            &&& rumble_r@ == b.subrange(6, 10)
            &&& b[10] == subcommand_id
            &&& payload@ == b.subrange(11, 64)
        },
        OutputReport::RumbleOnly { counter, rumble_l, rumble_r } => {
            &&& b[0] == RUMBLE_ONLY_ID
            &&& b[1] == counter
            &&& rumble_l@ == b.subrange(2, 6)
            &&& rumble_r@ == b.subrange(6, 10)
        },
        OutputReport::McuFwUpdate { body } => b[0] == MCU_FW_UPDATE_ID && body@ == b.subrange(
            1,
            64,
        ),
        OutputReport::RequestMcuData { counter, rumble_l, rumble_r, subcommand, payload } => {
            &&& b[0] == REQUEST_MCU_DATA_ID
            &&& b[1] == counter
            &&& rumble_l@ == b.subrange(2, 6)
            &&& rumble_r@ == b.subrange(6, 10)
            &&& b[10] == subcommand
            &&& payload@ == b.subrange(11, 64)
        },
    }
}

/// A frame holds at most one report.
pub proof fn lemma_decodes_to_unique(b: Seq<u8>, r1: OutputReport, r2: OutputReport)
    requires
        decodes_to(b, r1),
        decodes_to(b, r2),
    ensures
        r1 == r2,
{
    match (r1, r2) {
        (
            OutputReport::RumbleAndSubcmd { rumble_l: l1, rumble_r: q1, payload: p1, .. },
            OutputReport::RumbleAndSubcmd { rumble_l: l2, rumble_r: q2, payload: p2, .. },
        ) => {
            assert(l1 =~= l2);
            assert(q1 =~= q2);
            assert(p1 =~= p2);
        },
        (
            OutputReport::RumbleOnly { rumble_l: l1, rumble_r: q1, .. },
            OutputReport::RumbleOnly { rumble_l: l2, rumble_r: q2, .. },
        ) => {
            assert(l1 =~= l2);
            assert(q1 =~= q2);
        },
        (OutputReport::McuFwUpdate { body: b1 }, OutputReport::McuFwUpdate { body: b2 }) => {
            assert(b1 =~= b2);
        },
        (
            OutputReport::RequestMcuData { rumble_l: l1, rumble_r: q1, payload: p1, .. },
            OutputReport::RequestMcuData { rumble_l: l2, rumble_r: q2, payload: p2, .. },
        ) => {
            assert(l1 =~= l2);
            assert(q1 =~= q2);
            assert(p1 =~= p2);
        },
        _ => {},
    }
}

/// Encoding any report and decoding the frame gives back that same report,
/// and nothing else.
pub proof fn lemma_output_round_trip(r: OutputReport)
    ensures
        output_frame(r).len() == 64,
        known_frame(output_frame(r)),
        decodes_to(output_frame(r), r),
        forall|r2: OutputReport| decodes_to(output_frame(r), r2) ==> r2 == r,
{
    let b = output_frame(r);
    match r {
        OutputReport::Control(k) => {},
        OutputReport::RumbleAndSubcmd { rumble_l, rumble_r, payload, .. } => {
            assert(rumble_l@ =~= b.subrange(2, 6));
            assert(rumble_r@ =~= b.subrange(6, 10));
            assert(payload@ =~= b.subrange(11, 64));
        },
        OutputReport::RumbleOnly { rumble_l, rumble_r, .. } => {
            assert(rumble_l@ =~= b.subrange(2, 6));
            assert(rumble_r@ =~= b.subrange(6, 10));
        },
        OutputReport::McuFwUpdate { body } => {
            assert(body@ =~= b.subrange(1, 64));
        },
        OutputReport::RequestMcuData { rumble_l, rumble_r, payload, .. } => {
            assert(rumble_l@ =~= b.subrange(2, 6));
            assert(rumble_r@ =~= b.subrange(6, 10));
            assert(payload@ =~= b.subrange(11, 64));
        },
    }
    assert forall|r2: OutputReport| decodes_to(b, r2) implies r2 == r by {
        lemma_decodes_to_unique(b, r, r2);
    }
}

/// Bytes `at .. at + N` of a frame.
fn take<const N: usize>(f: &[u8; 64], at: usize) -> (r: [u8; N])
    requires
        at + N <= 64,
    ensures
        r@ == f@.subrange(at as int, at + N),
{
    let mut r = [0u8; N];
    for i in 0..N
        invariant
            at + N <= 64,
            forall|j: int| 0 <= j < i ==> r@[j] == f@[at + j],
    {
        r[i] = f[at + i];
    }
    assert(r@ =~= f@.subrange(at as int, at + N));
    r
}

/// Writes `src` at `at .. at + N` of a frame.
fn put<const N: usize>(f: &mut [u8; 64], at: usize, src: &[u8; N])
    requires
        at + N <= 64,
    ensures
        final(f)@ == old(f)@.subrange(0, at as int) + src@ + old(f)@.subrange(at + N, 64),
{
    let ghost start = f@;
    for i in 0..N
        invariant
            at + N <= 64,
            f@.len() == 64,
            forall|j: int| 0 <= j < at ==> f@[j] == start[j],
            forall|j: int| 0 <= j < i ==> f@[at + j] == src@[j],
            forall|j: int| at + i <= j < 64 ==> f@[j] == start[j],
    {
        f[at + i] = src[i];
    }
    assert(f@ =~= start.subrange(0, at as int) + src@ + start.subrange(at + N, 64));
}

/// Classifies a frame by its report ID. Control frames are recognized by
/// their second byte; unknown report IDs and unknown control frames give
/// `None`, never an error.
pub fn decode_output(frame: &[u8; 64]) -> (r: Option<OutputReport>)
    ensures
        r is Some <==> known_frame(frame@),
        r matches Some(report) ==> decodes_to(frame@, report),
{
    let id = frame[0];
    if id == CONTROL_REPORT_ID {
        match handshake_response(frame) {
            Some(k) => Some(OutputReport::Control(k)),
            None => None,
        }
    } else if id == RUMBLE_AND_SUBCMD_ID {
        Some(
            OutputReport::RumbleAndSubcmd {
                counter: frame[1],
                rumble_l: take(frame, 2),
                rumble_r: take(frame, 6),
                subcommand_id: frame[10],
                payload: take(frame, 11),
            },
        )
    } else if id == RUMBLE_ONLY_ID {
        Some(
            OutputReport::RumbleOnly {
                counter: frame[1],
                rumble_l: take(frame, 2),
                rumble_r: take(frame, 6),
            },
        )
    } else if id == MCU_FW_UPDATE_ID {
        Some(OutputReport::McuFwUpdate { body: take(frame, 1) })
    } else if id == REQUEST_MCU_DATA_ID {
        Some(
            OutputReport::RequestMcuData {
                counter: frame[1],
                rumble_l: take(frame, 2),
                rumble_r: take(frame, 6),
                subcommand: frame[10],
                payload: take(frame, 11),
            },
        )
    } else {
        None
    }
}

impl OutputReport {
    /// The 64-byte frame of this report, zero-padded where the report is shorter.
    pub fn encode(&self) -> (f: [u8; 64])
        ensures
            f@ == output_frame(*self),
    {
        let mut f = [0u8; 64];
        match self {
            OutputReport::Control(k) => {
                f[0] = CONTROL_REPORT_ID;
                f[1] = k.code();
                assert(f@ =~= output_frame(*self));
            },
            OutputReport::RumbleAndSubcmd { counter, rumble_l, rumble_r, subcommand_id, payload } => {
                f[0] = RUMBLE_AND_SUBCMD_ID;
                f[1] = *counter;
                put(&mut f, 2, rumble_l);
                put(&mut f, 6, rumble_r);
                f[10] = *subcommand_id;
                put(&mut f, 11, payload);
                assert(f@ =~= output_frame(*self));
            },
            OutputReport::RumbleOnly { counter, rumble_l, rumble_r } => {
                f[0] = RUMBLE_ONLY_ID;
                f[1] = *counter;
                put(&mut f, 2, rumble_l);
                put(&mut f, 6, rumble_r);
                assert(f@ =~= output_frame(*self));
            },
            OutputReport::McuFwUpdate { body } => {
                f[0] = MCU_FW_UPDATE_ID;
                put(&mut f, 1, body);
                assert(f@ =~= output_frame(*self));
            },
            OutputReport::RequestMcuData { counter, rumble_l, rumble_r, subcommand, payload } => {
                f[0] = REQUEST_MCU_DATA_ID;
                f[1] = *counter;
                put(&mut f, 2, rumble_l);
                put(&mut f, 6, rumble_r);
                f[10] = *subcommand;
                put(&mut f, 11, payload);
                assert(f@ =~= output_frame(*self));
            },
        }
        f
    }
}

} // verus!
