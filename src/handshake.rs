//! Session bring-up: control frames, their fixed replies, and the state
//! machine that leads from a fresh connection to input streaming.
use vstd::prelude::*;
use crate::frame::zero_pad;
use crate::report::PRO_CONTROLLER;

verus! {

/// Report ID of a control frame from the host.
pub const CONTROL_REPORT_ID: u8 = 0x80;

/// Report ID of the device's answer to a control frame.
pub const CONTROL_REPLY_ID: u8 = 0x81;

/// The control frames, told apart by their second byte.
#[derive(Clone, Copy, Debug, PartialEq, Eq, Structural)]
pub enum NintendoReportType {
    /// `0x01`: the host asks for the connection status.
    Status,
    /// `0x02`: the host starts the handshake.
    Handshake,
    /// `0x03`: the host switches the link speed.
    Baudrate,
    /// `0x04`: the host asks for input reports without waiting for requests.
    NoTimeout,
}

/// The control frame kind named by the second byte of a control frame.
pub open spec fn control_kind(b: u8) -> Option<NintendoReportType> {
    match b {
        0x01 => Some(NintendoReportType::Status),
        0x02 => Some(NintendoReportType::Handshake),
        0x03 => Some(NintendoReportType::Baudrate),
        0x04 => Some(NintendoReportType::NoTimeout),
        _ => None,
    }
}

/// Device identifier as the status reply carries it, least significant byte first.
pub open spec fn status_mac() -> Seq<u8> {
    seq![0x79u8, 0x5C, 0xED, 0xEB, 0x68, 0xDC]
}

/// The reply to each control frame; entering streaming has none.
pub open spec fn control_reply(k: NintendoReportType) -> Option<Seq<u8>> {
    match k {
        NintendoReportType::Status => Some(
            zero_pad(seq![CONTROL_REPLY_ID, 0x01u8, 0x00, PRO_CONTROLLER] + status_mac()),
        ),
        NintendoReportType::Handshake => Some(zero_pad(seq![CONTROL_REPLY_ID, 0x02u8])),
        NintendoReportType::Baudrate => Some(zero_pad(seq![CONTROL_REPLY_ID, 0x03u8])),
        NintendoReportType::NoTimeout => None,
    }
}

impl NintendoReportType {
    pub open spec fn spec_code(self) -> u8 {
        match self {
            NintendoReportType::Status => 0x01,
            NintendoReportType::Handshake => 0x02,
            NintendoReportType::Baudrate => 0x03,
            NintendoReportType::NoTimeout => 0x04,
        }
    }

    /// The second byte of a control frame of this kind.
    pub fn code(&self) -> (r: u8)
        ensures
            r == self.spec_code(),
            control_kind(r) == Some(*self),
    {
        match self {
            NintendoReportType::Status => 0x01,
            NintendoReportType::Handshake => 0x02,
            NintendoReportType::Baudrate => 0x03,
            NintendoReportType::NoTimeout => 0x04,
        }
    }

    /// The frame that answers a control frame of this kind, the same in every
    /// state of the session.
    pub fn resp(&self) -> (r: Option<[u8; 64]>)
        ensures
            match control_reply(*self) {
                Some(bytes) => r matches Some(f) && f@ == bytes,
                None => r is None,
            },
    {
        let mut resp = [0u8; 64];
        match self {
            NintendoReportType::Status => {
                resp[0] = CONTROL_REPLY_ID;
                resp[1] = 0x01;
                resp[2] = 0x00;
                resp[3] = PRO_CONTROLLER;
                resp[4] = 0x79;
                resp[5] = 0x5C;
                resp[6] = 0xED;
                resp[7] = 0xEB;
                resp[8] = 0x68;
                resp[9] = 0xDC;
                assert(resp@ =~= zero_pad(
                    seq![CONTROL_REPLY_ID, 0x01u8, 0x00, PRO_CONTROLLER] + status_mac(),
                ));
                Some(resp)
            },
            NintendoReportType::Handshake => {
                resp[0] = CONTROL_REPLY_ID;
                resp[1] = 0x02;
                assert(resp@ =~= zero_pad(seq![CONTROL_REPLY_ID, 0x02u8]));
                Some(resp)
            },
            NintendoReportType::Baudrate => {
                resp[0] = CONTROL_REPLY_ID;
                resp[1] = 0x03;
                assert(resp@ =~= zero_pad(seq![CONTROL_REPLY_ID, 0x03u8]));
                Some(resp)
            },
            NintendoReportType::NoTimeout => None,
        }
    }
}

/// The kind of a control frame, from its second byte; `None` for a byte that
/// names no control frame.
pub fn handshake_response(msg: &[u8]) -> (r: Option<NintendoReportType>)
    requires
        msg@.len() >= 2,
    ensures
        r == control_kind(msg@[1]),
{
    if msg[1] == 0x01 {
        Some(NintendoReportType::Status)
    } else if msg[1] == 0x02 {
        Some(NintendoReportType::Handshake)
    } else if msg[1] == 0x03 {
        Some(NintendoReportType::Baudrate)
    } else if msg[1] == 0x04 {
        Some(NintendoReportType::NoTimeout)
    } else {
        None
    }
}

/// Progress of a session's bring-up.
#[derive(Clone, Copy, Debug, PartialEq, Eq, Structural)]
pub enum HandshakeState {
    Disconnected,
    AwaitingHandshake,
    HandshakeAccepted,
    BaudrateAccepted,
    Streaming,
}

/// One transition: the state moves one stage forward on the frame that the
/// stage expects, and stays where it is on any other frame.
pub open spec fn next_state(s: HandshakeState, k: NintendoReportType) -> HandshakeState {
    match (s, k) {
        (HandshakeState::AwaitingHandshake, NintendoReportType::Handshake) => HandshakeState::HandshakeAccepted,
        (HandshakeState::HandshakeAccepted, NintendoReportType::Baudrate) => HandshakeState::BaudrateAccepted,
        (HandshakeState::BaudrateAccepted, NintendoReportType::NoTimeout) => HandshakeState::Streaming,
        _ => s,
    }
}

/// The state after the control frames `frames`, in order, starting from `s`.
pub open spec fn run(s: HandshakeState, frames: Seq<NintendoReportType>) -> HandshakeState
    decreases frames.len(),
{
    if frames.len() == 0 {
        s
    } else {
        next_state(run(s, frames.drop_last()), frames.last())
    }
}

/// How many of the transitions along `frames` enter streaming: each one
/// releases the streaming gate.
pub open spec fn gate_fires(s: HandshakeState, frames: Seq<NintendoReportType>) -> nat
    decreases frames.len(),
{
    if frames.len() == 0 {
        0
    } else {
        let before = run(s, frames.drop_last());
        gate_fires(s, frames.drop_last()) + if before !is Streaming && next_state(
            before,
            frames.last(),
        ) is Streaming {
            1nat
        } else {
            0nat
        }
    }
}

impl HandshakeState {
    /// The state once the transport reports a connection.
    pub fn connect(self) -> (r: HandshakeState)
        ensures
            r == (if self is Disconnected {
                HandshakeState::AwaitingHandshake
            } else {
                self
            }),
    {
        match self {
            HandshakeState::Disconnected => HandshakeState::AwaitingHandshake,
            _ => self,
        }
    }

    /// The state after a control frame of kind `k`.
    pub fn advance(self, k: NintendoReportType) -> (r: HandshakeState)
        ensures
            r == next_state(self, k),
    {
        match (self, k) {
            (HandshakeState::AwaitingHandshake, NintendoReportType::Handshake) => HandshakeState::HandshakeAccepted,
            (HandshakeState::HandshakeAccepted, NintendoReportType::Baudrate) => HandshakeState::BaudrateAccepted,
            (HandshakeState::BaudrateAccepted, NintendoReportType::NoTimeout) => HandshakeState::Streaming,
            _ => self,
        }
    }

    pub fn is_streaming(&self) -> (r: bool)
        ensures
            r == (*self is Streaming),
    {
        match self {
            HandshakeState::Streaming => true,
            _ => false,
        }
    }
}

/// Streaming is terminal: no sequence of control frames leaves it.
pub proof fn lemma_streaming_terminal(frames: Seq<NintendoReportType>)
    ensures
        run(HandshakeState::Streaming, frames) == HandshakeState::Streaming,
    decreases frames.len(),
{
    if frames.len() > 0 {
        lemma_streaming_terminal(frames.drop_last());
    }
}

/// The streaming gate fires at most once along any sequence of control
/// frames, and fires exactly when the sequence takes a session that was not
/// yet streaming into streaming.
pub proof fn lemma_gate_fires_once(s: HandshakeState, frames: Seq<NintendoReportType>)
    ensures
        gate_fires(s, frames) <= 1,
        gate_fires(s, frames) == 1 <==> (s !is Streaming && run(s, frames) is Streaming),
    decreases frames.len(),
{
    if frames.len() > 0 {
        lemma_gate_fires_once(s, frames.drop_last());
        if s is Streaming {
            lemma_streaming_terminal(frames.drop_last());
        }
        let before = run(s, frames.drop_last());
        if before is Streaming {
            assert(next_state(before, frames.last()) is Streaming);
        }
    }
}

/// `frames` holds a handshake request.
pub open spec fn has_handshake(frames: Seq<NintendoReportType>) -> bool {
    exists|i: int| 0 <= i < frames.len() && frames[i] == NintendoReportType::Handshake
}

/// `frames` holds a handshake request followed, later, by a baudrate request.
pub open spec fn has_handshake_baudrate(frames: Seq<NintendoReportType>) -> bool {
    exists|i: int, j: int|
        0 <= i < j < frames.len() && frames[i] == NintendoReportType::Handshake && frames[j]
            == NintendoReportType::Baudrate
}

/// `frames` holds a handshake request, then a baudrate request, then a
/// request to enter streaming, in that order but not necessarily adjacent.
pub open spec fn has_full_bring_up(frames: Seq<NintendoReportType>) -> bool {
    exists|i: int, j: int, k: int|
        0 <= i < j < k < frames.len() && frames[i] == NintendoReportType::Handshake && frames[j]
            == NintendoReportType::Baudrate && frames[k] == NintendoReportType::NoTimeout
}

/// From a fresh connection, each stage is reached exactly when the frames
/// that lead to it have arrived in the prescribed order, whatever else came
/// in between: status requests and retries never advance the state, and
/// frames out of order never take it past the stage that the ordered part
/// of the sequence reaches. In particular the session streams exactly when
/// handshake, baudrate and enter-streaming requests arrived in that order.
pub proof fn lemma_bring_up(frames: Seq<NintendoReportType>)
    ensures
        ({
            let s = run(HandshakeState::AwaitingHandshake, frames);
            &&& s !is Disconnected
            &&& (s !is AwaitingHandshake <==> has_handshake(frames))
            &&& ((s is BaudrateAccepted || s is Streaming) <==> has_handshake_baudrate(frames))
            &&& (s is Streaming <==> has_full_bring_up(frames))
        }),
    decreases frames.len(),
{
    if frames.len() > 0 {
        let f = frames.drop_last();
        let n = frames.len() - 1;
        let x = frames.last();
        lemma_bring_up(f);
        let before = run(HandshakeState::AwaitingHandshake, f);
        let after = run(HandshakeState::AwaitingHandshake, frames);
        assert(after == next_state(before, x));
        assert forall|i: int| 0 <= i < n implies frames[i] == f[i] by {}
        if has_handshake(f) {
            let i = choose|i: int| 0 <= i < f.len() && f[i] == NintendoReportType::Handshake;
            assert(frames[i] == NintendoReportType::Handshake);
        }
        if has_handshake_baudrate(f) {
            let (i, j) = choose|i: int, j: int|
                0 <= i < j < f.len() && f[i] == NintendoReportType::Handshake && f[j]
                    == NintendoReportType::Baudrate;
            assert(frames[i] == NintendoReportType::Handshake && frames[j]
                == NintendoReportType::Baudrate);
        }
        if has_full_bring_up(f) {
            let (i, j, k) = choose|i: int, j: int, k: int|
                0 <= i < j < k < f.len() && f[i] == NintendoReportType::Handshake && f[j]
                    == NintendoReportType::Baudrate && f[k] == NintendoReportType::NoTimeout;
            assert(frames[i] == NintendoReportType::Handshake && frames[j]
                == NintendoReportType::Baudrate && frames[k] == NintendoReportType::NoTimeout);
        }
        if has_handshake(frames) {
            let i = choose|i: int| 0 <= i < frames.len() && frames[i] == NintendoReportType::Handshake;
            if i < n {
                assert(f[i] == NintendoReportType::Handshake);
            }
        }
        if has_handshake_baudrate(frames) {
            let (i, j) = choose|i: int, j: int|
                0 <= i < j < frames.len() && frames[i] == NintendoReportType::Handshake && frames[j]
                    == NintendoReportType::Baudrate;
            assert(f[i] == NintendoReportType::Handshake);
            if j < n {
                assert(f[j] == NintendoReportType::Baudrate);
            }
        }
        if has_full_bring_up(frames) {
            let (i, j, k) = choose|i: int, j: int, k: int|
                0 <= i < j < k < frames.len() && frames[i] == NintendoReportType::Handshake
                    && frames[j] == NintendoReportType::Baudrate && frames[k]
                    == NintendoReportType::NoTimeout;
            assert(f[i] == NintendoReportType::Handshake && f[j] == NintendoReportType::Baudrate);
            if k < n {
                assert(f[k] == NintendoReportType::NoTimeout);
            }
        }
        if x == NintendoReportType::Handshake {
            assert(frames[n] == NintendoReportType::Handshake);
        }
        if x == NintendoReportType::Baudrate && has_handshake(f) {
            let i = choose|i: int| 0 <= i < f.len() && f[i] == NintendoReportType::Handshake;
            assert(frames[i] == NintendoReportType::Handshake && frames[n]
                == NintendoReportType::Baudrate);
        }
        if x == NintendoReportType::NoTimeout && has_handshake_baudrate(f) {
            let (i, j) = choose|i: int, j: int|
                0 <= i < j < f.len() && f[i] == NintendoReportType::Handshake && f[j]
                    == NintendoReportType::Baudrate;
            assert(frames[i] == NintendoReportType::Handshake && frames[j]
                == NintendoReportType::Baudrate && frames[n] == NintendoReportType::NoTimeout);
        }
    }
}

} // verus!
