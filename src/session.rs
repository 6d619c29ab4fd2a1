//! One connection's protocol engine: it routes each received frame to the
//! bring-up state machine or to the subcommand dispatcher and says what to
//! send back, and builds the periodic reports once streaming has begun.
use vstd::prelude::*;
use crate::codec::{decode_output, OutputReport, RUMBLE_AND_SUBCMD_ID};
use crate::controller::{next_timer, ButtonsStatus, ControllerState, Stick, STICK_CENTER};
use crate::handshake::{control_kind, control_reply, next_state, HandshakeState, CONTROL_REPORT_ID};
use crate::report::{device_info, input_frame, InputReport, ReplyView, SubcommandReply, MAX_REPLY_DATA};
use crate::subcommand::{configured_device_info, dispatch, reply_of, request_of, SubcommandRequest, ACK_DEVICE_INFO};

verus! {

/// The subcommand reply that an output report asks for, if any: only
/// rumble-and-subcommand reports carry requests.
pub open spec fn request_reply(r: OutputReport) -> Option<ReplyView> {
    match r {
        OutputReport::RumbleAndSubcmd { subcommand_id, payload, .. } => reply_of(
            request_of(subcommand_id, payload@),
        ),
        _ => None,
    }
}

/// `after` is `before` with its report timer advanced once.
pub open spec fn ticked(before: ControllerState, after: ControllerState) -> bool {
    &&& after.spec_timer() == next_timer(before.spec_timer())
    &&& after.same_inputs(&before)
}

/// Answers an output report. A subcommand that gets a reply is answered with
/// a standard report, which advances the report timer; every other report,
/// and a subcommand left unanswered, gives `None` and leaves `state` as it was.
pub fn handle_request(request: &OutputReport, state: &mut ControllerState) -> (r: Option<
    InputReport,
>)
    ensures
        match request_reply(*request) {
            Some(v) => {
                &&& ticked(*old(state), *final(state))
                &&& r matches Some(report)
                &&& report.standard == final(state).snapshot()
                &&& report.reply@ == v
                &&& report.reply.data@.len() <= MAX_REPLY_DATA
            },
            None => r is None && *final(state) == *old(state),
        },
{
    match request {
        OutputReport::RumbleAndSubcmd { subcommand_id, payload, .. } => {
            let cmd = SubcommandRequest::decode(*subcommand_id, payload);
            match dispatch(&cmd) {
                Some(reply) => Some(InputReport { standard: state.standard(), reply }),
                None => None,
            }
        },
        OutputReport::Control(_) => None,
        OutputReport::McuFwUpdate { .. } => None,
        OutputReport::RumbleOnly { .. } => None,
        OutputReport::RequestMcuData { .. } => None,
    }
}

/// The reply to the device-info subcommand.
pub open spec fn device_info_reply() -> ReplyView {
    ReplyView { ack: ACK_DEVICE_INFO, subcommand_id: 0x02, data: configured_device_info() }
}

/// What the reader does with one received frame.
#[derive(Debug)]
pub struct FrameOutcome {
    /// The frame to queue for sending, if any.
    pub reply: Option<[u8; 64]>,
    /// This frame completed bring-up: periodic reports may start.
    pub start_streaming: bool,
}

/// The state of one connection: its bring-up progress and its controller.
#[derive(Debug)]
pub struct Session {
    handshake: HandshakeState,
    controller: ControllerState,
}

impl Session {
    pub closed spec fn spec_handshake(&self) -> HandshakeState {
        self.handshake
    }

    pub closed spec fn spec_controller(&self) -> ControllerState {
        self.controller
    }

    /// A session before any connection, with a fresh controller.
    pub fn new() -> (r: Self)
        ensures
            r.spec_handshake() is Disconnected,
            r.spec_controller().spec_timer() == 0,
            r.spec_controller().spec_buttons() == (ButtonsStatus { right: 0, middle: 0, left: 0 }),
            r.spec_controller().spec_left_stick() == (Stick { x: STICK_CENTER, y: STICK_CENTER }),
            r.spec_controller().spec_right_stick() == (Stick { x: STICK_CENTER, y: STICK_CENTER }),
            r.spec_controller().spec_status() == 0,
    {
        Session { handshake: HandshakeState::Disconnected, controller: ControllerState::new() }
    }

    pub fn handshake_state(&self) -> (r: HandshakeState)
        ensures
            r == self.spec_handshake(),
    {
        self.handshake
    }

    pub fn controller(&self) -> (r: &ControllerState)
        ensures
            *r == self.spec_controller(),
    {
        &self.controller
    }

    /// Access for the input-event source, which updates buttons, sticks and
    /// status; bring-up progress is untouched.
    pub fn controller_mut(&mut self) -> (r: &mut ControllerState)
        ensures
            *r == old(self).spec_controller(),
            final(self).spec_controller() == *final(r),
            final(self).spec_handshake() == old(self).spec_handshake(),
    {
        &mut self.controller
    }

    /// The transport is connected: bring-up may begin.
    pub fn connect(&mut self)
        ensures
            final(self).spec_handshake() == (if old(self).spec_handshake() is Disconnected {
                HandshakeState::AwaitingHandshake
            } else {
                old(self).spec_handshake()
            }),
            final(self).spec_controller() == old(self).spec_controller(),
    {
        self.handshake = self.handshake.connect();
    }

    /// Handles one frame from the host. A control frame gets its fixed reply
    /// (none for entering streaming) and may advance bring-up; the frame that
    /// enters streaming says so, once. A subcommand request gets the reply of
    /// the dispatcher inside a standard report. Anything else, and any frame
    /// that does not decode, is dropped without a reply.
    pub fn on_frame(&mut self, frame: &[u8; 64]) -> (out: FrameOutcome)
        ensures
            ({
                let b = frame@;
                let hs = old(self).spec_handshake();
                if b[0] == CONTROL_REPORT_ID && control_kind(b[1]) is Some {
                    let k = control_kind(b[1])->0;
                    &&& final(self).spec_handshake() == next_state(hs, k)
                    &&& final(self).spec_controller() == old(self).spec_controller()
                    &&& match control_reply(k) {
                        Some(bytes) => out.reply matches Some(f) && f@ == bytes,
                        None => out.reply is None,
                    }
                    &&& out.start_streaming == (hs !is Streaming && next_state(hs, k) is Streaming)
                } else if b[0] == RUMBLE_AND_SUBCMD_ID && reply_of(
                    request_of(b[10], b.subrange(11, 64)),
                ) is Some {
                    let v = reply_of(request_of(b[10], b.subrange(11, 64)))->0;
                    &&& final(self).spec_handshake() == hs
                    &&& ticked(old(self).spec_controller(), final(self).spec_controller())
                    &&& out.reply matches Some(f) && f@ == input_frame(
                        final(self).spec_controller().snapshot(),
                        v,
                    )
                    &&& !out.start_streaming
                } else {
                    &&& final(self).spec_handshake() == hs
                    &&& final(self).spec_controller() == old(self).spec_controller()
                    &&& out.reply is None
                    &&& !out.start_streaming
                }
            }),
    {
        match decode_output(frame) {
            Some(OutputReport::Control(k)) => {
                let before = self.handshake;
                self.handshake = before.advance(k);
                FrameOutcome {
                    reply: k.resp(),
                    start_streaming: !before.is_streaming() && self.handshake.is_streaming(),
                }
            },
            Some(report) => {
                match handle_request(&report, &mut self.controller) {
                    Some(input) => FrameOutcome { reply: Some(input.encode()), start_streaming: false },
                    None => FrameOutcome { reply: None, start_streaming: false },
                }
            },
            None => FrameOutcome { reply: None, start_streaming: false },
        }
    }

    /// A fresh standard report carrying the device-info reply: the writer's
    /// announcement when the link comes up, and each periodic report once
    /// streaming. Advances the report timer.
    pub fn periodic_report(&mut self) -> (f: [u8; 64])
        ensures
            final(self).spec_handshake() == old(self).spec_handshake(),
            ticked(old(self).spec_controller(), final(self).spec_controller()),
            f@ == input_frame(final(self).spec_controller().snapshot(), device_info_reply()),
    {
        let data = device_info().to_bytes();
        assert(data@ =~= configured_device_info());
        let reply = SubcommandReply { ack: ACK_DEVICE_INFO, subcommand_id: 0x02, data };
        let report = InputReport { standard: self.controller.standard(), reply };
        report.encode()
    }
}

} // verus!
