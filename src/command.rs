//! One command/response exchange with the module, as a state machine: write the
//! command frame, wait for readiness, read the acknowledgment, wait for readiness
//! again, read and check the response frame. The caller performs each bus action
//! and hands back what it received and how long the action took.
use vstd::prelude::*;
use crate::frame::{
    ack_pattern, command_frame, copy_range, decode_response, encode_command, frame_payload, is_ack,
    opt_view, MAX_PARAMS, PN532_PN532TOHOST,
};
use crate::transport::{
    is_ready, read_reply, read_request, read_transfer, reply_of, reports_ready,
    status_request, status_transfer, wire, write_request, write_transfer,
};

verus! {

/// Pause before each readiness poll.
pub const READY_POLL_INTERVAL_MS: u64 = 10;
/// Pause after a poll that found the module busy.
pub const READY_POLL_BACKOFF_MS: u64 = 5;
/// Pause before each data read.
pub const READ_SETTLE_MS: u64 = 5;
/// Bytes of framing around a response payload of a data read: padding, start
/// codes, length, length checksum, data checksum and postamble.
pub const FRAME_OVERHEAD: usize = 7;
/// Length of the acknowledgment.
pub const ACK_LEN: usize = 6;

/// Where an exchange stands.
#[derive(Clone, Copy, PartialEq, Eq, Structural, Debug)]
pub enum CallPhase {
    /// The command frame is being written.
    Writing,
    /// A readiness poll is out; `for_response` tells whether the acknowledgment
    /// has been read already.
    Polling { for_response: bool },
    /// Backing off after a poll that found the module busy.
    Pausing { for_response: bool },
    /// The acknowledgment is being read.
    ReadingAck,
    /// The response frame is being read.
    ReadingResponse,
    /// The outcome has been handed out.
    Finished,
}

/// An exchange of command `cmd`, expecting a response payload of `response_len`
/// bytes, where each readiness wait gives up after `timeout_ms`.
#[derive(Clone, Copy, PartialEq, Eq, Structural, Debug)]
pub struct Call {
    pub cmd: u8,
    pub response_len: usize,
    pub timeout_ms: u64,
    /// Time spent in the current readiness wait, each poll and back-off counted
    /// as at least the pause it asked for.
    pub waited_ms: u64,
    pub phase: CallPhase,
}

/// What the bus should do next.
#[derive(Debug)]
pub enum BusAction {
    /// Pause `pause_ms`, then exchange `tx` full duplex with chip-select held low.
    Transfer { pause_ms: u64, tx: Vec<u8> },
    /// Pause `ms`.
    Pause { ms: u64 },
    /// The exchange is over, with this outcome.
    Finish { response: Option<Vec<u8>> },
}

/// A bus action as values.
pub enum BusActionView {
    Transfer { pause_ms: u64, tx: Seq<u8> },
    Pause { ms: u64 },
    Finish { response: Option<Seq<u8>> },
}

impl View for BusAction {
    type V = BusActionView;

    open spec fn view(&self) -> BusActionView {
        match self {
            BusAction::Transfer { pause_ms, tx } => BusActionView::Transfer {
                pause_ms: *pause_ms,
                tx: tx@,
            },
            BusAction::Pause { ms } => BusActionView::Pause { ms: *ms },
            BusAction::Finish { response } => BusActionView::Finish { response: opt_view(*response) },
        }
    }
}

/// What the bus did for the last action: the bytes received (empty for a pause)
/// and the time it took, pauses included.
pub struct BusEvent {
    pub rx: Vec<u8>,
    pub took_ms: u64,
}

/// The payload of a response to `cmd` in the corrected read `reply`: the frame's
/// payload must start with the module's direction byte and `cmd + 1`.
pub open spec fn response_to(cmd: u8, reply: Seq<u8>) -> Option<Seq<u8>> {
    match frame_payload(reply) {
        Some(p) => if p.len() >= 2 && p[0] == PN532_PN532TOHOST && p[1] == cmd + 1 {
            Some(p.subrange(2, p.len() as int))
        } else {
            None
        },
        None => None,
    }
}

/// A readiness poll.
pub open spec fn poll_action() -> BusActionView {
    BusActionView::Transfer { pause_ms: READY_POLL_INTERVAL_MS, tx: wire(status_request()) }
}

/// A data read of `count` bytes.
pub open spec fn read_action(count: nat) -> BusActionView {
    BusActionView::Transfer { pause_ms: READ_SETTLE_MS, tx: wire(read_request(count)) }
}

/// The exchange is over with `response`.
pub open spec fn finish_action(response: Option<Seq<u8>>) -> BusActionView {
    BusActionView::Finish { response }
}

/// The start of a readiness wait: a first poll, unless the timeout is zero.
pub open spec fn begin_wait(c: Call, for_response: bool) -> (Call, BusActionView) {
    if 0 < c.timeout_ms {
        (Call { waited_ms: 0, phase: CallPhase::Polling { for_response }, ..c }, poll_action())
    } else {
        (Call { waited_ms: 0, phase: CallPhase::Finished, ..c }, finish_action(None))
    }
}

/// The time an action took, counted as at least the pause it asked for, so that a
/// readiness wait ends within its timeout whatever durations are reported.
pub open spec fn counted_ms(took_ms: u64, pause_ms: u64) -> u64 {
    if took_ms < pause_ms {
        pause_ms
    } else {
        took_ms
    }
}

/// The pause that the action awaited in phase `p` asked for.
pub open spec fn pause_of(p: CallPhase) -> u64 {
    match p {
        CallPhase::Polling { .. } => READY_POLL_INTERVAL_MS,
        CallPhase::Pausing { .. } => READY_POLL_BACKOFF_MS,
        _ => 0,
    }
}

/// The next state and action of exchange `c` once the bus answered its last
/// action with `rx` after `took_ms`.
pub open spec fn call_next(c: Call, rx: Seq<u8>, took_ms: u64) -> (Call, BusActionView) {
    let waited = c.waited_ms.saturating_add(counted_ms(took_ms, pause_of(c.phase)));
    match c.phase {
        CallPhase::Writing => begin_wait(c, false),
        CallPhase::Polling { for_response } => if reports_ready(rx) {
            if for_response {
                (
                    Call { waited_ms: waited, phase: CallPhase::ReadingResponse, ..c },
                    read_action((c.response_len + 2 + FRAME_OVERHEAD) as nat),
                )
            } else {
                (
                    Call { waited_ms: waited, phase: CallPhase::ReadingAck, ..c },
                    read_action(ACK_LEN as nat),
                )
            }
        } else {
            (
                Call { waited_ms: waited, phase: CallPhase::Pausing { for_response }, ..c },
                BusActionView::Pause { ms: READY_POLL_BACKOFF_MS },
            )
        },
        CallPhase::Pausing { for_response } => if waited < c.timeout_ms {
            (
                Call { waited_ms: waited, phase: CallPhase::Polling { for_response }, ..c },
                poll_action(),
            )
        } else {
            (Call { waited_ms: waited, phase: CallPhase::Finished, ..c }, finish_action(None))
        },
        CallPhase::ReadingAck => if read_reply(rx) == ack_pattern() {
            begin_wait(c, true)
        } else {
            (Call { phase: CallPhase::Finished, ..c }, finish_action(None))
        },
        CallPhase::ReadingResponse => (
            Call { phase: CallPhase::Finished, ..c },
            finish_action(response_to(c.cmd, read_reply(rx))),
        ),
        CallPhase::Finished => (c, finish_action(None)),
    }
}

/// The checked response payload to `cmd` in the corrected read `reply`.
pub fn check_response(cmd: u8, reply: &[u8]) -> (r: Option<Vec<u8>>)
    ensures
        opt_view(r) == response_to(cmd, reply@),
{
    match decode_response(reply) {
        Some(p) => {
            if p.len() >= 2 && p[0] == PN532_PN532TOHOST && p[1] as u16 == cmd as u16 + 1 {
                Some(copy_range(p.as_slice(), 2, p.len()))
            } else {
                None
            }
        },
        None => None,
    }
}

impl Call {
    /// Starts an exchange of command `cmd` with `params`: the first action writes the
    /// command frame.
    pub fn start(cmd: u8, params: &[u8], response_len: usize, timeout_ms: u64) -> (r: (
        Call,
        BusAction,
    ))
        requires
            params@.len() <= MAX_PARAMS,
            response_len <= usize::MAX - 2 - FRAME_OVERHEAD - 1,
        ensures
            r.0 == (Call { cmd, response_len, timeout_ms, waited_ms: 0, phase: CallPhase::Writing }),
            r.1@ == (BusActionView::Transfer {
                pause_ms: 0,
                tx: wire(write_request(command_frame(cmd, params@))),
            }),
            r.0.wf(),
    {
        let frame = encode_command(cmd, params);
        let tx = write_transfer(frame.as_slice());
        (
            Call { cmd, response_len, timeout_ms, waited_ms: 0, phase: CallPhase::Writing },
            BusAction::Transfer { pause_ms: 0, tx },
        )
    }

    /// The response length leaves room for the framing of a data read.
    pub open spec fn wf(&self) -> bool {
        self.response_len <= usize::MAX - 2 - FRAME_OVERHEAD - 1
    }

    fn begin_wait(&mut self, for_response: bool) -> (a: BusAction)
        ensures
            (*final(self), a@) == begin_wait(*old(self), for_response),
    {
        self.waited_ms = 0;
        if 0 < self.timeout_ms {
            self.phase = CallPhase::Polling { for_response };
            BusAction::Transfer { pause_ms: READY_POLL_INTERVAL_MS, tx: status_transfer() }
        } else {
            self.phase = CallPhase::Finished;
            BusAction::Finish { response: None }
        }
    }

    /// Advances the exchange with what the bus answered to the last action, and
    /// says what the bus should do next.
    pub fn step(&mut self, event: BusEvent) -> (a: BusAction)
        requires
            old(self).wf(),
        ensures
            (*final(self), a@) == call_next(*old(self), event.rx@, event.took_ms),
            final(self).wf(),
    {
        let pause = match self.phase {
            CallPhase::Polling { .. } => READY_POLL_INTERVAL_MS,
            CallPhase::Pausing { .. } => READY_POLL_BACKOFF_MS,
            _ => 0,
        };
        let took = if event.took_ms < pause {
            pause
        } else {
            event.took_ms
        };
        let waited = self.waited_ms.saturating_add(took);
        match self.phase {
            CallPhase::Writing => self.begin_wait(false),
            CallPhase::Polling { for_response } => {
                self.waited_ms = waited;
                if is_ready(event.rx.as_slice()) {
                    if for_response {
                        self.phase = CallPhase::ReadingResponse;
                        let tx = read_transfer(self.response_len + 2 + FRAME_OVERHEAD);
                        BusAction::Transfer { pause_ms: READ_SETTLE_MS, tx }
                    } else {
                        self.phase = CallPhase::ReadingAck;
                        BusAction::Transfer { pause_ms: READ_SETTLE_MS, tx: read_transfer(ACK_LEN) }
                    }
                } else {
                    self.phase = CallPhase::Pausing { for_response };
                    BusAction::Pause { ms: READY_POLL_BACKOFF_MS }
                }
            },
            CallPhase::Pausing { for_response } => {
                self.waited_ms = waited;
                if waited < self.timeout_ms {
                    self.phase = CallPhase::Polling { for_response };
                    BusAction::Transfer { pause_ms: READY_POLL_INTERVAL_MS, tx: status_transfer() }
                } else {
                    self.phase = CallPhase::Finished;
                    BusAction::Finish { response: None }
                }
            },
            CallPhase::ReadingAck => {
                let reply = reply_of(event.rx.as_slice());
                if is_ack(reply.as_slice()) {
                    self.begin_wait(true)
                } else {
                    self.phase = CallPhase::Finished;
                    BusAction::Finish { response: None }
                }
            },
            CallPhase::ReadingResponse => {
                let reply = reply_of(event.rx.as_slice());
                self.phase = CallPhase::Finished;
                BusAction::Finish { response: check_response(self.cmd, reply.as_slice()) }
            },
            CallPhase::Finished => BusAction::Finish { response: None },
        }
    }
}

/// A readiness wait makes progress whatever durations the bus reports: each poll
/// adds at least the poll interval, and each back-off at least the back-off pause,
/// to the time waited (which stops at `u64::MAX`), so the wait ends once the timeout
/// is reached.
pub proof fn lemma_wait_advances(c: Call, rx: Seq<u8>, took_ms: u64)
    requires
        c.phase is Polling || c.phase is Pausing,
    ensures
        call_next(c, rx, took_ms).0.waited_ms == u64::MAX || call_next(c, rx, took_ms).0.waited_ms
            >= c.waited_ms + pause_of(c.phase),
        c.phase is Pausing && call_next(c, rx, took_ms).0.phase is Polling ==> call_next(
            c,
            rx,
            took_ms,
        ).0.waited_ms < c.timeout_ms,
{
}

} // verus!
