use crate::interval::Interval;
use crate::options::{BlockingOptions, NonBlockingOptions};
use crate::read_failure::{
    classify_read_failure,
    LoopKind,
    normal_closure_reason,
    read_failure_message,
    ReadFailure,
    ReadVerdict,
};
use crate::types::{ControlMessage, WebSocketEvent};
use vstd::prelude::*;
use vstd::utf8::encode_utf8;

verus! {

/// Where an event loop stands in its run.
#[derive(Clone, Copy, Debug, PartialEq, Eq, Structural)]
pub enum LoopPhase {
    /// Not started: nothing delivered yet.
    Ready,
    /// Started and not ended.
    Running,
    /// Ended: no further step is taken.
    Finished,
}

/// The kind of a data frame that the client sends.
#[derive(Clone, Copy, Debug, PartialEq, Eq, Structural)]
pub enum FrameKind {
    Text,
    Binary,
    Ping,
    Pong,
}

/// A data frame for the caller to send on the connection.
#[derive(Clone, Debug, PartialEq, Eq)]
pub enum OutboundFrame {
    Text(String),
    Binary(Vec<u8>),
    Ping(Vec<u8>),
    Pong(Vec<u8>),
}

impl OutboundFrame {
    /// The kind of this frame.
    pub open spec fn spec_kind(&self) -> FrameKind {
        match self {
            OutboundFrame::Text(_) => FrameKind::Text,
            OutboundFrame::Binary(_) => FrameKind::Binary,
            OutboundFrame::Ping(_) => FrameKind::Ping,
            OutboundFrame::Pong(_) => FrameKind::Pong,
        }
    }

    /// The kind of this frame.
    pub fn kind(&self) -> (r: FrameKind)
        ensures
            r == self.spec_kind(),
    {
        match self {
            OutboundFrame::Text(_) => FrameKind::Text,
            OutboundFrame::Binary(_) => FrameKind::Binary,
            OutboundFrame::Ping(_) => FrameKind::Ping,
            OutboundFrame::Pong(_) => FrameKind::Pong,
        }
    }
}

/// A message that one read returned.
#[derive(Clone, Debug, PartialEq, Eq)]
pub enum Inbound {
    /// A text message, as its UTF-8 bytes.
    Text(Vec<u8>),
    /// A binary message.
    Binary(Vec<u8>),
    /// A ping, with its payload.
    Ping(Vec<u8>),
    /// A pong, with its payload.
    Pong(Vec<u8>),
    /// The peer's close frame, with its reason where one was given.
    Close(Option<String>),
    /// A raw frame, which the client does not report.
    Frame,
}

/// What to do for one control command.
#[derive(Clone, Debug, PartialEq, Eq)]
pub enum CommandStep {
    /// Send this frame; a failure is reported with `EventLoop::send_failed`.
    Send(OutboundFrame),
    /// Send a close frame.
    SendClose,
    /// Nothing to send.
    Skip,
    /// Deliver `Quit` and leave the loop at once.
    Stop,
}

/// What one control command leads to.
#[derive(Clone, Debug, PartialEq, Eq)]
pub struct AppliedCommand {
    /// What to do on the connection.
    pub step: CommandStep,
    /// The events to deliver, in order, after doing it.
    pub events: Vec<WebSocketEvent>,
}

/// What one read leads to.
#[derive(Clone, Debug, PartialEq, Eq)]
pub struct ReadStep {
    /// The events to deliver, in order.
    pub events: Vec<WebSocketEvent>,
    /// Whether the read found no data, which the idle callback reports.
    pub idle: bool,
}

/// What is done for a control command; `sends_close` tells whether a close
/// frame goes out for a close request now.
pub open spec fn command_outcome(cmd: ControlMessage, sends_close: bool) -> CommandStep {
    match cmd {
        ControlMessage::SendText(t) => CommandStep::Send(OutboundFrame::Text(t)),
        ControlMessage::SendBinary(b) => CommandStep::Send(OutboundFrame::Binary(b)),
        ControlMessage::SendPing(b) => CommandStep::Send(OutboundFrame::Ping(b)),
        ControlMessage::SendPong(b) => CommandStep::Send(OutboundFrame::Pong(b)),
        ControlMessage::Close() => if sends_close {
            CommandStep::SendClose
        } else {
            CommandStep::Skip
        },
        ControlMessage::ForceQuit() => CommandStep::Stop,
    }
}

/// The events that a control command leads to: `Quit` for a forced quit,
/// else none.
pub open spec fn command_events(cmd: ControlMessage) -> Seq<WebSocketEvent> {
    match cmd {
        ControlMessage::ForceQuit() => seq![WebSocketEvent::Quit],
        _ => Seq::empty(),
    }
}

/// The text that a failed send of a frame of this kind is reported with.
pub open spec fn send_failure_message(kind: FrameKind, detail: Seq<char>) -> Seq<char> {
    match kind {
        FrameKind::Text => "Error sending text: "@ + detail,
        FrameKind::Binary => "Error sending binary: "@ + detail,
        FrameKind::Ping => "Error sending ping: "@ + detail,
        FrameKind::Pong => "Error sending pong: "@ + detail,
    }
}

/// The events that a message read from the connection leads to.
pub open spec fn message_events(m: Inbound) -> Seq<WebSocketEvent> {
    match m {
        Inbound::Text(b) => seq![WebSocketEvent::TextMessage(b)],
        Inbound::Binary(b) => seq![WebSocketEvent::BinaryMessage(b)],
        Inbound::Ping(b) => seq![WebSocketEvent::Ping(b)],
        Inbound::Pong(b) => seq![WebSocketEvent::Pong(b)],
        Inbound::Close(reason) => seq![WebSocketEvent::ConnectionClosed(reason), WebSocketEvent::Quit],
        Inbound::Frame => Seq::empty(),
    }
}

/// Whether the events report the end of the loop on a failure described by
/// `detail`: an error with that failure's message in the wording of `kind`,
/// then `Quit`.
pub open spec fn ends_on_failure(kind: LoopKind, detail: Seq<char>, events: Seq<WebSocketEvent>) -> bool {
    &&& events.len() == 2
    &&& events[0] matches WebSocketEvent::Error(s) && s@ == read_failure_message(kind, detail)
    &&& events[1] is Quit
}

/// Whether `events` and `idle` are what a failed read leads to, where the
/// loop expects reads without data (`no_data_expected`) or does not, in the
/// wording of `kind`.
pub open spec fn failure_step(
    f: ReadFailure,
    no_data_expected: bool,
    kind: LoopKind,
    events: Seq<WebSocketEvent>,
    idle: bool,
) -> bool {
    match f {
        ReadFailure::WouldBlock(t) => if no_data_expected {
            events.len() == 0 && idle
        } else {
            ends_on_failure(kind, t@, events) && !idle
        },
        ReadFailure::TimedOut(t) => if no_data_expected {
            events.len() == 0 && idle
        } else {
            ends_on_failure(kind, t@, events) && !idle
        },
        ReadFailure::ConnectionClosed => {
            &&& events.len() == 2
            &&& events[0] matches WebSocketEvent::ConnectionClosed(Some(s)) && s@
                == normal_closure_reason(kind)
            &&& events[1] is Quit
            &&& !idle
        },
        ReadFailure::Other(t) => ends_on_failure(kind, t@, events) && !idle,
    }
}

/// Whether `events` and `idle` are what a read with this outcome leads to.
pub open spec fn read_step(
    outcome: Result<Inbound, ReadFailure>,
    no_data_expected: bool,
    kind: LoopKind,
    events: Seq<WebSocketEvent>,
    idle: bool,
) -> bool {
    match outcome {
        Ok(m) => events == message_events(m) && !idle,
        Err(f) => failure_step(f, no_data_expected, kind, events, idle),
    }
}

/// The events at the start of an iteration: `Quit` where a forced quit was
/// requested, else none.
pub open spec fn iteration_start_events(quit_requested: bool) -> Seq<WebSocketEvent> {
    if quit_requested {
        seq![WebSocketEvent::Quit]
    } else {
        Seq::empty()
    }
}

/// Whether a read with this outcome ends the loop.
pub open spec fn read_ends_loop(outcome: Result<Inbound, ReadFailure>, no_data_expected: bool) -> bool {
    match outcome {
        Ok(Inbound::Close(_)) => true,
        Ok(_) => false,
        Err(ReadFailure::WouldBlock(_)) => !no_data_expected,
        Err(ReadFailure::TimedOut(_)) => !no_data_expected,
        Err(_) => true,
    }
}

/// The order that the events of a run keep: `Activated` first and only
/// there, `Quit` last and only once the loop has ended, and right after every
/// `ConnectionClosed` a `Quit`. A loop that has ended ends on `Quit`, unless
/// it ended because its events could no longer be delivered (`lost`).
pub open spec fn lifecycle(phase: LoopPhase, lost: bool, h: Seq<WebSocketEvent>) -> bool {
    &&& (phase == LoopPhase::Ready <==> h.len() == 0)
    &&& lost ==> phase == LoopPhase::Finished
    &&& phase == LoopPhase::Finished && !lost ==> h.len() > 0 && h.last() is Quit
    &&& h.len() > 0 ==> h[0] is Activated
    &&& forall|i: int| 0 < i < h.len() ==> !(#[trigger] h[i] is Activated)
    &&& forall|i: int|
        0 <= i < h.len() && #[trigger] h[i] is Quit ==> i == h.len() - 1 && phase
            == LoopPhase::Finished
    &&& forall|i: int|
        0 <= i < h.len() && #[trigger] h[i] is ConnectionClosed ==> i + 2 == h.len() && h[i
            + 1] is Quit
}

/// The decisions of one connection's event loop, from start to end.
///
/// The caller runs the loop: it reads, sends, sleeps and delivers events, and
/// hands each result to the matching method, which says what to do next and
/// which events to deliver. The events delivered so far are kept as the
/// loop's history, whose order `lifecycle` states.
pub struct EventLoop {
    phase: LoopPhase,
    kind: LoopKind,
    no_data_expected: bool,
    idle_wait: Option<Interval>,
    close_requested: bool,
    quit_requested: bool,
    delivered: Ghost<Seq<WebSocketEvent>>,
    delivery_lost: Ghost<bool>,
}

impl EventLoop {
    /// Where the loop stands.
    pub closed spec fn spec_phase(&self) -> LoopPhase {
        self.phase
    }

    /// The wording the loop reports read failures in.
    pub closed spec fn spec_loop_kind(&self) -> LoopKind {
        self.kind
    }

    /// Whether reads that find no data are the loop's idle state.
    pub closed spec fn spec_no_data_expected(&self) -> bool {
        self.no_data_expected
    }

    /// The sleep after each iteration.
    pub closed spec fn spec_idle_wait(&self) -> Option<Interval> {
        self.idle_wait
    }

    /// Whether a close was requested.
    pub closed spec fn spec_close_requested(&self) -> bool {
        self.close_requested
    }

    /// Whether a forced quit was requested.
    pub closed spec fn spec_quit_requested(&self) -> bool {
        self.quit_requested
    }

    /// The events delivered so far, in order.
    pub closed spec fn history(&self) -> Seq<WebSocketEvent> {
        self.delivered@
    }

    /// Whether the loop ended because its events could no longer be delivered.
    pub closed spec fn spec_delivery_lost(&self) -> bool {
        self.delivery_lost@
    }

    /// The loop keeps the order of its events.
    pub open spec fn wf(&self) -> bool {
        lifecycle(self.spec_phase(), self.spec_delivery_lost(), self.history())
    }

    /// Whether a close request with the socket in this state sends a close frame.
    pub open spec fn closes_now(&self, can_write: bool) -> bool {
        can_write && !self.spec_close_requested()
    }

    /// The loop after a close request.
    pub closed spec fn after_close_request(self) -> EventLoop {
        EventLoop { close_requested: true, ..self }
    }

    /// The loop after a forced quit was requested.
    pub closed spec fn after_quit_request(self) -> EventLoop {
        EventLoop { quit_requested: true, ..self }
    }

    /// The loop ended without a further event, as its events can no longer
    /// be delivered.
    pub closed spec fn after_delivery_failure(self) -> EventLoop {
        EventLoop { phase: LoopPhase::Finished, delivery_lost: Ghost(true), ..self }
    }

    /// A loop that has not started, reporting read failures in the wording
    /// of `kind`. Where `no_data_expected`, a read without data makes the loop
    /// idle; else it ends the loop.
    pub fn new(kind: LoopKind, no_data_expected: bool, idle_wait: Option<Interval>) -> (r: EventLoop)
        ensures
            r.wf(),
            r.spec_phase() == LoopPhase::Ready,
            r.spec_loop_kind() == kind,
            r.spec_no_data_expected() == no_data_expected,
            r.spec_idle_wait() == idle_wait,
            !r.spec_close_requested(),
            !r.spec_quit_requested(),
            r.history() == Seq::<WebSocketEvent>::empty(),
            !r.spec_delivery_lost(),
    {
        EventLoop {
            phase: LoopPhase::Ready,
            kind,
            no_data_expected,
            idle_wait,
            close_requested: false,
            quit_requested: false,
            delivered: Ghost(Seq::<WebSocketEvent>::empty()),
            delivery_lost: Ghost(false),
        }
    }

    /// The loop of a client on a non-blocking socket: a read without data is idleness.
    pub fn for_non_blocking(options: &NonBlockingOptions) -> (r: EventLoop)
        ensures
            r.wf(),
            r.spec_phase() == LoopPhase::Ready,
            r.spec_no_data_expected(),
            r.spec_loop_kind() == LoopKind::NonBlocking,
            r.spec_idle_wait() == options.spec_shared().spin_wait_duration,
            !r.spec_close_requested(),
            !r.spec_quit_requested(),
    {
        EventLoop::new(LoopKind::NonBlocking, true, options.idle_wait())
    }

    /// The loop of a client on a blocking socket: a read without data is
    /// idleness where a read timeout is set, and fatal where none is.
    pub fn for_blocking(options: &BlockingOptions) -> (r: EventLoop)
        ensures
            r.wf(),
            r.spec_phase() == LoopPhase::Ready,
            r.spec_no_data_expected() == options.spec_read_timeout() is Some,
            r.spec_loop_kind() == LoopKind::Blocking,
            r.spec_idle_wait() == options.spec_shared().spin_wait_duration,
            !r.spec_close_requested(),
            !r.spec_quit_requested(),
    {
        EventLoop::new(LoopKind::Blocking, options.has_read_timeout(), options.idle_wait())
    }

    /// The wording the loop reports read failures in.
    pub fn kind(&self) -> (r: LoopKind)
        ensures
            r == self.spec_loop_kind(),
    {
        self.kind
    }

    /// Where the loop stands.
    pub fn phase(&self) -> (r: LoopPhase)
        ensures
            r == self.spec_phase(),
    {
        self.phase
    }

    /// Whether the loop has started and not ended.
    pub fn is_running(&self) -> (r: bool)
        ensures
            r == (self.spec_phase() == LoopPhase::Running),
    {
        self.phase == LoopPhase::Running
    }

    /// Starts the loop: `Activated` is its first event.
    pub fn activate(&mut self) -> (r: WebSocketEvent)
        requires
            old(self).wf(),
            old(self).spec_phase() == LoopPhase::Ready,
        ensures
            final(self).wf(),
            r is Activated,
            final(self).spec_phase() == LoopPhase::Running,
            final(self).history() == seq![WebSocketEvent::Activated],
            final(self).spec_no_data_expected() == old(self).spec_no_data_expected(),
            final(self).spec_idle_wait() == old(self).spec_idle_wait(),
            final(self).spec_loop_kind() == old(self).spec_loop_kind(),
            final(self).spec_close_requested() == old(self).spec_close_requested(),
            final(self).spec_quit_requested() == old(self).spec_quit_requested(),
    {
        self.phase = LoopPhase::Running;
        let ghost h = seq![WebSocketEvent::Activated];
        self.delivered = Ghost(h);
        WebSocketEvent::Activated
    }

    /// Asks the loop to end without the close handshake, at the start of its
    /// next iteration.
    pub fn request_quit(&mut self)
        requires
            old(self).wf(),
        ensures
            final(self).wf(),
            *final(self) == old(self).after_quit_request(),
            final(self).spec_quit_requested(),
            final(self).spec_phase() == old(self).spec_phase(),
            final(self).history() == old(self).history(),
            final(self).spec_close_requested() == old(self).spec_close_requested(),
            final(self).spec_no_data_expected() == old(self).spec_no_data_expected(),
            final(self).spec_idle_wait() == old(self).spec_idle_wait(),
            final(self).spec_loop_kind() == old(self).spec_loop_kind(),
            final(self).spec_delivery_lost() == old(self).spec_delivery_lost(),
    {
        self.quit_requested = true;
    }

    /// Asks for a graceful close; returns whether a close frame is to be sent
    /// now. One goes out only where the socket can still be written and no
    /// close was requested before; the loop goes on until the peer answers.
    pub fn request_close(&mut self, can_write: bool) -> (r: bool)
        requires
            old(self).wf(),
        ensures
            final(self).wf(),
            r == old(self).closes_now(can_write),
            *final(self) == old(self).after_close_request(),
            final(self).spec_close_requested(),
            final(self).spec_phase() == old(self).spec_phase(),
            final(self).history() == old(self).history(),
            final(self).spec_quit_requested() == old(self).spec_quit_requested(),
            final(self).spec_no_data_expected() == old(self).spec_no_data_expected(),
            final(self).spec_idle_wait() == old(self).spec_idle_wait(),
            final(self).spec_loop_kind() == old(self).spec_loop_kind(),
            final(self).spec_delivery_lost() == old(self).spec_delivery_lost(),
    {
        let r = can_write && !self.close_requested;
        self.close_requested = true;
        r
    }

    /// Starts an iteration: where a forced quit was requested, the loop ends
    /// here and `Quit` is delivered.
    pub fn start_iteration(&mut self) -> (r: Vec<WebSocketEvent>)
        requires
            old(self).wf(),
            old(self).spec_phase() == LoopPhase::Running,
        ensures
            final(self).wf(),
            final(self).history() == old(self).history() + r@,
            r@ == iteration_start_events(old(self).spec_quit_requested()),
            final(self).spec_phase() == if old(self).spec_quit_requested() {
                LoopPhase::Finished
            } else {
                LoopPhase::Running
            },
            final(self).spec_close_requested() == old(self).spec_close_requested(),
            final(self).spec_quit_requested() == old(self).spec_quit_requested(),
            final(self).spec_no_data_expected() == old(self).spec_no_data_expected(),
            final(self).spec_idle_wait() == old(self).spec_idle_wait(),
            final(self).spec_loop_kind() == old(self).spec_loop_kind(),
    {
        let mut r: Vec<WebSocketEvent> = Vec::new();
        if self.quit_requested {
            r.push(WebSocketEvent::Quit);
            self.finish_with(&r);
        }
        proof {
            if !self.quit_requested {
                assert(self.delivered@ =~= old(self).delivered@ + r@);
            }
        }
        r
    }

    /// Ends the loop after delivering `events`, the last of which is its only `Quit`.
    fn finish_with(&mut self, events: &Vec<WebSocketEvent>)
        requires
            old(self).wf(),
            old(self).spec_phase() == LoopPhase::Running,
            events@.len() > 0,
            events@.last() is Quit,
            forall|i: int| 0 <= i < events@.len() ==> !(#[trigger] events@[i] is Activated),
            forall|i: int| 0 <= i < events@.len() - 1 ==> !(#[trigger] events@[i] is Quit),
            forall|i: int|
                0 <= i < events@.len() && #[trigger] events@[i] is ConnectionClosed ==> i + 2
                    == events@.len(),
        ensures
            final(self).wf(),
            final(self).history() == old(self).history() + events@,
            final(self).spec_phase() == LoopPhase::Finished,
            final(self).spec_close_requested() == old(self).spec_close_requested(),
            final(self).spec_quit_requested() == old(self).spec_quit_requested(),
            final(self).spec_no_data_expected() == old(self).spec_no_data_expected(),
            final(self).spec_idle_wait() == old(self).spec_idle_wait(),
            final(self).spec_loop_kind() == old(self).spec_loop_kind(),
    {
        let ghost h = self.delivered@;
        let ghost n = h.len();
        let ghost h2 = h + events@;
        self.phase = LoopPhase::Finished;
        self.delivered = Ghost(h2);
        proof {
            assert forall|i: int| 0 < i < h2.len() implies !(#[trigger] h2[i] is Activated) by {
                if i >= n {
                    assert(h2[i] == events@[i - n]);
                }
            }
            assert forall|i: int| 0 <= i < h2.len() && #[trigger] h2[i] is Quit implies i == h2.len()
                - 1 by {
                if i >= n {
                    assert(h2[i] == events@[i - n]);
                }
            }
            assert forall|i: int|
                0 <= i < h2.len() && #[trigger] h2[i] is ConnectionClosed implies i + 2 == h2.len()
                && h2[i + 1] is Quit by {
                if i >= n {
                    assert(h2[i] == events@[i - n]);
                    assert(h2[i + 1] == events@[i + 1 - n]);
                }
            }
        }
    }

    /// Delivers `events` with the loop going on: none of them ends a run.
    fn deliver(&mut self, events: &Vec<WebSocketEvent>)
        requires
            old(self).wf(),
            old(self).spec_phase() == LoopPhase::Running,
            forall|i: int|
                0 <= i < events@.len() ==> !(#[trigger] events@[i] is Activated) && !(
                events@[i] is Quit) && !(events@[i] is ConnectionClosed),
        ensures
            final(self).wf(),
            final(self).history() == old(self).history() + events@,
            final(self).spec_phase() == LoopPhase::Running,
            final(self).spec_close_requested() == old(self).spec_close_requested(),
            final(self).spec_quit_requested() == old(self).spec_quit_requested(),
            final(self).spec_no_data_expected() == old(self).spec_no_data_expected(),
            final(self).spec_idle_wait() == old(self).spec_idle_wait(),
            final(self).spec_loop_kind() == old(self).spec_loop_kind(),
    {
        let ghost h = self.delivered@;
        let ghost n = h.len();
        let ghost h2 = h + events@;
        self.delivered = Ghost(h2);
        proof {
            assert forall|i: int| 0 < i < h2.len() implies !(#[trigger] h2[i] is Activated) by {
                if i >= n {
                    assert(h2[i] == events@[i - n]);
                }
            }
            assert forall|i: int| 0 <= i < h2.len() implies !(#[trigger] h2[i] is Quit) by {
                if i >= n {
                    assert(h2[i] == events@[i - n]);
                }
            }
            assert forall|i: int| 0 <= i < h2.len() implies !(#[trigger] h2[i] is ConnectionClosed) by {
                if i >= n {
                    assert(h2[i] == events@[i - n]);
                }
            }
        }
    }

    /// Applies one control command. A data command becomes one frame to send;
    /// a close request a close frame, where `request_close` says so; a forced
    /// quit ends the loop at once with `Quit`.
    pub fn apply_command(&mut self, cmd: ControlMessage, can_write: bool) -> (r: AppliedCommand)
        requires
            old(self).wf(),
            old(self).spec_phase() == LoopPhase::Running,
        ensures
            final(self).wf(),
            r.step == command_outcome(cmd, old(self).closes_now(can_write)),
            r.events@ == command_events(cmd),
            final(self).history() == old(self).history() + r.events@,
            final(self).spec_close_requested() == (old(self).spec_close_requested()
                || cmd is Close),
            final(self).spec_quit_requested() == old(self).spec_quit_requested(),
            final(self).spec_no_data_expected() == old(self).spec_no_data_expected(),
            final(self).spec_idle_wait() == old(self).spec_idle_wait(),
            final(self).spec_loop_kind() == old(self).spec_loop_kind(),
            cmd is ForceQuit ==> final(self).history() == old(self).history().push(
                WebSocketEvent::Quit,
            ) && final(self).spec_phase() == LoopPhase::Finished,
            !(cmd is ForceQuit) ==> final(self).history() == old(self).history()
                && final(self).spec_phase() == LoopPhase::Running,
    {
        let ghost gc = cmd;
        let mut events: Vec<WebSocketEvent> = Vec::new();
        let step = match cmd {
            ControlMessage::SendText(t) => CommandStep::Send(OutboundFrame::Text(t)),
            ControlMessage::SendBinary(b) => CommandStep::Send(OutboundFrame::Binary(b)),
            ControlMessage::SendPing(b) => CommandStep::Send(OutboundFrame::Ping(b)),
            ControlMessage::SendPong(b) => CommandStep::Send(OutboundFrame::Pong(b)),
            ControlMessage::Close() => {
                if self.request_close(can_write) {
                    CommandStep::SendClose
                } else {
                    CommandStep::Skip
                }
            },
            ControlMessage::ForceQuit() => {
                events.push(WebSocketEvent::Quit);
                self.finish_with(&events);
                CommandStep::Stop
            },
        };
        proof {
            assert(events@ =~= command_events(gc));
            assert(self.delivered@ =~= old(self).delivered@ + events@);
        }
        AppliedCommand { step, events }
    }

    /// Reports a frame whose send failed, as `detail` describes: an `Error`
    /// event, with the loop going on.
    pub fn send_failed(&mut self, kind: FrameKind, detail: String) -> (r: WebSocketEvent)
        requires
            old(self).wf(),
            old(self).spec_phase() == LoopPhase::Running,
        ensures
            final(self).wf(),
            r matches WebSocketEvent::Error(s) && s@ == send_failure_message(kind, detail@),
            final(self).history() == old(self).history().push(r),
            final(self).spec_phase() == LoopPhase::Running,
            final(self).spec_close_requested() == old(self).spec_close_requested(),
            final(self).spec_quit_requested() == old(self).spec_quit_requested(),
            final(self).spec_no_data_expected() == old(self).spec_no_data_expected(),
            final(self).spec_idle_wait() == old(self).spec_idle_wait(),
            final(self).spec_loop_kind() == old(self).spec_loop_kind(),
    {
        let mut msg = match kind {
            FrameKind::Text => "Error sending text: ".to_string(),
            FrameKind::Binary => "Error sending binary: ".to_string(),
            FrameKind::Ping => "Error sending ping: ".to_string(),
            FrameKind::Pong => "Error sending pong: ".to_string(),
        };
        msg.append(detail.as_str());
        let mut events: Vec<WebSocketEvent> = Vec::new();
        events.push(WebSocketEvent::Error(msg));
        self.deliver(&events);
        proof {
            assert(events@ =~= seq![events@[0]]);
        }
        events.pop().unwrap()
    }

    /// Takes the outcome of one read: says which events to deliver and whether
    /// the read found no data. A close frame, an ended connection and a fatal
    /// failure end the loop, with `Quit` as the last event.
    pub fn process_read(&mut self, outcome: Result<Inbound, ReadFailure>) -> (r: ReadStep)
        requires
            old(self).wf(),
            old(self).spec_phase() == LoopPhase::Running,
        ensures
            final(self).wf(),
            read_step(
                outcome,
                old(self).spec_no_data_expected(),
                old(self).spec_loop_kind(),
                r.events@,
                r.idle,
            ),
            final(self).spec_loop_kind() == old(self).spec_loop_kind(),
            final(self).history() == old(self).history() + r.events@,
            final(self).spec_phase() == if read_ends_loop(
                outcome,
                old(self).spec_no_data_expected(),
            ) {
                LoopPhase::Finished
            } else {
                LoopPhase::Running
            },
            final(self).spec_close_requested() == old(self).spec_close_requested(),
            final(self).spec_quit_requested() == old(self).spec_quit_requested(),
            final(self).spec_no_data_expected() == old(self).spec_no_data_expected(),
            final(self).spec_idle_wait() == old(self).spec_idle_wait(),
            final(self).spec_loop_kind() == old(self).spec_loop_kind(),
    {
        let ghost go = outcome;
        let mut events: Vec<WebSocketEvent> = Vec::new();
        let mut idle = false;
        match outcome {
            Ok(m) => match m {
                Inbound::Text(b) => {
                    events.push(WebSocketEvent::TextMessage(b));
                    self.deliver(&events);
                },
                Inbound::Binary(b) => {
                    events.push(WebSocketEvent::BinaryMessage(b));
                    self.deliver(&events);
                },
                Inbound::Ping(b) => {
                    events.push(WebSocketEvent::Ping(b));
                    self.deliver(&events);
                },
                Inbound::Pong(b) => {
                    events.push(WebSocketEvent::Pong(b));
                    self.deliver(&events);
                },
                Inbound::Close(reason) => {
                    events.push(WebSocketEvent::ConnectionClosed(reason));
                    events.push(WebSocketEvent::Quit);
                    self.finish_with(&events);
                },
                Inbound::Frame => {
                    self.deliver(&events);
                },
            },
            Err(f) => {
                return self.process_failure(f);
            },
        }
        proof {
            if let Ok(m) = go {
                assert(events@ =~= message_events(m));
            }
        }
        ReadStep { events, idle }
    }

    /// Takes a failed read; see `process_read`.
    fn process_failure(&mut self, f: ReadFailure) -> (r: ReadStep)
        requires
            old(self).wf(),
            old(self).spec_phase() == LoopPhase::Running,
        ensures
            final(self).wf(),
            failure_step(
                f,
                old(self).spec_no_data_expected(),
                old(self).spec_loop_kind(),
                r.events@,
                r.idle,
            ),
            final(self).spec_loop_kind() == old(self).spec_loop_kind(),
            final(self).history() == old(self).history() + r.events@,
            final(self).spec_phase() == if read_ends_loop(
                Err(f),
                old(self).spec_no_data_expected(),
            ) {
                LoopPhase::Finished
            } else {
                LoopPhase::Running
            },
            final(self).spec_close_requested() == old(self).spec_close_requested(),
            final(self).spec_quit_requested() == old(self).spec_quit_requested(),
            final(self).spec_no_data_expected() == old(self).spec_no_data_expected(),
            final(self).spec_idle_wait() == old(self).spec_idle_wait(),
            final(self).spec_loop_kind() == old(self).spec_loop_kind(),
    {
        let mut events: Vec<WebSocketEvent> = Vec::new();
        let mut idle = false;
        match classify_read_failure(f, self.no_data_expected, self.kind) {
            ReadVerdict::NoData => {
                idle = true;
                self.deliver(&events);
            },
            ReadVerdict::Closed(s) => {
                events.push(WebSocketEvent::ConnectionClosed(Some(s)));
                events.push(WebSocketEvent::Quit);
                self.finish_with(&events);
            },
            ReadVerdict::Fatal(s) => {
                events.push(WebSocketEvent::Error(s));
                events.push(WebSocketEvent::Quit);
                self.finish_with(&events);
            },
        }
        ReadStep { events, idle }
    }

    /// Reports that an event could not be delivered: a running loop ends at
    /// once, with no further event; an ended one stays as it is.
    pub fn delivery_failed(&mut self)
        requires
            old(self).wf(),
        ensures
            final(self).wf(),
            *final(self) == if old(self).spec_phase() == LoopPhase::Running {
                old(self).after_delivery_failure()
            } else {
                *old(self)
            },
            final(self).spec_phase() == if old(self).spec_phase() == LoopPhase::Ready {
                LoopPhase::Ready
            } else {
                LoopPhase::Finished
            },
            final(self).spec_delivery_lost() == (old(self).spec_delivery_lost()
                || old(self).spec_phase() == LoopPhase::Running),
            final(self).history() == old(self).history(),
            final(self).spec_close_requested() == old(self).spec_close_requested(),
            final(self).spec_quit_requested() == old(self).spec_quit_requested(),
            final(self).spec_no_data_expected() == old(self).spec_no_data_expected(),
            final(self).spec_idle_wait() == old(self).spec_idle_wait(),
            final(self).spec_loop_kind() == old(self).spec_loop_kind(),
    {
        if self.phase == LoopPhase::Running {
            self.phase = LoopPhase::Finished;
            self.delivery_lost = Ghost(true);
        }
    }

    /// How long to sleep at the end of an iteration: the idle wait while the
    /// loop runs, nothing once it has ended.
    pub fn pause(&self) -> (r: Option<Interval>)
        ensures
            r == if self.spec_phase() == LoopPhase::Running {
                self.spec_idle_wait()
            } else {
                None
            },
    {
        if self.phase == LoopPhase::Running {
            self.idle_wait
        } else {
            None
        }
    }
}

/// A run delivers exactly one `Activated`, and before every other event.
pub proof fn activated_exactly_once(l: EventLoop)
    requires
        l.wf(),
        l.spec_phase() != LoopPhase::Ready,
    ensures
        l.history().len() > 0,
        l.history()[0] is Activated,
        forall|i: int| 0 < i < l.history().len() ==> !(#[trigger] l.history()[i] is Activated),
{
}

/// Right after a `ConnectionClosed` comes `Quit`, and with it the run ends.
pub proof fn quit_follows_closure(l: EventLoop, i: int)
    requires
        l.wf(),
        0 <= i < l.history().len(),
        l.history()[i] is ConnectionClosed,
    ensures
        i + 2 == l.history().len(),
        l.history()[i + 1] is Quit,
        l.spec_phase() == LoopPhase::Finished,
{
    assert(l.history()[i + 1] is Quit);
}

/// A text sent through the control channel becomes exactly one text frame
/// with that text; the peer's echo of it, read back, becomes exactly one
/// `TextMessage` with the text's bytes.
pub proof fn text_round_trip(
    text: String,
    echoed: Vec<u8>,
    sends_close: bool,
    no_data_expected: bool,
    kind: LoopKind,
    events: Seq<WebSocketEvent>,
    idle: bool,
)
    requires
        echoed@ == encode_utf8(text@),
        read_step(Ok(Inbound::Text(echoed)), no_data_expected, kind, events, idle),
    ensures
        command_outcome(ControlMessage::SendText(text), sends_close) == CommandStep::Send(
            OutboundFrame::Text(text),
        ),
        events.len() == 1,
        events[0] matches WebSocketEvent::TextMessage(b) && b@ == encode_utf8(text@),
        !idle,
{
}

/// A forced quit ends the loop with `Quit`, whatever is pending: as a command
/// at once, with `Quit` as the only event it leads to, and as a request at
/// the start of the next iteration, before any further read. A request to
/// quit changes nothing else.
pub proof fn forced_quit_ends_loop(l: EventLoop, sends_close: bool)
    ensures
        command_outcome(ControlMessage::ForceQuit(), sends_close) == CommandStep::Stop,
        command_events(ControlMessage::ForceQuit()) == seq![WebSocketEvent::Quit],
        iteration_start_events(l.after_quit_request().spec_quit_requested()) == seq![
            WebSocketEvent::Quit,
        ],
        l.after_quit_request().spec_phase() == l.spec_phase(),
        l.after_quit_request().history() == l.history(),
        l.after_quit_request().spec_close_requested() == l.spec_close_requested(),
        l.after_quit_request().spec_no_data_expected() == l.spec_no_data_expected(),
{
}

/// A run that has ended, other than for want of a receiver for its events,
/// ends on `Quit`.
pub proof fn ended_run_ends_with_quit(l: EventLoop)
    requires
        l.wf(),
        l.spec_phase() == LoopPhase::Finished,
        !l.spec_delivery_lost(),
    ensures
        l.history().len() > 0,
        l.history().last() is Quit,
{
}

/// Where the loop expects reads without data (a non-blocking socket, or a
/// blocking one with a read timeout), a would-block or timed-out read makes
/// the iteration idle: no event, and the loop goes on. With no quit
/// requested, the next iteration starts without an event, so a loop that
/// never gets data stays idle in every iteration until a quit or a close.
pub proof fn idle_without_data(
    detail: String,
    timed_out: bool,
    kind: LoopKind,
    events: Seq<WebSocketEvent>,
    idle: bool,
)
    requires
        read_step(
            if timed_out {
                Err(ReadFailure::TimedOut(detail))
            } else {
                Err(ReadFailure::WouldBlock(detail))
            },
            true,
            kind,
            events,
            idle,
        ),
    ensures
        events.len() == 0,
        idle,
        !read_ends_loop(
            if timed_out {
                Err(ReadFailure::TimedOut(detail))
            } else {
                Err(ReadFailure::WouldBlock(detail))
            },
            true,
        ),
        iteration_start_events(false).len() == 0,
{
}

/// A second close request sends nothing and changes nothing: at most one
/// close frame goes out, whatever the socket's state at either request.
pub proof fn close_is_idempotent(l: EventLoop, first: bool, second: bool)
    ensures
        !l.after_close_request().closes_now(second),
        command_outcome(ControlMessage::Close(), l.after_close_request().closes_now(second))
            == CommandStep::Skip,
        l.after_close_request().after_close_request() == l.after_close_request(),
        l.after_close_request().spec_phase() == l.spec_phase(),
        l.after_close_request().history() == l.history(),
        l.after_close_request().spec_quit_requested() == l.spec_quit_requested(),
        l.after_close_request().spec_no_data_expected() == l.spec_no_data_expected(),
{
}

} // verus!
