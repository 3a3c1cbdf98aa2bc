//! Decisions of the session control loop. The loop's driver waits on the
//! command queue, the tick timer and the session's event stream, turns what
//! it sees into a `LoopInput`, and carries out the actions that `step` returns.
use vstd::prelude::*;

verus! {

use crate::events::{
    decode_error_reported,
    should_report_decode_error,
    DisconnectReason,
    ErrorCode,
    EventView,
    NativeEvent,
};

/// Where the loop stands.
#[derive(Debug, Clone, Copy, PartialEq, Eq, Structural)]
pub enum Phase {
    /// Commands, ticks and session events are handled.
    Running,
    /// A disconnect was sent; the session's stream is drained until it ends.
    Draining,
    /// The loop is over.
    Ended,
}

/// State of the control loop: the liveness flag, whether the connect call
/// still waits for its answer, and the phase.
#[derive(Debug, Clone, Copy, PartialEq, Eq, Structural)]
pub struct LoopState {
    pub connected: bool,
    pub ready_pending: bool,
    pub phase: Phase,
}

/// What the loop's driver observed.
pub enum LoopInput {
    /// The session could not be opened.
    ConnectFailed { message: String },
    /// The audio encoder could not be created.
    EncoderFailed { message: String },
    /// A roster/state-sync event arrived, with the server's name.
    Synced { server_name: String },
    /// The session reported a temporary disconnect.
    Reconnecting { reason: String },
    /// The session's stream failed.
    StreamError { message: String },
    /// The session's stream ended.
    StreamEnd,
    /// Any other session event.
    StreamOther,
    /// Encoding one outbound window failed.
    EncodeFailed { message: String },
    /// Sending one outbound packet failed.
    SendFailed { message: String },
    /// Decoding an inbound packet failed.
    DecodeFailed { message: String },
    /// The host asked to disconnect, and the request was handed to the session.
    DisconnectRequested,
    /// The session refused the disconnect request.
    DisconnectRejected { message: String },
    /// The drain after a disconnect ran out of time.
    DrainTimeout,
    /// Every source of the loop closed.
    SourcesClosed,
}

/// What the driver must do.
pub enum Action {
    /// Hand an event to the host.
    Emit(NativeEvent),
    /// Answer the pending connect call.
    Ready(Result<(), String>),
    /// Answer the pending disconnect call.
    Done(Result<(), String>),
}

/// The mathematical content of an `Action`; `None` stands for success.
pub enum ActionView {
    Emit(EventView),
    Ready(Option<Seq<char>>),
    Done(Option<Seq<char>>),
}

impl View for Action {
    type V = ActionView;

    open spec fn view(&self) -> ActionView {
        match self {
            Action::Emit(e) => ActionView::Emit(e@),
            Action::Ready(r) => ActionView::Ready(
                match r {
                    Ok(_) => None,
                    Err(m) => Some(m@),
                },
            ),
            Action::Done(r) => ActionView::Done(
                match r {
                    Ok(_) => None,
                    Err(m) => Some(m@),
                },
            ),
        }
    }
}

/// The state after the loop ends.
pub open spec fn ended_state() -> LoopState {
    LoopState { connected: false, ready_pending: false, phase: Phase::Ended }
}

/// A failure answer to the connect call, where one is still owed.
pub open spec fn fail_ready(s: LoopState, m: Seq<char>) -> Seq<ActionView> {
    if s.ready_pending {
        seq![ActionView::Ready(Some(m))]
    } else {
        seq![]
    }
}

/// An `error` event.
pub open spec fn error_event(code: ErrorCode, m: Seq<char>) -> ActionView {
    ActionView::Emit(EventView::Error(code, m))
}

/// A `disconnected` event.
pub open spec fn disconnected_event(r: DisconnectReason) -> ActionView {
    ActionView::Emit(EventView::Disconnected(r))
}

/// Message for a drain that ran out of time.
pub open spec fn timeout_text() -> Seq<char> {
    "Timed out while waiting for graceful disconnect"@
}

/// Message of the error event for a stream that ended while running.
pub open spec fn eof_text() -> Seq<char> {
    "Session stream ended"@
}

/// The next state and the actions of one loop step.
pub open spec fn step_spec(s: LoopState, i: LoopInput) -> (LoopState, Seq<ActionView>) {
    match s.phase {
        Phase::Ended => (s, seq![]),
        Phase::Running => match i {
            LoopInput::ConnectFailed { message } => {
                let m = "Failed to connect: "@ + message@;
                (
                    ended_state(),
                    fail_ready(s, m).push(error_event(ErrorCode::Connect, m)).push(
                        disconnected_event(DisconnectReason::StreamError),
                    ),
                )
            },
            LoopInput::EncoderFailed { message } => {
                let m = "Failed to create Opus encoder: "@ + message@;
                (
                    ended_state(),
                    fail_ready(s, m).push(error_event(ErrorCode::AudioEncode, m)).push(
                        disconnected_event(DisconnectReason::StreamError),
                    ),
                )
            },
            LoopInput::Synced { server_name } => {
                if s.connected {
                    (s, seq![])
                } else {
                    let first = if s.ready_pending {
                        seq![ActionView::Ready(None)]
                    } else {
                        seq![]
                    };
                    (
                        LoopState { connected: true, ready_pending: false, phase: Phase::Running },
                        first.push(ActionView::Emit(EventView::Connected(server_name@))),
                    )
                }
            },
            LoopInput::Reconnecting { reason } => (
                LoopState { connected: false, ready_pending: s.ready_pending, phase: s.phase },
                seq![ActionView::Emit(EventView::Reconnecting(reason@))],
            ),
            LoopInput::StreamError { message } => (
                ended_state(),
                fail_ready(s, "Connection failed: "@ + message@).push(
                    error_event(ErrorCode::Stream, message@),
                ).push(disconnected_event(DisconnectReason::StreamError)),
            ),
            LoopInput::StreamEnd => (
                ended_state(),
                fail_ready(s, "Disconnected before connected"@).push(
                    error_event(ErrorCode::Stream, eof_text()),
                ).push(disconnected_event(DisconnectReason::Eof)),
            ),
            LoopInput::EncodeFailed { message } => (
                s,
                seq![error_event(ErrorCode::AudioEncode, message@)],
            ),
            LoopInput::SendFailed { message } => (
                s,
                seq![error_event(ErrorCode::SendAudio, message@)],
            ),
            LoopInput::DecodeFailed { message } => (
                s,
                if decode_error_reported(message@) {
                    seq![error_event(ErrorCode::AudioDecode, message@)]
                } else {
                    seq![]
                },
            ),
            LoopInput::DisconnectRequested => (
                LoopState { connected: s.connected, ready_pending: s.ready_pending, phase: Phase::Draining },
                seq![],
            ),
            LoopInput::SourcesClosed => (
                ended_state(),
                fail_ready(s, "Connection task exited unexpectedly"@).push(
                    disconnected_event(DisconnectReason::StreamError),
                ),
            ),
            _ => (s, seq![]),
        },
        Phase::Draining => match i {
            LoopInput::Reconnecting { reason } => (
                LoopState { connected: false, ready_pending: s.ready_pending, phase: s.phase },
                seq![ActionView::Emit(EventView::Reconnecting(reason@))],
            ),
            LoopInput::StreamError { message } => (
                ended_state(),
                seq![
                    ActionView::Done(Some(message@)),
                    error_event(ErrorCode::Disconnect, message@),
                    disconnected_event(DisconnectReason::ClientDisconnect),
                ],
            ),
            LoopInput::StreamEnd => (
                ended_state(),
                seq![ActionView::Done(None), disconnected_event(DisconnectReason::ClientDisconnect)],
            ),
            LoopInput::DisconnectRejected { message } => (
                ended_state(),
                seq![
                    ActionView::Done(Some(message@)),
                    error_event(ErrorCode::Disconnect, message@),
                    disconnected_event(DisconnectReason::DisconnectError),
                ],
            ),
            LoopInput::DrainTimeout => (
                ended_state(),
                seq![
                    ActionView::Done(Some(timeout_text())),
                    error_event(ErrorCode::DisconnectTimeout, timeout_text()),
                    disconnected_event(DisconnectReason::ClientDisconnect),
                ],
            ),
            _ => (s, seq![]),
        },
    }
}

/// Views of a list of actions.
pub open spec fn actions_view(a: Seq<Action>) -> Seq<ActionView> {
    a.map_values(|x: Action| x@)
}

/// Liveness ends with the `disconnected` event: a step that emits it leaves
/// the loop ended and not live, and an ended loop stays so, emitting nothing.
pub proof fn lemma_disconnected_is_final(s: LoopState, i: LoopInput)
    requires
        s.wf(),
    ensures
        ({
            let (t, a) = step_spec(s, i);
            &&& t.wf()
            &&& (exists|k: int, r: DisconnectReason|
                0 <= k < a.len() && a[k] == disconnected_event(r)) ==> t.phase == Phase::Ended
                && !t.connected
            &&& s.phase == Phase::Ended ==> t == s && a.len() == 0
        }),
{
    let (t, a) = step_spec(s, i);
    if exists|k: int, r: DisconnectReason| 0 <= k < a.len() && a[k] == disconnected_event(r) {
        let (k, r) = choose|k: int, r: DisconnectReason|
            0 <= k < a.len() && a[k] == disconnected_event(r);
        if t.phase != Phase::Ended {
            match s.phase {
                Phase::Running => match i {
                    LoopInput::DecodeFailed { message } => {
                        if decode_error_reported(message@) {
                            assert(a[k] == error_event(ErrorCode::AudioDecode, message@));
                        }
                    },
                    _ => {},
                },
                _ => {},
            }
        }
    }
}

/// The state and the actions of a run of steps, in order.
pub open spec fn run_spec(s: LoopState, inputs: Seq<LoopInput>) -> (LoopState, Seq<ActionView>)
    decreases inputs.len(),
{
    if inputs.len() == 0 {
        (s, seq![])
    } else {
        let (t, a) = step_spec(s, inputs[0]);
        let (u, b) = run_spec(t, inputs.drop_first());
        (u, a + b)
    }
}

/// Whether `a` is a `disconnected` event.
pub open spec fn is_disconnected(a: ActionView) -> bool {
    a matches ActionView::Emit(EventView::Disconnected(_))
}

/// Whether `a` announces that liveness fell: `disconnected` or `reconnecting`.
pub open spec fn announces_drop(a: ActionView) -> bool {
    a matches ActionView::Emit(EventView::Disconnected(_)) || a matches ActionView::Emit(
        EventView::Reconnecting(_),
    )
}

proof fn lemma_ended_run(s: LoopState, inputs: Seq<LoopInput>)
    requires
        s.phase == Phase::Ended,
    ensures
        run_spec(s, inputs).0 == s,
        run_spec(s, inputs).1.len() == 0,
    decreases inputs.len(),
{
    if inputs.len() > 0 {
        lemma_ended_run(s, inputs.drop_first());
    }
}

/// Once a run has emitted `disconnected`, the loop is over and not live at
/// its end, whatever came after.
pub proof fn lemma_not_live_after_disconnected(s: LoopState, inputs: Seq<LoopInput>)
    requires
        s.wf(),
        exists|k: int|
            0 <= k < run_spec(s, inputs).1.len() && is_disconnected(#[trigger] run_spec(s, inputs).1[k]),
    ensures
        run_spec(s, inputs).0.phase == Phase::Ended,
        !run_spec(s, inputs).0.connected,
    decreases inputs.len(),
{
    let k = choose|k: int|
        0 <= k < run_spec(s, inputs).1.len() && is_disconnected(#[trigger] run_spec(s, inputs).1[k]);
    let (t, a) = step_spec(s, inputs[0]);
    let rest = inputs.drop_first();
    lemma_disconnected_is_final(s, inputs[0]);
    if k < a.len() {
        let r = match a[k] {
            ActionView::Emit(EventView::Disconnected(r)) => r,
            _ => DisconnectReason::Eof,
        };
        assert(a[k] == disconnected_event(r));
        lemma_ended_run(t, rest);
    } else {
        assert(run_spec(t, rest).1[k - a.len()] == run_spec(s, inputs).1[k]);
        lemma_not_live_after_disconnected(t, rest);
    }
}

/// A live loop stops being live only in a step that emits `disconnected` or
/// `reconnecting`.
pub proof fn lemma_liveness_drop_is_announced(s: LoopState, i: LoopInput)
    requires
        s.wf(),
        s.connected,
        !step_spec(s, i).0.connected,
    ensures
        exists|k: int|
            0 <= k < step_spec(s, i).1.len() && announces_drop(#[trigger] step_spec(s, i).1[k]),
{
    let a = step_spec(s, i).1;
    assert(announces_drop(a[a.len() - 1]));
}

/// Liveness turns on only through the first sync event of a running loop.
pub proof fn lemma_live_only_by_sync(s: LoopState, i: LoopInput)
    requires
        s.wf(),
        !s.connected,
        step_spec(s, i).0.connected,
    ensures
        s.phase == Phase::Running,
        i is Synced,
{
}

impl LoopState {
    /// An ended loop neither reports liveness nor owes a connect answer.
    pub open spec fn wf(&self) -> bool {
        self.phase == Phase::Ended ==> !self.connected && !self.ready_pending
    }

    /// A loop that has just started: not yet live, with the connect call waiting.
    pub fn new() -> (s: LoopState)
        ensures
            s == (LoopState { connected: false, ready_pending: true, phase: Phase::Running }),
            s.wf(),
    {
        LoopState { connected: false, ready_pending: true, phase: Phase::Running }
    }

    /// Whether timer ticks are mixed: only while the loop runs, not while a
    /// disconnect drains the stream nor after the end.
    pub fn accepts_ticks(&self) -> (r: bool)
        ensures
            r == (self.phase == Phase::Running),
    {
        self.phase == Phase::Running
    }

    /// Whether the loop is over.
    pub fn is_ended(&self) -> (r: bool)
        ensures
            r == (self.phase == Phase::Ended),
    {
        self.phase == Phase::Ended
    }

    fn end(&mut self)
        ensures
            *final(self) == ended_state(),
    {
        self.connected = false;
        self.ready_pending = false;
        self.phase = Phase::Ended;
    }

    fn answer_ready_err(&self, acts: &mut Vec<Action>, m: String)
        ensures
            actions_view(final(acts)@) == actions_view(old(acts)@) + fail_ready(*self, m@),
    {
        let ghost before = old(acts)@;
        if self.ready_pending {
            acts.push(Action::Ready(Err(m)));
        }
        assert(actions_view(acts@) =~= actions_view(before) + fail_ready(*self, m@));
    }

    /// One step of the loop on `input`.
    pub fn step(&mut self, input: LoopInput) -> (acts: Vec<Action>)
        requires
            old(self).wf(),
        ensures
            final(self).wf(),
            *final(self) == step_spec(*old(self), input).0,
            actions_view(acts@) == step_spec(*old(self), input).1,
    {
        let mut acts: Vec<Action> = Vec::new();
        let ghost s0 = *self;
        match self.phase {
            Phase::Ended => {},
            Phase::Running => match input {
                LoopInput::ConnectFailed { message } => {
                    let m = String::from_str("Failed to connect: ").concat(message.as_str());
                    self.answer_ready_err(&mut acts, m.clone());
                    acts.push(Action::Emit(NativeEvent::Error { code: ErrorCode::Connect, message: m }));
                    acts.push(Action::Emit(NativeEvent::Disconnected { reason: DisconnectReason::StreamError }));
                    self.end();
                },
                LoopInput::EncoderFailed { message } => {
                    let m = String::from_str("Failed to create Opus encoder: ").concat(message.as_str());
                    self.answer_ready_err(&mut acts, m.clone());
                    acts.push(Action::Emit(NativeEvent::Error { code: ErrorCode::AudioEncode, message: m }));
                    acts.push(Action::Emit(NativeEvent::Disconnected { reason: DisconnectReason::StreamError }));
                    self.end();
                },
                LoopInput::Synced { server_name } => {
                    if !self.connected {
                        self.connected = true;
                        if self.ready_pending {
                            acts.push(Action::Ready(Ok(())));
                            self.ready_pending = false;
                        }
                        acts.push(Action::Emit(NativeEvent::Connected { server_name }));
                    }
                },
                LoopInput::Reconnecting { reason } => {
                    self.connected = false;
                    acts.push(Action::Emit(NativeEvent::Reconnecting { reason }));
                },
                LoopInput::StreamError { message } => {
                    let m = String::from_str("Connection failed: ").concat(message.as_str());
                    self.answer_ready_err(&mut acts, m);
                    acts.push(Action::Emit(NativeEvent::Error { code: ErrorCode::Stream, message }));
                    acts.push(Action::Emit(NativeEvent::Disconnected { reason: DisconnectReason::StreamError }));
                    self.end();
                },
                LoopInput::StreamEnd => {
                    self.answer_ready_err(&mut acts, String::from_str("Disconnected before connected"));
                    acts.push(Action::Emit(NativeEvent::Error {
                        code: ErrorCode::Stream,
                        message: String::from_str("Session stream ended"),
                    }));
                    acts.push(Action::Emit(NativeEvent::Disconnected { reason: DisconnectReason::Eof }));
                    self.end();
                },
                LoopInput::EncodeFailed { message } => {
                    acts.push(Action::Emit(NativeEvent::Error { code: ErrorCode::AudioEncode, message }));
                },
                LoopInput::SendFailed { message } => {
                    acts.push(Action::Emit(NativeEvent::Error { code: ErrorCode::SendAudio, message }));
                },
                LoopInput::DecodeFailed { message } => {
                    if should_report_decode_error(message.as_str()) {
                        acts.push(Action::Emit(NativeEvent::Error { code: ErrorCode::AudioDecode, message }));
                    }
                },
                LoopInput::DisconnectRequested => {
                    self.phase = Phase::Draining;
                },
                LoopInput::SourcesClosed => {
                    self.answer_ready_err(&mut acts, String::from_str("Connection task exited unexpectedly"));
                    acts.push(Action::Emit(NativeEvent::Disconnected { reason: DisconnectReason::StreamError }));
                    self.end();
                },
                _ => {},
            },
            Phase::Draining => match input {
                LoopInput::Reconnecting { reason } => {
                    self.connected = false;
                    acts.push(Action::Emit(NativeEvent::Reconnecting { reason }));
                },
                LoopInput::StreamError { message } => {
                    acts.push(Action::Done(Err(message.clone())));
                    acts.push(Action::Emit(NativeEvent::Error { code: ErrorCode::Disconnect, message }));
                    acts.push(Action::Emit(NativeEvent::Disconnected { reason: DisconnectReason::ClientDisconnect }));
                    self.end();
                },
                LoopInput::StreamEnd => {
                    acts.push(Action::Done(Ok(())));
                    acts.push(Action::Emit(NativeEvent::Disconnected { reason: DisconnectReason::ClientDisconnect }));
                    self.end();
                },
                LoopInput::DisconnectRejected { message } => {
                    acts.push(Action::Done(Err(message.clone())));
                    acts.push(Action::Emit(NativeEvent::Error { code: ErrorCode::Disconnect, message }));
                    acts.push(Action::Emit(NativeEvent::Disconnected { reason: DisconnectReason::DisconnectError }));
                    self.end();
                },
                LoopInput::DrainTimeout => {
                    let m = String::from_str("Timed out while waiting for graceful disconnect");
                    acts.push(Action::Done(Err(m.clone())));
                    acts.push(Action::Emit(NativeEvent::Error { code: ErrorCode::DisconnectTimeout, message: m }));
                    acts.push(Action::Emit(NativeEvent::Disconnected { reason: DisconnectReason::ClientDisconnect }));
                    self.end();
                },
                _ => {},
            },
        }
        assert(actions_view(acts@) =~= step_spec(s0, input).1);
        acts
    }
}

} // verus!
