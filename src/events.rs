//! Events reported to the host, and the filter on decode failures.
use vstd::prelude::*;

verus! {

/// Code carried by an `error` event.
#[derive(Debug, Clone, Copy, PartialEq, Eq)]
pub enum ErrorCode {
    Connect,
    AudioEncode,
    SendAudio,
    Disconnect,
    DisconnectTimeout,
    Stream,
    AudioDecode,
}

/// Wire text of an error code.
pub open spec fn code_text(c: ErrorCode) -> Seq<char> {
    match c {
        ErrorCode::Connect => "E_CONNECT"@,
        ErrorCode::AudioEncode => "E_AUDIO_ENCODE"@,
        ErrorCode::SendAudio => "E_SEND_AUDIO"@,
        ErrorCode::Disconnect => "E_DISCONNECT"@,
        ErrorCode::DisconnectTimeout => "E_DISCONNECT_TIMEOUT"@,
        ErrorCode::Stream => "E_STREAM"@,
        ErrorCode::AudioDecode => "E_AUDIO_DECODE"@,
    }
}

impl ErrorCode {
    /// The code's wire text.
    pub fn as_str(&self) -> (r: &'static str)
        ensures
            r@ == code_text(*self),
    {
        match self {
            ErrorCode::Connect => "E_CONNECT",
            ErrorCode::AudioEncode => "E_AUDIO_ENCODE",
            ErrorCode::SendAudio => "E_SEND_AUDIO",
            ErrorCode::Disconnect => "E_DISCONNECT",
            ErrorCode::DisconnectTimeout => "E_DISCONNECT_TIMEOUT",
            ErrorCode::Stream => "E_STREAM",
            ErrorCode::AudioDecode => "E_AUDIO_DECODE",
        }
    }
}

/// Why a session ended, as carried by a `disconnected` event.
#[derive(Debug, Clone, Copy, PartialEq, Eq)]
pub enum DisconnectReason {
    StreamError,
    Eof,
    DisconnectError,
    ClientDisconnect,
}

/// Wire text of a disconnect reason.
pub open spec fn reason_text(r: DisconnectReason) -> Seq<char> {
    match r {
        DisconnectReason::StreamError => "stream_error"@,
        DisconnectReason::Eof => "eof"@,
        DisconnectReason::DisconnectError => "disconnect_error"@,
        DisconnectReason::ClientDisconnect => "client_disconnect"@,
    }
}

impl DisconnectReason {
    /// The reason's wire text.
    pub fn as_str(&self) -> (r: &'static str)
        ensures
            r@ == reason_text(*self),
    {
        match self {
            DisconnectReason::StreamError => "stream_error",
            DisconnectReason::Eof => "eof",
            DisconnectReason::DisconnectError => "disconnect_error",
            DisconnectReason::ClientDisconnect => "client_disconnect",
        }
    }
}

/// An event for the host. Audio events carry one 960-sample mono frame at
/// 48 kHz as base64 of little-endian 16-bit PCM.
#[derive(Debug, Clone)]
pub enum NativeEvent {
    Connected { server_name: String },
    Disconnected { reason: DisconnectReason },
    Reconnecting { reason: String },
    Error { code: ErrorCode, message: String },
    AudioSpeaker { client_id: u16, pcm: String },
    AudioMixed { pcm: String },
}

/// Name of an event as the host sees it.
pub open spec fn event_name(e: EventView) -> Seq<char> {
    match e {
        EventView::Connected(_) => "connected"@,
        EventView::Disconnected(_) => "disconnected"@,
        EventView::Reconnecting(_) => "reconnecting"@,
        EventView::Error(..) => "error"@,
        EventView::AudioSpeaker(..) => "audioSpeaker"@,
        EventView::AudioMixed(_) => "audioMixed"@,
    }
}

impl NativeEvent {
    /// The event's name as the host sees it.
    pub fn name(&self) -> (r: &'static str)
        ensures
            r@ == event_name(self@),
    {
        match self {
            NativeEvent::Connected { .. } => "connected",
            NativeEvent::Disconnected { .. } => "disconnected",
            NativeEvent::Reconnecting { .. } => "reconnecting",
            NativeEvent::Error { .. } => "error",
            NativeEvent::AudioSpeaker { .. } => "audioSpeaker",
            NativeEvent::AudioMixed { .. } => "audioMixed",
        }
    }
}

/// The mathematical content of a `NativeEvent`.
pub enum EventView {
    Connected(Seq<char>),
    Disconnected(DisconnectReason),
    Reconnecting(Seq<char>),
    Error(ErrorCode, Seq<char>),
    AudioSpeaker(u16, Seq<char>),
    AudioMixed(Seq<char>),
}

impl View for NativeEvent {
    type V = EventView;

    open spec fn view(&self) -> EventView {
        match self {
            NativeEvent::Connected { server_name } => EventView::Connected(server_name@),
            NativeEvent::Disconnected { reason } => EventView::Disconnected(*reason),
            NativeEvent::Reconnecting { reason } => EventView::Reconnecting(reason@),
            NativeEvent::Error { code, message } => EventView::Error(*code, message@),
            NativeEvent::AudioSpeaker { client_id, pcm } => EventView::AudioSpeaker(*client_id, pcm@),
            NativeEvent::AudioMixed { pcm } => EventView::AudioMixed(pcm@),
        }
    }
}

/// Whether `pat` occurs in `s` starting at `i`.
pub open spec fn occurs_at(s: Seq<char>, pat: Seq<char>, i: int) -> bool {
    0 <= i && i + pat.len() <= s.len() && s.subrange(i, i + pat.len()) == pat
}

/// Whether `pat` occurs anywhere in `s`.
pub open spec fn contains_text(s: Seq<char>, pat: Seq<char>) -> bool {
    exists|i: int| occurs_at(s, pat, i)
}

/// Whether a decode failure with message `msg` is worth an error event:
/// late packets and a full jitter queue happen under normal jitter.
pub open spec fn decode_error_reported(msg: Seq<char>) -> bool {
    !contains_text(msg, "too late"@) && !contains_text(msg, "queue is full"@)
}

fn matches_at(s: &str, pat: &str, i: usize) -> (r: bool)
    requires
        i + pat@.len() <= s@.len(),
    ensures
        r == (s@.subrange(i as int, i + pat@.len()) == pat@),
{
    let n = s.unicode_len();
    let m = pat.unicode_len();
    let mut j: usize = 0;
    while j < m
        invariant
            n == s@.len(),
            m == pat@.len(),
            i + m <= s@.len(),
            j <= m,
            forall|a: int| 0 <= a < j ==> s@[i + a] == #[trigger] pat@[a],
        decreases m - j,
    {
        if s.get_char(i + j) != pat.get_char(j) {
            assert(s@.subrange(i as int, i + m)[j as int] != pat@[j as int]);
            return false;
        }
        j = j + 1;
    }
    assert(s@.subrange(i as int, i + m) =~= pat@);
    true
}

/// Whether `pat` occurs in `s`.
pub fn contains_str(s: &str, pat: &str) -> (r: bool)
    ensures
        r == contains_text(s@, pat@),
{
    let n = s.unicode_len();
    let m = pat.unicode_len();
    if m > n {
        return false;
    }
    let last = n - m;
    let mut i: usize = 0;
    loop
        invariant
            n == s@.len(),
            m == pat@.len(),
            last == n - m,
            i <= last,
            forall|a: int| 0 <= a < i ==> !occurs_at(s@, pat@, a),
        decreases last - i,
    {
        if matches_at(s, pat, i) {
            assert(occurs_at(s@, pat@, i as int));
            return true;
        }
        if i == last {
            return false;
        }
        i = i + 1;
    }
}

/// Whether a decode failure with message `msg` should be reported to the host.
pub fn should_report_decode_error(msg: &str) -> (r: bool)
    ensures
        r == decode_error_reported(msg@),
{
    !(contains_str(msg, "too late") || contains_str(msg, "queue is full"))
}

} // verus!
