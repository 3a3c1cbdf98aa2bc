//! The host-facing session handle: the decisions that `connect`,
//! `disconnect` and `pushFrame` make before and after they talk to the loop.
use vstd::prelude::*;

verus! {

use crate::pcm::{samples_from_le_bytes, samples_of_le};

/// Options of a connect request.
pub struct ConnectOptions {
    pub address: String,
    pub password: Option<String>,
    pub nickname: Option<String>,
    pub channel: Option<String>,
    pub channel_password: Option<String>,
    pub identity: Option<String>,
    pub log_level: Option<String>,
}

/// Parameters of a disconnect request. The reason code is accepted and not
/// forwarded.
pub struct DisconnectParams {
    pub message: Option<String>,
    pub reason_code: Option<u32>,
}

/// Which protocol traces a session writes.
#[derive(Debug, Clone, Copy, PartialEq, Eq, Structural)]
pub struct LogFlags {
    pub commands: bool,
    pub packets: bool,
    pub udp: bool,
}

/// Trace flags selected by a verbosity level: each level enables the ones
/// below it, and an absent or unknown level enables none.
pub open spec fn log_flags_of(level: Option<Seq<char>>) -> LogFlags {
    match level {
        Some(l) => if l == "commands"@ {
            LogFlags { commands: true, packets: false, udp: false }
        } else if l == "packets"@ {
            LogFlags { commands: true, packets: true, udp: false }
        } else if l == "udp"@ {
            LogFlags { commands: true, packets: true, udp: true }
        } else {
            LogFlags { commands: false, packets: false, udp: false }
        },
        None => LogFlags { commands: false, packets: false, udp: false },
    }
}

/// Whether two texts are equal.
pub fn text_eq(a: &str, b: &str) -> (r: bool)
    ensures
        r == (a@ == b@),
{
    let n = a.unicode_len();
    if n != b.unicode_len() {
        return false;
    }
    let mut i: usize = 0;
    while i < n
        invariant
            n == a@.len(),
            n == b@.len(),
            i <= n,
            forall|k: int| 0 <= k < i ==> a@[k] == b@[k],
        decreases n - i,
    {
        if a.get_char(i) != b.get_char(i) {
            return false;
        }
        i = i + 1;
    }
    assert(a@ =~= b@);
    true
}

impl ConnectOptions {
    /// The protocol traces that this request's verbosity level selects.
    pub fn log_flags(&self) -> (f: LogFlags)
        ensures
            f == log_flags_of(
                match self.log_level {
                    Some(l) => Some(l@),
                    None => None,
                },
            ),
    {
        match &self.log_level {
            Some(l) => {
                if text_eq(l.as_str(), "commands") {
                    LogFlags { commands: true, packets: false, udp: false }
                } else if text_eq(l.as_str(), "packets") {
                    LogFlags { commands: true, packets: true, udp: false }
                } else if text_eq(l.as_str(), "udp") {
                    LogFlags { commands: true, packets: true, udp: true }
                } else {
                    LogFlags { commands: false, packets: false, udp: false }
                }
            },
            None => LogFlags { commands: false, packets: false, udp: false },
        }
    }
}

/// Text of a handle failure for the host.
pub open spec fn error_text(e: ClientError) -> Seq<char> {
    match e {
        ClientError::AlreadyActive => "Already connected or connecting"@,
        ClientError::InvalidIdentity(m) => "Failed to parse identity: "@ + m@,
        ClientError::NotConnected => "Not connected"@,
        ClientError::OddLength => "PCM buffer size must be divisible by 2"@,
        ClientError::QueueFull => "Audio queue is full or closed; keep push cadence near 20ms"@,
        ClientError::WorkerExited => "Connection worker exited before reporting status"@,
        ClientError::WorkerNotRunning => "Connection worker is not running"@,
        ClientError::DisconnectInterrupted => "Disconnect interrupted"@,
        ClientError::Failed(m) => m@,
    }
}

/// Why a handle operation failed.
#[derive(Debug, Clone, PartialEq, Eq)]
pub enum ClientError {
    /// `connect` while a session is active.
    AlreadyActive,
    /// The supplied identity could not be parsed; the parser's message.
    InvalidIdentity(String),
    /// `pushFrame` without an active session.
    NotConnected,
    /// `pushFrame` with a buffer of odd length.
    OddLength,
    /// The command queue is full or closed.
    QueueFull,
    /// The loop ended before answering `connect`.
    WorkerExited,
    /// The loop was gone when `disconnect` was sent.
    WorkerNotRunning,
    /// The loop ended before answering `disconnect`.
    DisconnectInterrupted,
    /// The loop answered with a failure.
    Failed(String),
}

impl ClientError {
    /// Whether the failure lies in the caller's arguments rather than in the
    /// session.
    pub open spec fn spec_is_argument_error(&self) -> bool {
        match self {
            ClientError::AlreadyActive => true,
            ClientError::InvalidIdentity(_) => true,
            ClientError::NotConnected => true,
            ClientError::OddLength => true,
            _ => false,
        }
    }

    /// Whether the failure lies in the caller's arguments rather than in the
    /// session.
    #[verifier::when_used_as_spec(spec_is_argument_error)]
    pub fn is_argument_error(&self) -> (r: bool)
        ensures
            r == self.spec_is_argument_error(),
    {
        match self {
            ClientError::AlreadyActive => true,
            ClientError::InvalidIdentity(_) => true,
            ClientError::NotConnected => true,
            ClientError::OddLength => true,
            _ => false,
        }
    }

    /// Text of the failure for the host.
    pub fn message(&self) -> (r: String)
        ensures
            r@ == error_text(*self),
    {
        match self {
            ClientError::AlreadyActive => String::from_str("Already connected or connecting"),
            ClientError::InvalidIdentity(e) => String::from_str("Failed to parse identity: ").concat(
                e.as_str(),
            ),
            ClientError::NotConnected => String::from_str("Not connected"),
            ClientError::OddLength => String::from_str("PCM buffer size must be divisible by 2"),
            ClientError::QueueFull => String::from_str(
                "Audio queue is full or closed; keep push cadence near 20ms",
            ),
            ClientError::WorkerExited => String::from_str(
                "Connection worker exited before reporting status",
            ),
            ClientError::WorkerNotRunning => String::from_str("Connection worker is not running"),
            ClientError::DisconnectInterrupted => String::from_str("Disconnect interrupted"),
            ClientError::Failed(e) => e.clone(),
        }
    }
}

/// The mathematical content of a `SessionHandle`.
pub struct HandleView {
    pub active: bool,
    pub identity: Option<Seq<char>>,
}

/// State of a session handle: whether a loop runs (its command sender and task
/// handle are both held), and the identity text of the last connect.
pub struct SessionHandle {
    active: bool,
    identity: Option<String>,
}

/// The handle after a connect request with the identity text `id`, or with
/// the parser's failure.
pub open spec fn after_connect(h: HandleView, id: Result<Seq<char>, Seq<char>>) -> HandleView {
    if h.active {
        h
    } else {
        match id {
            Ok(t) => HandleView { active: true, identity: Some(t) },
            Err(_) => h,
        }
    }
}

impl View for SessionHandle {
    type V = HandleView;

    closed spec fn view(&self) -> HandleView {
        HandleView {
            active: self.active,
            identity: match self.identity {
                Some(s) => Some(s@),
                None => None,
            },
        }
    }
}

impl SessionHandle {
    /// A handle with no session and no identity.
    pub fn new() -> (h: SessionHandle)
        ensures
            !h@.active,
            h@.identity is None,
    {
        SessionHandle { active: false, identity: None }
    }

    /// Whether a loop runs for this handle.
    pub fn is_active(&self) -> (r: bool)
        ensures
            r == self@.active,
    {
        self.active
    }

    /// Starts a connect request with the identity text that was parsed or
    /// generated for it, or with the parser's failure. Fails, changing
    /// nothing, while a session is active.
    pub fn begin_connect(&mut self, identity: Result<String, String>) -> (r: Result<(), ClientError>)
        ensures
            final(self)@ == after_connect(
                old(self)@,
                match identity {
                    Ok(t) => Ok(t@),
                    Err(e) => Err(e@),
                },
            ),
            old(self)@.active ==> r == Err::<(), ClientError>(ClientError::AlreadyActive),
            !old(self)@.active ==> match identity {
                Ok(_) => r is Ok,
                Err(e) => r == Err::<(), ClientError>(ClientError::InvalidIdentity(e)),
            },
    {
        if self.active {
            return Err(ClientError::AlreadyActive);
        }
        match identity {
            Ok(t) => {
                self.identity = Some(t);
                self.active = true;
                Ok(())
            },
            Err(e) => Err(ClientError::InvalidIdentity(e)),
        }
    }

    /// Settles a connect request from the loop's answer: `None` where the loop
    /// ended without one. On failure the session is dropped.
    pub fn finish_connect(&mut self, answer: Option<Result<(), String>>) -> (r: Result<(), ClientError>)
        ensures
            final(self)@.identity == old(self)@.identity,
            match answer {
                Some(Ok(())) => r is Ok && final(self)@.active == old(self)@.active,
                Some(Err(e)) => r == Err::<(), ClientError>(ClientError::Failed(e))
                    && !final(self)@.active,
                None => r == Err::<(), ClientError>(ClientError::WorkerExited) && !final(self)@.active,
            },
    {
        match answer {
            Some(Ok(())) => Ok(()),
            Some(Err(e)) => {
                self.active = false;
                Err(ClientError::Failed(e))
            },
            None => {
                self.active = false;
                Err(ClientError::WorkerExited)
            },
        }
    }

    /// Checks a `pushFrame` buffer and reads its samples. The samples are to be
    /// queued only when this returns `Ok`.
    pub fn push_frame(&self, pcm_le: &[u8]) -> (r: Result<Vec<i16>, ClientError>)
        ensures
            !self@.active ==> r == Err::<Vec<i16>, ClientError>(ClientError::NotConnected),
            self@.active && pcm_le@.len() % 2 == 1 ==> r == Err::<Vec<i16>, ClientError>(
                ClientError::OddLength,
            ),
            self@.active && pcm_le@.len() % 2 == 0 ==> r is Ok && r->Ok_0@ == samples_of_le(
                pcm_le@,
            ),
            pcm_le@.len() % 2 == 1 ==> r is Err && r->Err_0.is_argument_error(),
    {
        if !self.active {
            return Err(ClientError::NotConnected);
        }
        if pcm_le.len() % 2 != 0 {
            return Err(ClientError::OddLength);
        }
        Ok(samples_from_le_bytes(pcm_le))
    }

    /// Whether `disconnect` has a loop to talk to. Without one it succeeds at
    /// once and nothing is emitted.
    pub fn begin_disconnect(&self) -> (r: bool)
        ensures
            r == self@.active,
    {
        self.active
    }

    /// Settles a disconnect request: `sent` tells whether the command reached
    /// the loop, `answer` is the loop's reply. The session is dropped whatever
    /// the outcome.
    pub fn finish_disconnect(&mut self, sent: bool, answer: Option<Result<(), String>>) -> (r: Result<
        (),
        ClientError,
    >)
        ensures
            !final(self)@.active,
            final(self)@.identity == old(self)@.identity,
            !sent ==> r == Err::<(), ClientError>(ClientError::WorkerNotRunning),
            sent ==> match answer {
                Some(Ok(())) => r is Ok,
                Some(Err(e)) => r == Err::<(), ClientError>(ClientError::Failed(e)),
                None => r == Err::<(), ClientError>(ClientError::DisconnectInterrupted),
            },
    {
        self.active = false;
        if !sent {
            return Err(ClientError::WorkerNotRunning);
        }
        match answer {
            Some(Ok(())) => Ok(()),
            Some(Err(e)) => Err(ClientError::Failed(e)),
            None => Err(ClientError::DisconnectInterrupted),
        }
    }

    /// Drops the session of a loop that has already ended.
    pub fn loop_finished(&mut self)
        ensures
            !final(self)@.active,
            final(self)@.identity == old(self)@.identity,
    {
        self.active = false;
    }

    /// Identity text of the last connect request.
    pub fn export_identity(&self) -> (r: Option<String>)
        ensures
            match r {
                Some(s) => self@.identity == Some(s@),
                None => self@.identity is None,
            },
    {
        match &self.identity {
            Some(s) => Some(s.clone()),
            None => None,
        }
    }

    /// Identity text of the last connect request.
    pub fn get_identity(&self) -> (r: Option<String>)
        ensures
            match r {
                Some(s) => self@.identity == Some(s@),
                None => self@.identity is None,
            },
    {
        self.export_identity()
    }
}

/// A connect request that finds no active session keeps the identity text it
/// was given, which is what an export then returns; one that finds an active
/// session changes nothing.
pub proof fn lemma_connect_keeps_identity(h: HandleView, id: Result<Seq<char>, Seq<char>>)
    ensures
        h.active ==> after_connect(h, id) == h,
        !h.active && id is Ok ==> after_connect(h, id).active && after_connect(h, id).identity
            == Some(id->Ok_0),
{
}

} // verus!
