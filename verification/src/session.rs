//! The local session manager: a background process holds one authenticated
//! connection and serves the client commands of the same user over a loopback
//! socket guarded by a random token.
use vstd::prelude::*;

use crate::encoding::{b64_decode, b64_encode, spec_b64_decode, spec_b64_encode};
use crate::protocol::{stream_text, OutputStream};
use crate::server::NetworkMode;
use crate::text::{
    debug_str, decimal, list_items_text, push_decimal, push_signed_decimal, push_string_list, signed_decimal,
    spec_debug_str, strings_view,
};
use vstd::string::StringSliceAdditionalSpecFns;

verus! {

/// Where the background session listens and the token it expects.
#[derive(Debug, Clone, PartialEq, Eq)]
pub struct SessionInfo {
    pub port: u16,
    pub token: [u8; 32],
}

/// One frame on the local session socket.
#[derive(Clone, PartialEq, Eq)]
pub enum SessionFrame {
    Hello { token: [u8; 32] },
    Request(SessionRequest),
    /// Acknowledges a hello or a ping.
    Ack,
    ExecOutput { stream: OutputStream, data: Vec<u8> },
    ExecExit { code: i32 },
    Cancel,
    TransferDone { bytes: u64 },
    Error(String),
}

/// What a client command asks of the background session. Paths are absolute.
#[derive(Debug, Clone, PartialEq, Eq)]
pub enum SessionRequest {
    Ping,
    Exec { command: Vec<String> },
    Put { local: String, remote: String },
    Get { remote: String, local: String },
}

/// What a client command hands over to run a command through the background
/// session: where the server is, how to log in, the command, and where its
/// output goes.
pub struct ExecSessionRequest<'a, W1, W2> {
    pub addr: &'a str,
    pub password: &'a str,
    pub network_mode: NetworkMode,
    pub keepalive_secs: u64,
    pub command: Vec<String>,
    pub stdout: &'a mut W1,
    pub stderr: &'a mut W2,
}

/// A background session that was found running.
#[derive(Debug, Clone)]
pub struct SessionHandle {
    pub info: SessionInfo,
}

impl SessionHandle {
    /// The frame that opens a connection to the session.
    pub fn hello(&self) -> (r: SessionFrame)
        ensures
            r == (SessionFrame::Hello { token: self.info.token }),
    {
        SessionFrame::Hello { token: self.info.token }
    }
}

pub open spec fn request_text(r: SessionRequest) -> Seq<char> {
    match r {
        SessionRequest::Ping => "Ping"@,
        SessionRequest::Exec { command } => "Exec { command: ["@ + list_items_text(strings_view(command@))
            + "] }"@,
        SessionRequest::Put { local, remote } => "Put { local: "@ + spec_debug_str(local@) + ", remote: "@
            + spec_debug_str(remote@) + " }"@,
        SessionRequest::Get { remote, local } => "Get { remote: "@ + spec_debug_str(remote@) + ", local: "@
            + spec_debug_str(local@) + " }"@,
    }
}

/// The debug text of a frame. Neither the token of a hello nor the bytes of
/// command output are in it: the token shows as `"<redacted>"`, the output as
/// its length.
pub open spec fn frame_text(f: SessionFrame) -> Seq<char> {
    match f {
        SessionFrame::Hello { .. } => "Hello { token: \"<redacted>\" }"@,
        SessionFrame::Request(r) => "Request("@ + request_text(r) + ")"@,
        SessionFrame::Ack => "Ok"@,
        SessionFrame::ExecOutput { stream, data } => "ExecOutput { stream: "@ + stream_text(stream)
            + ", data: \"<"@ + decimal(data@.len()) + " bytes>\" }"@,
        SessionFrame::ExecExit { code } => "ExecExit { code: "@ + signed_decimal(code as int) + " }"@,
        SessionFrame::Cancel => "Cancel"@,
        SessionFrame::TransferDone { bytes } => "TransferDone { bytes: "@ + decimal(bytes as nat) + " }"@,
        SessionFrame::Error(m) => "Error("@ + spec_debug_str(m@) + ")"@,
    }
}

fn push_request(s: &mut String, r: &SessionRequest)
    ensures
        final(s)@ == old(s)@ + request_text(*r),
{
    match r {
        SessionRequest::Ping => s.append("Ping"),
        SessionRequest::Exec { command } => {
            s.append("Exec { command: [");
            push_string_list(s, command);
            s.append("] }");
        },
        SessionRequest::Put { local, remote } => {
            s.append("Put { local: ");
            let l = debug_str(local.as_str());
            s.append(l.as_str());
            s.append(", remote: ");
            let rr = debug_str(remote.as_str());
            s.append(rr.as_str());
            s.append(" }");
        },
        SessionRequest::Get { remote, local } => {
            s.append("Get { remote: ");
            let rr = debug_str(remote.as_str());
            s.append(rr.as_str());
            s.append(", local: ");
            let l = debug_str(local.as_str());
            s.append(l.as_str());
            s.append(" }");
        },
    }
    assert(final(s)@ =~= old(s)@ + request_text(*r));
}

impl SessionRequest {
    /// The debug text of a request.
    pub fn debug_string(&self) -> (r: String)
        ensures
            r@ == request_text(*self),
    {
        let mut s = String::new();
        push_request(&mut s, self);
        assert(s@ =~= request_text(*self));
        s
    }
}

impl SessionFrame {
    /// The number of output bytes a frame carries.
    pub fn data_len(&self) -> (r: usize)
        ensures
            r == (match *self {
                SessionFrame::ExecOutput { data, .. } => data@.len(),
                _ => 0,
            }),
    {
        match self {
            SessionFrame::ExecOutput { data, .. } => data.len(),
            _ => 0,
        }
    }

    /// The debug text of a frame, without secrets or output bytes.
    pub fn debug_string(&self) -> (r: String)
        ensures
            r@ == frame_text(*self),
    {
        let mut s = String::new();
        match self {
            SessionFrame::Hello { .. } => s.append("Hello { token: \"<redacted>\" }"),
            SessionFrame::Request(req) => {
                s.append("Request(");
                push_request(&mut s, req);
                s.append(")");
            },
            SessionFrame::Ack => s.append("Ok"),
            SessionFrame::ExecOutput { stream, .. } => {
                s.append("ExecOutput { stream: ");
                match stream {
                    OutputStream::Stdout => s.append("Stdout"),
                    OutputStream::Stderr => s.append("Stderr"),
                }
                s.append(", data: \"<");
                push_decimal(&mut s, self.data_len() as u64);
                s.append(" bytes>\" }");
            },
            SessionFrame::ExecExit { code } => {
                s.append("ExecExit { code: ");
                push_signed_decimal(&mut s, *code as i64);
                s.append(" }");
            },
            SessionFrame::Cancel => s.append("Cancel"),
            SessionFrame::TransferDone { bytes } => {
                s.append("TransferDone { bytes: ");
                push_decimal(&mut s, *bytes);
                s.append(" }");
            },
            SessionFrame::Error(m) => {
                s.append("Error(");
                let d = debug_str(m.as_str());
                s.append(d.as_str());
                s.append(")");
            },
        }
        assert(s@ =~= frame_text(*self));
        s
    }
}

/// Frames print no secret: hellos print the same whatever their tokens, and
/// output frames of one stream print the same for all data of one length.
pub proof fn lemma_frame_text_redacts(t1: [u8; 32], t2: [u8; 32], s: OutputStream, d1: Vec<u8>, d2: Vec<u8>)
    requires
        d1@.len() == d2@.len(),
    ensures
        frame_text(SessionFrame::Hello { token: t1 }) == frame_text(SessionFrame::Hello { token: t2 }),
        frame_text(SessionFrame::ExecOutput { stream: s, data: d1 }) == frame_text(
            SessionFrame::ExecOutput { stream: s, data: d2 },
        ),
{
}

} // verus!

verus! {

/// Compares two session tokens without an early exit.
pub fn token_eq(left: &[u8; 32], right: &[u8; 32]) -> (r: bool)
    ensures
        r == (left@ == right@),
{
    crate::auth::constant_time_eq(left, right)
}

/// What reading a session token gives: 32 bytes, or the error text.
pub open spec fn spec_decode_token(input: Seq<char>) -> Result<Seq<u8>, Seq<char>> {
    match spec_b64_decode(input) {
        None => Err("decode session token"@),
        Some(b) => if b.len() == 32 {
            Ok(b)
        } else {
            Err("session token has invalid length"@)
        },
    }
}

/// Reads a session token from its URL-safe base64 text. Encoding a token and
/// reading it back gives the token.
pub fn decode_token(input: &str) -> (r: Result<[u8; 32], String>)
    ensures
        match spec_decode_token(input@) {
            Ok(b) => r matches Ok(t) && t@ == b,
            Err(e) => r matches Err(t) && t@ == e,
        },
{
    let bytes = match b64_decode(input) {
        None => return Err(String::from_str("decode session token")),
        Some(b) => b,
    };
    if bytes.len() != 32 {
        return Err(String::from_str("session token has invalid length"));
    }
    let mut token: [u8; 32] = [0u8; 32];
    let mut i: usize = 0;
    while i < 32
        invariant
            i <= 32,
            bytes@.len() == 32,
            forall|j: int| 0 <= j < i ==> token@[j] == bytes@[j],
        decreases 32 - i,
    {
        token[i] = bytes[i];
        i = i + 1;
    }
    assert(token@ =~= bytes@);
    Ok(token)
}

/// Encodes a session token for the background process.
pub fn encode_token(token: &[u8; 32]) -> (r: String)
    ensures
        r@ == spec_b64_encode(token@),
        spec_decode_token(r@) == Ok::<Seq<u8>, Seq<char>>(token@),
{
    b64_encode(token.as_slice())
}

/// The name of the session file for a server address: the URL-safe base64 of
/// the SHA-256 of the address, with `.session` after it.
pub open spec fn session_file_text(addr: Seq<u8>) -> Seq<char> {
    spec_b64_encode(crate::auth::spec_sha256(addr)) + ".session"@
}

/// The session file's name for a server address (the directory is the caller's).
pub fn session_file_name(addr: &str) -> (r: String)
    ensures
        r@ == session_file_text(addr.spec_bytes()),
{
    let digest = crate::auth::sha256(addr.as_bytes());
    let mut s = b64_encode(digest.as_slice());
    s.append(".session");
    s
}

/// The arguments that start the background session process for `addr`.
pub open spec fn background_args_text(addr: Seq<char>, keepalive_secs: u64, mode: NetworkMode) -> Seq<Seq<char>> {
    let base = seq!["__session"@, "--addr"@, addr, "--keepalive-secs"@, decimal(keepalive_secs as nat)];
    if mode == NetworkMode::LocalOnly {
        base.push("--local-only"@)
    } else {
        base
    }
}

/// The command-line arguments of the background session process; the password,
/// token and session file go through its environment instead.
pub fn background_args(addr: &str, keepalive_secs: u64, mode: NetworkMode) -> (r: Vec<String>)
    ensures
        strings_view(r@) == background_args_text(addr@, keepalive_secs, mode),
{
    let mut v: Vec<String> = Vec::new();
    v.push(String::from_str("__session"));
    v.push(String::from_str("--addr"));
    v.push(addr.to_owned());
    v.push(String::from_str("--keepalive-secs"));
    v.push(crate::text::decimal_string(keepalive_secs));
    if mode == NetworkMode::LocalOnly {
        v.push(String::from_str("--local-only"));
    }
    assert(strings_view(v@) =~= background_args_text(addr@, keepalive_secs, mode));
    v
}

/// How long the background session stays up with nothing to do: the keepalive,
/// at least one second.
pub fn idle_secs(keepalive_secs: u64) -> (r: u64)
    ensures
        r == (if keepalive_secs < 1 { 1 } else { keepalive_secs }),
{
    if keepalive_secs < 1 {
        1
    } else {
        keepalive_secs
    }
}

/// `f` is an error frame with this text.
pub open spec fn error_frame_says(f: SessionFrame, text: Seq<char>) -> bool {
    match f {
        SessionFrame::Error(m) => m@ == text,
        _ => false,
    }
}

/// The text of an error frame that answers a frame out of turn.
pub open spec fn expected_text(what: Seq<char>, f: SessionFrame) -> Seq<char> {
    "expected "@ + what + ", got "@ + frame_text(f)
}

/// The background session's reading of the first frame of a connection: a hello
/// with its own token is acknowledged; any other hello, or anything else, gets an
/// error frame and the connection ends.
pub fn check_session_hello(frame: SessionFrame, token: &[u8; 32]) -> (r: Result<(), SessionFrame>)
    ensures
        match frame {
            SessionFrame::Hello { token: t } => if t@ == token@ {
                r is Ok
            } else {
                (r matches Err(e) && error_frame_says(e, "invalid session token"@))
            },
            _ => (r matches Err(e) && error_frame_says(e, expected_text("session hello"@, frame))),
        },
{
    match frame {
        SessionFrame::Hello { token: candidate } => {
            if token_eq(token, &candidate) {
                Ok(())
            } else {
                Err(SessionFrame::Error(String::from_str("invalid session token")))
            }
        },
        other => {
            let mut s = String::from_str("expected ");
            s.append("session hello");
            s.append(", got ");
            let d = other.debug_string();
            s.append(d.as_str());
            Err(SessionFrame::Error(s))
        },
    }
}

/// The background session's reading of the second frame: it must be a request.
pub fn check_session_request(frame: SessionFrame) -> (r: Result<SessionRequest, SessionFrame>)
    ensures
        match frame {
            SessionFrame::Request(req) => r == Ok::<SessionRequest, SessionFrame>(req),
            _ => (r matches Err(e) && error_frame_says(e, expected_text("session request"@, frame))),
        },
{
    match frame {
        SessionFrame::Request(req) => Ok(req),
        other => {
            let mut s = String::from_str("expected ");
            s.append("session request");
            s.append(", got ");
            let d = other.debug_string();
            s.append(d.as_str());
            Err(SessionFrame::Error(s))
        },
    }
}

/// The answer to a transfer the session ran: the byte count, or the error text.
pub fn transfer_reply(result: Result<u64, String>) -> (r: SessionFrame)
    ensures
        match result {
            Ok(bytes) => r == (SessionFrame::TransferDone { bytes }),
            Err(m) => r == SessionFrame::Error(m),
        },
{
    match result {
        Ok(bytes) => SessionFrame::TransferDone { bytes },
        Err(m) => SessionFrame::Error(m),
    }
}

/// "unexpected session `what` response: `frame`".
pub open spec fn unexpected_session_text(what: Seq<char>, f: SessionFrame) -> Seq<char> {
    "unexpected session "@ + what + " response: "@ + frame_text(f)
}

fn unexpected_session(what: &str, f: &SessionFrame) -> (r: String)
    ensures
        r@ == unexpected_session_text(what@, *f),
{
    let mut s = String::from_str("unexpected session ");
    s.append(what);
    s.append(" response: ");
    let d = f.debug_string();
    s.append(d.as_str());
    s
}

/// The error a frame other than the expected one gives on the client's side: the
/// session's own error text, or an unexpected-response error naming `what`.
pub open spec fn session_answer_error(what: Seq<char>, f: SessionFrame) -> Seq<char> {
    match f {
        SessionFrame::Error(m) => m@,
        _ => unexpected_session_text(what, f),
    }
}

fn other_session_answer(what: &str, f: SessionFrame) -> (r: String)
    ensures
        r@ == session_answer_error(what@, f),
{
    match f {
        SessionFrame::Error(m) => m,
        other => unexpected_session(what, &other),
    }
}

/// The client's reading of the acknowledgement of a hello or a ping.
pub fn check_session_ack(frame: SessionFrame, what: &str) -> (r: Result<(), String>)
    ensures
        frame == SessionFrame::Ack ==> r is Ok,
        frame != SessionFrame::Ack ==> (r matches Err(t) && t@ == session_answer_error(what@, frame)),
{
    match frame {
        SessionFrame::Ack => Ok(()),
        other => Err(other_session_answer(what, other)),
    }
}

/// The client's reading of the end of a transfer run by the session.
pub fn check_transfer_done(frame: SessionFrame) -> (r: Result<u64, String>)
    ensures
        match frame {
            SessionFrame::TransferDone { bytes } => r == Ok::<u64, String>(bytes),
            _ => r matches Err(t) && t@ == session_answer_error("transfer"@, frame),
        },
{
    match frame {
        SessionFrame::TransferDone { bytes } => Ok(bytes),
        other => Err(other_session_answer("transfer", other)),
    }
}

/// What one frame means to a client running a command through the session.
pub enum SessionExecEvent {
    Output(OutputStream, Vec<u8>),
    Exit(i32),
    Failed(String),
}

/// Reads one frame of a command run through the session.
pub fn classify_session_exec(frame: SessionFrame) -> (r: SessionExecEvent)
    ensures
        match frame {
            SessionFrame::ExecOutput { stream, data } => r matches SessionExecEvent::Output(s, d) && s == stream
                && d == data,
            SessionFrame::ExecExit { code } => r matches SessionExecEvent::Exit(c) && c == code,
            _ => r matches SessionExecEvent::Failed(t) && t@ == session_answer_error("exec"@, frame),
        },
{
    match frame {
        SessionFrame::ExecOutput { stream, data } => SessionExecEvent::Output(stream, data),
        SessionFrame::ExecExit { code } => SessionExecEvent::Exit(code),
        other => SessionExecEvent::Failed(other_session_answer("exec", other)),
    }
}

} // verus!

verus! {

/// Relays a command that the background session runs for a client: output goes
/// to the client while it comes; one control frame from the client is read, and
/// whatever it is the command is cancelled (a frame other than `Cancel` also
/// fails the request); the relay ends once the command's result is in and its
/// output is closed.
pub struct ExecRelay {
    done: Option<Result<i32, String>>,
    output_closed: bool,
    control_read: bool,
    cancel_sent: bool,
}

pub open spec fn control_error_text(f: SessionFrame) -> Seq<char> {
    "unexpected session exec control frame: "@ + frame_text(f)
}

impl ExecRelay {
    pub closed spec fn done(&self) -> Option<Result<i32, String>> {
        self.done
    }

    pub closed spec fn output_closed(&self) -> bool {
        self.output_closed
    }

    pub closed spec fn control_read(&self) -> bool {
        self.control_read
    }

    pub closed spec fn cancel_sent(&self) -> bool {
        self.cancel_sent
    }

    pub fn new() -> (r: Self)
        ensures
            r.done() is None,
            !r.output_closed(),
            !r.control_read(),
            !r.cancel_sent(),
    {
        ExecRelay { done: None, output_closed: false, control_read: false, cancel_sent: false }
    }

    /// Output is still read.
    pub fn wants_output(&self) -> (r: bool)
        ensures
            r == !self.output_closed(),
    {
        !self.output_closed
    }

    /// The command's result is still awaited.
    pub fn awaits_result(&self) -> (r: bool)
        ensures
            r == (self.done() is None),
    {
        self.done.is_none()
    }

    /// A control frame is still read from the client.
    pub fn reads_control(&self) -> (r: bool)
        ensures
            r == (!self.control_read() && self.done() is None),
    {
        !self.control_read && self.done.is_none()
    }

    /// The relay is over.
    pub fn finished(&self) -> (r: bool)
        ensures
            r == (self.done() is Some && self.output_closed()),
    {
        self.done.is_some() && self.output_closed
    }

    /// A chunk of output becomes a frame to the client.
    pub fn on_output(&self, stream: OutputStream, data: Vec<u8>) -> (r: SessionFrame)
        ensures
            r == (SessionFrame::ExecOutput { stream, data }),
    {
        SessionFrame::ExecOutput { stream, data }
    }

    pub fn on_output_closed(&mut self)
        ensures
            final(self).output_closed(),
            final(self).done() == old(self).done(),
            final(self).control_read() == old(self).control_read(),
            final(self).cancel_sent() == old(self).cancel_sent(),
    {
        self.output_closed = true;
    }

    /// The command's result arrived.
    pub fn on_result(&mut self, result: Result<i32, String>)
        requires
            old(self).done() is None,
        ensures
            final(self).done() == Some(result),
            final(self).output_closed() == old(self).output_closed(),
            final(self).control_read() == old(self).control_read(),
            final(self).cancel_sent() == old(self).cancel_sent(),
    {
        self.done = Some(result);
    }

    /// The client's control frame arrived (`None`: the client's side closed or
    /// failed). Returns whether to cancel the command now: the first time only.
    pub fn on_control(&mut self, frame: Option<SessionFrame>) -> (cancel_now: bool)
        requires
            !old(self).control_read(),
            old(self).done() is None,
        ensures
            final(self).control_read(),
            final(self).cancel_sent(),
            cancel_now == !old(self).cancel_sent(),
            final(self).output_closed() == old(self).output_closed(),
            match frame {
                Some(SessionFrame::Cancel) => final(self).done() is None,
                Some(f) => final(self).done() matches Some(Err(t)) && t@ == control_error_text(f),
                None => final(self).done() is None,
            },
    {
        self.control_read = true;
        let cancel_now = !self.cancel_sent;
        self.cancel_sent = true;
        match frame {
            Some(SessionFrame::Cancel) => {},
            Some(other) => {
                let mut s = String::from_str("unexpected session exec control frame: ");
                let d = other.debug_string();
                s.append(d.as_str());
                self.done = Some(Err(s));
            },
            None => {},
        }
        cancel_now
    }

    /// The frame that ends the relay: the exit code, or the error.
    pub fn final_frame(self) -> (r: SessionFrame)
        requires
            self.done() is Some,
        ensures
            match self.done()->0 {
                Ok(code) => r == (SessionFrame::ExecExit { code }),
                Err(m) => r == SessionFrame::Error(m),
            },
    {
        match self.done {
            Some(Ok(code)) => SessionFrame::ExecExit { code },
            Some(Err(m)) => SessionFrame::Error(m),
            None => SessionFrame::Error(String::new()),
        }
    }
}

/// The error text when the task running a command ends without a result.
pub fn exec_task_lost(reason: &str) -> (r: String)
    ensures
        r@ == "remote exec task ended unexpectedly: "@ + reason@,
{
    let mut s = String::from_str("remote exec task ended unexpectedly: ");
    s.append(reason);
    s
}

} // verus!

verus! {

/// A character with the Unicode `White_Space` property: tab, line feed, vertical
/// tab, form feed, carriage return, space, next line, no-break space, Ogham space
/// mark, the spaces from en quad to hair space, line and paragraph separators,
/// narrow no-break space, medium mathematical space and ideographic space.
pub open spec fn is_white_space(c: char) -> bool {
    let n = c as int;
    (0x9 <= n <= 0xD) || n == 0x20 || n == 0x85 || n == 0xA0 || n == 0x1680 || (0x2000 <= n <= 0x200A)
        || n == 0x2028 || n == 0x2029 || n == 0x202F || n == 0x205F || n == 0x3000
}

/// The number of whitespace characters at the start of `s`.
pub open spec fn leading_space(s: Seq<char>) -> nat
    decreases s.len(),
{
    if s.len() > 0 && is_white_space(s[0]) {
        1 + leading_space(s.drop_first())
    } else {
        0
    }
}

/// The number of whitespace characters at the end of `s`.
pub open spec fn trailing_space(s: Seq<char>) -> nat
    decreases s.len(),
{
    if s.len() > 0 && is_white_space(s.last()) {
        1 + trailing_space(s.drop_last())
    } else {
        0
    }
}

/// `s` without its leading and trailing whitespace.
pub open spec fn trim_text(s: Seq<char>) -> Seq<char> {
    let t = s.subrange(leading_space(s) as int, s.len() as int);
    t.subrange(0, t.len() - trailing_space(t))
}

fn is_white_space_char(c: char) -> (r: bool)
    ensures
        r == is_white_space(c),
{
    let n = c as u32;
    (0x9 <= n && n <= 0xD) || n == 0x20 || n == 0x85 || n == 0xA0 || n == 0x1680 || (0x2000 <= n && n
        <= 0x200A) || n == 0x2028 || n == 0x2029 || n == 0x202F || n == 0x205F || n == 0x3000
}

proof fn lemma_leading_is(s: Seq<char>, i: int)
    requires
        0 <= i <= s.len(),
        forall|k: int| 0 <= k < i ==> is_white_space(#[trigger] s[k]),
        i == s.len() || !is_white_space(s[i]),
    ensures
        leading_space(s) == i,
    decreases i,
{
    if i > 0 {
        assert(is_white_space(s[0]));
        let d = s.drop_first();
        assert forall|k: int| 0 <= k < i - 1 implies is_white_space(#[trigger] d[k]) by {
            assert(d[k] == s[k + 1]);
        }
        lemma_leading_is(d, i - 1);
    }
}

proof fn lemma_trailing_is(t: Seq<char>, m: int)
    requires
        0 <= m <= t.len(),
        forall|k: int| t.len() - m <= k < t.len() ==> is_white_space(#[trigger] t[k]),
        m == t.len() || !is_white_space(t[t.len() - m - 1]),
    ensures
        trailing_space(t) == m,
    decreases m,
{
    if m > 0 {
        assert(is_white_space(t[t.len() - 1]));
        let d = t.drop_last();
        assert forall|k: int| d.len() - (m - 1) <= k < d.len() implies is_white_space(#[trigger] d[k]) by {
            assert(d[k] == t[k]);
        }
        lemma_trailing_is(d, m - 1);
    }
}

/// The text without its leading and trailing `White_Space` characters, as
/// `str::trim` gives it.
fn trim(s: &str) -> (r: &str)
    ensures
        r@ == trim_text(s@),
{
    let n = s.unicode_len();
    let mut i: usize = 0;
    while i < n && is_white_space_char(s.get_char(i))
        invariant
            i <= n,
            n == s@.len(),
            forall|k: int| 0 <= k < i ==> is_white_space(#[trigger] s@[k]),
        decreases n - i,
    {
        i = i + 1;
    }
    let mut j: usize = n;
    while j > i && is_white_space_char(s.get_char(j - 1))
        invariant
            i <= j <= n,
            n == s@.len(),
            forall|k: int| j <= k < n ==> is_white_space(#[trigger] s@[k]),
        decreases j - i,
    {
        j = j - 1;
    }
    proof {
        lemma_leading_is(s@, i as int);
        let t = s@.subrange(i as int, n as int);
        assert forall|k: int| t.len() - (n - j) <= k < t.len() implies is_white_space(#[trigger] t[k]) by {
            assert(t[k] == s@[i + k]);
        }
        if j > i {
            assert(t[t.len() - (n - j) - 1] == s@[j - 1]);
        }
        lemma_trailing_is(t, (n - j) as int);
        assert(t.subrange(0, t.len() - trailing_space(t)) =~= s@.subrange(i as int, j as int));
    }
    s.substring_char(i, j)
}

proof fn lemma_leading_prefix(before: Seq<char>, rest: Seq<char>)
    requires
        forall|i: int| 0 <= i < before.len() ==> is_white_space(#[trigger] before[i]),
    ensures
        leading_space(before + rest) == before.len() + leading_space(rest),
    decreases before.len(),
{
    if before.len() == 0 {
        assert(before + rest =~= rest);
    } else {
        assert((before + rest)[0] == before[0]);
        assert((before + rest).drop_first() =~= before.drop_first() + rest);
        lemma_leading_prefix(before.drop_first(), rest);
    }
}

proof fn lemma_trailing_suffix(rest: Seq<char>, after: Seq<char>)
    requires
        forall|i: int| 0 <= i < after.len() ==> is_white_space(#[trigger] after[i]),
    ensures
        trailing_space(rest + after) == after.len() + trailing_space(rest),
    decreases after.len(),
{
    if after.len() == 0 {
        assert(rest + after =~= rest);
    } else {
        assert((rest + after).last() == after.last());
        assert((rest + after).drop_last() =~= rest + after.drop_last());
        lemma_trailing_suffix(rest, after.drop_last());
    }
}

/// Text that neither starts nor ends with whitespace comes back out of
/// whitespace around it.
proof fn lemma_trim_around(before: Seq<char>, e: Seq<char>, after: Seq<char>)
    requires
        forall|i: int| 0 <= i < before.len() ==> is_white_space(#[trigger] before[i]),
        forall|i: int| 0 <= i < after.len() ==> is_white_space(#[trigger] after[i]),
        e.len() > 0 ==> !is_white_space(e[0]) && !is_white_space(e.last()),
    ensures
        trim_text(before + e + after) == e,
{
    let s = before + e + after;
    assert(s =~= before + (e + after));
    lemma_leading_prefix(before, e + after);
    if e.len() > 0 {
        assert((e + after)[0] == e[0]);
        assert(leading_space(e + after) == 0);
        let t = s.subrange(leading_space(s) as int, s.len() as int);
        assert(t =~= e + after);
        lemma_trailing_suffix(e, after);
        assert(trailing_space(e) == 0);
        assert(t.subrange(0, t.len() - trailing_space(t)) =~= e);
    } else {
        assert(e + after =~= after);
        lemma_leading_prefix(after, Seq::<char>::empty());
        assert(after + Seq::<char>::empty() =~= after);
        let t = s.subrange(leading_space(s) as int, s.len() as int);
        assert(t =~= Seq::<char>::empty());
        assert(t.subrange(0, t.len() - trailing_space(t)) =~= e);
    }
}

/// The contents of a session file for the serialized session info. They read
/// back through `read_session_file_contents` as `info_bytes`, also with
/// whitespace such as a final newline around them.
pub fn session_file_contents(info_bytes: &[u8]) -> (r: String)
    ensures
        r@ == spec_b64_encode(info_bytes@),
        forall|before: Seq<char>, after: Seq<char>|
            (forall|i: int| 0 <= i < before.len() ==> is_white_space(#[trigger] before[i])) && (forall|i: int|
                0 <= i < after.len() ==> is_white_space(#[trigger] after[i])) ==> spec_b64_decode(
                trim_text(#[trigger] (before + r@ + after)),
            ) == Some(info_bytes@),
{
    let r = b64_encode(info_bytes);
    proof {
        assert forall|before: Seq<char>, after: Seq<char>|
            (forall|i: int| 0 <= i < before.len() ==> is_white_space(#[trigger] before[i])) && (forall|i: int|
                0 <= i < after.len() ==> is_white_space(#[trigger] after[i])) implies spec_b64_decode(
                trim_text(#[trigger] (before + r@ + after)),
            ) == Some(info_bytes@) by {
            if r@.len() > 0 {
                assert(crate::encoding::is_b64_url_char(r@[0]));
                assert(crate::encoding::is_b64_url_char(r@[r@.len() - 1]));
            }
            lemma_trim_around(before, r@, after);
        }
    }
    r
}

/// Reads a session file's contents back into the serialized session info; the
/// text around the encoding may have whitespace.
pub fn read_session_file_contents(text: &str) -> (r: Result<Vec<u8>, String>)
    ensures
        match spec_b64_decode(trim_text(text@)) {
            Some(b) => r matches Ok(v) && v@ == b,
            None => r matches Err(t) && t@ == "decode session file"@,
        },
{
    match b64_decode(trim(text)) {
        Some(b) => Ok(b),
        None => Err(String::from_str("decode session file")),
    }
}

} // verus!
