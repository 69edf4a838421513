//! The messages of the RemoText protocol and its limits.
use vstd::prelude::*;

use crate::text::{
    bytes_text, debug_str, decimal, list_items_text, push_bytes_text, push_decimal, push_signed_decimal,
    push_string_list, signed_decimal, spec_debug_str, strings_view,
};

verus! {

pub const MAX_FRAME_LEN: usize = 16 * 1024 * 1024;
pub const FILE_CHUNK_SIZE: usize = 64 * 1024;
pub const OUTPUT_CHUNK_SIZE: usize = 16 * 1024;

pub const DEFAULT_MAX_CONNECTIONS: usize = 64;
pub const DEFAULT_MAX_CONCURRENT_COMMANDS: usize = 16;
pub const DEFAULT_MAX_FILE_SIZE: u64 = 4 * 1024 * 1024 * 1024;
pub const DEFAULT_MAX_COMMAND_SECS: u64 = 3600;

/// One frame's payload on an operation stream.
#[derive(Debug, Clone, PartialEq, Eq)]
pub enum Message {
    ClientHello(ClientHello),
    ServerHello(ServerHello),
    ClientRequest(ClientRequest),
    Cancel,
    Response(Response),
    FileChunk(Vec<u8>),
    FileEnd,
}

/// First message of a stream: protocol version and the OPAQUE credential request.
#[derive(Debug, Clone, PartialEq, Eq)]
pub struct ClientHello {
    pub version: u16,
    pub credential_request: Vec<u8>,
}

/// Server's answer: protocol version, iroh identity and the OPAQUE credential response.
#[derive(Debug, Clone, PartialEq, Eq)]
pub struct ServerHello {
    pub version: u16,
    pub server_id: [u8; 32],
    pub credential_response: Vec<u8>,
}

/// The OPAQUE finalization, the MAC over the request, and the request itself.
#[derive(Debug, Clone, PartialEq, Eq)]
pub struct ClientRequest {
    pub credential_finalization: Vec<u8>,
    pub request_mac: [u8; 32],
    pub request: Request,
}

#[derive(Debug, Clone, PartialEq, Eq)]
pub enum Request {
    Ping,
    Exec(ExecRequest),
    Put(PutRequest),
    Get(GetRequest),
}

#[derive(Debug, Clone, PartialEq, Eq)]
pub struct ExecRequest {
    pub command: Vec<String>,
    pub cwd: Option<String>,
    pub env: Vec<(String, String)>,
}

#[derive(Debug, Clone, PartialEq, Eq)]
pub struct PutRequest {
    pub remote_path: String,
    pub size: u64,
}

#[derive(Debug, Clone, PartialEq, Eq)]
pub struct GetRequest {
    pub remote_path: String,
}

#[derive(Debug, Clone, PartialEq, Eq)]
pub enum Response {
    Pong,
    PutReady,
    GetMetadata { size: u64 },
    TransferDone { bytes: u64, hash: Option<Vec<u8>> },
    ExecStarted,
    ExecOutput { stream: OutputStream, data: Vec<u8> },
    ExecExit { code: Option<i32> },
    Error(RemoteError),
}

#[derive(Debug, Clone, Copy, PartialEq, Eq, Structural)]
pub enum OutputStream {
    Stdout,
    Stderr,
}

#[derive(Debug, Clone, PartialEq, Eq)]
pub struct RemoteError {
    pub code: ErrorCode,
    pub message: String,
}

#[derive(Debug, Clone, Copy, PartialEq, Eq, Structural)]
pub enum ErrorCode {
    AuthFailed,
    VersionUnsupported,
    Protocol,
    ExecStartFailed,
    TransferDenied,
    TransferNotFound,
    TransferInterrupted,
    Internal,
}

impl RemoteError {
    pub fn new(code: ErrorCode, message: String) -> (r: Self)
        ensures
            r.code == code,
            r.message@ == message@,
    {
        RemoteError { code, message }
    }
}

} // verus!

verus! {

/// A stream's name as `{:?}` prints it.
pub open spec fn stream_text(s: OutputStream) -> Seq<char> {
    match s {
        OutputStream::Stdout => "Stdout"@,
        OutputStream::Stderr => "Stderr"@,
    }
}

pub open spec fn error_code_text(c: ErrorCode) -> Seq<char> {
    match c {
        ErrorCode::AuthFailed => "AuthFailed"@,
        ErrorCode::VersionUnsupported => "VersionUnsupported"@,
        ErrorCode::Protocol => "Protocol"@,
        ErrorCode::ExecStartFailed => "ExecStartFailed"@,
        ErrorCode::TransferDenied => "TransferDenied"@,
        ErrorCode::TransferNotFound => "TransferNotFound"@,
        ErrorCode::TransferInterrupted => "TransferInterrupted"@,
        ErrorCode::Internal => "Internal"@,
    }
}

/// An environment pair as `{:?}` prints it: `("K", "V")`.
pub open spec fn pair_text(p: (String, String)) -> Seq<char> {
    "("@ + spec_debug_str(p.0@) + ", "@ + spec_debug_str(p.1@) + ")"@
}

/// The items of an environment list as `{:?}` prints them, between the brackets.
pub open spec fn env_items_text(env: Seq<(String, String)>) -> Seq<char>
    decreases env.len(),
{
    if env.len() == 0 {
        Seq::empty()
    } else if env.len() == 1 {
        pair_text(env[0])
    } else {
        env_items_text(env.drop_last()) + ", "@ + pair_text(env.last())
    }
}

pub open spec fn opt_string_text(o: Option<String>) -> Seq<char> {
    match o {
        None => "None"@,
        Some(t) => "Some("@ + spec_debug_str(t@) + ")"@,
    }
}

pub open spec fn request_debug_text(r: Request) -> Seq<char> {
    match r {
        Request::Ping => "Ping"@,
        Request::Exec(e) => "Exec(ExecRequest { command: ["@ + list_items_text(strings_view(e.command@))
            + "], cwd: "@ + opt_string_text(e.cwd) + ", env: ["@ + env_items_text(e.env@) + "] })"@,
        Request::Put(p) => "Put(PutRequest { remote_path: "@ + spec_debug_str(p.remote_path@) + ", size: "@
            + decimal(p.size as nat) + " })"@,
        Request::Get(g) => "Get(GetRequest { remote_path: "@ + spec_debug_str(g.remote_path@) + " })"@,
    }
}

pub open spec fn response_debug_text(r: Response) -> Seq<char> {
    match r {
        Response::Pong => "Pong"@,
        Response::PutReady => "PutReady"@,
        Response::GetMetadata { size } => "GetMetadata { size: "@ + decimal(size as nat) + " }"@,
        Response::TransferDone { bytes, hash } => "TransferDone { bytes: "@ + decimal(bytes as nat) + ", hash: "@
            + match hash {
            None => "None"@,
            Some(h) => "Some("@ + bytes_text(h@) + ")"@,
        } + " }"@,
        Response::ExecStarted => "ExecStarted"@,
        Response::ExecOutput { stream, data } => "ExecOutput { stream: "@ + stream_text(stream) + ", data: "@
            + bytes_text(data@) + " }"@,
        Response::ExecExit { code } => "ExecExit { code: "@ + match code {
            None => "None"@,
            Some(c) => "Some("@ + signed_decimal(c as int) + ")"@,
        } + " }"@,
        Response::Error(e) => "Error(RemoteError { code: "@ + error_code_text(e.code) + ", message: "@
            + spec_debug_str(e.message@) + " })"@,
    }
}

/// A message as `{:?}` prints it, used when a peer sends something out of turn.
pub open spec fn message_text(m: Message) -> Seq<char> {
    match m {
        Message::ClientHello(h) => "ClientHello(ClientHello { version: "@ + decimal(h.version as nat)
            + ", credential_request: "@ + bytes_text(h.credential_request@) + " })"@,
        Message::ServerHello(h) => "ServerHello(ServerHello { version: "@ + decimal(h.version as nat)
            + ", server_id: "@ + bytes_text(h.server_id@) + ", credential_response: "@ + bytes_text(
            h.credential_response@,
        ) + " })"@,
        Message::ClientRequest(r) => "ClientRequest(ClientRequest { credential_finalization: "@ + bytes_text(
            r.credential_finalization@,
        ) + ", request_mac: "@ + bytes_text(r.request_mac@) + ", request: "@ + request_debug_text(r.request)
            + " })"@,
        Message::Cancel => "Cancel"@,
        Message::Response(r) => "Response("@ + response_debug_text(r) + ")"@,
        Message::FileChunk(d) => "FileChunk("@ + bytes_text(d@) + ")"@,
        Message::FileEnd => "FileEnd"@,
    }
}

fn push_stream(s: &mut String, stream: OutputStream)
    ensures
        final(s)@ == old(s)@ + stream_text(stream),
{
    match stream {
        OutputStream::Stdout => s.append("Stdout"),
        OutputStream::Stderr => s.append("Stderr"),
    }
}

fn push_error_code(s: &mut String, c: ErrorCode)
    ensures
        final(s)@ == old(s)@ + error_code_text(c),
{
    match c {
        ErrorCode::AuthFailed => s.append("AuthFailed"),
        ErrorCode::VersionUnsupported => s.append("VersionUnsupported"),
        ErrorCode::Protocol => s.append("Protocol"),
        ErrorCode::ExecStartFailed => s.append("ExecStartFailed"),
        ErrorCode::TransferDenied => s.append("TransferDenied"),
        ErrorCode::TransferNotFound => s.append("TransferNotFound"),
        ErrorCode::TransferInterrupted => s.append("TransferInterrupted"),
        ErrorCode::Internal => s.append("Internal"),
    }
}

fn push_debug_str(s: &mut String, t: &str)
    ensures
        final(s)@ == old(s)@ + spec_debug_str(t@),
{
    let d = debug_str(t);
    s.append(d.as_str());
}

fn push_env(s: &mut String, env: &Vec<(String, String)>)
    ensures
        final(s)@ == old(s)@ + env_items_text(env@),
{
    let n = env.len();
    let mut i: usize = 0;
    while i < n
        invariant
            i <= n,
            n == env@.len(),
            s@ == old(s)@ + env_items_text(env@.subrange(0, i as int)),
        decreases n - i,
    {
        let ghost before = env@.subrange(0, i as int);
        let ghost after = env@.subrange(0, i + 1);
        assert(after.drop_last() =~= before);
        if i > 0 {
            s.append(", ");
        }
        s.append("(");
        push_debug_str(s, env[i].0.as_str());
        s.append(", ");
        push_debug_str(s, env[i].1.as_str());
        s.append(")");
        i = i + 1;
        assert(s@ =~= old(s)@ + env_items_text(after));
    }
    assert(env@.subrange(0, n as int) =~= env@);
}

fn push_request_debug(s: &mut String, r: &Request)
    ensures
        final(s)@ == old(s)@ + request_debug_text(*r),
{
    match r {
        Request::Ping => s.append("Ping"),
        Request::Exec(e) => {
            s.append("Exec(ExecRequest { command: [");
            push_string_list(s, &e.command);
            s.append("], cwd: ");
            match &e.cwd {
                None => s.append("None"),
                Some(t) => {
                    s.append("Some(");
                    push_debug_str(s, t.as_str());
                    s.append(")");
                },
            }
            s.append(", env: [");
            push_env(s, &e.env);
            s.append("] })");
        },
        Request::Put(p) => {
            s.append("Put(PutRequest { remote_path: ");
            push_debug_str(s, p.remote_path.as_str());
            s.append(", size: ");
            push_decimal(s, p.size);
            s.append(" })");
        },
        Request::Get(g) => {
            s.append("Get(GetRequest { remote_path: ");
            push_debug_str(s, g.remote_path.as_str());
            s.append(" })");
        },
    }
    assert(final(s)@ =~= old(s)@ + request_debug_text(*r));
}

fn push_response_debug(s: &mut String, r: &Response)
    ensures
        final(s)@ == old(s)@ + response_debug_text(*r),
{
    match r {
        Response::Pong => s.append("Pong"),
        Response::PutReady => s.append("PutReady"),
        Response::GetMetadata { size } => {
            s.append("GetMetadata { size: ");
            push_decimal(s, *size);
            s.append(" }");
        },
        Response::TransferDone { bytes, hash } => {
            s.append("TransferDone { bytes: ");
            push_decimal(s, *bytes);
            s.append(", hash: ");
            match hash {
                None => s.append("None"),
                Some(h) => {
                    s.append("Some(");
                    push_bytes_text(s, h.as_slice());
                    s.append(")");
                },
            }
            s.append(" }");
        },
        Response::ExecStarted => s.append("ExecStarted"),
        Response::ExecOutput { stream, data } => {
            s.append("ExecOutput { stream: ");
            push_stream(s, *stream);
            s.append(", data: ");
            push_bytes_text(s, data.as_slice());
            s.append(" }");
        },
        Response::ExecExit { code } => {
            s.append("ExecExit { code: ");
            match code {
                None => s.append("None"),
                Some(c) => {
                    s.append("Some(");
                    push_signed_decimal(s, *c as i64);
                    s.append(")");
                },
            }
            s.append(" }");
        },
        Response::Error(e) => {
            s.append("Error(RemoteError { code: ");
            push_error_code(s, e.code);
            s.append(", message: ");
            push_debug_str(s, e.message.as_str());
            s.append(" })");
        },
    }
    assert(final(s)@ =~= old(s)@ + response_debug_text(*r));
}

/// The `{:?}` text of a message.
pub fn message_debug(m: &Message) -> (r: String)
    ensures
        r@ == message_text(*m),
{
    let mut s = String::new();
    match m {
        Message::ClientHello(h) => {
            s.append("ClientHello(ClientHello { version: ");
            push_decimal(&mut s, h.version as u64);
            s.append(", credential_request: ");
            push_bytes_text(&mut s, h.credential_request.as_slice());
            s.append(" })");
        },
        Message::ServerHello(h) => {
            s.append("ServerHello(ServerHello { version: ");
            push_decimal(&mut s, h.version as u64);
            s.append(", server_id: ");
            push_bytes_text(&mut s, h.server_id.as_slice());
            s.append(", credential_response: ");
            push_bytes_text(&mut s, h.credential_response.as_slice());
            s.append(" })");
        },
        Message::ClientRequest(r) => {
            s.append("ClientRequest(ClientRequest { credential_finalization: ");
            push_bytes_text(&mut s, r.credential_finalization.as_slice());
            s.append(", request_mac: ");
            push_bytes_text(&mut s, r.request_mac.as_slice());
            s.append(", request: ");
            push_request_debug(&mut s, &r.request);
            s.append(" })");
        },
        Message::Cancel => s.append("Cancel"),
        Message::Response(r) => {
            s.append("Response(");
            push_response_debug(&mut s, r);
            s.append(")");
        },
        Message::FileChunk(d) => {
            s.append("FileChunk(");
            push_bytes_text(&mut s, d.as_slice());
            s.append(")");
        },
        Message::FileEnd => s.append("FileEnd"),
    }
    assert(s@ =~= message_text(*m));
    s
}

} // verus!
