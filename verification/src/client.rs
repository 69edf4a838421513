//! The client's reading of server answers: what each answer means for a ping, a
//! command, an upload or a download, and the error text a failed step gives.
use vstd::prelude::*;

use crate::protocol::{
    message_debug, message_text, ErrorCode, ExecRequest, Message, OutputStream, RemoteError,
    Response, ServerHello,
};
use crate::auth::spec_sha256;
use crate::text::{bytes_eq, decimal, push_decimal};
use crate::server::UploadReceiver;
use crate::transfer::{digest_input, FileSender, TransferDigest};

verus! {

/// What a command left behind: exit code and all output.
#[derive(Debug, Clone, PartialEq, Eq)]
pub struct ExecResult {
    pub code: i32,
    pub stdout: Vec<u8>,
    pub stderr: Vec<u8>,
}

/// The request to run `command` as given: no working directory, no environment.
pub fn exec_request(command: Vec<String>) -> (r: ExecRequest)
    ensures
        r.command == command,
        r.cwd is None,
        r.env@.len() == 0,
{
    ExecRequest { command, cwd: None, env: Vec::new() }
}

/// How the client names each kind of error a server reports.
pub open spec fn error_prefix(code: ErrorCode) -> Seq<char> {
    match code {
        ErrorCode::AuthFailed => "authentication failed"@,
        ErrorCode::VersionUnsupported => "protocol version unsupported"@,
        ErrorCode::Protocol => "protocol error"@,
        ErrorCode::ExecStartFailed => "remote command failed to start"@,
        ErrorCode::TransferDenied => "transfer denied"@,
        ErrorCode::TransferNotFound => "remote path not found"@,
        ErrorCode::TransferInterrupted => "transfer interrupted"@,
        ErrorCode::Internal => "remote internal error"@,
    }
}

pub open spec fn remote_error_text(e: RemoteError) -> Seq<char> {
    error_prefix(e.code) + ": "@ + e.message@
}

fn error_prefix_str(code: ErrorCode) -> (r: &'static str)
    ensures
        r@ == error_prefix(code),
{
    match code {
        ErrorCode::AuthFailed => "authentication failed",
        ErrorCode::VersionUnsupported => "protocol version unsupported",
        ErrorCode::Protocol => "protocol error",
        ErrorCode::ExecStartFailed => "remote command failed to start",
        ErrorCode::TransferDenied => "transfer denied",
        ErrorCode::TransferNotFound => "remote path not found",
        ErrorCode::TransferInterrupted => "transfer interrupted",
        ErrorCode::Internal => "remote internal error",
    }
}

/// The text of the error a client raises for an error the server reported.
pub fn remote_error(error: RemoteError) -> (r: String)
    ensures
        r@ == remote_error_text(error),
{
    let mut s = String::from_str(error_prefix_str(error.code));
    s.append(": ");
    s.append(error.message.as_str());
    s
}

/// "unexpected `what` response: " and `m` as `{:?}` prints it.
pub open spec fn unexpected_response_text(what: Seq<char>, m: Message) -> Seq<char> {
    "unexpected "@ + what + " response: "@ + message_text(m)
}

fn unexpected_response(what: &str, m: &Message) -> (r: String)
    ensures
        r@ == unexpected_response_text(what@, *m),
{
    let mut s = String::from_str("unexpected ");
    s.append(what);
    s.append(" response: ");
    let d = message_debug(m);
    s.append(d.as_str());
    s
}

/// What an answer that is neither expected nor a server error gives: the server's
/// error when it sent one, else an unexpected-response error naming `what`.
pub open spec fn answer_error(what: Seq<char>, m: Message) -> Seq<char> {
    match m {
        Message::Response(Response::Error(e)) => remote_error_text(e),
        _ => unexpected_response_text(what, m),
    }
}

fn other_answer(what: &str, m: Message) -> (r: String)
    ensures
        r@ == answer_error(what@, m),
{
    match m {
        Message::Response(Response::Error(e)) => remote_error(e),
        other => unexpected_response(what, &other),
    }
}

pub open spec fn server_version_text(v: u16) -> Seq<char> {
    "server protocol version "@ + decimal(v as nat) + " is unsupported by client version "@ + decimal(
        crate::PROTOCOL_VERSION as nat,
    )
}

pub open spec fn identity_mismatch_text() -> Seq<char> {
    "server identity in PAKE handshake does not match iroh connection identity"@
}

/// Checks the server's hello: it must speak this protocol version and name the
/// identity that the connection was authenticated to (`remote_id`).
pub fn check_server_hello(msg: Message, remote_id: &[u8; 32]) -> (r: Result<ServerHello, String>)
    ensures
        match msg {
            Message::ServerHello(h) => if h.version != crate::PROTOCOL_VERSION {
                r matches Err(t) && t@ == server_version_text(h.version)
            } else if h.server_id@ != remote_id@ {
                r matches Err(t) && t@ == identity_mismatch_text()
            } else {
                r == Ok::<ServerHello, String>(h)
            },
            _ => r matches Err(t) && t@ == answer_error("handshake"@, msg),
        },
{
    match msg {
        Message::ServerHello(h) => {
            if h.version != crate::PROTOCOL_VERSION {
                let mut s = String::from_str("server protocol version ");
                push_decimal(&mut s, h.version as u64);
                s.append(" is unsupported by client version ");
                push_decimal(&mut s, crate::PROTOCOL_VERSION as u64);
                return Err(s);
            }
            if !crate::auth::constant_time_eq(&h.server_id, remote_id) {
                return Err(
                    String::from_str(
                        "server identity in PAKE handshake does not match iroh connection identity",
                    ),
                );
            }
            Ok(h)
        },
        other => Err(other_answer("handshake", other)),
    }
}

/// A ping succeeds on `Pong`.
pub fn check_ping_response(msg: Message) -> (r: Result<(), String>)
    ensures
        msg == Message::Response(Response::Pong) ==> r is Ok,
        msg != Message::Response(Response::Pong) ==> (r matches Err(t) && t@ == answer_error("ping"@, msg)),
{
    match msg {
        Message::Response(Response::Pong) => Ok(()),
        other => Err(other_answer("ping", other)),
    }
}

/// What one answer to a command means.
pub enum ExecEvent {
    /// The command started.
    Started,
    /// A chunk of the command's output.
    Output(OutputStream, Vec<u8>),
    /// The command ended with this code.
    Exit(i32),
    /// The command failed with this error.
    Failed(String),
}

/// Reads one answer to a command. An exit without a code counts as code 1.
pub fn classify_exec_response(msg: Message) -> (r: ExecEvent)
    ensures
        match msg {
            Message::Response(Response::ExecStarted) => r is Started,
            Message::Response(Response::ExecOutput { stream, data }) => r matches ExecEvent::Output(s, d) && s
                == stream && d == data,
            Message::Response(Response::ExecExit { code }) => r matches ExecEvent::Exit(c) && c == (match code {
                Some(c) => c,
                None => 1i32,
            }),
            _ => r matches ExecEvent::Failed(t) && t@ == answer_error("exec"@, msg),
        },
{
    match msg {
        Message::Response(Response::ExecStarted) => ExecEvent::Started,
        Message::Response(Response::ExecOutput { stream, data }) => ExecEvent::Output(stream, data),
        Message::Response(Response::ExecExit { code }) => ExecEvent::Exit(
            match code {
                Some(c) => c,
                None => 1,
            },
        ),
        other => ExecEvent::Failed(other_answer("exec", other)),
    }
}

/// Where collecting a command's output stands after one answer.
pub enum ExecProgress {
    Running,
    Exited(i32),
    Failed(String),
}

/// Collects a command's output, each stream in the order its chunks arrive.
pub struct ExecCollector {
    pub stdout: Vec<u8>,
    pub stderr: Vec<u8>,
}

impl ExecCollector {
    pub fn new() -> (r: Self)
        ensures
            r.stdout@.len() == 0,
            r.stderr@.len() == 0,
    {
        ExecCollector { stdout: Vec::new(), stderr: Vec::new() }
    }

    /// Takes one answer: output is appended to its stream, the exit ends the
    /// command, errors end the collection.
    pub fn on_message(&mut self, msg: Message) -> (r: ExecProgress)
        ensures
            match msg {
                Message::Response(Response::ExecStarted) => r is Running && final(self).stdout@
                    == old(self).stdout@ && final(self).stderr@ == old(self).stderr@,
                Message::Response(Response::ExecOutput { stream, data }) => r is Running && (if stream
                    == OutputStream::Stdout {
                    final(self).stdout@ == old(self).stdout@ + data@ && final(self).stderr@ == old(
                        self,
                    ).stderr@
                } else {
                    final(self).stderr@ == old(self).stderr@ + data@ && final(self).stdout@ == old(
                        self,
                    ).stdout@
                }),
                Message::Response(Response::ExecExit { code }) => r matches ExecProgress::Exited(c) && c
                    == (match code {
                    Some(c) => c,
                    None => 1i32,
                }),
                _ => r matches ExecProgress::Failed(t) && t@ == answer_error("exec"@, msg),
            },
            !(msg matches Message::Response(Response::ExecOutput { .. })) ==> final(self).stdout@ == old(
                self,
            ).stdout@ && final(self).stderr@ == old(self).stderr@,
    {
        match classify_exec_response(msg) {
            ExecEvent::Started => ExecProgress::Running,
            ExecEvent::Output(stream, data) => {
                match stream {
                    OutputStream::Stdout => crate::text::push_bytes(&mut self.stdout, data.as_slice()),
                    OutputStream::Stderr => crate::text::push_bytes(&mut self.stderr, data.as_slice()),
                }
                ExecProgress::Running
            },
            ExecEvent::Exit(code) => ExecProgress::Exited(code),
            ExecEvent::Failed(t) => ExecProgress::Failed(t),
        }
    }

    /// The result of a command that exited with `code`.
    pub fn finish(self, code: i32) -> (r: ExecResult)
        ensures
            r.code == code,
            r.stdout == self.stdout,
            r.stderr == self.stderr,
    {
        ExecResult { code, stdout: self.stdout, stderr: self.stderr }
    }
}

/// Lets a cancellation be asked for once.
pub struct CancelOnce {
    sent: bool,
}

impl CancelOnce {
    pub closed spec fn sent(&self) -> bool {
        self.sent
    }

    pub fn new() -> (r: Self)
        ensures
            !r.sent(),
    {
        CancelOnce { sent: false }
    }

    /// Whether the cancellation may still be asked for.
    pub fn pending(&self) -> (r: bool)
        ensures
            r == !self.sent(),
    {
        !self.sent
    }

    /// Whether to send the cancellation now: the first time only.
    pub fn fire(&mut self) -> (r: bool)
        ensures
            final(self).sent(),
            r == !old(self).sent(),
    {
        if self.sent {
            false
        } else {
            self.sent = true;
            true
        }
    }
}

} // verus!

verus! {

/// An upload may start once the server says `PutReady`.
pub fn check_put_ready(msg: Message) -> (r: Result<(), String>)
    ensures
        msg == Message::Response(Response::PutReady) ==> r is Ok,
        msg != Message::Response(Response::PutReady) ==> (r matches Err(t) && t@ == answer_error("put"@, msg)),
{
    match msg {
        Message::Response(Response::PutReady) => Ok(()),
        other => Err(other_answer("put", other)),
    }
}

pub open spec fn upload_hash_mismatch_text() -> Seq<char> {
    "upload hash mismatch: server received corrupt data"@
}

pub open spec fn upload_count_text(expected: u64, sent: u64, remote: u64) -> Seq<char> {
    "upload byte count mismatch: local="@ + decimal(expected as nat) + ", sent="@ + decimal(sent as nat)
        + ", remote="@ + decimal(remote as nat)
}

pub open spec fn opt_bytes_view(o: Option<Vec<u8>>) -> Option<Seq<u8>> {
    match o {
        Some(v) => Some(v@),
        None => None,
    }
}

/// How an upload of a file of `expected_len` bytes ends, of which the client
/// sent `sent` bytes `data`, when the server reports `bytes` and maybe a hash.
pub open spec fn put_outcome(expected_len: u64, sent: u64, data: Seq<u8>, bytes: u64, hash: Option<Seq<u8>>) -> Result<
    u64,
    Seq<char>,
> {
    if hash matches Some(h) && h != spec_sha256(data) {
        Err(upload_hash_mismatch_text())
    } else if bytes != sent || bytes != expected_len {
        Err(upload_count_text(expected_len, sent, bytes))
    } else {
        Ok(bytes)
    }
}

/// An upload succeeds only with the right hash: a hash the server reports that
/// is not the SHA-256 of exactly the bytes sent fails with the hash-mismatch
/// error, and a success means the hash (if any) is that SHA-256 and the count
/// is the number of bytes sent and the file's length.
pub proof fn lemma_put_hash_checked(expected_len: u64, sent: u64, data: Seq<u8>, bytes: u64, hash: Option<Seq<u8>>)
    ensures
        hash matches Some(h) && h != spec_sha256(data) ==> put_outcome(expected_len, sent, data, bytes, hash)
            == Err::<u64, Seq<char>>("upload hash mismatch: server received corrupt data"@),
        put_outcome(expected_len, sent, data, bytes, hash) is Ok ==> (hash matches Some(h) ==> h == spec_sha256(
            data,
        )) && bytes == sent && bytes == expected_len && put_outcome(expected_len, sent, data, bytes, hash)
            == Ok::<u64, Seq<char>>(bytes),
{
}

/// An upload that arrived whole checks out: when the server received exactly
/// the `data` the client sent and the file's length, the count and SHA-256 the
/// server reports (`UploadReceiver::done_message`) pass the client's check.
pub proof fn lemma_upload_checks_out(data: Seq<u8>, h: Seq<u8>)
    requires
        data.len() <= u64::MAX,
        h == spec_sha256(data),
    ensures
        put_outcome(data.len() as u64, data.len() as u64, data, data.len() as u64, Some(h)) == Ok::<
            u64,
            Seq<char>,
        >(data.len() as u64),
{
}

/// Checks the server's answer at the end of an upload of a file of
/// `expected_len` bytes, whose bytes `sender` sent. The upload succeeds when the
/// server reports the SHA-256 of the bytes sent (if it reports a hash) and the
/// number of bytes sent, which must also be the file's length.
pub fn check_put_completion(msg: Message, sender: &FileSender, expected_len: u64) -> (r: Result<u64, String>)
    requires
        sender.wf(),
    ensures
        match msg {
            Message::Response(Response::TransferDone { bytes, hash }) => match put_outcome(
                expected_len,
                sender.sent(),
                sender.data(),
                bytes,
                opt_bytes_view(hash),
            ) {
                Ok(n) => r == Ok::<u64, String>(n),
                Err(t) => r matches Err(x) && x@ == t,
            },
            _ => r matches Err(t) && t@ == answer_error("put completion"@, msg),
        },
{
    let sent = sender.sent_bytes();
    match msg {
        Message::Response(Response::TransferDone { bytes, hash }) => {
            if let Some(h) = &hash {
                let local = sender.hash();
                if !bytes_eq(h.as_slice(), local.as_slice()) {
                    return Err(String::from_str("upload hash mismatch: server received corrupt data"));
                }
            }
            if bytes != sent || bytes != expected_len {
                let mut s = String::from_str("upload byte count mismatch: local=");
                push_decimal(&mut s, expected_len);
                s.append(", sent=");
                push_decimal(&mut s, sent);
                s.append(", remote=");
                push_decimal(&mut s, bytes);
                return Err(s);
            }
            Ok(bytes)
        },
        other => Err(other_answer("put completion", other)),
    }
}

/// A download starts with the size the server announces.
pub fn check_get_metadata(msg: Message) -> (r: Result<u64, String>)
    ensures
        match msg {
            Message::Response(Response::GetMetadata { size }) => r == Ok::<u64, String>(size),
            _ => r matches Err(t) && t@ == answer_error("get metadata"@, msg),
        },
{
    match msg {
        Message::Response(Response::GetMetadata { size }) => Ok(size),
        other => Err(other_answer("get metadata", other)),
    }
}

/// What to do with one message of a download.
pub enum DownloadStep {
    /// Append these bytes to the staging file.
    Write(Vec<u8>),
    /// The server says it is done: check with `check_download_completion`.
    Finish { bytes: u64, hash: Option<Vec<u8>> },
    /// The download failed with this error.
    Fail(String),
}

/// The client's side of a download: counts the bytes that arrive.
pub struct DownloadReceiver {
    expected: u64,
    received: u64,
    digest: TransferDigest,
}

pub open spec fn download_count_text(expected: u64, received: u64, remote: u64) -> Seq<char> {
    "download byte count mismatch: expected="@ + decimal(expected as nat) + ", received="@ + decimal(
        received as nat,
    ) + ", remote="@ + decimal(remote as nat)
}

pub open spec fn download_hash_mismatch_text() -> Seq<char> {
    "download hash mismatch: received corrupt data"@
}

/// How a download of a file announced as `expected` bytes ends, of which `data`
/// (`received` bytes) arrived, when the server reports `bytes` and maybe a hash.
pub open spec fn download_outcome(expected: u64, received: u64, data: Seq<u8>, bytes: u64, hash: Option<Seq<u8>>) -> Result<
    u64,
    Seq<char>,
> {
    if bytes != received || bytes != expected {
        Err(download_count_text(expected, received, bytes))
    } else if hash matches Some(h) && h != spec_sha256(data) {
        Err(download_hash_mismatch_text())
    } else {
        Ok(bytes)
    }
}

/// A download succeeds only when the server's count, the count received and the
/// announced size agree, and a hash the server reports is the SHA-256 of
/// exactly the bytes received; a wrong hash with the right counts fails with
/// the hash-mismatch error.
pub proof fn lemma_download_hash_checked(
    expected: u64,
    received: u64,
    data: Seq<u8>,
    bytes: u64,
    hash: Option<Seq<u8>>,
)
    ensures
        bytes == received && bytes == expected && (hash matches Some(h) && h != spec_sha256(data))
            ==> download_outcome(expected, received, data, bytes, hash) == Err::<u64, Seq<char>>(
            "download hash mismatch: received corrupt data"@,
        ),
        download_outcome(expected, received, data, bytes, hash) is Ok ==> (hash matches Some(h) ==> h
            == spec_sha256(data)) && bytes == received && bytes == expected && download_outcome(
            expected,
            received,
            data,
            bytes,
            hash,
        ) == Ok::<u64, Seq<char>>(bytes),
{
}

/// A download that arrived whole checks out: when the client received exactly
/// the `data` the server sent, and the server announced its length, the count
/// and SHA-256 of the server's `FileSender::done_message` pass the client's
/// check; a count that differs from what arrived fails it.
pub proof fn lemma_download_checks_out(data: Seq<u8>, h: Seq<u8>, other: u64)
    requires
        data.len() <= u64::MAX,
        h == spec_sha256(data),
        other != data.len(),
    ensures
        download_outcome(data.len() as u64, data.len() as u64, data, data.len() as u64, Some(h)) == Ok::<
            u64,
            Seq<char>,
        >(data.len() as u64),
        download_outcome(data.len() as u64, data.len() as u64, data, other, Some(h)) is Err,
{
}

impl DownloadReceiver {
    pub closed spec fn expected(&self) -> u64 {
        self.expected
    }

    pub closed spec fn received(&self) -> u64 {
        self.received
    }

    /// The bytes received so far, in order.
    pub closed spec fn data(&self) -> Seq<u8> {
        digest_input(self.digest)
    }

    /// The count is the length of the bytes received.
    pub open spec fn wf(&self) -> bool {
        self.received() == self.data().len()
    }

    /// A download of a file the server announced as `expected` bytes long.
    pub fn new(expected: u64) -> (r: Self)
        ensures
            r.wf(),
            r.expected() == expected,
            r.received() == 0,
            r.data() == Seq::<u8>::empty(),
    {
        DownloadReceiver { expected, received: 0, digest: TransferDigest::new() }
    }

    pub fn received_bytes(&self) -> (r: u64)
        ensures
            r == self.received(),
    {
        self.received
    }

    /// Takes one message of a download: chunks are written and counted.
    pub fn on_message(&mut self, msg: Message) -> (r: DownloadStep)
        requires
            old(self).wf(),
            msg matches Message::FileChunk(d) ==> old(self).received() + d@.len() <= u64::MAX,
        ensures
            final(self).wf(),
            final(self).expected() == old(self).expected(),
            match msg {
                Message::FileChunk(data) => r matches DownloadStep::Write(w) && w == data
                    && final(self).received() == old(self).received() + data@.len() && final(self).data()
                    == old(self).data() + data@,
                Message::Response(Response::TransferDone { bytes, hash }) => r matches DownloadStep::Finish {
                    bytes: b,
                    hash: h,
                } && b == bytes && h == hash && final(self).received() == old(self).received()
                    && final(self).data() == old(self).data(),
                _ => r matches DownloadStep::Fail(t) && t@ == answer_error("get"@, msg) && final(self).received()
                    == old(self).received() && final(self).data() == old(self).data(),
            },
    {
        match msg {
            Message::FileChunk(data) => {
                self.received = self.received + data.len() as u64;
                self.digest.update(data.as_slice());
                DownloadStep::Write(data)
            },
            Message::Response(Response::TransferDone { bytes, hash }) => DownloadStep::Finish { bytes, hash },
            other => DownloadStep::Fail(other_answer("get", other)),
        }
    }

    /// Decides how a download ends when the server reports `bytes` and maybe a
    /// hash: it succeeds when the server's count, the count received and the
    /// announced size agree, and the server's hash is the SHA-256 of the bytes
    /// received when it sent one.
    pub fn check_completion(&self, bytes: u64, hash: Option<Vec<u8>>) -> (r: Result<u64, String>)
        requires
            self.wf(),
        ensures
            match download_outcome(self.expected(), self.received(), self.data(), bytes, opt_bytes_view(hash)) {
                Ok(n) => r == Ok::<u64, String>(n),
                Err(t) => r matches Err(x) && x@ == t,
            },
    {
        if bytes != self.received || bytes != self.expected {
            let mut s = String::from_str("download byte count mismatch: expected=");
            push_decimal(&mut s, self.expected);
            s.append(", received=");
            push_decimal(&mut s, self.received);
            s.append(", remote=");
            push_decimal(&mut s, bytes);
            return Err(s);
        }
        if let Some(h) = &hash {
            let local = self.digest.finish();
            if !bytes_eq(h.as_slice(), local.as_slice()) {
                return Err(String::from_str("download hash mismatch: received corrupt data"));
            }
        }
        Ok(bytes)
    }
}

} // verus!

verus! {

/// A file uploaded with put and downloaded again with get comes back unchanged.
/// The client sent `data` with `put_sender`; the server's `upload` received
/// those bytes, declared as the file's length, and stored them; the server's
/// `get_sender` sent the stored bytes back, announcing their length; the
/// client's `download` received what was sent. Then the put is acknowledged
/// with the file's length, the get completes with it, and the bytes the client
/// downloaded are the bytes it uploaded.
pub proof fn lemma_put_then_get(
    put_sender: FileSender,
    upload: UploadReceiver,
    get_sender: FileSender,
    download: DownloadReceiver,
)
    requires
        put_sender.wf(),
        upload.wf(),
        get_sender.wf(),
        download.wf(),
        upload.data() == put_sender.data(),
        upload.received() == upload.declared(),
        get_sender.data() == upload.data(),
        download.data() == get_sender.data(),
        download.expected() == get_sender.sent(),
    ensures
        put_outcome(
            put_sender.sent(),
            put_sender.sent(),
            put_sender.data(),
            upload.received(),
            Some(spec_sha256(upload.data())),
        ) == Ok::<u64, Seq<char>>(put_sender.sent()),
        download_outcome(
            download.expected(),
            download.received(),
            download.data(),
            get_sender.sent(),
            Some(spec_sha256(get_sender.data())),
        ) == Ok::<u64, Seq<char>>(put_sender.sent()),
        download.data() == put_sender.data(),
{
}

} // verus!
