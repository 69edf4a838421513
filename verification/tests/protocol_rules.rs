use remotext::auth::{constant_time_eq, credential_identifier, login_context, request_mac, verify_request_mac};
use remotext::client::{
    check_get_metadata, check_put_completion, check_put_ready, check_server_hello, classify_exec_response,
    exec_request, remote_error, DownloadReceiver, DownloadStep, ExecCollector, ExecEvent, ExecProgress,
};
use remotext::framing::{decode_frame, decode_frame_len, encode_frame, FrameError};
use remotext::protocol::{
    message_debug, ClientHello, ClientRequest, ErrorCode, ExecRequest, GetRequest, Message, OutputStream, PutRequest,
    RemoteError, Request, Response, ServerHello, MAX_FRAME_LEN,
};
use remotext::ticket::{decode_addr, encode_addr};
use remotext::transfer::FileSender;

#[test]
fn frame_roundtrip() {
    let payload = vec![7u8; 32];
    let frame = encode_frame(&payload).unwrap();
    assert_eq!(&frame[..4], &[0, 0, 0, 32]);
    let mut stream = frame.clone();
    stream.extend_from_slice(&[9, 9]);
    let (decoded, used) = decode_frame(&stream).unwrap();
    assert_eq!(decoded, payload);
    assert_eq!(used, 36);
}

#[test]
fn frame_limits() {
    let big = vec![0u8; MAX_FRAME_LEN + 1];
    assert_eq!(encode_frame(&big), Err(FrameError::TooLarge { len: MAX_FRAME_LEN as u64 + 1 }));
    assert_eq!(decode_frame_len([0x01, 0x00, 0x00, 0x00]), Ok(MAX_FRAME_LEN));
    assert_eq!(decode_frame_len([0x01, 0x00, 0x00, 0x01]), Err(FrameError::TooLarge { len: 0x0100_0001 }));
    assert_eq!(decode_frame(&[0, 0, 0, 5, 1]), Err(FrameError::Incomplete));
    assert_eq!(decode_frame(&[0, 0]), Err(FrameError::Incomplete));
}

#[test]
fn request_mac_rejects_tampering() {
    let server_id = [6; 32];
    let request_bytes = vec![0u8];
    let mut mac = request_mac(b"session key", &server_id, &request_bytes);
    mac[0] ^= 1;

    assert!(!verify_request_mac(b"session key", &server_id, &request_bytes, &mac));
}

#[test]
fn request_mac_accepts_its_own_mac() {
    let server_id = [4; 32];
    let request_bytes = vec![2u8, 1, 0];
    let mac = request_mac(b"k", &server_id, &request_bytes);
    assert!(verify_request_mac(b"k", &server_id, &request_bytes, &mac));
    assert!(!verify_request_mac(b"other key", &server_id, &request_bytes, &mac));
    assert!(!verify_request_mac(b"k", &[5; 32], &request_bytes, &mac));
    assert!(!verify_request_mac(b"k", &server_id, &[2u8, 1, 1], &mac));
}

#[test]
fn request_mac_known_answer() {
    let mac = request_mac(b"session key", &[6; 32], &[0u8]);
    assert_eq!(
        mac,
        [
            240, 2, 145, 145, 143, 20, 121, 157, 217, 155, 65, 154, 74, 73, 173, 46, 117, 112, 112, 221, 218, 79,
            171, 118, 144, 179, 225, 209, 81, 123, 114, 214
        ]
    );
}

#[test]
fn contexts_bind_server_identity() {
    let id = [1u8; 32];
    let cred = credential_identifier(&id);
    assert!(cred.starts_with(b"RemoText single-password credential v1"));
    assert_eq!(&cred[cred.len() - 32..], &id);
    let ctx = login_context(&id);
    let mut expected = b"RemoText OPAQUE v1remotext/1".to_vec();
    expected.extend_from_slice(&[0, 1]);
    expected.extend_from_slice(&id);
    assert_eq!(ctx, expected);
    assert!(constant_time_eq(&id, &[1u8; 32]));
    assert!(!constant_time_eq(&id, &[2u8; 32]));
}

#[test]
fn ticket_roundtrip() {
    let addr = vec![3u8, 200, 0, 17, 42];
    let ticket = encode_addr(&addr);
    assert!(ticket.starts_with("rt1_"));
    assert_eq!(decode_addr(&ticket).unwrap(), addr);
}

#[test]
fn ticket_errors() {
    assert_eq!(decode_addr("xx"), Err("RemoText address must start with rt1_".to_string()));
    assert_eq!(decode_addr("rt1_"), Err("RemoText address is empty".to_string()));
    assert_eq!(decode_addr("rt1_!!"), Err("decode RemoText address".to_string()));
    assert_eq!(encode_addr(&[0xfb, 0xff]), "rt1_-_8");
}

#[test]
fn remote_errors_name_their_kind() {
    let e = RemoteError::new(ErrorCode::AuthFailed, "invalid password".to_string());
    assert_eq!(remote_error(e), "authentication failed: invalid password");
    let e = RemoteError::new(ErrorCode::TransferDenied, "too big".to_string());
    assert!(remote_error(e).contains("transfer denied"));
}

#[test]
fn server_hello_is_checked() {
    let hello = ServerHello { version: 1, server_id: [8; 32], credential_response: vec![1] };
    assert!(check_server_hello(Message::ServerHello(hello.clone()), &[8; 32]).is_ok());
    assert_eq!(
        check_server_hello(Message::ServerHello(hello.clone()), &[9; 32]).unwrap_err(),
        "server identity in PAKE handshake does not match iroh connection identity"
    );
    let old = ServerHello { version: 3, ..hello };
    assert_eq!(
        check_server_hello(Message::ServerHello(old), &[8; 32]).unwrap_err(),
        "server protocol version 3 is unsupported by client version 1"
    );
    let refused = Message::Response(Response::Error(RemoteError::new(ErrorCode::AuthFailed, "invalid password".to_string())));
    assert_eq!(check_server_hello(refused, &[8; 32]).unwrap_err(), "authentication failed: invalid password");
    assert_eq!(
        check_server_hello(Message::FileEnd, &[8; 32]).unwrap_err(),
        "unexpected handshake response: FileEnd"
    );
}

#[test]
fn exec_collector_keeps_streams_apart() {
    let mut c = ExecCollector::new();
    let out = |stream, data: &[u8]| Message::Response(Response::ExecOutput { stream, data: data.to_vec() });
    assert!(matches!(c.on_message(Message::Response(Response::ExecStarted)), ExecProgress::Running));
    assert!(matches!(c.on_message(out(OutputStream::Stdout, b"he")), ExecProgress::Running));
    assert!(matches!(c.on_message(out(OutputStream::Stderr, b"oops")), ExecProgress::Running));
    assert!(matches!(c.on_message(out(OutputStream::Stdout, b"llo")), ExecProgress::Running));
    let code = match c.on_message(Message::Response(Response::ExecExit { code: None })) {
        ExecProgress::Exited(code) => code,
        _ => panic!("no exit"),
    };
    assert_eq!(code, 1);
    let r = c.finish(code);
    assert_eq!(String::from_utf8(r.stdout).unwrap(), "hello");
    assert_eq!(r.stderr, b"oops".to_vec());
    assert!(matches!(classify_exec_response(Message::Response(Response::ExecExit { code: Some(7) })), ExecEvent::Exit(7)));
    assert!(matches!(classify_exec_response(Message::Response(Response::Pong)), ExecEvent::Failed(ref t) if t == "unexpected exec response: Response(Pong)"));
    let req = exec_request(vec!["printf".to_string(), "hello".to_string()]);
    assert!(req.cwd.is_none() && req.env.is_empty());
}

#[test]
fn transfers_check_counts_and_hashes() {
    assert!(check_put_ready(Message::Response(Response::PutReady)).is_ok());
    let denied = Message::Response(Response::Error(RemoteError::new(ErrorCode::TransferDenied, "declared upload size 2048 exceeds maximum 1024".to_string())));
    assert!(check_put_ready(denied).unwrap_err().contains("transfer denied"));
    let sha_1234: Vec<u8> = vec![
        159, 100, 167, 71, 225, 185, 127, 19, 31, 171, 182, 180, 71, 41, 108, 155, 111, 2, 1, 231, 159, 179, 197, 53,
        110, 108, 119, 232, 155, 106, 128, 106,
    ];
    let done = |bytes, hash: Option<Vec<u8>>| Message::Response(Response::TransferDone { bytes, hash });

    let mut sender = FileSender::new();
    assert_eq!(sender.chunk(vec![1, 2]), Message::FileChunk(vec![1, 2]));
    assert_eq!(sender.chunk(vec![3, 4]), Message::FileChunk(vec![3, 4]));
    assert_eq!(sender.sent_bytes(), 4);
    assert_eq!(sender.hash(), sha_1234);
    assert_eq!(sender.done_message(), done(4, Some(sha_1234.clone())));
    assert_eq!(check_put_completion(done(4, Some(sha_1234.clone())), &sender, 4), Ok(4));
    assert_eq!(check_put_completion(done(4, None), &sender, 4), Ok(4));
    assert_eq!(
        check_put_completion(done(4, Some(vec![9])), &sender, 4),
        Err("upload hash mismatch: server received corrupt data".to_string())
    );
    assert_eq!(
        check_put_completion(done(3, None), &sender, 4),
        Err("upload byte count mismatch: local=4, sent=4, remote=3".to_string())
    );
    assert_eq!(check_get_metadata(Message::Response(Response::GetMetadata { size: 4 })), Ok(4));

    let mut d = DownloadReceiver::new(4);
    assert!(matches!(d.on_message(Message::FileChunk(vec![1, 2])), DownloadStep::Write(_)));
    assert!(matches!(d.on_message(Message::FileChunk(vec![3, 4])), DownloadStep::Write(_)));
    assert_eq!(d.received_bytes(), 4);
    assert_eq!(d.check_completion(4, Some(sha_1234.clone())), Ok(4));
    assert_eq!(d.check_completion(4, None), Ok(4));
    assert_eq!(
        d.check_completion(4, Some(vec![0])),
        Err("download hash mismatch: received corrupt data".to_string())
    );
    assert_eq!(
        d.check_completion(5, None),
        Err("download byte count mismatch: expected=4, received=4, remote=5".to_string())
    );
    let empty = FileSender::new();
    assert_eq!(
        empty.hash(),
        vec![
            227, 176, 196, 66, 152, 252, 28, 20, 154, 251, 244, 200, 153, 111, 185, 36, 39, 174, 65, 228, 100, 155,
            147, 76, 164, 149, 153, 27, 120, 82, 184, 85
        ]
    );
    assert!(matches!(d.on_message(Message::Cancel), DownloadStep::Fail(ref t) if t == "unexpected get response: Cancel"));
}

#[test]
fn message_debug_matches_derived_debug() {
    let messages = vec![
        Message::ClientHello(ClientHello { version: 1, credential_request: vec![7, 0, 255] }),
        Message::ServerHello(ServerHello { version: 2, server_id: [9; 32], credential_response: vec![] }),
        Message::ClientRequest(ClientRequest {
            credential_finalization: vec![1],
            request_mac: [3; 32],
            request: Request::Exec(ExecRequest {
                command: vec!["sh".to_string(), "-c".to_string(), "echo \"hi\"\n".to_string()],
                cwd: Some("/tmp".to_string()),
                env: vec![("K".to_string(), "V".to_string()), ("A".to_string(), "é\t".to_string())],
            }),
        }),
        Message::ClientRequest(ClientRequest {
            credential_finalization: vec![],
            request_mac: [0; 32],
            request: Request::Put(PutRequest { remote_path: "r".to_string(), size: 12 }),
        }),
        Message::ClientRequest(ClientRequest {
            credential_finalization: vec![],
            request_mac: [0; 32],
            request: Request::Get(GetRequest { remote_path: "g".to_string() }),
        }),
        Message::Cancel,
        Message::Response(Response::Pong),
        Message::Response(Response::GetMetadata { size: 5 }),
        Message::Response(Response::TransferDone { bytes: 3, hash: Some(vec![1, 2]) }),
        Message::Response(Response::TransferDone { bytes: 0, hash: None }),
        Message::Response(Response::ExecOutput { stream: OutputStream::Stderr, data: vec![10] }),
        Message::Response(Response::ExecExit { code: Some(-3) }),
        Message::Response(Response::ExecExit { code: None }),
        Message::Response(Response::Error(RemoteError::new(ErrorCode::TransferNotFound, "no \\ file".to_string()))),
        Message::FileChunk(vec![]),
        Message::FileEnd,
    ];
    for m in messages {
        assert_eq!(message_debug(&m), format!("{:?}", m));
    }
}
