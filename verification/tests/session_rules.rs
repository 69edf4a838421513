use base64::{engine::general_purpose::URL_SAFE_NO_PAD, Engine};
use remotext::protocol::OutputStream;
use remotext::session::{
    background_args, check_session_ack, check_session_hello, check_session_request, check_transfer_done,
    decode_token, encode_token, idle_secs, read_session_file_contents, session_file_contents, session_file_name,
    token_eq, transfer_reply, ExecRelay, SessionFrame, SessionRequest,
};
use remotext::server::NetworkMode;

#[test]
fn session_token_roundtrip() {
    let token = [42u8; 32];
    let encoded = URL_SAFE_NO_PAD.encode(token);
    assert_eq!(decode_token(&encoded).unwrap(), token);
}

#[test]
fn session_token_errors() {
    assert_eq!(decode_token("!"), Err("decode session token".to_string()));
    assert_eq!(decode_token("AAAA"), Err("session token has invalid length".to_string()));
    let token = [7u8; 32];
    assert_eq!(decode_token(&encode_token(&token)).unwrap(), token);
    assert!(token_eq(&token, &[7u8; 32]));
}

#[test]
fn session_file_changes_with_address() {
    let a = session_file_name("rt1_test_a");
    let b = session_file_name("rt1_test_b");
    assert_ne!(a, b);
    assert!(a.ends_with(".session"));
    assert_eq!(a, "nsOZQqe06JZkB0BHe24h0blzmfPhJi4AwqYpaJthaP0.session");
}

#[test]
fn session_frame_debug_redacts_token() {
    let token = [7u8; 32];
    let frame = SessionFrame::Hello { token };
    let debug = frame.debug_string();
    assert!(!debug.contains("777777"));
    assert!(debug.contains("<redacted>"));
}

#[test]
fn session_frame_debug_redacts_exec_output_data() {
    let frame = SessionFrame::ExecOutput {
        stream: OutputStream::Stdout,
        data: vec![1, 2, 3, 4],
    };
    let debug = frame.debug_string();
    assert!(!debug.contains("1, 2, 3, 4"));
    assert!(debug.contains("4 bytes"));
}

#[test]
fn session_frame_debug_texts() {
    assert_eq!(SessionFrame::Hello { token: [1; 32] }.debug_string(), "Hello { token: \"<redacted>\" }");
    assert_eq!(
        SessionFrame::ExecOutput { stream: OutputStream::Stderr, data: vec![0; 12] }.debug_string(),
        "ExecOutput { stream: Stderr, data: \"<12 bytes>\" }"
    );
    assert_eq!(SessionFrame::ExecExit { code: -3 }.debug_string(), "ExecExit { code: -3 }");
    assert_eq!(SessionFrame::TransferDone { bytes: 120 }.debug_string(), "TransferDone { bytes: 120 }");
    assert_eq!(SessionFrame::Error("x\"y".to_string()).debug_string(), "Error(\"x\\\"y\")");
    assert_eq!(
        SessionFrame::Request(SessionRequest::Exec { command: vec!["a".to_string(), "b c".to_string()] }).debug_string(),
        "Request(Exec { command: [\"a\", \"b c\"] })"
    );
    assert_eq!(
        SessionFrame::Request(SessionRequest::Put { local: "/l".to_string(), remote: "r".to_string() }).debug_string(),
        "Request(Put { local: \"/l\", remote: \"r\" })"
    );
    assert_eq!(SessionFrame::Ack.debug_string(), "Ok");
}

#[test]
fn session_connection_checks() {
    let token = [5u8; 32];
    assert!(check_session_hello(SessionFrame::Hello { token }, &token).is_ok());
    assert!(matches!(check_session_hello(SessionFrame::Hello { token: [6; 32] }, &token), Err(SessionFrame::Error(ref m)) if m == "invalid session token"));
    assert!(matches!(check_session_hello(SessionFrame::Cancel, &token), Err(SessionFrame::Error(ref m)) if m == "expected session hello, got Cancel"));
    assert!(matches!(check_session_request(SessionFrame::Request(SessionRequest::Ping)), Ok(SessionRequest::Ping)));
    assert!(matches!(check_session_request(SessionFrame::Ack), Err(SessionFrame::Error(ref m)) if m == "expected session request, got Ok"));
    assert!(matches!(transfer_reply(Ok(9)), SessionFrame::TransferDone { bytes: 9 }));
    assert!(matches!(transfer_reply(Err("e".to_string())), SessionFrame::Error(ref m) if m == "e"));
    assert_eq!(check_session_ack(SessionFrame::Ack, "ping"), Ok(()));
    assert_eq!(check_session_ack(SessionFrame::Error("boom".to_string()), "ping"), Err("boom".to_string()));
    assert_eq!(
        check_session_ack(SessionFrame::Cancel, "hello"),
        Err("unexpected session hello response: Cancel".to_string())
    );
    assert_eq!(check_transfer_done(SessionFrame::TransferDone { bytes: 3 }), Ok(3));
}

#[test]
fn session_exec_relay() {
    let mut relay = ExecRelay::new();
    assert!(relay.wants_output() && relay.awaits_result() && relay.reads_control());
    assert!(relay.on_control(Some(SessionFrame::Cancel)));
    assert!(!relay.reads_control());
    relay.on_result(Ok(130));
    relay.on_output_closed();
    assert!(relay.finished());
    assert!(matches!(relay.final_frame(), SessionFrame::ExecExit { code: 130 }));

    let mut relay = ExecRelay::new();
    assert!(relay.on_control(Some(SessionFrame::Ack)));
    assert!(!relay.awaits_result());
    relay.on_output_closed();
    assert!(matches!(relay.final_frame(), SessionFrame::Error(ref m) if m == "unexpected session exec control frame: Ok"));
}

#[test]
fn background_process_arguments() {
    let args = background_args("rt1_x", 300, NetworkMode::LocalOnly);
    assert_eq!(args, vec!["__session", "--addr", "rt1_x", "--keepalive-secs", "300", "--local-only"]);
    assert_eq!(background_args("a", 0, NetworkMode::Public).len(), 5);
    assert_eq!(idle_secs(0), 1);
    assert_eq!(idle_secs(30), 30);
    let text = session_file_contents(&[1, 2, 3]);
    assert_eq!(read_session_file_contents(&format!("  {text}\n")).unwrap(), vec![1, 2, 3]);
}
