use remotext::protocol::{ClientHello, ErrorCode, Message, PutRequest, Request, Response};
use remotext::server::{
    authorize_request, check_client_hello, check_client_request, check_download, filter_env, split_command, start_download,
    AuthDecision, AuthRateLimiter, ExecSupervisor, FileMeta, NetworkMode, ServerConfig, ServerLimits,
    UploadError, UploadReceiver, UploadStep,
};

#[test]
fn rate_limiter_exponential_backoff() {
    let mut limiter = AuthRateLimiter::new();
    assert!(limiter.should_wait(1_000).is_none());

    let d1 = limiter.check_and_record_failure(1_000);
    let d2 = limiter.check_and_record_failure(1_001);
    let d3 = limiter.check_and_record_failure(1_002);
    assert!(d3 >= d2);
    assert!(d2 >= d1);

    let wait = limiter.should_wait(1_003);
    assert!(wait.is_some());

    limiter.reset();
    assert!(limiter.should_wait(1_004).is_none());
}

#[test]
fn rate_limiter_delays_are_exact() {
    let mut limiter = AuthRateLimiter::new();
    let delays: Vec<u64> = (0..12).map(|i| limiter.check_and_record_failure(10 + i)).collect();
    assert_eq!(delays, vec![100, 200, 400, 800, 1600, 3200, 6400, 12800, 25600, 51200, 102400, 102400]);
    // 12 failures counted, last at 21: the delay is 102400 ms, 79 ms have passed.
    assert_eq!(limiter.should_wait(100), Some(102_400 - 79));
    assert_eq!(limiter.should_wait(200_000), Some(0));
}

#[test]
fn rate_limiter_forgets_old_failures() {
    let mut limiter = AuthRateLimiter::new();
    assert_eq!(limiter.check_and_record_failure(1_000), 100);
    assert_eq!(limiter.check_and_record_failure(2_000), 200);
    // More than five minutes later the count starts again.
    assert_eq!(limiter.check_and_record_failure(2_000 + 300_001), 100);
}

#[test]
fn filter_env_blocks_dangerous_vars() {
    let env = vec![
        ("PATH".to_string(), "/usr/bin".to_string()),
        ("LD_PRELOAD".to_string(), "/evil.so".to_string()),
        ("DYLD_LIBRARY_PATH".to_string(), "/evil".to_string()),
        ("HOME".to_string(), "/home/user".to_string()),
    ];
    let filtered = filter_env(env);
    let names: Vec<&str> = filtered.iter().map(|(k, _)| k.as_str()).collect();
    assert!(names.contains(&"PATH"));
    assert!(names.contains(&"HOME"));
    assert!(!names.contains(&"LD_PRELOAD"));
    assert!(!names.contains(&"DYLD_LIBRARY_PATH"));
}

#[test]
fn filter_env_blocks_preload_substring() {
    let env = vec![
        ("MY_PRELOAD_LIB".to_string(), "/evil.so".to_string()),
        ("SAFE_VAR".to_string(), "ok".to_string()),
    ];
    let filtered = filter_env(env);
    assert_eq!(filtered.len(), 1);
    assert_eq!(filtered[0].0, "SAFE_VAR");
}

#[test]
fn filter_env_is_case_insensitive_and_keeps_order() {
    let env = vec![
        ("b".to_string(), "1".to_string()),
        ("ld_library_path".to_string(), "x".to_string()),
        ("a".to_string(), "2".to_string()),
        ("x_library_path_y".to_string(), "z".to_string()),
        ("LD".to_string(), "3".to_string()),
    ];
    let filtered = filter_env(env);
    assert_eq!(
        filtered,
        vec![
            ("b".to_string(), "1".to_string()),
            ("a".to_string(), "2".to_string()),
            ("LD".to_string(), "3".to_string()),
        ]
    );
}

#[test]
fn server_config_debug_redacts_password() {
    let config = ServerConfig {
        password: "secret123".to_string(),
        name: "test".to_string(),
        data_dir: None,
        network_mode: NetworkMode::LocalOnly,
        limits: None,
    };
    let debug = config.debug_string();
    assert!(!debug.contains("secret123"));
    assert!(debug.contains("<redacted>"));
}

#[test]
fn server_config_debug_text_is_exact() {
    let config = ServerConfig {
        password: "pw".to_string(),
        name: "n\"1".to_string(),
        data_dir: Some("/data".to_string()),
        network_mode: NetworkMode::Public,
        limits: Some(ServerLimits {
            max_connections: 1,
            max_concurrent_commands: 2,
            max_file_size: 3,
            max_command_secs: 4,
        }),
    };
    assert_eq!(
        config.debug_string(),
        "ServerConfig { password: \"<redacted>\", name: \"n\\\"1\", data_dir: Some(\"/data\"), network_mode: Public, limits: Some(ServerLimits { max_connections: 1, max_concurrent_commands: 2, max_file_size: 3, max_command_secs: 4 }) }"
    );
}

#[test]
fn client_hello_version_is_checked() {
    let ok = check_client_hello(Message::ClientHello(ClientHello { version: 1, credential_request: vec![1, 2] }));
    assert_eq!(ok.unwrap().credential_request, vec![1, 2]);

    let err = check_client_hello(Message::ClientHello(ClientHello { version: 2, credential_request: vec![] }))
        .unwrap_err();
    assert_eq!(err.code, ErrorCode::VersionUnsupported);
    assert_eq!(err.message, "client protocol version 2 is unsupported by server version 1");

    let err = check_client_hello(Message::Cancel).unwrap_err();
    assert_eq!(err.code, ErrorCode::Protocol);
    assert_eq!(err.message, "expected client hello, got Cancel");

    let err = check_client_request(Message::FileEnd).unwrap_err();
    assert_eq!(err.message, "expected request, got FileEnd");
}

#[test]
fn authorization_requires_login_and_mac() {
    let server_id = [6u8; 32];
    let request_bytes = vec![0u8];
    let key = b"session key".to_vec();
    let mac = remotext::auth::request_mac(&key, &server_id, &request_bytes);
    let mut limiter = AuthRateLimiter::new();

    match authorize_request(&mut limiter, 50, None, &server_id, &request_bytes, &mac) {
        AuthDecision::Reject { delay_ms, error } => {
            assert_eq!(delay_ms, 100);
            assert_eq!(error.code, ErrorCode::AuthFailed);
            assert_eq!(error.message, "invalid password");
        }
        AuthDecision::Accept => panic!("failed login accepted"),
    }
    let mut bad = mac;
    bad[3] ^= 0x40;
    match authorize_request(&mut limiter, 60, Some(key.clone()), &server_id, &request_bytes, &bad) {
        AuthDecision::Reject { delay_ms, .. } => assert_eq!(delay_ms, 200),
        AuthDecision::Accept => panic!("tampered MAC accepted"),
    }
    assert!(matches!(
        authorize_request(&mut limiter, 70, Some(key), &server_id, &request_bytes, &mac),
        AuthDecision::Accept
    ));
    assert!(limiter.should_wait(80).is_none());
}

#[test]
fn upload_counts_bytes() {
    let limits = ServerLimits { max_file_size: 10, ..Default::default() };
    let denied = UploadReceiver::start(&PutRequest { remote_path: "x".to_string(), size: 11 }, &limits)
        .err()
        .unwrap();
    assert_eq!(denied.code, ErrorCode::TransferDenied);
    assert_eq!(denied.message, "declared upload size 11 exceeds maximum 10");

    let mut up = UploadReceiver::start(&PutRequest { remote_path: "x".to_string(), size: 5 }, &limits)
        .ok()
        .unwrap();
    assert!(matches!(up.on_message(Message::FileChunk(vec![1, 2, 3])), UploadStep::Write(ref d) if d == &vec![1, 2, 3]));
    assert!(matches!(up.on_message(Message::FileEnd), UploadStep::Fail(UploadError::CountMismatch { declared: 5, received: 3 })));
    assert!(matches!(up.on_message(Message::FileChunk(vec![4, 5, 6])), UploadStep::Fail(UploadError::TooManyBytes)));
    assert!(matches!(up.on_message(Message::FileChunk(vec![4, 5])), UploadStep::Write(_)));
    assert!(matches!(up.on_message(Message::Cancel), UploadStep::Fail(UploadError::Unexpected)));
    assert!(matches!(up.on_message(Message::FileEnd), UploadStep::Complete(5)));
    assert_eq!(
        up.done_message(),
        Message::Response(Response::TransferDone {
            bytes: 5,
            hash: Some(vec![
                116, 248, 31, 225, 103, 217, 155, 76, 180, 29, 109, 12, 205, 168, 34, 120, 202, 238, 159, 62, 47, 37,
                213, 229, 163, 147, 111, 243, 220, 236, 96, 208
            ]),
        })
    );
}

#[test]
fn download_checks_the_file() {
    let limits = ServerLimits { max_file_size: 100, ..Default::default() };
    assert_eq!(check_download("/a", FileMeta::File { len: 100 }, &limits).unwrap(), 100);
    let (metadata, sender) = start_download("/a", FileMeta::File { len: 7 }, &limits).ok().unwrap();
    assert_eq!(metadata, Message::Response(Response::GetMetadata { size: 7 }));
    assert_eq!(sender.sent_bytes(), 0);
    assert!(start_download("/a", FileMeta::Missing, &limits).is_err());
    let e = check_download("/a", FileMeta::File { len: 101 }, &limits).unwrap_err();
    assert_eq!((e.code, e.message.as_str()), (ErrorCode::TransferDenied, "remote file size 101 exceeds maximum 100"));
    let e = check_download("/a", FileMeta::Missing, &limits).unwrap_err();
    assert_eq!((e.code, e.message.as_str()), (ErrorCode::TransferNotFound, "remote file not found: /a"));
    let e = check_download("/a", FileMeta::NotFile, &limits).unwrap_err();
    assert_eq!((e.code, e.message.as_str()), (ErrorCode::TransferDenied, "remote path is not a file: /a"));
}

#[test]
fn command_split_and_exit() {
    let e = split_command(&vec![]).unwrap_err();
    assert_eq!((e.code, e.message.as_str()), (ErrorCode::ExecStartFailed, "empty command"));
    let (p, args) = split_command(&vec!["sh".to_string(), "-c".to_string(), "exit 7".to_string()]).unwrap();
    assert_eq!(p, "sh");
    assert_eq!(args, vec!["-c".to_string(), "exit 7".to_string()]);

    let mut sup = ExecSupervisor::new();
    assert!(sup.wants_output() && sup.running() && !sup.finished());
    sup.on_exit(Some(7));
    assert!(!sup.finished());
    sup.on_output_closed();
    assert!(sup.finished());
    assert_eq!(sup.exit_message(), Message::Response(Response::ExecExit { code: Some(7) }));

    let mut killed = ExecSupervisor::new();
    killed.on_killed(None);
    assert!(killed.finished());
    assert_eq!(killed.exit_message(), Message::Response(Response::ExecExit { code: None }));
    let _ = Request::Ping;
}

#[test]
fn filter_env_mixed_case_keys() {
    let env = vec![
        ("ld_preload".to_string(), "/evil.so".to_string()),
        ("Dyld_Insert_Libraries".to_string(), "x".to_string()),
        ("Path".to_string(), "/bin".to_string()),
    ];
    assert_eq!(filter_env(env), vec![("Path".to_string(), "/bin".to_string())]);
}
