use nebulaterm::connect::{
    advance_stage, auth_error_prefix, choose_auth, connect_error_prefix, connected_message,
    decimal_string, local_resize_geometry, next_connect_action, shell_command, AuthMethod,
    ConnectAction, ConnectStage,
};
use nebulaterm::conpty::{
    completed_read, console_teardown_order, peek_read_decision, ConsoleHandle, PeekDecision,
};

#[test]
fn test_choose_auth_prefers_key_file() {
    let chosen = choose_auth(
        Some("pw".to_string()),
        Some("/home/user/.ssh/id_rsa".to_string()),
        Some("phrase".to_string()),
    )
    .unwrap();
    match chosen {
        AuthMethod::KeyFile { path, passphrase } => {
            assert_eq!(path, "/home/user/.ssh/id_rsa");
            assert_eq!(passphrase.as_deref(), Some("phrase"));
        },
        _ => panic!("expected key-file authentication"),
    }
}

#[test]
fn test_choose_auth_password() {
    let chosen = choose_auth(Some("pw".to_string()), None, None).unwrap();
    match chosen {
        AuthMethod::Password { password } => assert_eq!(password, "pw"),
        _ => panic!("expected password authentication"),
    }
}

#[test]
fn test_choose_auth_neither_is_error() {
    let err = choose_auth(None, None, None).unwrap_err();
    assert_eq!(err, "No authentication method provided");
}

#[test]
fn test_auth_error_prefixes() {
    let key = AuthMethod::KeyFile { path: "k".to_string(), passphrase: None };
    assert_eq!(auth_error_prefix(&key), "SSH key authentication failed: ");
    let pw = AuthMethod::Password { password: "p".to_string() };
    assert_eq!(auth_error_prefix(&pw), "Password authentication failed: ");
}

#[test]
fn test_connect_sequence_order() {
    let mut stage = ConnectStage::Start;
    let mut seen: Vec<String> = Vec::new();
    loop {
        let action = next_connect_action(stage);
        let done = matches!(action, ConnectAction::Complete);
        let label = match action {
            ConnectAction::DialTcp => "dial".to_string(),
            ConnectAction::Handshake => "handshake".to_string(),
            ConnectAction::SetKeepalive { interval_secs } => {
                assert_eq!(interval_secs, 60);
                "keepalive".to_string()
            },
            ConnectAction::Authenticate => "auth".to_string(),
            ConnectAction::OpenChannel => "channel".to_string(),
            ConnectAction::RequestPty { term, cols, rows } => {
                assert_eq!(term, "xterm-256color");
                assert_eq!((cols, rows), (80, 24));
                "pty".to_string()
            },
            ConnectAction::StartShell => "shell".to_string(),
            ConnectAction::SetNonBlocking => "nonblocking".to_string(),
            ConnectAction::Complete => "complete".to_string(),
        };
        seen.push(label);
        if done {
            break;
        }
        stage = advance_stage(stage);
    }
    assert_eq!(
        seen,
        vec![
            "dial",
            "handshake",
            "keepalive",
            "auth",
            "channel",
            "pty",
            "shell",
            "nonblocking",
            "complete",
        ]
    );
}

#[test]
fn test_nonblocking_only_after_shell() {
    let stages = [
        ConnectStage::Start,
        ConnectStage::TcpConnected,
        ConnectStage::HandshakeDone,
        ConnectStage::KeepaliveSet,
        ConnectStage::Authenticated,
        ConnectStage::ChannelOpened,
        ConnectStage::PtyRequested,
        ConnectStage::ShellStarted,
        ConnectStage::Ready,
    ];
    for stage in stages {
        let switches = matches!(next_connect_action(stage), ConnectAction::SetNonBlocking);
        assert_eq!(switches, stage == ConnectStage::ShellStarted);
    }
}

#[test]
fn test_connect_error_prefixes() {
    assert_eq!(connect_error_prefix(ConnectStage::Start), "Failed to connect to ");
    assert_eq!(connect_error_prefix(ConnectStage::TcpConnected), "SSH handshake failed: ");
    assert_eq!(connect_error_prefix(ConnectStage::Authenticated), "Failed to open channel: ");
    assert_eq!(connect_error_prefix(ConnectStage::ChannelOpened), "Failed to request PTY: ");
    assert_eq!(connect_error_prefix(ConnectStage::PtyRequested), "Failed to start shell: ");
}

#[test]
fn test_shell_command_selection() {
    assert_eq!(shell_command(true, Some("/bin/zsh".to_string())), "cmd.exe");
    assert_eq!(shell_command(false, Some("/bin/zsh".to_string())), "/bin/zsh");
    assert_eq!(shell_command(false, None), "/bin/sh");
}

#[test]
fn test_local_resize_geometry_truncates() {
    assert_eq!(local_resize_geometry(80, 24), (80, 24));
    assert_eq!(local_resize_geometry(70000, 24), ((70000u32 % 65536) as u16, 24));
}

#[test]
fn test_decimal_string() {
    assert_eq!(decimal_string(0), "0");
    assert_eq!(decimal_string(22), "22");
    assert_eq!(decimal_string(65535), "65535");
    assert_eq!(decimal_string(1000000), "1000000");
}

#[test]
fn test_connected_message() {
    assert_eq!(
        connected_message("alice", "example.org", 22),
        "Connected to alice@example.org:22"
    );
}

#[test]
fn test_peek_read_decision() {
    assert_eq!(peek_read_decision(0), PeekDecision::WouldBlock);
    assert_eq!(peek_read_decision(1), PeekDecision::ReadAvailable);
    assert_eq!(peek_read_decision(4096), PeekDecision::ReadAvailable);
}

#[test]
fn test_completed_read() {
    assert_eq!(completed_read(true, 17), Some(17));
    assert_eq!(completed_read(true, 0), Some(0));
    assert_eq!(completed_read(false, 5), Some(5));
    assert_eq!(completed_read(false, 0), None);
}

#[test]
fn test_console_teardown_order() {
    assert_eq!(
        console_teardown_order(),
        vec![
            ConsoleHandle::Console,
            ConsoleHandle::InputWrite,
            ConsoleHandle::OutputRead,
            ConsoleHandle::Process,
        ]
    );
}
