//! Decision logic of the two connect operations: which authentication
//! method a remote connect uses, the order of the blocking handshake
//! sequence (and that the switch to non-blocking mode comes only after
//! it), the shell a local connect launches, and the messages both report.

use crate::session::SessionKind;
use vstd::prelude::*;

verus! {

/// Initial terminal width requested for a remote session.
pub const INITIAL_COLS: u32 = 80;

/// Initial terminal height requested for a remote session.
pub const INITIAL_ROWS: u32 = 24;

/// The authentication method a remote connect uses: exactly one of a
/// key file (with optional passphrase) or a password.
#[derive(Debug)]
pub enum AuthMethod {
    /// Authenticate with a private-key file.
    KeyFile { path: String, passphrase: Option<String> },
    /// Authenticate with a password.
    Password { password: String },
}

/// Selects the authentication method from the connect parameters: a key
/// file is preferred when both are supplied, and supplying neither is an
/// error.
pub fn choose_auth(password: Option<String>, key_path: Option<String>, passphrase: Option<
    String,
>) -> (r: Result<AuthMethod, String>)
    ensures
        match key_path {
            Some(p) => r matches Ok(AuthMethod::KeyFile { path, passphrase: pp }) && path == p
                && pp == passphrase,
            None => match password {
                Some(pw) => r matches Ok(AuthMethod::Password { password: w }) && w == pw,
                None => r matches Err(e) && e@ == "No authentication method provided"@,
            },
        },
{
    match key_path {
        Some(path) => Ok(AuthMethod::KeyFile { path, passphrase }),
        None => match password {
            Some(password) => Ok(AuthMethod::Password { password }),
            None => Err("No authentication method provided".to_owned()),
        },
    }
}

/// The error-message prefix for a failure of the given method.
pub fn auth_error_prefix(method: &AuthMethod) -> (r: String)
    ensures
        method matches AuthMethod::KeyFile { .. } ==> r@ == "SSH key authentication failed: "@,
        method matches AuthMethod::Password { .. } ==> r@ == "Password authentication failed: "@,
{
    match method {
        AuthMethod::KeyFile { .. } => "SSH key authentication failed: ".to_owned(),
        AuthMethod::Password { .. } => "Password authentication failed: ".to_owned(),
    }
}

/// How far a remote connect has come through its blocking setup sequence.
#[derive(Clone, Copy, PartialEq, Eq, Structural, Debug)]
pub enum ConnectStage {
    Start,
    TcpConnected,
    HandshakeDone,
    KeepaliveSet,
    Authenticated,
    ChannelOpened,
    PtyRequested,
    ShellStarted,
    Ready,
}

/// The next thing the caller performs for a connect at the given stage.
#[derive(Debug)]
pub enum ConnectAction {
    /// Open the TCP stream to the host.
    DialTcp,
    /// Create the protocol session over the stream and run the handshake.
    Handshake,
    /// Enable keep-alive messages at this interval, in seconds.
    SetKeepalive { interval_secs: u32 },
    /// Authenticate with the chosen method, then confirm it took effect.
    Authenticate,
    /// Open the interactive channel.
    OpenChannel,
    /// Request a pseudo-terminal of this type and geometry.
    RequestPty { term: String, cols: u32, rows: u32 },
    /// Request an interactive shell on the channel.
    StartShell,
    /// Switch the connection to non-blocking mode for the pump.
    SetNonBlocking,
    /// Register the session and start its pump; the sequence is done.
    Complete,
}

/// The shape of a connect action.
#[derive(Clone, Copy, PartialEq, Eq, Structural, Debug)]
pub enum ConnectActionKind {
    DialTcp,
    Handshake,
    SetKeepalive,
    Authenticate,
    OpenChannel,
    RequestPty,
    StartShell,
    SetNonBlocking,
    Complete,
}

/// The shape of a connect action value.
pub open spec fn connect_action_kind(a: ConnectAction) -> ConnectActionKind {
    match a {
        ConnectAction::DialTcp => ConnectActionKind::DialTcp,
        ConnectAction::Handshake => ConnectActionKind::Handshake,
        ConnectAction::SetKeepalive { .. } => ConnectActionKind::SetKeepalive,
        ConnectAction::Authenticate => ConnectActionKind::Authenticate,
        ConnectAction::OpenChannel => ConnectActionKind::OpenChannel,
        ConnectAction::RequestPty { .. } => ConnectActionKind::RequestPty,
        ConnectAction::StartShell => ConnectActionKind::StartShell,
        ConnectAction::SetNonBlocking => ConnectActionKind::SetNonBlocking,
        ConnectAction::Complete => ConnectActionKind::Complete,
    }
}

/// The action each stage calls for.
pub open spec fn action_for_stage(stage: ConnectStage) -> ConnectActionKind {
    match stage {
        ConnectStage::Start => ConnectActionKind::DialTcp,
        ConnectStage::TcpConnected => ConnectActionKind::Handshake,
        ConnectStage::HandshakeDone => ConnectActionKind::SetKeepalive,
        ConnectStage::KeepaliveSet => ConnectActionKind::Authenticate,
        ConnectStage::Authenticated => ConnectActionKind::OpenChannel,
        ConnectStage::ChannelOpened => ConnectActionKind::RequestPty,
        ConnectStage::PtyRequested => ConnectActionKind::StartShell,
        ConnectStage::ShellStarted => ConnectActionKind::SetNonBlocking,
        ConnectStage::Ready => ConnectActionKind::Complete,
    }
}

/// The stage reached once the action for `stage` succeeds.
pub open spec fn stage_after(stage: ConnectStage) -> ConnectStage {
    match stage {
        ConnectStage::Start => ConnectStage::TcpConnected,
        ConnectStage::TcpConnected => ConnectStage::HandshakeDone,
        ConnectStage::HandshakeDone => ConnectStage::KeepaliveSet,
        ConnectStage::KeepaliveSet => ConnectStage::Authenticated,
        ConnectStage::Authenticated => ConnectStage::ChannelOpened,
        ConnectStage::ChannelOpened => ConnectStage::PtyRequested,
        ConnectStage::PtyRequested => ConnectStage::ShellStarted,
        ConnectStage::ShellStarted => ConnectStage::Ready,
        ConnectStage::Ready => ConnectStage::Ready,
    }
}

/// The next action of the remote connect sequence: dial, handshake,
/// keep-alive, authenticate, open the channel, request a pty with the
/// initial geometry, start the shell — and only then switch the
/// connection to non-blocking mode.
pub fn next_connect_action(stage: ConnectStage) -> (r: ConnectAction)
    ensures
        connect_action_kind(r) == action_for_stage(stage),
        r matches ConnectAction::SetKeepalive { interval_secs } ==> interval_secs == 60,
        r matches ConnectAction::RequestPty { term, cols, rows } ==> term@ == "xterm-256color"@
            && cols == INITIAL_COLS && rows == INITIAL_ROWS,
        r is SetNonBlocking <==> stage == ConnectStage::ShellStarted,
{
    match stage {
        ConnectStage::Start => ConnectAction::DialTcp,
        ConnectStage::TcpConnected => ConnectAction::Handshake,
        ConnectStage::HandshakeDone => ConnectAction::SetKeepalive { interval_secs: 60 },
        ConnectStage::KeepaliveSet => ConnectAction::Authenticate,
        ConnectStage::Authenticated => ConnectAction::OpenChannel,
        ConnectStage::ChannelOpened => ConnectAction::RequestPty {
            term: "xterm-256color".to_owned(),
            cols: INITIAL_COLS,
            rows: INITIAL_ROWS,
        },
        ConnectStage::PtyRequested => ConnectAction::StartShell,
        ConnectStage::ShellStarted => ConnectAction::SetNonBlocking,
        ConnectStage::Ready => ConnectAction::Complete,
    }
}

/// The stage reached after the action for `stage` succeeds.
pub fn advance_stage(stage: ConnectStage) -> (r: ConnectStage)
    ensures
        r == stage_after(stage),
{
    match stage {
        ConnectStage::Start => ConnectStage::TcpConnected,
        ConnectStage::TcpConnected => ConnectStage::HandshakeDone,
        ConnectStage::HandshakeDone => ConnectStage::KeepaliveSet,
        ConnectStage::KeepaliveSet => ConnectStage::Authenticated,
        ConnectStage::Authenticated => ConnectStage::ChannelOpened,
        ConnectStage::ChannelOpened => ConnectStage::PtyRequested,
        ConnectStage::PtyRequested => ConnectStage::ShellStarted,
        ConnectStage::ShellStarted => ConnectStage::Ready,
        ConnectStage::Ready => ConnectStage::Ready,
    }
}

/// The non-blocking switch is the whole sequence's last action before
/// completion: every earlier stage still performs a blocking setup step.
pub proof fn lemma_nonblocking_switch_is_last(stage: ConnectStage)
    ensures
        action_for_stage(stage) == ConnectActionKind::SetNonBlocking ==> stage_after(stage)
            == ConnectStage::Ready,
        action_for_stage(stage) == ConnectActionKind::SetNonBlocking <==> stage
            == ConnectStage::ShellStarted,
{
}

/// The error-message prefix for a failure at the given stage. The
/// stages whose actions cannot fail share a generic prefix.
pub fn connect_error_prefix(stage: ConnectStage) -> (r: String)
    ensures
        stage == ConnectStage::Start ==> r@ == "Failed to connect to "@,
        stage == ConnectStage::TcpConnected ==> r@ == "SSH handshake failed: "@,
        stage == ConnectStage::Authenticated ==> r@ == "Failed to open channel: "@,
        stage == ConnectStage::ChannelOpened ==> r@ == "Failed to request PTY: "@,
        stage == ConnectStage::PtyRequested ==> r@ == "Failed to start shell: "@,
        (stage == ConnectStage::HandshakeDone || stage == ConnectStage::KeepaliveSet || stage
            == ConnectStage::ShellStarted || stage == ConnectStage::Ready) ==> r@
            == "SSH connection failed: "@,
{
    match stage {
        ConnectStage::Start => "Failed to connect to ".to_owned(),
        ConnectStage::TcpConnected => "SSH handshake failed: ".to_owned(),
        ConnectStage::Authenticated => "Failed to open channel: ".to_owned(),
        ConnectStage::ChannelOpened => "Failed to request PTY: ".to_owned(),
        ConnectStage::PtyRequested => "Failed to start shell: ".to_owned(),
        _ => "SSH connection failed: ".to_owned(),
    }
}

/// The command a local connect launches: the platform shell on Windows,
/// otherwise the shell named by the environment, falling back to the
/// system default when unset.
pub fn shell_command(on_windows: bool, shell_env: Option<String>) -> (r: String)
    ensures
        on_windows ==> r@ == "cmd.exe"@,
        !on_windows ==> match shell_env {
            Some(s) => r == s,
            None => r@ == "/bin/sh"@,
        },
{
    if on_windows {
        "cmd.exe".to_owned()
    } else {
        match shell_env {
            Some(s) => s,
            None => "/bin/sh".to_owned(),
        }
    }
}

/// The geometry a resize applies to a local pseudo-terminal: the
/// requested dimensions, truncated to the pty size type.
pub fn local_resize_geometry(cols: u32, rows: u32) -> (r: (u16, u16))
    ensures
        r.0 == cols as u16,
        r.1 == rows as u16,
{
    (#[verifier::truncate] (cols as u16), #[verifier::truncate] (rows as u16))
}

/// Decimal digits of `n`, most significant first.
pub open spec fn decimal_digits_of(n: nat) -> Seq<char>
    decreases n,
{
    let last = seq![(((48 + n % 10) as u8) as char)];
    if n < 10 {
        last
    } else {
        decimal_digits_of(n / 10) + last
    }
}

/// The one-character string for a decimal digit.
fn digit_str(d: u8) -> (r: &'static str)
    requires
        d < 10,
    ensures
        r@ =~= seq![(((48 + d) as u8) as char)],
{
    proof {
        reveal_strlit("0");
        reveal_strlit("1");
        reveal_strlit("2");
        reveal_strlit("3");
        reveal_strlit("4");
        reveal_strlit("5");
        reveal_strlit("6");
        reveal_strlit("7");
        reveal_strlit("8");
        reveal_strlit("9");
    }
    match d {
        0 => "0",
        1 => "1",
        2 => "2",
        3 => "3",
        4 => "4",
        5 => "5",
        6 => "6",
        7 => "7",
        8 => "8",
        _ => "9",
    }
}

/// Renders `n` in decimal.
pub fn decimal_string(n: u64) -> (r: String)
    ensures
        r@ == decimal_digits_of(n as nat),
    decreases n,
{
    let digit: u8 = (n % 10) as u8;
    let mut s: String = if n < 10 {
        String::new()
    } else {
        decimal_string(n / 10)
    };
    s.append(digit_str(digit));
    s
}

/// The success message of a remote connect:
/// `Connected to <user>@<host>:<port>`.
pub fn connected_message(username: &str, host: &str, port: u16) -> (r: String)
    ensures
        r@ == "Connected to "@ + username@ + "@"@ + host@ + ":"@ + decimal_digits_of(port as nat),
{
    let mut s = "Connected to ".to_owned();
    s.append(username);
    s.append("@");
    s.append(host);
    s.append(":");
    let digits = decimal_string(port as u64);
    s.append(digits.as_str());
    s
}

} // verus!
