//! Decision logic of the output pump: the one background poller each
//! session has. Each iteration the pump re-resolves its session in the
//! registry and reacts to the outcome of one non-blocking read; this
//! module decides what the pump does, the caller performs it.

use crate::session::SessionKind;
use vstd::prelude::*;
use vstd::utf8::{decode_utf8, valid_utf8};

verus! {

/// Outcome of one non-blocking read attempt on a session's channel.
pub enum ReadEvent {
    /// Bytes were available and read.
    Data(Vec<u8>),
    /// No data ready now; not an error.
    WouldBlock,
    /// The channel reached end of stream (the process exited).
    Eof,
    /// The read failed; the payload is the error's description.
    Failed(String),
}

/// What the pump does next.
pub enum PumpAction {
    /// Forward the decoded chunk as an output event, then keep draining.
    Emit(String),
    /// Sleep briefly, then poll again.
    Sleep,
    /// Emit a disconnect event with this reason, then exit.
    Disconnect(String),
    /// Exit silently: the session is no longer registered.
    Exit,
}

/// The shape of a pump action, with payloads abstracted away.
#[derive(Clone, Copy, PartialEq, Eq, Structural, Debug)]
pub enum PumpActionKind {
    EmitOutput,
    SleepThenPoll,
    EmitDisconnect,
    ExitSilently,
}

/// The shape of the action `pump_step` takes.
pub open spec fn action_kind_of(a: PumpAction) -> PumpActionKind {
    match a {
        PumpAction::Emit(_) => PumpActionKind::EmitOutput,
        PumpAction::Sleep => PumpActionKind::SleepThenPoll,
        PumpAction::Disconnect(_) => PumpActionKind::EmitDisconnect,
        PumpAction::Exit => PumpActionKind::ExitSilently,
    }
}

/// The shape of the pump's decision as a function of registry membership
/// and the read outcome.
pub open spec fn pump_decision(registered: bool, event: &ReadEvent) -> PumpActionKind {
    if !registered {
        PumpActionKind::ExitSilently
    } else {
        match event {
            ReadEvent::Data(_) => PumpActionKind::EmitOutput,
            ReadEvent::WouldBlock => PumpActionKind::SleepThenPoll,
            ReadEvent::Eof => PumpActionKind::EmitDisconnect,
            ReadEvent::Failed(_) => PumpActionKind::EmitDisconnect,
        }
    }
}

/// The reason prefix a failed read produces, by session kind.
pub open spec fn failure_prefix(kind: SessionKind) -> Seq<char> {
    if kind == SessionKind::Remote {
        "Connection lost: "@
    } else {
        "Local PTY error: "@
    }
}

/// What `String::from_utf8_lossy` yields for these bytes.
pub uninterp spec fn lossy_utf8_of(bytes: Seq<u8>) -> Seq<char>;

/// Relies on String::from_utf8_lossy: the decoding is a pure function of
/// the bytes, and valid UTF-8 input decodes exactly.
#[verifier::external_body]
fn utf8_lossy(bytes: &[u8]) -> (r: String)
    ensures
        r@ == lossy_utf8_of(bytes@),
        valid_utf8(bytes@) ==> r@ == decode_utf8(bytes@),
{
    String::from_utf8_lossy(bytes).into_owned()
}

fn failure_prefix_string(kind: SessionKind) -> (r: String)
    ensures
        r@ == failure_prefix(kind),
{
    match kind {
        SessionKind::Remote => "Connection lost: ".to_owned(),
        SessionKind::Local => "Local PTY error: ".to_owned(),
    }
}

/// One pump decision. A pump that finds its session gone from the
/// registry exits without emitting anything; otherwise data is forwarded
/// as replacement-decoded text, an idle poll sleeps, and end of stream or
/// a failure becomes a disconnect event with a descriptive reason.
pub fn pump_step(kind: SessionKind, registered: bool, event: ReadEvent) -> (r: PumpAction)
    ensures
        action_kind_of(r) == pump_decision(registered, &event),
        r matches PumpAction::Emit(s) ==> event matches ReadEvent::Data(d) && s@ == lossy_utf8_of(
            d@,
        ),
        r matches PumpAction::Disconnect(m) ==> {
            &&& event matches ReadEvent::Eof ==> m@ == "Shell process has exited"@
            &&& event matches ReadEvent::Failed(e) ==> m@ == failure_prefix(kind) + e@
        },
{
    if !registered {
        return PumpAction::Exit;
    }
    match event {
        ReadEvent::Data(d) => PumpAction::Emit(utf8_lossy(d.as_slice())),
        ReadEvent::WouldBlock => PumpAction::Sleep,
        ReadEvent::Eof => PumpAction::Disconnect("Shell process has exited".to_owned()),
        ReadEvent::Failed(e) => {
            let mut reason = failure_prefix_string(kind);
            reason.append(e.as_str());
            PumpAction::Disconnect(reason)
        },
    }
}

/// Once a session id has been removed from the registry, its pump's next
/// decision is to exit silently, whatever the last read returned: no
/// output or disconnect event for that id is emitted after a successful
/// disconnect.
pub proof fn lemma_pump_exits_after_disconnect<V>(
    registry: Map<Seq<char>, V>,
    id: Seq<char>,
    event: &ReadEvent,
)
    requires
        !registry.contains_key(id),
    ensures
        pump_decision(registry.contains_key(id), event) == PumpActionKind::ExitSilently,
{
}

} // verus!
