//! The session registry and the decision logic of the consumer-facing
//! session operations: membership checks, the lookup that write and
//! resize share, removal on disconnect, and the teardown plan for each
//! session kind.
//!
//! The registry is generic in the session payload: the caller stores
//! whatever handle drives the underlying channel, and every operation is
//! specified over the registry's map abstraction alone.

use crate::str_map::StrMap;
use vstd::prelude::*;

verus! {

/// The two kinds of session behind the unified interface.
#[derive(Clone, Copy, PartialEq, Eq, Structural, Debug)]
pub enum SessionKind {
    /// A network-protocol-backed interactive shell.
    Remote,
    /// A locally spawned pseudo-terminal process.
    Local,
}

/// One step of the graceful teardown a disconnect performs.
#[derive(Clone, Copy, PartialEq, Eq, Structural, Debug)]
pub enum TeardownStep {
    /// Request close of the interactive channel.
    CloseChannel,
    /// Wait until the channel close completes.
    WaitClose,
    /// Disconnect the underlying connection with a client-initiated reason.
    DisconnectSession,
    /// Drop owned handles; releasing resources on destruction suffices.
    ReleaseResources,
}

/// Registers a session under `id`, replacing any session already stored
/// there (last-connect-wins).
pub fn register_session<V>(registry: &mut StrMap<V>, id: String, session: V)
    requires
        old(registry).wf(),
    ensures
        final(registry).wf(),
        final(registry)@ == old(registry)@.insert(id@, session),
{
    registry.insert(id, session);
}

/// Pure membership test: true iff a session is currently registered
/// under `id`. Never fails and performs no I/O.
pub fn check_connection<V>(registry: &StrMap<V>, id: &String) -> (r: bool)
    ensures
        r == registry@.contains_key(id@),
{
    registry.contains(id)
}

/// The lookup that `write` and `resize` share: the registered session for
/// `id`, or the not-found error when no session is registered. It never
/// blocks and never panics, whatever the registry holds.
pub fn lookup_session<'a, V>(registry: &'a StrMap<V>, id: &String) -> (r: Result<&'a V, String>)
    requires
        registry.wf(),
    ensures
        match r {
            Ok(v) => registry@.contains_key(id@) && *v == registry@[id@],
            Err(e) => !registry@.contains_key(id@) && e@ == "Session not found. Please connect first."@,
        },
{
    match registry.get(id) {
        Some(v) => Ok(v),
        None => Err("Session not found. Please connect first.".to_owned()),
    }
}

/// Removes the session under `id` from the registry and hands it back so
/// the caller can run its teardown plan. After a successful return the
/// registry no longer contains `id`.
pub fn disconnect_session<V>(registry: &mut StrMap<V>, id: &String) -> (r: Result<V, String>)
    requires
        old(registry).wf(),
    ensures
        final(registry).wf(),
        final(registry)@ == old(registry)@.remove(id@),
        !final(registry)@.contains_key(id@),
        match r {
            Ok(v) => old(registry)@.contains_key(id@) && v == old(registry)@[id@],
            Err(e) => !old(registry)@.contains_key(id@) && e@ == "Session not found"@,
        },
{
    match registry.remove(id) {
        Some(v) => Ok(v),
        None => Err("Session not found".to_owned()),
    }
}

/// The teardown steps for a session of the given kind, in the order they
/// must run: a remote session closes and waits on its interactive channel
/// before the connection is disconnected; a local session only releases
/// its owned resources.
pub fn teardown_steps(kind: SessionKind) -> (r: Vec<TeardownStep>)
    ensures
        kind == SessionKind::Remote ==> r@ =~= seq![
            TeardownStep::CloseChannel,
            TeardownStep::WaitClose,
            TeardownStep::DisconnectSession,
        ],
        kind == SessionKind::Local ==> r@ =~= seq![TeardownStep::ReleaseResources],
{
    let mut steps: Vec<TeardownStep> = Vec::new();
    match kind {
        SessionKind::Remote => {
            steps.push(TeardownStep::CloseChannel);
            steps.push(TeardownStep::WaitClose);
            steps.push(TeardownStep::DisconnectSession);
        },
        SessionKind::Local => {
            steps.push(TeardownStep::ReleaseResources);
        },
    }
    steps
}

} // verus!
