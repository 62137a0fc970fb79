//! Decision logic of the OS-specific pseudo-console backend: the
//! peek-before-read protocol that keeps its reads non-blocking, the
//! classification of a completed read, and the fixed order in which its
//! raw handles are released on teardown. The raw-handle calls themselves
//! are platform code outside this library.

use vstd::prelude::*;

verus! {

/// What a read attempt does after peeking the output pipe.
#[derive(Clone, Copy, PartialEq, Eq, Structural, Debug)]
pub enum PeekDecision {
    /// No bytes are buffered: report would-block without reading, so an
    /// empty pipe can never block the caller.
    WouldBlock,
    /// Bytes are buffered: a read may proceed.
    ReadAvailable,
}

/// Decides whether a read may proceed, from the byte count the peek of
/// the output pipe reported.
pub fn peek_read_decision(bytes_available: u32) -> (r: PeekDecision)
    ensures
        r == PeekDecision::WouldBlock <==> bytes_available == 0,
{
    if bytes_available == 0 {
        PeekDecision::WouldBlock
    } else {
        PeekDecision::ReadAvailable
    }
}

/// Classifies a completed read: a successful call yields its count, and
/// a failed call that still transferred bytes yields that count rather
/// than discarding data; only a failure with nothing read is an error.
pub fn completed_read(succeeded: bool, bytes_read: u32) -> (r: Option<usize>)
    ensures
        succeeded || bytes_read > 0 ==> r == Some(bytes_read as usize),
        !succeeded && bytes_read == 0 ==> r is None,
{
    if succeeded {
        Some(bytes_read as usize)
    } else if bytes_read > 0 {
        Some(bytes_read as usize)
    } else {
        None
    }
}

/// The raw handles the backend owns.
#[derive(Clone, Copy, PartialEq, Eq, Structural, Debug)]
pub enum ConsoleHandle {
    /// The pseudo-console itself.
    Console,
    /// The write end of the input pipe.
    InputWrite,
    /// The read end of the output pipe.
    OutputRead,
    /// The spawned shell process.
    Process,
}

/// The order in which the backend's handles are closed on teardown:
/// console first, then the input-write and output-read pipe ends, then
/// the process handle. Each close is best-effort; a failed close must
/// not prevent the later ones.
pub fn console_teardown_order() -> (r: Vec<ConsoleHandle>)
    ensures
        r@ =~= seq![
            ConsoleHandle::Console,
            ConsoleHandle::InputWrite,
            ConsoleHandle::OutputRead,
            ConsoleHandle::Process,
        ],
{
    let mut order: Vec<ConsoleHandle> = Vec::new();
    order.push(ConsoleHandle::Console);
    order.push(ConsoleHandle::InputWrite);
    order.push(ConsoleHandle::OutputRead);
    order.push(ConsoleHandle::Process);
    order
}

} // verus!
