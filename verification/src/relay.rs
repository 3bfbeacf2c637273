//! What the thread that reads the shell's output does with each read.

use vstd::prelude::*;
use vstd::slice::slice_subrange;

verus! {

/// How many bytes are read at once.
pub const READ_BUFFER: usize = 4096;

/// How long the reader waits after a failed read, in milliseconds.
pub const RETRY_DELAY_MS: u64 = 5;

/// How a read from the pseudo-terminal ended.
#[derive(Clone, Copy, Debug, PartialEq, Eq)]
pub enum ReadOutcome {
    /// So many bytes were read; none means that the other side is closed.
    Read(usize),
    /// The read failed, for now.
    Failed,
}

/// What the reader does next.
#[derive(Clone, Copy, Debug, PartialEq, Eq)]
pub enum RelayStep {
    /// Forward the first so many bytes of the buffer as one chunk.
    Forward(usize),
    /// Wait `RETRY_DELAY_MS`, then read again.
    Retry,
    /// End the thread.
    Stop,
}

/// What follows a read: bytes are forwarded, the end of the stream ends
/// the reader, and a failure is retried however often it occurs.
pub open spec fn next_step(outcome: ReadOutcome) -> RelayStep {
    match outcome {
        ReadOutcome::Read(n) => if n == 0 {
            RelayStep::Stop
        } else {
            RelayStep::Forward(n)
        },
        ReadOutcome::Failed => RelayStep::Retry,
    }
}

/// Decides what follows a read.
pub fn relay_step(outcome: ReadOutcome) -> (step: RelayStep)
    ensures
        step == next_step(outcome),
{
    match outcome {
        ReadOutcome::Read(0) => RelayStep::Stop,
        ReadOutcome::Read(n) => RelayStep::Forward(n),
        ReadOutcome::Failed => RelayStep::Retry,
    }
}

/// The chunk to forward: the first `n` bytes of the buffer.
pub fn chunk(buffer: &[u8], n: usize) -> (bytes: Vec<u8>)
    requires
        n <= buffer@.len(),
    ensures
        bytes@ == buffer@.take(n as int),
{
    let mut bytes: Vec<u8> = Vec::new();
    bytes.extend_from_slice(slice_subrange(buffer, 0, n));
    assert(bytes@ =~= buffer@.take(n as int));
    bytes
}

} // verus!
