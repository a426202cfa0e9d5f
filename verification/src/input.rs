//! The in-memory batching container that moves decoded records between the
//! pipeline stages, and the reader stage's control decisions.

use vstd::prelude::*;

pub mod data_wrapper;

verus! {

/// What one attempt to fill a chunk produced, as the reader thread sees it.
#[derive(Clone, Copy, Debug, PartialEq, Eq, Structural)]
pub enum ChunkOutcome {
    /// A chunk of exactly the target size.
    Full,
    /// A non-empty chunk smaller than the target: the input is draining.
    Partial,
    /// The clean end of the input before any triple.
    EndOfInput,
    /// Any other read failure.
    ReadError,
}

/// What the reader thread does next.
#[derive(Clone, Copy, Debug, PartialEq, Eq, Structural)]
pub enum ReaderAction {
    /// Hand the chunk on and read the next one.
    Send,
    /// Hand the chunk on, then stop: it was the last one.
    SendAndStop,
    /// Stop without sending anything.
    Stop,
}

/// The decision the reader takes after one chunk attempt: a pure function of
/// the shutdown flag and the attempt's outcome.
pub open spec fn spec_reader_step(stop_requested: bool, outcome: ChunkOutcome) -> ReaderAction {
    if stop_requested {
        ReaderAction::Stop
    } else {
        match outcome {
            ChunkOutcome::Full => ReaderAction::Send,
            ChunkOutcome::Partial => ReaderAction::SendAndStop,
            ChunkOutcome::EndOfInput => ReaderAction::Stop,
            ChunkOutcome::ReadError => ReaderAction::Stop,
        }
    }
}

/// Decide the reader's next step. A full chunk keeps the loop going; a
/// partial chunk is still sent but ends the loop, since it signals that the
/// input is draining; the end of the input, a read error and a requested
/// shutdown all end the loop at once.
pub fn reader_step(stop_requested: bool, outcome: ChunkOutcome) -> (r: ReaderAction)
    ensures
        r == spec_reader_step(stop_requested, outcome),
{
    if stop_requested {
        ReaderAction::Stop
    } else {
        match outcome {
            ChunkOutcome::Full => ReaderAction::Send,
            ChunkOutcome::Partial => ReaderAction::SendAndStop,
            ChunkOutcome::EndOfInput => ReaderAction::Stop,
            ChunkOutcome::ReadError => ReaderAction::Stop,
        }
    }
}

} // verus!
