use vstd::prelude::*;
use crate::error::DumpError;

verus! {

/// Where the reading side of a dump call stands.
#[derive(Debug, Clone, Copy, PartialEq, Eq)]
pub enum Phase {
    /// The stream has not ended: the reader goes on reading.
    Reading,
    /// A read of length zero was seen: the write end is closed.
    Ended,
    /// A read failed, with this error number where the system gave one.
    Failed(Option<i32>),
}

/// What the caller does next.
#[derive(Debug, Clone, Copy, PartialEq, Eq)]
pub enum Action {
    /// Read once more from the pipe and hand over what came.
    Read,
    /// Stop reading, wait for the worker and hand over its result.
    Join,
}

/// The mathematical state of a capture: every byte that was handed over
/// while it was reading, in order, and the phase.
pub struct Progress {
    pub stream: Seq<u8>,
    pub phase: Phase,
}

/// The state before anything was read.
pub open spec fn start() -> Progress {
    Progress { stream: Seq::empty(), phase: Phase::Reading }
}

/// The state after a read that returned `chunk`. An empty chunk ends the
/// stream; once the reader has stopped, nothing changes any more.
pub open spec fn after_chunk(p: Progress, chunk: Seq<u8>) -> Progress {
    if !(p.phase is Reading) {
        p
    } else if chunk.len() == 0 {
        Progress { stream: p.stream, phase: Phase::Ended }
    } else {
        Progress { stream: p.stream + chunk, phase: Phase::Reading }
    }
}

/// The state after a read that failed with `errno`.
pub open spec fn after_read_error(p: Progress, errno: Option<i32>) -> Progress {
    if p.phase is Reading {
        Progress { stream: p.stream, phase: Phase::Failed(errno) }
    } else {
        p
    }
}

/// The chunks joined in the order in which they were read.
pub open spec fn joined(chunks: Seq<Seq<u8>>) -> Seq<u8>
    decreases chunks.len(),
{
    if chunks.len() == 0 {
        Seq::empty()
    } else {
        joined(chunks.drop_last()) + chunks.last()
    }
}

/// The state after reads that returned `chunks`, one after the other.
pub open spec fn after_chunks(p: Progress, chunks: Seq<Seq<u8>>) -> Progress
    decreases chunks.len(),
{
    if chunks.len() == 0 {
        p
    } else {
        after_chunk(after_chunks(p, chunks.drop_last()), chunks.last())
    }
}

/// What the caller does in a given phase.
pub open spec fn action_in(phase: Phase) -> Action {
    if phase is Reading {
        Action::Read
    } else {
        Action::Join
    }
}

/// The error with which a call ends, if it ends with one. A failure that
/// the worker reports is decisive, whatever was read; a failed read is
/// reported where the worker succeeded.
pub open spec fn failure(phase: Phase, worker: Result<(), i32>) -> Option<DumpError> {
    match worker {
        Err(status) => Some(DumpError::Status(status)),
        Ok(_) => match phase {
            Phase::Failed(errno) => Some(DumpError::Io(errno)),
            _ => None,
        },
    }
}

/// What a call returns when the reader stopped in `phase`, the worker
/// returned `worker` and `data` was captured.
pub open spec fn outcome<T>(phase: Phase, worker: Result<(), i32>, data: T) -> Result<T, DumpError> {
    match failure(phase, worker) {
        Some(e) => Err(e),
        None => Ok(data),
    }
}

/// The action that belongs to `phase`.
pub fn next_action(phase: Phase) -> (action: Action)
    ensures
        action == action_in(phase),
{
    match phase {
        Phase::Reading => Action::Read,
        _ => Action::Join,
    }
}

/// Ends a call: returns the captured `data` where neither the worker nor the
/// reader failed, else the error that `failure` names.
pub fn conclude<T>(phase: Phase, worker: Result<(), i32>, data: T) -> (r: Result<T, DumpError>)
    ensures
        r == outcome(phase, worker, data),
{
    match worker {
        Err(status) => Err(DumpError::Status(status)),
        Ok(_) => match phase {
            Phase::Failed(errno) => Err(DumpError::Io(errno)),
            _ => Ok(data),
        },
    }
}

/// A failure of the worker decides the call: whatever was read, and whether
/// or not a read failed, the call returns the worker's status as its error.
pub proof fn law_worker_failure_decides<T>(phase: Phase, status: i32, data: T)
    ensures
        outcome(phase, Err(status), data) == Err::<T, DumpError>(DumpError::Status(status)),
{
}

/// A call returns data exactly when the worker succeeded and no read failed.
pub proof fn law_success_iff_nothing_failed<T>(phase: Phase, worker: Result<(), i32>, data: T)
    ensures
        outcome(phase, worker, data) is Ok <==> worker is Ok && !(phase is Failed),
        outcome(phase, worker, data) is Ok ==> outcome(phase, worker, data)->Ok_0 == data,
{
}

/// Two reads that return data leave the state that one read of both chunks
/// together would leave.
pub proof fn law_chunking_is_invisible(p: Progress, a: Seq<u8>, b: Seq<u8>)
    requires
        a.len() > 0,
        b.len() > 0,
    ensures
        after_chunk(after_chunk(p, a), b) == after_chunk(p, a + b),
{
    if p.phase is Reading {
        assert((p.stream + a) + b =~= p.stream + (a + b));
    }
}

/// While every read returns data the reader goes on, and the stream is the
/// chunks joined in order: where the reads cut the stream does not show.
pub proof fn law_stream_is_chunks_joined(p: Progress, chunks: Seq<Seq<u8>>)
    requires
        p.phase is Reading,
        forall|i: int| 0 <= i < chunks.len() ==> (#[trigger] chunks[i]).len() > 0,
    ensures
        after_chunks(p, chunks) == (Progress {
            stream: p.stream + joined(chunks),
            phase: Phase::Reading,
        }),
    decreases chunks.len(),
{
    if chunks.len() == 0 {
        assert(p.stream + joined(chunks) =~= p.stream);
    } else {
        let front = chunks.drop_last();
        assert forall|i: int| 0 <= i < front.len() implies (#[trigger] front[i]).len() > 0 by {
            assert(front[i] == chunks[i]);
        }
        law_stream_is_chunks_joined(p, front);
        assert(chunks.last() == chunks[chunks.len() - 1]);
        assert((p.stream + joined(front)) + chunks.last() =~= p.stream + joined(chunks));
    }
}

/// A whole run: reads that return data, then the read of length zero that
/// ends the stream. The reader stops with the joined chunks as its stream,
/// and the caller joins the worker.
pub proof fn law_run_to_end(chunks: Seq<Seq<u8>>)
    requires
        forall|i: int| 0 <= i < chunks.len() ==> (#[trigger] chunks[i]).len() > 0,
    ensures
        after_chunk(after_chunks(start(), chunks), Seq::empty()) == (Progress {
            stream: joined(chunks),
            phase: Phase::Ended,
        }),
        action_in(after_chunk(after_chunks(start(), chunks), Seq::empty()).phase) == Action::Join,
{
    law_stream_is_chunks_joined(start(), chunks);
    assert(Seq::<u8>::empty() + joined(chunks) =~= joined(chunks));
}

/// Once the reader has stopped, further chunks and read errors change
/// nothing.
pub proof fn law_stopped_is_final(p: Progress, chunk: Seq<u8>, errno: Option<i32>)
    requires
        !(p.phase is Reading),
    ensures
        after_chunk(p, chunk) == p,
        after_read_error(p, errno) == p,
        action_in(p.phase) == Action::Join,
{
}

} // verus!
