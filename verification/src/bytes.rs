use vstd::prelude::*;
use crate::error::DumpError;
use crate::protocol::{Action, Phase, Progress};
use crate::protocol::{action_in, after_chunk, after_chunks, after_read_error, failure, joined, start};
use crate::protocol::{conclude, law_run_to_end, next_action};

verus! {

/// What a buffer of `cap` bytes holds of `stream`: its first `cap` bytes,
/// and zero in every place that the stream did not reach.
pub open spec fn fixed_capture(stream: Seq<u8>, cap: nat) -> Seq<u8> {
    Seq::new(
        cap,
        |i: int|
            if i < stream.len() {
                stream[i]
            } else {
                0u8
            },
    )
}

/// How many bytes of `stream` a buffer of `cap` bytes holds.
pub open spec fn stored(stream: Seq<u8>, cap: nat) -> nat {
    if stream.len() <= cap {
        stream.len()
    } else {
        cap
    }
}

/// What a finished capture of `N` bytes owes its caller: the error that
/// `failure` names where there is one, else the buffer that `fixed_capture`
/// describes.
pub open spec fn bytes_result<const N: usize>(
    p: Progress,
    worker: Result<(), i32>,
    r: Result<[u8; N], DumpError>,
) -> bool {
    match failure(p.phase, worker) {
        Some(e) => r == Err::<[u8; N], DumpError>(e),
        None => r is Ok && r->Ok_0@ == fixed_capture(p.stream, N as nat),
    }
}

/// The reading side of a dump call that keeps the first `N` bytes of the
/// stream. It goes on reading after the buffer is full, so that the writer
/// is never blocked by a full pipe; what does not fit is dropped.
pub struct ByteCapture<const N: usize> {
    buf: [u8; N],
    filled: usize,
    phase: Phase,
    seen: Ghost<Seq<u8>>,
}

impl<const N: usize> View for ByteCapture<N> {
    type V = Progress;

    closed spec fn view(&self) -> Progress {
        Progress { stream: self.seen@, phase: self.phase }
    }
}

impl<const N: usize> ByteCapture<N> {
    #[verifier::type_invariant]
    spec fn inv(self) -> bool {
        &&& self.filled == stored(self.seen@, N as nat)
        &&& self.buf@ =~= fixed_capture(self.seen@, N as nat)
    }

    /// A capture that has read nothing yet.
    pub fn new() -> (c: Self)
        ensures
            c@ == start(),
    {
        ByteCapture { buf: [0u8; N], filled: 0, phase: Phase::Reading, seen: Ghost(Seq::empty()) }
    }

    /// The phase the reader is in.
    pub fn phase(&self) -> (p: Phase)
        ensures
            p == self@.phase,
    {
        self.phase
    }

    /// What the caller does next: read while the stream has not ended, also
    /// when the buffer is full; join the worker after that.
    pub fn next_action(&self) -> (action: Action)
        ensures
            action == action_in(self@.phase),
    {
        next_action(self.phase)
    }

    /// How many bytes of the stream are stored.
    pub fn len(&self) -> (n: usize)
        ensures
            n == stored(self@.stream, N as nat),
    {
        proof {
            use_type_invariant(self);
        }
        self.filled
    }

    /// The buffer as it stands: what was stored so far, then zeros.
    pub fn captured(&self) -> (buf: [u8; N])
        ensures
            buf@ == fixed_capture(self@.stream, N as nat),
    {
        proof {
            use_type_invariant(self);
        }
        self.buf
    }

    /// Takes what one read returned. An empty chunk ends the stream. Of any
    /// other chunk the bytes that still fit are stored and the rest is
    /// dropped. After the reader has stopped the call changes nothing.
    pub fn accept(&mut self, chunk: &[u8])
        ensures
            final(self)@ == after_chunk(old(self)@, chunk@),
    {
        proof {
            use_type_invariant(&*self);
        }
        match self.phase {
            Phase::Reading => {},
            _ => {
                return ;
            },
        }
        if chunk.len() == 0 {
            self.phase = Phase::Ended;
            return ;
        }
        let ghost before = self.seen@;
        let ghost stream = self.seen@ + chunk@;
        if self.filled == N {
            self.seen = Ghost(stream);
            return ;
        }
        let mut buf = self.buf;
        let mut filled: usize = self.filled;
        let mut i: usize = 0;
        while i < chunk.len() && filled < N
            invariant
                i <= chunk.len(),
                filled <= N,
                stream == before + chunk@,
                filled == stored(before, N as nat) + i,
                forall|j: int|
                    0 <= j < N ==> buf@[j] == if j < filled {
                        stream[j]
                    } else {
                        0u8
                    },
            decreases chunk.len() - i,
        {
            buf[filled] = chunk[i];
            filled = filled + 1;
            i = i + 1;
        }
        *self = ByteCapture { buf, filled, phase: Phase::Reading, seen: Ghost(stream) };
    }

    /// Records that a read failed. The reader stops; what was stored stays.
    pub fn read_failed(&mut self, errno: Option<i32>)
        ensures
            final(self)@ == after_read_error(old(self)@, errno),
    {
        proof {
            use_type_invariant(&*self);
        }
        match self.phase {
            Phase::Reading => {
                self.phase = Phase::Failed(errno);
            },
            _ => {},
        }
    }

    /// Ends the call with the worker's result: the buffer where neither the
    /// worker nor a read failed, else the error.
    pub fn finish(self, worker: Result<(), i32>) -> (r: Result<[u8; N], DumpError>)
        ensures
            bytes_result(self@, worker, r),
    {
        proof {
            use_type_invariant(&self);
        }
        conclude(self.phase, worker, self.buf)
    }
}

/// A stream of exactly as many bytes as the buffer holds is captured
/// unchanged.
pub proof fn law_exact_fit(stream: Seq<u8>)
    ensures
        fixed_capture(stream, stream.len()) == stream,
{
    assert(fixed_capture(stream, stream.len()) =~= stream);
}

/// A stream shorter than the buffer is captured whole, and zeros follow it.
pub proof fn law_short_stream_is_padded(stream: Seq<u8>, cap: nat)
    requires
        stream.len() < cap,
    ensures
        fixed_capture(stream, cap) == stream + Seq::new(
            (cap - stream.len()) as nat,
            |i: int| 0u8,
        ),
        stored(stream, cap) == stream.len(),
{
    assert(fixed_capture(stream, cap) =~= stream + Seq::new(
        (cap - stream.len()) as nat,
        |i: int| 0u8,
    ));
}

/// Of a stream longer than the buffer the first bytes are captured, as many
/// as the buffer holds.
pub proof fn law_long_stream_is_cut(stream: Seq<u8>, cap: nat)
    requires
        stream.len() > cap,
    ensures
        fixed_capture(stream, cap) == stream.subrange(0, cap as int),
        stored(stream, cap) == cap,
{
    assert(fixed_capture(stream, cap) =~= stream.subrange(0, cap as int));
}

/// A worker that wrote the joined `chunks` and reported success: the call
/// returns the stream itself where it is `N` bytes long, the stream with
/// zeros after it where it is shorter, and its first `N` bytes where it is
/// longer. The length of the stream alone is never a failure.
pub proof fn law_written_bytes_are_returned<const N: usize>(
    chunks: Seq<Seq<u8>>,
    r: Result<[u8; N], DumpError>,
)
    requires
        forall|i: int| 0 <= i < chunks.len() ==> (#[trigger] chunks[i]).len() > 0,
        bytes_result(after_chunk(after_chunks(start(), chunks), Seq::empty()), Ok(()), r),
    ensures
        r is Ok,
        r->Ok_0@ == fixed_capture(joined(chunks), N as nat),
        joined(chunks).len() == N ==> r->Ok_0@ == joined(chunks),
        joined(chunks).len() < N ==> r->Ok_0@ == joined(chunks) + Seq::new(
            (N - joined(chunks).len()) as nat,
            |i: int| 0u8,
        ),
        joined(chunks).len() > N ==> r->Ok_0@ == joined(chunks).subrange(0, N as int),
{
    law_run_to_end(chunks);
    let stream = joined(chunks);
    if stream.len() == N {
        law_exact_fit(stream);
    } else if stream.len() < N {
        law_short_stream_is_padded(stream, N as nat);
    } else {
        law_long_stream_is_cut(stream, N as nat);
    }
}

/// A worker that reported failure: the call returns that failure, whatever
/// was read and however the reading ended.
pub proof fn law_byte_worker_failure_is_returned<const N: usize>(
    p: Progress,
    status: i32,
    r: Result<[u8; N], DumpError>,
)
    requires
        bytes_result(p, Err(status), r),
    ensures
        r == Err::<[u8; N], DumpError>(DumpError::Status(status)),
{
}

/// A call's result is decided by what was read in that call and by what its
/// worker returned, and by nothing else: two calls that agree in both
/// return the same.
pub proof fn law_byte_calls_are_independent<const N: usize>(
    p: Progress,
    worker: Result<(), i32>,
    first: Result<[u8; N], DumpError>,
    second: Result<[u8; N], DumpError>,
)
    requires
        bytes_result(p, worker, first),
        bytes_result(p, worker, second),
    ensures
        first == second,
{
    if failure(p.phase, worker) is None {
        assert(first->Ok_0@ == second->Ok_0@);
        assert(first->Ok_0 =~= second->Ok_0);
    }
}

} // verus!
