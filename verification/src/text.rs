use vstd::prelude::*;
use vstd::utf8::{decode_utf8, encode_utf8, valid_utf8};
use crate::error::DumpError;
use crate::protocol::{Action, Phase, Progress};
use crate::protocol::{action_in, after_chunk, after_chunks, after_read_error, failure, joined, start};
use crate::protocol::{conclude, law_run_to_end, next_action};

verus! {

/// The text that lossy decoding makes of `bytes`: the text itself where the
/// bytes are UTF-8, else the text with a replacement character for each
/// part that cannot be decoded.
pub uninterp spec fn lossy_text(bytes: Seq<u8>) -> Seq<char>;

/// The text that a capture returns for `stream`. UTF-8 is decoded exactly;
/// anything else is decoded as far as it can be and never fails the call.
pub open spec fn text_of(stream: Seq<u8>) -> Seq<char> {
    if valid_utf8(stream) {
        decode_utf8(stream)
    } else {
        lossy_text(stream)
    }
}

/// What a finished capture owes its caller: the error that `failure` names
/// where there is one, else the text of the stream.
pub open spec fn text_result(p: Progress, worker: Result<(), i32>, r: Result<String, DumpError>) -> bool {
    match failure(p.phase, worker) {
        Some(e) => r == Err::<String, DumpError>(e),
        None => r is Ok && r->Ok_0@ == text_of(p.stream),
    }
}

/// Calls `String::from_utf8_lossy` and takes the result as an owned string.
/// Trusted: the result is a function of the bytes alone, and for bytes that
/// are UTF-8 it is the text they encode, with nothing replaced.
#[verifier::external_body]
fn decode_lossy(bytes: &[u8]) -> (text: String)
    ensures
        text@ == lossy_text(bytes@),
        valid_utf8(bytes@) ==> text@ == decode_utf8(bytes@),
{
    String::from_utf8_lossy(bytes).into_owned()
}

/// The reading side of a dump call that keeps the whole stream and returns
/// it as text.
pub struct TextCapture {
    bytes: Vec<u8>,
    phase: Phase,
}

impl View for TextCapture {
    type V = Progress;

    closed spec fn view(&self) -> Progress {
        Progress { stream: self.bytes@, phase: self.phase }
    }
}

impl TextCapture {
    /// A capture that has read nothing yet.
    pub fn new() -> (c: Self)
        ensures
            c@ == start(),
    {
        let c = TextCapture { bytes: Vec::new(), phase: Phase::Reading };
        assert(c@.stream =~= Seq::<u8>::empty());
        c
    }

    /// The phase the reader is in.
    pub fn phase(&self) -> (p: Phase)
        ensures
            p == self@.phase,
    {
        self.phase
    }

    /// What the caller does next: read while the stream has not ended, join
    /// the worker after that.
    pub fn next_action(&self) -> (action: Action)
        ensures
            action == action_in(self@.phase),
    {
        next_action(self.phase)
    }

    /// The bytes read so far. They stay readable after a failure, until the
    /// capture is finished.
    pub fn captured(&self) -> (bytes: &[u8])
        ensures
            bytes@ == self@.stream,
    {
        self.bytes.as_slice()
    }

    /// Takes what one read returned. An empty chunk ends the stream; any
    /// other chunk is appended. After the reader has stopped the call
    /// changes nothing.
    pub fn accept(&mut self, chunk: &[u8])
        ensures
            final(self)@ == after_chunk(old(self)@, chunk@),
    {
        match self.phase {
            Phase::Reading => {},
            _ => {
                return ;
            },
        }
        if chunk.len() == 0 {
            self.phase = Phase::Ended;
            return ;
        }
        self.bytes.extend_from_slice(chunk);
        assert(self.bytes@ =~= old(self).bytes@ + chunk@);
    }

    /// Records that a read failed. The reader stops; what was read stays.
    pub fn read_failed(&mut self, errno: Option<i32>)
        ensures
            final(self)@ == after_read_error(old(self)@, errno),
    {
        match self.phase {
            Phase::Reading => {
                self.phase = Phase::Failed(errno);
            },
            _ => {},
        }
    }

    /// Ends the call with the worker's result: the text of the stream where
    /// neither the worker nor a read failed, else the error. What was read
    /// before a failure is dropped with the capture.
    pub fn finish(self, worker: Result<(), i32>) -> (r: Result<String, DumpError>)
        ensures
            text_result(self@, worker, r),
    {
        match conclude(self.phase, worker, ()) {
            Err(e) => Err(e),
            Ok(_) => Ok(decode_lossy(self.bytes.as_slice())),
        }
    }
}

/// A stream that encodes a text in UTF-8 gives back that text, whatever its
/// length.
pub proof fn law_text_round_trip(text: Seq<char>)
    ensures
        text_of(encode_utf8(text)) == text,
{
    vstd::utf8::encode_utf8_valid_utf8(text);
    vstd::utf8::encode_utf8_decode_utf8(text);
}

/// A worker that wrote the UTF-8 of `text` and reported success: however
/// the reads cut the stream, the call returns exactly `text`.
pub proof fn law_written_text_is_returned(
    text: Seq<char>,
    chunks: Seq<Seq<u8>>,
    r: Result<String, DumpError>,
)
    requires
        forall|i: int| 0 <= i < chunks.len() ==> (#[trigger] chunks[i]).len() > 0,
        joined(chunks) == encode_utf8(text),
        text_result(after_chunk(after_chunks(start(), chunks), Seq::empty()), Ok(()), r),
    ensures
        r is Ok,
        r->Ok_0@ == text,
{
    law_run_to_end(chunks);
    law_text_round_trip(text);
}

/// A worker that reported failure: the call returns that failure, whatever
/// was read and however the reading ended.
pub proof fn law_text_worker_failure_is_returned(
    p: Progress,
    status: i32,
    r: Result<String, DumpError>,
)
    requires
        text_result(p, Err(status), r),
    ensures
        r == Err::<String, DumpError>(DumpError::Status(status)),
{
}

/// A call's result is decided by what was read in that call and by what its
/// worker returned, and by nothing else: two calls that agree in both
/// return the same text or the same error.
pub proof fn law_text_calls_are_independent(
    p: Progress,
    worker: Result<(), i32>,
    first: Result<String, DumpError>,
    second: Result<String, DumpError>,
)
    requires
        text_result(p, worker, first),
        text_result(p, worker, second),
    ensures
        first is Ok <==> second is Ok,
        first is Ok ==> first->Ok_0@ == second->Ok_0@,
        first is Err ==> first == second,
{
}

} // verus!
