//! The decoder of a streamed chat completion: from the chunks that the
//! transport delivers to the events that they carry.

use vstd::prelude::*;
use vstd::utf8::{decode_utf8, valid_utf8};
use crate::document::{parse_document, parsed_json};
use crate::error::OpenAiClientError;
use crate::text::{same_text, strip_prefix, utf8_text};

verus! {

/// One event of a streamed completion: the JSON document of one frame,
/// handed on as it was parsed. Which members the document has is for the
/// caller to read.
#[derive(Debug)]
pub struct ResponseStreamEvent {
    pub document: serde_json::Value,
}

/// What the transport hands over: the bytes of one line, or its failure.
pub type Chunk = Result<Vec<u8>, reqwest::Error>;

/// What the decoder hands on: an event, or the error that stands in its
/// place.
pub type StreamItem = Result<ResponseStreamEvent, OpenAiClientError>;

/// What a delivered line is, going by its bytes alone.
pub enum Frame {
    /// Not UTF-8, or without the data prefix: a keep-alive or a comment.
    Ignored,
    /// The sentinel that ends the stream.
    Done,
    /// A data line, with what follows the prefix.
    Data(Seq<char>),
}

/// What the decoder does with one chunk.
#[derive(Debug)]
pub enum Step {
    /// The chunk carries nothing; the stream goes on.
    Skip,
    /// The chunk carries one item; the stream goes on.
    Emit(StreamItem),
    /// The chunk is the sentinel; the stream is over.
    Finish,
}

/// The prefix of every line that carries data.
pub open spec fn data_prefix() -> Seq<char> {
    "data: "@
}

/// The payload that ends the stream.
pub open spec fn done_sentinel() -> Seq<char> {
    "[DONE]"@
}

/// Classifies the bytes of one line.
pub open spec fn frame_of(bytes: Seq<u8>) -> Frame {
    if !valid_utf8(bytes) {
        Frame::Ignored
    } else if !data_prefix().is_prefix_of(decode_utf8(bytes)) {
        Frame::Ignored
    } else {
        let payload = decode_utf8(bytes).skip(data_prefix().len() as int);
        if payload == done_sentinel() {
            Frame::Done
        } else {
            Frame::Data(payload)
        }
    }
}

/// The item that a parsed payload becomes: the event when the payload was a
/// JSON document, a parse error when it was not.
pub open spec fn item_of(parsed: Result<serde_json::Value, serde_json::Error>) -> StreamItem {
    match parsed {
        Ok(document) => Ok(ResponseStreamEvent { document }),
        Err(error) => Err(OpenAiClientError::ParseResponseFailed(error)),
    }
}

/// The item that the payload of a data line becomes.
pub open spec fn item_of_payload(payload: Seq<char>) -> StreamItem {
    item_of(parsed_json(payload))
}

/// The step that a chunk calls for.
pub open spec fn step_of(chunk: Chunk) -> Step {
    match chunk {
        Err(error) => Step::Emit(Err(OpenAiClientError::SendRequestFailed(error))),
        Ok(bytes) => match frame_of(bytes@) {
            Frame::Ignored => Step::Skip,
            Frame::Done => Step::Finish,
            Frame::Data(payload) => Step::Emit(item_of_payload(payload)),
        },
    }
}

/// The items that a run of chunks decodes to: those of the steps up to the
/// first sentinel, in the order of arrival. Nothing after the sentinel is
/// looked at.
pub open spec fn decoded(chunks: Seq<Chunk>) -> Seq<StreamItem>
    decreases chunks.len(),
{
    if chunks.len() == 0 {
        Seq::empty()
    } else {
        match step_of(chunks[0]) {
            Step::Finish => Seq::empty(),
            Step::Skip => decoded(chunks.skip(1)),
            Step::Emit(item) => seq![item] + decoded(chunks.skip(1)),
        }
    }
}

/// Turns the outcome of parsing a payload into the item of its frame.
pub fn item_of_parsed(parsed: Result<serde_json::Value, serde_json::Error>) -> (item: StreamItem)
    ensures
        item == item_of(parsed),
{
    match parsed {
        Ok(document) => Ok(ResponseStreamEvent { document }),
        Err(error) => Err(OpenAiClientError::ParseResponseFailed(error)),
    }
}

/// Decodes one chunk on its own.
pub fn decode_chunk(chunk: Chunk) -> (step: Step)
    ensures
        step == step_of(chunk),
{
    match chunk {
        Err(error) => Step::Emit(Err(OpenAiClientError::SendRequestFailed(error))),
        Ok(bytes) => {
            match utf8_text(bytes.as_slice()) {
                None => Step::Skip,
                Some(line) => match strip_prefix(line, "data: ") {
                    None => Step::Skip,
                    Some(payload) => {
                        if same_text(payload, "[DONE]") {
                            Step::Finish
                        } else {
                            Step::Emit(item_of_parsed(parse_document(payload)))
                        }
                    },
                },
            }
        },
    }
}

/// The decoder of one response: it is fed the chunks one by one, in the
/// order of arrival, and says for each what it yields. Once it has seen the
/// sentinel it is finished for good.
pub struct StreamDecoder {
    finished: bool,
}

impl StreamDecoder {
    /// Whether the sentinel has been seen.
    pub closed spec fn finished(&self) -> bool {
        self.finished
    }

    /// A decoder at the start of a stream.
    pub fn new() -> (decoder: StreamDecoder)
        ensures
            !decoder.finished(),
    {
        StreamDecoder { finished: false }
    }

    /// Whether the stream is over: no chunk will yield anything any more.
    pub fn is_finished(&self) -> (finished: bool)
        ensures
            finished == self.finished(),
    {
        self.finished
    }

    /// Takes the next chunk and returns the item that it yields, if it
    /// yields one. A finished decoder drops the chunk unread.
    pub fn feed(&mut self, chunk: Chunk) -> (item: Option<StreamItem>)
        ensures
            old(self).finished() ==> final(self).finished() && item is None,
            !old(self).finished() ==> match step_of(chunk) {
                Step::Skip => !final(self).finished() && item is None,
                Step::Emit(emitted) => !final(self).finished() && item == Some(emitted),
                Step::Finish => final(self).finished() && item is None,
            },
    {
        if self.finished {
            return None;
        }
        match decode_chunk(chunk) {
            Step::Skip => None,
            Step::Emit(emitted) => Some(emitted),
            Step::Finish => {
                self.finished = true;
                None
            },
        }
    }
}

/// Decodes a whole run of chunks at once.
pub fn decode_stream(chunks: Vec<Chunk>) -> (items: Vec<StreamItem>)
    ensures
        items@ == decoded(chunks@),
{
    let ghost all = chunks@;
    let mut decoder = StreamDecoder::new();
    let mut items: Vec<StreamItem> = Vec::new();
    proof {
        assert(all.skip(0) =~= all);
        assert(items@ + decoded(all) =~= decoded(all));
    }
    for chunk in it: chunks
        invariant
            it.seq() == all,
            decoder.finished() ==> decoded(all) == items@,
            !decoder.finished() ==> decoded(all) == items@ + decoded(all.skip(it.index() as int)),
    {
        proof {
            let rest = all.skip(it.index() as int);
            assert(rest[0] == chunk);
            assert(rest.skip(1) == all.skip(it.index() + 1));
        }
        match decoder.feed(chunk) {
            Some(item) => {
                items.push(item);
            },
            None => {},
        }
    }
    items
}

/// Whether a chunk is a data line: delivered, UTF-8, with the data prefix,
/// and not the sentinel.
pub open spec fn is_data(chunk: Chunk) -> bool {
    chunk matches Ok(bytes) && frame_of(bytes@) is Data
}

/// Whether a chunk is the sentinel line.
pub open spec fn is_done(chunk: Chunk) -> bool {
    chunk matches Ok(bytes) && frame_of(bytes@) is Done
}

/// What follows the data prefix in a data line.
pub open spec fn payload_of(chunk: Chunk) -> Seq<char>
    recommends
        is_data(chunk),
{
    frame_of(chunk->Ok_0@)->Data_0
}

/// Data lines followed by the sentinel decode to one item per line, in the
/// order of the lines, and to nothing more, whatever comes after the
/// sentinel.
pub proof fn lemma_frames_then_done(chunks: Seq<Chunk>, count: int)
    requires
        0 <= count < chunks.len(),
        forall|i: int| 0 <= i < count ==> is_data(#[trigger] chunks[i]),
        is_done(chunks[count]),
    ensures
        decoded(chunks).len() == count,
        forall|i: int|
            0 <= i < count ==> #[trigger] decoded(chunks)[i] == item_of_payload(
                payload_of(chunks[i]),
            ),
    decreases count,
{
    if count > 0 {
        let rest = chunks.skip(1);
        assert(is_data(chunks[0]));
        assert forall|i: int| 0 <= i < count - 1 implies is_data(#[trigger] rest[i]) by {
            assert(rest[i] == chunks[i + 1]);
        }
        assert(rest[count - 1] == chunks[count]);
        lemma_frames_then_done(rest, count - 1);
        let first = item_of_payload(payload_of(chunks[0]));
        assert(decoded(chunks) == seq![first] + decoded(rest));
        assert forall|i: int| 0 <= i < count implies #[trigger] decoded(chunks)[i]
            == item_of_payload(payload_of(chunks[i])) by {
            if i > 0 {
                assert(decoded(chunks)[i] == decoded(rest)[i - 1]);
                assert(rest[i - 1] == chunks[i]);
            }
        }
    }
}

/// Valid frames followed by the sentinel: as many events as frames, each
/// the document of its own frame, in frame order, and then the end.
pub proof fn lemma_valid_frames_decode_in_order(chunks: Seq<Chunk>, count: int)
    requires
        0 <= count < chunks.len(),
        forall|i: int|
            0 <= i < count ==> is_data(#[trigger] chunks[i]) && parsed_json(
                payload_of(chunks[i]),
            ) is Ok,
        is_done(chunks[count]),
    ensures
        decoded(chunks).len() == count,
        forall|i: int|
            0 <= i < count ==> #[trigger] decoded(chunks)[i] == Ok::<
                ResponseStreamEvent,
                OpenAiClientError,
            >(ResponseStreamEvent { document: parsed_json(payload_of(chunks[i]))->Ok_0 }),
{
    lemma_frames_then_done(chunks, count);
}

/// A frame whose payload does not parse yields a parse error at its own
/// position; the frames before and after it yield what they yield without
/// it, and none is lost.
pub proof fn lemma_malformed_frame_keeps_its_place(chunks: Seq<Chunk>, count: int, bad: int)
    requires
        0 <= bad < count < chunks.len(),
        forall|i: int| 0 <= i < count ==> is_data(#[trigger] chunks[i]),
        is_done(chunks[count]),
        parsed_json(payload_of(chunks[bad])) is Err,
    ensures
        decoded(chunks).len() == count,
        decoded(chunks)[bad] == Err::<ResponseStreamEvent, OpenAiClientError>(
            OpenAiClientError::ParseResponseFailed(parsed_json(payload_of(chunks[bad]))->Err_0),
        ),
        forall|i: int|
            0 <= i < count && parsed_json(payload_of(chunks[i])) is Ok
                ==> #[trigger] decoded(chunks)[i] == Ok::<ResponseStreamEvent, OpenAiClientError>(
                ResponseStreamEvent { document: parsed_json(payload_of(chunks[i]))->Ok_0 },
            ),
{
    lemma_frames_then_done(chunks, count);
}

/// Whether none of the chunks is the sentinel line.
pub open spec fn has_no_sentinel(chunks: Seq<Chunk>) -> bool {
    forall|i: int| 0 <= i < chunks.len() ==> !is_done(#[trigger] chunks[i])
}

/// A chunk yields at most one item: there are never more items than
/// chunks.
pub proof fn lemma_at_most_one_item_per_chunk(chunks: Seq<Chunk>)
    ensures
        decoded(chunks).len() <= chunks.len(),
    decreases chunks.len(),
{
    if chunks.len() > 0 {
        lemma_at_most_one_item_per_chunk(chunks.skip(1));
    }
}

/// Decoding goes forward only: while no sentinel has come, what has been
/// decoded stays as it is and the items of later chunks are added behind
/// it.
pub proof fn lemma_later_chunks_add_behind(chunks: Seq<Chunk>, later: Seq<Chunk>)
    requires
        has_no_sentinel(chunks),
    ensures
        decoded(chunks + later) == decoded(chunks) + decoded(later),
    decreases chunks.len(),
{
    if chunks.len() == 0 {
        assert(chunks + later =~= later);
        assert(decoded(chunks) + decoded(later) =~= decoded(later));
    } else {
        let all = chunks + later;
        assert(all[0] == chunks[0]);
        assert(all.skip(1) =~= chunks.skip(1) + later);
        assert(!is_done(chunks[0]));
        assert forall|i: int| 0 <= i < chunks.skip(1).len() implies !is_done(
            #[trigger] chunks.skip(1)[i],
        ) by {
            assert(chunks.skip(1)[i] == chunks[i + 1]);
        }
        lemma_later_chunks_add_behind(chunks.skip(1), later);
        assert(decoded(all) =~= decoded(chunks) + decoded(later));
    }
}

/// Once the sentinel has come, nothing that follows changes what was
/// decoded.
pub proof fn lemma_nothing_after_the_sentinel(chunks: Seq<Chunk>, later: Seq<Chunk>)
    requires
        !has_no_sentinel(chunks),
    ensures
        decoded(chunks + later) == decoded(chunks),
    decreases chunks.len(),
{
    let all = chunks + later;
    let at = choose|i: int| 0 <= i < chunks.len() && is_done(#[trigger] chunks[i]);
    assert(chunks.len() > 0);
    assert(all[0] == chunks[0]);
    if !is_done(chunks[0]) {
        assert(at > 0);
        assert(chunks.skip(1)[at - 1] == chunks[at]);
        assert(all.skip(1) =~= chunks.skip(1) + later);
        lemma_nothing_after_the_sentinel(chunks.skip(1), later);
    }
}

/// A chunk that the transport failed to deliver yields one send error and
/// leaves the rest of the stream as it is.
pub proof fn lemma_transport_failure_is_one_item(chunks: Seq<Chunk>)
    requires
        chunks.len() > 0,
        chunks[0] is Err,
    ensures
        decoded(chunks) == seq![
            Err::<ResponseStreamEvent, OpenAiClientError>(
                OpenAiClientError::SendRequestFailed(chunks[0]->Err_0),
            ),
        ] + decoded(chunks.skip(1)),
{
}

/// A line that is not UTF-8, or that lacks the data prefix, yields nothing
/// and leaves the rest of the stream as it is.
pub proof fn lemma_ignored_line_yields_nothing(chunks: Seq<Chunk>)
    requires
        chunks.len() > 0,
        chunks[0] matches Ok(bytes) && frame_of(bytes@) is Ignored,
    ensures
        decoded(chunks) == decoded(chunks.skip(1)),
{
}

} // verus!
