//! The decoder of the provider's server-push event stream. A session takes
//! one raw frame at a time and yields at most one event for it. Between
//! frames it keeps the finish reason seen so far and, for each position in
//! the assistant's list of tool calls, the pieces of that call gathered so
//! far.
//!
//! A data frame is decoded in two steps, with the reading of the payload
//! into a chunk between them: `accept_frame` tells what a frame is and hands
//! out the payload of a data frame; `decode_chunk` takes the chunk that the
//! payload was read into.

use crate::client;
use crate::codec::{diagnose_json, json_diagnosis};
use crate::conversions::{convert_finish_reason, convert_usage, finish_reason_of, usage_of};
use crate::llm;
use crate::llm::{Error, ErrorCode, ErrorView, FinishReason, StreamEvent, StreamEventView};
use crate::text::{decimal, same_text, starts_with, u64_to_decimal};
use crate::views::{opt_view, opt_views, views};
use std::collections::HashMap;
use vstd::prelude::*;

verus! {

broadcast use vstd::std_specs::hash::group_hash_axioms;

/// The pieces of one tool call gathered so far. The id is that of the first
/// piece for the position that carried one, and so is the name; once set,
/// neither changes. Only `json` grows.
#[derive(Debug)]
pub struct JsonFragment {
    pub id: String,
    pub name: String,
    pub json: String,
}

/// The view of a `JsonFragment`.
pub struct JsonFragmentView {
    pub id: Seq<char>,
    pub name: Seq<char>,
    pub json: Seq<char>,
}

impl View for JsonFragment {
    type V = JsonFragmentView;

    open spec fn view(&self) -> JsonFragmentView {
        JsonFragmentView { id: self.id@, name: self.name@, json: self.json@ }
    }
}

/// The fragment table: the fragment gathered at each position.
pub type Fragments = Map<u32, JsonFragmentView>;

/// The state of one streaming session: open until it is finished, and
/// frozen from then on.
#[derive(Debug)]
pub struct OpenAIChatStream {
    failure: Option<Error>,
    finished: bool,
    finish_reason: Option<FinishReason>,
    json_fragments: HashMap<u32, JsonFragment>,
}

/// The view of a session.
pub struct StreamView {
    /// The failure that kept the stream from starting, if any.
    pub failure: Option<ErrorView>,
    /// Set once: by the frame that ends the stream, by the end of the
    /// transport, or by an error. Never reset.
    pub finished: bool,
    /// The latest finish reason that a chunk carried.
    pub finish_reason: Option<FinishReason>,
    pub fragments: Fragments,
}

/// The model of a table of fragments.
pub open spec fn fragments_view(m: Map<u32, JsonFragment>) -> Fragments {
    Map::new(|k: u32| m.contains_key(k), |k: u32| m[k]@)
}

impl View for OpenAIChatStream {
    type V = StreamView;

    closed spec fn view(&self) -> StreamView {
        StreamView {
            failure: opt_view(self.failure),
            finished: self.finished,
            finish_reason: self.finish_reason,
            fragments: fragments_view(self.json_fragments@),
        }
    }
}

/// The marker that every data frame begins with.
pub open spec fn data_marker() -> Seq<char> {
    "data: "@
}

/// The frame that ends the stream: the data marker and the literal payload
/// `[DONE]`, and nothing more.
pub open spec fn end_marker() -> Seq<char> {
    "data: [DONE]"@
}

/// What a raw frame is.
pub enum FrameKind {
    /// The sentinel that ends the stream.
    End,
    /// A frame that carries a chunk.
    Data,
    /// Anything else: a keep-alive, a comment.
    Control,
}

/// The frame that ends the stream is that one text and no other. Every
/// other frame that begins with the data marker is a data frame, whatever
/// its payload; any frame that does not is a control frame.
pub open spec fn frame_kind(raw: Seq<char>) -> FrameKind {
    if raw == end_marker() {
        FrameKind::End
    } else if data_marker().is_prefix_of(raw) {
        FrameKind::Data
    } else {
        FrameKind::Control
    }
}

/// What follows the marker in a data frame.
pub open spec fn payload_of(raw: Seq<char>) -> Seq<char> {
    raw.skip(data_marker().len() as int)
}

/// The message of the failure to read a payload as JSON.
pub open spec fn parse_failure(diagnostic: Seq<char>) -> Seq<char> {
    "Failed to parse stream event JSON: "@ + diagnostic
}

/// The message of the failure to read a JSON payload as a chunk.
pub open spec fn chunk_failure(diagnostic: Seq<char>) -> Seq<char> {
    "Failed to deserialize stream event: "@ + diagnostic
}

/// The state after a raw frame: the end of the stream finishes the session,
/// and no other frame changes anything by itself.
pub open spec fn frame_state(s: StreamView, raw: Seq<char>) -> StreamView {
    if !s.finished && frame_kind(raw) is End {
        StreamView { finished: true, ..s }
    } else {
        s
    }
}

/// What a raw frame asks for: nothing, the decoding of its payload, or the
/// report of a payload that is no JSON.
pub open spec fn frame_outcome(s: StreamView, raw: Seq<char>) -> Result<
    Option<Seq<char>>,
    Seq<char>,
> {
    if s.finished || !(frame_kind(raw) is Data) {
        Ok(None)
    } else {
        match json_diagnosis(payload_of(raw)) {
            None => Ok(Some(payload_of(raw))),
            Some(diagnostic) => Err(parse_failure(diagnostic)),
        }
    }
}

/// The position that a piece of a tool call belongs to: 0 where it names
/// none.
pub open spec fn slot(call: client::ToolCallView) -> u32 {
    match call {
        client::ToolCallView::Function { function, id, index } => match index {
            Some(i) => i,
            None => 0,
        },
    }
}

/// The fragment at a position of which no piece was seen yet.
pub open spec fn blank_fragment() -> JsonFragmentView {
    JsonFragmentView { id: Seq::empty(), name: Seq::empty(), json: Seq::empty() }
}

/// The id that a piece carries; empty where it withholds it.
pub open spec fn id_of(call: client::ToolCallView) -> Seq<char> {
    match call {
        client::ToolCallView::Function { function, id, index } => id,
    }
}

/// The name that a piece carries; empty where it withholds it.
pub open spec fn name_of(call: client::ToolCallView) -> Seq<char> {
    match call {
        client::ToolCallView::Function { function, id, index } => function.name,
    }
}

/// The argument text that a piece carries.
pub open spec fn arguments_of(call: client::ToolCallView) -> Seq<char> {
    match call {
        client::ToolCallView::Function { function, id, index } => function.arguments,
    }
}

/// A text that is fixed by the first piece that gives it: what is held, if
/// anything is; else what is given.
pub open spec fn first_given(held: Seq<char>, given: Seq<char>) -> Seq<char> {
    if held.len() > 0 {
        held
    } else {
        given
    }
}

/// The fragment after one piece for its position: an id and a name that
/// were not there yet are taken from the piece, and the piece's argument
/// text is added at the end.
pub open spec fn extend_fragment(
    prior: JsonFragmentView,
    call: client::ToolCallView,
) -> JsonFragmentView {
    JsonFragmentView {
        id: first_given(prior.id, id_of(call)),
        name: first_given(prior.name, name_of(call)),
        json: prior.json + arguments_of(call),
    }
}

/// The table after one piece: the fragment at the piece's position, blank
/// where there was none, is extended by the piece. No other fragment
/// changes.
pub open spec fn merge_fragment(frags: Fragments, call: client::ToolCallView) -> Fragments {
    let prior = if frags.contains_key(slot(call)) {
        frags[slot(call)]
    } else {
        blank_fragment()
    };
    frags.insert(slot(call), extend_fragment(prior, call))
}

/// The table after the pieces of one chunk, taken in order.
pub open spec fn merge_fragments(frags: Fragments, calls: Seq<client::ToolCallView>) -> Fragments
    decreases calls.len(),
{
    if calls.len() == 0 {
        frags
    } else {
        merge_fragment(merge_fragments(frags, calls.drop_last()), calls.last())
    }
}

/// Whether a fragment has both an id and a name.
pub open spec fn identified(frag: JsonFragmentView) -> bool {
    frag.id.len() > 0 && frag.name.len() > 0
}

/// The tool call that a fragment stands for at this moment.
pub open spec fn snapshot(frag: JsonFragmentView) -> llm::ToolCallView {
    llm::ToolCallView { id: frag.id, name: frag.name, arguments_json: frag.json }
}

/// The tool calls that the pieces of one chunk give rise to: after each
/// piece, the snapshot of its fragment, if that is identified. A fragment
/// that has no id or no name yet is passed over; it is shown, whole, with the
/// first piece after which it has both.
pub open spec fn emitted_calls(frags: Fragments, calls: Seq<client::ToolCallView>) -> Seq<
    llm::ToolCallView,
>
    decreases calls.len(),
{
    if calls.len() == 0 {
        Seq::empty()
    } else {
        let before = emitted_calls(frags, calls.drop_last());
        let frag = merge_fragments(frags, calls)[slot(calls.last())];
        if identified(frag) {
            before.push(snapshot(frag))
        } else {
            before
        }
    }
}

/// The first choice of a chunk, the only one that is read.
pub open spec fn first_choice(chunk: client::ChatCompletionChunkView) -> Option<
    client::ChoiceChunkView,
> {
    if chunk.choices.len() > 0 {
        Some(chunk.choices[0])
    } else {
        None
    }
}

/// The finish reason that a chunk carries, if any.
pub open spec fn reason_in(chunk: client::ChatCompletionChunkView) -> Option<FinishReason> {
    match first_choice(chunk) {
        Some(choice) => match choice.finish_reason {
            Some(reason) => Some(finish_reason_of(reason)),
            None => None,
        },
        None => None,
    }
}

/// The text that a chunk carries, if any.
pub open spec fn text_in(chunk: client::ChatCompletionChunkView) -> Option<Seq<char>> {
    match first_choice(chunk) {
        Some(choice) => choice.delta.content,
        None => None,
    }
}

/// The pieces of tool calls that a chunk has the decoder merge: none where
/// it carries text.
pub open spec fn pieces_in(chunk: client::ChatCompletionChunkView) -> Seq<client::ToolCallView> {
    match first_choice(chunk) {
        Some(choice) => match (choice.delta.content, choice.delta.tool_calls) {
            (None, Some(calls)) => calls,
            _ => Seq::empty(),
        },
        None => Seq::empty(),
    }
}

/// The finish reason on record once a chunk is decoded: the chunk's own,
/// else the one before.
pub open spec fn reason_after(s: StreamView, chunk: client::ChatCompletionChunkView) -> Option<
    FinishReason,
> {
    match reason_in(chunk) {
        Some(reason) => Some(reason),
        None => s.finish_reason,
    }
}

/// The metadata of the event that ends the stream of events.
pub open spec fn finish_metadata(
    reason: Option<FinishReason>,
    chunk: client::ChatCompletionChunkView,
) -> llm::ResponseMetadataView {
    llm::ResponseMetadataView {
        finish_reason: reason,
        usage: match chunk.usage {
            Some(usage) => Some(usage_of(usage)),
            None => None,
        },
        provider_id: Some(chunk.id),
        timestamp: Some(decimal(chunk.created as nat)),
        provider_metadata_json: None,
    }
}

/// The state after a chunk. A finished session is frozen.
pub open spec fn chunk_state(s: StreamView, chunk: client::ChatCompletionChunkView) -> StreamView {
    if s.finished {
        s
    } else {
        StreamView {
            finish_reason: reason_after(s, chunk),
            fragments: merge_fragments(s.fragments, pieces_in(chunk)),
            ..s
        }
    }
}

/// The event that a chunk yields: its text as a delta; else the tool calls
/// that its pieces give rise to, if there are any, as a delta; else, where it
/// carries the token counts, the finish; else nothing.
pub open spec fn chunk_event(s: StreamView, chunk: client::ChatCompletionChunkView) -> Option<
    StreamEventView,
> {
    if s.finished {
        None
    } else if text_in(chunk) is Some {
        Some(
            StreamEventView::Delta(
                llm::StreamDeltaView {
                    content: Some(seq![llm::ContentPartView::Text(text_in(chunk)->0)]),
                    tool_calls: None,
                },
            ),
        )
    } else if emitted_calls(s.fragments, pieces_in(chunk)).len() > 0 {
        Some(
            StreamEventView::Delta(
                llm::StreamDeltaView {
                    content: None,
                    tool_calls: Some(emitted_calls(s.fragments, pieces_in(chunk))),
                },
            ),
        )
    } else if chunk.usage is Some {
        Some(StreamEventView::Finish(finish_metadata(reason_after(s, chunk), chunk)))
    } else {
        None
    }
}

/// What a session yields without a look at the transport: the empty batch
/// once it is finished, which tells the caller that the stream is over; the
/// failure that kept the stream from starting, once; else nothing, and the
/// caller has to poll.
pub open spec fn ready_batch(s: StreamView) -> Option<Seq<StreamEventView>> {
    if s.finished {
        Some(Seq::empty())
    } else {
        match s.failure {
            Some(error) => Some(seq![StreamEventView::Error(error)]),
            None => None,
        }
    }
}

/// The state after that: the failure, once reported, finishes the session.
pub open spec fn ready_state(s: StreamView) -> StreamView {
    if !s.finished && s.failure is Some {
        StreamView { finished: true, ..s }
    } else {
        s
    }
}

/// The batch that ends a session on an error: the error, where the session
/// was not finished yet.
pub open spec fn abort_batch(s: StreamView, error: ErrorView) -> Seq<StreamEventView> {
    if s.finished {
        Seq::empty()
    } else {
        seq![StreamEventView::Error(error)]
    }
}

/// The error that a frame which cannot be decoded is surfaced as.
pub open spec fn decode_failure(message: Seq<char>) -> ErrorView {
    ErrorView { code: ErrorCode::InternalError, message, provider_error_json: None }
}

/// The view of what `accept_frame` returns.
pub open spec fn outcome_view(r: Result<Option<&str>, String>) -> Result<
    Option<Seq<char>>,
    Seq<char>,
> {
    match r {
        Ok(Some(p)) => Ok(Some(p@)),
        Ok(None) => Ok(None),
        Err(m) => Err(m@),
    }
}

impl OpenAIChatStream {
    /// A session on a stream that was opened.
    pub fn new() -> (r: Self)
        ensures
            r@ == (StreamView {
                failure: None,
                finished: false,
                finish_reason: None,
                fragments: Map::empty(),
            }),
    {
        let r = OpenAIChatStream {
            failure: None,
            finished: false,
            finish_reason: None,
            json_fragments: HashMap::new(),
        };
        assert(fragments_view(r.json_fragments@) =~= Map::empty());
        r
    }

    /// A session on a stream that could not be opened: `error` says why.
    pub fn failed(error: Error) -> (r: Self)
        ensures
            r@ == (StreamView {
                failure: Some(error@),
                finished: false,
                finish_reason: None,
                fragments: Map::empty(),
            }),
    {
        let r = OpenAIChatStream {
            failure: Some(error),
            finished: false,
            finish_reason: None,
            json_fragments: HashMap::new(),
        };
        assert(fragments_view(r.json_fragments@) =~= Map::empty());
        r
    }

    /// The failure that kept the stream from starting, if any.
    pub fn failure(&self) -> (r: &Option<Error>)
        ensures
            opt_view(*r) == self@.failure,
    {
        &self.failure
    }

    /// Whether the session is finished.
    pub fn is_finished(&self) -> (r: bool)
        ensures
            r == self@.finished,
    {
        self.finished
    }

    /// The finish reason on record: it can be read before the event that
    /// ends the stream of events arrives.
    pub fn get_finish_reason(&self) -> (r: Option<FinishReason>)
        ensures
            r == self@.finish_reason,
    {
        self.finish_reason
    }

    /// The first step of every poll. `Some` is the batch to hand out without
    /// a look at the transport; on `None` the caller polls the transport.
    pub fn before_poll(&mut self) -> (r: Option<Vec<StreamEvent>>)
        ensures
            final(self)@ == ready_state(old(self)@),
            opt_views(r) == ready_batch(old(self)@),
    {
        if self.finished {
            let batch: Vec<StreamEvent> = Vec::new();
            assert(views(batch@) =~= Seq::empty());
            return Some(batch);
        }
        match &self.failure {
            Some(error) => {
                let batch = vec![StreamEvent::Error(error.clone())];
                assert(views(batch@) =~= seq![StreamEventView::Error(error@)]);
                self.finished = true;
                Some(batch)
            },
            None => None,
        }
    }

    /// The transport has no more frames: the session is finished, and the
    /// batch is empty.
    pub fn on_end_of_stream(&mut self) -> (r: Vec<StreamEvent>)
        ensures
            final(self)@ == (StreamView { finished: true, ..old(self)@ }),
            r@.len() == 0,
    {
        self.finished = true;
        Vec::new()
    }

    /// The transport failed, or a frame could not be decoded: the session is
    /// finished, and the batch holds the error as its one, last event. What
    /// was yielded before stays yielded.
    pub fn on_error(&mut self, error: Error) -> (r: Vec<StreamEvent>)
        ensures
            final(self)@ == (StreamView { finished: true, ..old(self)@ }),
            views(r@) == abort_batch(old(self)@, error@),
    {
        if self.finished {
            let batch: Vec<StreamEvent> = Vec::new();
            assert(views(batch@) =~= Seq::empty());
            return batch;
        }
        self.finished = true;
        let batch = vec![StreamEvent::Error(error)];
        assert(views(batch@) =~= seq![StreamEventView::Error(error@)]);
        batch
    }

    /// Takes one raw frame. The frame that ends the stream finishes the
    /// session. A data frame yields its payload, to be read into a chunk and
    /// given to `decode_chunk`, or the failure to read it as JSON; a failure
    /// leaves the session as it was. Any other frame, and every frame once
    /// the session is finished, is passed over.
    pub fn accept_frame<'a>(&mut self, raw: &'a str) -> (r: Result<Option<&'a str>, String>)
        ensures
            final(self)@ == frame_state(old(self)@, raw@),
            outcome_view(r) == frame_outcome(old(self)@, raw@),
    {
        if self.finished {
            return Ok(None);
        }
        if same_text(raw, "data: [DONE]") {
            self.finished = true;
            return Ok(None);
        }
        if !starts_with(raw, "data: ") {
            return Ok(None);
        }
        proof {
            reveal_strlit("data: ");
        }
        let n: usize = raw.unicode_len();
        let payload = raw.substring_char(6, n);
        assert(payload@ =~= payload_of(raw@));
        match diagnose_json(payload) {
            None => Ok(Some(payload)),
            Some(diagnostic) => {
                let mut message = String::from_str("Failed to parse stream event JSON: ");
                message.append(diagnostic.as_str());
                Err(message)
            },
        }
    }

    /// Merges the pieces of one chunk into the table, in order, and returns
    /// the tool calls that they give rise to.
    fn merge_tool_calls(&mut self, calls: &Vec<client::ToolCall>) -> (out: Vec<llm::ToolCall>)
        ensures
            final(self)@ == (StreamView {
                fragments: merge_fragments(old(self)@.fragments, views(calls@)),
                ..old(self)@
            }),
            views(out@) == emitted_calls(old(self)@.fragments, views(calls@)),
    {
        let ghost start = self@.fragments;
        let ghost pieces = views(calls@);
        let mut out: Vec<llm::ToolCall> = Vec::new();
        let mut i: usize = 0;
        assert(pieces.take(0) =~= Seq::empty());
        assert(views(out@) =~= Seq::empty());
        while i < calls.len()
            invariant
                i <= calls.len(),
                pieces == views(calls@),
                start == old(self)@.fragments,
                self.failure == old(self).failure,
                self.finished == old(self).finished,
                self.finish_reason == old(self).finish_reason,
                fragments_view(self.json_fragments@) == merge_fragments(start, pieces.take(i as int)),
                views(out@) == emitted_calls(start, pieces.take(i as int)),
            decreases calls.len() - i,
        {
            let ghost before = fragments_view(self.json_fragments@);
            let ghost piece = pieces[i as int];
            proof {
                assert(pieces.take(i + 1).drop_last() =~= pieces.take(i as int));
                assert(pieces.take(i + 1).last() == piece);
                assert(piece == calls@[i as int]@);
            }
            match &calls[i] {
                client::ToolCall::Function { function, id, index } => {
                    let idx: u32 = match index {
                        Some(n) => *n,
                        None => 0,
                    };
                    let mut fragment = match self.json_fragments.remove(&idx) {
                        Some(f) => f,
                        None => JsonFragment {
                            id: String::new(),
                            name: String::new(),
                            json: String::new(),
                        },
                    };
                    if fragment.id.as_str().is_empty() {
                        fragment.id = id.clone();
                    }
                    if fragment.name.as_str().is_empty() {
                        fragment.name = function.name.clone();
                    }
                    fragment.json.append(function.arguments.as_str());
                    if !fragment.id.as_str().is_empty() && !fragment.name.as_str().is_empty() {
                        let call = llm::ToolCall {
                            id: fragment.id.clone(),
                            name: fragment.name.clone(),
                            arguments_json: fragment.json.clone(),
                        };
                        proof {
                            crate::views::lemma_views_push(out@, call);
                        }
                        out.push(call);
                    }
                    let ghost merged = fragment@;
                    self.json_fragments.insert(idx, fragment);
                    proof {
                        assert(idx == slot(piece));
                        assert(fragments_view(self.json_fragments@) =~= merge_fragment(
                            before,
                            piece,
                        ));
                        assert(merge_fragments(start, pieces.take(i + 1))[idx] == merged);
                    }
                },
            }
            i += 1;
        }
        assert(pieces.take(calls.len() as int) =~= pieces);
        out
    }

    /// Decodes the chunk that the payload of a data frame was read into, and
    /// yields at most one event. Of the chunk's choices only the first is
    /// read. A finish reason is put on record before anything is yielded.
    pub fn decode_chunk(&mut self, chunk: client::ChatCompletionChunk) -> (r: Option<StreamEvent>)
        ensures
            final(self)@ == chunk_state(old(self)@, chunk@),
            opt_view(r) == chunk_event(old(self)@, chunk@),
    {
        if self.finished {
            return None;
        }
        proof {
            assert(merge_fragments(self@.fragments, Seq::empty()) == self@.fragments);
            assert(emitted_calls(self@.fragments, Seq::empty()).len() == 0);
        }
        if chunk.choices.len() > 0 {
            let choice = &chunk.choices[0];
            assert(choice@ == first_choice(chunk@)->0);
            match &choice.finish_reason {
                Some(reason) => {
                    self.finish_reason = Some(convert_finish_reason(reason));
                },
                None => {},
            }
            match &choice.delta.content {
                Some(content) => {
                    let parts = vec![llm::ContentPart::Text(content.clone())];
                    assert(views(parts@) =~= seq![llm::ContentPartView::Text(content@)]);
                    return Some(
                        StreamEvent::Delta(llm::StreamDelta { content: Some(parts), tool_calls: None }),
                    );
                },
                None => {},
            }
            match &choice.delta.tool_calls {
                Some(tool_calls) => {
                    let calls = self.merge_tool_calls(tool_calls);
                    if calls.len() > 0 {
                        return Some(
                            StreamEvent::Delta(
                                llm::StreamDelta { content: None, tool_calls: Some(calls) },
                            ),
                        );
                    }
                },
                None => {},
            }
        }
        match &chunk.usage {
            Some(usage) => Some(
                StreamEvent::Finish(
                    llm::ResponseMetadata {
                        finish_reason: self.finish_reason,
                        usage: Some(convert_usage(usage)),
                        provider_id: Some(chunk.id),
                        timestamp: Some(u64_to_decimal(chunk.created)),
                        provider_metadata_json: None,
                    },
                ),
            ),
            None => None,
        }
    }
}

/// The error for a frame whose decoding failed with `message`.
pub fn decode_error(message: String) -> (r: Error)
    ensures
        r@ == decode_failure(message@),
{
    Error { code: ErrorCode::InternalError, message, provider_error_json: None }
}

/// The message for a payload that is JSON and does not read as a chunk.
pub fn deserialize_failure(diagnostic: &str) -> (r: String)
    ensures
        r@ == chunk_failure(diagnostic@),
{
    let mut message = String::from_str("Failed to deserialize stream event: ");
    message.append(diagnostic);
    message
}

} // verus!
