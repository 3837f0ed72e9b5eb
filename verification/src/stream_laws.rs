//! What holds of every run of the stream decoder: how many events it yields,
//! when it finishes, which finish reason the last event carries, and how the
//! arguments of a tool call grow from one event to the next.
//!
//! A run feeds frames to a session one after the other, each by
//! `accept_frame` and, where that hands out a payload, by `decode_chunk` on
//! the chunk that the payload reads as.

use crate::client::ChatCompletionChunkView;
use crate::codec::json_diagnosis;
use crate::llm::{FinishReason, StreamEventView, ToolCallView};
use crate::stream::{
    arguments_of, chunk_event, chunk_state, data_marker, emitted_calls, end_marker, frame_kind,
    frame_outcome, frame_state, identified, merge_fragment, merge_fragments, parse_failure,
    payload_of, pieces_in, reason_in, slot, snapshot, text_in, Fragments, JsonFragmentView,
    StreamView,
};
use vstd::prelude::*;

verus! {

/// One frame as it is fed to the decoder: the raw text and, for a data
/// frame, the chunk that its payload reads as. Of a frame that is no data
/// frame the chunk counts for nothing.
pub struct Frame {
    pub raw: Seq<char>,
    pub chunk: ChatCompletionChunkView,
}

/// Whether a frame can be decoded: the payload of a data frame is JSON.
pub open spec fn well_formed(frame: Frame) -> bool {
    frame_kind(frame.raw) is Data ==> json_diagnosis(payload_of(frame.raw)) is None
}

/// Whether `accept_frame` hands out the payload of a frame, for
/// `decode_chunk` to take the chunk.
pub open spec fn is_decoded(s: StreamView, frame: Frame) -> bool {
    frame_outcome(s, frame.raw) is Ok && frame_outcome(s, frame.raw)->Ok_0 is Some
}

/// The state after one frame.
pub open spec fn step_state(s: StreamView, frame: Frame) -> StreamView {
    if is_decoded(s, frame) {
        chunk_state(frame_state(s, frame.raw), frame.chunk)
    } else {
        frame_state(s, frame.raw)
    }
}

/// The event that one frame yields, if any.
pub open spec fn step_event(s: StreamView, frame: Frame) -> Option<StreamEventView> {
    if is_decoded(s, frame) {
        chunk_event(frame_state(s, frame.raw), frame.chunk)
    } else {
        None
    }
}

/// The state after a sequence of frames, taken in order.
pub open spec fn state_after(s: StreamView, frames: Seq<Frame>) -> StreamView
    decreases frames.len(),
{
    if frames.len() == 0 {
        s
    } else {
        step_state(state_after(s, frames.drop_last()), frames.last())
    }
}

/// The events that a sequence of frames yields, in order.
pub open spec fn events_of(s: StreamView, frames: Seq<Frame>) -> Seq<StreamEventView>
    decreases frames.len(),
{
    if frames.len() == 0 {
        Seq::empty()
    } else {
        let before = events_of(s, frames.drop_last());
        match step_event(state_after(s, frames.drop_last()), frames.last()) {
            Some(event) => before.push(event),
            None => before,
        }
    }
}

/// How many of the frames are data frames.
pub open spec fn data_frames(frames: Seq<Frame>) -> nat
    decreases frames.len(),
{
    if frames.len() == 0 {
        0
    } else if frame_kind(frames.last().raw) is Data {
        data_frames(frames.drop_last()) + 1
    } else {
        data_frames(frames.drop_last())
    }
}

/// The event that frame `k` of a run yields.
pub open spec fn event_at(s: StreamView, frames: Seq<Frame>, k: int) -> Option<StreamEventView> {
    step_event(state_after(s, frames.take(k)), frames[k])
}

/// The finish reason that a frame carries, if any.
pub open spec fn carried_reason(frame: Frame) -> Option<FinishReason> {
    if frame_kind(frame.raw) is Data {
        reason_in(frame.chunk)
    } else {
        None
    }
}

/// The finish reason of the last frame that carries one; `init` where none
/// does.
pub open spec fn last_reason(init: Option<FinishReason>, frames: Seq<Frame>) -> Option<
    FinishReason,
>
    decreases frames.len(),
{
    if frames.len() == 0 {
        init
    } else {
        match carried_reason(frames.last()) {
            Some(reason) => Some(reason),
            None => last_reason(init, frames.drop_last()),
        }
    }
}

/// A finished session is frozen: no frame changes it and none yields an
/// event. The way from open to finished is never gone back.
pub proof fn law_finished_is_final(s: StreamView, frames: Seq<Frame>)
    requires
        s.finished,
    ensures
        state_after(s, frames) == s,
        events_of(s, frames).len() == 0,
    decreases frames.len(),
{
    if frames.len() > 0 {
        law_finished_is_final(s, frames.drop_last());
    }
}

/// A run yields no more events than it has data frames.
pub proof fn law_events_bounded_by_data_frames(s: StreamView, frames: Seq<Frame>)
    ensures
        events_of(s, frames).len() <= data_frames(frames),
    decreases frames.len(),
{
    if frames.len() > 0 {
        law_events_bounded_by_data_frames(s, frames.drop_last());
    }
}

/// A session that was open is finished after a run of frames that can be
/// decoded if and only if the frame that ends the stream, the literal
/// sentinel, was among them.
pub proof fn law_finished_iff_end_delivered(s: StreamView, frames: Seq<Frame>)
    requires
        !s.finished,
        forall|i: int| 0 <= i < frames.len() ==> well_formed(#[trigger] frames[i]),
    ensures
        state_after(s, frames).finished <==> exists|i: int|
            0 <= i < frames.len() && (#[trigger] frames[i]).raw == end_marker(),
    decreases frames.len(),
{
    if frames.len() > 0 {
        let head = frames.drop_last();
        assert forall|i: int| 0 <= i < head.len() implies well_formed(#[trigger] head[i]) by {
            assert(head[i] == frames[i]);
        }
        law_finished_iff_end_delivered(s, head);
        if state_after(s, head).finished {
            let i = choose|i: int| 0 <= i < head.len() && (#[trigger] head[i]).raw == end_marker();
            assert(frames[i].raw == end_marker());
        } else if frames.last().raw == end_marker() {
            assert(frames[frames.len() - 1].raw == end_marker());
        } else {
            assert forall|i: int| 0 <= i < frames.len() implies (#[trigger] frames[i]).raw
                != end_marker() by {
                if i < head.len() {
                    assert(head[i] == frames[i]);
                }
            }
        }
    }
}

/// One frame that can be decoded finishes the session exactly where it is
/// the frame that ends the stream; and that frame yields no event and
/// changes neither the finish reason nor the fragment table. No frame ever
/// takes a session back from finished to open.
pub proof fn law_only_the_end_frame_finishes(s: StreamView, frame: Frame)
    requires
        well_formed(frame),
    ensures
        step_state(s, frame).finished == (s.finished || frame.raw == end_marker()),
        frame.raw == end_marker() ==> step_event(s, frame) is None && step_state(s, frame) == (
        StreamView { finished: true, ..s }),
{
}

/// What `accept_frame` does to the finished mark: where it reports no
/// failure, the session is finished afterwards exactly where it was before
/// or the frame is the literal sentinel. The sentinel asks for nothing, and
/// it changes neither the finish reason nor the fragment table.
pub proof fn law_accepting_finishes_on_the_sentinel(s: StreamView, raw: Seq<char>)
    ensures
        frame_state(s, raw).finished == (s.finished || raw == end_marker()),
        frame_state(s, raw) == (StreamView { finished: frame_state(s, raw).finished, ..s }),
        raw == end_marker() ==> frame_outcome(s, raw) == Ok::<Option<Seq<char>>, Seq<char>>(None),
{
}

/// A frame is applied wholly or not at all. On an open session a frame that
/// begins with the data marker, is not the frame that ends the stream and
/// has a payload that is no JSON is a decode failure, and the session stays
/// as it was: open, with the finish reason and the fragment table that it
/// had.
pub proof fn law_malformed_frame_changes_nothing(s: StreamView, raw: Seq<char>)
    requires
        !s.finished,
        data_marker().is_prefix_of(raw),
        raw != end_marker(),
        json_diagnosis(payload_of(raw)) is Some,
    ensures
        frame_outcome(s, raw) == Err::<Option<Seq<char>>, Seq<char>>(
            parse_failure(json_diagnosis(payload_of(raw))->0),
        ),
        frame_state(s, raw) == s,
{
}

/// One chunk on an open session: the finish reason on record afterwards is
/// the chunk's own, else the one before, so that a later reason wins and a
/// chunk without one clears nothing. The event that ends the stream of
/// events carries the reason on record. A chunk that holds a reason and no
/// text, no pieces of tool calls and no token counts yields nothing.
pub proof fn law_reason_is_recorded(s: StreamView, chunk: ChatCompletionChunkView)
    requires
        !s.finished,
    ensures
        chunk_state(s, chunk).finish_reason == (match reason_in(chunk) {
            Some(reason) => Some(reason),
            None => s.finish_reason,
        }),
        chunk_event(s, chunk) matches Some(StreamEventView::Finish(metadata))
            ==> metadata.finish_reason == chunk_state(s, chunk).finish_reason,
        text_in(chunk) is None && pieces_in(chunk).len() == 0 && chunk.usage is None
            ==> chunk_event(s, chunk) is None,
{
    assert(emitted_calls(s.fragments, Seq::empty()).len() == 0);
    if pieces_in(chunk).len() == 0 {
        assert(pieces_in(chunk) =~= Seq::empty());
    }
}

/// One piece for a position whose tool call was shown before, on an open
/// session and in a chunk without text: the event is a delta that holds the
/// call again, with the id and the name that it had, whatever the piece
/// carries, and with the piece's argument text added at the end of the
/// arguments. A piece without argument text shows the call as it was.
pub proof fn law_piece_extends_the_shown_call(
    s: StreamView,
    chunk: ChatCompletionChunkView,
    piece: crate::client::ToolCallView,
)
    requires
        !s.finished,
        text_in(chunk) is None,
        pieces_in(chunk) == seq![piece],
        s.fragments.contains_key(slot(piece)),
        identified(s.fragments[slot(piece)]),
    ensures
        chunk_event(s, chunk) == Some(
            StreamEventView::Delta(
                crate::llm::StreamDeltaView {
                    content: None,
                    tool_calls: Some(
                        seq![
                            ToolCallView {
                                id: s.fragments[slot(piece)].id,
                                name: s.fragments[slot(piece)].name,
                                arguments_json: s.fragments[slot(piece)].json + arguments_of(
                                    piece,
                                ),
                            },
                        ],
                    ),
                },
            ),
        ),
        chunk_state(s, chunk).fragments == s.fragments.insert(
            slot(piece),
            JsonFragmentView {
                json: s.fragments[slot(piece)].json + arguments_of(piece),
                ..s.fragments[slot(piece)]
            },
        ),
{
    let pieces = seq![piece];
    assert(pieces.drop_last() =~= Seq::empty());
    assert(pieces.last() == piece);
    reveal_with_fuel(merge_fragments, 3);
    reveal_with_fuel(emitted_calls, 3);
    assert(merge_fragments(s.fragments, pieces) == merge_fragment(s.fragments, piece));
    assert(emitted_calls(s.fragments, pieces) =~= seq![
        snapshot(merge_fragment(s.fragments, piece)[slot(piece)]),
    ]);
}

/// While a session is open after a run, it was open before every frame of
/// the run, and the finish reason on record is that of the last frame that
/// carried one.
proof fn lemma_open_run(s: StreamView, frames: Seq<Frame>, k: int)
    requires
        !state_after(s, frames).finished,
        forall|i: int| 0 <= i < frames.len() ==> well_formed(#[trigger] frames[i]),
        0 <= k <= frames.len(),
    ensures
        !state_after(s, frames.take(k)).finished,
        state_after(s, frames).finish_reason == last_reason(s.finish_reason, frames),
    decreases frames.len(),
{
    if frames.len() == 0 {
        assert(frames.take(k) =~= frames);
    } else {
        let head = frames.drop_last();
        assert forall|i: int| 0 <= i < head.len() implies well_formed(#[trigger] head[i]) by {
            assert(head[i] == frames[i]);
        }
        assert(well_formed(frames[frames.len() - 1]));
        if k == frames.len() {
            assert(frames.take(k) =~= frames);
            lemma_open_run(s, head, 0);
        } else {
            lemma_open_run(s, head, k);
            assert(head.take(k) =~= frames.take(k));
        }
    }
}

/// Last writer wins: in a run of frames that can be decoded, the event that
/// ends the stream of events carries the finish reason of the last frame, up
/// to the one that yields it, that carried one; where none did, the reason
/// that the session began with.
pub proof fn law_finish_carries_last_reason(s: StreamView, frames: Seq<Frame>, k: int)
    requires
        forall|i: int| 0 <= i < frames.len() ==> well_formed(#[trigger] frames[i]),
        0 <= k < frames.len(),
        event_at(s, frames, k) is Some,
        event_at(s, frames, k)->0 is Finish,
    ensures
        event_at(s, frames, k)->0->Finish_0.finish_reason == last_reason(
            s.finish_reason,
            frames.take(k + 1),
        ),
{
    let upto = frames.take(k);
    assert forall|i: int| 0 <= i < upto.len() implies well_formed(#[trigger] upto[i]) by {
        assert(upto[i] == frames[i]);
    }
    lemma_open_run(s, upto, 0);
    assert(frames.take(k + 1).drop_last() =~= upto);
    assert(frames.take(k + 1).last() == frames[k]);
}

/// The last reason of a run is the one that frame `j` carried where no frame
/// after `j` carries one.
proof fn lemma_last_reason_skips(init: Option<FinishReason>, frames: Seq<Frame>, j: int)
    requires
        0 <= j < frames.len(),
        carried_reason(frames[j]) is Some,
        forall|i: int| j < i < frames.len() ==> carried_reason(#[trigger] frames[i]) is None,
    ensures
        last_reason(init, frames) == carried_reason(frames[j]),
    decreases frames.len(),
{
    if j < frames.len() - 1 {
        assert(carried_reason(frames[frames.len() - 1]) is None);
        lemma_last_reason_skips(init, frames.drop_last(), j);
    }
}

/// A finish reason that frame `j` carried is the one in the event that ends
/// the stream of events, whatever the frames after `j` hold, as long as none
/// of them carries a reason of its own.
pub proof fn law_earlier_reason_stays_visible(s: StreamView, frames: Seq<Frame>, j: int, k: int)
    requires
        forall|i: int| 0 <= i < frames.len() ==> well_formed(#[trigger] frames[i]),
        0 <= j <= k < frames.len(),
        carried_reason(frames[j]) is Some,
        forall|i: int| j < i <= k ==> carried_reason(#[trigger] frames[i]) is None,
        event_at(s, frames, k) is Some,
        event_at(s, frames, k)->0 is Finish,
    ensures
        event_at(s, frames, k)->0->Finish_0.finish_reason == carried_reason(frames[j]),
{
    law_finish_carries_last_reason(s, frames, k);
    lemma_last_reason_skips(s.finish_reason, frames.take(k + 1), j);
}

/// The tool calls that the pieces of one chunk give rise to, each with the
/// position whose fragment it shows.
pub open spec fn emitted_slots(frags: Fragments, calls: Seq<crate::client::ToolCallView>) -> Seq<
    (u32, ToolCallView),
>
    decreases calls.len(),
{
    if calls.len() == 0 {
        Seq::empty()
    } else {
        let before = emitted_slots(frags, calls.drop_last());
        let frag = merge_fragments(frags, calls)[slot(calls.last())];
        if identified(frag) {
            before.push((slot(calls.last()), snapshot(frag)))
        } else {
            before
        }
    }
}

/// The tool calls that frame `k` of a run shows, each with its position;
/// none where the frame yields no delta of tool calls.
pub open spec fn shown_at(s: StreamView, frames: Seq<Frame>, k: int) -> Seq<(u32, ToolCallView)> {
    let before = state_after(s, frames.take(k));
    if is_decoded(before, frames[k]) {
        emitted_slots(before.fragments, pieces_in(frames[k].chunk))
    } else {
        Seq::empty()
    }
}

/// The tool calls in the event that frame `k` of a run yields; none where it
/// yields no such event.
pub open spec fn calls_at(s: StreamView, frames: Seq<Frame>, k: int) -> Seq<ToolCallView> {
    match event_at(s, frames, k) {
        Some(StreamEventView::Delta(delta)) => match delta.tool_calls {
            Some(calls) => calls,
            None => Seq::empty(),
        },
        _ => Seq::empty(),
    }
}

/// Whether `later` is `earlier` grown: the same id and name, and arguments
/// that begin with those of `earlier`.
pub open spec fn grown_from(later: ToolCallView, earlier: ToolCallView) -> bool {
    &&& later.id == earlier.id
    &&& later.name == earlier.name
    &&& earlier.arguments_json.is_prefix_of(later.arguments_json)
}

/// Whether `later` is the fragment `earlier` after more pieces: an id and a
/// name that were set are kept, and the argument text begins with that of
/// `earlier`.
pub open spec fn fragment_grown_from(later: JsonFragmentView, earlier: JsonFragmentView) -> bool {
    &&& earlier.id.len() > 0 ==> later.id == earlier.id
    &&& earlier.name.len() > 0 ==> later.name == earlier.name
    &&& earlier.json.is_prefix_of(later.json)
}

/// Whether every fragment of `earlier` is in `later` too, grown.
pub open spec fn table_grown_from(later: Fragments, earlier: Fragments) -> bool {
    forall|pos: u32| #[trigger]
        earlier.contains_key(pos) ==> later.contains_key(pos) && fragment_grown_from(
            later[pos],
            earlier[pos],
        )
}

proof fn lemma_prefix_reflexive(a: Seq<char>)
    ensures
        a.is_prefix_of(a),
{
    assert(a =~= a.subrange(0, a.len() as int));
}

proof fn lemma_prefix_transitive(a: Seq<char>, b: Seq<char>, c: Seq<char>)
    requires
        a.is_prefix_of(b),
        b.is_prefix_of(c),
    ensures
        a.is_prefix_of(c),
{
    assert(a =~= c.subrange(0, a.len() as int)) by {
        assert forall|i: int| 0 <= i < a.len() implies a[i] == c[i] by {
            assert(a[i] == b.subrange(0, a.len() as int)[i]);
            assert(b[i] == c.subrange(0, b.len() as int)[i]);
        }
    }
}

/// One piece grows the fragment at its position and leaves the others as
/// they are.
proof fn lemma_merge_fragment_grows(frags: Fragments, call: crate::client::ToolCallView)
    ensures
        table_grown_from(merge_fragment(frags, call), frags),
        merge_fragment(frags, call).contains_key(slot(call)),
{
    let merged = merge_fragment(frags, call);
    assert forall|pos: u32| #[trigger] frags.contains_key(pos) implies merged.contains_key(pos)
        && fragment_grown_from(merged[pos], frags[pos]) by {
        let a = frags[pos].json;
        let b = merged[pos].json;
        assert(a =~= b.subrange(0, a.len() as int));
    }
}

proof fn lemma_table_grown_transitive(a: Fragments, b: Fragments, c: Fragments)
    requires
        table_grown_from(b, a),
        table_grown_from(c, b),
    ensures
        table_grown_from(c, a),
{
    assert forall|pos: u32| #[trigger] a.contains_key(pos) implies c.contains_key(pos)
        && fragment_grown_from(c[pos], a[pos]) by {
        assert(b.contains_key(pos));
        lemma_prefix_transitive(a[pos].json, b[pos].json, c[pos].json);
    }
}

proof fn lemma_table_grown_reflexive(a: Fragments)
    ensures
        table_grown_from(a, a),
{
    assert forall|pos: u32| #[trigger] a.contains_key(pos) implies fragment_grown_from(
        a[pos],
        a[pos],
    ) by {
        lemma_prefix_reflexive(a[pos].json);
    }
}

/// The pieces of one chunk only ever grow the table.
proof fn lemma_merge_fragments_grows(frags: Fragments, calls: Seq<crate::client::ToolCallView>)
    ensures
        table_grown_from(merge_fragments(frags, calls), frags),
    decreases calls.len(),
{
    if calls.len() == 0 {
        lemma_table_grown_reflexive(frags);
    } else {
        let mid = merge_fragments(frags, calls.drop_last());
        lemma_merge_fragments_grows(frags, calls.drop_last());
        lemma_merge_fragment_grows(mid, calls.last());
        lemma_table_grown_transitive(frags, mid, merge_fragments(frags, calls));
    }
}

/// The tool calls that the pieces of one chunk give rise to are those that
/// `emitted_slots` pairs with their positions, in the same order.
proof fn lemma_emitted_slots_hold_the_calls(
    frags: Fragments,
    calls: Seq<crate::client::ToolCallView>,
)
    ensures
        emitted_slots(frags, calls).len() == emitted_calls(frags, calls).len(),
        forall|p: int|
            0 <= p < emitted_calls(frags, calls).len() ==> (#[trigger] emitted_slots(
                frags,
                calls,
            )[p]).1 == emitted_calls(frags, calls)[p],
    decreases calls.len(),
{
    if calls.len() > 0 {
        lemma_emitted_slots_hold_the_calls(frags, calls.drop_last());
    }
}

/// Every tool call that the pieces of one chunk give rise to has an id and a
/// name and lies between the table before the chunk and the table after it;
/// and of two calls for one position the later one is the earlier one grown.
proof fn lemma_emitted_between(frags: Fragments, calls: Seq<crate::client::ToolCallView>)
    ensures
        forall|p: int|
            0 <= p < emitted_slots(frags, calls).len() ==> {
                let (pos, call) = #[trigger] emitted_slots(frags, calls)[p];
                &&& merge_fragments(frags, calls).contains_key(pos)
                &&& call.id.len() > 0
                &&& call.name.len() > 0
                &&& grown_from(snapshot(merge_fragments(frags, calls)[pos]), call)
                &&& frags.contains_key(pos) ==> fragment_grown_from(
                    JsonFragmentView { id: call.id, name: call.name, json: call.arguments_json },
                    frags[pos],
                )
            },
        forall|p: int, q: int|
            0 <= p <= q < emitted_slots(frags, calls).len() && (#[trigger] emitted_slots(
                frags,
                calls,
            )[p]).0 == (#[trigger] emitted_slots(frags, calls)[q]).0 ==> grown_from(
                emitted_slots(frags, calls)[q].1,
                emitted_slots(frags, calls)[p].1,
            ),
    decreases calls.len(),
{
    if calls.len() > 0 {
        let head = calls.drop_last();
        let mid = merge_fragments(frags, head);
        let end = merge_fragments(frags, calls);
        let last_pos = slot(calls.last());
        lemma_emitted_between(frags, head);
        lemma_merge_fragment_grows(mid, calls.last());
        lemma_merge_fragments_grows(frags, calls);
        let emitted = emitted_slots(frags, calls);
        let head_emitted = emitted_slots(frags, head);
        assert forall|p: int| 0 <= p < emitted.len() implies {
            let (pos, call) = #[trigger] emitted[p];
            &&& end.contains_key(pos)
            &&& call.id.len() > 0
            &&& call.name.len() > 0
            &&& grown_from(snapshot(end[pos]), call)
            &&& frags.contains_key(pos) ==> fragment_grown_from(
                JsonFragmentView { id: call.id, name: call.name, json: call.arguments_json },
                frags[pos],
            )
        } by {
            let (pos, call) = emitted[p];
            if p < head_emitted.len() {
                assert(emitted[p] == head_emitted[p]);
                assert(mid.contains_key(pos));
                assert(fragment_grown_from(end[pos], mid[pos]));
                lemma_prefix_transitive(call.arguments_json, mid[pos].json, end[pos].json);
            } else {
                assert(pos == last_pos);
                assert(call == snapshot(end[pos]));
                lemma_prefix_reflexive(end[pos].json);
            }
        }
        assert forall|p: int, q: int|
            0 <= p <= q < emitted.len() && (#[trigger] emitted[p]).0 == (#[trigger] emitted[q]).0
            implies grown_from(emitted[q].1, emitted[p].1) by {
            if q < head_emitted.len() {
                assert(emitted[p] == head_emitted[p]);
                assert(emitted[q] == head_emitted[q]);
            } else if p < head_emitted.len() {
                assert(emitted[p] == head_emitted[p]);
                assert(emitted[q].1 == snapshot(end[last_pos]));
                assert(fragment_grown_from(end[last_pos], mid[last_pos]));
                lemma_prefix_transitive(
                    emitted[p].1.arguments_json,
                    mid[last_pos].json,
                    end[last_pos].json,
                );
            } else {
                assert(p == q);
                lemma_prefix_reflexive(emitted[p].1.arguments_json);
            }
        }
    }
}

/// From one frame of a run to a later one the table only ever grows.
proof fn lemma_run_grows(s: StreamView, frames: Seq<Frame>, k: int)
    requires
        0 <= k <= frames.len(),
    ensures
        table_grown_from(state_after(s, frames).fragments, state_after(s, frames.take(k)).fragments),
    decreases frames.len(),
{
    if k == frames.len() {
        assert(frames.take(k) =~= frames);
        lemma_table_grown_reflexive(state_after(s, frames).fragments);
    } else {
        let head = frames.drop_last();
        lemma_run_grows(s, head, k);
        assert(head.take(k) =~= frames.take(k));
        let mid = state_after(s, head);
        lemma_merge_fragments_grows(mid.fragments, pieces_in(frames.last().chunk));
        lemma_table_grown_reflexive(mid.fragments);
        lemma_table_grown_transitive(
            state_after(s, frames.take(k)).fragments,
            mid.fragments,
            state_after(s, frames).fragments,
        );
    }
}

/// What `shown_at` holds for a frame is what the event of that frame shows:
/// the tool calls of the event are those of `shown_at`, in the same order.
pub proof fn law_shown_calls_are_the_events_calls(s: StreamView, frames: Seq<Frame>, k: int)
    requires
        0 <= k < frames.len(),
    ensures
        calls_at(s, frames, k).len() == shown_at(s, frames, k).len(),
        forall|p: int|
            0 <= p < calls_at(s, frames, k).len() ==> (#[trigger] shown_at(s, frames, k)[p]).1
                == calls_at(s, frames, k)[p],
{
    let before = state_after(s, frames.take(k));
    let chunk = frames[k].chunk;
    lemma_emitted_slots_hold_the_calls(before.fragments, pieces_in(chunk));
    if text_in(chunk) is Some {
        assert(pieces_in(chunk).len() == 0);
    }
}

/// The merge of tool-call fragments is monotonic. Take two tool calls that a
/// run shows for one position, the second in a later event than the first,
/// or later in the same event. Then the second has the id and the name of
/// the first, and its arguments begin with the arguments of the first:
/// nothing that was shown shrinks or changes.
pub proof fn law_arguments_only_grow(
    s: StreamView,
    frames: Seq<Frame>,
    n: int,
    a: int,
    m: int,
    b: int,
)
    requires
        0 <= n <= m < frames.len(),
        0 <= a < shown_at(s, frames, n).len(),
        0 <= b < shown_at(s, frames, m).len(),
        n == m ==> a <= b,
        shown_at(s, frames, n)[a].0 == shown_at(s, frames, m)[b].0,
    ensures
        grown_from(shown_at(s, frames, m)[b].1, shown_at(s, frames, n)[a].1),
{
    let before_n = state_after(s, frames.take(n)).fragments;
    let before_m = state_after(s, frames.take(m)).fragments;
    let pieces_n = pieces_in(frames[n].chunk);
    let pieces_m = pieces_in(frames[m].chunk);
    lemma_emitted_between(before_n, pieces_n);
    lemma_emitted_between(before_m, pieces_m);
    let (pos, first) = shown_at(s, frames, n)[a];
    let (same, second) = shown_at(s, frames, m)[b];
    assert(emitted_slots(before_n, pieces_n)[a] == (pos, first));
    assert(emitted_slots(before_m, pieces_m)[b] == (pos, second));
    if n < m {
        let after_n = state_after(s, frames.take(n + 1)).fragments;
        assert(frames.take(n + 1).drop_last() =~= frames.take(n));
        assert(frames.take(n + 1).last() == frames[n]);
        assert(after_n == merge_fragments(before_n, pieces_n));
        lemma_run_grows(s, frames.take(m), n + 1);
        assert(frames.take(m).take(n + 1) =~= frames.take(n + 1));
        assert(after_n.contains_key(pos));
        assert(before_m.contains_key(pos));
        assert(fragment_grown_from(before_m[pos], after_n[pos]));
        lemma_prefix_transitive(first.arguments_json, after_n[pos].json, before_m[pos].json);
        lemma_prefix_transitive(first.arguments_json, before_m[pos].json, second.arguments_json);
    }
}

} // verus!
