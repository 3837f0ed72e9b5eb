//! The builder of the conversation that resumes an interrupted stream: the
//! original question, and after it what was already received of the answer,
//! with the instruction to go on from there.

use crate::llm::{
    ContentPart, ContentPartView, Message, MessageView, Role, StreamDelta, StreamDeltaView,
    ToolCall, ToolCallView,
};
use crate::views::{lemma_views_add, lemma_views_push, views};
use vstd::prelude::*;

verus! {

/// The instruction that opens the resumed conversation.
pub open spec fn resume_instruction() -> Seq<char> {
    "You were asked the same question previously, but the response was interrupted before completion. Please continue your response from where you left off. Do not include the part of the response that was already seen."@
}

/// The words that come before the original messages.
pub open spec fn question_header() -> Seq<char> {
    "Here is the original question:"@
}

/// The words that come before what was received of the answer.
pub open spec fn partial_header() -> Seq<char> {
    "Here is the partial response that was successfully received:"@
}

/// A message that holds one text and has no name.
pub open spec fn text_message(role: Role, text: Seq<char>) -> MessageView {
    MessageView { role, name: None, content: seq![ContentPartView::Text(text)] }
}

/// The inline marker that shows a tool call the model had proposed, so that
/// the model sees the call and nobody runs it again.
pub open spec fn tool_call_marker(call: ToolCallView) -> Seq<char> {
    "<tool-call id=\""@ + call.id + "\" name=\""@ + call.name + "\" arguments=\""@
        + call.arguments_json + "\"/>"@
}

/// The markers of a list of tool calls, as text parts.
pub open spec fn tool_call_markers(calls: Seq<ToolCallView>) -> Seq<ContentPartView> {
    Seq::new(calls.len(), |i: int| ContentPartView::Text(tool_call_marker(calls[i])))
}

/// What one delta adds to the reconstruction: its content parts, then a
/// marker for each of its tool calls.
pub open spec fn delta_parts(delta: StreamDeltaView) -> Seq<ContentPartView> {
    let content = match delta.content {
        Some(parts) => parts,
        None => Seq::empty(),
    };
    let calls = match delta.tool_calls {
        Some(calls) => tool_call_markers(calls),
        None => Seq::empty(),
    };
    content + calls
}

/// The flattened reconstruction of the deltas received so far, in order.
pub open spec fn received_parts(deltas: Seq<StreamDeltaView>) -> Seq<ContentPartView>
    decreases deltas.len(),
{
    if deltas.len() == 0 {
        Seq::empty()
    } else {
        received_parts(deltas.drop_last()) + delta_parts(deltas.last())
    }
}

/// The conversation that resumes an interrupted stream: the instruction as a
/// system message; the header of the question as a user message; the
/// original messages, as they were and in their order; and a user message
/// that holds the header of the partial response and then what was received.
pub open spec fn resumed_conversation(
    original: Seq<MessageView>,
    partial: Seq<StreamDeltaView>,
) -> Seq<MessageView> {
    seq![
        text_message(Role::System, resume_instruction()),
        text_message(Role::User, question_header()),
    ] + original + seq![
        MessageView {
            role: Role::User,
            name: None,
            content: seq![ContentPartView::Text(partial_header())] + received_parts(partial),
        },
    ]
}

fn marker_for(call: &ToolCall) -> (r: String)
    ensures
        r@ == tool_call_marker(call@),
{
    let mut marker = String::from_str("<tool-call id=\"");
    marker.append(call.id.as_str());
    marker.append("\" name=\"");
    marker.append(call.name.as_str());
    marker.append("\" arguments=\"");
    marker.append(call.arguments_json.as_str());
    marker.append("\"/>");
    marker
}

fn one_text(role: Role, text: &str) -> (r: Message)
    ensures
        r@ == text_message(role, text@),
{
    let content = vec![ContentPart::Text(String::from_str(text))];
    assert(views(content@) =~= seq![ContentPartView::Text(text@)]);
    Message { role, name: None, content }
}

/// Adds to `parts` what one delta holds.
fn push_delta(parts: &mut Vec<ContentPart>, delta: &StreamDelta)
    ensures
        views(final(parts)@) == views(old(parts)@) + delta_parts(delta@),
{
    let ghost before = views(parts@);
    match &delta.content {
        Some(contents) => {
            let mut copy = contents.clone();
            assert(views(copy@) =~= views(contents@));
            proof {
                lemma_views_add(parts@, copy@);
            }
            parts.append(&mut copy);
        },
        None => {
            assert(before + Seq::<ContentPartView>::empty() =~= before);
        },
    }
    let ghost middle = views(parts@);
    match &delta.tool_calls {
        Some(tool_calls) => {
            let ghost calls = views(tool_calls@);
            let mut i: usize = 0;
            assert(middle + tool_call_markers(calls).take(0) =~= middle);
            while i < tool_calls.len()
                invariant
                    i <= tool_calls.len(),
                    calls == views(tool_calls@),
                    views(parts@) == middle + tool_call_markers(calls).take(i as int),
                decreases tool_calls.len() - i,
            {
                let part = ContentPart::Text(marker_for(&tool_calls[i]));
                proof {
                    lemma_views_push(parts@, part);
                    assert(part@ == tool_call_markers(calls)[i as int]);
                    assert((middle + tool_call_markers(calls).take(i as int)).push(part@) =~= middle
                        + tool_call_markers(calls).take(i + 1));
                }
                parts.push(part);
                i += 1;
            }
            assert(tool_call_markers(calls).take(tool_calls.len() as int) =~= tool_call_markers(
                calls,
            ));
        },
        None => {
            assert(middle + Seq::<ContentPartView>::empty() =~= middle);
        },
    }
    assert(views(parts@) =~= before + delta_parts(delta@));
}

/// Builds the conversation that asks the model to go on with an answer whose
/// stream was interrupted. `partial_result` holds the deltas that had
/// arrived. Nothing is read but the two arguments, and nothing is changed:
/// the same arguments give the same conversation.
pub fn retry_prompt(original_messages: &[Message], partial_result: &[StreamDelta]) -> (r: Vec<
    Message,
>)
    ensures
        views(r@) == resumed_conversation(views(original_messages@), views(partial_result@)),
{
    let ghost original = views(original_messages@);
    let ghost partial = views(partial_result@);
    let mut extended_messages: Vec<Message> = Vec::new();
    extended_messages.push(
        one_text(
            Role::System,
            "You were asked the same question previously, but the response was interrupted before completion. Please continue your response from where you left off. Do not include the part of the response that was already seen.",
        ),
    );
    extended_messages.push(one_text(Role::User, "Here is the original question:"));
    let ghost opening = seq![
        text_message(Role::System, resume_instruction()),
        text_message(Role::User, question_header()),
    ];
    assert(views(extended_messages@) =~= opening);
    let mut i: usize = 0;
    assert(opening + original.take(0) =~= opening);
    while i < original_messages.len()
        invariant
            i <= original_messages.len(),
            original == views(original_messages@),
            views(extended_messages@) == opening + original.take(i as int),
        decreases original_messages.len() - i,
    {
        let message = original_messages[i].clone();
        proof {
            lemma_views_push(extended_messages@, message);
            assert((opening + original.take(i as int)).push(message@) =~= opening + original.take(
                i + 1,
            ));
        }
        extended_messages.push(message);
        i += 1;
    }
    assert(original.take(original_messages.len() as int) =~= original);

    let mut content = vec![
        ContentPart::Text(
            String::from_str("Here is the partial response that was successfully received:"),
        ),
    ];
    let ghost header = seq![ContentPartView::Text(partial_header())];
    assert(views(content@) =~= header);
    let mut k: usize = 0;
    assert(partial.take(0) =~= Seq::empty());
    assert(header + received_parts(partial.take(0)) =~= header);
    while k < partial_result.len()
        invariant
            k <= partial_result.len(),
            partial == views(partial_result@),
            views(content@) == header + received_parts(partial.take(k as int)),
        decreases partial_result.len() - k,
    {
        proof {
            assert(partial.take(k + 1).drop_last() =~= partial.take(k as int));
            assert(partial.take(k + 1).last() == partial_result@[k as int]@);
            assert(header + received_parts(partial.take(k + 1)) =~= header + received_parts(
                partial.take(k as int),
            ) + delta_parts(partial_result@[k as int]@));
        }
        push_delta(&mut content, &partial_result[k]);
        k += 1;
    }
    assert(partial.take(partial_result.len() as int) =~= partial);
    let closing = Message { role: Role::User, name: None, content };
    proof {
        lemma_views_push(extended_messages@, closing);
        assert((opening + original).push(closing@) =~= resumed_conversation(original, partial));
    }
    extended_messages.push(closing);
    extended_messages
}

/// The builder is a function of its two arguments: the same original
/// messages and the same deltas give the same conversation, character for
/// character, however often it is asked.
pub proof fn law_retry_prompt_is_a_function(
    first_original: Seq<MessageView>,
    first_partial: Seq<StreamDeltaView>,
    second_original: Seq<MessageView>,
    second_partial: Seq<StreamDeltaView>,
)
    requires
        first_original == second_original,
        first_partial == second_partial,
    ensures
        resumed_conversation(first_original, first_partial) == resumed_conversation(
            second_original,
            second_partial,
        ),
{
}

/// What was received is reconstructed delta by delta: the reconstruction of
/// a longer observation is that of its beginning, followed by that of the
/// rest. So nothing that was seen is left out, and nothing is put in twice.
pub proof fn law_received_parts_join(first: Seq<StreamDeltaView>, rest: Seq<StreamDeltaView>)
    ensures
        received_parts(first + rest) == received_parts(first) + received_parts(rest),
    decreases rest.len(),
{
    if rest.len() == 0 {
        assert(first + rest =~= first);
        assert(received_parts(first) + received_parts(rest) =~= received_parts(first));
    } else {
        law_received_parts_join(first, rest.drop_last());
        assert((first + rest).drop_last() =~= first + rest.drop_last());
        assert((first + rest).last() == rest.last());
        assert(received_parts(first + rest) =~= received_parts(first) + received_parts(rest));
    }
}

/// The original messages stand in the resumed conversation as they were, in
/// their order, after the two opening messages and before the last one.
pub proof fn law_original_messages_kept(original: Seq<MessageView>, partial: Seq<StreamDeltaView>)
    ensures
        resumed_conversation(original, partial).len() == original.len() + 3,
        resumed_conversation(original, partial).subrange(2, 2 + original.len() as int)
            == original,
{
    assert(resumed_conversation(original, partial).subrange(2, 2 + original.len() as int)
        =~= original);
}

} // verus!
