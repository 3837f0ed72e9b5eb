//! How a reply is shown to a reader: the visible text of its content and the
//! tool calls that it asks for. Mapping a response and showing the event
//! loses nothing of either.

use crate::client::CompletionsResponseView;
use crate::conversions::{reply_tool_calls, response_event, tool_call_of};
use crate::llm::{
    ChatEvent, ChatEventView, ContentPart, ContentPartView, ImageReference, ImageReferenceView,
    ToolCall, ToolCallView,
};
use crate::text::{decimal, u64_to_decimal};
use crate::views::views;
use vstd::prelude::*;

verus! {

/// How one content part is shown: a text as it is, an image by where it is
/// or by how large it is.
pub open spec fn rendered_part(part: ContentPartView) -> Seq<char> {
    match part {
        ContentPartView::Text(text) => text,
        ContentPartView::Image(ImageReferenceView::Url(image)) => "[IMAGE URL: "@ + image.url
            + "]"@,
        ContentPartView::Image(ImageReferenceView::Inline(source)) => "[INLINE IMAGE: "@ + decimal(
            source.data.len(),
        ) + " bytes, mime: "@ + source.mime_type + "]"@,
    }
}

/// How a list of content parts is shown: each part, with a comma and a space
/// between one part and the next.
pub open spec fn rendered_parts(parts: Seq<ContentPartView>) -> Seq<char>
    decreases parts.len(),
{
    if parts.len() == 0 {
        Seq::empty()
    } else if parts.len() == 1 {
        rendered_part(parts[0])
    } else {
        rendered_parts(parts.drop_last()) + ", "@ + rendered_part(parts.last())
    }
}

/// The text of a chat event that a reader sees: the content of a message;
/// nothing for a tool request or an error.
pub open spec fn visible_text(event: ChatEventView) -> Seq<char> {
    match event {
        ChatEventView::Message(message) => rendered_parts(message.content),
        _ => Seq::empty(),
    }
}

/// The tool calls that a chat event asks for, whether it came as a message
/// or as a tool request; none for an error.
pub open spec fn requested_calls(event: ChatEventView) -> Seq<ToolCallView> {
    match event {
        ChatEventView::Message(message) => message.tool_calls,
        ChatEventView::ToolRequest(calls) => calls,
        ChatEventView::Error(_) => Seq::empty(),
    }
}

fn render_part(part: &ContentPart) -> (r: String)
    ensures
        r@ == rendered_part(part@),
{
    match part {
        ContentPart::Text(text) => text.clone(),
        ContentPart::Image(ImageReference::Url(image)) => {
            let mut shown = String::from_str("[IMAGE URL: ");
            shown.append(image.url.as_str());
            shown.append("]");
            shown
        },
        ContentPart::Image(ImageReference::Inline(source)) => {
            let size = u64_to_decimal(source.data.len() as u64);
            let mut shown = String::from_str("[INLINE IMAGE: ");
            shown.append(size.as_str());
            shown.append(" bytes, mime: ");
            shown.append(source.mime_type.as_str());
            shown.append("]");
            shown
        },
    }
}

/// Shows a list of content parts.
pub fn render_parts(parts: &Vec<ContentPart>) -> (r: String)
    ensures
        r@ == rendered_parts(views(parts@)),
{
    let ghost all = views(parts@);
    let mut shown = String::new();
    let mut i: usize = 0;
    assert(all.take(0) =~= Seq::empty());
    while i < parts.len()
        invariant
            i <= parts.len(),
            all == views(parts@),
            shown@ == rendered_parts(all.take(i as int)),
        decreases parts.len() - i,
    {
        proof {
            assert(all.take(i + 1).drop_last() =~= all.take(i as int));
            assert(all.take(i + 1).last() == parts@[i as int]@);
            assert(all.take(1)[0] == all[0]);
        }
        if i > 0 {
            shown.append(", ");
        }
        let part = render_part(&parts[i]);
        shown.append(part.as_str());
        assert(shown@ =~= rendered_parts(all.take(i + 1)));
        i += 1;
    }
    assert(all.take(parts.len() as int) =~= all);
    shown
}

/// The text of a chat event that a reader sees.
pub fn render_visible_text(event: &ChatEvent) -> (r: String)
    ensures
        r@ == visible_text(event@),
{
    match event {
        ChatEvent::Message(message) => render_parts(&message.content),
        _ => String::new(),
    }
}

/// The tool calls that a chat event asks for.
pub fn tool_calls_requested(event: &ChatEvent) -> (r: Vec<ToolCall>)
    ensures
        views(r@) == requested_calls(event@),
{
    match event {
        ChatEvent::Message(message) => {
            let calls = message.tool_calls.clone();
            assert(views(calls@) =~= views(message.tool_calls@));
            calls
        },
        ChatEvent::ToolRequest(requested) => {
            let calls = requested.clone();
            assert(views(calls@) =~= views(requested@));
            calls
        },
        ChatEvent::Error(_) => {
            let calls: Vec<ToolCall> = Vec::new();
            assert(views(calls@) =~= Seq::empty());
            calls
        },
    }
}

/// Round trip: a response that holds a choice is mapped to an event that
/// shows the text of the reply as it came, the empty text where the reply
/// has none, and asks for the reply's tool calls, each with its id, its name
/// and its arguments, in their order. Nothing is lost and nothing is added.
pub proof fn law_response_round_trip(response: CompletionsResponseView)
    requires
        response.choices.len() > 0,
    ensures
        !(response_event(response) is Error),
        visible_text(response_event(response)) == (match response.choices[0].message.content {
            Some(text) => text,
            None => Seq::empty(),
        }),
        requested_calls(response_event(response)) == reply_tool_calls(
            response.choices[0].message,
        ),
        response.choices[0].message.tool_calls matches Some(calls) ==> {
            &&& requested_calls(response_event(response)).len() == calls.len()
            &&& forall|i: int|
                0 <= i < calls.len() ==> requested_calls(response_event(response))[i]
                    == tool_call_of(#[trigger] calls[i])
        },
{
}

} // verus!
