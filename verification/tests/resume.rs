use llm_openai::llm::{
    ContentPart, ImageReference, ImageUrl, Message, Role, StreamDelta, ToolCall,
};
use llm_openai::resume::retry_prompt;

const INSTRUCTION: &str = "You were asked the same question previously, but the response was interrupted before completion. Please continue your response from where you left off. Do not include the part of the response that was already seen.";

fn text(value: &str) -> ContentPart {
    ContentPart::Text(value.to_string())
}

fn question() -> Vec<Message> {
    vec![
        Message {
            role: Role::System,
            name: None,
            content: vec![text("Produce the output in both English and Hungarian")],
        },
        Message {
            role: Role::User,
            name: Some("vigoo".to_string()),
            content: vec![
                text("What is on this image?"),
                ContentPart::Image(ImageReference::Url(ImageUrl {
                    url: "https://example.com/cat.png".to_string(),
                    detail: None,
                })),
            ],
        },
    ]
}

fn deltas() -> Vec<StreamDelta> {
    vec![
        StreamDelta { content: Some(vec![text("A ca")]), tool_calls: None },
        StreamDelta { content: None, tool_calls: None },
        StreamDelta {
            content: None,
            tool_calls: Some(vec![
                ToolCall {
                    id: "c1".to_string(),
                    name: "zoom".to_string(),
                    arguments_json: "{\"x\":".to_string(),
                },
                ToolCall {
                    id: "c1".to_string(),
                    name: "zoom".to_string(),
                    arguments_json: "{\"x\":1}".to_string(),
                },
            ]),
        },
        StreamDelta {
            content: Some(vec![text("t, "), text("asleep")]),
            tool_calls: Some(vec![ToolCall {
                id: "c2".to_string(),
                name: "n".to_string(),
                arguments_json: String::new(),
            }]),
        },
    ]
}

#[test]
fn resumed_conversation_has_the_four_parts_in_order() {
    let extended = retry_prompt(&question(), &deltas());
    assert_eq!(
        extended,
        vec![
            Message { role: Role::System, name: None, content: vec![text(INSTRUCTION)] },
            Message {
                role: Role::User,
                name: None,
                content: vec![text("Here is the original question:")],
            },
            question()[0].clone(),
            question()[1].clone(),
            Message {
                role: Role::User,
                name: None,
                content: vec![
                    text("Here is the partial response that was successfully received:"),
                    text("A ca"),
                    text("<tool-call id=\"c1\" name=\"zoom\" arguments=\"{\"x\":\"/>"),
                    text("<tool-call id=\"c1\" name=\"zoom\" arguments=\"{\"x\":1}\"/>"),
                    text("t, "),
                    text("asleep"),
                    text("<tool-call id=\"c2\" name=\"n\" arguments=\"\"/>"),
                ],
            },
        ]
    );
}

#[test]
fn resumed_conversation_of_nothing() {
    let extended = retry_prompt(&[], &[]);
    assert_eq!(extended.len(), 3);
    assert_eq!(extended[0].role, Role::System);
    assert_eq!(extended[1].role, Role::User);
    assert_eq!(
        extended[2],
        Message {
            role: Role::User,
            name: None,
            content: vec![text("Here is the partial response that was successfully received:")],
        }
    );
}

#[test]
fn same_arguments_give_the_same_conversation() {
    let first = retry_prompt(&question(), &deltas());
    let second = retry_prompt(&question(), &deltas());
    assert_eq!(first, second);
    let third = retry_prompt(&question(), &deltas()[..2]);
    assert_ne!(first, third);
}

#[test]
fn original_messages_are_kept_as_they_were() {
    let original = question();
    let extended = retry_prompt(&original, &deltas());
    assert_eq!(extended.len(), original.len() + 3);
    assert_eq!(&extended[2..2 + original.len()], original.as_slice());
    assert_eq!(original, question());
}
