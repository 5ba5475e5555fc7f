use matrix_mcp::sampling::{
    api_key_or_placeholder, chat_messages, first_choice_text, ChatEntry, ChatRole, Message,
    SamplingError, CHAT_MODEL,
};

fn entry(role: ChatRole, content: &str) -> ChatEntry {
    ChatEntry { role, content: content.to_string() }
}

#[test]
fn chat_messages_puts_system_prompt_first_then_turns_in_order() {
    let messages = vec![
        Message::User("hi".to_string()),
        Message::Assistant("hello".to_string()),
        Message::User("bye".to_string()),
    ];
    assert_eq!(
        chat_messages(Some("be kind"), messages),
        vec![
            entry(ChatRole::System, "be kind"),
            entry(ChatRole::User, "hi"),
            entry(ChatRole::Assistant, "hello"),
            entry(ChatRole::User, "bye"),
        ]
    );
}

#[test]
fn chat_messages_without_system_prompt_has_only_turns() {
    assert_eq!(
        chat_messages(None, vec![Message::User("q".to_string())]),
        vec![entry(ChatRole::User, "q")]
    );
    assert_eq!(chat_messages(None, vec![]), vec![]);
}

#[test]
fn api_key_defaults_to_placeholder() {
    assert_eq!(api_key_or_placeholder(None), "not-needed");
    assert_eq!(api_key_or_placeholder(Some("sk-1")), "sk-1");
    assert_eq!(CHAT_MODEL, "auto");
}

#[test]
fn first_choice_text_takes_first_content() {
    let choices = vec![Some("first".to_string()), Some("second".to_string())];
    assert_eq!(first_choice_text(&choices), Ok("first".to_string()));
}

#[test]
fn first_choice_text_without_content_is_an_error() {
    let choices = vec![None, Some("second".to_string())];
    assert_eq!(first_choice_text(&choices), Err(SamplingError::MissingContent));
    assert_eq!(SamplingError::MissingContent.describe(), "failed to parse response message");
    assert_eq!(SamplingError::SystemMessage.describe(), "failed to create system message");
    assert_eq!(SamplingError::TurnMessage.describe(), "failed to create user message");
    assert_eq!(SamplingError::Communication.describe(), "failed to communicate with LLM");
}
