//! Shaping a chat with a language model: the messages sent, and the text
//! taken from its answer.

use vstd::prelude::*;
use vstd::string::*;

verus! {

/// The model name sent with every request; the server picks the model.
pub const CHAT_MODEL: &'static str = "auto";

/// The API key sent when the caller has none.
pub const PLACEHOLDER_API_KEY: &'static str = "not-needed";

/// One turn of a conversation with the language model.
#[derive(Clone, Debug, PartialEq, Eq)]
pub enum Message {
    /// Written by the user.
    User(String),
    /// Written by the model.
    Assistant(String),
}

/// Who speaks a chat message.
#[derive(Clone, Copy, Debug, PartialEq, Eq)]
pub enum ChatRole {
    System,
    User,
    Assistant,
}

/// One message of the request, with its role.
#[derive(Clone, Debug, PartialEq, Eq)]
pub struct ChatEntry {
    pub role: ChatRole,
    pub content: String,
}

/// The role and text of a conversation turn.
pub open spec fn turn_of(m: Message) -> (ChatRole, Seq<char>) {
    match m {
        Message::User(text) => (ChatRole::User, text@),
        Message::Assistant(text) => (ChatRole::Assistant, text@),
    }
}

/// The role and text of a request message.
pub open spec fn entry_view(e: ChatEntry) -> (ChatRole, Seq<char>) {
    (e.role, e.content@)
}

/// The request's messages: the system prompt first where there is one, then
/// each turn in order.
pub open spec fn chat_request(system_prompt: Option<Seq<char>>, messages: Seq<Message>) -> Seq<
    (ChatRole, Seq<char>),
> {
    let turns = messages.map_values(|m: Message| turn_of(m));
    match system_prompt {
        Some(p) => seq![(ChatRole::System, p)] + turns,
        None => turns,
    }
}

/// The view of an optional string slice.
pub open spec fn opt_str_view(o: Option<&str>) -> Option<Seq<char>> {
    match o {
        Some(s) => Some(s@),
        None => None,
    }
}

/// The key to authenticate with: the caller's, else a placeholder that
/// servers without authentication accept.
pub fn api_key_or_placeholder<'a>(api_key: Option<&'a str>) -> (key: &'a str)
    ensures
        api_key matches Some(k) ==> key == k,
        api_key is None ==> key == PLACEHOLDER_API_KEY,
{
    match api_key {
        Some(k) => k,
        None => PLACEHOLDER_API_KEY,
    }
}

/// Lays out the request's messages: the optional system prompt first, then
/// the turns in their order, each under its role.
pub fn chat_messages(system_prompt: Option<&str>, messages: Vec<Message>) -> (r: Vec<ChatEntry>)
    ensures
        r@.map_values(|e: ChatEntry| entry_view(e)) == chat_request(
            opt_str_view(system_prompt),
            messages@,
        ),
{
    let mut r: Vec<ChatEntry> = Vec::new();
    if let Some(p) = system_prompt {
        r.push(ChatEntry { role: ChatRole::System, content: String::from_str(p) });
    }
    let ghost head = r@.map_values(|e: ChatEntry| entry_view(e));
    let mut i: usize = 0;
    while i < messages.len()
        invariant
            i <= messages.len(),
            head == match opt_str_view(system_prompt) {
                Some(p) => seq![(ChatRole::System, p)],
                None => Seq::<(ChatRole, Seq<char>)>::empty(),
            },
            r@.map_values(|e: ChatEntry| entry_view(e)) == head + messages@.take(
                i as int,
            ).map_values(|m: Message| turn_of(m)),
        decreases messages.len() - i,
    {
        let entry = match &messages[i] {
            Message::User(text) => ChatEntry { role: ChatRole::User, content: text.clone() },
            Message::Assistant(text) => ChatEntry {
                role: ChatRole::Assistant,
                content: text.clone(),
            },
        };
        assert(entry_view(entry) == turn_of(messages@[i as int]));
        let ghost old_r = r@;
        r.push(entry);
        proof {
            assert(r@.map_values(|e: ChatEntry| entry_view(e)) =~= old_r.map_values(
                |e: ChatEntry| entry_view(e),
            ).push(entry_view(entry)));
            assert(messages@.take(i + 1) =~= messages@.take(i as int).push(messages@[i as int]));
            assert(messages@.take(i + 1).map_values(|m: Message| turn_of(m)) =~= messages@.take(
                i as int,
            ).map_values(|m: Message| turn_of(m)).push(turn_of(messages@[i as int])));
            assert(r@.map_values(|e: ChatEntry| entry_view(e)) =~= head + messages@.take(
                i + 1,
            ).map_values(|m: Message| turn_of(m)));
        }
        i = i + 1;
    }
    proof {
        assert(messages@.take(messages@.len() as int) =~= messages@);
    }
    r
}

/// Where a system prompt is given, it is the request's first message, with
/// the system role, and the turns follow it one each, in order, each user
/// turn under the user role and each model turn under the assistant role;
/// without one the turns alone make up the request.
pub proof fn lemma_chat_request_layout(system_prompt: Option<Seq<char>>, messages: Seq<Message>)
    ensures
        ({
            let r = chat_request(system_prompt, messages);
            let first: int = if system_prompt is Some {
                1
            } else {
                0
            };
            &&& r.len() == messages.len() + first
            &&& system_prompt matches Some(p) ==> r[0] == (ChatRole::System, p)
            &&& forall|i: int|
                0 <= i < messages.len() ==> (#[trigger] messages[i] matches Message::User(t) ==> r[i + first]
                    == (ChatRole::User, t@))
                    && (messages[i] matches Message::Assistant(t) ==> r[i + first] == (
                    ChatRole::Assistant,
                    t@,
                ))
        }),
{
}

/// Why a chat with the model gave no text.
#[derive(Clone, Copy, Debug, PartialEq, Eq)]
pub enum SamplingError {
    /// The system message could not be built.
    SystemMessage,
    /// A conversation turn could not be built.
    TurnMessage,
    /// The request did not reach the model or got no answer.
    Communication,
    /// The first answer holds no text.
    MissingContent,
}

impl SamplingError {
    /// The message that explains the error.
    pub open spec fn text(self) -> Seq<char> {
        match self {
            SamplingError::SystemMessage => "failed to create system message"@,
            SamplingError::TurnMessage => "failed to create user message"@,
            SamplingError::Communication => "failed to communicate with LLM"@,
            SamplingError::MissingContent => "failed to parse response message"@,
        }
    }

    /// Renders the message that explains the error.
    pub fn describe(self) -> (r: &'static str)
        ensures
            r@ == self.text(),
    {
        match self {
            SamplingError::SystemMessage => "failed to create system message",
            SamplingError::TurnMessage => "failed to create user message",
            SamplingError::Communication => "failed to communicate with LLM",
            SamplingError::MissingContent => "failed to parse response message",
        }
    }
}

/// The answer's text: the content of the first choice, an error where that
/// choice has none.
pub fn first_choice_text(choices: &Vec<Option<String>>) -> (r: Result<String, SamplingError>)
    requires
        choices.len() > 0,
    ensures
        choices@[0] matches Some(t) ==> r == Ok::<String, SamplingError>(t),
        choices@[0] is None ==> r == Err::<String, SamplingError>(SamplingError::MissingContent),
{
    match &choices[0] {
        Some(t) => Ok(t.clone()),
        None => Err(SamplingError::MissingContent),
    }
}

} // verus!
