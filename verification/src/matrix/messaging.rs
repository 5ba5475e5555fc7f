//! Sending one Markdown message to a Matrix room named by ID or alias.

use matrix_sdk::ruma::events::room::message::FormattedBody;
use matrix_sdk::ruma::{IdParseError, RoomOrAliasId};
use crate::text::{concat2, concat3};
use vstd::prelude::*;
use vstd::string::*;

verus! {

#[verifier::external_type_specification]
#[verifier::external_body]
pub struct ExIdParseError(IdParseError);

/// Whether `RoomOrAliasId::parse` accepts the text as a room ID or a room
/// alias.
pub uninterp spec fn room_or_alias_id_valid(s: Seq<char>) -> bool;

/// The HTML that `FormattedBody::markdown` renders from the text, or `None`
/// where the text holds no Markdown formatting.
pub uninterp spec fn markdown_html(text: Seq<char>) -> Option<Seq<char>>;

/// Calls `RoomOrAliasId::parse` and hands back the text of the parsed ID.
/// The source validates the text and keeps it unchanged; its validation
/// dispatches on the first byte, and accepts only `!` (room ID) or `#`
/// (room alias) there.
#[verifier::external_body]
fn parse_room_or_alias_id(s: &str) -> (r: Result<String, IdParseError>)
    ensures
        r is Ok <==> room_or_alias_id_valid(s@),
        r matches Ok(id) ==> id@ == s@ && s@.len() > 0 && (s@[0] == '!' || s@[0] == '#'),
{
    RoomOrAliasId::parse(s).map(|id| id.as_str().to_owned())
}

/// Calls `FormattedBody::markdown` and hands back the HTML body it built.
#[verifier::external_body]
fn render_markdown(text: &str) -> (r: Option<String>)
    ensures
        r is None <==> markdown_html(text@) is None,
        r matches Some(html) ==> markdown_html(text@) == Some(html@),
{
    FormattedBody::markdown(text).map(|formatted| formatted.body)
}

/// A room to send to, as named by the caller.
#[derive(Clone, Debug, PartialEq, Eq)]
pub enum RoomTarget {
    /// A room ID such as `!abcdef:example.com`.
    RoomId(String),
    /// A room alias such as `#room:example.com`, to be resolved first.
    Alias(String),
}

impl RoomTarget {
    /// The text that names the room.
    pub open spec fn text(self) -> Seq<char> {
        match self {
            RoomTarget::RoomId(id) => id@,
            RoomTarget::Alias(alias) => alias@,
        }
    }
}

/// Why a message could not be sent.
#[derive(Debug)]
pub enum MessagingError {
    /// The text is neither a valid room ID nor a valid alias.
    InvalidRoomTarget { input: String, cause: IdParseError },
    /// The client could not sync with the homeserver.
    SyncFailed,
    /// The homeserver could not resolve the alias.
    AliasNotResolved { alias: String },
    /// The client is not in the room, or does not know it.
    UnknownRoom { room_id: String },
    /// The homeserver did not take the message.
    SendFailed,
}

impl MessagingError {
    /// The message that explains the error.
    pub open spec fn text(&self) -> Seq<char> {
        match self {
            MessagingError::InvalidRoomTarget { input, .. } => "'"@ + input@
                + "' is neither a valid room ID nor alias"@,
            MessagingError::SyncFailed => "failed to sync"@,
            MessagingError::AliasNotResolved { alias } => "failed to resolve room alias "@
                + alias@,
            MessagingError::UnknownRoom { room_id } => "not a member of room "@ + room_id@
                + ", or room is unknown"@,
            MessagingError::SendFailed => "failed to send message"@,
        }
    }

    /// Renders the message that explains the error.
    pub fn describe(&self) -> (r: String)
        ensures
            r@ == self.text(),
    {
        match self {
            MessagingError::InvalidRoomTarget { input, .. } => concat3(
                "'",
                input.as_str(),
                "' is neither a valid room ID nor alias",
            ),
            MessagingError::SyncFailed => String::from_str("failed to sync"),
            MessagingError::AliasNotResolved { alias } => concat2(
                "failed to resolve room alias ",
                alias.as_str(),
            ),
            MessagingError::UnknownRoom { room_id } => concat3(
                "not a member of room ",
                room_id.as_str(),
                ", or room is unknown",
            ),
            MessagingError::SendFailed => String::from_str("failed to send message"),
        }
    }
}

/// Tells a parsed room ID from a parsed alias by its leading sigil.
pub fn classify_room_or_alias(id: String) -> (t: RoomTarget)
    requires
        id@.len() > 0,
        id@[0] == '!' || id@[0] == '#',
    ensures
        id@[0] == '!' ==> t == RoomTarget::RoomId(id),
        id@[0] == '#' ==> t == RoomTarget::Alias(id),
{
    let sigil = id.as_str().get_char(0);
    if sigil == '!' {
        RoomTarget::RoomId(id)
    } else {
        RoomTarget::Alias(id)
    }
}

/// Parses the caller's room ID or alias.
pub fn parse_room_target(room_id_or_alias: &str) -> (r: Result<RoomTarget, MessagingError>)
    ensures
        r is Ok <==> room_or_alias_id_valid(room_id_or_alias@),
        r matches Ok(t) ==> t.text() == room_id_or_alias@ && (t is RoomId <==> room_id_or_alias@[0]
            == '!') && (t is Alias <==> room_id_or_alias@[0] == '#'),
        r matches Err(e) ==> e matches MessagingError::InvalidRoomTarget { input, .. } && input@
            == room_id_or_alias@,
{
    match parse_room_or_alias_id(room_id_or_alias) {
        Ok(id) => Ok(classify_room_or_alias(id)),
        Err(cause) => Err(
            MessagingError::InvalidRoomTarget { input: String::from_str(room_id_or_alias), cause },
        ),
    }
}

/// The view of an optional string.
pub open spec fn opt_text(o: Option<String>) -> Option<Seq<char>> {
    match o {
        Some(s) => Some(s@),
        None => None,
    }
}

/// A text message: the plain body, and the HTML rendering of its Markdown
/// where it has any.
#[derive(Clone, Debug, PartialEq, Eq)]
pub struct MessageContent {
    pub body: String,
    pub html: Option<String>,
}

/// Builds the message from its text and the rendering of that text.
pub fn content_from_rendering(text: &str, html: Option<String>) -> (c: MessageContent)
    ensures
        c.body@ == text@,
        c.html == html,
{
    MessageContent { body: String::from_str(text), html }
}

/// Builds the message for `text`: the text itself as plain body (the
/// fallback for clients without HTML), and its Markdown rendered to HTML.
pub fn message_content(text: &str) -> (c: MessageContent)
    ensures
        c.body@ == text@,
        opt_text(c.html) == markdown_html(text@),
{
    let html = render_markdown(text);
    content_from_rendering(text, html)
}

/// The next thing to do to get a message into a room. Each variant that
/// asks for outside work names the function that takes its outcome.
#[derive(Debug)]
pub enum SendStep {
    /// Sync once with the homeserver, then call `after_sync`.
    Sync { target: RoomTarget },
    /// Ask the homeserver for the room ID of the alias, then call
    /// `after_resolve`.
    ResolveAlias { alias: String },
    /// Look the room up among the client's rooms, then call `after_lookup`.
    LookUpRoom { room_id: String },
    /// Send the content to the room, then call `after_send`.
    Send { room_id: String, content: MessageContent },
    /// The message is in the room.
    Done { room_id: String },
    /// Sending stopped with this error.
    Failed(MessagingError),
}

/// First step: parse the target; a valid one is synced for, an invalid one
/// ends the attempt before any request.
pub fn begin_send(room_id_or_alias: &str) -> (step: SendStep)
    ensures
        room_or_alias_id_valid(room_id_or_alias@) ==> (step matches SendStep::Sync { target }
            && target.text() == room_id_or_alias@ && (target is RoomId <==> room_id_or_alias@[0]
            == '!')),
        !room_or_alias_id_valid(room_id_or_alias@) ==> (step matches SendStep::Failed(e) && e
            matches MessagingError::InvalidRoomTarget { input, .. } && input@
            == room_id_or_alias@),
{
    match parse_room_target(room_id_or_alias) {
        Ok(target) => SendStep::Sync { target },
        Err(e) => SendStep::Failed(e),
    }
}

/// After the sync: a room ID is looked up directly, an alias is resolved
/// first; a failed sync ends the attempt.
pub fn after_sync(target: RoomTarget, synced: bool) -> (step: SendStep)
    ensures
        !synced ==> step matches SendStep::Failed(MessagingError::SyncFailed),
        synced ==> match target {
            RoomTarget::RoomId(id) => (step matches SendStep::LookUpRoom { room_id } && room_id
                == id),
            RoomTarget::Alias(a) => (step matches SendStep::ResolveAlias { alias } && alias == a),
        },
{
    if !synced {
        return SendStep::Failed(MessagingError::SyncFailed);
    }
    match target {
        RoomTarget::RoomId(room_id) => SendStep::LookUpRoom { room_id },
        RoomTarget::Alias(alias) => SendStep::ResolveAlias { alias },
    }
}

/// After the alias resolution: the resolved room is looked up; an alias
/// that could not be resolved ends the attempt.
pub fn after_resolve(alias: String, resolved: Option<String>) -> (step: SendStep)
    ensures
        resolved matches Some(id) ==> (step matches SendStep::LookUpRoom { room_id } && room_id
            == id),
        resolved is None ==> (step matches SendStep::Failed(
            MessagingError::AliasNotResolved { alias: a },
        ) && a == alias),
{
    match resolved {
        Some(room_id) => SendStep::LookUpRoom { room_id },
        None => SendStep::Failed(MessagingError::AliasNotResolved { alias }),
    }
}

/// After the lookup: a known room gets the message built from `text`; an
/// unknown room ends the attempt.
pub fn after_lookup(room_id: String, found: bool, text: &str) -> (step: SendStep)
    ensures
        found ==> (step matches SendStep::Send { room_id: r, content } && r == room_id
            && content.body@ == text@ && opt_text(content.html) == markdown_html(text@)),
        !found ==> (step matches SendStep::Failed(MessagingError::UnknownRoom { room_id: r })
            && r == room_id),
{
    if found {
        SendStep::Send { room_id, content: message_content(text) }
    } else {
        SendStep::Failed(MessagingError::UnknownRoom { room_id })
    }
}

/// After the send: done, or failed.
pub fn after_send(room_id: String, sent: bool) -> (step: SendStep)
    ensures
        sent ==> (step matches SendStep::Done { room_id: r } && r == room_id),
        !sent ==> step matches SendStep::Failed(MessagingError::SendFailed),
{
    if sent {
        SendStep::Done { room_id }
    } else {
        SendStep::Failed(MessagingError::SendFailed)
    }
}

} // verus!
