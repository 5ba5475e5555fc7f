//! The MCP server's single tool: sending a Markdown message to a room.

use vstd::prelude::*;

verus! {

/// The tool's description, shown to MCP clients.
pub const SEND_MESSAGE_DESCRIPTION: &'static str =
    "Send a Markdown-formatted message to a Matrix room, identified by room ID or alias.";

/// The server's instructions, shown to MCP clients.
pub const SERVER_INSTRUCTIONS: &'static str =
    "Sends Markdown-formatted messages to Matrix rooms on behalf of a bot account. Use send_message with a room ID or alias and the message text.";

/// The message of the internal error the tool answers with when sending
/// failed.
pub const SEND_FAILED_MESSAGE: &'static str = "failed to send message";

/// Arguments of the `send_message` tool.
#[derive(Clone, Debug, PartialEq, Eq)]
pub struct SendMessageInput {
    /// A room ID (e.g. "!abcdef:example.com") or a room alias (e.g.
    /// "#room:example.com").
    pub room: String,
    /// The message body, sent as Markdown.
    pub text: String,
}

/// Result of the `send_message` tool.
#[derive(Clone, Debug, PartialEq, Eq)]
pub struct SendMessageOutput {
    /// The room the message was sent to, as given in the request.
    pub room: String,
}

/// An internal error, as the tool reports it to the client.
#[derive(Clone, Debug, PartialEq, Eq)]
pub struct ToolError {
    /// What failed.
    pub message: &'static str,
    /// The underlying error's text.
    pub data: String,
}

/// The tool's answer once the bot tried to send: the room as requested, or
/// an internal error that carries the bot's error text.
pub fn send_message_result(input: SendMessageInput, sent: Result<(), String>) -> (r: Result<
    SendMessageOutput,
    ToolError,
>)
    ensures
        sent is Ok ==> r == Ok::<SendMessageOutput, ToolError>(
            SendMessageOutput { room: input.room },
        ),
        sent matches Err(e) ==> r == Err::<SendMessageOutput, ToolError>(
            ToolError { message: SEND_FAILED_MESSAGE, data: e },
        ),
{
    match sent {
        Ok(()) => Ok(SendMessageOutput { room: input.room }),
        Err(e) => Err(ToolError { message: SEND_FAILED_MESSAGE, data: e }),
    }
}

} // verus!
