//! Fetching the message text from a "generate message" MCP server: the
//! credentials the relay presents, and what its failures say.

use crate::text::concat2;
use vstd::prelude::*;
use vstd::string::*;

verus! {

/// The client name the relays announce to the generate server.
pub const CLIENT_NAME: &'static str = "matrix-relay";

/// How long, in seconds, an OAuth request may take.
pub const OAUTH_TIMEOUT_SECS: u64 = 60;

/// An OAuth 2.1 client credentials grant, authenticated by a client secret.
#[derive(Clone, Debug, PartialEq, Eq)]
pub struct ClientCredentials {
    pub client_id: String,
    pub client_secret: String,
    pub scopes: Vec<String>,
    /// The resource the token is meant for.
    pub resource: Option<String>,
}

/// The grant the relay asks for: no scopes, for the generate server itself
/// as the resource.
pub fn client_credentials(client_id: &str, client_secret: &str, generate_url: &str) -> (c:
    ClientCredentials)
    ensures
        c.client_id@ == client_id@,
        c.client_secret@ == client_secret@,
        c.scopes@.len() == 0,
        c.resource matches Some(r) && r@ == generate_url@,
{
    ClientCredentials {
        client_id: String::from_str(client_id),
        client_secret: String::from_str(client_secret),
        scopes: Vec::new(),
        resource: Some(String::from_str(generate_url)),
    }
}

/// Why no message text came from the generate server.
#[derive(Clone, Debug, PartialEq, Eq)]
pub enum GenerateError {
    HttpClient,
    OAuthState { url: String },
    OAuthAuthentication { url: String },
    AuthorizationManager,
    Connect { url: String },
    ReadResource { resource: String },
    NoResourceText { resource: String },
    CallTool { tool: String },
    NoToolText { tool: String },
}

impl GenerateError {
    /// The message that explains the error.
    pub open spec fn text(self) -> Seq<char> {
        match self {
            GenerateError::HttpClient => "failed to create http client for OAuth communication"@,
            GenerateError::OAuthState { url } => "failed to initialize OAuth state for "@ + url@,
            GenerateError::OAuthAuthentication { url } =>
                "OAuth client credentials authentication failed for "@ + url@,
            GenerateError::AuthorizationManager => "failed to get OAuth authorization manager"@,
            GenerateError::Connect { url } => "failed to connect to generate server at "@ + url@,
            GenerateError::ReadResource { resource } => "failed to read resource "@ + resource@,
            GenerateError::NoResourceText { resource } => resource@ + " has no text contents"@,
            GenerateError::CallTool { tool } => "failed to call "@ + tool@,
            GenerateError::NoToolText { tool } => tool@ + " returned no text content"@,
        }
    }

    /// Renders the message that explains the error.
    pub fn describe(&self) -> (r: String)
        ensures
            r@ == self.text(),
    {
        match self {
            GenerateError::HttpClient => String::from_str(
                "failed to create http client for OAuth communication",
            ),
            GenerateError::OAuthState { url } => concat2(
                "failed to initialize OAuth state for ",
                url.as_str(),
            ),
            GenerateError::OAuthAuthentication { url } => concat2(
                "OAuth client credentials authentication failed for ",
                url.as_str(),
            ),
            GenerateError::AuthorizationManager => String::from_str(
                "failed to get OAuth authorization manager",
            ),
            GenerateError::Connect { url } => concat2(
                "failed to connect to generate server at ",
                url.as_str(),
            ),
            GenerateError::ReadResource { resource } => concat2(
                "failed to read resource ",
                resource.as_str(),
            ),
            GenerateError::NoResourceText { resource } => concat2(
                resource.as_str(),
                " has no text contents",
            ),
            GenerateError::CallTool { tool } => concat2("failed to call ", tool.as_str()),
            GenerateError::NoToolText { tool } => concat2(
                tool.as_str(),
                " returned no text content",
            ),
        }
    }
}

} // verus!
