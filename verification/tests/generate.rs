use matrix_mcp::generate::{client_credentials, GenerateError, CLIENT_NAME, OAUTH_TIMEOUT_SECS};

#[test]
fn client_credentials_target_the_generate_server() {
    let c = client_credentials("id", "SECRET-REDACTED", "http://127.0.0.1:8001/mcp");
    assert_eq!(c.client_id, "id");
    assert_eq!(c.client_secret, "SECRET-REDACTED");
    assert!(c.scopes.is_empty());
    assert_eq!(c.resource, Some("http://127.0.0.1:8001/mcp".to_string()));
    assert_eq!(CLIENT_NAME, "matrix-relay");
    assert_eq!(OAUTH_TIMEOUT_SECS, 60);
}

#[test]
fn generate_error_messages() {
    let url = "http://h/mcp".to_string();
    let cases = vec![
        (GenerateError::HttpClient, "failed to create http client for OAuth communication"),
        (GenerateError::OAuthState { url: url.clone() }, "failed to initialize OAuth state for http://h/mcp"),
        (
            GenerateError::OAuthAuthentication { url: url.clone() },
            "OAuth client credentials authentication failed for http://h/mcp",
        ),
        (GenerateError::AuthorizationManager, "failed to get OAuth authorization manager"),
        (GenerateError::Connect { url: url.clone() }, "failed to connect to generate server at http://h/mcp"),
        (GenerateError::ReadResource { resource: "r://d".to_string() }, "failed to read resource r://d"),
        (GenerateError::NoResourceText { resource: "r://d".to_string() }, "r://d has no text contents"),
        (GenerateError::CallTool { tool: "daily".to_string() }, "failed to call daily"),
        (GenerateError::NoToolText { tool: "daily".to_string() }, "daily returned no text content"),
    ];
    for (e, message) in cases {
        assert_eq!(e.describe(), message);
    }
}
