use matrix_mcp::matrix::session::{
    advance_login, after_read_session, begin_login, serialize_fetched_session, LoginContext, LoginStep, SessionError, SESSION_FILE_NAME,
    STORE_DIR_NAME,
};

fn ctx() -> LoginContext {
    LoginContext {
        state_dir: "./matrix-state".to_string(),
        session_file: "./matrix-state/session.json".to_string(),
        username: "bot".to_string(),
    }
}

fn run(outcomes: &[bool]) -> Vec<LoginStep> {
    let ctx = ctx();
    let mut step = begin_login();
    let mut steps = vec![step.clone()];
    for ok in outcomes {
        step = advance_login(&ctx, step, *ok);
        steps.push(step.clone());
    }
    steps
}

#[test]
fn login_reuses_saved_session() {
    assert_eq!(
        run(&[true, true, true, true, true, true]),
        vec![
            LoginStep::CreateStateDir,
            LoginStep::BuildClient,
            LoginStep::CheckSessionFile,
            LoginStep::ReadSessionFile,
            LoginStep::ParseSession,
            LoginStep::RestoreSession,
            LoginStep::Done { restored: true },
        ]
    );
}

#[test]
fn login_without_saved_session_logs_in_and_persists() {
    assert_eq!(
        run(&[true, true, false, true, true, true, true]),
        vec![
            LoginStep::CreateStateDir,
            LoginStep::BuildClient,
            LoginStep::CheckSessionFile,
            LoginStep::LogIn,
            LoginStep::FetchSession,
            LoginStep::SerializeSession,
            LoginStep::WriteSessionFile,
            LoginStep::Done { restored: false },
        ]
    );
}

#[test]
fn login_failures_end_the_login_with_their_message() {
    let cases: Vec<(Vec<bool>, &str)> = vec![
        (vec![false], "failed to create state dir ./matrix-state"),
        (vec![true, false], "failed to create matrix client"),
        (vec![true, true, true, false], "failed to read session file ./matrix-state/session.json"),
        (vec![true, true, true, true, false], "failed to parse session file ./matrix-state/session.json"),
        (vec![true, true, true, true, true, false], "failed to restore existing session"),
        (vec![true, true, false, false], "failed to login to bot"),
        (vec![true, true, false, true, false], "client has no session right after login"),
        (vec![true, true, false, true, true, false], "failed to serialize session"),
        (
            vec![true, true, false, true, true, true, false],
            "failed to write session file ./matrix-state/session.json",
        ),
    ];
    for (outcomes, message) in cases {
        match run(&outcomes).last().unwrap() {
            LoginStep::Failed(e) => assert_eq!(e.describe(), message),
            other => panic!("unexpected {other:?}"),
        }
    }
}

#[test]
fn finished_login_stays_finished() {
    let ctx = ctx();
    let done = LoginStep::Done { restored: true };
    assert_eq!(advance_login(&ctx, done.clone(), false), done);
    let failed = LoginStep::Failed(SessionError::BuildClient);
    assert_eq!(advance_login(&ctx, failed.clone(), true), failed);
}

#[test]
fn state_dir_layout() {
    assert_eq!(SESSION_FILE_NAME, "session.json");
    assert_eq!(STORE_DIR_NAME, "store");
}

const SAVED_SESSION: &str =
    "{\"user_id\":\"@bot:example.org\",\"device_id\":\"BOTDEVICE\",\"access_token\":\"secret-token\"}";

#[test]
fn saved_session_text_is_parsed_and_restored() {
    let (step, parsed) = after_read_session(&ctx(), SAVED_SESSION);
    assert_eq!(step, LoginStep::RestoreSession);
    let session = parsed.expect("the saved session parses");
    assert_eq!(session.meta.device_id.as_str(), "BOTDEVICE");
    assert_eq!(session.meta.user_id.as_str(), "@bot:example.org");
    assert_eq!(session.tokens.access_token, "secret-token");
}

#[test]
fn unparsable_session_file_fails_the_login() {
    let (step, parsed) = after_read_session(&ctx(), "not a session");
    assert_eq!(
        step,
        LoginStep::Failed(SessionError::ParseSessionFile {
            file: "./matrix-state/session.json".to_string()
        })
    );
    assert!(parsed.is_err());
    assert_eq!(
        SessionError::ParseSessionFile { file: "./matrix-state/session.json".to_string() }.describe(),
        "failed to parse session file ./matrix-state/session.json"
    );
}

#[test]
fn session_missing_a_field_fails_the_login() {
    let (step, parsed) = after_read_session(&ctx(), "{\"user_id\":\"@bot:example.org\"}");
    assert!(matches!(step, LoginStep::Failed(SessionError::ParseSessionFile { .. })));
    assert!(parsed.is_err());
}

#[test]
fn saved_session_is_written_and_read_back_on_the_next_run() {
    let (_, parsed) = after_read_session(&ctx(), SAVED_SESSION);
    let session = parsed.expect("the saved session parses");
    let (step, written) = serialize_fetched_session(&ctx(), &session);
    assert_eq!(step, LoginStep::WriteSessionFile);
    let text = written.expect("a session serializes");
    assert!(text.contains("BOTDEVICE"));
    let (next_run, reparsed) = after_read_session(&ctx(), &text);
    assert_eq!(next_run, LoginStep::RestoreSession);
    assert_eq!(reparsed.expect("written text parses").meta.device_id.as_str(), "BOTDEVICE");
}
