//! Logging in, or restoring a session persisted by an earlier run, so the
//! bot keeps using one device across restarts.

use crate::text::concat2;
use matrix_sdk::authentication::matrix::MatrixSession;
use vstd::prelude::*;
use vstd::string::*;

verus! {

#[verifier::external_type_specification]
#[verifier::external_body]
pub struct ExMatrixSession(MatrixSession);

#[verifier::external_type_specification]
#[verifier::external_body]
pub struct ExSerdeJsonError(serde_json::Error);

/// Whether `serde_json::from_str` parses the text as a `MatrixSession`.
pub uninterp spec fn session_json_parses(data: Seq<char>) -> bool;

/// Calls `serde_json::from_str::<MatrixSession>`, which parses the text as
/// a session or fails with the parse error; which of the two depends on
/// the text alone, and is what `session_json_parses` names.
#[verifier::external_body]
fn parse_session(data: &str) -> (r: Result<MatrixSession, serde_json::Error>)
    ensures
        r is Ok <==> session_json_parses(data@),
{
    serde_json::from_str::<MatrixSession>(data)
}

/// Calls `serde_json::to_string_pretty` on a session. Nothing is stated of
/// the text it gives, nor of when it fails: the session is opaque here, and
/// serde_json documents failure only as the type's `Serialize` choosing to
/// fail.
#[verifier::external_body]
fn serialize_session(session: &MatrixSession) -> (r: Result<String, serde_json::Error>) {
    serde_json::to_string_pretty(session)
}

/// The file, inside the state directory, that holds the persisted session.
pub const SESSION_FILE_NAME: &'static str = "session.json";

/// The directory, inside the state directory, that holds the client's store.
pub const STORE_DIR_NAME: &'static str = "store";

/// What the login is about, as far as its messages name it.
#[derive(Clone, Debug, PartialEq, Eq)]
pub struct LoginContext {
    /// The state directory, as displayed.
    pub state_dir: String,
    /// The session file, as displayed.
    pub session_file: String,
    /// The user name to log in with.
    pub username: String,
}

/// Why no logged-in client came out.
#[derive(Clone, Debug, PartialEq, Eq)]
pub enum SessionError {
    CreateStateDir { dir: String },
    BuildClient,
    ReadSessionFile { file: String },
    ParseSessionFile { file: String },
    RestoreSession,
    Login { username: String },
    NoSessionAfterLogin,
    SerializeSession,
    WriteSessionFile { file: String },
}

impl SessionError {
    /// The message that explains the error.
    pub open spec fn text(self) -> Seq<char> {
        match self {
            SessionError::CreateStateDir { dir } => "failed to create state dir "@ + dir@,
            SessionError::BuildClient => "failed to create matrix client"@,
            SessionError::ReadSessionFile { file } => "failed to read session file "@ + file@,
            SessionError::ParseSessionFile { file } => "failed to parse session file "@ + file@,
            SessionError::RestoreSession => "failed to restore existing session"@,
            SessionError::Login { username } => "failed to login to "@ + username@,
            SessionError::NoSessionAfterLogin => "client has no session right after login"@,
            SessionError::SerializeSession => "failed to serialize session"@,
            SessionError::WriteSessionFile { file } => "failed to write session file "@ + file@,
        }
    }

    /// Renders the message that explains the error.
    pub fn describe(&self) -> (r: String)
        ensures
            r@ == self.text(),
    {
        match self {
            SessionError::CreateStateDir { dir } => concat2(
                "failed to create state dir ",
                dir.as_str(),
            ),
            SessionError::BuildClient => String::from_str("failed to create matrix client"),
            SessionError::ReadSessionFile { file } => concat2(
                "failed to read session file ",
                file.as_str(),
            ),
            SessionError::ParseSessionFile { file } => concat2(
                "failed to parse session file ",
                file.as_str(),
            ),
            SessionError::RestoreSession => String::from_str("failed to restore existing session"),
            SessionError::Login { username } => concat2("failed to login to ", username.as_str()),
            SessionError::NoSessionAfterLogin => String::from_str(
                "client has no session right after login",
            ),
            SessionError::SerializeSession => String::from_str("failed to serialize session"),
            SessionError::WriteSessionFile { file } => concat2(
                "failed to write session file ",
                file.as_str(),
            ),
        }
    }
}

/// Where a login stands: the outside work to do next, or how it ended.
/// After each piece of work, `advance_login` takes whether it succeeded.
#[derive(Clone, Debug, PartialEq, Eq)]
pub enum LoginStep {
    /// Create the state directory.
    CreateStateDir,
    /// Build the client on the store in the state directory.
    BuildClient,
    /// Check whether the session file exists (success: it does).
    CheckSessionFile,
    /// Read the session file.
    ReadSessionFile,
    /// Parse the session that was read.
    ParseSession,
    /// Restore the parsed session on the client.
    RestoreSession,
    /// Log in with user name and password, naming the new device.
    LogIn,
    /// Take the session of the fresh login from the client (success: the
    /// client has one).
    FetchSession,
    /// Serialize the session.
    SerializeSession,
    /// Write the serialized session to the session file.
    WriteSessionFile,
    /// The client is logged in; `restored` tells whether an earlier
    /// session, and so the earlier device, was reused.
    Done { restored: bool },
    /// The login stopped with this error.
    Failed(SessionError),
}

/// The step that follows `step` once its work succeeded (`ok`) or not. A
/// saved session is read, parsed and restored; without one the bot logs
/// in and saves the new session. Every failure ends the login with its
/// error, and an ended login stays as it is.
pub open spec fn next_login_step(ctx: LoginContext, step: LoginStep, ok: bool) -> LoginStep {
    match step {
        LoginStep::CreateStateDir => if ok {
            LoginStep::BuildClient
        } else {
            LoginStep::Failed(SessionError::CreateStateDir { dir: ctx.state_dir })
        },
        LoginStep::BuildClient => if ok {
            LoginStep::CheckSessionFile
        } else {
            LoginStep::Failed(SessionError::BuildClient)
        },
        LoginStep::CheckSessionFile => if ok {
            LoginStep::ReadSessionFile
        } else {
            LoginStep::LogIn
        },
        LoginStep::ReadSessionFile => if ok {
            LoginStep::ParseSession
        } else {
            LoginStep::Failed(SessionError::ReadSessionFile { file: ctx.session_file })
        },
        LoginStep::ParseSession => if ok {
            LoginStep::RestoreSession
        } else {
            LoginStep::Failed(SessionError::ParseSessionFile { file: ctx.session_file })
        },
        LoginStep::RestoreSession => if ok {
            LoginStep::Done { restored: true }
        } else {
            LoginStep::Failed(SessionError::RestoreSession)
        },
        LoginStep::LogIn => if ok {
            LoginStep::FetchSession
        } else {
            LoginStep::Failed(SessionError::Login { username: ctx.username })
        },
        LoginStep::FetchSession => if ok {
            LoginStep::SerializeSession
        } else {
            LoginStep::Failed(SessionError::NoSessionAfterLogin)
        },
        LoginStep::SerializeSession => if ok {
            LoginStep::WriteSessionFile
        } else {
            LoginStep::Failed(SessionError::SerializeSession)
        },
        LoginStep::WriteSessionFile => if ok {
            LoginStep::Done { restored: false }
        } else {
            LoginStep::Failed(SessionError::WriteSessionFile { file: ctx.session_file })
        },
        LoginStep::Done { .. } => step,
        LoginStep::Failed(_) => step,
    }
}

/// Whether the login has ended.
pub open spec fn is_finished(step: LoginStep) -> bool {
    step is Done || step is Failed
}

/// The first step: the state directory has to exist.
pub fn begin_login() -> (step: LoginStep)
    ensures
        step == LoginStep::CreateStateDir,
{
    LoginStep::CreateStateDir
}

/// Moves the login on once the work of `step` succeeded (`ok`) or not.
pub fn advance_login(ctx: &LoginContext, step: LoginStep, ok: bool) -> (next: LoginStep)
    ensures
        next == next_login_step(*ctx, step, ok),
{
    match step {
        LoginStep::CreateStateDir => if ok {
            LoginStep::BuildClient
        } else {
            LoginStep::Failed(SessionError::CreateStateDir { dir: ctx.state_dir.clone() })
        },
        LoginStep::BuildClient => if ok {
            LoginStep::CheckSessionFile
        } else {
            LoginStep::Failed(SessionError::BuildClient)
        },
        LoginStep::CheckSessionFile => if ok {
            LoginStep::ReadSessionFile
        } else {
            LoginStep::LogIn
        },
        LoginStep::ReadSessionFile => if ok {
            LoginStep::ParseSession
        } else {
            LoginStep::Failed(SessionError::ReadSessionFile { file: ctx.session_file.clone() })
        },
        LoginStep::ParseSession => if ok {
            LoginStep::RestoreSession
        } else {
            LoginStep::Failed(SessionError::ParseSessionFile { file: ctx.session_file.clone() })
        },
        LoginStep::RestoreSession => if ok {
            LoginStep::Done { restored: true }
        } else {
            LoginStep::Failed(SessionError::RestoreSession)
        },
        LoginStep::LogIn => if ok {
            LoginStep::FetchSession
        } else {
            LoginStep::Failed(SessionError::Login { username: ctx.username.clone() })
        },
        LoginStep::FetchSession => if ok {
            LoginStep::SerializeSession
        } else {
            LoginStep::Failed(SessionError::NoSessionAfterLogin)
        },
        LoginStep::SerializeSession => if ok {
            LoginStep::WriteSessionFile
        } else {
            LoginStep::Failed(SessionError::SerializeSession)
        },
        LoginStep::WriteSessionFile => if ok {
            LoginStep::Done { restored: false }
        } else {
            LoginStep::Failed(SessionError::WriteSessionFile { file: ctx.session_file.clone() })
        },
        LoginStep::Done { restored } => LoginStep::Done { restored },
        LoginStep::Failed(e) => LoginStep::Failed(e),
    }
}

/// The parse step of a login, on the text read from the session file: the
/// session is restored next exactly when the text parses as a session;
/// otherwise the login fails naming the session file. The parsed session,
/// or the parse error, comes back beside the step.
pub fn after_read_session(ctx: &LoginContext, data: &str) -> (r: (
    LoginStep,
    Result<MatrixSession, serde_json::Error>,
))
    ensures
        r.0 == next_login_step(*ctx, LoginStep::ParseSession, session_json_parses(data@)),
        r.1 is Ok <==> session_json_parses(data@),
        session_json_parses(data@) ==> r.0 == LoginStep::RestoreSession,
        !session_json_parses(data@) ==> r.0 == LoginStep::Failed(
            SessionError::ParseSessionFile { file: ctx.session_file },
        ),
{
    let parsed = parse_session(data);
    let ok = parsed.is_ok();
    (advance_login(ctx, LoginStep::ParseSession, ok), parsed)
}

/// The serialize step of a fresh login, on the session the client holds:
/// the text is written to the session file next where serialization
/// succeeded; otherwise the login fails. The text, or the error, comes
/// back beside the step.
pub fn serialize_fetched_session(ctx: &LoginContext, session: &MatrixSession) -> (r: (
    LoginStep,
    Result<String, serde_json::Error>,
))
    ensures
        r.0 == next_login_step(*ctx, LoginStep::SerializeSession, r.1 is Ok),
        r.1 is Ok ==> r.0 == LoginStep::WriteSessionFile,
        r.1 is Err ==> r.0 == LoginStep::Failed(SessionError::SerializeSession),
{
    let serialized = serialize_session(session);
    let ok = serialized.is_ok();
    (advance_login(ctx, LoginStep::SerializeSession, ok), serialized)
}

/// The step reached from `step` through the outcomes in order.
pub open spec fn run_login(ctx: LoginContext, step: LoginStep, outcomes: Seq<bool>) -> LoginStep
    decreases outcomes.len(),
{
    if outcomes.len() == 0 {
        step
    } else {
        run_login(ctx, next_login_step(ctx, step, outcomes[0]), outcomes.drop_first())
    }
}

/// A login that has ended stays as it is, whatever is reported after.
pub proof fn lemma_finished_login_is_final(ctx: LoginContext, step: LoginStep, ok: bool)
    requires
        is_finished(step),
    ensures
        next_login_step(ctx, step, ok) == step,
{
}

/// The bot logs in with its password only where no session file exists.
pub proof fn lemma_login_only_without_saved_session(ctx: LoginContext, step: LoginStep, ok: bool)
    requires
        next_login_step(ctx, step, ok) == LoginStep::LogIn,
    ensures
        step == LoginStep::CheckSessionFile,
        !ok,
{
}

/// A saved session that reads, parses and restores is reused: the login
/// ends restored, without a password login.
pub proof fn lemma_saved_session_is_reused(ctx: LoginContext)
    ensures
        run_login(ctx, LoginStep::CreateStateDir, seq![true, true, true, true, true, true])
            == (LoginStep::Done { restored: true }),
{
    reveal_with_fuel(run_login, 7);
}

/// Without a saved session, a successful login ends on a new device whose
/// session has been written to the session file.
pub proof fn lemma_fresh_login_is_persisted(ctx: LoginContext)
    ensures
        run_login(ctx, LoginStep::CreateStateDir, seq![true, true, false, true, true, true, true])
            == (LoginStep::Done { restored: false }),
{
    reveal_with_fuel(run_login, 8);
}

/// A run that finds the session file and reads its text restores the saved
/// session (and so reuses its device) exactly when the text parses as a
/// session; otherwise it fails naming the session file.
pub proof fn lemma_restart_restores_saved_session(ctx: LoginContext, data: Seq<char>)
    ensures
        run_login(
            ctx,
            LoginStep::CreateStateDir,
            seq![true, true, true, true, session_json_parses(data), true],
        ) == if session_json_parses(data) {
            LoginStep::Done { restored: true }
        } else {
            LoginStep::Failed(SessionError::ParseSessionFile { file: ctx.session_file })
        },
{
    reveal_with_fuel(run_login, 7);
}

/// Each piece of work that fails ends the login with its own error, naming
/// the state directory, the session file or the user where the error text
/// does; only a missing session file is no failure, and leads to the
/// password login instead.
pub proof fn lemma_failures_name_their_step(ctx: LoginContext)
    ensures
        next_login_step(ctx, LoginStep::CreateStateDir, false) == LoginStep::Failed(
            SessionError::CreateStateDir { dir: ctx.state_dir },
        ),
        next_login_step(ctx, LoginStep::BuildClient, false) == LoginStep::Failed(
            SessionError::BuildClient,
        ),
        next_login_step(ctx, LoginStep::CheckSessionFile, false) == LoginStep::LogIn,
        next_login_step(ctx, LoginStep::ReadSessionFile, false) == LoginStep::Failed(
            SessionError::ReadSessionFile { file: ctx.session_file },
        ),
        next_login_step(ctx, LoginStep::ParseSession, false) == LoginStep::Failed(
            SessionError::ParseSessionFile { file: ctx.session_file },
        ),
        next_login_step(ctx, LoginStep::RestoreSession, false) == LoginStep::Failed(
            SessionError::RestoreSession,
        ),
        next_login_step(ctx, LoginStep::LogIn, false) == LoginStep::Failed(
            SessionError::Login { username: ctx.username },
        ),
        next_login_step(ctx, LoginStep::FetchSession, false) == LoginStep::Failed(
            SessionError::NoSessionAfterLogin,
        ),
        next_login_step(ctx, LoginStep::SerializeSession, false) == LoginStep::Failed(
            SessionError::SerializeSession,
        ),
        next_login_step(ctx, LoginStep::WriteSessionFile, false) == LoginStep::Failed(
            SessionError::WriteSessionFile { file: ctx.session_file },
        ),
{
}

/// A login ends restored only by restoring a session that was read and
/// parsed, never after a password login.
pub proof fn lemma_restored_only_by_restore(ctx: LoginContext, step: LoginStep, ok: bool)
    requires
        !is_finished(step),
        next_login_step(ctx, step, ok) == (LoginStep::Done { restored: true }),
    ensures
        step == LoginStep::RestoreSession,
        ok,
{
}

} // verus!
