//! The lifecycle orchestrator: one login attempt as a state machine.
//!
//! The orchestrator never performs process work itself. Each transition
//! consumes the outcome of the previous instruction (an [`Event`]) and
//! yields the next instruction (an [`Action`]); a driver performs the
//! instruction against the real authentication stack, user directory and
//! process table, and feeds the outcome back in. The attempt's phases are
//! Idle, Authenticating, Launching (user resolution, session environment,
//! dismissing the login form, spawning), Running (display variable, then
//! the blocking wait), ClosingSession, display stop, Done.
//!
//! The safety-critical ordering lives entirely in the transitions: every
//! opened session is closed on every exit path, the close never precedes
//! the reaping of the session process, and the display-server stop never
//! precedes the close.

use vstd::prelude::*;

use crate::errors::{AttemptError, AuthError, EnvError, LaunchError};
use crate::errors::{attempt_error_message, attempt_error_message_view};
use crate::numeral::{dec_str_of, decimal_string};
use crate::session::EnvVar;
use crate::LoginResult;

verus! {

/// The acting system account, resolved from the user directory at
/// authentication time.
#[derive(Clone, Debug)]
pub struct ResolvedUser {
    pub username: String,
    pub home_directory_path: String,
    pub login_shell_path: String,
}

/// Fixed configuration of an application run: the authentication policy
/// name, the display target and virtual terminal of the managed display
/// server, whether one is managed at all, and the windowing-session
/// command handed to the login shell.
pub struct Config {
    pub auth_policy: String,
    pub display_target: String,
    pub virtual_terminal: String,
    pub session_command: String,
    pub manage_display: bool,
}

/// The reference configuration of the login manager.
pub fn default_config() -> (c: Config)
    ensures
        c.auth_policy@ == "system-auth"@,
        c.display_target@ == ":2"@,
        c.virtual_terminal@ == "vt01"@,
        c.session_command@ == "exec awesome"@,
        c.manage_display,
{
    Config {
        auth_policy: String::from_str("system-auth"),
        display_target: String::from_str(":2"),
        virtual_terminal: String::from_str("vt01"),
        session_command: String::from_str("exec awesome"),
        manage_display: true,
    }
}

/// How an attempt ended: a session process ran (its exit code is
/// deliberately not propagated), or the attempt was rejected before a
/// session process existed.
#[derive(Debug)]
pub enum AttemptVerdict {
    Completed { process_id: u32 },
    Rejected { error: AttemptError },
}

/// The states of one login attempt. The submitted password is never
/// stored in a state: it rides only on the `Authenticate` action and is
/// gone once the stack has consumed it.
#[derive(Debug)]
pub enum AttemptState {
    /// No attempt in flight.
    Idle,
    /// The credential pair is with the authentication stack.
    Authenticating { username: String },
    /// Launching: looking up the authenticated principal's account.
    ResolvingUser { username: String },
    /// Launching: attaching the credential-authority file location.
    SettingAuthorityEnv { user: ResolvedUser },
    /// Launching: attaching the fixed executable search path.
    SettingSearchPathEnv { user: ResolvedUser },
    /// Launching: the login form is being dismissed.
    DismissingUi { user: ResolvedUser },
    /// Launching: the session process is being created.
    Spawning,
    /// Running: exporting the display target (failure is tolerated).
    SettingDisplayEnv { process_id: u32 },
    /// Running: blocked until the session process exits.
    AwaitingExit { process_id: u32 },
    /// The session is being closed; `verdict` is what will be reported.
    ClosingSession { verdict: AttemptVerdict },
    /// The display server is being stopped after a completed session.
    StoppingDisplay { process_id: u32 },
    /// Terminal: the result is ready for the presentation boundary.
    Done { verdict: AttemptVerdict },
}

/// The outcomes a driver reports back, one per instruction.
#[derive(Debug)]
pub enum Event {
    /// The boundary submitted a credential pair.
    Submit { username: String, password: String },
    /// Authentication (and, on success, session open) finished.
    AuthDone { outcome: Result<(), AuthError> },
    /// The user-directory lookup finished.
    UserLookupDone { outcome: Option<ResolvedUser> },
    /// An environment assignment finished.
    EnvSetDone { outcome: Result<(), EnvError> },
    /// The login form is gone.
    UiDismissed,
    /// Session-process creation finished.
    SpawnDone { outcome: Result<u32, LaunchError> },
    /// The session process exited and was reaped.
    Exited,
    /// The session is closed.
    SessionClosed,
    /// The display-server stop was issued.
    DisplayStopDone,
}

/// The instructions the orchestrator hands to its driver.
#[derive(Debug)]
pub enum Action {
    /// Open a conversation with the authentication stack under the
    /// configured policy, supply the credential pair, authenticate, and
    /// open a session.
    Authenticate { username: String, password: String },
    /// Look the username up in the system user directory.
    ResolveUser { username: String },
    /// Attach one session-scoped environment variable.
    SetEnv { var: EnvVar },
    /// Tell the presentation boundary the login form may be dismissed.
    DismissUi,
    /// Run the login shell with the windowing-session command, streams
    /// redirected to the null device.
    Spawn { shell: String, command: String },
    /// Block until the session process exits, then reap it.
    AwaitExit,
    /// Close the authenticated session.
    CloseSession,
    /// Stop the display server if one was started (the supervisor's
    /// decision; a never-started or already-dead server is tolerated).
    StopDisplay,
    /// Hand the verdict's `LoginResult` to the presentation boundary.
    Deliver,
}

/// Which outcome a driver may report in each state. `Done` accepts
/// nothing: the attempt is over.
pub open spec fn event_fits(s: AttemptState, e: Event) -> bool {
    match (s, e) {
        (AttemptState::Idle, Event::Submit { .. }) => true,
        (AttemptState::Authenticating { .. }, Event::AuthDone { .. }) => true,
        (AttemptState::ResolvingUser { .. }, Event::UserLookupDone { .. }) => true,
        (AttemptState::SettingAuthorityEnv { .. }, Event::EnvSetDone { .. }) => true,
        (AttemptState::SettingSearchPathEnv { .. }, Event::EnvSetDone { .. }) => true,
        (AttemptState::DismissingUi { .. }, Event::UiDismissed) => true,
        (AttemptState::Spawning, Event::SpawnDone { .. }) => true,
        (AttemptState::SettingDisplayEnv { .. }, Event::EnvSetDone { .. }) => true,
        (AttemptState::AwaitingExit { .. }, Event::Exited) => true,
        (AttemptState::ClosingSession { .. }, Event::SessionClosed) => true,
        (AttemptState::StoppingDisplay { .. }, Event::DisplayStopDone) => true,
        _ => false,
    }
}

/// The transition relation, one case per fitting state/event pair.
pub open spec fn spec_step(cfg: Config, s: AttemptState, e: Event) -> (AttemptState, Action) {
    match (s, e) {
        (AttemptState::Idle, Event::Submit { username, password }) => (
            AttemptState::Authenticating { username: username },
            Action::Authenticate { username: username, password: password },
        ),
        (AttemptState::Authenticating { username }, Event::AuthDone { outcome }) => match outcome {
            Ok(_) => (
                AttemptState::ResolvingUser { username: username },
                Action::ResolveUser { username: username },
            ),
            // No session was opened; report the failure directly.
            Err(error) => (
                AttemptState::Done {
                    verdict: AttemptVerdict::Rejected { error: AttemptError::Auth { error } },
                },
                Action::Deliver,
            ),
        },
        (AttemptState::ResolvingUser { username }, Event::UserLookupDone { outcome }) => match outcome {
            Some(user) => (
                AttemptState::SettingAuthorityEnv { user },
                Action::SetEnv { var: EnvVar::Authority },
            ),
            // A session is open: it must be closed before the failure is
            // reported.
            None => (
                AttemptState::ClosingSession {
                    verdict: AttemptVerdict::Rejected { error: AttemptError::UserNotFound { username } },
                },
                Action::CloseSession,
            ),
        },
        (AttemptState::SettingAuthorityEnv { user }, Event::EnvSetDone { outcome }) => match outcome {
            Ok(_) => (
                AttemptState::SettingSearchPathEnv { user },
                Action::SetEnv { var: EnvVar::SearchPath },
            ),
            Err(error) => (
                AttemptState::ClosingSession {
                    verdict: AttemptVerdict::Rejected { error: AttemptError::Env { error } },
                },
                Action::CloseSession,
            ),
        },
        (AttemptState::SettingSearchPathEnv { user }, Event::EnvSetDone { outcome }) => match outcome {
            Ok(_) => (AttemptState::DismissingUi { user }, Action::DismissUi),
            Err(error) => (
                AttemptState::ClosingSession {
                    verdict: AttemptVerdict::Rejected { error: AttemptError::Env { error } },
                },
                Action::CloseSession,
            ),
        },
        (AttemptState::DismissingUi { user }, Event::UiDismissed) => (
            AttemptState::Spawning,
            Action::Spawn { shell: user.login_shell_path, command: cfg.session_command },
        ),
        (AttemptState::Spawning, Event::SpawnDone { outcome }) => match outcome {
            Ok(process_id) => (
                AttemptState::SettingDisplayEnv { process_id },
                Action::SetEnv { var: EnvVar::Display },
            ),
            Err(error) => (
                AttemptState::ClosingSession {
                    verdict: AttemptVerdict::Rejected { error: AttemptError::Launch { error } },
                },
                Action::CloseSession,
            ),
        },
        // A failure to export the display target is tolerated: the
        // session process is already running and owns the attempt.
        (AttemptState::SettingDisplayEnv { process_id }, Event::EnvSetDone { .. }) => (
            AttemptState::AwaitingExit { process_id },
            Action::AwaitExit,
        ),
        (AttemptState::AwaitingExit { process_id }, Event::Exited) => (
            AttemptState::ClosingSession { verdict: AttemptVerdict::Completed { process_id } },
            Action::CloseSession,
        ),
        (AttemptState::ClosingSession { verdict }, Event::SessionClosed) => match verdict {
            // The windowing session and the display backend share a
            // lifetime: a completed session stops the backend.
            AttemptVerdict::Completed { process_id } => (
                AttemptState::StoppingDisplay { process_id },
                Action::StopDisplay,
            ),
            // A pre-launch failure leaves the backend running for the
            // next attempt.
            AttemptVerdict::Rejected { error } => (
                AttemptState::Done { verdict: AttemptVerdict::Rejected { error } },
                Action::Deliver,
            ),
        },
        (AttemptState::StoppingDisplay { process_id }, Event::DisplayStopDone) => (
            AttemptState::Done { verdict: AttemptVerdict::Completed { process_id } },
            Action::Deliver,
        ),
        (other, _) => (other, Action::Deliver),
    }
}

/// One transition of the attempt. The driver owns the loop: it performs
/// the returned action and reports the outcome as the next event.
pub fn step(cfg: &Config, s: AttemptState, e: Event) -> (r: (AttemptState, Action))
    requires
        event_fits(s, e),
    ensures
        r == spec_step(*cfg, s, e),
{
    match (s, e) {
        (AttemptState::Idle, Event::Submit { username, password }) => {
            let name_for_action = username.clone();
            (
                AttemptState::Authenticating { username },
                Action::Authenticate { username: name_for_action, password },
            )
        },
        (AttemptState::Authenticating { username }, Event::AuthDone { outcome }) => match outcome {
            Ok(_) => {
                let name_for_action = username.clone();
                (
                    AttemptState::ResolvingUser { username },
                    Action::ResolveUser { username: name_for_action },
                )
            },
            Err(error) => (
                AttemptState::Done {
                    verdict: AttemptVerdict::Rejected { error: AttemptError::Auth { error } },
                },
                Action::Deliver,
            ),
        },
        (AttemptState::ResolvingUser { username }, Event::UserLookupDone { outcome }) => match outcome {
            Some(user) => (
                AttemptState::SettingAuthorityEnv { user },
                Action::SetEnv { var: EnvVar::Authority },
            ),
            None => (
                AttemptState::ClosingSession {
                    verdict: AttemptVerdict::Rejected { error: AttemptError::UserNotFound { username } },
                },
                Action::CloseSession,
            ),
        },
        (AttemptState::SettingAuthorityEnv { user }, Event::EnvSetDone { outcome }) => match outcome {
            Ok(_) => (
                AttemptState::SettingSearchPathEnv { user },
                Action::SetEnv { var: EnvVar::SearchPath },
            ),
            Err(error) => (
                AttemptState::ClosingSession {
                    verdict: AttemptVerdict::Rejected { error: AttemptError::Env { error } },
                },
                Action::CloseSession,
            ),
        },
        (AttemptState::SettingSearchPathEnv { user }, Event::EnvSetDone { outcome }) => match outcome {
            Ok(_) => (AttemptState::DismissingUi { user }, Action::DismissUi),
            Err(error) => (
                AttemptState::ClosingSession {
                    verdict: AttemptVerdict::Rejected { error: AttemptError::Env { error } },
                },
                Action::CloseSession,
            ),
        },
        (AttemptState::DismissingUi { user }, Event::UiDismissed) => (
            AttemptState::Spawning,
            Action::Spawn { shell: user.login_shell_path, command: cfg.session_command.clone() },
        ),
        (AttemptState::Spawning, Event::SpawnDone { outcome }) => match outcome {
            Ok(process_id) => (
                AttemptState::SettingDisplayEnv { process_id },
                Action::SetEnv { var: EnvVar::Display },
            ),
            Err(error) => (
                AttemptState::ClosingSession {
                    verdict: AttemptVerdict::Rejected { error: AttemptError::Launch { error } },
                },
                Action::CloseSession,
            ),
        },
        (AttemptState::SettingDisplayEnv { process_id }, Event::EnvSetDone { .. }) => (
            AttemptState::AwaitingExit { process_id },
            Action::AwaitExit,
        ),
        (AttemptState::AwaitingExit { process_id }, Event::Exited) => (
            AttemptState::ClosingSession { verdict: AttemptVerdict::Completed { process_id } },
            Action::CloseSession,
        ),
        (AttemptState::ClosingSession { verdict }, Event::SessionClosed) => match verdict {
            AttemptVerdict::Completed { process_id } => (
                AttemptState::StoppingDisplay { process_id },
                Action::StopDisplay,
            ),
            AttemptVerdict::Rejected { error } => (
                AttemptState::Done { verdict: AttemptVerdict::Rejected { error } },
                Action::Deliver,
            ),
        },
        (AttemptState::StoppingDisplay { process_id }, Event::DisplayStopDone) => (
            AttemptState::Done { verdict: AttemptVerdict::Completed { process_id } },
            Action::Deliver,
        ),
        _ => vstd::pervasive::unreached(),
    }
}

/// Turns a verdict into the value that crosses the presentation
/// boundary. A completed attempt reports `success` with the session
/// process's identifier in decimal; a rejected attempt reports the
/// diagnostic of its error. The submitted password can appear in
/// neither, as the two `ensures` clauses pin the whole message down.
pub fn login_result_of(v: &AttemptVerdict) -> (r: LoginResult)
    ensures
        r.success == (v is Completed),
        v matches AttemptVerdict::Completed { process_id } ==> (r.message matches Some(m)
            && m@ == dec_str_of(process_id as nat)),
        v matches AttemptVerdict::Rejected { error } ==> (r.message matches Some(m) && m@
            == attempt_error_message_view(*error)),
{
    match v {
        AttemptVerdict::Completed { process_id } => LoginResult {
            success: true,
            message: Some(decimal_string(*process_id)),
        },
        AttemptVerdict::Rejected { error } => LoginResult {
            success: false,
            message: Some(attempt_error_message(error)),
        },
    }
}

} // verus!
