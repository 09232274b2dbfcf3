//! The error taxonomy of one login attempt, and the diagnostic message
//! each error turns into at the presentation boundary.
//!
//! Every error is terminal for the current attempt; none is retried. The
//! message never contains the submitted password: it is built only from
//! the underlying stack's own message, the username, or fixed text.

use vstd::prelude::*;

verus! {

/// Failure of the authentication stage, one variant per stage of the
/// conversation with the underlying authentication stack. The carried
/// string is the stack's own description of the failure.
#[derive(Debug)]
pub enum AuthError {
    StackInitFailure { stack_message: String },
    InvalidCredentials { stack_message: String },
    SessionOpenFailure { stack_message: String },
}

/// Failure to launch the session process.
#[derive(Debug)]
pub enum LaunchError {
    ShellResolutionFailure,
    SpawnFailure { reason: String },
}

/// Failure to attach a session-scoped environment variable.
#[derive(Debug)]
pub struct EnvError {
    pub reason: String,
}

/// Everything that can end an attempt in failure, in the order the
/// stages run.
#[derive(Debug)]
pub enum AttemptError {
    Auth { error: AuthError },
    UserNotFound { username: String },
    Env { error: EnvError },
    Launch { error: LaunchError },
}

/// The diagnostic for an authentication failure: the stack's message,
/// then which stage failed.
pub open spec fn auth_error_message_view(e: AuthError) -> Seq<char> {
    match e {
        AuthError::StackInitFailure { stack_message } => stack_message@ + ": Failed to initialize client"@,
        AuthError::InvalidCredentials { stack_message } => stack_message@ + ": Failed to authenticate"@,
        AuthError::SessionOpenFailure { stack_message } => stack_message@ + ": Failed to open session"@,
    }
}

/// The diagnostic carried by a failed `LoginResult`.
pub open spec fn attempt_error_message_view(e: AttemptError) -> Seq<char> {
    match e {
        AttemptError::Auth { error } => auth_error_message_view(error),
        AttemptError::UserNotFound { username } => "User "@ + username@ + " does not exist"@,
        AttemptError::Env { error } => error.reason@,
        AttemptError::Launch { error } => match error {
            LaunchError::ShellResolutionFailure => "Failed to resolve the login shell"@,
            LaunchError::SpawnFailure { reason } => reason@,
        },
    }
}

pub fn auth_error_message(e: &AuthError) -> (m: String)
    ensures
        m@ == auth_error_message_view(*e),
{
    match e {
        AuthError::StackInitFailure { stack_message } => {
            let mut m = stack_message.clone();
            m.append(": Failed to initialize client");
            m
        },
        AuthError::InvalidCredentials { stack_message } => {
            let mut m = stack_message.clone();
            m.append(": Failed to authenticate");
            m
        },
        AuthError::SessionOpenFailure { stack_message } => {
            let mut m = stack_message.clone();
            m.append(": Failed to open session");
            m
        },
    }
}

pub fn attempt_error_message(e: &AttemptError) -> (m: String)
    ensures
        m@ == attempt_error_message_view(*e),
{
    match e {
        AttemptError::Auth { error } => auth_error_message(error),
        AttemptError::UserNotFound { username } => {
            let mut m = String::from_str("User ");
            m.append(username.as_str());
            m.append(" does not exist");
            m
        },
        AttemptError::Env { error } => error.reason.clone(),
        AttemptError::Launch { error } => match error {
            LaunchError::ShellResolutionFailure => String::from_str("Failed to resolve the login shell"),
            LaunchError::SpawnFailure { reason } => reason.clone(),
        },
    }
}

} // verus!
