//! One full login attempt driven against fake outcomes, success and every
//! injected failure point, counting opens, closes, spawns and stops.

use helm::errors::{AttemptError, AuthError, EnvError, LaunchError};
use helm::orchestrator::{
    default_config, login_result_of, step, Action, AttemptState, AttemptVerdict, Config, Event,
    ResolvedUser,
};
use helm::session::EnvVar;

/// A fake authentication stack and supervisor: counts what the driver
/// would do for each handed-out action.
struct Counters {
    opens: u32,
    closes: u32,
    spawns: u32,
    stops: u32,
}

impl Counters {
    fn new() -> Counters {
        Counters { opens: 0, closes: 0, spawns: 0, stops: 0 }
    }

    fn note(&mut self, action: &Action, auth_succeeds: bool) {
        match action {
            Action::Authenticate { .. } => {
                if auth_succeeds {
                    self.opens += 1;
                }
            }
            Action::CloseSession => self.closes += 1,
            Action::Spawn { .. } => self.spawns += 1,
            Action::StopDisplay => self.stops += 1,
            _ => {}
        }
    }
}

fn alice() -> ResolvedUser {
    ResolvedUser {
        username: "alice".to_string(),
        home_directory_path: "/home/alice".to_string(),
        login_shell_path: "/bin/bash".to_string(),
    }
}

fn drive(cfg: &Config, events: Vec<Event>, auth_succeeds: bool) -> (AttemptState, Counters) {
    let mut state = AttemptState::Idle;
    let mut counters = Counters::new();
    for event in events {
        let (next, action) = step(cfg, state, event);
        counters.note(&action, auth_succeeds);
        state = next;
    }
    (state, counters)
}

#[test]
fn alice_correct_password_reports_process_id() {
    let cfg = default_config();
    let events = vec![
        Event::Submit { username: "alice".to_string(), password: "correct horse".to_string() },
        Event::AuthDone { outcome: Ok(()) },
        Event::UserLookupDone { outcome: Some(alice()) },
        Event::EnvSetDone { outcome: Ok(()) },
        Event::EnvSetDone { outcome: Ok(()) },
        Event::UiDismissed,
        Event::SpawnDone { outcome: Ok(4242) },
        Event::EnvSetDone { outcome: Ok(()) },
        Event::Exited,
        Event::SessionClosed,
        Event::DisplayStopDone,
    ];
    let (state, counters) = drive(&cfg, events, true);
    let verdict = match state {
        AttemptState::Done { verdict } => verdict,
        other => panic!("attempt did not finish: {:?}", other),
    };
    let result = login_result_of(&verdict);
    assert!(result.success);
    assert_eq!(result.message.as_deref(), Some("4242"));
    assert_eq!(counters.opens, 1);
    assert_eq!(counters.closes, 1);
    assert_eq!(counters.spawns, 1);
    assert_eq!(counters.stops, 1);
}

#[test]
fn success_path_hands_out_the_expected_actions() {
    let cfg = default_config();
    let mut state = AttemptState::Idle;
    let submit = Event::Submit {
        username: "alice".to_string(),
        password: "correct horse".to_string(),
    };
    let (s, a) = step(&cfg, state, submit);
    state = s;
    match a {
        Action::Authenticate { username, password } => {
            assert_eq!(username, "alice");
            assert_eq!(password, "correct horse");
        }
        other => panic!("expected authenticate, got {:?}", other),
    }
    let (s, a) = step(&cfg, state, Event::AuthDone { outcome: Ok(()) });
    state = s;
    match a {
        Action::ResolveUser { username } => assert_eq!(username, "alice"),
        other => panic!("expected user lookup, got {:?}", other),
    }
    let (s, a) = step(&cfg, state, Event::UserLookupDone { outcome: Some(alice()) });
    state = s;
    assert!(matches!(a, Action::SetEnv { var: EnvVar::Authority }));
    let (s, a) = step(&cfg, state, Event::EnvSetDone { outcome: Ok(()) });
    state = s;
    assert!(matches!(a, Action::SetEnv { var: EnvVar::SearchPath }));
    let (s, a) = step(&cfg, state, Event::EnvSetDone { outcome: Ok(()) });
    state = s;
    assert!(matches!(a, Action::DismissUi));
    let (s, a) = step(&cfg, state, Event::UiDismissed);
    state = s;
    match a {
        Action::Spawn { shell, command } => {
            assert_eq!(shell, "/bin/bash");
            assert_eq!(command, "exec awesome");
        }
        other => panic!("expected spawn, got {:?}", other),
    }
    let (s, a) = step(&cfg, state, Event::SpawnDone { outcome: Ok(4242) });
    state = s;
    assert!(matches!(a, Action::SetEnv { var: EnvVar::Display }));
    let (s, a) = step(&cfg, state, Event::EnvSetDone { outcome: Ok(()) });
    state = s;
    assert!(matches!(a, Action::AwaitExit));
    let (s, a) = step(&cfg, state, Event::Exited);
    state = s;
    assert!(matches!(a, Action::CloseSession));
    let (s, a) = step(&cfg, state, Event::SessionClosed);
    state = s;
    assert!(matches!(a, Action::StopDisplay));
    let (s, a) = step(&cfg, state, Event::DisplayStopDone);
    assert!(matches!(a, Action::Deliver));
    assert!(matches!(
        s,
        AttemptState::Done { verdict: AttemptVerdict::Completed { process_id: 4242 } }
    ));
}

#[test]
fn alice_wrong_password_never_opens_or_spawns() {
    let cfg = default_config();
    let events = vec![
        Event::Submit { username: "alice".to_string(), password: "wrong".to_string() },
        Event::AuthDone {
            outcome: Err(AuthError::InvalidCredentials {
                stack_message: "Authentication failure".to_string(),
            }),
        },
    ];
    let (state, counters) = drive(&cfg, events, false);
    let verdict = match state {
        AttemptState::Done { verdict } => verdict,
        other => panic!("attempt did not finish: {:?}", other),
    };
    let result = login_result_of(&verdict);
    assert!(!result.success);
    assert_eq!(
        result.message.as_deref(),
        Some("Authentication failure: Failed to authenticate")
    );
    assert_eq!(counters.opens, 0);
    assert_eq!(counters.closes, 0);
    assert_eq!(counters.spawns, 0);
    assert_eq!(counters.stops, 0);
}

#[test]
fn user_without_account_still_closes_the_session() {
    let cfg = default_config();
    let events = vec![
        Event::Submit { username: "alice".to_string(), password: "correct horse".to_string() },
        Event::AuthDone { outcome: Ok(()) },
        Event::UserLookupDone { outcome: None },
        Event::SessionClosed,
    ];
    let (state, counters) = drive(&cfg, events, true);
    let verdict = match state {
        AttemptState::Done { verdict } => verdict,
        other => panic!("attempt did not finish: {:?}", other),
    };
    let result = login_result_of(&verdict);
    assert!(!result.success);
    assert_eq!(result.message.as_deref(), Some("User alice does not exist"));
    assert_eq!(counters.opens, 1);
    assert_eq!(counters.closes, 1);
    assert_eq!(counters.spawns, 0);
    assert_eq!(counters.stops, 0);
}

#[test]
fn launch_failure_still_closes_the_session() {
    let cfg = default_config();
    let events = vec![
        Event::Submit { username: "alice".to_string(), password: "correct horse".to_string() },
        Event::AuthDone { outcome: Ok(()) },
        Event::UserLookupDone { outcome: Some(alice()) },
        Event::EnvSetDone { outcome: Ok(()) },
        Event::EnvSetDone { outcome: Ok(()) },
        Event::UiDismissed,
        Event::SpawnDone {
            outcome: Err(LaunchError::SpawnFailure { reason: "No such file".to_string() }),
        },
        Event::SessionClosed,
    ];
    let (state, counters) = drive(&cfg, events, true);
    let verdict = match state {
        AttemptState::Done { verdict } => verdict,
        other => panic!("attempt did not finish: {:?}", other),
    };
    let result = login_result_of(&verdict);
    assert!(!result.success);
    assert_eq!(result.message.as_deref(), Some("No such file"));
    assert_eq!(counters.opens, 1);
    assert_eq!(counters.closes, 1);
    assert_eq!(counters.spawns, 1);
    assert_eq!(counters.stops, 0);
}

#[test]
fn env_failure_still_closes_the_session() {
    let cfg = default_config();
    let events = vec![
        Event::Submit { username: "alice".to_string(), password: "correct horse".to_string() },
        Event::AuthDone { outcome: Ok(()) },
        Event::UserLookupDone { outcome: Some(alice()) },
        Event::EnvSetDone {
            outcome: Err(EnvError { reason: "PAM_BUF_ERR".to_string() }),
        },
        Event::SessionClosed,
    ];
    let (state, counters) = drive(&cfg, events, true);
    let verdict = match state {
        AttemptState::Done { verdict } => verdict,
        other => panic!("attempt did not finish: {:?}", other),
    };
    let result = login_result_of(&verdict);
    assert!(!result.success);
    assert_eq!(result.message.as_deref(), Some("PAM_BUF_ERR"));
    assert_eq!(counters.closes, 1);
    assert_eq!(counters.spawns, 0);
}

#[test]
fn display_env_failure_is_tolerated_once_running() {
    let cfg = default_config();
    let events = vec![
        Event::Submit { username: "alice".to_string(), password: "correct horse".to_string() },
        Event::AuthDone { outcome: Ok(()) },
        Event::UserLookupDone { outcome: Some(alice()) },
        Event::EnvSetDone { outcome: Ok(()) },
        Event::EnvSetDone { outcome: Ok(()) },
        Event::UiDismissed,
        Event::SpawnDone { outcome: Ok(7) },
        Event::EnvSetDone { outcome: Err(EnvError { reason: "PAM_ABORT".to_string() }) },
        Event::Exited,
        Event::SessionClosed,
        Event::DisplayStopDone,
    ];
    let (state, counters) = drive(&cfg, events, true);
    let verdict = match state {
        AttemptState::Done { verdict } => verdict,
        other => panic!("attempt did not finish: {:?}", other),
    };
    let result = login_result_of(&verdict);
    assert!(result.success);
    assert_eq!(result.message.as_deref(), Some("7"));
    assert_eq!(counters.closes, 1);
    assert_eq!(counters.stops, 1);
}

#[test]
fn stack_init_and_session_open_failures_carry_their_stage() {
    let cfg = default_config();
    for (error, message) in [
        (
            AuthError::StackInitFailure { stack_message: "PAM_ABORT".to_string() },
            "PAM_ABORT: Failed to initialize client",
        ),
        (
            AuthError::SessionOpenFailure { stack_message: "PAM_SESSION_ERR".to_string() },
            "PAM_SESSION_ERR: Failed to open session",
        ),
    ] {
        let events = vec![
            Event::Submit { username: "alice".to_string(), password: "pw".to_string() },
            Event::AuthDone { outcome: Err(error) },
        ];
        let (state, counters) = drive(&cfg, events, false);
        let verdict = match state {
            AttemptState::Done { verdict } => verdict,
            other => panic!("attempt did not finish: {:?}", other),
        };
        let result = login_result_of(&verdict);
        assert!(!result.success);
        assert_eq!(result.message.as_deref(), Some(message));
        assert_eq!(counters.closes, 0);
    }
}

#[test]
fn shell_resolution_failure_has_a_fixed_diagnostic() {
    let error = AttemptError::Launch { error: LaunchError::ShellResolutionFailure };
    let message = helm::errors::attempt_error_message(&error);
    assert_eq!(message, "Failed to resolve the login shell");
}
