//! The small decisions around the lifecycle: decimal rendering, session
//! environment, supervisor commands, the boundary's submit gate, and the
//! reference configuration.

use helm::boundary::{submit_decision, SubmitDecision};
use helm::numeral::decimal_string;
use helm::orchestrator::default_config;
use helm::session::{env_assignment, EnvVar};
use helm::supervisor::{make_handle, start_command, stop_target};

#[test]
fn decimal_rendering_is_exact() {
    assert_eq!(decimal_string(0), "0");
    assert_eq!(decimal_string(7), "7");
    assert_eq!(decimal_string(10), "10");
    assert_eq!(decimal_string(4242), "4242");
    assert_eq!(decimal_string(u32::MAX), "4294967295");
}

#[test]
fn authority_env_points_into_the_home_directory() {
    let (key, value) = env_assignment(&EnvVar::Authority, "/home/alice", ":2");
    assert_eq!(key, "XAUTHORITY");
    assert_eq!(value, "/home/alice/.Xauthority");
}

#[test]
fn search_path_env_is_fixed() {
    let (key, value) = env_assignment(&EnvVar::SearchPath, "/home/alice", ":2");
    assert_eq!(key, "PATH");
    assert_eq!(value, "/usr/local/sbin:/usr/local/bin:/usr/bin");
}

#[test]
fn display_env_carries_the_display_target() {
    let (key, value) = env_assignment(&EnvVar::Display, "", ":2");
    assert_eq!(key, "DISPLAY");
    assert_eq!(value, ":2");
}

#[test]
fn start_command_names_display_and_terminal() {
    assert_eq!(start_command(":2", "vt01"), "/usr/bin/X :2 vt01");
}

#[test]
fn stop_signals_only_a_recorded_process() {
    assert_eq!(stop_target(0), None);
    assert_eq!(stop_target(31337), Some(31337));
    assert_eq!(stop_target(-1), Some(-1));
}

#[test]
fn handle_records_what_was_started() {
    let handle = make_handle(99, ":2".to_string(), "vt01".to_string());
    assert_eq!(handle.process_id, 99);
    assert_eq!(handle.display_target, ":2");
    assert_eq!(handle.virtual_terminal_id, "vt01");
}

#[test]
fn empty_username_clears_the_password_instead_of_submitting() {
    assert_eq!(submit_decision(""), SubmitDecision::ClearPassword);
    assert_eq!(submit_decision("alice"), SubmitDecision::Submit);
    assert_eq!(submit_decision(" "), SubmitDecision::Submit);
}

#[test]
fn reference_configuration_matches_the_deployment() {
    let cfg = default_config();
    assert_eq!(cfg.auth_policy, "system-auth");
    assert_eq!(cfg.display_target, ":2");
    assert_eq!(cfg.virtual_terminal, "vt01");
    assert_eq!(cfg.session_command, "exec awesome");
    assert!(cfg.manage_display);
}
