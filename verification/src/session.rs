//! Decisions of the authentication session manager: which environment
//! variables are attached to an authenticated session, and with which
//! values. The conversation with the authentication stack itself is the
//! driver's work; it asks this module for each assignment.

use vstd::prelude::*;

verus! {

/// The session-scoped environment variables the login flow sets.
#[derive(Clone, Copy, PartialEq, Eq, Structural, Debug)]
pub enum EnvVar {
    /// Location of the credential-authority file in the user's home.
    Authority,
    /// The fixed executable search path handed to the session.
    SearchPath,
    /// The display target the session must connect to.
    Display,
}

/// The key under which `v` is exported.
pub open spec fn env_key_view(v: EnvVar) -> Seq<char> {
    match v {
        EnvVar::Authority => "XAUTHORITY"@,
        EnvVar::SearchPath => "PATH"@,
        EnvVar::Display => "DISPLAY"@,
    }
}

/// The value exported for `v`, given the resolved user's home directory
/// and the configured display target (each is read only by the variable
/// that needs it).
pub open spec fn env_value_view(v: EnvVar, home_directory: Seq<char>, display_target: Seq<char>) -> Seq<char> {
    match v {
        EnvVar::Authority => home_directory + "/.Xauthority"@,
        EnvVar::SearchPath => "/usr/local/sbin:/usr/local/bin:/usr/bin"@,
        EnvVar::Display => display_target,
    }
}

/// The concrete key/value pair to attach to the session for `v`.
pub fn env_assignment(v: &EnvVar, home_directory: &str, display_target: &str) -> (kv: (String, String))
    ensures
        kv.0@ == env_key_view(*v),
        kv.1@ == env_value_view(*v, home_directory@, display_target@),
{
    match v {
        EnvVar::Authority => {
            let mut value = String::from_str(home_directory);
            value.append("/.Xauthority");
            (String::from_str("XAUTHORITY"), value)
        },
        EnvVar::SearchPath => (
            String::from_str("PATH"),
            String::from_str("/usr/local/sbin:/usr/local/bin:/usr/bin"),
        ),
        EnvVar::Display => (String::from_str("DISPLAY"), String::from_str(display_target)),
    }
}

} // verus!
