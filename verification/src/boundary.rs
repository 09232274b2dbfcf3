//! The presentation boundary's one local decision: an empty username is
//! never submitted. The form clears its password field instead and the
//! core is not called at all.

use vstd::prelude::*;

verus! {

/// What the form does when its submit control fires.
#[derive(Clone, Copy, PartialEq, Eq, Structural, Debug)]
pub enum SubmitDecision {
    /// Clear the password field locally; do not call the core.
    ClearPassword,
    /// Hand the credential pair to the core.
    Submit,
}

/// An attempt is submitted exactly when the username is non-empty.
pub fn submit_decision(username: &str) -> (d: SubmitDecision)
    ensures
        d == (if username@.len() == 0 {
            SubmitDecision::ClearPassword
        } else {
            SubmitDecision::Submit
        }),
{
    if username.unicode_len() == 0 {
        SubmitDecision::ClearPassword
    } else {
        SubmitDecision::Submit
    }
}

} // verus!
