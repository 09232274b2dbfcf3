//! Decision core of a minimal graphical login manager.
//!
//! The library contains the parts of the login flow that can be stated and
//! proved: the lifecycle state machine that sequences authentication,
//! session launch, supervision and teardown; the construction of every
//! diagnostic message; the wire codec for the result record that crosses
//! the presentation boundary; and the display-server supervisor's stop
//! decision. The process-level work itself (the authentication stack,
//! user lookup, fork/exec, signals) is performed by a driver outside the
//! library, which feeds each outcome back in as an event.

use vstd::prelude::*;

pub mod boundary;
pub mod codec;
pub mod errors;
pub mod laws;
pub mod numeral;
pub mod orchestrator;
pub mod session;
pub mod supervisor;

verus! {

/// The one value that crosses the presentation boundary: whether the
/// attempt succeeded, and either a diagnostic (failure) or the decimal
/// identifier of the session process (success).
#[derive(Debug, Clone)]
pub struct LoginResult {
    pub success: bool,
    pub message: Option<String>,
}

impl View for LoginResult {
    type V = (bool, Option<Seq<char>>);

    open spec fn view(&self) -> (bool, Option<Seq<char>>) {
        (
            self.success,
            match self.message {
                Some(ref m) => Some(m@),
                None => None,
            },
        )
    }
}

} // verus!
