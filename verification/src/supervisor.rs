//! Decisions of the display-server supervisor.
//!
//! The supervisor owns the one display-server process of an application
//! run. Its process id lives in a process-wide word-sized slot (zero
//! meaning "never started") so that a fault handler running in restricted
//! signal context can reach it without taking a lock. This module decides
//! what to run and whom to signal; the fork, the signal delivery and the
//! slot itself stay with the driver.

use vstd::prelude::*;

verus! {

/// The supervised display-server process: its id, the display target it
/// serves (e.g. `:2`), and the virtual terminal it is bound to.
pub struct DisplayServerHandle {
    pub process_id: i32,
    pub display_target: String,
    pub virtual_terminal_id: String,
}

/// The shell command that starts the display backend on the given
/// display target and virtual terminal.
pub open spec fn start_command_view(display_target: Seq<char>, virtual_terminal: Seq<char>) -> Seq<char> {
    "/usr/bin/X "@ + display_target + " "@ + virtual_terminal
}

/// Builds the display-backend start command.
pub fn start_command(display_target: &str, virtual_terminal: &str) -> (c: String)
    ensures
        c@ == start_command_view(display_target@, virtual_terminal@),
{
    let mut c = String::from_str("/usr/bin/X ");
    c.append(display_target);
    c.append(" ");
    c.append(virtual_terminal);
    c
}

/// Records a started display server.
pub fn make_handle(process_id: i32, display_target: String, virtual_terminal_id: String) -> (h: DisplayServerHandle)
    ensures
        h.process_id == process_id,
        h.display_target == display_target,
        h.virtual_terminal_id == virtual_terminal_id,
{
    DisplayServerHandle { process_id, display_target, virtual_terminal_id }
}

/// `stop`'s decision: signal the recorded process exactly when one was
/// recorded. A zero slot means the display server was never started, so
/// stopping is a no-op; a dead process is the signal sender's concern
/// (delivery to an already-dead process is tolerated). This is the whole
/// branch a fault handler may take in restricted context: one read of the
/// word-sized slot, no lock, no allocation.
pub fn stop_target(recorded_process_id: i32) -> (t: Option<i32>)
    ensures
        t == (if recorded_process_id != 0 {
            Some(recorded_process_id)
        } else {
            None::<i32>
        }),
{
    if recorded_process_id != 0 {
        Some(recorded_process_id)
    } else {
        None
    }
}

} // verus!
