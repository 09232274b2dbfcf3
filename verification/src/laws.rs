//! The lifecycle laws, proved over whole attempt traces.
//!
//! A trace is the sequence of outcomes a driver reports during one
//! attempt; [`wf_trace`] says every outcome fits the state it arrives in.
//! Over such traces this module proves the orchestrator's safety
//! properties: a rejected credential pair ends the attempt at once and
//! nothing is ever spawned; sessions are opened and closed one for one on
//! every exit path; and the display-server stop is issued exactly once
//! for a run whose session completed, never otherwise.

use vstd::prelude::*;

use crate::orchestrator::{Action, AttemptState, AttemptVerdict, Config, Event};
use crate::orchestrator::{event_fits, spec_step};
use crate::errors::AttemptError;

verus! {

/// Every event of `evs` fits the state it is consumed in, starting
/// from `s`.
pub open spec fn wf_trace(cfg: Config, s: AttemptState, evs: Seq<Event>) -> bool
    decreases evs.len(),
{
    evs.len() == 0 || (event_fits(s, evs[0]) && wf_trace(
        cfg,
        spec_step(cfg, s, evs[0]).0,
        evs.drop_first(),
    ))
}

/// The actions the orchestrator hands out along `evs`, in order.
pub open spec fn trace_actions(cfg: Config, s: AttemptState, evs: Seq<Event>) -> Seq<Action>
    decreases evs.len(),
{
    if evs.len() == 0 {
        Seq::empty()
    } else {
        seq![spec_step(cfg, s, evs[0]).1] + trace_actions(
            cfg,
            spec_step(cfg, s, evs[0]).0,
            evs.drop_first(),
        )
    }
}

/// The state after consuming all of `evs` from `s`.
pub open spec fn trace_final(cfg: Config, s: AttemptState, evs: Seq<Event>) -> AttemptState
    decreases evs.len(),
{
    if evs.len() == 0 {
        s
    } else {
        trace_final(cfg, spec_step(cfg, s, evs[0]).0, evs.drop_first())
    }
}

/// The event that opens a session: authentication succeeded and the
/// stack opened one.
pub open spec fn is_open_event(e: Event) -> bool {
    match e {
        Event::AuthDone { outcome } => outcome is Ok,
        _ => false,
    }
}

/// How many events of `evs` opened a session.
pub open spec fn count_opens(evs: Seq<Event>) -> nat
    decreases evs.len(),
{
    if evs.len() == 0 {
        0
    } else {
        (if is_open_event(evs[0]) {
            1nat
        } else {
            0nat
        }) + count_opens(evs.drop_first())
    }
}

/// How many `CloseSession` instructions stand in `acts`.
pub open spec fn count_closes(acts: Seq<Action>) -> nat
    decreases acts.len(),
{
    if acts.len() == 0 {
        0
    } else {
        (if acts[0] is CloseSession {
            1nat
        } else {
            0nat
        }) + count_closes(acts.drop_first())
    }
}

/// How many `Spawn` instructions stand in `acts`.
pub open spec fn count_spawns(acts: Seq<Action>) -> nat
    decreases acts.len(),
{
    if acts.len() == 0 {
        0
    } else {
        (if acts[0] is Spawn {
            1nat
        } else {
            0nat
        }) + count_spawns(acts.drop_first())
    }
}

/// How many `StopDisplay` instructions stand in `acts`.
pub open spec fn count_stops(acts: Seq<Action>) -> nat
    decreases acts.len(),
{
    if acts.len() == 0 {
        0
    } else {
        (if acts[0] is StopDisplay {
            1nat
        } else {
            0nat
        }) + count_stops(acts.drop_first())
    }
}

/// A session is open in `s`: authentication opened one and the
/// `CloseSession` instruction has not yet been handed out.
pub open spec fn session_open(s: AttemptState) -> bool {
    ||| s is ResolvingUser
    ||| s is SettingAuthorityEnv
    ||| s is SettingSearchPathEnv
    ||| s is DismissingUi
    ||| s is Spawning
    ||| s is SettingDisplayEnv
    ||| s is AwaitingExit
}

/// `1` while a session is open, else `0`.
spec fn open_flag(s: AttemptState) -> nat {
    if session_open(s) {
        1
    } else {
        0
    }
}

/// How many `Spawn` instructions were handed out on any trace reaching
/// `s` from `Idle`.
spec fn spawns_at(s: AttemptState) -> nat {
    match s {
        AttemptState::Spawning => 1,
        AttemptState::SettingDisplayEnv { .. } => 1,
        AttemptState::AwaitingExit { .. } => 1,
        AttemptState::StoppingDisplay { .. } => 1,
        AttemptState::ClosingSession { verdict } => verdict_spawns(verdict),
        AttemptState::Done { verdict } => verdict_spawns(verdict),
        _ => 0,
    }
}

/// Whether a verdict lies past the `Spawn` instruction.
spec fn verdict_spawns(v: AttemptVerdict) -> nat {
    match v {
        AttemptVerdict::Completed { .. } => 1,
        AttemptVerdict::Rejected { error } => if error is Launch {
            1nat
        } else {
            0nat
        },
    }
}

/// How many `StopDisplay` instructions were handed out on any trace
/// reaching `s` from `Idle`.
spec fn stops_at(s: AttemptState) -> nat {
    match s {
        AttemptState::StoppingDisplay { .. } => 1,
        AttemptState::Done { verdict } => if verdict is Completed {
            1nat
        } else {
            0nat
        },
        _ => 0,
    }
}

/// How many sessions can still be opened from `s` onwards.
spec fn open_budget(s: AttemptState) -> nat {
    if s is Idle || s is Authenticating {
        1
    } else {
        0
    }
}

/// States past the authentication phase; no authentication outcome is
/// ever consumed there again.
spec fn past_auth(s: AttemptState) -> bool {
    !(s is Idle || s is Authenticating)
}

/// Bookkeeping of one trace: opened sessions match handed-out closes up
/// to the open session of the final state, and the spawn and stop
/// instruction counts are exactly what the final state says.
proof fn lemma_trace_conservation(cfg: Config, s: AttemptState, evs: Seq<Event>)
    requires
        wf_trace(cfg, s, evs),
    ensures
        open_flag(s) + count_opens(evs) == count_closes(trace_actions(cfg, s, evs)) + open_flag(
            trace_final(cfg, s, evs),
        ),
        spawns_at(trace_final(cfg, s, evs)) == spawns_at(s) + count_spawns(
            trace_actions(cfg, s, evs),
        ),
        stops_at(trace_final(cfg, s, evs)) == stops_at(s) + count_stops(
            trace_actions(cfg, s, evs),
        ),
    decreases evs.len(),
{
    if evs.len() != 0 {
        let s2 = spec_step(cfg, s, evs[0]).0;
        let a = spec_step(cfg, s, evs[0]).1;
        let rest = evs.drop_first();
        let rest_acts = trace_actions(cfg, s2, rest);
        let acts = trace_actions(cfg, s, evs);
        lemma_trace_conservation(cfg, s2, rest);
        assert(acts == seq![a] + rest_acts);
        assert(acts[0] == a);
        assert(acts.drop_first() =~= rest_acts);
    }
}

/// At most one session is ever opened from `s`.
proof fn lemma_opens_bounded(cfg: Config, s: AttemptState, evs: Seq<Event>)
    requires
        wf_trace(cfg, s, evs),
    ensures
        count_opens(evs) <= open_budget(s),
    decreases evs.len(),
{
    if evs.len() != 0 {
        lemma_opens_bounded(cfg, spec_step(cfg, s, evs[0]).0, evs.drop_first());
    }
}

/// A finished attempt consumes no further event.
proof fn lemma_done_is_terminal(cfg: Config, s: AttemptState, evs: Seq<Event>)
    requires
        wf_trace(cfg, s, evs),
        s is Done,
    ensures
        evs.len() == 0,
{
}

/// Past the authentication phase no authentication outcome occurs again.
proof fn lemma_no_auth_event_past_auth(cfg: Config, s: AttemptState, evs: Seq<Event>, i: int)
    requires
        wf_trace(cfg, s, evs),
        past_auth(s),
        0 <= i < evs.len(),
    ensures
        !(evs[i] is AuthDone),
    decreases evs.len(),
{
    if i == 0 {
    } else {
        lemma_no_auth_event_past_auth(cfg, spec_step(cfg, s, evs[0]).0, evs.drop_first(), i - 1);
    }
}

/// A rejected credential pair ends the attempt at once: the trace is the
/// submission and the rejection, nothing is ever spawned, and the
/// attempt's verdict carries exactly that authentication error.
pub proof fn lemma_rejected_credentials_never_spawn(cfg: Config, evs: Seq<Event>, i: int)
    requires
        wf_trace(cfg, AttemptState::Idle, evs),
        0 <= i < evs.len(),
        evs[i] matches Event::AuthDone { outcome: Err(_) },
    ensures
        evs.len() == 2 && i == 1,
        count_spawns(trace_actions(cfg, AttemptState::Idle, evs)) == 0,
        trace_final(cfg, AttemptState::Idle, evs) matches AttemptState::Done {
            verdict: AttemptVerdict::Rejected { error: AttemptError::Auth { .. } },
        },
{
    let s0 = AttemptState::Idle;
    let s1 = spec_step(cfg, s0, evs[0]).0;
    assert(evs[0] is Submit);
    assert(i >= 1);
    let rest1 = evs.drop_first();
    assert(wf_trace(cfg, s1, rest1));
    assert(rest1.len() >= 1);
    assert(rest1[0] == evs[1]);
    assert(evs[1] is AuthDone);
    let s2 = spec_step(cfg, s1, evs[1]).0;
    let rest2 = rest1.drop_first();
    assert(wf_trace(cfg, s2, rest2));
    match evs[1] {
        Event::AuthDone { outcome: Err(_) } => {
            assert(s2 is Done);
            lemma_done_is_terminal(cfg, s2, rest2);
            assert(evs.len() == 2);
            assert(i == 1);
            let acts = trace_actions(cfg, s0, evs);
            let acts1 = trace_actions(cfg, s1, rest1);
            let acts2 = trace_actions(cfg, s2, rest2);
            assert(acts2 =~= Seq::<Action>::empty());
            assert(count_spawns(acts2) == 0);
            assert(acts1 == seq![spec_step(cfg, s1, rest1[0]).1] + acts2);
            assert(acts1[0] == spec_step(cfg, s1, evs[1]).1);
            assert(acts1.drop_first() =~= acts2);
            assert(count_spawns(acts1) == 0);
            assert(acts == seq![spec_step(cfg, s0, evs[0]).1] + acts1);
            assert(acts[0] == spec_step(cfg, s0, evs[0]).1);
            assert(!(acts[0] is Spawn));
            assert(acts.drop_first() =~= acts1);
            assert(count_spawns(acts) == 0);
            assert(trace_final(cfg, s2, rest2) == s2);
            assert(trace_final(cfg, s1, rest1) == s2);
            assert(trace_final(cfg, s0, evs) == s2);
        },
        Event::AuthDone { outcome: Ok(_) } => {
            // The stack accepted the pair, so the later rejection cannot
            // exist: past the authentication phase no authentication
            // outcome occurs.
            assert(past_auth(s2));
            assert(i >= 2) by {
                assert(!(evs[0] is AuthDone));
                assert(!(evs[1] matches Event::AuthDone { outcome: Err(_) }));
            }
            assert(rest2[i - 2] == evs[i]);
            lemma_no_auth_event_past_auth(cfg, s2, rest2, i - 2);
            assert(false);
        },
        _ => {
            assert(false);
        },
    }
}

/// One close for one open, on every exit path: a finished attempt handed
/// out exactly as many `CloseSession` instructions as sessions were
/// opened, and that is never more than one.
pub proof fn lemma_session_balance(cfg: Config, evs: Seq<Event>)
    requires
        wf_trace(cfg, AttemptState::Idle, evs),
        trace_final(cfg, AttemptState::Idle, evs) is Done,
    ensures
        count_closes(trace_actions(cfg, AttemptState::Idle, evs)) == count_opens(evs),
        count_opens(evs) <= 1,
{
    lemma_trace_conservation(cfg, AttemptState::Idle, evs);
    lemma_opens_bounded(cfg, AttemptState::Idle, evs);
}

/// The display-server stop is handed out exactly once by an attempt whose
/// session completed, and never by one that was rejected.
pub proof fn lemma_display_stop(cfg: Config, evs: Seq<Event>)
    requires
        wf_trace(cfg, AttemptState::Idle, evs),
        trace_final(cfg, AttemptState::Idle, evs) is Done,
    ensures
        count_stops(trace_actions(cfg, AttemptState::Idle, evs)) == (
        if trace_final(cfg, AttemptState::Idle, evs) matches AttemptState::Done {
            verdict: AttemptVerdict::Completed { .. },
        } {
            1nat
        } else {
            0nat
        }),
{
    lemma_trace_conservation(cfg, AttemptState::Idle, evs);
}

/// Exactly one stop per application run that started the display server
/// and ended in exactly one of the two ways: an attempt that completed a
/// session normally, or a monitored fault signal, whose restricted-context
/// handler issues the one stop itself (through the supervisor's
/// `stop_target` decision).
pub proof fn lemma_display_stop_exactly_once(cfg: Config, evs: Seq<Event>, fault_signal: bool)
    requires
        wf_trace(cfg, AttemptState::Idle, evs),
        trace_final(cfg, AttemptState::Idle, evs) is Done,
        // exactly one of the two terminations happened
        fault_signal <==> !(trace_final(cfg, AttemptState::Idle, evs)
            matches AttemptState::Done { verdict: AttemptVerdict::Completed { .. } }),
    ensures
        count_stops(trace_actions(cfg, AttemptState::Idle, evs)) + (if fault_signal {
            1nat
        } else {
            0nat
        }) == 1,
{
    lemma_display_stop(cfg, evs);
}

} // verus!
