//! Pausing espanso from the tray: for good, or for ten minutes.
//!
//! Each change runs one `cmd enable` / `cmd disable`; the caller runs it and hands the outcome
//! back, and the state moves only when it worked. Times are milliseconds on the caller's monotonic
//! clock.

use vstd::prelude::*;
use crate::espanso_ctl::{CtlResult, detail_spec};
use crate::i18n::{fill, fill_spec, args_view};
use crate::strings::Strings;

verus! {

/// How long a timed pause lasts: ten minutes.
pub const PAUSE_DURATION_MS: u64 = 600_000;

/// Whether espanso is expanding, paused until further notice, or paused until a moment.
#[derive(Debug, Clone, Copy, PartialEq, Eq, Structural)]
pub enum PauseState {
    Active,
    PausedIndefinite,
    /// Paused until this moment.
    PausedTimed(u64),
}

/// The two commands pausing is made of.
#[derive(Debug, Clone, Copy, PartialEq, Eq, Structural)]
pub enum PauseCommand {
    /// `cmd enable`.
    Enable,
    /// `cmd disable`.
    Disable,
}

/// Whether a state pauses espanso.
pub open spec fn paused(s: PauseState) -> bool {
    s !is Active
}

/// The outcome of one tray command as a sentence for the user: nothing when it worked; what it
/// said when it ran and failed; why it could not be run at all otherwise (`Err` holds that error).
pub fn ctl_result_to_message(res: Result<&CtlResult, &str>, verb: &str, t: &Strings) -> (r: Result<(), String>)
    ensures
        (res matches Ok(c) && c.success) <==> r is Ok,
        res matches Ok(c) ==> (!c.success ==> (r matches Err(m)
            && m@ == fill_spec(t.err_espanso_action@, seq![("verb"@, verb@), ("detail"@, detail_spec(c.stdout@, c.stderr@))]))),
        res matches Err(e) ==> (r matches Err(m) && m@ == fill_spec(t.err_espanso_comm@, seq![("verb"@, verb@), ("err"@, e@)])),
{
    match res {
        Ok(c) => {
            if c.success {
                Ok(())
            } else {
                let detail = c.detail();
                let args = [("verb", verb), ("detail", detail.as_str())];
                let m = fill(t.err_espanso_action, &args);
                assert(args_view(args@) =~= seq![("verb"@, verb@), ("detail"@, detail_spec(c.stdout@, c.stderr@))]);
                Err(m)
            }
        },
        Err(e) => {
            let args = [("verb", verb), ("err", e)];
            let m = fill(t.err_espanso_comm, &args);
            assert(args_view(args@) =~= seq![("verb"@, verb@), ("err"@, e@)]);
            Err(m)
        },
    }
}

impl PauseState {
    /// Whether espanso is paused, whichever way.
    pub fn is_paused(self) -> (r: bool)
        ensures
            r == paused(self),
    {
        !matches!(self, PauseState::Active)
    }

    /// The command the pause/resume item runs: disable when active, enable when paused.
    pub fn toggle_command(self) -> (r: PauseCommand)
        ensures
            r == (if paused(self) { PauseCommand::Enable } else { PauseCommand::Disable }),
    {
        if self.is_paused() { PauseCommand::Enable } else { PauseCommand::Disable }
    }

    /// The verb the pause/resume item's error names.
    pub fn toggle_verb(self, t: &Strings) -> (r: &'static str)
        ensures
            r@ == (if paused(self) { t.verb_resume@ } else { t.verb_pause@ }),
    {
        if self.is_paused() { t.verb_resume } else { t.verb_pause }
    }

    /// The label of the pause/resume item; the paused icon goes with "Resume".
    pub fn toggle_label(self, t: &Strings) -> (r: &'static str)
        ensures
            r@ == (if paused(self) { t.tray_resume@ } else { t.tray_pause@ }),
    {
        if self.is_paused() { t.tray_resume } else { t.tray_pause }
    }

    /// The state after the pause/resume item's command: active becomes paused until further
    /// notice, either pause becomes active — and nothing moves when the command failed.
    pub fn toggle(self, outcome: &Result<(), String>) -> (r: PauseState)
        ensures
            outcome is Err ==> r == self,
            outcome is Ok ==> r == toggle_spec(self),
    {
        match outcome {
            Err(_) => self,
            Ok(()) => if self.is_paused() { PauseState::Active } else { PauseState::PausedIndefinite },
        }
    }

    /// The state after "pause for ten minutes" ran its `cmd disable` at `now`: paused until ten
    /// minutes later (the end of the clock at the latest), or unchanged when the command failed.
    pub fn pause_timed(self, now: u64, outcome: &Result<(), String>) -> (r: PauseState)
        ensures
            outcome is Err ==> r == self,
            outcome is Ok ==> r == PauseState::PausedTimed(
                if now + PAUSE_DURATION_MS <= u64::MAX { (now + PAUSE_DURATION_MS) as u64 } else { u64::MAX }),
    {
        match outcome {
            Err(_) => self,
            Ok(()) => PauseState::PausedTimed(now.saturating_add(PAUSE_DURATION_MS)),
        }
    }

    /// When a running timed pause is due to end, if one is running at all.
    pub fn timed_pause_deadline(self) -> (r: Option<u64>)
        ensures
            r == (match self { PauseState::PausedTimed(until) => Some(until), _ => None::<u64> }),
    {
        match self {
            PauseState::PausedTimed(until) => Some(until),
            _ => None,
        }
    }

    /// Whether a timed pause has run out at `now`, so that espanso should be re-enabled.
    pub fn tick_due(self, now: u64) -> (r: bool)
        ensures
            r == due_spec(self, now),
    {
        match self {
            PauseState::PausedTimed(until) => now >= until,
            _ => false,
        }
    }

    /// The state after a timed pause ran out and `cmd enable` was tried: active if it worked,
    /// paused until further notice if not. The pause is over either way — left armed with its
    /// deadline in the past, a failed re-enable would be retried on every frame, for ever.
    pub fn tick(self, outcome: &Result<(), String>) -> (r: PauseState)
        ensures
            r == after_due_spec(outcome is Ok),
    {
        match outcome {
            Ok(()) => PauseState::Active,
            Err(_) => PauseState::PausedIndefinite,
        }
    }
}

// ---------------------------------------------------------------------------------------------
// Laws
// ---------------------------------------------------------------------------------------------

/// A successful toggle's state change.
pub open spec fn toggle_spec(s: PauseState) -> PauseState {
    if paused(s) { PauseState::Active } else { PauseState::PausedIndefinite }
}

/// A timed pause has run out at `now`.
pub open spec fn due_spec(s: PauseState, now: u64) -> bool {
    s matches PauseState::PausedTimed(until) && now >= until
}

/// The state once a due timed pause has tried to re-enable espanso.
pub open spec fn after_due_spec(ok: bool) -> PauseState {
    if ok { PauseState::Active } else { PauseState::PausedIndefinite }
}

/// Pausing and resuming undo each other: a successful toggle flips whether espanso is paused, two
/// of them in a row are back where an active or open-ended pause started, and a toggle never leaves
/// a timed pause behind.
pub proof fn law_toggle_twice_restores(s: PauseState)
    ensures
        paused(toggle_spec(s)) != paused(s),
        !(toggle_spec(s) is PausedTimed),
        !(s is PausedTimed) ==> toggle_spec(toggle_spec(s)) == s,
{
}

/// Once a timed pause has come due and the re-enable was tried, nothing is due any more at any
/// later moment, whatever the re-enable answered: there is no endless retry.
pub proof fn law_due_pause_is_tried_once(ok: bool, later: u64)
    ensures
        !due_spec(after_due_spec(ok), later),
        ok <==> !paused(after_due_spec(ok)),
{
}

/// A timed pause started at `now` is not due before ten minutes have passed.
pub proof fn law_timed_pause_lasts(now: u64, at: u64)
    requires
        now + PAUSE_DURATION_MS <= u64::MAX,
        at < now + PAUSE_DURATION_MS,
    ensures
        !due_spec(PauseState::PausedTimed((now + PAUSE_DURATION_MS) as u64), at),
{
}

} // verus!
