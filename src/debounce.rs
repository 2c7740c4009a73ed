//! Coalescing timer for window geometry writes.
//!
//! Every move or resize notification overwrites the single pending slot and
//! hands back a ticket; the caller checks that ticket after a fixed delay.
//! Only a check whose ticket is still current, and that comes at least the
//! quiet period after the last change, commits; committing empties the slot.

use vstd::prelude::*;

verus! {

/// Delay after which a scheduled check fires.
pub const SAVE_DELAY_MS: u64 = 1000;

/// Time that must have passed since the last change for a check to commit.
pub const QUIET_PERIOD_MS: u64 = 900;

/// Pending slot after a change at `now_ms`.
pub open spec fn spec_after_change(now_ms: u64) -> Option<u64> {
    Some(now_ms)
}

/// Whether a check holding `ticket` at time `now_ms` commits, given the slot.
pub open spec fn spec_commits(pending: Option<u64>, ticket: u64, now_ms: u64) -> bool {
    pending == Some(ticket) && now_ms >= ticket + QUIET_PERIOD_MS
}

/// Pending slot after a check.
pub open spec fn spec_after_check(pending: Option<u64>, ticket: u64, now_ms: u64) -> Option<u64> {
    if spec_commits(pending, ticket, now_ms) {
        None
    } else {
        pending
    }
}

pub struct GeometryDebouncer {
    last_change: Option<u64>,
}

impl View for GeometryDebouncer {
    type V = Option<u64>;

    closed spec fn view(&self) -> Option<u64> {
        self.last_change
    }
}

impl GeometryDebouncer {
    /// An idle debouncer: nothing pending.
    pub fn new() -> (r: GeometryDebouncer)
        ensures
            r@ == None::<u64>,
    {
        GeometryDebouncer { last_change: None }
    }

    /// Records a move or resize at `now_ms` and returns the ticket that the
    /// check scheduled for it must present.
    pub fn notify_change(&mut self, now_ms: u64) -> (ticket: u64)
        ensures
            final(self)@ == spec_after_change(now_ms),
            ticket == now_ms,
    {
        self.last_change = Some(now_ms);
        now_ms
    }

    /// The delayed check for `ticket`, made at `now_ms`: true when the
    /// geometry should be written now.
    pub fn check(&mut self, ticket: u64, now_ms: u64) -> (commit: bool)
        ensures
            commit == spec_commits(old(self)@, ticket, now_ms),
            final(self)@ == spec_after_check(old(self)@, ticket, now_ms),
    {
        let commit = match self.last_change {
            Some(last) => last == ticket && now_ms >= ticket && now_ms - ticket >= QUIET_PERIOD_MS,
            None => false,
        };
        if commit {
            self.last_change = None;
        }
        commit
    }
}

/// Once a check has committed, no other check commits until a new change
/// comes in: at most one write per quiet period.
pub proof fn lemma_one_commit_per_quiet_period(
    pending: Option<u64>,
    ticket: u64,
    now_ms: u64,
    other_ticket: u64,
    later_ms: u64,
)
    requires
        spec_commits(pending, ticket, now_ms),
    ensures
        !spec_commits(spec_after_check(pending, ticket, now_ms), other_ticket, later_ms),
{
}

/// A check scheduled for a change that a later change at another time has
/// superseded never commits.
pub proof fn lemma_superseded_check_is_stale(stale_ticket: u64, change_ms: u64, now_ms: u64)
    requires
        stale_ticket != change_ms,
    ensures
        !spec_commits(spec_after_change(change_ms), stale_ticket, now_ms),
{
}

/// The check of the last change of a burst commits once the quiet period
/// has passed, and leaves the debouncer idle.
pub proof fn lemma_last_change_commits(change_ms: u64, now_ms: u64)
    requires
        now_ms >= change_ms + QUIET_PERIOD_MS,
    ensures
        spec_commits(spec_after_change(change_ms), change_ms, now_ms),
        spec_after_check(spec_after_change(change_ms), change_ms, now_ms) == None::<u64>,
{
}

} // verus!
