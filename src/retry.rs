//! The retry policy of a remote fetch: a fixed number of attempts with a
//! fixed pause between them.

use vstd::prelude::*;

verus! {

/// Attempts made for one fetch before it gives up.
pub const MAX_RETRIES: u32 = 3;

/// Pause between a failed attempt and the next one, in milliseconds.
pub const RETRY_DELAY_MS: u64 = 1500;

/// What to do after a failed attempt.
#[derive(Clone, Copy, Debug, PartialEq, Eq, Structural)]
pub enum RetryAction {
    /// Wait this many milliseconds, then attempt again.
    RetryAfter(u64),
    /// No attempt is left.
    GiveUp,
}

/// The action after the given number of failed attempts.
pub open spec fn action_after(failures: nat) -> RetryAction {
    if failures < MAX_RETRIES {
        RetryAction::RetryAfter(RETRY_DELAY_MS)
    } else {
        RetryAction::GiveUp
    }
}

/// The failed attempts of one fetch so far.
#[derive(Clone, Copy, Debug, PartialEq, Eq, Structural)]
pub struct RetryState {
    pub failures: u32,
}

impl RetryState {
    /// No attempt made yet.
    pub fn new() -> (r: Self)
        ensures
            r.failures == 0,
    {
        RetryState { failures: 0 }
    }

    /// Is another attempt allowed?
    pub open spec fn can_attempt(&self) -> bool {
        self.failures < MAX_RETRIES
    }

    /// Records a failed attempt and says whether to attempt again.
    pub fn on_failure(&mut self) -> (r: RetryAction)
        requires
            old(self).can_attempt(),
        ensures
            final(self).failures == old(self).failures + 1,
            r == action_after(final(self).failures as nat),
    {
        self.failures = self.failures + 1;
        if self.failures < MAX_RETRIES {
            RetryAction::RetryAfter(RETRY_DELAY_MS)
        } else {
            RetryAction::GiveUp
        }
    }
}

/// A fetch under this policy, from `failures` failed attempts on, where
/// attempt `i` (counted from zero) succeeds exactly when `succeeds(i)`:
/// the number of attempts made in all and whether a value came back.
pub open spec fn fetch_run(succeeds: spec_fn(nat) -> bool, failures: nat) -> (nat, bool)
    decreases MAX_RETRIES - failures,
{
    if failures >= MAX_RETRIES {
        (failures, false)
    } else if succeeds(failures) {
        (failures + 1, true)
    } else {
        match action_after(failures + 1) {
            RetryAction::RetryAfter(_) => fetch_run(succeeds, failures + 1),
            RetryAction::GiveUp => (failures + 1, false),
        }
    }
}

/// A source that fails every time is called exactly `MAX_RETRIES` times,
/// and the fetch then gives up.
pub proof fn lemma_retry_bound(succeeds: spec_fn(nat) -> bool)
    requires
        forall|i: nat| !#[trigger] succeeds(i),
    ensures
        fetch_run(succeeds, 0) == (MAX_RETRIES as nat, false),
{
    reveal_with_fuel(fetch_run, 4);
}

/// Whatever the source does, a fetch makes at least one and at most
/// `MAX_RETRIES` attempts; it returns a value exactly when one of those
/// attempts succeeded, and it stops at the first success.
pub proof fn lemma_retry_run(succeeds: spec_fn(nat) -> bool, failures: nat)
    requires
        failures < MAX_RETRIES,
    ensures
        failures < fetch_run(succeeds, failures).0 <= MAX_RETRIES,
        fetch_run(succeeds, failures).1 <==> exists|i: nat|
            failures <= i < MAX_RETRIES && #[trigger] succeeds(i),
        fetch_run(succeeds, failures).1 ==> succeeds((fetch_run(succeeds, failures).0 - 1) as nat),
        forall|i: nat|
            failures <= i < fetch_run(succeeds, failures).0 - 1 ==> !#[trigger] succeeds(i),
    decreases MAX_RETRIES - failures,
{
    if !succeeds(failures) && failures + 1 < MAX_RETRIES {
        lemma_retry_run(succeeds, failures + 1);
        if fetch_run(succeeds, failures + 1).1 {
            let i = choose|i: nat| failures + 1 <= i < MAX_RETRIES && #[trigger] succeeds(i);
            assert(failures <= i < MAX_RETRIES && succeeds(i));
        }
        if exists|i: nat| failures <= i < MAX_RETRIES && #[trigger] succeeds(i) {
            let i = choose|i: nat| failures <= i < MAX_RETRIES && #[trigger] succeeds(i);
            assert(i != failures);
            assert(failures + 1 <= i < MAX_RETRIES && succeeds(i));
        }
    } else if !succeeds(failures) {
        assert forall|i: nat| failures <= i < MAX_RETRIES implies !#[trigger] succeeds(i) by {
            assert(i == failures);
        }
    }
}

} // verus!
