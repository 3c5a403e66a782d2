//! Recovery from errors in the middle of a turn.
//!
//! When a model stream breaks off, the round is kept alive: the agent is asked to continue, again
//! and again, with a growing pause in between. Any sign of activity ends the streak.

use vstd::prelude::*;

use crate::protocol::TurnCompleteEvent;
use crate::text;

verus! {

/// The number of attempts that stands for unlimited attempts.
pub const UNLIMITED_RETRY_SENTINEL: u32 = 0;

/// The longest pause before an attempt.
pub const MAX_BACKOFF_SECS: u64 = 300;

/// A plan to retry a failed turn by asking the agent to continue.
#[derive(Debug, Clone, Copy, PartialEq, Eq, Structural)]
pub struct ContinueRetryPlan {
    /// Number of the attempt within the current streak, from one.
    pub attempt: u32,
    /// How many attempts there may be; zero when there is no limit.
    pub max_attempts: u32,
    /// Seconds to wait before the attempt.
    pub backoff_secs: u64,
}

/// What to do about a failed turn.
#[derive(Debug, Clone, Copy, PartialEq, Eq, Structural)]
pub enum ContinueRetryDecision {
    Retry(ContinueRetryPlan),
}

/// How often the agent was asked to continue since the last sign of activity.
#[derive(Debug)]
pub struct PotterStreamRecovery {
    continue_sends_since_activity: u32,
}

impl View for PotterStreamRecovery {
    type V = nat;

    closed spec fn view(&self) -> nat {
        self.continue_sends_since_activity as nat
    }
}

/// Two to the power of `n`.
pub open spec fn doubled(n: nat) -> nat
    decreases n,
{
    if n == 0 {
        1
    } else {
        2 * doubled((n - 1) as nat)
    }
}

/// Seconds to wait before the attempt that follows on `sends` attempts: none before the first,
/// one before the second, and twice as many before every further one, up to the maximum.
pub open spec fn backoff(sends: nat) -> nat {
    if sends == 0 {
        0
    } else if doubled((sends - 1) as nat) < MAX_BACKOFF_SECS {
        doubled((sends - 1) as nat)
    } else {
        MAX_BACKOFF_SECS as nat
    }
}

/// The plan that follows on `sends` attempts.
pub open spec fn retry_plan(sends: nat) -> ContinueRetryPlan {
    ContinueRetryPlan {
        attempt: (sends + 1) as u32,
        max_attempts: UNLIMITED_RETRY_SENTINEL,
        backoff_secs: backoff(sends) as u64,
    }
}

proof fn lemma_doubled_grows(m: nat, n: nat)
    requires
        m <= n,
    ensures
        1 <= doubled(m) <= doubled(n),
    decreases n,
{
    if m < n {
        lemma_doubled_grows(m, (n - 1) as nat);
    } else if m > 0 {
        lemma_doubled_grows((m - 1) as nat, (m - 1) as nat);
    }
}

/// [`backoff`] of a number of attempts.
fn backoff_secs(sends: u32) -> (r: u64)
    ensures
        r == backoff(sends as nat),
{
    if sends == 0 {
        return 0;
    }
    let mut power: u64 = 1;
    let mut i: u32 = 1;
    while i < sends && power < MAX_BACKOFF_SECS
        invariant
            1 <= i <= sends,
            power == doubled((i - 1) as nat),
            power <= 2 * MAX_BACKOFF_SECS,
        decreases sends - i,
    {
        power = 2 * power;
        i = i + 1;
    }
    proof {
        lemma_doubled_grows((i - 1) as nat, (sends - 1) as nat);
    }
    if power < MAX_BACKOFF_SECS {
        power
    } else {
        MAX_BACKOFF_SECS
    }
}

impl Default for PotterStreamRecovery {
    fn default() -> (r: Self)
        ensures
            r@ == 0,
    {
        PotterStreamRecovery { continue_sends_since_activity: 0 }
    }
}

impl PotterStreamRecovery {
    /// No attempt was made.
    pub fn new() -> (r: PotterStreamRecovery)
        ensures
            r@ == 0,
    {
        PotterStreamRecovery { continue_sends_since_activity: 0 }
    }

    /// Whether attempts were made since the last sign of activity.
    pub fn is_in_retry_streak(&self) -> (r: bool)
        ensures
            r == (self@ > 0),
    {
        self.continue_sends_since_activity > 0
    }

    /// Whether the end of a turn is to be kept from the screen: in a streak, a turn that ends
    /// without a message is the failure itself, and not the end of the round.
    pub fn should_suppress_turn_complete(&self, turn_complete: &TurnCompleteEvent) -> (r: bool)
        ensures
            r == (self@ > 0 && match text::opt_text(turn_complete.last_agent_message) {
                Some(message) => message.len() == 0,
                None => true,
            }),
    {
        let silent = match &turn_complete.last_agent_message {
            Some(message) => {
                let chars = text::chars_of(message.as_str());
                chars.len() == 0
            },
            None => true,
        };
        self.is_in_retry_streak() && silent
    }

    /// Take note of an event: activity ends the streak.
    pub fn observe_event(&mut self, is_activity: bool)
        ensures
            final(self)@ == if is_activity {
                0
            } else {
                old(self)@
            },
    {
        if is_activity {
            self.continue_sends_since_activity = 0;
        }
    }

    /// Decide how to retry after an error, if it is one that can be retried.
    pub fn plan_retry(&mut self, is_retryable: bool) -> (r: Option<ContinueRetryDecision>)
        requires
            is_retryable ==> old(self)@ < u32::MAX,
        ensures
            !is_retryable ==> r is None && final(self)@ == old(self)@,
            is_retryable ==> final(self)@ == old(self)@ + 1 && r == Some(
                ContinueRetryDecision::Retry(retry_plan(old(self)@)),
            ),
    {
        if !is_retryable {
            return None;
        }
        let sends = self.continue_sends_since_activity;
        let backoff_secs = backoff_secs(sends);
        self.continue_sends_since_activity = sends + 1;
        Some(
            ContinueRetryDecision::Retry(
                ContinueRetryPlan {
                    attempt: sends + 1,
                    max_attempts: UNLIMITED_RETRY_SENTINEL,
                    backoff_secs,
                },
            ),
        )
    }
}

/// The pause never shrinks within a streak, and never exceeds the maximum.
pub proof fn law_backoff_grows_to_the_maximum(m: nat, n: nat)
    requires
        m <= n,
    ensures
        backoff(m) <= backoff(n) <= MAX_BACKOFF_SECS,
{
    if m > 0 {
        lemma_doubled_grows((m - 1) as nat, (n - 1) as nat);
    } else if n > 0 {
        lemma_doubled_grows(0, (n - 1) as nat);
    }
}

/// From the tenth attempt after the first on, the pause is the maximum.
pub proof fn law_backoff_reaches_the_maximum(n: nat)
    requires
        n >= 10,
    ensures
        backoff(n) == MAX_BACKOFF_SECS,
{
    assert(doubled(9) == 512) by {
        reveal_with_fuel(doubled, 10);
    }
    lemma_doubled_grows(9, (n - 1) as nat);
}

/// Until the maximum is reached, every pause but the first two is twice the one before.
pub proof fn law_backoff_doubles(n: nat)
    requires
        n >= 1,
        2 * backoff(n) <= MAX_BACKOFF_SECS,
    ensures
        backoff(n + 1) == 2 * backoff(n),
        backoff(0) == 0,
        backoff(1) == 1,
{
    lemma_doubled_grows(0, (n - 1) as nat);
    reveal_with_fuel(doubled, 2);
}

/// The attempts of a streak are numbered from one, without a gap, and there is always a next one.
pub proof fn law_attempts_are_numbered(sends: nat)
    requires
        sends < u32::MAX,
    ensures
        retry_plan(sends).attempt == sends + 1,
        retry_plan(sends).max_attempts == 0,
{
}

/// The whole course of a streak: no pause before the first attempt, one second before the second,
/// and before every further one twice the pause before, but never more than five minutes; every
/// attempt has its number, and none of them is the last.
pub proof fn law_course_of_a_streak(sends: nat)
    requires
        sends < u32::MAX,
    ensures
        retry_plan(0).backoff_secs == 0,
        retry_plan(1).backoff_secs == 1,
        sends >= 1 && 2 * backoff(sends) <= 300 ==> retry_plan(sends + 1).backoff_secs == 2
            * retry_plan(sends).backoff_secs,
        sends >= 1 && 2 * backoff(sends) > 300 ==> retry_plan(sends + 1).backoff_secs == 300,
        retry_plan(sends).backoff_secs == backoff(sends),
        retry_plan(sends).attempt == sends + 1,
        retry_plan(sends).max_attempts == 0,
{
    reveal_with_fuel(doubled, 2);
    law_backoff_grows_to_the_maximum(0, sends);
    law_backoff_grows_to_the_maximum(0, sends + 1);
    if sends >= 1 {
        lemma_doubled_grows(0, (sends - 1) as nat);
        assert(doubled(sends) == 2 * doubled((sends - 1) as nat));
    }
}

} // verus!
