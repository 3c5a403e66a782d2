//! The number of rounds a project may run.

use vstd::prelude::*;

use crate::text;

verus! {

/// A number of rounds, at least one.
#[derive(Debug, Clone, Copy, PartialEq, Eq)]
pub struct Rounds {
    value: usize,
}

/// A number of rounds that the protocol cannot carry.
#[derive(Debug, Clone, Copy, PartialEq, Eq, Structural)]
pub struct RoundBudgetError {
    pub rounds: usize,
}

impl View for Rounds {
    type V = nat;

    closed spec fn view(&self) -> nat {
        self.value as nat
    }
}

impl Rounds {
    #[verifier::type_invariant]
    spec fn at_least_one(self) -> bool {
        self.value >= 1
    }

    /// `n` rounds, if that is at least one.
    pub fn new(n: usize) -> (r: Option<Rounds>)
        ensures
            match r {
                Some(rounds) => n >= 1 && rounds@ == n,
                None => n == 0,
            },
    {
        if n >= 1 {
            Some(Rounds { value: n })
        } else {
            None
        }
    }

    /// The number of rounds.
    pub fn get(&self) -> (r: usize)
        ensures
            r == self@,
            r >= 1,
    {
        proof {
            use_type_invariant(self);
        }
        self.value
    }
}

impl Default for Rounds {
    /// Ten rounds.
    fn default() -> (r: Self)
        ensures
            r@ == 10,
    {
        Rounds { value: 10 }
    }
}

impl RoundBudgetError {
    /// The message shown to the user.
    pub fn message(&self) -> (r: String)
        ensures
            r@ == round_budget_message(self.rounds as nat),
    {
        let mut out = "round budget ".to_owned();
        let n = text::decimal_of(self.rounds as u64);
        out.append(n.as_str());
        out.append(" exceeds the maximum of 4294967295");
        out
    }
}

/// The message shown for a round budget that is too large.
pub open spec fn round_budget_message(rounds: nat) -> Seq<char> {
    "round budget "@ + text::decimal(rounds) + " exceeds the maximum of 4294967295"@
}

/// The round budget as the protocol carries it.
pub fn round_budget_to_u32(rounds: Rounds) -> (r: Result<u32, RoundBudgetError>)
    ensures
        match r {
            Ok(n) => n == rounds@,
            Err(e) => rounds@ > u32::MAX && e.rounds == rounds@,
        },
{
    let n = rounds.get();
    if n as u64 <= 4294967295 {
        Ok(n as u32)
    } else {
        Err(RoundBudgetError { rounds: n })
    }
}

/// A round budget that is too large is named, with the largest that is not.
pub proof fn law_budget_is_named(rounds: nat)
    ensures
        round_budget_message(rounds) == "round budget "@ + text::decimal(rounds)
            + " exceeds the maximum of 4294967295"@,
{
}

} // verus!
