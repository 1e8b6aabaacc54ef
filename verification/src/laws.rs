//! What holds of the ledger over one reward and over many.

use vstd::prelude::*;
use crate::authority::{authority_accepted, MintTo};
use crate::engine::{initialize_result, reward_result, Initialize, RewardUser};
use crate::error::ErrorCode;
use crate::state::Ledger;

verus! {

/// A reward on a counter below twice the threshold leaves the counter below
/// the threshold plus the amount that was paid.
pub proof fn lemma_rewarded_bound(l: Ledger)
    requires
        l.total_minted < 2 * l.halving_threshold,
    ensures
        l.rewarded().total_minted < l.halving_threshold + l.current_reward,
{
}

/// A settled ledger is settled after a reward: the counter stays below the
/// threshold as long as the amount paid does not exceed the threshold.
pub proof fn lemma_settled_preserved(l: Ledger)
    requires
        l.settled(),
    ensures
        l.rewarded().settled(),
        l.rewarded().total_minted < l.halving_threshold,
{
}

/// One reward never raises the amount, and changes it only by halving it on a
/// step that reaches the threshold.
pub proof fn lemma_reward_step(l: Ledger)
    ensures
        l.rewarded().current_reward <= l.current_reward,
        l.crosses() ==> l.rewarded().current_reward == l.current_reward / 2,
        !l.crosses() ==> l.rewarded().current_reward == l.current_reward,
        l.rewarded().halving_threshold == l.halving_threshold,
        l.rewarded().token_mint == l.token_mint,
        l.rewarded().authority == l.authority,
{
}

impl Ledger {
    /// The ledger after `n` rewards in a row.
    pub open spec fn rewarded_times(self, n: nat) -> Ledger
        decreases n,
    {
        if n == 0 {
            self
        } else {
            self.rewarded_times((n - 1) as nat).rewarded()
        }
    }

    /// Whether each of `n` rewards in a row stays within 64 bits, so that
    /// each of the calls succeeds.
    pub open spec fn rewards_succeed(self, n: nat) -> bool
        decreases n,
    {
        n == 0 || (self.rewards_succeed((n - 1) as nat) && !self.rewarded_times(
            (n - 1) as nat,
        ).overflows())
    }
}

/// Over any run of successful rewards the amount never rises: after `n`
/// rewards it is at most what it was after any `m <= n` of them, and each
/// step changes it only by halving it where that step reaches the threshold.
pub proof fn lemma_reward_monotone(l: Ledger, m: nat, n: nat)
    requires
        m <= n,
        l.rewards_succeed(n),
    ensures
        l.rewarded_times(n).current_reward <= l.rewarded_times(m).current_reward,
        l.rewarded_times(n).current_reward <= l.current_reward,
        m < n ==> l.rewarded_times(m + 1).current_reward == (if l.rewarded_times(m).crosses() {
            l.rewarded_times(m).current_reward / 2
        } else {
            l.rewarded_times(m).current_reward
        }),
    decreases n,
{
    if n > 0 {
        let k = (n - 1) as nat;
        lemma_reward_step(l.rewarded_times(k));
        if m <= k {
            lemma_reward_monotone(l, m, k);
        }
        lemma_reward_monotone(l, 0, k);
        if m < n {
            lemma_reward_step(l.rewarded_times(m));
        }
    }
}

/// Every ledger reached by rewards from a settled one is settled: after each
/// reward its counter is below the threshold, which never changes.
pub proof fn lemma_settled_always(l: Ledger, n: nat)
    requires
        l.settled(),
    ensures
        l.rewarded_times(n).settled(),
        l.rewarded_times(n).total_minted < l.halving_threshold,
        l.rewarded_times(n).halving_threshold == l.halving_threshold,
    decreases n,
{
    if n > 0 {
        lemma_settled_always(l, (n - 1) as nat);
        lemma_settled_preserved(l.rewarded_times((n - 1) as nat));
    }
}

/// A second `initialize` on the same slot fails as already initialized and
/// leaves the ledger exactly as the first call set it.
pub proof fn lemma_initialize_once(ctx: Initialize)
    requires
        ctx.game_state is None,
    ensures
        initialize_result(ctx).1 is Ok,
        initialize_result(initialize_result(ctx).0) == (
            initialize_result(ctx).0,
            Err::<(), ErrorCode>(ErrorCode::AlreadyInitialized),
        ),
{
}

/// A reward offered with any authority but the derived one is refused, and
/// neither the ledger nor any other account changes; no mint is requested.
pub proof fn lemma_foreign_authority_refused(ctx: RewardUser, derived: Option<(Seq<u8>, u8)>)
    requires
        !authority_accepted(ctx.game_authority@, derived),
    ensures
        reward_result(ctx, derived) == (ctx, Err::<MintTo, ErrorCode>(ErrorCode::MintAuthorityInvalid)),
{
}

} // verus!
