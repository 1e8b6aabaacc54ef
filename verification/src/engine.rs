//! The two operations on the ledger: creating it and paying a reward.

use vstd::prelude::*;
use crate::authority::{
    authority_accepted, check_authority, derive_authority, derived_bump, derived_view,
    program_address, MintTo,
};
use crate::constants::{authority_seed, HALVING_THRESHOLD, INITIAL_REWARD};
use crate::error::ErrorCode;
use crate::laws::{lemma_rewarded_bound, lemma_settled_preserved};
use crate::state::{GameState, Ledger, Pubkey};

verus! {

impl GameState {
    /// The ledger that `new` creates for a mint and an authority.
    pub open spec fn fresh(token_mint: Pubkey, authority: Pubkey) -> GameState {
        GameState {
            token_mint,
            total_minted: 0,
            current_reward: INITIAL_REWARD,
            halving_threshold: HALVING_THRESHOLD,
            authority,
        }
    }

    /// A ledger with nothing minted and the standard schedule.
    pub fn new(token_mint: Pubkey, authority: Pubkey) -> (state: GameState)
        ensures
            state == GameState::fresh(token_mint, authority),
            state@.settled(),
    {
        GameState {
            token_mint,
            total_minted: 0,
            current_reward: INITIAL_REWARD,
            halving_threshold: HALVING_THRESHOLD,
            authority,
        }
    }

    /// A ledger with nothing minted and a schedule of the caller's choice.
    pub fn with_schedule(
        token_mint: Pubkey,
        authority: Pubkey,
        initial_reward: u64,
        halving_threshold: u64,
    ) -> (state: GameState)
        ensures
            state == (GameState {
                token_mint,
                total_minted: 0,
                current_reward: initial_reward,
                halving_threshold,
                authority,
            }),
            state@.settled() <==> 0 < halving_threshold && initial_reward <= halving_threshold,
    {
        GameState { token_mint, total_minted: 0, current_reward: initial_reward, halving_threshold, authority }
    }

    /// The ledger after one reward that does not overflow: the counters of
    /// `Ledger::rewarded`, the mint and the authority as they were.
    pub open spec fn next(self) -> GameState {
        GameState {
            total_minted: self@.rewarded().total_minted as u64,
            current_reward: self@.rewarded().current_reward as u64,
            ..self
        }
    }

    /// Counts one reward: adds the current amount to the counter and, where the
    /// counter reaches the threshold, halves the amount and takes the threshold
    /// off the counter, once. Returns the amount to mint, which is the amount
    /// before any halving. Fails, and changes nothing, where the addition
    /// overflows.
    pub fn advance(&mut self) -> (r: Result<u64, ErrorCode>)
        ensures
            old(self)@.overflows() ==> r == Err::<u64, ErrorCode>(ErrorCode::CalculationOverflow)
                && *final(self) == *old(self),
            !old(self)@.overflows() ==> r == Ok::<u64, ErrorCode>(old(self).current_reward)
                && *final(self) == old(self).next() && final(self)@ == old(self)@.rewarded(),
            r is Ok && old(self)@.settled() ==> final(self)@.settled(),
    {
        let reward_amount = self.current_reward;
        let raised = match self.total_minted.checked_add(reward_amount) {
            Some(sum) => sum,
            None => {
                return Err(ErrorCode::CalculationOverflow);
            },
        };
        if raised >= self.halving_threshold {
            let halved = match self.current_reward.checked_div(2) {
                Some(half) => half,
                None => {
                    return Err(ErrorCode::CalculationOverflow);
                },
            };
            let reduced = match raised.checked_sub(self.halving_threshold) {
                Some(rest) => rest,
                None => {
                    return Err(ErrorCode::CalculationOverflow);
                },
            };
            self.current_reward = halved;
            self.total_minted = reduced;
        } else {
            self.total_minted = raised;
        }
        Ok(reward_amount)
    }
}

/// The accounts of `initialize`: the slot in which the ledger is to stand,
/// empty while no ledger exists there, the mint and the administering
/// authority.
#[derive(Clone, Copy, Debug, PartialEq, Eq)]
pub struct Initialize {
    pub game_state: Option<GameState>,
    pub token_mint: Pubkey,
    pub authority: Pubkey,
}

/// The accounts of `reward_user`: the ledger, the authority offered for the
/// mint and the account that receives the tokens.
#[derive(Clone, Copy, Debug, PartialEq, Eq)]
pub struct RewardUser {
    pub game_state: GameState,
    pub game_authority: Pubkey,
    pub recipient_token_account: Pubkey,
}

/// The accounts of an operation reserved to the ledger's authority: the
/// ledger and the identity that signed.
#[derive(Clone, Copy, Debug, PartialEq, Eq)]
pub struct UpdateReward {
    pub game_state: GameState,
    pub authority: Pubkey,
}

impl UpdateReward {
    /// Accepts the accounts where the signer is the ledger's recorded
    /// authority, and refuses them as unauthorized otherwise.
    pub fn validate(&self) -> (r: Result<(), ErrorCode>)
        ensures
            self.authority@ == self.game_state.authority@ ==> r == Ok::<(), ErrorCode>(()),
            self.authority@ != self.game_state.authority@ ==> r == Err::<(), ErrorCode>(
                ErrorCode::Unauthorized,
            ),
    {
        if self.authority.same(&self.game_state.authority) {
            Ok(())
        } else {
            Err(ErrorCode::Unauthorized)
        }
    }
}

/// What `initialize` leaves in the accounts and what it returns.
pub open spec fn initialize_result(ctx: Initialize) -> (Initialize, Result<(), ErrorCode>) {
    if ctx.game_state is Some {
        (ctx, Err(ErrorCode::AlreadyInitialized))
    } else {
        (
            Initialize {
                game_state: Some(GameState::fresh(ctx.token_mint, ctx.authority)),
                ..ctx
            },
            Ok(()),
        )
    }
}

/// Creates the ledger in an empty slot: nothing minted, the initial reward,
/// the standard threshold, the mint and the authority of the accounts. An
/// occupied slot is refused and left as it is.
pub fn initialize(ctx: &mut Initialize) -> (r: Result<(), ErrorCode>)
    ensures
        (*final(ctx), r) == initialize_result(*old(ctx)),
        old(ctx).game_state is Some ==> r == Err::<(), ErrorCode>(ErrorCode::AlreadyInitialized)
            && *final(ctx) == *old(ctx),
        old(ctx).game_state is None ==> r is Ok && final(ctx).game_state == Some(
            GameState::fresh(old(ctx).token_mint, old(ctx).authority),
        ),
{
    if ctx.game_state.is_some() {
        return Err(ErrorCode::AlreadyInitialized);
    }
    ctx.game_state = Some(GameState::new(ctx.token_mint, ctx.authority));
    Ok(())
}

/// Creates the ledger in an empty slot with a schedule of the caller's
/// choice in place of the standard one. An occupied slot is refused and left
/// as it is.
pub fn initialize_with_schedule(
    ctx: &mut Initialize,
    initial_reward: u64,
    halving_threshold: u64,
) -> (r: Result<(), ErrorCode>)
    ensures
        old(ctx).game_state is Some ==> r == Err::<(), ErrorCode>(ErrorCode::AlreadyInitialized)
            && *final(ctx) == *old(ctx),
        old(ctx).game_state is None ==> r == Ok::<(), ErrorCode>(()) && *final(ctx) == (Initialize {
            game_state: Some(
                GameState {
                    token_mint: old(ctx).token_mint,
                    total_minted: 0,
                    current_reward: initial_reward,
                    halving_threshold,
                    authority: old(ctx).authority,
                },
            ),
            ..*old(ctx)
        }),
{
    if ctx.game_state.is_some() {
        return Err(ErrorCode::AlreadyInitialized);
    }
    ctx.game_state = Some(
        GameState::with_schedule(ctx.token_mint, ctx.authority, initial_reward, halving_threshold),
    );
    Ok(())
}

/// The mint request of a reward: the ledger's mint and current reward, the
/// recipient and the offered authority of the accounts, signed with `bump`.
pub open spec fn mint_request(ctx: RewardUser, bump: u8) -> MintTo {
    MintTo {
        mint: ctx.game_state.token_mint,
        to: ctx.recipient_token_account,
        authority: ctx.game_authority,
        bump,
        amount: ctx.game_state.current_reward,
    }
}

/// What a reward leaves in the accounts and what it returns, given the
/// derived authority. An authority that is not the derived one is refused
/// first; then an overflowing counter; either way nothing changes.
pub open spec fn reward_result(ctx: RewardUser, derived: Option<(Seq<u8>, u8)>) -> (
    RewardUser,
    Result<MintTo, ErrorCode>,
) {
    if !authority_accepted(ctx.game_authority@, derived) {
        (ctx, Err(ErrorCode::MintAuthorityInvalid))
    } else if ctx.game_state@.overflows() {
        (ctx, Err(ErrorCode::CalculationOverflow))
    } else {
        (
            RewardUser { game_state: ctx.game_state.next(), ..ctx },
            Ok(mint_request(ctx, derived_bump(derived))),
        )
    }
}

/// Pays one reward, given the authority that was derived for the program.
/// The offered authority must be the derived one. The ledger then counts the
/// reward, and the request returned mints the amount that the ledger held
/// before the call to the recipient.
pub fn reward_with_authority(ctx: &mut RewardUser, derived: Option<(Pubkey, u8)>) -> (r: Result<
    MintTo,
    ErrorCode,
>)
    ensures
        (*final(ctx), r) == reward_result(*old(ctx), derived_view(derived)),
        r is Err ==> *final(ctx) == *old(ctx),
        r is Err ==> r->Err_0 == ErrorCode::CalculationOverflow || r->Err_0
            == ErrorCode::MintAuthorityInvalid,
        !authority_accepted(old(ctx).game_authority@, derived_view(derived)) ==> r == Err::<
            MintTo,
            ErrorCode,
        >(ErrorCode::MintAuthorityInvalid),
        r is Ok ==> r->Ok_0.amount == old(ctx).game_state.current_reward && r->Ok_0.to == old(
            ctx,
        ).recipient_token_account && r->Ok_0.mint == old(ctx).game_state.token_mint,
        r is Ok ==> final(ctx).game_state@ == old(ctx).game_state@.rewarded(),
        r is Ok && old(ctx).game_state.total_minted < 2 * old(ctx).game_state.halving_threshold
            ==> final(ctx).game_state.total_minted < old(ctx).game_state.halving_threshold + old(
            ctx,
        ).game_state.current_reward,
        r is Ok && old(ctx).game_state@.settled() ==> final(ctx).game_state@.settled(),
        r is Ok ==> final(ctx).game_state.current_reward <= old(ctx).game_state.current_reward,
        r is Ok && final(ctx).game_state.current_reward != old(ctx).game_state.current_reward
            ==> old(ctx).game_state@.crosses(),
{
    let bump = match check_authority(&ctx.game_authority, derived) {
        Some(bump) => bump,
        None => {
            return Err(ErrorCode::MintAuthorityInvalid);
        },
    };
    let mint = ctx.game_state.token_mint;
    let amount = match ctx.game_state.advance() {
        Ok(amount) => amount,
        Err(e) => {
            return Err(e);
        },
    };
    proof {
        let before = old(ctx).game_state@;
        if before.total_minted < 2 * before.halving_threshold {
            lemma_rewarded_bound(before);
        }
        if before.settled() {
            lemma_settled_preserved(before);
        }
    }
    Ok(MintTo { mint, to: ctx.recipient_token_account, authority: ctx.game_authority, bump, amount })
}

/// Pays one reward for the program at `program_id`: derives the program's
/// minting authority from the fixed seed and goes on as
/// `reward_with_authority` does. Whoever calls may trigger the reward; only
/// the derived authority can sign the mint.
pub fn reward_user(ctx: &mut RewardUser, program_id: &Pubkey) -> (r: Result<MintTo, ErrorCode>)
    ensures
        (*final(ctx), r) == reward_result(
            *old(ctx),
            program_address(authority_seed(), program_id@),
        ),
        r is Err ==> *final(ctx) == *old(ctx),
        r is Err ==> r->Err_0 == ErrorCode::CalculationOverflow || r->Err_0
            == ErrorCode::MintAuthorityInvalid,
        !authority_accepted(
            old(ctx).game_authority@,
            program_address(authority_seed(), program_id@),
        ) ==> r == Err::<MintTo, ErrorCode>(ErrorCode::MintAuthorityInvalid),
        r is Ok ==> r->Ok_0.amount == old(ctx).game_state.current_reward && r->Ok_0.to == old(
            ctx,
        ).recipient_token_account && r->Ok_0.mint == old(ctx).game_state.token_mint,
        r is Ok ==> final(ctx).game_state@ == old(ctx).game_state@.rewarded(),
        r is Ok && old(ctx).game_state.total_minted < 2 * old(ctx).game_state.halving_threshold
            ==> final(ctx).game_state.total_minted < old(ctx).game_state.halving_threshold + old(
            ctx,
        ).game_state.current_reward,
        r is Ok && old(ctx).game_state@.settled() ==> final(ctx).game_state@.settled(),
        r is Ok ==> final(ctx).game_state.current_reward <= old(ctx).game_state.current_reward,
        r is Ok && final(ctx).game_state.current_reward != old(ctx).game_state.current_reward
            ==> old(ctx).game_state@.crosses(),
{
    let derived = derive_authority(program_id);
    reward_with_authority(ctx, derived)
}

/// Pays one reward as `reward_user` does, but only where `signer` is the
/// ledger's recorded authority: for deployments that reserve rewards to the
/// authority. Any other signer is refused as unauthorized before anything
/// else is looked at, and nothing changes.
pub fn reward_user_gated(ctx: &mut RewardUser, signer: &Pubkey, program_id: &Pubkey) -> (r: Result<
    MintTo,
    ErrorCode,
>)
    ensures
        signer@ != old(ctx).game_state.authority@ ==> r == Err::<MintTo, ErrorCode>(
            ErrorCode::Unauthorized,
        ) && *final(ctx) == *old(ctx),
        signer@ == old(ctx).game_state.authority@ ==> (*final(ctx), r) == reward_result(
            *old(ctx),
            program_address(authority_seed(), program_id@),
        ),
        r is Err ==> *final(ctx) == *old(ctx),
        r is Ok ==> r->Ok_0.amount == old(ctx).game_state.current_reward,
{
    let gate = UpdateReward { game_state: ctx.game_state, authority: *signer };
    match gate.validate() {
        Ok(()) => reward_user(ctx, program_id),
        Err(e) => Err(e),
    }
}

} // verus!
