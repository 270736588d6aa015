//! Resolution of a stake once its proposal is settled.

use vstd::prelude::*;

use crate::key::keys_equal;
use crate::state::{committed, outcome, ErrorCode, Proposal, UserPrediction, Vault, Wallet};
use crate::vault::{transfer, transfer_step};

verus! {

/// The accounts of a reward: the settled proposal, the vault, the stake
/// record and the participant it names.
#[derive(Clone, Copy, Debug)]
pub struct CheckAndReward {
    pub proposal: Proposal,
    pub vault: Vault,
    pub user_prediction: UserPrediction,
    pub user: Wallet,
}

/// Whether a stake in direction `above` wins at strike `price` and observed
/// `final_price`; a tie wins in neither direction.
pub open spec fn wins(above: bool, price: u64, final_price: u64) -> bool {
    if above {
        final_price > price
    } else {
        final_price < price
    }
}

/// Whether the stake record wins on the proposal's outcome.
pub fn is_winner(user_prediction: &UserPrediction, proposal: &Proposal) -> (r: bool)
    ensures
        r == wins(user_prediction.prediction, proposal.price, proposal.final_price),
{
    (user_prediction.prediction && proposal.final_price > proposal.price) || (!user_prediction.prediction
        && proposal.final_price < proposal.price)
}

/// Resolution of a stake: only for the participant the record names, only
/// after settlement and only once. A winning stake is paid twice its amount
/// out of the vault; a losing one is written off.
pub open spec fn check_and_reward_step(s: CheckAndReward) -> Result<CheckAndReward, ErrorCode> {
    let stake = s.user_prediction;
    let resolved = UserPrediction { resolved: true, ..stake };
    if s.user.key != stake.authority {
        Err(ErrorCode::Unauthorized)
    } else if !s.proposal.executed {
        Err(ErrorCode::ProposalNotExecuted)
    } else if stake.resolved {
        Err(ErrorCode::PredictionAlreadyResolved)
    } else if !wins(stake.prediction, s.proposal.price, s.proposal.final_price) {
        Ok(CheckAndReward { user_prediction: resolved, ..s })
    } else if 2 * stake.amount > u64::MAX {
        Err(ErrorCode::Overflow)
    } else {
        match transfer_step(s.vault.lamports, s.user.lamports, (2 * stake.amount) as u64) {
            Ok((from, to)) => Ok(
                CheckAndReward {
                    proposal: s.proposal,
                    vault: Vault { lamports: from },
                    user_prediction: resolved,
                    user: Wallet { lamports: to, ..s.user },
                },
            ),
            Err(e) => Err(e),
        }
    }
}

/// Pays a winning stake, then marks the stake resolved.
pub fn check_and_reward(ctx: &mut CheckAndReward) -> (r: Result<(), ErrorCode>)
    ensures
        r == outcome(check_and_reward_step(*old(ctx))),
        *final(ctx) == committed(*old(ctx), check_and_reward_step(*old(ctx))),
{
    if !keys_equal(&ctx.user.key, &ctx.user_prediction.authority) {
        return Err(ErrorCode::Unauthorized);
    }
    if !ctx.proposal.executed {
        return Err(ErrorCode::ProposalNotExecuted);
    }
    if ctx.user_prediction.resolved {
        return Err(ErrorCode::PredictionAlreadyResolved);
    }
    if is_winner(&ctx.user_prediction, &ctx.proposal) {
        let payout = match ctx.user_prediction.amount.checked_mul(2) {
            None => return Err(ErrorCode::Overflow),
            Some(p) => p,
        };
        transfer(&mut ctx.vault.lamports, &mut ctx.user.lamports, payout)?;
    }
    ctx.user_prediction.resolved = true;
    Ok(())
}

} // verus!
