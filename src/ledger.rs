//! Stakes: a participant's prediction on an open proposal.

use vstd::prelude::*;

use crate::state::{committed, outcome, ErrorCode, Proposal, UserPrediction, Vault, Wallet};
use crate::vault::{transfer, transfer_step};

verus! {

/// The accounts of a prediction: the proposal, the vault, the participant's
/// stake record on that proposal and the participant.
#[derive(Clone, Copy, Debug)]
pub struct MakePrediction {
    pub proposal: Proposal,
    pub vault: Vault,
    pub user_prediction: UserPrediction,
    pub user: Wallet,
}

/// A prediction at time `now`: while the proposal is neither settled nor
/// expired, the stake moves into the vault and the record is written anew,
/// replacing whatever it held.
pub open spec fn make_prediction_step(s: MakePrediction, prediction: bool, amount: u64, now: i64) -> Result<
    MakePrediction,
    ErrorCode,
> {
    if s.proposal.executed {
        Err(ErrorCode::ProposalEnded)
    } else if now >= s.proposal.expiry {
        Err(ErrorCode::ProposalExpired)
    } else {
        match transfer_step(s.user.lamports, s.vault.lamports, amount) {
            Ok((from, to)) => Ok(
                MakePrediction {
                    proposal: s.proposal,
                    vault: Vault { lamports: to },
                    user_prediction: UserPrediction {
                        authority: s.user.key,
                        prediction,
                        amount,
                        resolved: false,
                    },
                    user: Wallet { lamports: from, ..s.user },
                },
            ),
            Err(e) => Err(e),
        }
    }
}

/// Stakes `amount` base units on `prediction` (`true` for above the strike
/// price).
pub fn make_prediction(ctx: &mut MakePrediction, prediction: bool, amount: u64, now: i64) -> (r: Result<(), ErrorCode>)
    ensures
        r == outcome(make_prediction_step(*old(ctx), prediction, amount, now)),
        *final(ctx) == committed(*old(ctx), make_prediction_step(*old(ctx), prediction, amount, now)),
{
    if ctx.proposal.executed {
        return Err(ErrorCode::ProposalEnded);
    }
    if now >= ctx.proposal.expiry {
        return Err(ErrorCode::ProposalExpired);
    }
    transfer(&mut ctx.user.lamports, &mut ctx.vault.lamports, amount)?;
    ctx.user_prediction = UserPrediction {
        authority: ctx.user.key,
        prediction,
        amount,
        resolved: false,
    };
    Ok(())
}

} // verus!
