//! Proposals: their creation and their settlement.

use vstd::prelude::*;

use crate::key::{keys_equal, Key};
use crate::state::{committed, outcome, ErrorCode, Proposal};

verus! {

/// The accounts of proposal creation: the freshly allocated proposal and
/// the identity that creates it.
#[derive(Clone, Copy, Debug)]
pub struct CreateProposal {
    pub proposal: Proposal,
    pub authority: Key,
}

/// The proposal that `authority` creates: open, with no final price.
pub open spec fn new_proposal(authority: Key, coin: Key, price: u64, expiry: i64) -> Proposal {
    Proposal { authority, coin, price, final_price: 0, expiry, executed: false }
}

/// Writes a new open proposal owned by the creating identity; never fails.
pub fn create_proposal(ctx: &mut CreateProposal, coin: Key, price: u64, expiry: i64) -> (r: Result<(), ErrorCode>)
    ensures
        r is Ok,
        final(ctx).proposal == new_proposal(old(ctx).authority, coin, price, expiry),
        final(ctx).authority == old(ctx).authority,
{
    ctx.proposal = Proposal {
        authority: ctx.authority,
        coin,
        price,
        final_price: 0,
        expiry,
        executed: false,
    };
    Ok(())
}

/// The accounts of settlement: the proposal and the identity that settles it.
#[derive(Clone, Copy, Debug)]
pub struct Settle {
    pub proposal: Proposal,
    pub authority: Key,
}

/// Settlement at time `now` with the observed `final_price`: only by the
/// proposal's authority, only once, and not before expiry.
pub open spec fn settle_step(s: Settle, final_price: u64, now: i64) -> Result<Settle, ErrorCode> {
    if s.authority != s.proposal.authority {
        Err(ErrorCode::Unauthorized)
    } else if s.proposal.executed {
        Err(ErrorCode::ProposalAlreadyExecuted)
    } else if now < s.proposal.expiry {
        Err(ErrorCode::ProposalNotExpired)
    } else {
        Ok(Settle { proposal: Proposal { final_price, executed: true, ..s.proposal }, ..s })
    }
}

/// Records the final price and marks the proposal settled.
pub fn settle(ctx: &mut Settle, final_price: u64, now: i64) -> (r: Result<(), ErrorCode>)
    ensures
        r == outcome(settle_step(*old(ctx), final_price, now)),
        *final(ctx) == committed(*old(ctx), settle_step(*old(ctx), final_price, now)),
{
    if !keys_equal(&ctx.authority, &ctx.proposal.authority) {
        return Err(ErrorCode::Unauthorized);
    }
    if ctx.proposal.executed {
        return Err(ErrorCode::ProposalAlreadyExecuted);
    }
    if now < ctx.proposal.expiry {
        return Err(ErrorCode::ProposalNotExpired);
    }
    ctx.proposal.executed = true;
    ctx.proposal.final_price = final_price;
    Ok(())
}

} // verus!
