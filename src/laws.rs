//! Properties that hold across instructions and across repeated calls.

use vstd::prelude::*;

use crate::key::Key;
use crate::ledger::{make_prediction_step, MakePrediction};
use crate::proposal::{new_proposal, settle_step, Settle};
use crate::reward::{check_and_reward_step, wins, CheckAndReward};
use crate::state::{committed, ErrorCode, LAMPORTS_PER_UNIT};
use crate::vault::{top_up_vault_step, TopUpVault};

verus! {

/// A new proposal is unsettled, settlement succeeds only on an unsettled
/// proposal and leaves it settled, and any further settlement fails and
/// changes nothing: with `ProposalAlreadyExecuted` when the authority asks.
pub proof fn lemma_settle_once(s: Settle, final_price: u64, now: i64, caller: Key, price2: u64, now2: i64)
    requires
        settle_step(s, final_price, now) is Ok,
    ensures
        !s.proposal.executed,
        settle_step(s, final_price, now)->Ok_0.proposal.executed,
        ({
            let t = settle_step(s, final_price, now)->Ok_0;
            let again = Settle { proposal: t.proposal, authority: caller };
            &&& settle_step(again, price2, now2) is Err
            &&& committed(again, settle_step(again, price2, now2)) == again
            &&& caller == t.proposal.authority ==> settle_step(again, price2, now2) == Err::<Settle, ErrorCode>(
                ErrorCode::ProposalAlreadyExecuted,
            )
        }),
{
}

/// A proposal is created unsettled, and no instruction but settlement
/// changes a proposal.
pub proof fn lemma_only_settle_changes_proposal(
    authority: Key,
    coin: Key,
    price: u64,
    expiry: i64,
    m: MakePrediction,
    prediction: bool,
    amount: u64,
    now: i64,
    c: CheckAndReward,
)
    ensures
        !new_proposal(authority, coin, price, expiry).executed,
        committed(m, make_prediction_step(m, prediction, amount, now)).proposal == m.proposal,
        committed(c, check_and_reward_step(c)).proposal == c.proposal,
{
}

/// Settlement strictly before expiry fails and changes nothing, whatever the
/// final price; on an open proposal, asked by its authority, it fails with
/// `ProposalNotExpired`.
pub proof fn lemma_settle_before_expiry(s: Settle, final_price: u64, now: i64)
    requires
        now < s.proposal.expiry,
    ensures
        settle_step(s, final_price, now) is Err,
        committed(s, settle_step(s, final_price, now)) == s,
        s.authority == s.proposal.authority && !s.proposal.executed ==> settle_step(s, final_price, now)
            == Err::<Settle, ErrorCode>(ErrorCode::ProposalNotExpired),
{
}

/// Whatever the amount and direction, a prediction on a settled proposal
/// fails with `ProposalEnded`, and one on an open proposal at or after its
/// expiry fails with `ProposalExpired`; neither changes anything.
pub proof fn lemma_prediction_closed(m: MakePrediction, prediction: bool, amount: u64, now: i64)
    ensures
        m.proposal.executed ==> make_prediction_step(m, prediction, amount, now) == Err::<
            MakePrediction,
            ErrorCode,
        >(ErrorCode::ProposalEnded),
        !m.proposal.executed && now >= m.proposal.expiry ==> make_prediction_step(m, prediction, amount, now)
            == Err::<MakePrediction, ErrorCode>(ErrorCode::ProposalExpired),
        m.proposal.executed || now >= m.proposal.expiry ==> committed(
            m,
            make_prediction_step(m, prediction, amount, now),
        ) == m,
{
}

/// Once a stake is resolved, resolving it again fails with
/// `PredictionAlreadyResolved` and leaves the vault as it was.
pub proof fn lemma_resolve_once(c: CheckAndReward)
    requires
        check_and_reward_step(c) is Ok,
    ensures
        ({
            let t = check_and_reward_step(c)->Ok_0;
            &&& t.user_prediction.resolved
            &&& check_and_reward_step(t) == Err::<CheckAndReward, ErrorCode>(
                ErrorCode::PredictionAlreadyResolved,
            )
            &&& committed(t, check_and_reward_step(t)).vault == t.vault
        }),
{
}

/// A resolved stake pays twice its amount from the vault to the participant
/// when it wins and moves nothing when it loses.
pub proof fn lemma_payout(c: CheckAndReward)
    requires
        check_and_reward_step(c) is Ok,
    ensures
        ({
            let t = check_and_reward_step(c)->Ok_0;
            let win = wins(c.user_prediction.prediction, c.proposal.price, c.proposal.final_price);
            &&& win ==> t.vault.lamports == c.vault.lamports - 2 * c.user_prediction.amount
            &&& win ==> t.user.lamports == c.user.lamports + 2 * c.user_prediction.amount
            &&& !win ==> t.vault == c.vault && t.user == c.user
        }),
{
}

/// When the final price equals the strike price, neither direction wins, so
/// resolving any stake moves no funds.
pub proof fn lemma_tie_loses(c: CheckAndReward)
    requires
        c.proposal.final_price == c.proposal.price,
    ensures
        !wins(true, c.proposal.price, c.proposal.final_price),
        !wins(false, c.proposal.price, c.proposal.final_price),
        check_and_reward_step(c) is Ok ==> check_and_reward_step(c)->Ok_0.vault == c.vault
            && check_and_reward_step(c)->Ok_0.user == c.user,
{
}

/// A deposit of `amount` display units that succeeds raises the vault's
/// balance by exactly `amount * LAMPORTS_PER_UNIT`; it succeeds whenever that
/// product fits, the funder holds it and the vault's new balance fits.
pub proof fn lemma_deposit_round_trip(s: TopUpVault, amount: u64)
    ensures
        top_up_vault_step(s, amount) is Ok ==> top_up_vault_step(s, amount)->Ok_0.vault.lamports
            == s.vault.lamports + amount * LAMPORTS_PER_UNIT,
        top_up_vault_step(s, amount) is Ok <==> (amount * LAMPORTS_PER_UNIT <= s.owner.lamports
            && s.vault.lamports + amount * LAMPORTS_PER_UNIT <= u64::MAX),
{
}

/// Two predictions on the same record: the later one's direction and amount
/// are the record's, while both stakes stay in the vault.
pub proof fn lemma_later_prediction_replaces(
    m: MakePrediction,
    p1: bool,
    a1: u64,
    now1: i64,
    p2: bool,
    a2: u64,
    now2: i64,
)
    requires
        make_prediction_step(m, p1, a1, now1) is Ok,
        make_prediction_step(make_prediction_step(m, p1, a1, now1)->Ok_0, p2, a2, now2) is Ok,
    ensures
        ({
            let t = make_prediction_step(make_prediction_step(m, p1, a1, now1)->Ok_0, p2, a2, now2)->Ok_0;
            &&& t.user_prediction.prediction == p2
            &&& t.user_prediction.amount == a2
            &&& !t.user_prediction.resolved
            &&& t.vault.lamports == m.vault.lamports + a1 + a2
        }),
{
}

} // verus!
