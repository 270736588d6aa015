//! The records that instructions read and write, and the errors they raise.

use vstd::prelude::*;

use crate::key::Key;

verus! {

/// Base units in one display unit of the native currency.
pub const LAMPORTS_PER_UNIT: u64 = 1_000_000_000;

/// The custodial account shared by all proposals: every stake is paid into
/// it and every payout is paid out of it.
#[derive(Clone, Copy, Debug)]
pub struct Vault {
    pub lamports: u64,
}

/// A market: whether the price of `coin` ends above or below `price`.
#[derive(Clone, Copy, Debug)]
pub struct Proposal {
    /// The identity that created the proposal and alone may settle it.
    pub authority: Key,
    /// The asset whose price is predicted.
    pub coin: Key,
    /// The strike price.
    pub price: u64,
    /// The observed price; meaningful once `executed` is set.
    pub final_price: u64,
    /// Unix time from which predictions close and settlement opens.
    pub expiry: i64,
    /// Whether the proposal has been settled.
    pub executed: bool,
}

/// One participant's stake on one proposal.
#[derive(Clone, Copy, Debug)]
pub struct UserPrediction {
    /// The participant who staked and who is paid.
    pub authority: Key,
    /// `true` for "above the strike price", `false` for "below".
    pub prediction: bool,
    /// The stake, in base units.
    pub amount: u64,
    /// Whether the stake has been paid out or written off.
    pub resolved: bool,
}

/// An account of the host ledger that pays or receives funds.
#[derive(Clone, Copy, Debug)]
pub struct Wallet {
    pub key: Key,
    pub lamports: u64,
}

#[derive(Clone, Copy, Debug, PartialEq, Eq, Structural)]
pub enum ErrorCode {
    /// The proposal has been settled: no more predictions.
    ProposalEnded,
    /// The proposal's expiry has passed: no more predictions.
    ProposalExpired,
    /// The proposal has not been settled yet.
    ProposalNotExecuted,
    /// The proposal's expiry has not been reached yet.
    ProposalNotExpired,
    /// The proposal has already been settled.
    ProposalAlreadyExecuted,
    /// The stake has already been resolved.
    PredictionAlreadyResolved,
    /// The caller is not the identity that the record names.
    Unauthorized,
    /// The paying account holds less than the amount.
    InsufficientFunds,
    /// An amount does not fit in 64 bits.
    Overflow,
}

impl ErrorCode {
    /// The message shown for the error.
    pub fn message(&self) -> (r: &'static str) {
        match self {
            ErrorCode::ProposalEnded => "Proposal has ended.",
            ErrorCode::ProposalExpired => "Proposal has expired and it's not possible to add predictions.",
            ErrorCode::ProposalNotExecuted => "Proposal not settled yet.",
            ErrorCode::ProposalNotExpired => "Proposal not expired yet.",
            ErrorCode::ProposalAlreadyExecuted => "Proposal already executed.",
            ErrorCode::PredictionAlreadyResolved => "Prediction already resolved.",
            ErrorCode::Unauthorized => "Signer is not the authority of the account.",
            ErrorCode::InsufficientFunds => "Insufficient funds.",
            ErrorCode::Overflow => "Arithmetic overflow.",
        }
    }
}

/// What an instruction returns, given the transition it was specified by.
pub open spec fn outcome<T>(step: Result<T, ErrorCode>) -> Result<(), ErrorCode> {
    match step {
        Ok(_) => Ok(()),
        Err(e) => Err(e),
    }
}

/// The accounts after an instruction: the transition's result where it
/// succeeds, the accounts unchanged where it fails.
pub open spec fn committed<T>(pre: T, step: Result<T, ErrorCode>) -> T {
    match step {
        Ok(post) => post,
        Err(_) => pre,
    }
}

} // verus!
