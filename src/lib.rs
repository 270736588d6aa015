//! A binary-outcome prediction market: a shared vault, proposals that are
//! settled once by their authority after expiry, one stake record per
//! participant and proposal, and a fixed double payout for a correct call.
//!
//! Every instruction is a verified transition on the accounts it touches.
//! The host ledger authenticates callers, supplies the current time and
//! commits an instruction's effects atomically; here the time is a parameter
//! and an instruction that fails leaves its accounts as they were.

pub mod key;
pub mod laws;
pub mod ledger;
pub mod proposal;
pub mod reward;
pub mod state;
pub mod vault;

pub use key::{keys_equal, Key};
pub use ledger::{make_prediction, MakePrediction};
pub use proposal::{create_proposal, settle, CreateProposal, Settle};
pub use reward::{check_and_reward, is_winner, CheckAndReward};
pub use state::{ErrorCode, Proposal, UserPrediction, Vault, Wallet, LAMPORTS_PER_UNIT};
pub use vault::{initialize_vault, top_up_vault, transfer, InitializeVault, TopUpVault};
