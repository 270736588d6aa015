//! The shared vault: its creation, deposits into it, and moving funds
//! between accounts.

use vstd::prelude::*;

use crate::state::{committed, outcome, ErrorCode, Vault, Wallet, LAMPORTS_PER_UNIT};

verus! {

/// Moving `amount` from a balance of `from` to a balance of `to`: the new
/// pair of balances, or why the move cannot be made.
pub open spec fn transfer_step(from: u64, to: u64, amount: u64) -> Result<(u64, u64), ErrorCode> {
    if from < amount {
        Err(ErrorCode::InsufficientFunds)
    } else if to + amount > u64::MAX {
        Err(ErrorCode::Overflow)
    } else {
        Ok(((from - amount) as u64, (to + amount) as u64))
    }
}

/// Moves `amount` base units from `from` to `to`; on failure neither changes.
pub fn transfer(from: &mut u64, to: &mut u64, amount: u64) -> (r: Result<(), ErrorCode>)
    ensures
        r == outcome(transfer_step(*old(from), *old(to), amount)),
        (*final(from), *final(to)) == committed((*old(from), *old(to)), transfer_step(*old(from), *old(to), amount)),
{
    if *from < amount {
        return Err(ErrorCode::InsufficientFunds);
    }
    match to.checked_add(amount) {
        None => Err(ErrorCode::Overflow),
        Some(sum) => {
            *from = *from - amount;
            *to = sum;
            Ok(())
        },
    }
}

/// The accounts of vault creation: the vault, where it exists yet.
#[derive(Clone, Copy, Debug)]
pub struct InitializeVault {
    pub vault: Option<Vault>,
}

/// Vault creation: a missing vault is created empty, an existing one is kept.
pub open spec fn initialize_vault_step(s: InitializeVault) -> Result<InitializeVault, ErrorCode> {
    match s.vault {
        Some(v) => Ok(s),
        None => Ok(InitializeVault { vault: Some(Vault { lamports: 0 }) }),
    }
}

/// Creates the vault with a zero balance unless it exists; never fails.
pub fn initialize_vault(ctx: &mut InitializeVault) -> (r: Result<(), ErrorCode>)
    ensures
        r == outcome(initialize_vault_step(*old(ctx))),
        *final(ctx) == committed(*old(ctx), initialize_vault_step(*old(ctx))),
        r is Ok,
        final(ctx).vault == Some(old(ctx).vault.unwrap_or(Vault { lamports: 0 })),
{
    if ctx.vault.is_none() {
        ctx.vault = Some(Vault { lamports: 0 });
    }
    Ok(())
}

/// The accounts of a deposit: the vault and the funder.
#[derive(Clone, Copy, Debug)]
pub struct TopUpVault {
    pub vault: Vault,
    pub owner: Wallet,
}

/// A deposit of `amount` display units: `amount * LAMPORTS_PER_UNIT` base
/// units move from the funder to the vault.
pub open spec fn top_up_vault_step(s: TopUpVault, amount: u64) -> Result<TopUpVault, ErrorCode> {
    let needed = amount * LAMPORTS_PER_UNIT;
    if needed > u64::MAX {
        Err(ErrorCode::Overflow)
    } else {
        match transfer_step(s.owner.lamports, s.vault.lamports, needed as u64) {
            Ok((from, to)) => Ok(
                TopUpVault { vault: Vault { lamports: to }, owner: Wallet { lamports: from, ..s.owner } },
            ),
            Err(e) => Err(e),
        }
    }
}

/// Deposits `amount` display units from the funder into the vault.
pub fn top_up_vault(ctx: &mut TopUpVault, amount: u64) -> (r: Result<(), ErrorCode>)
    ensures
        r == outcome(top_up_vault_step(*old(ctx), amount)),
        *final(ctx) == committed(*old(ctx), top_up_vault_step(*old(ctx), amount)),
{
    let lamports_needed = match amount.checked_mul(LAMPORTS_PER_UNIT) {
        None => return Err(ErrorCode::Overflow),
        Some(n) => n,
    };
    transfer(&mut ctx.owner.lamports, &mut ctx.vault.lamports, lamports_needed)
}

} // verus!
