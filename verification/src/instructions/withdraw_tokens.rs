use vstd::prelude::*;
use crate::states::accounts::{Account, Signer, StakerAccount, VaultAccount, WithdrawTokens};
use crate::states::constants::{is_valid_vault_id, valid_vault_id};
use crate::states::errors::{StakingError, VaultError, WithdrawError};
use crate::states::events::WithdrawSolEvent;

verus! {

/// `withdraw_tokens` gets past all of its checks.
pub open spec fn withdraw_tokens_accepted(
    pre: WithdrawTokens,
    vault_id: u64,
    withdraw_amount: u64,
) -> bool {
    &&& valid_vault_id(vault_id)
    &&& withdraw_amount > 0
    &&& pre.staker_account.data.stake_amount >= withdraw_amount
    &&& pre.vault_account.data.total_staked >= withdraw_amount
}

/// The accounts after `withdraw_tokens`, or the error it answers with.
pub open spec fn withdraw_tokens_result(
    pre: WithdrawTokens,
    vault_id: u64,
    withdraw_amount: u64,
) -> Result<WithdrawTokens, StakingError> {
    let staker = pre.staker_account.data;
    let vault = pre.vault_account.data;
    if !valid_vault_id(vault_id) {
        Err(StakingError::Vault(VaultError::VaultIdOutOfBounds))
    } else if withdraw_amount == 0 {
        Err(StakingError::Withdraw(WithdrawError::ZeroWithdrawAmount))
    } else if staker.stake_amount < withdraw_amount {
        Err(StakingError::Withdraw(WithdrawError::InsufficientAmountToWithdraw))
    } else if vault.total_staked < withdraw_amount {
        Err(StakingError::Vault(VaultError::InsufficientVaultFunds))
    } else {
        Ok(
            WithdrawTokens {
                staker_account: Account {
                    data: StakerAccount {
                        stake_amount: (staker.stake_amount - withdraw_amount) as u64,
                        ..staker
                    },
                    ..pre.staker_account
                },
                staker_address: Signer {
                    lamports: (pre.staker_address.lamports + withdraw_amount) as u64,
                    ..pre.staker_address
                },
                vault_account: Account {
                    lamports: (pre.vault_account.lamports - withdraw_amount) as u64,
                    data: VaultAccount {
                        total_staked: (vault.total_staked - withdraw_amount) as u64,
                        ..vault
                    },
                    ..pre.vault_account
                },
            },
        )
    }
}

/// Where `withdraw_tokens` gets past its checks, the staker's wallet can take
/// the amount and the vault's balance covers it (else the arithmetic would panic).
pub open spec fn withdraw_tokens_fits(
    pre: WithdrawTokens,
    vault_id: u64,
    withdraw_amount: u64,
) -> bool {
    withdraw_tokens_accepted(pre, vault_id, withdraw_amount) ==> {
        &&& pre.staker_address.lamports + withdraw_amount <= u64::MAX
        &&& pre.vault_account.lamports >= withdraw_amount
    }
}

/// Whether `withdraw_tokens` can run without its arithmetic overflowing or underflowing.
pub fn check_withdraw_tokens_fits(ctx: &WithdrawTokens, vault_id: u64, withdraw_amount: u64) -> (r:
    bool)
    ensures
        r == withdraw_tokens_fits(*ctx, vault_id, withdraw_amount),
{
    !(is_valid_vault_id(vault_id) && withdraw_amount > 0 && ctx.staker_account.data.stake_amount
        >= withdraw_amount && ctx.vault_account.data.total_staked >= withdraw_amount) || (u64::MAX
        - ctx.staker_address.lamports >= withdraw_amount && ctx.vault_account.lamports
        >= withdraw_amount)
}

/// Withdraws `withdraw_amount` staked lamports: takes the amount off the
/// stake and off the vault's total, and moves it from the vault's balance back
/// to the staker's wallet.
pub fn withdraw_tokens(
    ctx: &mut WithdrawTokens,
    vault_id: u64,
    withdraw_amount: u64,
    now: i64,
) -> (r: Result<WithdrawSolEvent, StakingError>)
    requires
        withdraw_tokens_fits(*old(ctx), vault_id, withdraw_amount),
    ensures
        match withdraw_tokens_result(*old(ctx), vault_id, withdraw_amount) {
            Ok(post) => {
                &&& *final(ctx) == post
                &&& r == Ok::<WithdrawSolEvent, StakingError>(
                    WithdrawSolEvent {
                        withdrawer: old(ctx).staker_address.key,
                        vault_id: vault_id,
                        withdrawal_amount: withdraw_amount,
                        withdrawal_time: now,
                    },
                )
            },
            Err(e) => *final(ctx) == *old(ctx) && r == Err::<WithdrawSolEvent, StakingError>(e),
        },
{
    if !is_valid_vault_id(vault_id) {
        return Err(StakingError::Vault(VaultError::VaultIdOutOfBounds));
    }
    if withdraw_amount == 0 {
        return Err(StakingError::Withdraw(WithdrawError::ZeroWithdrawAmount));
    }
    if ctx.staker_account.data.stake_amount < withdraw_amount {
        return Err(StakingError::Withdraw(WithdrawError::InsufficientAmountToWithdraw));
    }
    if ctx.vault_account.data.total_staked < withdraw_amount {
        return Err(StakingError::Vault(VaultError::InsufficientVaultFunds));
    }
    let new_total = match ctx.vault_account.data.total_staked.checked_sub(withdraw_amount) {
        Some(total) => total,
        None => {
            return Err(StakingError::Vault(VaultError::InsufficientVaultFunds));
        },
    };
    ctx.staker_account.data.stake_amount = ctx.staker_account.data.stake_amount - withdraw_amount;
    ctx.vault_account.data.total_staked = new_total;
    ctx.staker_address.lamports = ctx.staker_address.lamports + withdraw_amount;
    ctx.vault_account.lamports = ctx.vault_account.lamports - withdraw_amount;
    Ok(
        WithdrawSolEvent {
            withdrawer: ctx.staker_address.key,
            vault_id,
            withdrawal_amount: withdraw_amount,
            withdrawal_time: now,
        },
    )
}

} // verus!
