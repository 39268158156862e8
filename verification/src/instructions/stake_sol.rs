use vstd::prelude::*;
use crate::states::accounts::{Account, StakerAccount, StakerTokens, Transfer, VaultAccount};
use crate::states::errors::{StakerError, StakingError};
use crate::states::events::StakeSolEvent;

verus! {

/// The accounts after `stake_sol`, or the error it answers with.
pub open spec fn stake_sol_result(pre: StakerTokens, stake_amount: u64, now: i64) -> Result<
    StakerTokens,
    StakingError,
> {
    if stake_amount == 0 {
        Err(StakingError::Staker(StakerError::ZeroStakeAmount))
    } else if pre.staker_address.lamports < stake_amount {
        Err(StakingError::Staker(StakerError::InsufficientFunds))
    } else {
        Ok(
            StakerTokens {
                staker_account: Account {
                    data: StakerAccount {
                        staker_address: pre.staker_address.key,
                        stake_amount: (pre.staker_account.data.stake_amount + stake_amount) as u64,
                        stake_time: now,
                        is_claimed: false,
                        ..pre.staker_account.data
                    },
                    ..pre.staker_account
                },
                vault_account: Account {
                    data: VaultAccount {
                        total_staked: (pre.vault_account.data.total_staked + stake_amount) as u64,
                        ..pre.vault_account.data
                    },
                    ..pre.vault_account
                },
                ..pre
            },
        )
    }
}

/// Where `stake_sol` gets past its checks, the new stake and the vault's
/// new total fit in a `u64` (else the addition would panic).
pub open spec fn stake_sol_fits(pre: StakerTokens, stake_amount: u64) -> bool {
    stake_amount > 0 && pre.staker_address.lamports >= stake_amount ==> {
        &&& pre.staker_account.data.stake_amount + stake_amount <= u64::MAX
        &&& pre.vault_account.data.total_staked + stake_amount <= u64::MAX
    }
}

/// Whether `stake_sol` can run without its arithmetic overflowing.
pub fn check_stake_sol_fits(ctx: &StakerTokens, stake_amount: u64) -> (r: bool)
    ensures
        r == stake_sol_fits(*ctx, stake_amount),
{
    !(stake_amount > 0 && ctx.staker_address.lamports >= stake_amount) || (u64::MAX
        - ctx.staker_account.data.stake_amount >= stake_amount && u64::MAX
        - ctx.vault_account.data.total_staked >= stake_amount)
}

/// Stakes `stake_amount` lamports of the signer in the vault: records the
/// signer as the staker, adds the amount to the staker's stake and to the
/// vault's total, restarts the stake time, re-opens claiming, and asks for a
/// transfer of the amount from the signer's wallet to the vault.
pub fn stake_sol(ctx: &mut StakerTokens, vault_id: u64, stake_amount: u64, now: i64) -> (r: Result<
    (StakeSolEvent, Transfer),
    StakingError,
>)
    requires
        stake_sol_fits(*old(ctx), stake_amount),
    ensures
        match stake_sol_result(*old(ctx), stake_amount, now) {
            Ok(post) => {
                &&& *final(ctx) == post
                &&& r matches Ok((event, transfer))
                &&& event == StakeSolEvent {
                    staker: old(ctx).staker_address.key,
                    vault_id: vault_id,
                    amount: stake_amount,
                    staking_time: now,
                }
                &&& transfer == Transfer {
                    from: old(ctx).staker_address.key,
                    to: old(ctx).vault_account.key,
                    lamports: stake_amount,
                }
            },
            Err(e) => *final(ctx) == *old(ctx) && (r matches Err(e2) && e2 == e),
        },
{
    if stake_amount == 0 {
        return Err(StakingError::Staker(StakerError::ZeroStakeAmount));
    }
    if ctx.staker_address.lamports < stake_amount {
        return Err(StakingError::Staker(StakerError::InsufficientFunds));
    }
    ctx.staker_account.data.staker_address = ctx.staker_address.key;
    ctx.staker_account.data.stake_amount = ctx.staker_account.data.stake_amount + stake_amount;
    ctx.staker_account.data.stake_time = now;
    ctx.staker_account.data.is_claimed = false;
    ctx.vault_account.data.total_staked = ctx.vault_account.data.total_staked + stake_amount;
    let transfer = Transfer {
        from: ctx.staker_address.key,
        to: ctx.vault_account.key,
        lamports: stake_amount,
    };
    let event = StakeSolEvent {
        staker: ctx.staker_account.data.staker_address,
        vault_id,
        amount: stake_amount,
        staking_time: now,
    };
    Ok((event, transfer))
}

} // verus!
