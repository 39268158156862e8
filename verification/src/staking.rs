//! The program's entry points: each checks the constraints that its accounts
//! carry, then runs its instruction.
use vstd::prelude::*;
use crate::instructions::claim_rewards::{
    claim_rewards, claim_rewards_fits, claim_rewards_result,
};
use crate::instructions::distribute_rewards::{
    distribute_rewards, distribute_rewards_fits, distribute_rewards_result,
};
use crate::instructions::initialize_vault::{
    initialize_vault, initialize_vault_result, initialized_message,
};
use crate::instructions::stake_sol::{stake_sol, stake_sol_fits, stake_sol_result};
use crate::instructions::withdraw_tokens::{
    withdraw_tokens, withdraw_tokens_fits, withdraw_tokens_result,
};
use crate::states::accounts::{
    ClaimRewards, DistributeRewards, InitializeVaultAccount, StakerTokens, Transfer,
    WithdrawTokens,
};
use crate::states::binary32::Binary32;
use crate::states::errors::{DistributionError, StakingError, VaultError};
use crate::states::events::{
    ClaimRewardsEvent, DistributeRewardsEvent, InitializeVaultEvent, StakeSolEvent,
    WithdrawSolEvent,
};

verus! {

/// The accounts after `initialize`, or the error it answers with.
pub open spec fn initialize_result(pre: InitializeVaultAccount, vault_id: u64) -> Result<
    InitializeVaultAccount,
    StakingError,
> {
    if !pre.authorized() {
        Err(StakingError::Vault(VaultError::UnauthorizedVaultAdmin))
    } else {
        initialize_vault_result(pre, vault_id)
    }
}

/// Initializes a vault, for the vault admin only.
pub fn initialize(ctx: &mut InitializeVaultAccount, vault_id: u64, now: i64) -> (r: Result<
    InitializeVaultEvent,
    StakingError,
>)
    ensures
        match initialize_result(*old(ctx), vault_id) {
            Ok(post) => {
                &&& *final(ctx) == post
                &&& r matches Ok(event)
                &&& event.vault_id == vault_id
                &&& event.message@ == initialized_message(vault_id)
                &&& event.initializing_time == now
            },
            Err(e) => *final(ctx) == *old(ctx) && (r matches Err(e2) && e2 == e),
        },
{
    match ctx.validate() {
        Ok(()) => {},
        Err(e) => {
            return Err(e);
        },
    }
    initialize_vault(ctx, vault_id, now)
}

/// Stakes lamports of the signer in a vault.
pub fn stake(ctx: &mut StakerTokens, vault_id: u64, stake_amount: u64, now: i64) -> (r: Result<
    (StakeSolEvent, Transfer),
    StakingError,
>)
    requires
        stake_sol_fits(*old(ctx), stake_amount),
    ensures
        match stake_sol_result(*old(ctx), stake_amount, now) {
            Ok(post) => {
                &&& *final(ctx) == post
                &&& r matches Ok((event, transfer))
                &&& event == StakeSolEvent {
                    staker: old(ctx).staker_address.key,
                    vault_id: vault_id,
                    amount: stake_amount,
                    staking_time: now,
                }
                &&& transfer == Transfer {
                    from: old(ctx).staker_address.key,
                    to: old(ctx).vault_account.key,
                    lamports: stake_amount,
                }
            },
            Err(e) => *final(ctx) == *old(ctx) && (r matches Err(e2) && e2 == e),
        },
{
    stake_sol(ctx, vault_id, stake_amount, now)
}

/// The accounts after `distribute`, or the error it answers with.
pub open spec fn distribute_result(
    pre: DistributeRewards,
    reward_amount: u64,
    reward_rate: Binary32,
) -> Result<DistributeRewards, StakingError> {
    if !pre.authorized() {
        Err(StakingError::Distribution(DistributionError::OnlyRewardAuthority))
    } else {
        distribute_rewards_result(pre, reward_amount, reward_rate)
    }
}

/// Distributes rewards to a vault, for the reward authority only.
pub fn distribute(
    ctx: &mut DistributeRewards,
    vault_id: u64,
    reward_amount: u64,
    reward_rate: Binary32,
    now: i64,
) -> (r: Result<(DistributeRewardsEvent, Transfer), StakingError>)
    requires
        old(ctx).authorized() ==> distribute_rewards_fits(*old(ctx), reward_amount),
    ensures
        match distribute_result(*old(ctx), reward_amount, reward_rate) {
            Ok(post) => {
                &&& *final(ctx) == post
                &&& r matches Ok((event, transfer))
                &&& event == DistributeRewardsEvent {
                    distributer: old(ctx).rewarder_authority.key,
                    vault_id: vault_id,
                    reward_amount: reward_amount,
                    distribution_time: now,
                }
                &&& transfer == Transfer {
                    from: old(ctx).rewarder_authority.key,
                    to: old(ctx).vault_account.key,
                    lamports: reward_amount,
                }
            },
            Err(e) => *final(ctx) == *old(ctx) && (r matches Err(e2) && e2 == e),
        },
{
    match ctx.validate() {
        Ok(()) => {},
        Err(e) => {
            return Err(e);
        },
    }
    distribute_rewards(ctx, vault_id, reward_amount, reward_rate, now)
}

/// The accounts after `claim`, or the error it answers with.
pub open spec fn claim_result(
    pre: ClaimRewards,
    vault_id: u64,
    claimer_rewards: Binary32,
    now: i64,
) -> Result<ClaimRewards, StakingError> {
    if !pre.authorized() {
        Err(StakingError::ConstraintHasOne)
    } else {
        claim_rewards_result(pre, vault_id, claimer_rewards, now)
    }
}

/// Claims rewards from a vault, for the owner of the staker account only.
pub fn claim(
    ctx: &mut ClaimRewards,
    vault_id: u64,
    claimer_rewards: Binary32,
    now: i64,
) -> (r: Result<ClaimRewardsEvent, StakingError>)
    requires
        old(ctx).authorized() ==> claim_rewards_fits(*old(ctx), vault_id, claimer_rewards),
    ensures
        match claim_result(*old(ctx), vault_id, claimer_rewards, now) {
            Ok(post) => {
                &&& *final(ctx) == post
                &&& r == Ok::<ClaimRewardsEvent, StakingError>(
                    ClaimRewardsEvent {
                        claimer_address: old(ctx).staker_account.data.staker_address,
                        vault_id: vault_id,
                        rewards_claimed: claimer_rewards.truncated_u64(),
                        claiming_time: now,
                    },
                )
            },
            Err(e) => *final(ctx) == *old(ctx) && r == Err::<ClaimRewardsEvent, StakingError>(e),
        },
{
    match ctx.validate() {
        Ok(()) => {},
        Err(e) => {
            return Err(e);
        },
    }
    claim_rewards(ctx, vault_id, claimer_rewards, now)
}

/// Withdraws staked lamports from a vault.
pub fn withdraw(ctx: &mut WithdrawTokens, vault_id: u64, withdraw_amount: u64, now: i64) -> (r:
    Result<WithdrawSolEvent, StakingError>)
    requires
        withdraw_tokens_fits(*old(ctx), vault_id, withdraw_amount),
    ensures
        match withdraw_tokens_result(*old(ctx), vault_id, withdraw_amount) {
            Ok(post) => {
                &&& *final(ctx) == post
                &&& r == Ok::<WithdrawSolEvent, StakingError>(
                    WithdrawSolEvent {
                        withdrawer: old(ctx).staker_address.key,
                        vault_id: vault_id,
                        withdrawal_amount: withdraw_amount,
                        withdrawal_time: now,
                    },
                )
            },
            Err(e) => *final(ctx) == *old(ctx) && r == Err::<WithdrawSolEvent, StakingError>(e),
        },
{
    withdraw_tokens(ctx, vault_id, withdraw_amount, now)
}

} // verus!
