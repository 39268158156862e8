use vstd::prelude::*;
use crate::states::accounts::{Account, DistributeRewards, Transfer, VaultAccount};
use crate::states::binary32::Binary32;
use crate::states::errors::{DistributionError, StakingError};
use crate::states::events::DistributeRewardsEvent;

verus! {

/// The accounts after `distribute_rewards`, or the error it answers with.
pub open spec fn distribute_rewards_result(
    pre: DistributeRewards,
    reward_amount: u64,
    reward_rate: Binary32,
) -> Result<DistributeRewards, StakingError> {
    if reward_amount == 0 {
        Err(StakingError::Distribution(DistributionError::ZeroRewardAmount))
    } else if pre.rewarder_authority.lamports < reward_amount {
        Err(StakingError::Distribution(DistributionError::NotEnoughFunds))
    } else {
        Ok(
            DistributeRewards {
                vault_account: Account {
                    data: VaultAccount {
                        reward_rate: reward_rate,
                        total_rewards: (pre.vault_account.data.total_rewards
                            + reward_amount) as u64,
                        ..pre.vault_account.data
                    },
                    ..pre.vault_account
                },
                ..pre
            },
        )
    }
}

/// Where `distribute_rewards` gets past its checks, the vault's new total of
/// rewards fits in a `u64` (else the addition would panic).
pub open spec fn distribute_rewards_fits(pre: DistributeRewards, reward_amount: u64) -> bool {
    reward_amount > 0 && pre.rewarder_authority.lamports >= reward_amount
        ==> pre.vault_account.data.total_rewards + reward_amount <= u64::MAX
}

/// Whether `distribute_rewards` can run without its arithmetic overflowing.
pub fn check_distribute_rewards_fits(ctx: &DistributeRewards, reward_amount: u64) -> (r: bool)
    ensures
        r == distribute_rewards_fits(*ctx, reward_amount),
{
    !(reward_amount > 0 && ctx.rewarder_authority.lamports >= reward_amount) || u64::MAX
        - ctx.vault_account.data.total_rewards >= reward_amount
}

/// Distributes `reward_amount` lamports of the reward authority to the vault:
/// sets the vault's reward rate, adds the amount to the vault's rewards, and
/// asks for a transfer of the amount from the authority's wallet to the vault.
///
/// `reward_rate` is the single-precision quotient of `reward_amount` by
/// `REWARD_DURATION`, as the caller computed it.
pub fn distribute_rewards(
    ctx: &mut DistributeRewards,
    vault_id: u64,
    reward_amount: u64,
    reward_rate: Binary32,
    now: i64,
) -> (r: Result<(DistributeRewardsEvent, Transfer), StakingError>)
    requires
        distribute_rewards_fits(*old(ctx), reward_amount),
    ensures
        match distribute_rewards_result(*old(ctx), reward_amount, reward_rate) {
            Ok(post) => {
                &&& *final(ctx) == post
                &&& r matches Ok((event, transfer))
                &&& event == DistributeRewardsEvent {
                    distributer: old(ctx).rewarder_authority.key,
                    vault_id: vault_id,
                    reward_amount: reward_amount,
                    distribution_time: now,
                }
                &&& transfer == Transfer {
                    from: old(ctx).rewarder_authority.key,
                    to: old(ctx).vault_account.key,
                    lamports: reward_amount,
                }
            },
            Err(e) => *final(ctx) == *old(ctx) && (r matches Err(e2) && e2 == e),
        },
{
    if reward_amount == 0 {
        return Err(StakingError::Distribution(DistributionError::ZeroRewardAmount));
    }
    if ctx.rewarder_authority.lamports < reward_amount {
        return Err(StakingError::Distribution(DistributionError::NotEnoughFunds));
    }
    ctx.vault_account.data.reward_rate = reward_rate;
    let transfer = Transfer {
        from: ctx.rewarder_authority.key,
        to: ctx.vault_account.key,
        lamports: reward_amount,
    };
    ctx.vault_account.data.total_rewards = ctx.vault_account.data.total_rewards + reward_amount;
    let event = DistributeRewardsEvent {
        distributer: ctx.rewarder_authority.key,
        vault_id,
        reward_amount,
        distribution_time: now,
    };
    Ok((event, transfer))
}

} // verus!
