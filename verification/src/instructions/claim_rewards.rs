use vstd::prelude::*;
use crate::states::accounts::{Account, ClaimRewards, Signer, StakerAccount, VaultAccount};
use crate::states::binary32::Binary32;
use crate::states::constants::{is_valid_vault_id, valid_vault_id, REWARD_MULTIPLIER};
use crate::states::errors::{ClaimerError, StakerError, StakingError, VaultError};
use crate::states::events::ClaimRewardsEvent;

verus! {

/// The lamports that a claim pays: the staker's share, rounded toward zero,
/// times `REWARD_MULTIPLIER`.
pub open spec fn claim_payout(claimer_rewards: Binary32) -> int {
    claimer_rewards.truncated_u64() * REWARD_MULTIPLIER
}

/// `claim_rewards` gets past all of its checks: a valid vault id, a stake,
/// a vault that holds rewards at a positive rate, no claim since the last
/// stake, a non-zero payout, and enough rewards in the vault to pay it.
pub open spec fn claim_rewards_accepted(
    pre: ClaimRewards,
    vault_id: u64,
    claimer_rewards: Binary32,
) -> bool {
    &&& valid_vault_id(vault_id)
    &&& pre.staker_account.data.stake_amount != 0
    &&& pre.vault_account.data.total_rewards > 0
    &&& pre.vault_account.data.reward_rate.positive()
    &&& !pre.staker_account.data.is_claimed
    &&& claimer_rewards.positive()
    &&& claim_payout(claimer_rewards) != 0
    &&& claim_payout(claimer_rewards) <= pre.vault_account.data.total_rewards
}

/// The accounts after `claim_rewards`, or the error it answers with.
pub open spec fn claim_rewards_result(
    pre: ClaimRewards,
    vault_id: u64,
    claimer_rewards: Binary32,
    now: i64,
) -> Result<ClaimRewards, StakingError> {
    let staker = pre.staker_account.data;
    let vault = pre.vault_account.data;
    let paid = claim_payout(claimer_rewards);
    if !valid_vault_id(vault_id) {
        Err(StakingError::Vault(VaultError::VaultIdOutOfBounds))
    } else if staker.stake_amount == 0 {
        Err(StakingError::Staker(StakerError::NoStakeInVault))
    } else if !(vault.total_rewards > 0 && vault.reward_rate.positive()) {
        Err(StakingError::Vault(VaultError::VaultHasNoRewards))
    } else if staker.is_claimed {
        Err(StakingError::Claimer(ClaimerError::AlreadyClaimed))
    } else if !claimer_rewards.positive() || paid == 0 {
        Err(StakingError::Claimer(ClaimerError::NoRewardsToClaim))
    } else if paid > vault.total_rewards {
        Err(StakingError::Vault(VaultError::VaultHasNoRewards))
    } else {
        Ok(
            ClaimRewards {
                staker_account: Account {
                    data: StakerAccount {
                        claimed_rewards: paid as u64,
                        stake_time: now,
                        is_claimed: true,
                        ..staker
                    },
                    ..pre.staker_account
                },
                staker_address: Signer {
                    lamports: (pre.staker_address.lamports + paid) as u64,
                    ..pre.staker_address
                },
                vault_account: Account {
                    lamports: (pre.vault_account.lamports - paid) as u64,
                    data: VaultAccount { total_rewards: (vault.total_rewards - paid) as u64, ..vault },
                    ..pre.vault_account
                },
            },
        )
    }
}

/// Where `claim_rewards` accepts the claim, the staker's wallet can take the
/// payout and the vault's balance covers it (else the arithmetic would panic).
pub open spec fn claim_rewards_fits(
    pre: ClaimRewards,
    vault_id: u64,
    claimer_rewards: Binary32,
) -> bool {
    claim_rewards_accepted(pre, vault_id, claimer_rewards) ==> {
        let paid = claim_payout(claimer_rewards);
        &&& pre.staker_address.lamports + paid <= u64::MAX
        &&& pre.vault_account.lamports >= paid
    }
}

/// The payout of a claim, or `None` where it exceeds `u64::MAX`.
fn checked_payout(claimer_rewards: &Binary32) -> (r: Option<u64>)
    ensures
        r matches Some(paid) ==> paid == claim_payout(*claimer_rewards),
        r is None ==> claim_payout(*claimer_rewards) > u64::MAX,
{
    claimer_rewards.to_u64_saturating().checked_mul(REWARD_MULTIPLIER)
}

/// Whether `claim_rewards` can run without its arithmetic overflowing or underflowing.
pub fn check_claim_rewards_fits(ctx: &ClaimRewards, vault_id: u64, claimer_rewards: Binary32) -> (r:
    bool)
    ensures
        r == claim_rewards_fits(*ctx, vault_id, claimer_rewards),
{
    let paid = match checked_payout(&claimer_rewards) {
        Some(paid) => paid,
        None => {
            return true;
        },
    };
    let accepted = is_valid_vault_id(vault_id) && ctx.staker_account.data.stake_amount != 0
        && ctx.vault_account.data.total_rewards > 0
        && ctx.vault_account.data.reward_rate.is_positive() && !ctx.staker_account.data.is_claimed
        && claimer_rewards.is_positive() && paid != 0 && paid <= ctx.vault_account.data.total_rewards;
    !accepted || (u64::MAX - ctx.staker_address.lamports >= paid && ctx.vault_account.lamports
        >= paid)
}

/// Claims the staker's rewards from the vault: pays the share times
/// `REWARD_MULTIPLIER` from the vault's balance and rewards to the staker's
/// wallet, records it as the claimed rewards, restarts the stake time and
/// closes claiming until the next stake. A claim that would pay nothing is
/// refused with `NoRewardsToClaim`, one that would pay more than the vault's
/// rewards with `VaultHasNoRewards`.
///
/// `claimer_rewards` is the single-precision product of the vault's reward
/// rate by the stake, divided by the vault's total stake, as the caller
/// computed it.
pub fn claim_rewards(
    ctx: &mut ClaimRewards,
    vault_id: u64,
    claimer_rewards: Binary32,
    now: i64,
) -> (r: Result<ClaimRewardsEvent, StakingError>)
    requires
        claim_rewards_fits(*old(ctx), vault_id, claimer_rewards),
    ensures
        match claim_rewards_result(*old(ctx), vault_id, claimer_rewards, now) {
            Ok(post) => {
                &&& *final(ctx) == post
                &&& r == Ok::<ClaimRewardsEvent, StakingError>(
                    ClaimRewardsEvent {
                        claimer_address: old(ctx).staker_account.data.staker_address,
                        vault_id: vault_id,
                        rewards_claimed: claimer_rewards.truncated_u64(),
                        claiming_time: now,
                    },
                )
            },
            Err(e) => *final(ctx) == *old(ctx) && r == Err::<ClaimRewardsEvent, StakingError>(e),
        },
{
    if !is_valid_vault_id(vault_id) {
        return Err(StakingError::Vault(VaultError::VaultIdOutOfBounds));
    }
    if ctx.staker_account.data.stake_amount == 0 {
        return Err(StakingError::Staker(StakerError::NoStakeInVault));
    }
    if !(ctx.vault_account.data.total_rewards > 0
        && ctx.vault_account.data.reward_rate.is_positive()) {
        return Err(StakingError::Vault(VaultError::VaultHasNoRewards));
    }
    if ctx.staker_account.data.is_claimed {
        return Err(StakingError::Claimer(ClaimerError::AlreadyClaimed));
    }
    if !claimer_rewards.is_positive() {
        return Err(StakingError::Claimer(ClaimerError::NoRewardsToClaim));
    }
    let staker_proportion_rewards = claimer_rewards.to_u64_saturating();
    let final_claimed = match checked_payout(&claimer_rewards) {
        Some(paid) => paid,
        None => {
            return Err(StakingError::Vault(VaultError::VaultHasNoRewards));
        },
    };
    if final_claimed == 0 {
        return Err(StakingError::Claimer(ClaimerError::NoRewardsToClaim));
    }
    if final_claimed > ctx.vault_account.data.total_rewards {
        return Err(StakingError::Vault(VaultError::VaultHasNoRewards));
    }
    ctx.staker_account.data.claimed_rewards = final_claimed;
    ctx.staker_address.lamports = ctx.staker_address.lamports + final_claimed;
    ctx.vault_account.lamports = ctx.vault_account.lamports - final_claimed;
    ctx.vault_account.data.total_rewards = ctx.vault_account.data.total_rewards - final_claimed;
    ctx.staker_account.data.stake_time = now;
    ctx.staker_account.data.is_claimed = true;
    Ok(
        ClaimRewardsEvent {
            claimer_address: ctx.staker_account.data.staker_address,
            vault_id,
            rewards_claimed: staker_proportion_rewards,
            claiming_time: now,
        },
    )
}

} // verus!
