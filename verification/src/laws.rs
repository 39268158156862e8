//! Properties that hold across the program's instructions.
use vstd::prelude::*;
use crate::instructions::claim_rewards::{claim_payout, claim_rewards_fits, claim_rewards_result};
use crate::instructions::distribute_rewards::{distribute_rewards_fits, distribute_rewards_result};
use crate::instructions::initialize_vault::initialize_vault_result;
use crate::instructions::stake_sol::{stake_sol_fits, stake_sol_result};
use crate::instructions::withdraw_tokens::{withdraw_tokens_fits, withdraw_tokens_result};
use crate::staking::{claim_result, distribute_result, initialize_result};
use crate::states::accounts::{
    ClaimRewards, DistributeRewards, InitializeVaultAccount, StakerAccount, StakerTokens,
    VaultAccount, WithdrawTokens,
};
use crate::states::binary32::{lemma_truncation_monotone, Binary32};
use crate::states::constants::{valid_vault_id, REWARD_MULTIPLIER};
use crate::states::errors::{
    ClaimerError, DistributionError, StakerError, StakingError, VaultError, WithdrawError,
};

verus! {

/// The vault's total stake covers the staker's stake.
pub open spec fn total_covers_stake(staker: StakerAccount, vault: VaultAccount) -> bool {
    vault.total_staked >= staker.stake_amount
}

/// Withdrawing what was just staked gives back the staker's stake and the
/// vault's total stake as they were before the stake.
pub proof fn lemma_withdraw_undoes_stake(
    s: StakerTokens,
    stake_amount: u64,
    stake_time: i64,
    w: WithdrawTokens,
    vault_id: u64,
)
    requires
        stake_sol_fits(s, stake_amount),
        stake_sol_result(s, stake_amount, stake_time) is Ok,
        w.staker_account.data == stake_sol_result(s, stake_amount, stake_time)->Ok_0.staker_account.data,
        w.vault_account.data == stake_sol_result(s, stake_amount, stake_time)->Ok_0.vault_account.data,
        valid_vault_id(vault_id),
    ensures
        withdraw_tokens_result(w, vault_id, stake_amount) is Ok,
        withdraw_tokens_result(w, vault_id, stake_amount)->Ok_0.staker_account.data.stake_amount
            == s.staker_account.data.stake_amount,
        withdraw_tokens_result(w, vault_id, stake_amount)->Ok_0.vault_account.data.total_staked
            == s.vault_account.data.total_staked,
{
}

/// Once a claim succeeds, a second claim on the same vault is refused until
/// the staker stakes again; while the vault still holds rewards at a positive
/// rate, it is refused as already claimed.
pub proof fn lemma_no_second_claim(
    c: ClaimRewards,
    vault_id: u64,
    claimer_rewards: Binary32,
    now: i64,
    again: ClaimRewards,
    again_rewards: Binary32,
    again_now: i64,
)
    requires
        claim_rewards_fits(c, vault_id, claimer_rewards),
        claim_rewards_result(c, vault_id, claimer_rewards, now) is Ok,
        again.staker_account.data
            == claim_rewards_result(c, vault_id, claimer_rewards, now)->Ok_0.staker_account.data,
        again.vault_account.data
            == claim_rewards_result(c, vault_id, claimer_rewards, now)->Ok_0.vault_account.data,
    ensures
        claim_rewards_result(again, vault_id, again_rewards, again_now) is Err,
        again.vault_account.data.total_rewards > 0 ==> claim_rewards_result(
            again,
            vault_id,
            again_rewards,
            again_now,
        ) == Err::<ClaimRewards, StakingError>(StakingError::Claimer(ClaimerError::AlreadyClaimed)),
{
}

/// A stake re-opens claiming: after it, a claim is never refused as already claimed.
pub proof fn lemma_stake_reopens_claim(
    s: StakerTokens,
    stake_amount: u64,
    stake_time: i64,
    c: ClaimRewards,
    vault_id: u64,
    claimer_rewards: Binary32,
    now: i64,
)
    requires
        stake_sol_result(s, stake_amount, stake_time) is Ok,
        c.staker_account.data == stake_sol_result(s, stake_amount, stake_time)->Ok_0.staker_account.data,
    ensures
        claim_rewards_result(c, vault_id, claimer_rewards, now) != Err::<ClaimRewards, StakingError>(
            StakingError::Claimer(ClaimerError::AlreadyClaimed),
        ),
{
}

/// Staking keeps the vault's total stake covering the staker's stake: both
/// grow by the same amount.
pub proof fn lemma_stake_keeps_cover(s: StakerTokens, stake_amount: u64, now: i64)
    requires
        stake_sol_fits(s, stake_amount),
        stake_sol_result(s, stake_amount, now) is Ok,
    ensures
        ({
            let post = stake_sol_result(s, stake_amount, now)->Ok_0;
            &&& post.vault_account.data.total_staked - post.staker_account.data.stake_amount
                == s.vault_account.data.total_staked - s.staker_account.data.stake_amount
            &&& total_covers_stake(s.staker_account.data, s.vault_account.data) ==> total_covers_stake(
                post.staker_account.data,
                post.vault_account.data,
            )
        }),
{
}

/// Withdrawing keeps the vault's total stake covering the staker's stake:
/// both shrink by the same amount.
pub proof fn lemma_withdraw_keeps_cover(w: WithdrawTokens, vault_id: u64, withdraw_amount: u64)
    requires
        withdraw_tokens_result(w, vault_id, withdraw_amount) is Ok,
    ensures
        ({
            let post = withdraw_tokens_result(w, vault_id, withdraw_amount)->Ok_0;
            &&& post.vault_account.data.total_staked - post.staker_account.data.stake_amount
                == w.vault_account.data.total_staked - w.staker_account.data.stake_amount
            &&& total_covers_stake(w.staker_account.data, w.vault_account.data) ==> total_covers_stake(
                post.staker_account.data,
                post.vault_account.data,
            )
        }),
{
}

/// Claiming touches neither the stake nor the vault's total stake.
pub proof fn lemma_claim_keeps_stake(
    c: ClaimRewards,
    vault_id: u64,
    claimer_rewards: Binary32,
    now: i64,
)
    requires
        claim_rewards_result(c, vault_id, claimer_rewards, now) is Ok,
    ensures
        ({
            let post = claim_rewards_result(c, vault_id, claimer_rewards, now)->Ok_0;
            &&& post.staker_account.data.stake_amount == c.staker_account.data.stake_amount
            &&& post.vault_account.data.total_staked == c.vault_account.data.total_staked
        }),
{
}

/// A withdrawal moves lamports from the vault back to the staker's wallet: their
/// sum stays the same, and the vault loses exactly the amount withdrawn.
pub proof fn lemma_withdraw_conserves_lamports(
    w: WithdrawTokens,
    vault_id: u64,
    withdraw_amount: u64,
)
    requires
        withdraw_tokens_fits(w, vault_id, withdraw_amount),
        withdraw_tokens_result(w, vault_id, withdraw_amount) is Ok,
    ensures
        ({
            let post = withdraw_tokens_result(w, vault_id, withdraw_amount)->Ok_0;
            &&& post.staker_address.lamports + post.vault_account.lamports
                == w.staker_address.lamports + w.vault_account.lamports
            &&& w.vault_account.lamports - post.vault_account.lamports == withdraw_amount
        }),
{
}

/// A claim moves lamports from the vault to the staker's wallet: their sum
/// stays the same, and the vault's balance, the vault's rewards and the
/// staker's claimed rewards all account for the same payout.
pub proof fn lemma_claim_conserves_lamports(
    c: ClaimRewards,
    vault_id: u64,
    claimer_rewards: Binary32,
    now: i64,
)
    requires
        claim_rewards_fits(c, vault_id, claimer_rewards),
        claim_rewards_result(c, vault_id, claimer_rewards, now) is Ok,
    ensures
        ({
            let post = claim_rewards_result(c, vault_id, claimer_rewards, now)->Ok_0;
            let paid = claim_payout(claimer_rewards);
            &&& post.staker_address.lamports + post.vault_account.lamports
                == c.staker_address.lamports + c.vault_account.lamports
            &&& c.vault_account.lamports - post.vault_account.lamports == paid
            &&& c.vault_account.data.total_rewards - post.vault_account.data.total_rewards == paid
            &&& post.staker_account.data.claimed_rewards == paid
            &&& 0 < paid <= c.vault_account.data.total_rewards
        }),
{
}

/// A distribution adds exactly the distributed amount to the vault's rewards.
pub proof fn lemma_distribution_funds_rewards(
    d: DistributeRewards,
    reward_amount: u64,
    reward_rate: Binary32,
)
    requires
        distribute_rewards_fits(d, reward_amount),
        distribute_rewards_result(d, reward_amount, reward_rate) is Ok,
    ensures
        distribute_rewards_result(d, reward_amount, reward_rate)->Ok_0.vault_account.data.total_rewards
            == d.vault_account.data.total_rewards + reward_amount,
{
}

/// Only vault ids in `1..=128` are accepted by the instructions that check
/// them: initializing, claiming and withdrawing.
pub proof fn lemma_vault_id_bounds(
    i: InitializeVaultAccount,
    c: ClaimRewards,
    w: WithdrawTokens,
    vault_id: u64,
    claimer_rewards: Binary32,
    now: i64,
    withdraw_amount: u64,
)
    requires
        vault_id < 1 || vault_id > 128,
    ensures
        initialize_vault_result(i, vault_id) == Err::<InitializeVaultAccount, StakingError>(
            StakingError::Vault(VaultError::VaultIdOutOfBounds),
        ),
        claim_rewards_result(c, vault_id, claimer_rewards, now) == Err::<ClaimRewards, StakingError>(
            StakingError::Vault(VaultError::VaultIdOutOfBounds),
        ),
        withdraw_tokens_result(w, vault_id, withdraw_amount) == Err::<WithdrawTokens, StakingError>(
            StakingError::Vault(VaultError::VaultIdOutOfBounds),
        ),
{
}

/// Only the vault admin may initialize a vault, only the reward authority
/// may distribute rewards, and only the owner of a staker account may claim
/// with it; for them, the entry point does what the instruction does.
pub proof fn lemma_authorities(
    i: InitializeVaultAccount,
    d: DistributeRewards,
    c: ClaimRewards,
    vault_id: u64,
    reward_amount: u64,
    reward_rate: Binary32,
    claimer_rewards: Binary32,
    now: i64,
)
    ensures
        i.vault_admin.key != i.expected_admin ==> initialize_result(i, vault_id) == Err::<
            InitializeVaultAccount,
            StakingError,
        >(StakingError::Vault(VaultError::UnauthorizedVaultAdmin)),
        i.vault_admin.key == i.expected_admin ==> initialize_result(i, vault_id)
            == initialize_vault_result(i, vault_id),
        d.rewarder_authority.key != d.expected_distributer ==> distribute_result(
            d,
            reward_amount,
            reward_rate,
        ) == Err::<DistributeRewards, StakingError>(
            StakingError::Distribution(DistributionError::OnlyRewardAuthority),
        ),
        d.rewarder_authority.key == d.expected_distributer ==> distribute_result(
            d,
            reward_amount,
            reward_rate,
        ) == distribute_rewards_result(d, reward_amount, reward_rate),
        c.staker_account.data.staker_address != c.staker_address.key ==> claim_result(
            c,
            vault_id,
            claimer_rewards,
            now,
        ) == Err::<ClaimRewards, StakingError>(StakingError::ConstraintHasOne),
        c.staker_account.data.staker_address == c.staker_address.key ==> claim_result(
            c,
            vault_id,
            claimer_rewards,
            now,
        ) == claim_rewards_result(c, vault_id, claimer_rewards, now),
{
}

/// The payout of a claim grows with the staker's share: of two positive
/// shares, the larger one never pays less.
pub proof fn lemma_payout_grows_with_share(smaller: Binary32, larger: Binary32)
    requires
        smaller.positive(),
        larger.positive(),
        smaller.bits <= larger.bits,
    ensures
        claim_payout(smaller) <= claim_payout(larger),
{
    lemma_truncation_monotone(smaller, larger);
}

/// Claims and withdrawals pay out of what the vault accounts for: the part of
/// the vault's balance beyond its total stake and its rewards is unchanged,
/// so a claim never pays out of staked lamports, nor a withdrawal out of rewards.
pub proof fn lemma_vault_reserve_kept(
    c: ClaimRewards,
    vault_id: u64,
    claimer_rewards: Binary32,
    now: i64,
    w: WithdrawTokens,
    withdraw_id: u64,
    withdraw_amount: u64,
)
    ensures
        claim_rewards_fits(c, vault_id, claimer_rewards) && claim_rewards_result(
            c,
            vault_id,
            claimer_rewards,
            now,
        ) is Ok ==> ({
            let post = claim_rewards_result(c, vault_id, claimer_rewards, now)->Ok_0.vault_account;
            &&& post.lamports - (post.data.total_staked + post.data.total_rewards) == c.vault_account.lamports
                - (c.vault_account.data.total_staked + c.vault_account.data.total_rewards)
        }),
        withdraw_tokens_fits(w, withdraw_id, withdraw_amount) && withdraw_tokens_result(
            w,
            withdraw_id,
            withdraw_amount,
        ) is Ok ==> ({
            let post = withdraw_tokens_result(w, withdraw_id, withdraw_amount)->Ok_0.vault_account;
            &&& post.lamports - (post.data.total_staked + post.data.total_rewards) == w.vault_account.lamports
                - (w.vault_account.data.total_staked + w.vault_account.data.total_rewards)
        }),
{
}

/// Staking and distributing grow the vault's accounts by exactly what they
/// ask the system program to transfer into the vault: its total stake by the
/// stake, its rewards by the distribution.
pub proof fn lemma_vault_grows_by_transfer(
    s: StakerTokens,
    stake_amount: u64,
    now: i64,
    d: DistributeRewards,
    reward_amount: u64,
    reward_rate: Binary32,
)
    ensures
        stake_sol_fits(s, stake_amount) && stake_sol_result(s, stake_amount, now) is Ok ==> ({
            let post = stake_sol_result(s, stake_amount, now)->Ok_0.vault_account.data;
            &&& post.total_staked == s.vault_account.data.total_staked + stake_amount
            &&& post.total_rewards == s.vault_account.data.total_rewards
        }),
        distribute_rewards_fits(d, reward_amount) && distribute_rewards_result(
            d,
            reward_amount,
            reward_rate,
        ) is Ok ==> ({
            let post = distribute_rewards_result(d, reward_amount, reward_rate)->Ok_0.vault_account.data;
            &&& post.total_rewards == d.vault_account.data.total_rewards + reward_amount
            &&& post.total_staked == d.vault_account.data.total_staked
        }),
{
}

/// Every vault id from 1 to 128 can be initialized: the vault takes the id
/// and the bump, and starts with no stake and no rewards.
pub proof fn lemma_initialize_accepts_every_id(i: InitializeVaultAccount, vault_id: u64)
    requires
        1 <= vault_id <= 128,
    ensures
        initialize_vault_result(i, vault_id) is Ok,
        ({
            let post = initialize_vault_result(i, vault_id)->Ok_0;
            &&& post.vault_account.data.vault_id == vault_id
            &&& post.vault_account.data.total_staked == 0
            &&& post.vault_account.data.total_rewards == 0
            &&& post.vault_account.data.bump == i.vault_bump
            &&& post.vault_account.data.reward_rate == i.vault_account.data.reward_rate
            &&& post.vault_account.key == i.vault_account.key
            &&& post.vault_account.lamports == i.vault_account.lamports
            &&& post.vault_admin == i.vault_admin
        }),
{
}

/// A stake of a positive amount that the wallet holds is accepted, whatever
/// is already staked: the stake and the vault's total grow by the amount,
/// the signer becomes the staker, the stake time restarts and claiming
/// re-opens. A zero amount, or one the wallet does not hold, is refused.
pub proof fn lemma_stake_accepts_what_the_wallet_holds(
    s: StakerTokens,
    stake_amount: u64,
    now: i64,
)
    ensures
        stake_amount == 0 ==> stake_sol_result(s, stake_amount, now) == Err::<
            StakerTokens,
            StakingError,
        >(StakingError::Staker(StakerError::ZeroStakeAmount)),
        stake_amount > 0 && s.staker_address.lamports < stake_amount ==> stake_sol_result(
            s,
            stake_amount,
            now,
        ) == Err::<StakerTokens, StakingError>(
            StakingError::Staker(StakerError::InsufficientFunds),
        ),
        stake_amount > 0 && s.staker_address.lamports >= stake_amount
            && s.staker_account.data.stake_amount + stake_amount <= u64::MAX
            && s.vault_account.data.total_staked + stake_amount <= u64::MAX ==> {
            &&& stake_sol_result(s, stake_amount, now) is Ok
            &&& ({
                let post = stake_sol_result(s, stake_amount, now)->Ok_0;
                &&& post.staker_account.data.stake_amount == s.staker_account.data.stake_amount
                    + stake_amount
                &&& post.vault_account.data.total_staked == s.vault_account.data.total_staked
                    + stake_amount
                &&& post.vault_account.data.total_rewards == s.vault_account.data.total_rewards
                &&& post.vault_account.data.reward_rate == s.vault_account.data.reward_rate
                &&& post.staker_account.data.staker_address == s.staker_address.key
                &&& post.staker_account.data.stake_time == now
                &&& !post.staker_account.data.is_claimed
                &&& post.staker_account.data.claimed_rewards == s.staker_account.data.claimed_rewards
                &&& post.staker_address == s.staker_address
                &&& post.staker_account.lamports == s.staker_account.lamports
                &&& post.vault_account.lamports == s.vault_account.lamports
            })
        },
{
}

/// A distribution of a positive amount that the authority holds is accepted,
/// and the vault's rate becomes the rate that comes with it, whatever the
/// vault's previous rate; its rewards grow by the amount. A zero amount, or
/// one the authority does not hold, is refused.
pub proof fn lemma_distribution_sets_rate(
    d: DistributeRewards,
    reward_amount: u64,
    reward_rate: Binary32,
)
    ensures
        reward_amount == 0 ==> distribute_rewards_result(d, reward_amount, reward_rate) == Err::<
            DistributeRewards,
            StakingError,
        >(StakingError::Distribution(DistributionError::ZeroRewardAmount)),
        reward_amount > 0 && d.rewarder_authority.lamports < reward_amount
            ==> distribute_rewards_result(d, reward_amount, reward_rate) == Err::<
            DistributeRewards,
            StakingError,
        >(StakingError::Distribution(DistributionError::NotEnoughFunds)),
        reward_amount > 0 && d.rewarder_authority.lamports >= reward_amount
            && d.vault_account.data.total_rewards + reward_amount <= u64::MAX ==> {
            &&& distribute_rewards_result(d, reward_amount, reward_rate) is Ok
            &&& ({
                let post = distribute_rewards_result(d, reward_amount, reward_rate)->Ok_0;
                &&& post.vault_account.data.reward_rate == reward_rate
                &&& post.vault_account.data.total_rewards == d.vault_account.data.total_rewards
                    + reward_amount
                &&& post.vault_account.data.total_staked == d.vault_account.data.total_staked
                &&& post.vault_account.data.vault_id == d.vault_account.data.vault_id
                &&& post.vault_account.lamports == d.vault_account.lamports
                &&& post.rewarder_authority == d.rewarder_authority
            })
        },
{
}

/// A claim is accepted whenever the vault id is valid, the staker has a stake
/// and has not claimed since staking, the vault holds rewards at a positive
/// rate, and the positive share pays a non-zero amount within the vault's
/// rewards, whatever part of the vault's total stake the staker holds (all of
/// it included). It pays the share, rounded toward zero, times
/// `REWARD_MULTIPLIER` from the vault to the staker's wallet, takes it off the
/// vault's rewards, records it, and closes claiming.
pub proof fn lemma_claim_accepts_and_pays(
    c: ClaimRewards,
    vault_id: u64,
    claimer_rewards: Binary32,
    now: i64,
)
    requires
        1 <= vault_id <= 128,
        c.staker_account.data.stake_amount > 0,
        !c.staker_account.data.is_claimed,
        c.vault_account.data.total_rewards > 0,
        c.vault_account.data.reward_rate.positive(),
        claimer_rewards.positive(),
        0 < claimer_rewards.truncated_u64() * REWARD_MULTIPLIER <= c.vault_account.data.total_rewards,
        c.staker_address.lamports + claimer_rewards.truncated_u64() * REWARD_MULTIPLIER <= u64::MAX,
        c.vault_account.lamports >= claimer_rewards.truncated_u64() * REWARD_MULTIPLIER,
    ensures
        claim_rewards_result(c, vault_id, claimer_rewards, now) is Ok,
        ({
            let post = claim_rewards_result(c, vault_id, claimer_rewards, now)->Ok_0;
            let paid = claimer_rewards.truncated_u64() * REWARD_MULTIPLIER;
            &&& post.staker_address.lamports == c.staker_address.lamports + paid
            &&& post.vault_account.lamports == c.vault_account.lamports - paid
            &&& post.vault_account.data.total_rewards == c.vault_account.data.total_rewards - paid
            &&& post.staker_account.data.claimed_rewards == paid
            &&& post.staker_account.data.is_claimed
            &&& post.staker_account.data.stake_time == now
            &&& post.staker_account.data.stake_amount == c.staker_account.data.stake_amount
            &&& post.staker_account.data.staker_address == c.staker_account.data.staker_address
            &&& post.staker_account.lamports == c.staker_account.lamports
            &&& post.vault_account.data.total_staked == c.vault_account.data.total_staked
            &&& post.vault_account.data.reward_rate == c.vault_account.data.reward_rate
            &&& post.vault_account.data.vault_id == c.vault_account.data.vault_id
            &&& post.vault_account.data.bump == c.vault_account.data.bump
            &&& post.vault_account.key == c.vault_account.key
            &&& post.staker_address.key == c.staker_address.key
        }),
{
}

/// A claim is refused exactly on the listed grounds, in this order: an
/// invalid vault id, no stake, a vault without rewards or rate, a claim
/// already made since the last stake, a share that pays nothing, and a
/// payout beyond the vault's rewards.
pub proof fn lemma_claim_refusals(
    c: ClaimRewards,
    vault_id: u64,
    claimer_rewards: Binary32,
    now: i64,
)
    ensures
        ({
            let r = claim_rewards_result(c, vault_id, claimer_rewards, now);
            let staker = c.staker_account.data;
            let vault = c.vault_account.data;
            let paid = claimer_rewards.truncated_u64() * REWARD_MULTIPLIER;
            let id_ok = 1 <= vault_id <= 128;
            let staked = id_ok && staker.stake_amount > 0;
            let funded = staked && vault.total_rewards > 0 && vault.reward_rate.positive();
            let open = funded && !staker.is_claimed;
            let pays = open && claimer_rewards.positive() && paid > 0;
            &&& !id_ok ==> r == Err::<ClaimRewards, StakingError>(
                StakingError::Vault(VaultError::VaultIdOutOfBounds),
            )
            &&& id_ok && staker.stake_amount == 0 ==> r == Err::<ClaimRewards, StakingError>(
                StakingError::Staker(StakerError::NoStakeInVault),
            )
            &&& staked && !(vault.total_rewards > 0 && vault.reward_rate.positive()) ==> r == Err::<
                ClaimRewards,
                StakingError,
            >(StakingError::Vault(VaultError::VaultHasNoRewards))
            &&& funded && staker.is_claimed ==> r == Err::<ClaimRewards, StakingError>(
                StakingError::Claimer(ClaimerError::AlreadyClaimed),
            )
            &&& open && !(claimer_rewards.positive() && paid > 0) ==> r == Err::<
                ClaimRewards,
                StakingError,
            >(StakingError::Claimer(ClaimerError::NoRewardsToClaim))
            &&& pays && paid > vault.total_rewards ==> r == Err::<ClaimRewards, StakingError>(
                StakingError::Vault(VaultError::VaultHasNoRewards),
            )
        }),
{
}

/// A withdrawal is accepted whenever the vault id is valid and the positive
/// amount is within both the staker's stake and the vault's total stake,
/// whatever the staker's claim flag: the amount leaves the stake and the
/// vault's total and moves from the vault to the staker's wallet. It is
/// refused, in this order, for an invalid id, a zero amount, more than the
/// stake, and more than the vault's total stake.
pub proof fn lemma_withdraw_accepts_and_returns(w: WithdrawTokens, vault_id: u64, amount: u64)
    ensures
        ({
            let r = withdraw_tokens_result(w, vault_id, amount);
            let staker = w.staker_account.data;
            let vault = w.vault_account.data;
            let id_ok = 1 <= vault_id <= 128;
            &&& !id_ok ==> r == Err::<WithdrawTokens, StakingError>(
                StakingError::Vault(VaultError::VaultIdOutOfBounds),
            )
            &&& id_ok && amount == 0 ==> r == Err::<WithdrawTokens, StakingError>(
                StakingError::Withdraw(WithdrawError::ZeroWithdrawAmount),
            )
            &&& id_ok && amount > 0 && staker.stake_amount < amount ==> r == Err::<
                WithdrawTokens,
                StakingError,
            >(StakingError::Withdraw(WithdrawError::InsufficientAmountToWithdraw))
            &&& id_ok && 0 < amount <= staker.stake_amount && vault.total_staked < amount ==> r
                == Err::<WithdrawTokens, StakingError>(
                StakingError::Vault(VaultError::InsufficientVaultFunds),
            )
        }),
        1 <= vault_id <= 128 && 0 < amount <= w.staker_account.data.stake_amount && amount
            <= w.vault_account.data.total_staked && w.staker_address.lamports + amount <= u64::MAX
            && w.vault_account.lamports >= amount ==> {
            &&& withdraw_tokens_result(w, vault_id, amount) is Ok
            &&& ({
                let post = withdraw_tokens_result(w, vault_id, amount)->Ok_0;
                &&& post.staker_account.data.stake_amount == w.staker_account.data.stake_amount
                    - amount
                &&& post.vault_account.data.total_staked == w.vault_account.data.total_staked
                    - amount
                &&& post.staker_address.lamports == w.staker_address.lamports + amount
                &&& post.vault_account.lamports == w.vault_account.lamports - amount
                &&& post.staker_account.data.is_claimed == w.staker_account.data.is_claimed
                &&& post.staker_account.data.claimed_rewards
                    == w.staker_account.data.claimed_rewards
                &&& post.staker_account.data.stake_time == w.staker_account.data.stake_time
                &&& post.staker_account.lamports == w.staker_account.lamports
                &&& post.vault_account.data.total_rewards == w.vault_account.data.total_rewards
                &&& post.vault_account.data.reward_rate == w.vault_account.data.reward_rate
                &&& post.vault_account.data.vault_id == w.vault_account.data.vault_id
                &&& post.vault_account.data.bump == w.vault_account.data.bump
                &&& post.staker_account.data.staker_address
                    == w.staker_account.data.staker_address
                &&& post.staker_address.key == w.staker_address.key
            })
        },
{
}

} // verus!
