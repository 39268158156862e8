use vstd::prelude::*;
use crate::states::accounts::Pubkey;

verus! {

/// Emitted when a vault is initialized.
#[derive(Clone, Debug, PartialEq, Eq)]
pub struct InitializeVaultEvent {
    pub vault_id: u64,
    pub message: String,
    pub initializing_time: i64,
}

/// Emitted when lamports are staked in a vault.
#[derive(Clone, Copy, Debug, PartialEq, Eq)]
pub struct StakeSolEvent {
    pub staker: Pubkey,
    pub vault_id: u64,
    pub amount: u64,
    pub staking_time: i64,
}

/// Emitted when rewards are distributed to a vault.
#[derive(Clone, Copy, Debug, PartialEq, Eq)]
pub struct DistributeRewardsEvent {
    pub distributer: Pubkey,
    pub vault_id: u64,
    pub reward_amount: u64,
    pub distribution_time: i64,
}

/// Emitted when a staker claims rewards.
#[derive(Clone, Copy, Debug, PartialEq, Eq)]
pub struct ClaimRewardsEvent {
    pub claimer_address: Pubkey,
    pub vault_id: u64,
    pub rewards_claimed: u64,
    pub claiming_time: i64,
}

/// Emitted when a staker withdraws staked lamports.
#[derive(Clone, Copy, Debug, PartialEq, Eq)]
pub struct WithdrawSolEvent {
    pub withdrawer: Pubkey,
    pub vault_id: u64,
    pub withdrawal_amount: u64,
    pub withdrawal_time: i64,
}

} // verus!
