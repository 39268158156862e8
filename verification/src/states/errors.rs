use vstd::prelude::*;

verus! {

/// Errors about a vault.
#[derive(Clone, Copy, Debug, PartialEq, Eq, Structural)]
pub enum VaultError {
    VaultIdOutOfBounds,
    VaultNotInitialized,
    VaultAlreadyInitialized,
    UnauthorizedVaultAdmin,
    VaultHasNoRewards,
    InsufficientVaultFunds,
}

/// Errors about a staker.
#[derive(Clone, Copy, Debug, PartialEq, Eq, Structural)]
pub enum StakerError {
    ZeroStakeAmount,
    NoStakeInVault,
    InsufficientFunds,
}

/// Errors about a claim of rewards.
#[derive(Clone, Copy, Debug, PartialEq, Eq, Structural)]
pub enum ClaimerError {
    NoRewardsToClaim,
    AlreadyClaimed,
    InsufficientTimeToClaim,
}

/// Errors about a distribution of rewards.
#[derive(Clone, Copy, Debug, PartialEq, Eq, Structural)]
pub enum DistributionError {
    DistributionPassed,
    ZeroRewardAmount,
    NotEnoughFunds,
    OnlyRewardAuthority,
}

/// Errors about a withdrawal.
#[derive(Clone, Copy, Debug, PartialEq, Eq, Structural)]
pub enum WithdrawError {
    ZeroWithdrawAmount,
    InsufficientAmountToWithdraw,
}

/// Any error that an instruction of the program answers with.
#[derive(Clone, Copy, Debug, PartialEq, Eq, Structural)]
pub enum StakingError {
    Vault(VaultError),
    Staker(StakerError),
    Claimer(ClaimerError),
    Distribution(DistributionError),
    Withdraw(WithdrawError),
    /// A staker account that does not belong to the signer was passed in.
    ConstraintHasOne,
}

} // verus!
