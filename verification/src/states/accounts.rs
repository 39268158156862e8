use vstd::prelude::*;
use crate::states::binary32::Binary32;
use crate::states::errors::{DistributionError, StakingError, VaultError};

verus! {

broadcast use vstd::array::group_array_axioms;

/// The 32-byte address of an account or a wallet.
#[derive(Clone, Copy, Debug, PartialEq, Eq)]
pub struct Pubkey {
    pub bytes: [u8; 32],
}

impl View for Pubkey {
    type V = Seq<u8>;

    open spec fn view(&self) -> Seq<u8> {
        self.bytes@
    }
}

impl Pubkey {
    /// Whether two addresses are the same.
    pub fn equals(&self, other: &Pubkey) -> (r: bool)
        ensures
            r == (*self == *other),
    {
        let mut i: usize = 0;
        while i < 32
            invariant
                i <= 32,
                forall|j: int| 0 <= j < i ==> self.bytes@[j] == other.bytes@[j],
            decreases 32 - i,
        {
            if self.bytes[i] != other.bytes[i] {
                return false;
            }
            i = i + 1;
        }
        assert(self.bytes@ =~= other.bytes@);
        assert(self.bytes == other.bytes);
        true
    }
}

/// The state of a vault: what is staked in it and what it holds for rewards.
#[derive(Clone, Copy, Debug, PartialEq, Eq)]
pub struct VaultAccount {
    pub vault_id: u64,
    pub total_staked: u64,
    pub total_rewards: u64,
    /// Rewards per day of the last distribution, a single-precision number.
    pub reward_rate: Binary32,
    pub bump: u8,
}

/// The state of one staker in one vault.
#[derive(Clone, Copy, Debug, PartialEq, Eq)]
pub struct StakerAccount {
    pub staker_address: Pubkey,
    pub stake_amount: u64,
    pub stake_time: i64,
    pub claimed_rewards: u64,
    pub is_claimed: bool,
}

/// An account that the program owns: its address, its balance in lamports
/// and its data.
#[derive(Clone, Copy, Debug, PartialEq, Eq)]
pub struct Account<T> {
    pub key: Pubkey,
    pub lamports: u64,
    pub data: T,
}

/// A wallet that signed the instruction: its address and its balance in lamports.
#[derive(Clone, Copy, Debug, PartialEq, Eq)]
pub struct Signer {
    pub key: Pubkey,
    pub lamports: u64,
}

/// A transfer of lamports that the system program is to perform.
#[derive(Clone, Copy, Debug, PartialEq, Eq)]
pub struct Transfer {
    pub from: Pubkey,
    pub to: Pubkey,
    pub lamports: u64,
}

/// The accounts of the instruction that initializes a vault.
#[derive(Clone, Copy, Debug, PartialEq, Eq)]
pub struct InitializeVaultAccount {
    pub vault_account: Account<VaultAccount>,
    pub vault_admin: Signer,
    /// The address that alone may initialize vaults.
    pub expected_admin: Pubkey,
    /// The bump seed of the vault's program-derived address.
    pub vault_bump: u8,
}

/// The accounts of the instruction that stakes lamports in a vault.
#[derive(Clone, Copy, Debug, PartialEq, Eq)]
pub struct StakerTokens {
    pub staker_account: Account<StakerAccount>,
    pub staker_address: Signer,
    pub vault_account: Account<VaultAccount>,
}

/// The accounts of the instruction that distributes rewards to a vault.
#[derive(Clone, Copy, Debug, PartialEq, Eq)]
pub struct DistributeRewards {
    pub rewarder_authority: Signer,
    /// The address that alone may distribute rewards.
    pub expected_distributer: Pubkey,
    pub vault_account: Account<VaultAccount>,
}

/// The accounts of the instruction that claims rewards from a vault.
#[derive(Clone, Copy, Debug, PartialEq, Eq)]
pub struct ClaimRewards {
    pub staker_account: Account<StakerAccount>,
    pub staker_address: Signer,
    pub vault_account: Account<VaultAccount>,
}

/// The accounts of the instruction that withdraws staked lamports from a vault.
#[derive(Clone, Copy, Debug, PartialEq, Eq)]
pub struct WithdrawTokens {
    pub staker_account: Account<StakerAccount>,
    pub staker_address: Signer,
    pub vault_account: Account<VaultAccount>,
}

impl InitializeVaultAccount {
    /// The signer is the vault admin.
    pub open spec fn authorized(self) -> bool {
        self.vault_admin.key == self.expected_admin
    }

    /// Checks the account constraint: only the vault admin may initialize a vault.
    pub fn validate(&self) -> (r: Result<(), StakingError>)
        ensures
            r is Ok <==> self.authorized(),
            r is Err ==> r == Err::<(), _>(StakingError::Vault(VaultError::UnauthorizedVaultAdmin)),
    {
        if self.vault_admin.key.equals(&self.expected_admin) {
            Ok(())
        } else {
            Err(StakingError::Vault(VaultError::UnauthorizedVaultAdmin))
        }
    }
}

impl DistributeRewards {
    /// The signer is the reward authority.
    pub open spec fn authorized(self) -> bool {
        self.rewarder_authority.key == self.expected_distributer
    }

    /// Checks the account constraint: only the reward authority may distribute rewards.
    pub fn validate(&self) -> (r: Result<(), StakingError>)
        ensures
            r is Ok <==> self.authorized(),
            r is Err ==> r == Err::<(), _>(StakingError::Distribution(DistributionError::OnlyRewardAuthority)),
    {
        if self.rewarder_authority.key.equals(&self.expected_distributer) {
            Ok(())
        } else {
            Err(StakingError::Distribution(DistributionError::OnlyRewardAuthority))
        }
    }
}

impl ClaimRewards {
    /// The staker account belongs to the signer.
    pub open spec fn authorized(self) -> bool {
        self.staker_account.data.staker_address == self.staker_address.key
    }

    /// Checks the account constraint: the staker account belongs to the signer.
    pub fn validate(&self) -> (r: Result<(), StakingError>)
        ensures
            r is Ok <==> self.authorized(),
            r is Err ==> r == Err::<(), _>(StakingError::ConstraintHasOne),
    {
        if self.staker_account.data.staker_address.equals(&self.staker_address.key) {
            Ok(())
        } else {
            Err(StakingError::ConstraintHasOne)
        }
    }
}

} // verus!
