use vstd::prelude::*;

verus! {

/// Number of days over which a distribution is spread: the vault's reward
/// rate is the distributed amount divided by this duration.
pub const REWARD_DURATION: u64 = 30;

/// Number of days of reward that a claim pays out, in place of measuring the
/// time that has passed since the stake was made.
pub const REWARD_MULTIPLIER: u64 = 20;

/// Smallest vault id that the program accepts.
pub const MIN_VAULT_ID: u64 = 1;

/// Largest vault id that the program accepts.
pub const MAX_VAULT_ID: u64 = 128;

/// A vault id lies in `MIN_VAULT_ID..=MAX_VAULT_ID`.
pub open spec fn valid_vault_id(vault_id: u64) -> bool {
    MIN_VAULT_ID <= vault_id <= MAX_VAULT_ID
}

/// Whether a vault id lies in `MIN_VAULT_ID..=MAX_VAULT_ID`.
pub fn is_valid_vault_id(vault_id: u64) -> (r: bool)
    ensures
        r == valid_vault_id(vault_id),
{
    MIN_VAULT_ID <= vault_id && vault_id <= MAX_VAULT_ID
}

} // verus!
