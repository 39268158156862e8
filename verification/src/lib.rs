//! A staking vault: stakers lock lamports in numbered vaults, a reward
//! authority funds the vaults, and stakers claim a share of the rewards
//! in proportion to their stake.
pub mod states;
pub mod instructions;
pub mod staking;
pub mod laws;
