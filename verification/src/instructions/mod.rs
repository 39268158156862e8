pub mod initialize_vault;
pub mod stake_sol;
pub mod distribute_rewards;
pub mod claim_rewards;
pub mod withdraw_tokens;
