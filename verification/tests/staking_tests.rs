use staking::instructions::claim_rewards::{check_claim_rewards_fits, claim_rewards};
use staking::instructions::distribute_rewards::{check_distribute_rewards_fits, distribute_rewards};
use staking::instructions::initialize_vault::initialize_vault;
use staking::instructions::stake_sol::{check_stake_sol_fits, stake_sol};
use staking::instructions::withdraw_tokens::{check_withdraw_tokens_fits, withdraw_tokens};
use staking::staking::{claim, distribute, initialize, stake, withdraw};
use staking::states::accounts::{
    Account, ClaimRewards, DistributeRewards, InitializeVaultAccount, Pubkey, Signer,
    StakerAccount, StakerTokens, VaultAccount, WithdrawTokens,
};
use staking::states::binary32::Binary32;
use staking::states::constants::{is_valid_vault_id, REWARD_DURATION, REWARD_MULTIPLIER};
use staking::states::errors::{
    ClaimerError, DistributionError, StakerError, StakingError, VaultError, WithdrawError,
};

fn key(b: u8) -> Pubkey {
    Pubkey { bytes: [b; 32] }
}

fn rate_of(amount: u64) -> Binary32 {
    Binary32 { bits: (amount as f32 / REWARD_DURATION as f32).to_bits() }
}

fn share_of(rate: Binary32, stake: u64, total: u64) -> Binary32 {
    Binary32 { bits: ((f32::from_bits(rate.bits) * stake as f32) / total as f32).to_bits() }
}

fn fresh_vault(lamports: u64) -> Account<VaultAccount> {
    Account {
        key: key(9),
        lamports,
        data: VaultAccount {
            vault_id: 0,
            total_staked: 0,
            total_rewards: 0,
            reward_rate: Binary32::zero(),
            bump: 0,
        },
    }
}

fn fresh_staker() -> Account<StakerAccount> {
    Account {
        key: key(5),
        lamports: 1_000,
        data: StakerAccount {
            staker_address: key(0),
            stake_amount: 0,
            stake_time: 0,
            claimed_rewards: 0,
            is_claimed: false,
        },
    }
}

fn wallet(b: u8, lamports: u64) -> Signer {
    Signer { key: key(b), lamports }
}

fn claim_ctx(stake: u64, total: u64, rewards: u64, rate: Binary32) -> ClaimRewards {
    let mut staker_account = fresh_staker();
    staker_account.data.staker_address = key(1);
    staker_account.data.stake_amount = stake;
    let mut vault_account = fresh_vault(1_000_000);
    vault_account.data.vault_id = 3;
    vault_account.data.total_staked = total;
    vault_account.data.total_rewards = rewards;
    vault_account.data.reward_rate = rate;
    ClaimRewards { staker_account, staker_address: wallet(1, 50), vault_account }
}

fn withdraw_ctx(stake: u64, total: u64) -> WithdrawTokens {
    let mut staker_account = fresh_staker();
    staker_account.data.staker_address = key(1);
    staker_account.data.stake_amount = stake;
    let mut vault_account = fresh_vault(10_000);
    vault_account.data.total_staked = total;
    WithdrawTokens { staker_account, staker_address: wallet(1, 50), vault_account }
}

// ---- binary32 ----

#[test]
fn binary32_positive_matches_comparison() {
    let values = [
        0.0f32, -0.0, 1.0, -1.0, 1.0e-45, -1.0e-45, f32::INFINITY, f32::NEG_INFINITY, f32::NAN,
        f32::MAX, f32::MIN_POSITIVE, 0.5,
    ];
    for v in values {
        assert_eq!(Binary32 { bits: v.to_bits() }.is_positive(), v > 0.0, "value {}", v);
    }
}

#[test]
fn binary32_truncation_matches_cast() {
    let values = [
        0.0f32, -0.0, 0.25, 0.999, 1.0, 1.5, 2.0, 3.75, 7.0e6, 16777215.0, 16777216.0,
        4294967296.0, 1.0e19, 1.8446743e19, 1.8446744e19, 2.0e19, 3.4e38, f32::INFINITY,
        f32::NEG_INFINITY, f32::NAN, -0.5, -5.0, 1.0e-45, 123456.789, 9.2233720e18,
    ];
    for v in values {
        assert_eq!(Binary32 { bits: v.to_bits() }.to_u64_saturating(), v as u64, "value {}", v);
    }
    for i in 0..20_000u32 {
        let bits = i.wrapping_mul(2_654_435_761);
        let v = f32::from_bits(bits);
        assert_eq!(Binary32 { bits }.to_u64_saturating(), v as u64, "bits {:#x}", bits);
    }
}

#[test]
fn binary32_truncation_exact_values() {
    assert_eq!(Binary32 { bits: 0x3f80_0000 }.to_u64_saturating(), 1);
    assert_eq!(Binary32 { bits: 0x4049_0fdb }.to_u64_saturating(), 3);
    assert_eq!(Binary32 { bits: 0x4f80_0000 }.to_u64_saturating(), 4_294_967_296);
    assert_eq!(Binary32 { bits: 0x5f80_0000 }.to_u64_saturating(), u64::MAX);
    assert_eq!(Binary32 { bits: 0x7fc0_0000 }.to_u64_saturating(), 0);
    assert_eq!(Binary32 { bits: 0xc0a0_0000 }.to_u64_saturating(), 0);
}

// ---- keys and ids ----

#[test]
fn pubkey_equality() {
    assert!(key(3).equals(&key(3)));
    assert!(!key(3).equals(&key(4)));
    let mut k = key(3);
    k.bytes[31] = 0;
    assert!(!key(3).equals(&k));
}

#[test]
fn vault_id_bounds() {
    assert!(!is_valid_vault_id(0));
    assert!(is_valid_vault_id(1));
    assert!(is_valid_vault_id(100));
    assert!(is_valid_vault_id(128));
    assert!(!is_valid_vault_id(129));
    assert!(!is_valid_vault_id(u64::MAX));
}

// ---- initialize ----

fn init_ctx(admin: u8) -> InitializeVaultAccount {
    let mut vault_account = fresh_vault(10);
    vault_account.data.total_staked = 77;
    vault_account.data.total_rewards = 88;
    InitializeVaultAccount {
        vault_account,
        vault_admin: wallet(admin, 100),
        expected_admin: key(2),
        vault_bump: 254,
    }
}

#[test]
fn initialize_vault_sets_fields_and_message() {
    let mut ctx = init_ctx(2);
    let event = initialize_vault(&mut ctx, 7, 1_700).unwrap();
    assert_eq!(ctx.vault_account.data.vault_id, 7);
    assert_eq!(ctx.vault_account.data.total_staked, 0);
    assert_eq!(ctx.vault_account.data.total_rewards, 0);
    assert_eq!(ctx.vault_account.data.bump, 254);
    assert_eq!(event.vault_id, 7);
    assert_eq!(event.message, "The vault with vault_id of 7 has been been initialized");
    assert_eq!(event.initializing_time, 1_700);
    let mut ctx = init_ctx(2);
    let event = initialize_vault(&mut ctx, 128, 5).unwrap();
    assert_eq!(ctx.vault_account.data.vault_id, 128);
    assert_eq!(event.message, "The vault with vault_id of 128 has been been initialized");
}

#[test]
fn initialize_vault_rejects_out_of_range_ids() {
    for id in [0u64, 129, 1_000, u64::MAX] {
        let mut ctx = init_ctx(2);
        let before = ctx;
        assert_eq!(
            initialize_vault(&mut ctx, id, 1).unwrap_err(),
            StakingError::Vault(VaultError::VaultIdOutOfBounds)
        );
        assert_eq!(ctx, before);
    }
}

#[test]
fn initialize_requires_the_admin() {
    let mut ctx = init_ctx(3);
    let before = ctx;
    assert_eq!(
        initialize(&mut ctx, 5, 1).unwrap_err(),
        StakingError::Vault(VaultError::UnauthorizedVaultAdmin)
    );
    assert_eq!(ctx, before);
    let mut ctx = init_ctx(3);
    assert_eq!(
        initialize(&mut ctx, 0, 1).unwrap_err(),
        StakingError::Vault(VaultError::UnauthorizedVaultAdmin)
    );
    let mut ctx = init_ctx(2);
    assert!(initialize(&mut ctx, 5, 1).is_ok());
    assert_eq!(ctx.vault_account.data.vault_id, 5);
}

// ---- stake ----

fn stake_ctx(lamports: u64) -> StakerTokens {
    StakerTokens {
        staker_account: fresh_staker(),
        staker_address: wallet(1, lamports),
        vault_account: fresh_vault(500),
    }
}

#[test]
fn stake_records_stake_and_asks_transfer() {
    let mut ctx = stake_ctx(1_000);
    ctx.staker_account.data.is_claimed = true;
    ctx.vault_account.data.total_staked = 40;
    let (event, transfer) = stake_sol(&mut ctx, 4, 300, 99).unwrap();
    assert!(ctx.staker_account.data.staker_address.equals(&key(1)));
    assert_eq!(ctx.staker_account.data.stake_amount, 300);
    assert_eq!(ctx.staker_account.data.stake_time, 99);
    assert!(!ctx.staker_account.data.is_claimed);
    assert_eq!(ctx.vault_account.data.total_staked, 340);
    assert_eq!(event.staker, key(1));
    assert_eq!(event.vault_id, 4);
    assert_eq!(event.amount, 300);
    assert_eq!(event.staking_time, 99);
    assert_eq!(transfer.from, key(1));
    assert_eq!(transfer.to, key(9));
    assert_eq!(transfer.lamports, 300);
    // The transfer is left to the system program: balances are untouched here.
    assert_eq!(ctx.staker_address.lamports, 1_000);
    let (_, _) = stake(&mut ctx, 4, 200, 100).unwrap();
    assert_eq!(ctx.staker_account.data.stake_amount, 500);
    assert_eq!(ctx.vault_account.data.total_staked, 540);
}

#[test]
fn stake_rejects_zero_and_unfunded() {
    let mut ctx = stake_ctx(1_000);
    let before = ctx;
    assert_eq!(
        stake_sol(&mut ctx, 1, 0, 1).unwrap_err(),
        StakingError::Staker(StakerError::ZeroStakeAmount)
    );
    assert_eq!(
        stake_sol(&mut ctx, 1, 1_001, 1).unwrap_err(),
        StakingError::Staker(StakerError::InsufficientFunds)
    );
    assert_eq!(ctx, before);
    assert!(stake_sol(&mut ctx, 1, 1_000, 1).is_ok());
}

// ---- distribute ----

fn distribute_ctx(authority: u8, lamports: u64) -> DistributeRewards {
    DistributeRewards {
        rewarder_authority: wallet(authority, lamports),
        expected_distributer: key(7),
        vault_account: fresh_vault(0),
    }
}

#[test]
fn distribute_sets_rate_and_rewards() {
    let mut ctx = distribute_ctx(7, 10_000);
    ctx.vault_account.data.total_rewards = 5;
    let rate = rate_of(3_000);
    let (event, transfer) = distribute_rewards(&mut ctx, 2, 3_000, rate, 44).unwrap();
    assert_eq!(ctx.vault_account.data.reward_rate, rate);
    assert_eq!(f32::from_bits(ctx.vault_account.data.reward_rate.bits), 100.0);
    assert_eq!(ctx.vault_account.data.total_rewards, 3_005);
    assert_eq!(event.distributer, key(7));
    assert_eq!(event.vault_id, 2);
    assert_eq!(event.reward_amount, 3_000);
    assert_eq!(event.distribution_time, 44);
    assert_eq!(transfer.from, key(7));
    assert_eq!(transfer.to, key(9));
    assert_eq!(transfer.lamports, 3_000);
}

#[test]
fn distribute_rejects_zero_unfunded_and_strangers() {
    let mut ctx = distribute_ctx(7, 100);
    let before = ctx;
    assert_eq!(
        distribute_rewards(&mut ctx, 2, 0, rate_of(0), 1).unwrap_err(),
        StakingError::Distribution(DistributionError::ZeroRewardAmount)
    );
    assert_eq!(
        distribute_rewards(&mut ctx, 2, 101, rate_of(101), 1).unwrap_err(),
        StakingError::Distribution(DistributionError::NotEnoughFunds)
    );
    assert_eq!(ctx, before);
    let mut ctx = distribute_ctx(8, 100);
    assert_eq!(
        distribute(&mut ctx, 2, 50, rate_of(50), 1).unwrap_err(),
        StakingError::Distribution(DistributionError::OnlyRewardAuthority)
    );
    let mut ctx = distribute_ctx(7, 100);
    assert!(distribute(&mut ctx, 2, 50, rate_of(50), 1).is_ok());
}

// ---- claim ----

#[test]
fn claim_pays_share_times_multiplier() {
    // rate 3000/30 = 100 per day; stake 10 of 40: share 25, paid 25 * 20 = 500.
    let rate = rate_of(3_000);
    let mut ctx = claim_ctx(10, 40, 3_000, rate);
    let share = share_of(rate, 10, 40);
    let event = claim_rewards(&mut ctx, 3, share, 77).unwrap();
    assert_eq!(REWARD_MULTIPLIER, 20);
    assert_eq!(ctx.staker_account.data.claimed_rewards, 500);
    assert_eq!(ctx.staker_address.lamports, 50 + 500);
    assert_eq!(ctx.staker_account.lamports, 1_000);
    assert_eq!(ctx.vault_account.lamports, 1_000_000 - 500);
    assert_eq!(ctx.vault_account.data.total_rewards, 2_500);
    assert_eq!(ctx.staker_account.data.stake_time, 77);
    assert!(ctx.staker_account.data.is_claimed);
    assert_eq!(ctx.staker_account.data.stake_amount, 10);
    assert_eq!(ctx.vault_account.data.total_staked, 40);
    assert_eq!(event.claimer_address, key(1));
    assert_eq!(event.vault_id, 3);
    assert_eq!(event.rewards_claimed, 25);
    assert_eq!(event.claiming_time, 77);
}

#[test]
fn claim_truncates_share() {
    // rate 100, stake 1 of 3: share 33.33.., paid 33 * 20.
    let rate = rate_of(3_000);
    let mut ctx = claim_ctx(1, 3, 3_000, rate);
    let event = claim_rewards(&mut ctx, 3, share_of(rate, 1, 3), 1).unwrap();
    assert_eq!(event.rewards_claimed, 33);
    assert_eq!(ctx.staker_account.data.claimed_rewards, 660);
}

#[test]
fn claim_errors_in_order() {
    let rate = rate_of(3_000);
    let share = share_of(rate, 10, 40);
    let cases: Vec<(ClaimRewards, u64, Binary32, StakingError)> = vec![
        (claim_ctx(10, 40, 3_000, rate), 0, share, StakingError::Vault(VaultError::VaultIdOutOfBounds)),
        (claim_ctx(10, 40, 3_000, rate), 129, share, StakingError::Vault(VaultError::VaultIdOutOfBounds)),
        (claim_ctx(0, 40, 3_000, rate), 3, share, StakingError::Staker(StakerError::NoStakeInVault)),
        (claim_ctx(10, 40, 0, rate), 3, share, StakingError::Vault(VaultError::VaultHasNoRewards)),
        (claim_ctx(10, 40, 3_000, Binary32::zero()), 3, share, StakingError::Vault(VaultError::VaultHasNoRewards)),
        (claim_ctx(10, 40, 3_000, rate), 3, Binary32::zero(), StakingError::Claimer(ClaimerError::NoRewardsToClaim)),
        (claim_ctx(10, 40, 3_000, rate), 3, Binary32 { bits: 0x7fc0_0000 }, StakingError::Claimer(ClaimerError::NoRewardsToClaim)),
    ];
    for (mut ctx, vault_id, share, expected) in cases {
        let before = ctx;
        assert_eq!(claim_rewards(&mut ctx, vault_id, share, 1).unwrap_err(), expected);
        assert_eq!(ctx, before);
    }
    let mut ctx = claim_ctx(10, 40, 3_000, rate);
    ctx.staker_account.data.is_claimed = true;
    assert_eq!(
        claim_rewards(&mut ctx, 3, share, 1).unwrap_err(),
        StakingError::Claimer(ClaimerError::AlreadyClaimed)
    );
}

#[test]
fn claim_twice_is_refused_until_next_stake() {
    let rate = rate_of(3_000);
    let mut ctx = claim_ctx(10, 40, 3_000, rate);
    let share = share_of(rate, 10, 40);
    claim(&mut ctx, 3, share, 1).unwrap();
    let after_first = ctx;
    assert_eq!(
        claim(&mut ctx, 3, share, 2).unwrap_err(),
        StakingError::Claimer(ClaimerError::AlreadyClaimed)
    );
    assert_eq!(ctx, after_first);
    // Staking again re-opens claiming.
    let mut s = StakerTokens {
        staker_account: ctx.staker_account,
        staker_address: wallet(1, 1_000),
        vault_account: ctx.vault_account,
    };
    stake(&mut s, 3, 10, 3).unwrap();
    let mut again = ClaimRewards {
        staker_account: s.staker_account,
        staker_address: wallet(1, 0),
        vault_account: s.vault_account,
    };
    let event = claim(&mut again, 3, share_of(rate, 20, 50), 4).unwrap();
    assert_eq!(event.rewards_claimed, 40);
}

#[test]
fn claim_requires_owner() {
    let rate = rate_of(3_000);
    let mut ctx = claim_ctx(10, 40, 3_000, rate);
    ctx.staker_address = wallet(2, 0);
    let before = ctx;
    assert_eq!(
        claim(&mut ctx, 3, share_of(rate, 10, 40), 1).unwrap_err(),
        StakingError::ConstraintHasOne
    );
    assert_eq!(ctx, before);
}

#[test]
fn claim_conserves_lamports() {
    let rate = rate_of(6_000);
    let mut ctx = claim_ctx(5, 8, 6_000, rate);
    let sum = ctx.staker_address.lamports + ctx.vault_account.lamports;
    let rewards = ctx.vault_account.data.total_rewards;
    claim(&mut ctx, 3, share_of(rate, 5, 8), 1).unwrap();
    assert_eq!(ctx.staker_address.lamports + ctx.vault_account.lamports, sum);
    assert_eq!(rewards - ctx.vault_account.data.total_rewards, ctx.staker_account.data.claimed_rewards);
    assert_eq!(ctx.staker_account.data.claimed_rewards, 125 * 20);
}

// ---- withdraw ----

#[test]
fn withdraw_moves_stake_back() {
    let mut ctx = withdraw_ctx(300, 500);
    let event = withdraw_tokens(&mut ctx, 9, 120, 66).unwrap();
    assert_eq!(ctx.staker_account.data.stake_amount, 180);
    assert_eq!(ctx.vault_account.data.total_staked, 380);
    assert_eq!(ctx.staker_address.lamports, 50 + 120);
    assert_eq!(ctx.staker_account.lamports, 1_000);
    assert_eq!(ctx.vault_account.lamports, 9_880);
    assert_eq!(event.withdrawer, key(1));
    assert_eq!(event.vault_id, 9);
    assert_eq!(event.withdrawal_amount, 120);
    assert_eq!(event.withdrawal_time, 66);
}

#[test]
fn withdraw_errors_in_order() {
    let cases: Vec<(WithdrawTokens, u64, u64, StakingError)> = vec![
        (withdraw_ctx(300, 500), 0, 10, StakingError::Vault(VaultError::VaultIdOutOfBounds)),
        (withdraw_ctx(300, 500), 129, 0, StakingError::Vault(VaultError::VaultIdOutOfBounds)),
        (withdraw_ctx(300, 500), 1, 0, StakingError::Withdraw(WithdrawError::ZeroWithdrawAmount)),
        (withdraw_ctx(300, 500), 1, 301, StakingError::Withdraw(WithdrawError::InsufficientAmountToWithdraw)),
        (withdraw_ctx(300, 200), 1, 250, StakingError::Vault(VaultError::InsufficientVaultFunds)),
    ];
    for (mut ctx, vault_id, amount, expected) in cases {
        let before = ctx;
        assert_eq!(withdraw(&mut ctx, vault_id, amount, 1).unwrap_err(), expected);
        assert_eq!(ctx, before);
    }
}

#[test]
fn withdraw_undoes_stake() {
    let mut s = stake_ctx(1_000);
    s.staker_account.data.stake_amount = 70;
    s.vault_account.data.total_staked = 90;
    stake(&mut s, 5, 400, 1).unwrap();
    let mut w = WithdrawTokens {
        staker_account: s.staker_account,
        staker_address: s.staker_address,
        vault_account: s.vault_account,
    };
    withdraw(&mut w, 5, 400, 2).unwrap();
    assert_eq!(w.staker_account.data.stake_amount, 70);
    assert_eq!(w.vault_account.data.total_staked, 90);
}

#[test]
fn total_stake_keeps_covering_stake() {
    let mut s = stake_ctx(1_000);
    s.vault_account.data.total_staked = 15;
    stake(&mut s, 5, 400, 1).unwrap();
    assert_eq!(s.vault_account.data.total_staked - s.staker_account.data.stake_amount, 15);
    let mut w = WithdrawTokens {
        staker_account: s.staker_account,
        staker_address: s.staker_address,
        vault_account: s.vault_account,
    };
    withdraw(&mut w, 5, 150, 2).unwrap();
    assert_eq!(w.vault_account.data.total_staked - w.staker_account.data.stake_amount, 15);
}

// ---- overflow conditions ----

#[test]
fn overflow_checks() {
    let mut s = stake_ctx(1_000);
    assert!(check_stake_sol_fits(&s, 10));
    s.vault_account.data.total_staked = u64::MAX - 5;
    assert!(!check_stake_sol_fits(&s, 10));
    // Refused before the additions: no overflow to fear.
    assert!(check_stake_sol_fits(&s, 0));
    assert!(check_stake_sol_fits(&s, 2_000));

    let mut d = distribute_ctx(7, 100);
    d.vault_account.data.total_rewards = u64::MAX;
    assert!(!check_distribute_rewards_fits(&d, 1));
    assert!(check_distribute_rewards_fits(&d, 0));

    let rate = rate_of(3_000);
    let c = claim_ctx(10, 40, 3_000, rate);
    assert!(check_claim_rewards_fits(&c, 3, share_of(rate, 10, 40)));
    // Payouts beyond the vault's rewards are refused, not overflowed.
    assert!(check_claim_rewards_fits(&c, 3, Binary32 { bits: f32::INFINITY.to_bits() }));
    assert!(check_claim_rewards_fits(&c, 3, Binary32 { bits: 200.0f32.to_bits() }));
    let mut poor = c;
    poor.vault_account.lamports = 100;
    assert!(!check_claim_rewards_fits(&poor, 3, share_of(rate, 10, 40)));
    let mut rich = c;
    rich.staker_address.lamports = u64::MAX - 10;
    assert!(!check_claim_rewards_fits(&rich, 3, share_of(rate, 10, 40)));

    let mut w = withdraw_ctx(300, 500);
    assert!(check_withdraw_tokens_fits(&w, 1, 300));
    w.vault_account.lamports = 100;
    assert!(!check_withdraw_tokens_fits(&w, 1, 200));
    assert!(check_withdraw_tokens_fits(&w, 1, 400));
}

#[test]
fn claim_refuses_a_payout_of_nothing() {
    // rate 0.5, stake 1 of 2: share 0.25, which pays 0.
    let rate = Binary32 { bits: 0.5f32.to_bits() };
    let mut ctx = claim_ctx(1, 2, 100, rate);
    let share = share_of(rate, 1, 2);
    assert_eq!(f32::from_bits(share.bits), 0.25);
    let before = ctx;
    assert_eq!(
        claim_rewards(&mut ctx, 3, share, 1).unwrap_err(),
        StakingError::Claimer(ClaimerError::NoRewardsToClaim)
    );
    assert_eq!(ctx, before);
    assert!(!ctx.staker_account.data.is_claimed);
}

#[test]
fn claim_refuses_more_than_the_vault_rewards() {
    // rate 100, stake 10 of 40: pays 500, but the vault holds 499 of rewards.
    let rate = rate_of(3_000);
    let share = share_of(rate, 10, 40);
    let mut ctx = claim_ctx(10, 40, 499, rate);
    let before = ctx;
    assert_eq!(
        claim_rewards(&mut ctx, 3, share, 1).unwrap_err(),
        StakingError::Vault(VaultError::VaultHasNoRewards)
    );
    assert_eq!(ctx, before);
    let mut ctx = claim_ctx(10, 40, 500, rate);
    claim_rewards(&mut ctx, 3, share, 1).unwrap();
    assert_eq!(ctx.vault_account.data.total_rewards, 0);
    // A share too large for any payout is refused the same way.
    let mut ctx = claim_ctx(10, 40, 500, rate);
    assert_eq!(
        claim_rewards(&mut ctx, 3, Binary32 { bits: f32::INFINITY.to_bits() }, 1).unwrap_err(),
        StakingError::Vault(VaultError::VaultHasNoRewards)
    );
}

#[test]
fn claim_keeps_vault_reserve() {
    let rate = rate_of(3_000);
    let mut ctx = claim_ctx(10, 40, 3_000, rate);
    let reserve = |c: &ClaimRewards| {
        c.vault_account.lamports
            - c.vault_account.data.total_staked
            - c.vault_account.data.total_rewards
    };
    let before = reserve(&ctx);
    claim(&mut ctx, 3, share_of(rate, 10, 40), 1).unwrap();
    assert_eq!(reserve(&ctx), before);
}

#[test]
fn truncation_grows_with_share() {
    let shares = [0.5f32, 1.0, 1.5, 24.9, 25.0, 1.0e10, 3.0e30, f32::INFINITY];
    for pair in shares.windows(2) {
        let a = Binary32 { bits: pair[0].to_bits() };
        let b = Binary32 { bits: pair[1].to_bits() };
        assert!(a.bits <= b.bits);
        assert!(a.to_u64_saturating() <= b.to_u64_saturating());
    }
}
