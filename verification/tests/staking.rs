use solscore::engine::StakeEngine;
use solscore::errors::ErrorCode;
use solscore::stake::StakeConfig;
use solscore::vault::{Wallet, ESCROW_VAULT_ADDRESS, TREASURY_VAULT_ADDRESS};

fn config() -> StakeConfig {
    StakeConfig {
        admin: 1,
        min_stake_amount: 1_000_000,
        max_stake_amount: 1_000_000_000,
        early_withdrawal_fee: 10,
        lock_options: vec![86_400],
    }
}

fn engine() -> StakeEngine {
    assert!(config().check_well_formed());
    StakeEngine::new(config(), 1, 0, 0)
}

#[test]
fn early_unstake_charges_fee_and_closes() {
    let mut e = engine();
    let mut w = Wallet { owner: 7, balance: 600_000_000 };

    let r = e.create_stake(&mut w, 500_000_000, 86_400, 9, 1_000);
    assert_eq!(r, Ok(()));
    assert_eq!(w.balance, 100_000_000);
    assert_eq!(e.escrow_vault.balance, 500_000_000);
    assert_eq!(e.stake_count.count, 1);
    assert_eq!(e.stakes[0].owner, 7);
    assert_eq!(e.stakes[0].amount, 500_000_000);
    assert_eq!(e.stakes[0].start_time, 1_000);
    assert_eq!(e.stakes[0].lock_period, 86_400);
    assert_eq!(e.stakes[0].fpl_user, 9);
    assert!(e.stakes[0].is_active);
    assert_eq!(e.stakes[0].last_claim_time, 1_000);

    // Same day: 10% early-withdrawal fee.
    let r2 = e.unstake(&mut w, 0, ESCROW_VAULT_ADDRESS, 1_100);
    assert_eq!(r2, Ok(()));
    assert_eq!(w.balance, 100_000_000 + 450_000_000);
    assert_eq!(e.treasury.total_fees, 50_000_000);
    assert_eq!(e.treasury_vault.balance, 50_000_000);
    assert_eq!(e.escrow_vault.balance, 0);
    assert!(!e.stakes[0].is_active);
    assert_eq!(e.stakes[0].last_claim_time, 1_100);

    // Closure is single-use.
    let r3 = e.unstake(&mut w, 0, ESCROW_VAULT_ADDRESS, 1_200);
    assert_eq!(r3, Err(ErrorCode::StakeNotActive));
    assert_eq!(w.balance, 550_000_000);
    assert_eq!(e.treasury.total_fees, 50_000_000);
}

#[test]
fn unstake_after_lock_elapses_charges_no_fee() {
    let mut e = engine();
    let mut w = Wallet { owner: 7, balance: 600_000_000 };

    assert_eq!(e.create_stake(&mut w, 500_000_000, 86_400, 9, 1_000), Ok(()));

    let r = e.unstake(&mut w, 0, ESCROW_VAULT_ADDRESS, 1_000 + 86_400);
    assert_eq!(r, Ok(()));
    assert_eq!(w.balance, 100_000_000 + 500_000_000);
    assert_eq!(e.treasury.total_fees, 0);
    assert_eq!(e.treasury_vault.balance, 0);
    assert_eq!(e.escrow_vault.balance, 0);
}

#[test]
fn create_stake_rejects_amount_out_of_bounds() {
    let mut e = engine();
    let mut w = Wallet { owner: 7, balance: 2_000_000_000 };

    let low = e.create_stake(&mut w, 999_999, 86_400, 9, 1_000);
    assert_eq!(low, Err(ErrorCode::InvalidStakeAmount));
    let high = e.create_stake(&mut w, 1_000_000_001, 86_400, 9, 1_000);
    assert_eq!(high, Err(ErrorCode::InvalidStakeAmount));

    // No new record, no vault change.
    assert_eq!(e.stake_count.count, 0);
    assert_eq!(e.stakes.len(), 0);
    assert_eq!(e.escrow_vault.balance, 0);
    assert_eq!(w.balance, 2_000_000_000);
}

#[test]
fn create_stake_rejects_unpermitted_lock_period() {
    let mut e = engine();
    let mut w = Wallet { owner: 7, balance: 600_000_000 };

    let r = e.create_stake(&mut w, 500_000_000, 86_401, 9, 1_000);
    assert_eq!(r, Err(ErrorCode::InvalidLockPeriod));
    assert_eq!(e.stake_count.count, 0);
    assert_eq!(e.escrow_vault.balance, 0);
    assert_eq!(w.balance, 600_000_000);
}

#[test]
fn create_stake_rejects_short_wallet() {
    let mut e = engine();
    let mut w = Wallet { owner: 7, balance: 400_000_000 };

    let r = e.create_stake(&mut w, 500_000_000, 86_400, 9, 1_000);
    assert_eq!(r, Err(ErrorCode::InsufficientFunds));
    assert_eq!(e.stake_count.count, 0);
    assert_eq!(e.escrow_vault.balance, 0);
    assert_eq!(w.balance, 400_000_000);
}

#[test]
fn sequence_numbers_are_distinct_and_addressable() {
    let mut e = engine();
    let mut w = Wallet { owner: 7, balance: 9_000_000 };

    for k in 0..3u64 {
        assert_eq!(e.stake_count.count, k);
        assert_eq!(e.create_stake(&mut w, 2_000_000, 86_400, 9, 1_000 + k as i64), Ok(()));
    }
    assert_eq!(e.stake_count.count, 3);
    assert_eq!(e.stakes.len(), 3);
    for k in 0..3usize {
        assert_eq!(e.stakes[k].owner, 7);
        assert_eq!(e.stakes[k].start_time, 1_000 + k as i64);
        assert!(e.stakes[k].is_active);
    }
    assert_eq!(e.escrow_vault.balance, 6_000_000);
    assert_eq!(w.balance, 3_000_000);

    // Each record is independently addressable by (owner, sequence number).
    for k in 0..3u64 {
        let st = e.get_stake(7, k).expect("owner 7 minted this sequence number");
        assert_eq!(st.start_time, 1_000 + k as i64);
    }
    assert!(e.get_stake(8, 0).is_none());
    assert!(e.get_stake(7, 3).is_none());

    // Each record is independently closable by its own sequence number.
    assert_eq!(e.unstake(&mut w, 1, ESCROW_VAULT_ADDRESS, 500_000), Ok(()));
    assert!(e.stakes[0].is_active);
    assert!(!e.stakes[1].is_active);
    assert!(e.stakes[2].is_active);
}

#[test]
fn unstake_by_non_owner_is_unauthorized() {
    let mut e = engine();
    let mut w = Wallet { owner: 7, balance: 600_000_000 };
    assert_eq!(e.create_stake(&mut w, 500_000_000, 86_400, 9, 1_000), Ok(()));

    let mut intruder = Wallet { owner: 8, balance: 0 };
    let r = e.unstake(&mut intruder, 0, ESCROW_VAULT_ADDRESS, 1_100);
    assert_eq!(r, Err(ErrorCode::UnauthorizedAccess));

    // Record and balances unchanged.
    assert!(e.stakes[0].is_active);
    assert_eq!(e.escrow_vault.balance, 500_000_000);
    assert_eq!(intruder.balance, 0);
    assert_eq!(e.treasury.total_fees, 0);
}

#[test]
fn unstake_with_unknown_sequence_number_is_unauthorized() {
    let mut e = engine();
    let mut w = Wallet { owner: 7, balance: 600_000_000 };
    assert_eq!(e.create_stake(&mut w, 500_000_000, 86_400, 9, 1_000), Ok(()));

    let r = e.unstake(&mut w, 1, ESCROW_VAULT_ADDRESS, 1_100);
    assert_eq!(r, Err(ErrorCode::UnauthorizedAccess));
    assert!(e.stakes[0].is_active);
    assert_eq!(e.escrow_vault.balance, 500_000_000);
}

#[test]
fn unstake_with_wrong_vault_address_is_unauthorized() {
    let mut e = engine();
    let mut w = Wallet { owner: 7, balance: 600_000_000 };
    assert_eq!(e.create_stake(&mut w, 500_000_000, 86_400, 9, 1_000), Ok(()));

    let r = e.unstake(&mut w, 0, TREASURY_VAULT_ADDRESS, 1_100);
    assert_eq!(r, Err(ErrorCode::UnauthorizedAccess));
    assert!(e.stakes[0].is_active);
    assert_eq!(e.escrow_vault.balance, 500_000_000);
    assert_eq!(w.balance, 100_000_000);
}

#[test]
fn fee_rounds_down_in_the_stakers_favor() {
    let mut cfg = config();
    cfg.min_stake_amount = 1;
    cfg.max_stake_amount = u64::MAX;
    cfg.early_withdrawal_fee = 3;
    assert!(cfg.check_well_formed());
    let mut e = StakeEngine::new(cfg, 1, 0, 0);
    let mut w = Wallet { owner: 7, balance: 1_000 };

    assert_eq!(e.create_stake(&mut w, 999, 86_400, 9, 0), Ok(()));
    // floor(999 * 3 / 100) = floor(29.97) = 29.
    assert_eq!(e.unstake(&mut w, 0, ESCROW_VAULT_ADDRESS, 5), Ok(()));
    assert_eq!(e.treasury.total_fees, 29);
    assert_eq!(w.balance, 1_000 - 999 + 970);
}

#[test]
fn conservation_holds_across_open_and_close() {
    let mut e = engine();
    let mut w = Wallet { owner: 7, balance: 700_000_000 };
    let total = |e: &StakeEngine, w: &Wallet| {
        w.balance + e.escrow_vault.balance + e.treasury_vault.balance
    };
    let before = total(&e, &w);

    assert_eq!(e.create_stake(&mut w, 500_000_000, 86_400, 9, 1_000), Ok(()));
    assert_eq!(total(&e, &w), before);
    assert_eq!(e.unstake(&mut w, 0, ESCROW_VAULT_ADDRESS, 1_100), Ok(()));
    assert_eq!(total(&e, &w), before);
}

#[test]
fn zero_fee_percentage_charges_nothing_even_early() {
    let mut cfg = config();
    cfg.early_withdrawal_fee = 0;
    assert!(cfg.check_well_formed());
    let mut e = StakeEngine::new(cfg, 1, 0, 0);
    let mut w = Wallet { owner: 7, balance: 600_000_000 };

    assert_eq!(e.create_stake(&mut w, 500_000_000, 86_400, 9, 1_000), Ok(()));
    assert_eq!(e.unstake(&mut w, 0, ESCROW_VAULT_ADDRESS, 1_001), Ok(()));
    assert_eq!(w.balance, 600_000_000);
    assert_eq!(e.treasury.total_fees, 0);
}

#[test]
fn config_check_rejects_bad_rules() {
    let mut zero_min = config();
    zero_min.min_stake_amount = 0;
    assert!(!zero_min.check_well_formed());

    let mut inverted = config();
    inverted.min_stake_amount = 10;
    inverted.max_stake_amount = 9;
    assert!(!inverted.check_well_formed());

    let mut fee = config();
    fee.early_withdrawal_fee = 101;
    assert!(!fee.check_well_formed());

    let mut empty = config();
    empty.lock_options = vec![];
    assert!(!empty.check_well_formed());

    let mut zero_lock = config();
    zero_lock.lock_options = vec![0];
    assert!(!zero_lock.check_well_formed());
}
