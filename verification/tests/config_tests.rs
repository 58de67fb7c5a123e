use reward_vault::account::AccountId;
use reward_vault::account::TokenAccountView;
use reward_vault::config::initialize_vault;
use reward_vault::config::register_ally;
use reward_vault::config::set_ally_benefit;
use reward_vault::config::set_ally_ops_authority;
use reward_vault::config::set_ally_pop_enforcement;
use reward_vault::config::set_ally_withdraw_authority;
use reward_vault::config::set_econ_admin;
use reward_vault::config::set_forca_usd;
use reward_vault::config::set_mock_oracles;
use reward_vault::config::set_oracle_config;
use reward_vault::config::set_params;
use reward_vault::config::set_pause;
use reward_vault::config::set_pop_admin;
use reward_vault::config::set_pop_level;
use reward_vault::config::set_pop_params;
use reward_vault::errors::RvError;
use reward_vault::ledger::allocate_claimable_rp;
use reward_vault::ledger::cancel_allocated_rp;
use reward_vault::ledger::consume_pp;
use reward_vault::ledger::deposit_forca;
use reward_vault::ledger::grant_bonus_pp;
use reward_vault::ledger::withdraw_forca;
use reward_vault::state::AllyRole;
use reward_vault::state::BenefitMode;
use reward_vault::state::MockOracleSolUsd;
use reward_vault::state::MockPoolForcaSol;
use reward_vault::state::PopLevel;
use reward_vault::state::PopProfile;
use reward_vault::state::UserLedger;
use reward_vault::state::VaultState;

fn acct(n: u64) -> AccountId {
    AccountId { w0: n, w1: 0, w2: 0, w3: 0 }
}

fn base_state() -> VaultState {
    initialize_vault(acct(11), acct(12), acct(13), 6, 100, 500, 200).unwrap().0
}

fn registered_ally(st: &VaultState) -> reward_vault::state::AllyAccount {
    let treasury = TokenAccountView { key: acct(33), mint: acct(13), owner: acct(32), amount: 0 };
    let vault = TokenAccountView { key: acct(51), mint: acct(13), owner: acct(70), amount: 0 };
    register_ally(st, AllyRole::Marketing, acct(50), acct(31), acct(32), &treasury, &vault)
        .unwrap()
        .0
}

#[test]
fn initialize_validates_bps_and_decimals() {
    assert_eq!(
        initialize_vault(acct(1), acct(2), acct(3), 6, 10_001, 0, 0).unwrap_err(),
        RvError::InvalidBps
    );
    assert_eq!(
        initialize_vault(acct(1), acct(2), acct(3), 9, 0, 0, 0).unwrap_err(),
        RvError::InvalidForcaDecimals
    );
    let (st, ev) = initialize_vault(acct(1), acct(2), acct(3), 6, 100, 500, 200).unwrap();
    assert_eq!(st.fee_c_bps, 100);
    assert!(!st.paused);
    assert!(!st.verify_prices);
    assert_eq!(st.soft_daily_cap_usd_e6, 1_000_000_000);
    assert_eq!(st.forca_usd_e6, 1_000_000);
    assert_eq!(st.pyth_max_stale_secs, 120);
    assert_eq!(st.pyth_max_confidence_bps, 100);
    assert_eq!(ev.fee_c_bps, 100);
}

#[test]
fn errors_describe_themselves() {
    assert_eq!(RvError::Paused.describe(), "operation paused");
    assert_eq!(RvError::KycRequired.describe(), "kyc required for claim");
    assert_eq!(RvError::Overflow.describe(), "overflow");
}

#[test]
fn pause_needs_a_known_reason() {
    let mut st = base_state();
    assert_eq!(set_pause(&mut st, true, 9, 60, 5).unwrap_err(), RvError::InvalidPauseReason);
    assert!(!st.paused);
    let ev = set_pause(&mut st, true, 2, 60, 5).unwrap();
    assert!(st.paused);
    assert_eq!(ev.reason_code, 2);
    set_pause(&mut st, false, 0, 0, 9).unwrap();
    assert!(!st.paused);
}

#[test]
fn set_params_bounds() {
    let mut st = base_state();
    assert_eq!(set_params(&mut st, 0, 10_001, 0).unwrap_err(), RvError::InvalidBps);
    assert_eq!(st.tax_d_bps, 500);
    set_params(&mut st, 1, 2, 3).unwrap();
    assert_eq!((st.fee_c_bps, st.tax_d_bps, st.margin_b_bps), (1, 2, 3));
}

#[test]
fn verify_prices_cannot_be_disabled_once_enabled() {
    let mut st = base_state();
    set_oracle_config(&mut st, true, 100, acct(21), acct(22), acct(23), acct(24), true, 120, 100)
        .unwrap();
    assert!(st.verify_prices);
    let r = set_oracle_config(
        &mut st,
        false,
        100,
        acct(21),
        acct(22),
        acct(23),
        acct(24),
        true,
        120,
        100,
    );
    assert_eq!(r, Err(RvError::VerifyPricesLocked));
    assert!(st.verify_prices);
}

#[test]
fn mock_oracle_cannot_return_once_disabled() {
    let mut st = base_state();
    // Leaving the mock oracle locks it out.
    set_oracle_config(&mut st, true, 100, acct(21), acct(22), acct(23), acct(24), false, 120, 100)
        .unwrap();
    assert!(st.mock_oracle_locked);
    let r = set_oracle_config(
        &mut st,
        true,
        100,
        acct(21),
        acct(22),
        acct(23),
        acct(24),
        true,
        120,
        100,
    );
    assert_eq!(r, Err(RvError::MockOracleLocked));
}

#[test]
fn live_verification_needs_all_canonical_identities() {
    let mut st = base_state();
    let r = set_oracle_config(
        &mut st,
        true,
        100,
        acct(0),
        acct(22),
        acct(23),
        acct(24),
        false,
        120,
        100,
    );
    assert_eq!(r, Err(RvError::OracleMissing));
    let r = set_oracle_config(&mut st, true, 100, acct(21), acct(22), acct(23), acct(24), false, 0, 0);
    assert_eq!(r, Err(RvError::InvalidBps));
}

#[test]
fn manual_price_only_in_mock_mode() {
    let mut st = base_state();
    // Initially the mock oracle is off.
    assert_eq!(set_forca_usd(&mut st, 5).unwrap_err(), RvError::ManualForcaUsdDisabled);
    set_oracle_config(&mut st, true, 100, acct(21), acct(22), acct(23), acct(24), true, 120, 100)
        .unwrap();
    set_forca_usd(&mut st, 5).unwrap();
    assert_eq!(st.forca_usd_e6, 5);
}

#[test]
fn admin_rotation_needs_a_non_zero_identity() {
    let mut st = base_state();
    assert_eq!(set_econ_admin(&mut st, acct(0), 7).unwrap_err(), RvError::InvalidAuthority);
    let ev = set_econ_admin(&mut st, acct(77), 7).unwrap();
    assert_eq!(st.econ_admin, acct(77));
    assert_eq!(ev.old_econ_admin, acct(12));
    assert_eq!(set_pop_admin(&mut st, acct(0), 7).unwrap_err(), RvError::InvalidAuthority);
    set_pop_admin(&mut st, acct(78), 7).unwrap();
    assert_eq!(st.pop_admin, acct(78));
}

#[test]
fn mock_oracles_take_defaults() {
    let mut mo = MockOracleSolUsd { sol_usd_e6: 0, expo_i32: 0, conf_e8: 0, publish_ts: 0 };
    let mut mp = MockPoolForcaSol { forca_per_sol_e6: 0, reserve_forca_e6: 0, reserve_sol_e9: 0 };
    set_mock_oracles(&mut mo, &mut mp, 150_000_000, 150_000_000, 42);
    assert_eq!(mo.sol_usd_e6, 150_000_000);
    assert_eq!(mo.expo_i32, 8);
    assert_eq!(mo.conf_e8, 1_000);
    assert_eq!(mo.publish_ts, 42);
    assert_eq!(mp.forca_per_sol_e6, 150_000_000);
    assert_eq!(mp.reserve_forca_e6, 1_000_000_000);
    assert_eq!(mp.reserve_sol_e9, 10_000_000_000);
}

#[test]
fn pop_level_assignment() {
    let mut p = PopProfile { user: acct(0), level: 0, last_set_ts: 0 };
    set_pop_level(&mut p, acct(40), PopLevel::Strong, 9).unwrap();
    assert_eq!(p.user, acct(40));
    assert_eq!(p.level, 2);
    assert_eq!(p.last_set_ts, 9);
    // An existing profile refuses a different identity.
    let r = set_pop_level(&mut p, acct(41), PopLevel::Soft, 10);
    assert_eq!(r, Err(RvError::InvalidAuthority));
    assert_eq!(p.level, 2);
    set_pop_level(&mut p, acct(40), PopLevel::Suspicious, 11).unwrap();
    assert_eq!(p.level, 0);
}

#[test]
fn register_ally_checks_accounts_and_takes_defaults() {
    let st = base_state();
    let treasury = TokenAccountView { key: acct(33), mint: acct(13), owner: acct(32), amount: 0 };
    let vault = TokenAccountView { key: acct(51), mint: acct(13), owner: acct(70), amount: 0 };
    let wrong_owner = TokenAccountView { key: acct(33), mint: acct(13), owner: acct(99), amount: 0 };
    assert_eq!(
        register_ally(&st, AllyRole::Dev, acct(50), acct(31), acct(32), &wrong_owner, &vault)
            .unwrap_err(),
        RvError::InvalidAuthority
    );
    let wrong_mint = TokenAccountView { key: acct(33), mint: acct(99), owner: acct(32), amount: 0 };
    assert_eq!(
        register_ally(&st, AllyRole::Dev, acct(50), acct(31), acct(32), &wrong_mint, &vault)
            .unwrap_err(),
        RvError::InvalidMint
    );
    let (ally, ev) = register_ally(
        &st,
        AllyRole::Dev,
        acct(50),
        acct(31),
        acct(32),
        &treasury,
        &vault,
    )
    .unwrap();
    assert_eq!(ally.role, 1);
    assert_eq!(ally.balance_forca, 0);
    assert!(ally.pop_enforced);
    assert_eq!(ally.soft_daily_cap_usd_e6, st.soft_daily_cap_usd_e6);
    assert_eq!(ally.monthly_claim_limit, 0);
    assert_eq!(ev.vault_ata, acct(51));
}

#[test]
fn pop_params_are_validated() {
    let st = base_state();
    let mut ally = registered_ally(&st);
    assert_eq!(
        set_pop_params(&mut ally, 999_999, 0, 0, 0, acct(32), 1).unwrap_err(),
        RvError::PopCapTooLow
    );
    assert_eq!(
        set_pop_params(&mut ally, 1_000_000, 86_401, 0, 0, acct(32), 1).unwrap_err(),
        RvError::PopCooldownTooHigh
    );
    assert_eq!(
        set_pop_params(&mut ally, 1_000_000, 0, 32, 0, acct(32), 1).unwrap_err(),
        RvError::PopMonthlyLimitTooHigh
    );
    assert_eq!(
        set_pop_params(&mut ally, 1_000_000, 0, 0, 999_999, acct(32), 1).unwrap_err(),
        RvError::PopHardCutTooLow
    );
    let ev = set_pop_params(&mut ally, 2_000_000, 3_600, 5, 7_000_000, acct(32), 1).unwrap();
    assert_eq!(ally.soft_daily_cap_usd_e6, 2_000_000);
    assert_eq!(ally.soft_cooldown_secs, 3_600);
    assert_eq!(ally.monthly_claim_limit, 5);
    assert_eq!(ally.hard_kyc_threshold_usd_e6, 7_000_000);
    assert_eq!(ev.old_soft_daily_cap_usd_e6, 1_000_000_000);
}

#[test]
fn ally_benefit_and_enforcement() {
    let st = base_state();
    let mut ally = registered_ally(&st);
    assert_eq!(
        set_ally_benefit(&mut ally, BenefitMode::Discount, 10_001).unwrap_err(),
        RvError::InvalidBps
    );
    let ev = set_ally_benefit(&mut ally, BenefitMode::Discount, 1_000).unwrap();
    assert_eq!(ally.benefit_mode, 1);
    assert_eq!(ally.benefit_bps, 1_000);
    assert_eq!(ev.mode, 1);
    let ev = set_ally_pop_enforcement(&mut ally, false);
    assert!(!ally.pop_enforced);
    assert!(!ev.pop_enforced);
}

#[test]
fn ally_authority_rotation() {
    let st = base_state();
    let mut ally = registered_ally(&st);
    assert_eq!(
        set_ally_ops_authority(&mut ally, acct(0), 3).unwrap_err(),
        RvError::InvalidAuthority
    );
    set_ally_ops_authority(&mut ally, acct(90), 3).unwrap();
    assert_eq!(ally.ops_authority, acct(90));
    let new_treasury = TokenAccountView { key: acct(91), mint: acct(13), owner: acct(92), amount: 0 };
    assert_eq!(
        set_ally_withdraw_authority(&st, &mut ally, acct(93), &new_treasury, 4).unwrap_err(),
        RvError::InvalidAuthority
    );
    let ev = set_ally_withdraw_authority(&st, &mut ally, acct(92), &new_treasury, 4).unwrap();
    assert_eq!(ally.withdraw_authority, acct(92));
    assert_eq!(ally.treasury_ata, acct(91));
    assert_eq!(ev.old_treasury_ata, acct(33));
    let wrong_mint = TokenAccountView { key: acct(91), mint: acct(9), owner: acct(92), amount: 0 };
    assert_eq!(
        set_ally_withdraw_authority(&st, &mut ally, acct(92), &wrong_mint, 4).unwrap_err(),
        RvError::InvalidMint
    );
}

#[test]
fn deposit_and_withdraw_respect_the_reserve() {
    let st = base_state();
    let mut ally = registered_ally(&st);
    let treasury = TokenAccountView { key: acct(33), mint: acct(13), owner: acct(32), amount: 0 };
    let vault = TokenAccountView { key: acct(51), mint: acct(13), owner: acct(70), amount: 0 };
    assert_eq!(
        deposit_forca(&st, &mut ally, &treasury, &vault, 0).unwrap_err(),
        RvError::ZeroAmount
    );
    deposit_forca(&st, &mut ally, &treasury, &vault, 1_000_000).unwrap();
    assert_eq!(ally.balance_forca, 1_000_000);
    // Reserve part of it through an allocation, then try to drain everything.
    let mut ledger = UserLedger {
        user: acct(40),
        ally_nft_mint: acct(50),
        rp_claimable_forca: 0,
        pp_balance: 0,
        hwm_claimed: 0,
        tax_hwm: 0,
        total_claimed_forca: 0,
        created_ts: 0,
        updated_ts: 0,
    };
    let mut pop = PopProfile { user: acct(40), level: 1, last_set_ts: 0 };
    allocate_claimable_rp(&st, &mut ally, &mut ledger, &mut pop, 7, 400_000).unwrap();
    assert_eq!(ally.rp_reserved, 400_000);
    assert_eq!(ledger.rp_claimable_forca, 400_000);
    assert_eq!(
        withdraw_forca(&mut ally, &vault, 700_000).unwrap_err(),
        RvError::InsufficientUnreservedBalance
    );
    withdraw_forca(&mut ally, &vault, 600_000).unwrap();
    assert_eq!(ally.balance_forca, 400_000);
    assert_eq!(
        withdraw_forca(&mut ally, &vault, 500_000).unwrap_err(),
        RvError::InsufficientAllyBalance
    );
}

#[test]
fn allocation_is_gated_by_tier_and_reserve() {
    let st = base_state();
    let mut ally = registered_ally(&st);
    ally.balance_forca = 1_000_000;
    let mut ledger = UserLedger {
        user: acct(40),
        ally_nft_mint: acct(50),
        rp_claimable_forca: 0,
        pp_balance: 0,
        hwm_claimed: 0,
        tax_hwm: 0,
        total_claimed_forca: 0,
        created_ts: 0,
        updated_ts: 0,
    };
    // A suspicious identity is refused outright.
    let mut suspicious = PopProfile { user: acct(40), level: 0, last_set_ts: 0 };
    assert_eq!(
        allocate_claimable_rp(&st, &mut ally, &mut ledger, &mut suspicious, 7, 100_000)
            .unwrap_err(),
        RvError::PopDenied
    );
    // More than the custodial balance cannot be reserved.
    let mut soft = PopProfile { user: acct(40), level: 1, last_set_ts: 0 };
    assert_eq!(
        allocate_claimable_rp(&st, &mut ally, &mut ledger, &mut soft, 7, 1_000_001).unwrap_err(),
        RvError::InsufficientVaultBalance
    );
    allocate_claimable_rp(&st, &mut ally, &mut ledger, &mut soft, 7, 1_000_000).unwrap();
    assert_eq!(ally.rp_reserved, 1_000_000);
    // Cancellation frees the reserve again.
    cancel_allocated_rp(&mut ally, &mut ledger, 8, 250_000).unwrap();
    assert_eq!(ally.rp_reserved, 750_000);
    assert_eq!(ledger.rp_claimable_forca, 750_000);
    assert_eq!(
        cancel_allocated_rp(&mut ally, &mut ledger, 8, 800_000).unwrap_err(),
        RvError::InsufficientRP
    );
}

#[test]
fn bonus_points_are_granted_and_consumed() {
    let st = base_state();
    let ally = registered_ally(&st);
    let mut ledger = UserLedger {
        user: acct(0),
        ally_nft_mint: acct(0),
        rp_claimable_forca: 0,
        pp_balance: 0,
        hwm_claimed: 0,
        tax_hwm: 0,
        total_claimed_forca: 0,
        created_ts: 0,
        updated_ts: 0,
    };
    grant_bonus_pp(&ally, &mut ledger, acct(40), 9, 5_000).unwrap();
    assert_eq!(ledger.user, acct(40));
    assert_eq!(ledger.pp_balance, 5_000);
    assert_eq!(ledger.created_ts, 9);
    // A mismatched identity on an existing row is refused.
    assert_eq!(
        grant_bonus_pp(&ally, &mut ledger, acct(41), 9, 1).unwrap_err(),
        RvError::InvalidAuthority
    );
    consume_pp(&ally, &mut ledger, 10, 1_500).unwrap();
    assert_eq!(ledger.pp_balance, 3_500);
    assert_eq!(ledger.updated_ts, 10);
    assert_eq!(consume_pp(&ally, &mut ledger, 10, 4_000).unwrap_err(), RvError::InsufficientPP);
    assert_eq!(consume_pp(&ally, &mut ledger, 10, 0).unwrap_err(), RvError::ZeroAmount);
}
