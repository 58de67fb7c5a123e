use reward_vault::account::AccountId;
use reward_vault::account::TokenAccountView;
use reward_vault::account::push_oracle_program_id;
use reward_vault::account::receiver_program_id;
use reward_vault::account::wsol_mint;
use reward_vault::config::initialize_vault;
use reward_vault::config::set_oracle_config;
use reward_vault::errors::RvError;
use reward_vault::oracle::AttestationLevel;
use reward_vault::oracle::PriceAttestation;
use reward_vault::oracle::parse_anchor_price_message;
use reward_vault::oracle::resolve_forca_usd_e6;
use reward_vault::oracle::verify_convert_quote;
use reward_vault::state::MockOracleSolUsd;
use reward_vault::state::MockPoolForcaSol;
use reward_vault::state::VaultState;

fn acct(n: u64) -> AccountId {
    AccountId { w0: n, w1: 0, w2: 0, w3: 0 }
}

fn att_bytes(full: bool, price: i64, conf: u64, expo: i32, publish_ts: i64) -> Vec<u8> {
    let mut v = vec![0u8; 40];
    if full {
        v.push(1);
    } else {
        v.push(0);
        v.push(7);
    }
    v.extend_from_slice(&[0u8; 32]);
    v.extend_from_slice(&price.to_le_bytes());
    v.extend_from_slice(&conf.to_le_bytes());
    v.extend_from_slice(&expo.to_le_bytes());
    v.extend_from_slice(&publish_ts.to_le_bytes());
    v
}

fn live_state() -> VaultState {
    let (mut st, _) = initialize_vault(acct(11), acct(12), acct(13), 6, 100, 500, 200).unwrap();
    set_oracle_config(
        &mut st,
        true,
        100,
        acct(21),
        acct(22),
        acct(23),
        acct(24),
        false,
        120,
        100,
    )
    .unwrap();
    st
}

fn live_proofs(st: &VaultState, data: Vec<u8>) -> (PriceAttestation, TokenAccountView, TokenAccountView) {
    let attestation = PriceAttestation {
        key: st.pyth_sol_usd_price_feed,
        owner: push_oracle_program_id(),
        data,
    };
    let rf = TokenAccountView {
        key: st.canonical_pool_forca_reserve,
        mint: st.forca_mint,
        owner: st.canonical_pool_forca_sol,
        amount: 1_500_000_000,
    };
    let rs = TokenAccountView {
        key: st.canonical_pool_sol_reserve,
        mint: wsol_mint(),
        owner: st.canonical_pool_forca_sol,
        amount: 10_000_000_000,
    };
    (attestation, rf, rs)
}

#[test]
fn parse_full_record() {
    let data = att_bytes(true, 15_000_000_000, 7, -8, 123_456);
    let m = parse_anchor_price_message(&data).unwrap();
    assert_eq!(m.price, 15_000_000_000);
    assert_eq!(m.conf, 7);
    assert_eq!(m.expo, -8);
    assert_eq!(m.publish_ts, 123_456);
    assert_eq!(m.level, AttestationLevel::Full);
}

#[test]
fn parse_partial_record_keeps_its_extra_byte() {
    let data = att_bytes(false, -42, 1, 3, -9);
    let m = parse_anchor_price_message(&data).unwrap();
    assert_eq!(m.price, -42);
    assert_eq!(m.expo, 3);
    assert_eq!(m.publish_ts, -9);
    assert_eq!(m.level, AttestationLevel::Partial { extra: 7 });
}

#[test]
fn parse_rejects_short_buffers() {
    let data = att_bytes(true, 1, 0, 0, 0);
    assert!(parse_anchor_price_message(&data[..100]).is_none());
    assert!(parse_anchor_price_message(&[]).is_none());
    // A partial record needs one byte more than a full one.
    let partial = att_bytes(false, 1, 0, 0, 0);
    assert!(parse_anchor_price_message(&partial[..101]).is_none());
}

#[test]
fn parse_rejects_unknown_tag_and_zero_price() {
    let mut data = att_bytes(true, 1, 0, 0, 0);
    data[40] = 2;
    assert!(parse_anchor_price_message(&data).is_none());
    let zero = att_bytes(true, 0, 5, -8, 1);
    assert!(parse_anchor_price_message(&zero).is_none());
}

#[test]
fn resolve_returns_the_manual_rate_outside_live_mode() {
    let (st, _) = initialize_vault(acct(11), acct(12), acct(13), 6, 100, 500, 200).unwrap();
    let attestation = PriceAttestation { key: acct(0), owner: acct(0), data: Vec::new() };
    let rf = TokenAccountView { key: acct(0), mint: acct(0), owner: acct(0), amount: 0 };
    let rs = rf;
    let r = resolve_forca_usd_e6(&st, 50, &attestation, acct(0), &rf, &rs);
    assert_eq!(r, Ok(1_000_000));
}

#[test]
fn resolve_combines_attested_price_and_pool_ratio() {
    let st = live_state();
    let now: i64 = 1_000_000;
    let (attestation, rf, rs) = live_proofs(&st, att_bytes(true, 15_000_000_000, 0, -8, now - 10));
    let r = resolve_forca_usd_e6(&st, now, &attestation, acct(22), &rf, &rs);
    // SOL at $150, pool at 150 tokens per SOL: one token is one dollar.
    assert_eq!(r, Ok(1_000_000));
}

#[test]
fn resolve_accepts_the_receiver_program_as_owner() {
    let st = live_state();
    let now: i64 = 1_000_000;
    let (mut attestation, rf, rs) = live_proofs(&st, att_bytes(true, 15_000_000_000, 0, -8, now - 10));
    attestation.owner = receiver_program_id();
    assert!(resolve_forca_usd_e6(&st, now, &attestation, acct(22), &rf, &rs).is_ok());
}

#[test]
fn resolve_rejects_identity_mismatches() {
    let st = live_state();
    let now: i64 = 1_000_000;
    let (attestation, rf, rs) = live_proofs(&st, att_bytes(true, 15_000_000_000, 0, -8, now - 10));
    let mut wrong = PriceAttestation {
        key: acct(99),
        owner: attestation.owner,
        data: attestation.data.clone(),
    };
    assert_eq!(
        resolve_forca_usd_e6(&st, now, &wrong, acct(22), &rf, &rs),
        Err(RvError::OracleKeyMismatch)
    );
    wrong.key = attestation.key;
    assert_eq!(
        resolve_forca_usd_e6(&st, now, &wrong, acct(99), &rf, &rs),
        Err(RvError::OracleKeyMismatch)
    );
    let mut bad_mint = rf;
    bad_mint.mint = acct(99);
    assert_eq!(
        resolve_forca_usd_e6(&st, now, &attestation, acct(22), &bad_mint, &rs),
        Err(RvError::InvalidMint)
    );
    wrong.owner = acct(99);
    assert_eq!(
        resolve_forca_usd_e6(&st, now, &wrong, acct(22), &rf, &rs),
        Err(RvError::OracleParseFailed)
    );
}

#[test]
fn resolve_rejects_stale_and_future_attestations() {
    let st = live_state();
    let now: i64 = 1_000_000;
    let (stale, rf, rs) = live_proofs(&st, att_bytes(true, 15_000_000_000, 0, -8, now - 121));
    assert_eq!(
        resolve_forca_usd_e6(&st, now, &stale, acct(22), &rf, &rs),
        Err(RvError::OracleStale)
    );
    let (future, rf, rs) = live_proofs(&st, att_bytes(true, 15_000_000_000, 0, -8, now + 1));
    assert_eq!(
        resolve_forca_usd_e6(&st, now, &future, acct(22), &rf, &rs),
        Err(RvError::OracleParseFailed)
    );
}

#[test]
fn resolve_rejects_a_wide_confidence_interval() {
    let st = live_state();
    let now: i64 = 1_000_000;
    // Confidence above 1% of the price: 2% here.
    let conf = 300_000_000;
    let (attestation, rf, rs) = live_proofs(&st, att_bytes(true, 15_000_000_000, conf, -8, now - 10));
    assert_eq!(
        resolve_forca_usd_e6(&st, now, &attestation, acct(22), &rf, &rs),
        Err(RvError::OracleConfidenceTooWide)
    );
}

#[test]
fn resolve_rejects_an_empty_sol_reserve() {
    let st = live_state();
    let now: i64 = 1_000_000;
    let (attestation, rf, mut rs) = live_proofs(&st, att_bytes(true, 15_000_000_000, 0, -8, now - 10));
    rs.amount = 0;
    assert_eq!(
        resolve_forca_usd_e6(&st, now, &attestation, acct(22), &rf, &rs),
        Err(RvError::OracleParseFailed)
    );
}

#[test]
fn quote_check_against_mock_sources() {
    let (mut st, _) = initialize_vault(acct(11), acct(12), acct(13), 6, 100, 500, 200).unwrap();
    set_oracle_config(&mut st, true, 100, acct(21), acct(22), acct(23), acct(24), true, 120, 100)
        .unwrap();
    let mo = MockOracleSolUsd { sol_usd_e6: 150_000_000, expo_i32: 8, conf_e8: 1_000, publish_ts: 5 };
    let mp = MockPoolForcaSol {
        forca_per_sol_e6: 150_000_000,
        reserve_forca_e6: 1_000_000_000,
        reserve_sol_e9: 10_000_000_000,
    };
    let attestation = PriceAttestation { key: acct(0), owner: acct(0), data: Vec::new() };
    let rf = TokenAccountView { key: acct(0), mint: acct(0), owner: acct(0), amount: 0 };
    // Within 1% of both mock references.
    let ok = verify_convert_quote(
        &st, 10, 150_500_000, 149_000_000, &mo, &mp, &attestation, acct(0), &rf, &rf,
    );
    assert!(ok.is_ok());
    // The asserted price strays beyond 1%.
    let bad = verify_convert_quote(
        &st, 10, 152_000_000, 150_000_000, &mo, &mp, &attestation, acct(0), &rf, &rf,
    );
    assert_eq!(bad, Err(RvError::OracleOutOfTolerance));
}

#[test]
fn quote_check_against_live_sources() {
    let st = live_state();
    let now: i64 = 1_000_000;
    let (attestation, rf, rs) = live_proofs(&st, att_bytes(true, 15_000_000_000, 0, -8, now - 10));
    let mo = MockOracleSolUsd { sol_usd_e6: 0, expo_i32: 0, conf_e8: 0, publish_ts: 0 };
    let mp = MockPoolForcaSol { forca_per_sol_e6: 0, reserve_forca_e6: 0, reserve_sol_e9: 0 };
    // Derived: SOL at 150_000_000 micro-USD, pool at 150_000_000 micro-ratio.
    let ev = verify_convert_quote(
        &st, now, 150_000_000, 150_000_000, &mo, &mp, &attestation, acct(22), &rf, &rs,
    )
    .unwrap();
    assert_eq!(ev.pyth_publish_ts, now - 10);
    assert_eq!(ev.pyth_expo_i32, -8);
    let bad_ratio = verify_convert_quote(
        &st, now, 150_000_000, 148_000_000, &mo, &mp, &attestation, acct(22), &rf, &rs,
    );
    assert_eq!(bad_ratio, Err(RvError::OracleOutOfTolerance));
}
