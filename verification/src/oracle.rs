//! Price attestation parsing and USD-rate resolution.
//!
//! An attested price arrives as a byte record in a fixed little-endian
//! layout: an 8-byte discriminator, a 32-byte write authority, a one-byte
//! verification-level tag (0 = partial, carrying one extra byte; 1 = full), a
//! 32-byte feed identity, then price (i64), confidence (u64), exponent (i32)
//! and publish time (i64).  A parsed price is cross-validated for freshness
//! and confidence, scaled to micro-USD, and combined with a liquidity-pool
//! reserve ratio into an authoritative USD-per-token micro-rate.

use vstd::prelude::*;
use vstd::bytes::spec_u32_from_le_bytes;
use vstd::bytes::spec_u64_from_le_bytes;
use vstd::bytes::u32_from_le_bytes;
use vstd::bytes::u64_from_le_bytes;
use vstd::slice::slice_index_get;
use vstd::slice::slice_subrange;

use crate::account::AccountId;
use crate::account::TokenAccountView;
use crate::account::spec_push_oracle_program_id;
use crate::account::spec_receiver_program_id;
use crate::account::spec_wsol_mint;
use crate::account::push_oracle_program_id;
use crate::account::receiver_program_id;
use crate::account::wsol_mint;
use crate::errors::RvError;
use crate::math::spec_abs;
use crate::math::spec_scale_price_to_e6;
use crate::math::conf_bps_from_price;
use crate::math::scale_price_to_e6;
use crate::math::within_bps;
use crate::math::spec_within_bps;
use crate::state::MockOracleSolUsd;
use crate::state::MockPoolForcaSol;
use crate::state::VaultState;

verus! {

/// Verification level of an attestation record.
#[derive(Clone, Copy, PartialEq, Eq, Structural, Debug)]
pub enum AttestationLevel {
    /// Partially verified, with its extra level byte.
    Partial { extra: u8 },
    /// Fully verified.
    Full,
}

/// The fields of a parsed price attestation.
#[derive(Clone, Copy, PartialEq, Eq, Structural, Debug)]
pub struct PriceMessage {
    /// Attested price mantissa; never zero in a parsed message.
    pub price: i64,
    /// Confidence interval around the price, same scale as the price.
    pub conf: u64,
    /// Decimal exponent of the price.
    pub expo: i32,
    /// Publish time, seconds since the epoch.
    pub publish_ts: i64,
    /// Verification level of the record.
    pub level: AttestationLevel,
}

/// An attestation account as handed over by the host: its address, its
/// owning program, and its raw record bytes.
pub struct PriceAttestation {
    pub key: AccountId,
    pub owner: AccountId,
    pub data: Vec<u8>,
}

/// Two's-complement reinterpretation of 8 little-endian bytes.
pub open spec fn spec_i64_from_le_bytes(s: Seq<u8>) -> int {
    let raw = spec_u64_from_le_bytes(s);
    if raw <= i64::MAX {
        raw as int
    } else {
        raw - 0x1_0000_0000_0000_0000
    }
}

/// Two's-complement reinterpretation of 4 little-endian bytes.
pub open spec fn spec_i32_from_le_bytes(s: Seq<u8>) -> int {
    let raw = spec_u32_from_le_bytes(s);
    if raw <= i32::MAX {
        raw as int
    } else {
        raw - 0x1_0000_0000
    }
}

fn i64_from_le_bytes(s: &[u8]) -> (x: i64)
    requires
        s@.len() == 8,
    ensures
        x as int == spec_i64_from_le_bytes(s@),
{
    let raw = u64_from_le_bytes(s);
    if raw <= i64::MAX as u64 {
        raw as i64
    } else {
        ((raw as i128) - 0x1_0000_0000_0000_0000i128) as i64
    }
}

fn i32_from_le_bytes(s: &[u8]) -> (x: i32)
    requires
        s@.len() == 4,
    ensures
        x as int == spec_i32_from_le_bytes(s@),
{
    let raw = u32_from_le_bytes(s);
    if raw <= i32::MAX as u32 {
        raw as i32
    } else {
        ((raw as i64) - 0x1_0000_0000i64) as i32
    }
}

/// Message fields read at byte offset `off` of the record.
pub open spec fn spec_message_fields(data: Seq<u8>, off: int, level: AttestationLevel) -> PriceMessage {
    PriceMessage {
        price: spec_i64_from_le_bytes(data.subrange(off + 32, off + 40)) as i64,
        conf: spec_u64_from_le_bytes(data.subrange(off + 40, off + 48)),
        expo: spec_i32_from_le_bytes(data.subrange(off + 48, off + 52)) as i32,
        publish_ts: spec_i64_from_le_bytes(data.subrange(off + 52, off + 60)) as i64,
        level,
    }
}

/// The parse of an attestation record: `None` when the buffer is shorter
/// than any required field, the level tag is unrecognized, or the price is
/// exactly zero (no data).
pub open spec fn spec_parse_attestation(data: Seq<u8>) -> Option<PriceMessage> {
    if data.len() < 101 {
        None
    } else {
        let tag = data[40];
        if tag == 0 {
            if data.len() < 102 {
                None
            } else {
                let m = spec_message_fields(data, 42, AttestationLevel::Partial { extra: data[41] });
                if m.price == 0 {
                    None
                } else {
                    Some(m)
                }
            }
        } else if tag == 1 {
            let m = spec_message_fields(data, 41, AttestationLevel::Full);
            if m.price == 0 {
                None
            } else {
                Some(m)
            }
        } else {
            None
        }
    }
}

/// Parse of a push-oracle attestation record in its fixed binary layout.
pub fn parse_anchor_price_message(data: &[u8]) -> (r: Option<PriceMessage>)
    ensures
        r == spec_parse_attestation(data@),
{
    if data.len() < 101 {
        return None;
    }
    let tag: u8 = *slice_index_get(data, 40);
    let (off, level): (usize, AttestationLevel) = if tag == 0 {
        if data.len() < 102 {
            return None;
        }
        let extra: u8 = *slice_index_get(data, 41);
        (42, AttestationLevel::Partial { extra })
    } else if tag == 1 {
        (41, AttestationLevel::Full)
    } else {
        return None;
    };
    let price = i64_from_le_bytes(slice_subrange(data, off + 32, off + 40));
    let conf = u64_from_le_bytes(slice_subrange(data, off + 40, off + 48));
    let expo = i32_from_le_bytes(slice_subrange(data, off + 48, off + 52));
    let publish_ts = i64_from_le_bytes(slice_subrange(data, off + 52, off + 60));
    if price == 0 {
        return None;
    }
    Some(PriceMessage { price, conf, expo, publish_ts, level })
}

/// The authoritative USD-per-token micro-rate resolution.  In live mode the
/// attestation and pool proofs must match the configured canonical
/// identities, parse, be fresh and confident, and combine into a positive
/// rate; otherwise the manually configured rate is authoritative.
pub open spec fn spec_resolve_forca_usd_e6(
    st: VaultState,
    now: int,
    att_key: AccountId,
    att_owner: AccountId,
    data: Seq<u8>,
    pool_key: AccountId,
    rf: TokenAccountView,
    rs: TokenAccountView,
) -> Result<u64, RvError> {
    if !(st.verify_prices && !st.use_mock_oracle) {
        Ok(st.forca_usd_e6)
    } else if att_key != st.pyth_sol_usd_price_feed {
        Err(RvError::OracleKeyMismatch)
    } else if pool_key != st.canonical_pool_forca_sol {
        Err(RvError::OracleKeyMismatch)
    } else if rf.key != st.canonical_pool_forca_reserve {
        Err(RvError::OracleKeyMismatch)
    } else if rs.key != st.canonical_pool_sol_reserve {
        Err(RvError::OracleKeyMismatch)
    } else if rf.mint != st.forca_mint {
        Err(RvError::InvalidMint)
    } else if rs.mint != spec_wsol_mint() {
        Err(RvError::InvalidMint)
    } else if rf.owner != st.canonical_pool_forca_sol {
        Err(RvError::OracleKeyMismatch)
    } else if rs.owner != st.canonical_pool_forca_sol {
        Err(RvError::OracleKeyMismatch)
    } else if att_owner != spec_push_oracle_program_id() && att_owner != spec_receiver_program_id() {
        Err(RvError::OracleParseFailed)
    } else {
        match spec_parse_attestation(data) {
            None => Err(RvError::OracleParseFailed),
            Some(m) => spec_resolve_from_message(st, now, m, rf.amount as int, rs.amount as int),
        }
    }
}

/// Freshness, confidence, scaling and pool combination of a parsed message.
pub open spec fn spec_resolve_from_message(
    st: VaultState,
    now: int,
    m: PriceMessage,
    rf_amount: int,
    rs_amount: int,
) -> Result<u64, RvError> {
    if m.publish_ts > now {
        Err(RvError::OracleParseFailed)
    } else if now - m.publish_ts > i64::MAX {
        Err(RvError::Overflow)
    } else if now - m.publish_ts > st.pyth_max_stale_secs {
        Err(RvError::OracleStale)
    } else if st.pyth_max_confidence_bps > 0 && m.conf * 10000 / spec_abs(m.price as int)
        > st.pyth_max_confidence_bps {
        Err(RvError::OracleConfidenceTooWide)
    } else {
        match spec_scale_price_to_e6(m.price as int, m.expo as int) {
            None => Err(RvError::OracleParseFailed),
            Some(sol_usd_e6) => {
                if sol_usd_e6 == 0 {
                    Err(RvError::OracleParseFailed)
                } else if rs_amount == 0 {
                    Err(RvError::OracleParseFailed)
                } else {
                    let derived_forca_per_sol = rf_amount * 1_000_000_000 / rs_amount;
                    if derived_forca_per_sol == 0 {
                        Err(RvError::OracleParseFailed)
                    } else {
                        let forca_usd = sol_usd_e6 * 1_000_000 / derived_forca_per_sol;
                        if forca_usd == 0 {
                            Err(RvError::OracleParseFailed)
                        } else if forca_usd > u64::MAX {
                            Err(RvError::Overflow)
                        } else {
                            Ok(forca_usd as u64)
                        }
                    }
                }
            },
        }
    }
}

/// Resolution of the authoritative USD-per-token micro-rate from the live
/// oracle and pool proofs, or the manual rate outside live mode.
pub fn resolve_forca_usd_e6(
    st: &VaultState,
    now: i64,
    attestation: &PriceAttestation,
    pool_key: AccountId,
    pool_forca_reserve: &TokenAccountView,
    pool_sol_reserve: &TokenAccountView,
) -> (r: Result<u64, RvError>)
    ensures
        r == spec_resolve_forca_usd_e6(
            *st,
            now as int,
            attestation.key,
            attestation.owner,
            attestation.data@,
            pool_key,
            *pool_forca_reserve,
            *pool_sol_reserve,
        ),
{
    if !(st.verify_prices && !st.use_mock_oracle) {
        return Ok(st.forca_usd_e6);
    }
    if attestation.key != st.pyth_sol_usd_price_feed {
        return Err(RvError::OracleKeyMismatch);
    }
    if pool_key != st.canonical_pool_forca_sol {
        return Err(RvError::OracleKeyMismatch);
    }
    if pool_forca_reserve.key != st.canonical_pool_forca_reserve {
        return Err(RvError::OracleKeyMismatch);
    }
    if pool_sol_reserve.key != st.canonical_pool_sol_reserve {
        return Err(RvError::OracleKeyMismatch);
    }
    if pool_forca_reserve.mint != st.forca_mint {
        return Err(RvError::InvalidMint);
    }
    if pool_sol_reserve.mint != wsol_mint() {
        return Err(RvError::InvalidMint);
    }
    if pool_forca_reserve.owner != st.canonical_pool_forca_sol {
        return Err(RvError::OracleKeyMismatch);
    }
    if pool_sol_reserve.owner != st.canonical_pool_forca_sol {
        return Err(RvError::OracleKeyMismatch);
    }
    if !(attestation.owner == push_oracle_program_id() || attestation.owner
        == receiver_program_id()) {
        return Err(RvError::OracleParseFailed);
    }
    let m = match parse_anchor_price_message(attestation.data.as_slice()) {
        Some(m) => m,
        None => {
            return Err(RvError::OracleParseFailed);
        },
    };
    resolve_from_message(st, now, &m, pool_forca_reserve.amount, pool_sol_reserve.amount)
}

fn resolve_from_message(
    st: &VaultState,
    now: i64,
    m: &PriceMessage,
    rf_amount: u64,
    rs_amount: u64,
) -> (r: Result<u64, RvError>)
    requires
        m.price != 0,
    ensures
        r == spec_resolve_from_message(*st, now as int, *m, rf_amount as int, rs_amount as int),
{
    if m.publish_ts > now {
        return Err(RvError::OracleParseFailed);
    }
    let age: u64 = match now.checked_sub(m.publish_ts) {
        Some(a) => a as u64,
        None => {
            return Err(RvError::Overflow);
        },
    };
    if age > st.pyth_max_stale_secs {
        return Err(RvError::OracleStale);
    }
    if st.pyth_max_confidence_bps > 0 {
        let conf_bps = match conf_bps_from_price(m.price, m.conf) {
            Some(c) => c,
            None => {
                return Err(RvError::OracleParseFailed);
            },
        };
        if conf_bps > st.pyth_max_confidence_bps as u128 {
            return Err(RvError::OracleConfidenceTooWide);
        }
    }
    let sol_usd_e6 = match scale_price_to_e6(m.price, m.expo) {
        Some(v) => v,
        None => {
            return Err(RvError::OracleParseFailed);
        },
    };
    if sol_usd_e6 == 0 {
        return Err(RvError::OracleParseFailed);
    }
    if rs_amount == 0 {
        return Err(RvError::OracleParseFailed);
    }
    proof {
        crate::math::lemma_mul_le(rf_amount as int, 1_000_000_000, u64::MAX as int, 1_000_000_000);
        crate::math::lemma_mul_le(sol_usd_e6 as int, 1_000_000, u64::MAX as int, 1_000_000);
        crate::math::lemma_div_le_dividend((rf_amount as int) * 1_000_000_000, rs_amount as int);
    }
    let derived_forca_per_sol: u128 = (rf_amount as u128) * 1_000_000_000u128 / (rs_amount as u128);
    if derived_forca_per_sol == 0 {
        return Err(RvError::OracleParseFailed);
    }
    let forca_usd: u128 = (sol_usd_e6 as u128) * (crate::math::MICRO_SCALE as u128) / derived_forca_per_sol;
    if forca_usd == 0 {
        return Err(RvError::OracleParseFailed);
    }
    if forca_usd > u64::MAX as u128 {
        return Err(RvError::Overflow);
    }
    Ok(forca_usd as u64)
}

/// Attestation evidence carried into the conversion audit record: zeros in
/// mock mode, the parsed message fields in live mode.
#[derive(Clone, Copy, PartialEq, Eq, Structural, Debug)]
pub struct QuoteEvidence {
    pub pyth_expo_i32: i32,
    pub pyth_conf_e8: u64,
    pub pyth_publish_ts: i64,
}

impl QuoteEvidence {
    /// The empty evidence of the mock path.
    pub open spec fn spec_empty() -> QuoteEvidence {
        QuoteEvidence { pyth_expo_i32: 0, pyth_conf_e8: 0, pyth_publish_ts: 0 }
    }
}

/// Cross-check of a caller-asserted (price, ratio) quote against the mock
/// sources or the live attestation and pool proofs, banded by the configured
/// tolerance relative to each derived value.
pub open spec fn spec_verify_convert_quote(
    st: VaultState,
    now: int,
    sol_price_usd_e6: int,
    forca_per_sol_e6: int,
    mock_oracle_sol: MockOracleSolUsd,
    mock_pool_forca: MockPoolForcaSol,
    att_key: AccountId,
    att_owner: AccountId,
    data: Seq<u8>,
    pool_key: AccountId,
    rf: TokenAccountView,
    rs: TokenAccountView,
) -> Result<QuoteEvidence, RvError> {
    if !st.verify_prices {
        Ok(QuoteEvidence::spec_empty())
    } else if st.use_mock_oracle {
        if !spec_within_bps(
            sol_price_usd_e6,
            mock_oracle_sol.sol_usd_e6 as int,
            st.oracle_tolerance_bps as int,
        ) {
            Err(RvError::OracleOutOfTolerance)
        } else if !spec_within_bps(
            forca_per_sol_e6,
            mock_pool_forca.forca_per_sol_e6 as int,
            st.oracle_tolerance_bps as int,
        ) {
            Err(RvError::OracleOutOfTolerance)
        } else {
            Ok(QuoteEvidence::spec_empty())
        }
    } else if att_key != st.pyth_sol_usd_price_feed {
        Err(RvError::OracleKeyMismatch)
    } else if pool_key != st.canonical_pool_forca_sol {
        Err(RvError::OracleKeyMismatch)
    } else if rf.key != st.canonical_pool_forca_reserve {
        Err(RvError::OracleKeyMismatch)
    } else if rs.key != st.canonical_pool_sol_reserve {
        Err(RvError::OracleKeyMismatch)
    } else if rf.mint != st.forca_mint {
        Err(RvError::InvalidMint)
    } else if rs.mint != spec_wsol_mint() {
        Err(RvError::InvalidMint)
    } else if rf.owner != st.canonical_pool_forca_sol {
        Err(RvError::OracleKeyMismatch)
    } else if rs.owner != st.canonical_pool_forca_sol {
        Err(RvError::OracleKeyMismatch)
    } else if att_owner != spec_push_oracle_program_id() && att_owner != spec_receiver_program_id() {
        Err(RvError::OracleParseFailed)
    } else {
        match spec_parse_attestation(data) {
            None => Err(RvError::OracleParseFailed),
            Some(m) => spec_verify_quote_from_message(
                st,
                now,
                sol_price_usd_e6,
                forca_per_sol_e6,
                m,
                rf.amount as int,
                rs.amount as int,
            ),
        }
    }
}

/// Freshness, confidence and tolerance checks of a live quote against a
/// parsed message and the pool reserves.
pub open spec fn spec_verify_quote_from_message(
    st: VaultState,
    now: int,
    sol_price_usd_e6: int,
    forca_per_sol_e6: int,
    m: PriceMessage,
    rf_amount: int,
    rs_amount: int,
) -> Result<QuoteEvidence, RvError> {
    if m.publish_ts > now {
        Err(RvError::OracleParseFailed)
    } else if now - m.publish_ts > i64::MAX {
        Err(RvError::Overflow)
    } else if now - m.publish_ts > st.pyth_max_stale_secs {
        Err(RvError::OracleStale)
    } else if st.pyth_max_confidence_bps > 0 && m.conf * 10000 / spec_abs(m.price as int)
        > st.pyth_max_confidence_bps {
        Err(RvError::OracleConfidenceTooWide)
    } else {
        match spec_scale_price_to_e6(m.price as int, m.expo as int) {
            None => Err(RvError::OracleParseFailed),
            Some(derived_sol_usd_e6) => {
                if !spec_within_bps(
                    sol_price_usd_e6,
                    derived_sol_usd_e6 as int,
                    st.oracle_tolerance_bps as int,
                ) {
                    Err(RvError::OracleOutOfTolerance)
                } else if rs_amount == 0 {
                    Err(RvError::OracleParseFailed)
                } else {
                    let derived = rf_amount * 1_000_000_000 / rs_amount;
                    if derived > u64::MAX {
                        Err(RvError::Overflow)
                    } else if !spec_within_bps(
                        forca_per_sol_e6,
                        derived,
                        st.oracle_tolerance_bps as int,
                    ) {
                        Err(RvError::OracleOutOfTolerance)
                    } else {
                        Ok(QuoteEvidence {
                            pyth_expo_i32: m.expo,
                            pyth_conf_e8: m.conf,
                            pyth_publish_ts: m.publish_ts,
                        })
                    }
                }
            },
        }
    }
}

/// Cross-check of a caller-asserted quote for a conversion.
pub fn verify_convert_quote(
    st: &VaultState,
    now: i64,
    sol_price_usd_e6: u64,
    forca_per_sol_e6: u64,
    mock_oracle_sol: &MockOracleSolUsd,
    mock_pool_forca: &MockPoolForcaSol,
    attestation: &PriceAttestation,
    pool_key: AccountId,
    pool_forca_reserve: &TokenAccountView,
    pool_sol_reserve: &TokenAccountView,
) -> (r: Result<QuoteEvidence, RvError>)
    ensures
        r == spec_verify_convert_quote(
            *st,
            now as int,
            sol_price_usd_e6 as int,
            forca_per_sol_e6 as int,
            *mock_oracle_sol,
            *mock_pool_forca,
            attestation.key,
            attestation.owner,
            attestation.data@,
            pool_key,
            *pool_forca_reserve,
            *pool_sol_reserve,
        ),
{
    if !st.verify_prices {
        return Ok(QuoteEvidence { pyth_expo_i32: 0, pyth_conf_e8: 0, pyth_publish_ts: 0 });
    }
    if st.use_mock_oracle {
        if !within_bps(sol_price_usd_e6, mock_oracle_sol.sol_usd_e6, st.oracle_tolerance_bps) {
            return Err(RvError::OracleOutOfTolerance);
        }
        if !within_bps(forca_per_sol_e6, mock_pool_forca.forca_per_sol_e6, st.oracle_tolerance_bps) {
            return Err(RvError::OracleOutOfTolerance);
        }
        return Ok(QuoteEvidence { pyth_expo_i32: 0, pyth_conf_e8: 0, pyth_publish_ts: 0 });
    }
    if attestation.key != st.pyth_sol_usd_price_feed {
        return Err(RvError::OracleKeyMismatch);
    }
    if pool_key != st.canonical_pool_forca_sol {
        return Err(RvError::OracleKeyMismatch);
    }
    if pool_forca_reserve.key != st.canonical_pool_forca_reserve {
        return Err(RvError::OracleKeyMismatch);
    }
    if pool_sol_reserve.key != st.canonical_pool_sol_reserve {
        return Err(RvError::OracleKeyMismatch);
    }
    if pool_forca_reserve.mint != st.forca_mint {
        return Err(RvError::InvalidMint);
    }
    if pool_sol_reserve.mint != wsol_mint() {
        return Err(RvError::InvalidMint);
    }
    if pool_forca_reserve.owner != st.canonical_pool_forca_sol {
        return Err(RvError::OracleKeyMismatch);
    }
    if pool_sol_reserve.owner != st.canonical_pool_forca_sol {
        return Err(RvError::OracleKeyMismatch);
    }
    if !(attestation.owner == push_oracle_program_id() || attestation.owner
        == receiver_program_id()) {
        return Err(RvError::OracleParseFailed);
    }
    let m = match parse_anchor_price_message(attestation.data.as_slice()) {
        Some(m) => m,
        None => {
            return Err(RvError::OracleParseFailed);
        },
    };
    if m.publish_ts > now {
        return Err(RvError::OracleParseFailed);
    }
    let age: u64 = match now.checked_sub(m.publish_ts) {
        Some(a) => a as u64,
        None => {
            return Err(RvError::Overflow);
        },
    };
    if age > st.pyth_max_stale_secs {
        return Err(RvError::OracleStale);
    }
    if st.pyth_max_confidence_bps > 0 {
        let conf_bps = match conf_bps_from_price(m.price, m.conf) {
            Some(c) => c,
            None => {
                return Err(RvError::OracleParseFailed);
            },
        };
        if conf_bps > st.pyth_max_confidence_bps as u128 {
            return Err(RvError::OracleConfidenceTooWide);
        }
    }
    let derived_sol_usd_e6 = match scale_price_to_e6(m.price, m.expo) {
        Some(v) => v,
        None => {
            return Err(RvError::OracleParseFailed);
        },
    };
    if !within_bps(sol_price_usd_e6, derived_sol_usd_e6, st.oracle_tolerance_bps) {
        return Err(RvError::OracleOutOfTolerance);
    }
    if pool_sol_reserve.amount == 0 {
        return Err(RvError::OracleParseFailed);
    }
    proof {
        crate::math::lemma_mul_le(
            pool_forca_reserve.amount as int,
            1_000_000_000,
            u64::MAX as int,
            1_000_000_000,
        );
    }
    let derived: u128 = (pool_forca_reserve.amount as u128) * 1_000_000_000u128 / (
    pool_sol_reserve.amount as u128);
    if derived > u64::MAX as u128 {
        return Err(RvError::Overflow);
    }
    let derived_u64: u64 = derived as u64;
    if !within_bps(forca_per_sol_e6, derived_u64, st.oracle_tolerance_bps) {
        return Err(RvError::OracleOutOfTolerance);
    }
    Ok(QuoteEvidence { pyth_expo_i32: m.expo, pyth_conf_e8: m.conf, pyth_publish_ts: m.publish_ts })
}

} // verus!
