//! Custody and points bookkeeping around the settlement engine: deposits and
//! withdrawals of the counterparty's custodial balance, allocation and
//! cancellation of claimable points, bonus grants, and consumption of points.
//!
//! Every operation validates fully, then commits, or changes nothing; the
//! reserved sub-balance never exceeds the custodial balance afterwards.

use vstd::prelude::*;

use crate::account::AccountId;
use crate::account::TokenAccountView;
use crate::errors::RvError;
use crate::events::AllocateRPEvent;
use crate::events::AllyDepositEvent;
use crate::events::AllyWithdrawEvent;
use crate::events::CancelRPEvent;
use crate::events::ConsumePPEvent;
use crate::events::GrantBonusPPEvent;
use crate::state::AllyAccount;
use crate::state::PopLevel;
use crate::state::PopProfile;
use crate::state::UserLedger;
use crate::state::VaultState;
use crate::state::pop_level_code;
use crate::state::spec_pop_level_code;

verus! {

/// A counterparty deposit into custody: the treasury and vault accounts must
/// carry the configured mint, the vault account must be the counterparty's,
/// and the balance grows by the amount without passing 64 bits.
pub open spec fn spec_deposit_forca(
    st: VaultState,
    ally: AllyAccount,
    ally_treasury_ata: TokenAccountView,
    ally_vault_ata: TokenAccountView,
    amount: int,
) -> Result<AllyAccount, RvError> {
    if amount == 0 {
        Err(RvError::ZeroAmount)
    } else if st.forca_mint != ally_treasury_ata.mint {
        Err(RvError::InvalidMint)
    } else if st.forca_mint != ally_vault_ata.mint {
        Err(RvError::InvalidMint)
    } else if ally_vault_ata.key != ally.vault_ata {
        Err(RvError::InvalidVaultAta)
    } else if ally.balance_forca + amount > u64::MAX {
        Err(RvError::Overflow)
    } else if ally.balance_forca + amount < ally.rp_reserved {
        Err(RvError::InsufficientUnreservedBalance)
    } else {
        Ok(AllyAccount { balance_forca: (ally.balance_forca + amount) as u64, ..ally })
    }
}

/// Deposit of tokens into the counterparty's custodial balance.
pub fn deposit_forca(
    st: &VaultState,
    ally: &mut AllyAccount,
    ally_treasury_ata: &TokenAccountView,
    ally_vault_ata: &TokenAccountView,
    amount: u64,
) -> (r: Result<AllyDepositEvent, RvError>)
    ensures
        (match spec_deposit_forca(
            *st,
            *old(ally),
            *ally_treasury_ata,
            *ally_vault_ata,
            amount as int,
        ) {
            Ok(a) => {
                &&& r == Ok::<AllyDepositEvent, RvError>(
                    AllyDepositEvent { ally_nft_mint: old(ally).nft_mint, amount },
                )
                &&& *final(ally) == a
            },
            Err(e) => {
                &&& r == Err::<AllyDepositEvent, RvError>(e)
                &&& *final(ally) == *old(ally)
            },
        }),
        r is Ok && old(ally).wf() ==> final(ally).wf(),
{
    if amount == 0 {
        return Err(RvError::ZeroAmount);
    }
    if st.forca_mint != ally_treasury_ata.mint {
        return Err(RvError::InvalidMint);
    }
    if st.forca_mint != ally_vault_ata.mint {
        return Err(RvError::InvalidMint);
    }
    if ally_vault_ata.key != ally.vault_ata {
        return Err(RvError::InvalidVaultAta);
    }
    let new_balance: u64 = match ally.balance_forca.checked_add(amount) {
        Some(b) => b,
        None => {
            return Err(RvError::Overflow);
        },
    };
    if new_balance < ally.rp_reserved {
        return Err(RvError::InsufficientUnreservedBalance);
    }
    let event = AllyDepositEvent { ally_nft_mint: ally.nft_mint, amount };
    ally.balance_forca = new_balance;
    Ok(event)
}

/// A counterparty withdrawal from custody: only what is not reserved for
/// pending claims may leave.
pub open spec fn spec_withdraw_forca(
    ally: AllyAccount,
    ally_vault_ata: TokenAccountView,
    amount: int,
) -> Result<AllyAccount, RvError> {
    if amount == 0 {
        Err(RvError::ZeroAmount)
    } else if ally_vault_ata.key != ally.vault_ata {
        Err(RvError::InvalidVaultAta)
    } else if ally.balance_forca < amount {
        Err(RvError::InsufficientAllyBalance)
    } else if ally.balance_forca - amount < ally.rp_reserved {
        Err(RvError::InsufficientUnreservedBalance)
    } else {
        Ok(AllyAccount { balance_forca: (ally.balance_forca - amount) as u64, ..ally })
    }
}

/// Withdrawal of unreserved tokens from the counterparty's custodial balance.
pub fn withdraw_forca(
    ally: &mut AllyAccount,
    ally_vault_ata: &TokenAccountView,
    amount: u64,
) -> (r: Result<AllyWithdrawEvent, RvError>)
    ensures
        (match spec_withdraw_forca(*old(ally), *ally_vault_ata, amount as int) {
            Ok(a) => {
                &&& r == Ok::<AllyWithdrawEvent, RvError>(
                    AllyWithdrawEvent { ally_nft_mint: old(ally).nft_mint, amount },
                )
                &&& *final(ally) == a
            },
            Err(e) => {
                &&& r == Err::<AllyWithdrawEvent, RvError>(e)
                &&& *final(ally) == *old(ally)
            },
        }),
        r is Ok && old(ally).wf() ==> final(ally).wf(),
{
    if amount == 0 {
        return Err(RvError::ZeroAmount);
    }
    if ally_vault_ata.key != ally.vault_ata {
        return Err(RvError::InvalidVaultAta);
    }
    if ally.balance_forca < amount {
        return Err(RvError::InsufficientAllyBalance);
    }
    let remaining: u64 = ally.balance_forca - amount;
    if remaining < ally.rp_reserved {
        return Err(RvError::InsufficientUnreservedBalance);
    }
    let event = AllyWithdrawEvent { ally_nft_mint: ally.nft_mint, amount };
    ally.balance_forca = remaining;
    Ok(event)
}

/// Allocation of claimable points to an identity's ledger: the row must
/// exist and belong to the counterparty; where the counterparty enforces risk
/// gating, the identity's tier must be soft or strong; the allocated amount
/// is reserved against the custodial balance.
pub open spec fn spec_allocate_claimable_rp(
    st: VaultState,
    ally: AllyAccount,
    ledger: UserLedger,
    pop: PopProfile,
    now: int,
    amount: int,
) -> Result<(AllyAccount, UserLedger, PopProfile), RvError> {
    if st.paused {
        Err(RvError::Paused)
    } else if amount == 0 {
        Err(RvError::ZeroAmount)
    } else if ledger.user == AccountId::spec_zero() {
        Err(RvError::InvalidAuthority)
    } else if ledger.ally_nft_mint != ally.nft_mint {
        Err(RvError::InvalidAuthority)
    } else {
        let pop1 = if pop.user == AccountId::spec_zero() {
            PopProfile { user: ledger.user, ..pop }
        } else {
            pop
        };
        if ally.pop_enforced && !(pop1.level == spec_pop_level_code(PopLevel::Soft) || pop1.level
            == spec_pop_level_code(PopLevel::Strong)) {
            Err(RvError::PopDenied)
        } else if ally.rp_reserved + amount > u64::MAX {
            Err(RvError::Overflow)
        } else if ally.balance_forca < ally.rp_reserved + amount {
            Err(RvError::InsufficientVaultBalance)
        } else if ledger.rp_claimable_forca + amount > u64::MAX {
            Err(RvError::Overflow)
        } else {
            Ok(
                (
                    AllyAccount { rp_reserved: (ally.rp_reserved + amount) as u64, ..ally },
                    UserLedger {
                        rp_claimable_forca: (ledger.rp_claimable_forca + amount) as u64,
                        updated_ts: now as i64,
                        ..ledger
                    },
                    pop1,
                ),
            )
        }
    }
}

/// Allocation of claimable points, reserving custody for their future claim.
pub fn allocate_claimable_rp(
    st: &VaultState,
    ally: &mut AllyAccount,
    ledger: &mut UserLedger,
    pop_profile: &mut PopProfile,
    now: i64,
    forca_equiv_amount: u64,
) -> (r: Result<AllocateRPEvent, RvError>)
    ensures
        (match spec_allocate_claimable_rp(
            *st,
            *old(ally),
            *old(ledger),
            *old(pop_profile),
            now as int,
            forca_equiv_amount as int,
        ) {
            Ok(o) => {
                &&& r == Ok::<AllocateRPEvent, RvError>(
                    AllocateRPEvent {
                        user: old(ledger).user,
                        ally_nft_mint: old(ledger).ally_nft_mint,
                        forca_equiv_amount,
                    },
                )
                &&& *final(ally) == o.0
                &&& *final(ledger) == o.1
                &&& *final(pop_profile) == o.2
            },
            Err(e) => {
                &&& r == Err::<AllocateRPEvent, RvError>(e)
                &&& *final(ally) == *old(ally)
                &&& *final(ledger) == *old(ledger)
                &&& *final(pop_profile) == *old(pop_profile)
            },
        }),
        r is Ok && old(ally).wf() ==> final(ally).wf(),
{
    if st.paused {
        return Err(RvError::Paused);
    }
    if forca_equiv_amount == 0 {
        return Err(RvError::ZeroAmount);
    }
    if ledger.user.is_zero() {
        return Err(RvError::InvalidAuthority);
    }
    if ledger.ally_nft_mint != ally.nft_mint {
        return Err(RvError::InvalidAuthority);
    }
    let pop1: PopProfile = if pop_profile.user.is_zero() {
        PopProfile {
            user: ledger.user,
            level: pop_profile.level,
            last_set_ts: pop_profile.last_set_ts,
        }
    } else {
        *pop_profile
    };
    if ally.pop_enforced {
        let soft = pop_level_code(PopLevel::Soft);
        let strong = pop_level_code(PopLevel::Strong);
        if !(pop1.level == soft || pop1.level == strong) {
            return Err(RvError::PopDenied);
        }
    }
    let new_reserved: u64 = match ally.rp_reserved.checked_add(forca_equiv_amount) {
        Some(v) => v,
        None => {
            return Err(RvError::Overflow);
        },
    };
    if ally.balance_forca < new_reserved {
        return Err(RvError::InsufficientVaultBalance);
    }
    let new_claimable: u64 = match ledger.rp_claimable_forca.checked_add(forca_equiv_amount) {
        Some(v) => v,
        None => {
            return Err(RvError::Overflow);
        },
    };
    let event = AllocateRPEvent {
        user: ledger.user,
        ally_nft_mint: ledger.ally_nft_mint,
        forca_equiv_amount,
    };
    ally.rp_reserved = new_reserved;
    ledger.rp_claimable_forca = new_claimable;
    ledger.updated_ts = now;
    *pop_profile = pop1;
    Ok(event)
}

/// Cancellation of allocated but unclaimed points, freeing the reserve.
pub open spec fn spec_cancel_allocated_rp(
    ally: AllyAccount,
    ledger: UserLedger,
    now: int,
    amount: int,
) -> Result<(AllyAccount, UserLedger), RvError> {
    if amount == 0 {
        Err(RvError::ZeroAmount)
    } else if ledger.user == AccountId::spec_zero() {
        Err(RvError::InvalidAuthority)
    } else if ledger.ally_nft_mint != ally.nft_mint {
        Err(RvError::InvalidAuthority)
    } else if ledger.rp_claimable_forca < amount {
        Err(RvError::InsufficientRP)
    } else if ally.rp_reserved < amount {
        Err(RvError::InsufficientReservedBalance)
    } else {
        Ok(
            (
                AllyAccount { rp_reserved: (ally.rp_reserved - amount) as u64, ..ally },
                UserLedger {
                    rp_claimable_forca: (ledger.rp_claimable_forca - amount) as u64,
                    updated_ts: now as i64,
                    ..ledger
                },
            ),
        )
    }
}

/// Cancellation of previously allocated claimable points.
pub fn cancel_allocated_rp(
    ally: &mut AllyAccount,
    ledger: &mut UserLedger,
    now: i64,
    cancel_amount: u64,
) -> (r: Result<CancelRPEvent, RvError>)
    ensures
        (match spec_cancel_allocated_rp(*old(ally), *old(ledger), now as int, cancel_amount as int) {
            Ok(o) => {
                &&& r == Ok::<CancelRPEvent, RvError>(
                    CancelRPEvent {
                        user: old(ledger).user,
                        ally_nft_mint: old(ledger).ally_nft_mint,
                        cancel_amount,
                    },
                )
                &&& *final(ally) == o.0
                &&& *final(ledger) == o.1
            },
            Err(e) => {
                &&& r == Err::<CancelRPEvent, RvError>(e)
                &&& *final(ally) == *old(ally)
                &&& *final(ledger) == *old(ledger)
            },
        }),
        r is Ok && old(ally).wf() ==> final(ally).wf(),
{
    if cancel_amount == 0 {
        return Err(RvError::ZeroAmount);
    }
    if ledger.user.is_zero() {
        return Err(RvError::InvalidAuthority);
    }
    if ledger.ally_nft_mint != ally.nft_mint {
        return Err(RvError::InvalidAuthority);
    }
    if ledger.rp_claimable_forca < cancel_amount {
        return Err(RvError::InsufficientRP);
    }
    if ally.rp_reserved < cancel_amount {
        return Err(RvError::InsufficientReservedBalance);
    }
    let event = CancelRPEvent {
        user: ledger.user,
        ally_nft_mint: ledger.ally_nft_mint,
        cancel_amount,
    };
    ledger.rp_claimable_forca = ledger.rp_claimable_forca - cancel_amount;
    ledger.updated_ts = now;
    ally.rp_reserved = ally.rp_reserved - cancel_amount;
    Ok(event)
}

/// A bonus grant of points to an identity, creating its ledger row on first
/// use; an existing row must match the identity and counterparty.
pub open spec fn spec_grant_bonus_pp(
    ally: AllyAccount,
    ledger: UserLedger,
    user: AccountId,
    now: int,
    amount: int,
) -> Result<UserLedger, RvError> {
    if amount == 0 {
        Err(RvError::ZeroAmount)
    } else {
        let fresh = ledger.user == AccountId::spec_zero();
        if !fresh && ledger.user != user {
            Err(RvError::InvalidAuthority)
        } else if !fresh && ledger.ally_nft_mint != ally.nft_mint {
            Err(RvError::InvalidAuthority)
        } else {
            let ledger0 = if fresh {
                UserLedger::spec_fresh(user, ally.nft_mint, now)
            } else {
                ledger
            };
            if ledger0.pp_balance + amount > u64::MAX {
                Err(RvError::Overflow)
            } else {
                Ok(
                    UserLedger {
                        pp_balance: (ledger0.pp_balance + amount) as u64,
                        updated_ts: now as i64,
                        ..ledger0
                    },
                )
            }
        }
    }
}

/// Grant of bonus points to an identity's ledger.
pub fn grant_bonus_pp(
    ally: &AllyAccount,
    ledger: &mut UserLedger,
    user: AccountId,
    now: i64,
    amount_pp_e6: u64,
) -> (r: Result<GrantBonusPPEvent, RvError>)
    ensures
        (match spec_grant_bonus_pp(*ally, *old(ledger), user, now as int, amount_pp_e6 as int) {
            Ok(l) => {
                &&& r == Ok::<GrantBonusPPEvent, RvError>(
                    GrantBonusPPEvent {
                        user: l.user,
                        ally_nft_mint: l.ally_nft_mint,
                        amount_pp_e6,
                    },
                )
                &&& *final(ledger) == l
            },
            Err(e) => {
                &&& r == Err::<GrantBonusPPEvent, RvError>(e)
                &&& *final(ledger) == *old(ledger)
            },
        }),
{
    if amount_pp_e6 == 0 {
        return Err(RvError::ZeroAmount);
    }
    let fresh: bool = ledger.user.is_zero();
    if !fresh && ledger.user != user {
        return Err(RvError::InvalidAuthority);
    }
    if !fresh && ledger.ally_nft_mint != ally.nft_mint {
        return Err(RvError::InvalidAuthority);
    }
    let ledger0: UserLedger = if fresh {
        UserLedger {
            user,
            ally_nft_mint: ally.nft_mint,
            rp_claimable_forca: 0,
            pp_balance: 0,
            hwm_claimed: 0,
            tax_hwm: 0,
            total_claimed_forca: 0,
            created_ts: now,
            updated_ts: 0,
        }
    } else {
        *ledger
    };
    let new_pp: u64 = match ledger0.pp_balance.checked_add(amount_pp_e6) {
        Some(v) => v,
        None => {
            return Err(RvError::Overflow);
        },
    };
    let event = GrantBonusPPEvent {
        user: ledger0.user,
        ally_nft_mint: ledger0.ally_nft_mint,
        amount_pp_e6,
    };
    *ledger = ledger0;
    ledger.pp_balance = new_pp;
    ledger.updated_ts = now;
    Ok(event)
}

/// Consumption of points from an identity's ledger by the counterparty.
pub open spec fn spec_consume_pp(
    ally: AllyAccount,
    ledger: UserLedger,
    now: int,
    amount: int,
) -> Result<UserLedger, RvError> {
    if amount == 0 {
        Err(RvError::ZeroAmount)
    } else if ledger.user == AccountId::spec_zero() {
        Err(RvError::InvalidAuthority)
    } else if ledger.ally_nft_mint != ally.nft_mint {
        Err(RvError::InvalidAuthority)
    } else if ledger.pp_balance < amount {
        Err(RvError::InsufficientPP)
    } else {
        Ok(
            UserLedger {
                pp_balance: (ledger.pp_balance - amount) as u64,
                updated_ts: now as i64,
                ..ledger
            },
        )
    }
}

/// Consumption of points from an identity's scoped ledger.
pub fn consume_pp(
    ally: &AllyAccount,
    ledger: &mut UserLedger,
    now: i64,
    amount_pp_e6: u64,
) -> (r: Result<ConsumePPEvent, RvError>)
    ensures
        (match spec_consume_pp(*ally, *old(ledger), now as int, amount_pp_e6 as int) {
            Ok(l) => {
                &&& r == Ok::<ConsumePPEvent, RvError>(
                    ConsumePPEvent {
                        user: old(ledger).user,
                        ally_nft_mint: old(ledger).ally_nft_mint,
                        amount_pp_e6,
                    },
                )
                &&& *final(ledger) == l
            },
            Err(e) => {
                &&& r == Err::<ConsumePPEvent, RvError>(e)
                &&& *final(ledger) == *old(ledger)
            },
        }),
{
    if amount_pp_e6 == 0 {
        return Err(RvError::ZeroAmount);
    }
    if ledger.user.is_zero() {
        return Err(RvError::InvalidAuthority);
    }
    if ledger.ally_nft_mint != ally.nft_mint {
        return Err(RvError::InvalidAuthority);
    }
    if ledger.pp_balance < amount_pp_e6 {
        return Err(RvError::InsufficientPP);
    }
    let event = ConsumePPEvent {
        user: ledger.user,
        ally_nft_mint: ledger.ally_nft_mint,
        amount_pp_e6,
    };
    ledger.pp_balance = ledger.pp_balance - amount_pp_e6;
    ledger.updated_ts = now;
    Ok(event)
}

} // verus!
