//! Opaque 32-byte account identities and token-account snapshots.
//!
//! The host addresses every entity by a 32-byte key.  The core never inspects
//! a key beyond equality, so a key is modelled as four 64-bit words.  A token
//! account is read by the core only through the plain fields snapshotted here.

use vstd::prelude::*;

verus! {

/// A 32-byte account identity, split into four little-endian 64-bit words.
#[derive(Clone, Copy, PartialEq, Eq, Structural, Debug)]
pub struct AccountId {
    pub w0: u64,
    pub w1: u64,
    pub w2: u64,
    pub w3: u64,
}

impl AccountId {
    /// The all-zero identity, used as the "unset" marker.
    pub open spec fn spec_zero() -> AccountId {
        AccountId { w0: 0, w1: 0, w2: 0, w3: 0 }
    }

    pub fn zero() -> (r: AccountId)
        ensures
            r == AccountId::spec_zero(),
    {
        AccountId { w0: 0, w1: 0, w2: 0, w3: 0 }
    }

    pub open spec fn spec_is_zero(self) -> bool {
        self == AccountId::spec_zero()
    }

    pub fn is_zero(&self) -> (r: bool)
        ensures
            r == self.spec_is_zero(),
    {
        self.w0 == 0 && self.w1 == 0 && self.w2 == 0 && self.w3 == 0
    }
}

/// The wrapped-SOL mint identity.
pub open spec fn spec_wsol_mint() -> AccountId {
    AccountId {
        w0: 0x8481abfe57889b06,
        w1: 0x35c01846637f68fb,
        w2: 0x553beb1adc39c4da,
        w3: 0x0100000000f0a098,
    }
}

pub fn wsol_mint() -> (r: AccountId)
    ensures
        r == spec_wsol_mint(),
{
    AccountId {
        w0: 0x8481abfe57889b06,
        w1: 0x35c01846637f68fb,
        w2: 0x553beb1adc39c4da,
        w3: 0x0100000000f0a098,
    }
}

/// The push-style price oracle program identity accepted as an attestation owner.
pub open spec fn spec_push_oracle_program_id() -> AccountId {
    AccountId {
        w0: 0xe1d3958e12a04a0c,
        w1: 0xeba985c501a52a62,
        w2: 0x0bea08c15473b307,
        w3: 0x36a3eec76d451b79,
    }
}

pub fn push_oracle_program_id() -> (r: AccountId)
    ensures
        r == spec_push_oracle_program_id(),
{
    AccountId {
        w0: 0xe1d3958e12a04a0c,
        w1: 0xeba985c501a52a62,
        w2: 0x0bea08c15473b307,
        w3: 0x36a3eec76d451b79,
    }
}

/// The receiver program identity also accepted as an attestation owner.
pub open spec fn spec_receiver_program_id() -> AccountId {
    AccountId {
        w0: 0x48a6f752bbfab70c,
        w1: 0x908b019a7d315bbb,
        w2: 0x01fefa744702cb57,
        w3: 0x815838cc98dfc4e6,
    }
}

pub fn receiver_program_id() -> (r: AccountId)
    ensures
        r == spec_receiver_program_id(),
{
    AccountId {
        w0: 0x48a6f752bbfab70c,
        w1: 0x908b019a7d315bbb,
        w2: 0x01fefa744702cb57,
        w3: 0x815838cc98dfc4e6,
    }
}

/// The fields of a token account that the core reads, as plain values.
#[derive(Clone, Copy, PartialEq, Eq, Structural, Debug)]
pub struct TokenAccountView {
    /// Address of the token account itself.
    pub key: AccountId,
    /// Mint of the tokens it holds.
    pub mint: AccountId,
    /// Owner authority of the account.
    pub owner: AccountId,
    /// Token balance.
    pub amount: u64,
}

} // verus!
