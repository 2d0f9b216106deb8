//! Balance records: what the router reads of a token account.

use crate::pubkey::Pubkey;
use vstd::prelude::*;
use vstd::std_specs::cmp::PartialEqSpecImpl;

verus! {

/// A balance record: an account that holds a quantity of one token for one
/// owner.
#[derive(Clone, Copy, Debug, Eq)]
pub struct TokenAccount {
    /// The address of the record.
    pub key: Pubkey,
    /// The mint of the token that the record counts.
    pub mint: Pubkey,
    /// The owner of the tokens.
    pub owner: Pubkey,
    /// The quantity that the record holds.
    pub amount: u64,
}

impl PartialEq for TokenAccount {
    /// Two records are equal when all their fields are.
    fn eq(&self, other: &TokenAccount) -> (r: bool) {
        self.key == other.key && self.mint == other.mint && self.owner == other.owner
            && self.amount == other.amount
    }
}

impl PartialEqSpecImpl for TokenAccount {
    open spec fn obeys_eq_spec() -> bool {
        true
    }

    open spec fn eq_spec(&self, other: &TokenAccount) -> bool {
        *self == *other
    }
}

impl TokenAccount {
    /// The record at `key` that holds `amount` tokens of `mint` for `owner`.
    pub fn new(key: Pubkey, mint: Pubkey, owner: Pubkey, amount: u64) -> (out: TokenAccount)
        ensures
            out == (TokenAccount { key, mint, owner, amount }),
    {
        TokenAccount { key, mint, owner, amount }
    }

    /// The address of the record.
    pub fn key(&self) -> (key: Pubkey)
        ensures
            key == self.key,
    {
        self.key
    }
}

} // verus!
