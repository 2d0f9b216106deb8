//! An amount of one token.

use crate::codec::{get_key, get_u64, lemma_u64_bytes_round_trip, lemma_u64_round_trip, put_key,
    put_u64, u64_le};
use crate::pubkey::{lemma_view_injective, Pubkey, PUBKEY_BYTES};
use vstd::prelude::*;
use vstd::std_specs::cmp::PartialEqSpecImpl;

verus! {

/// An amount of tokens.
#[derive(Clone, Copy, Debug, Eq, Hash)]
pub struct TokenAmount {
    /// Mint of the token.
    pub mint: Pubkey,
    /// Amount of the token.
    pub amount: u64,
}

impl PartialEq for TokenAmount {
    /// Two amounts are equal when they are the same quantity of the same mint.
    fn eq(&self, other: &TokenAmount) -> (r: bool) {
        self.mint == other.mint && self.amount == other.amount
    }
}

impl PartialEqSpecImpl for TokenAmount {
    open spec fn obeys_eq_spec() -> bool {
        true
    }

    open spec fn eq_spec(&self, other: &TokenAmount) -> bool {
        *self == *other
    }
}

impl Default for TokenAmount {
    /// Nothing, of the mint whose bytes are all zero.
    fn default() -> (amount: TokenAmount)
        ensures
            amount == TokenAmount::spec_default(),
    {
        TokenAmount { mint: Pubkey::default(), amount: 0 }
    }
}

impl TokenAmount {
    /// Number of bytes that an encoded amount takes.
    pub const LEN: usize = PUBKEY_BYTES + 8;

    /// Nothing, of the mint whose bytes are all zero.
    pub open spec fn spec_default() -> TokenAmount {
        TokenAmount { mint: Pubkey::spec_default(), amount: 0 }
    }

    /// `amount` tokens of `mint`.
    pub fn new(mint: Pubkey, amount: u64) -> (out: TokenAmount)
        ensures
            out == (TokenAmount { mint, amount }),
    {
        TokenAmount { mint, amount }
    }

    /// The encoding of the amount: the mint, then the quantity, least
    /// significant byte first.
    pub open spec fn spec_serialize(self) -> Seq<u8> {
        self.mint@ + u64_le(self.amount)
    }

    /// Appends the encoding of the amount to `writer`.
    pub fn serialize(&self, writer: &mut Vec<u8>)
        ensures
            final(writer)@ == old(writer)@ + self.spec_serialize(),
    {
        put_key(writer, &self.mint);
        put_u64(writer, self.amount);
        proof {
            assert(writer@ =~= old(writer)@ + self.spec_serialize());
        }
    }

    /// Reads the amount encoded in the 40 bytes of `buf` from `at` on.
    pub(crate) fn read(buf: &[u8], at: usize) -> (out: TokenAmount)
        requires
            at + 40 <= buf.len(),
        ensures
            out.spec_serialize() == buf@.subrange(at as int, at + 40),
    {
        let mint = get_key(buf, at);
        let amount = get_u64(buf, at + 32);
        let out = TokenAmount { mint, amount };
        proof {
            lemma_u64_bytes_round_trip(buf@.subrange(at + 32, at + 40));
            assert(out.spec_serialize() =~= buf@.subrange(at as int, at + 40));
        }
        out
    }

    /// Decodes the amount that `buf` starts with: the one whose encoding the
    /// first 40 bytes of `buf` are. `None` where `buf` is shorter than that.
    pub fn deserialize(buf: &[u8]) -> (out: Option<TokenAmount>)
        ensures
            out is Some == (buf@.len() >= 40),
            out matches Some(amount) ==> amount.spec_serialize() == buf@.subrange(0, 40),
    {
        if buf.len() < 40 {
            return None;
        }
        Some(Self::read(buf, 0))
    }
}

/// An encoded amount takes `LEN` bytes, and no two amounts share an encoding.
pub proof fn lemma_token_amount_encoding(a: TokenAmount, b: TokenAmount)
    ensures
        a.spec_serialize().len() == TokenAmount::LEN,
        a.spec_serialize() == b.spec_serialize() ==> a == b,
{
    if a.spec_serialize() == b.spec_serialize() {
        assert(a.mint@ =~= a.spec_serialize().subrange(0, 32));
        assert(b.mint@ =~= b.spec_serialize().subrange(0, 32));
        assert(u64_le(a.amount) =~= a.spec_serialize().subrange(32, 40));
        assert(u64_le(b.amount) =~= b.spec_serialize().subrange(32, 40));
        lemma_view_injective(a.mint, b.mint);
        lemma_u64_round_trip(a.amount);
        lemma_u64_round_trip(b.amount);
    }
}

} // verus!
