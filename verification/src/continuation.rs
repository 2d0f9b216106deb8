//! The record that threads a chain of hops together.

use crate::codec::{get_key, get_u16, get_u64, lemma_u16_bytes_round_trip, lemma_u16_round_trip,
    lemma_u64_bytes_round_trip, lemma_u64_round_trip, put_key, put_mark, put_u16, put_u64, u16_le,
    u64_le};
use crate::error::FrameworkError;
use crate::pubkey::{lemma_default_is_zero, lemma_view_injective, Pubkey, PUBKEY_BYTES};
use crate::token_amount::{lemma_token_amount_encoding, TokenAmount};
use vstd::prelude::*;
use vstd::std_specs::cmp::PartialEqSpecImpl;

verus! {

/// Continuation state of the owner.
#[derive(Clone, Copy, Debug, Eq)]
pub struct Continuation {
    /// The owner of the continuation.
    pub owner: Pubkey,
    /// The payer of the continuation.
    pub payer: Pubkey,
    /// The initial amount of tokens in.
    pub initial_amount_in: TokenAmount,
    /// The next input account.
    pub input: Pubkey,
    /// The next amount of tokens to input.
    pub amount_in: TokenAmount,
    /// The total number of steps that still need to be executed.
    pub steps_left: u16,
    /// The final output account.
    pub output: Pubkey,
    /// The initial balance of the output account.
    pub output_initial_balance: u64,
    /// The minimum amount of tokens to output at the end of the transaction.
    pub minimum_amount_out: TokenAmount,
    /// The bump seed of the derived address at which the continuation is
    /// kept; zero where its storage was supplied by the caller.
    pub nonce: u8,
}

impl PartialEq for Continuation {
    /// Two continuations are equal when all their fields are.
    fn eq(&self, other: &Continuation) -> (r: bool) {
        self.owner == other.owner && self.payer == other.payer && self.initial_amount_in
            == other.initial_amount_in && self.input == other.input && self.amount_in
            == other.amount_in && self.steps_left == other.steps_left && self.output
            == other.output && self.output_initial_balance == other.output_initial_balance
            && self.minimum_amount_out == other.minimum_amount_out && self.nonce == other.nonce
    }
}

impl PartialEqSpecImpl for Continuation {
    open spec fn obeys_eq_spec() -> bool {
        true
    }

    open spec fn eq_spec(&self, other: &Continuation) -> bool {
        *self == *other
    }
}

impl Default for Continuation {
    /// The continuation of freshly zeroed storage: every byte of every field
    /// is zero.
    fn default() -> (c: Continuation)
        ensures
            c == Continuation::spec_default(),
    {
        Continuation {
            owner: Pubkey::default(),
            payer: Pubkey::default(),
            initial_amount_in: TokenAmount::default(),
            input: Pubkey::default(),
            amount_in: TokenAmount::default(),
            steps_left: 0,
            output: Pubkey::default(),
            output_initial_balance: 0,
            minimum_amount_out: TokenAmount::default(),
            nonce: 0,
        }
    }
}

/// The eight bytes that mark the stored form of a continuation.
pub open spec fn spec_continuation_discriminator() -> Seq<u8> {
    seq![99u8, 253u8, 111u8, 82u8, 70u8, 215u8, 234u8, 19u8]
}

impl Continuation {
    /// Number of bytes that an encoded continuation takes.
    pub const LEN: usize = PUBKEY_BYTES * 2 + TokenAmount::LEN + PUBKEY_BYTES + TokenAmount::LEN
        + 2 + PUBKEY_BYTES + 8 + TokenAmount::LEN + 1;

    /// The continuation of freshly zeroed storage.
    pub open spec fn spec_default() -> Continuation {
        Continuation {
            owner: Pubkey::spec_default(),
            payer: Pubkey::spec_default(),
            initial_amount_in: TokenAmount::spec_default(),
            input: Pubkey::spec_default(),
            amount_in: TokenAmount::spec_default(),
            steps_left: 0,
            output: Pubkey::spec_default(),
            output_initial_balance: 0,
            minimum_amount_out: TokenAmount::spec_default(),
            nonce: 0,
        }
    }

    /// The encoding of the continuation: its fields in the order of their
    /// declaration, each at its fixed width.
    pub open spec fn spec_serialize(self) -> Seq<u8> {
        self.owner@ + self.payer@ + self.initial_amount_in.spec_serialize() + self.input@
            + self.amount_in.spec_serialize() + u16_le(self.steps_left) + self.output@ + u64_le(
            self.output_initial_balance,
        ) + self.minimum_amount_out.spec_serialize() + seq![self.nonce]
    }

    /// The stored form of the continuation: the mark of its kind, then its
    /// encoding.
    pub open spec fn spec_try_serialize(self) -> Seq<u8> {
        spec_continuation_discriminator() + self.spec_serialize()
    }

    /// The eight bytes that mark the stored form of a continuation.
    pub fn discriminator() -> (mark: [u8; 8])
        ensures
            mark@ == spec_continuation_discriminator(),
    {
        let mark: [u8; 8] = [99, 253, 111, 82, 70, 215, 234, 19];
        proof {
            assert(mark@ =~= spec_continuation_discriminator());
        }
        mark
    }

    /// Appends the encoding of the continuation to `writer`.
    pub fn serialize(&self, writer: &mut Vec<u8>)
        ensures
            final(writer)@ == old(writer)@ + self.spec_serialize(),
    {
        put_key(writer, &self.owner);
        put_key(writer, &self.payer);
        self.initial_amount_in.serialize(writer);
        put_key(writer, &self.input);
        self.amount_in.serialize(writer);
        put_u16(writer, self.steps_left);
        put_key(writer, &self.output);
        put_u64(writer, self.output_initial_balance);
        self.minimum_amount_out.serialize(writer);
        writer.push(self.nonce);
        proof {
            assert(writer@ =~= old(writer)@ + self.spec_serialize());
        }
    }

    /// Decodes the continuation that `buf` starts with: the one whose encoding
    /// the first `LEN` bytes of `buf` are. `None` where `buf` is shorter than
    /// that.
    pub fn deserialize(buf: &[u8]) -> (out: Option<Continuation>)
        ensures
            out is Some == (buf@.len() >= Continuation::LEN),
            out matches Some(c) ==> c.spec_serialize() == buf@.subrange(
                0,
                Continuation::LEN as int,
            ),
    {
        if buf.len() < Continuation::LEN {
            return None;
        }
        let c = Continuation {
            owner: get_key(buf, 0),
            payer: get_key(buf, 32),
            initial_amount_in: TokenAmount::read(buf, 64),
            input: get_key(buf, 104),
            amount_in: TokenAmount::read(buf, 136),
            steps_left: get_u16(buf, 176),
            output: get_key(buf, 178),
            output_initial_balance: get_u64(buf, 210),
            minimum_amount_out: TokenAmount::read(buf, 218),
            nonce: buf[258],
        };
        proof {
            lemma_u16_bytes_round_trip(buf@.subrange(176, 178));
            lemma_u64_bytes_round_trip(buf@.subrange(210, 218));
            assert(c.spec_serialize() =~= buf@.subrange(0, Continuation::LEN as int));
        }
        Some(c)
    }

    /// Writes the stored form of the continuation: the mark of its kind, then
    /// its encoding.
    pub fn try_serialize(&self, writer: &mut Vec<u8>)
        ensures
            final(writer)@ == old(writer)@ + self.spec_try_serialize(),
    {
        put_mark(writer, &Self::discriminator());
        self.serialize(writer);
        proof {
            assert(writer@ =~= old(writer)@ + self.spec_try_serialize());
        }
    }

    /// Reads a continuation from its stored form.
    ///
    /// Fails with `AccountDiscriminatorNotFound` where `buf` has fewer than
    /// eight bytes, else with `AccountDiscriminatorMismatch` where the first
    /// eight are not the mark of a continuation, else with
    /// `AccountDidNotDeserialize` where fewer than `LEN` bytes follow them.
    /// Otherwise the result is the continuation that those `LEN` bytes encode.
    pub fn try_deserialize(buf: &[u8]) -> (out: Result<Continuation, FrameworkError>)
        ensures
            match out {
                Ok(c) => {
                    &&& buf@.len() >= 8 + Continuation::LEN
                    &&& c.spec_try_serialize() == buf@.subrange(0, 8 + Continuation::LEN)
                },
                Err(e) => e == if buf@.len() < 8 {
                    FrameworkError::AccountDiscriminatorNotFound
                } else if buf@.subrange(0, 8) != spec_continuation_discriminator() {
                    FrameworkError::AccountDiscriminatorMismatch
                } else {
                    FrameworkError::AccountDidNotDeserialize
                } && (buf@.len() < 8 + Continuation::LEN || buf@.subrange(0, 8)
                    != spec_continuation_discriminator()),
            },
    {
        if buf.len() < 8 {
            return Err(FrameworkError::AccountDiscriminatorNotFound);
        }
        let mark = Self::discriminator();
        let mut i: usize = 0;
        while i < 8
            invariant
                i <= 8,
                buf.len() >= 8,
                mark@ == spec_continuation_discriminator(),
                forall|j: int| 0 <= j < i ==> buf@[j] == mark@[j],
            decreases 8 - i,
        {
            if buf[i] != mark[i] {
                proof {
                    assert(buf@.subrange(0, 8)[i as int] == buf@[i as int]);
                }
                return Err(FrameworkError::AccountDiscriminatorMismatch);
            }
            i += 1;
        }
        proof {
            assert(buf@.subrange(0, 8) =~= spec_continuation_discriminator());
        }
        Self::try_deserialize_unchecked(buf)
    }

    /// Reads a continuation from its stored form without looking at the mark
    /// in its first eight bytes. Fails with `AccountDidNotDeserialize` where
    /// fewer than `LEN` bytes follow them.
    pub fn try_deserialize_unchecked(buf: &[u8]) -> (out: Result<Continuation, FrameworkError>)
        ensures
            match out {
                Ok(c) => {
                    &&& buf@.len() >= 8 + Continuation::LEN
                    &&& c.spec_serialize() == buf@.subrange(8, 8 + Continuation::LEN)
                },
                Err(e) => e == FrameworkError::AccountDidNotDeserialize && buf@.len() < 8
                    + Continuation::LEN,
            },
    {
        if buf.len() < 8 {
            return Err(FrameworkError::AccountDidNotDeserialize);
        }
        let data = vstd::slice::slice_subrange(buf, 8, buf.len());
        match Self::deserialize(data) {
            Some(c) => {
                proof {
                    assert(data@.subrange(0, Continuation::LEN as int) =~= buf@.subrange(
                        8,
                        8 + Continuation::LEN,
                    ));
                }
                Ok(c)
            },
            None => Err(FrameworkError::AccountDidNotDeserialize),
        }
    }
}

/// An encoded continuation takes `LEN` bytes, and no two continuations share
/// an encoding.
pub proof fn lemma_continuation_encoding(a: Continuation, b: Continuation)
    ensures
        a.spec_serialize().len() == Continuation::LEN,
        Continuation::LEN == 259,
        a.spec_serialize() == b.spec_serialize() ==> a == b,
{
    lemma_continuation_fields(a);
    lemma_continuation_fields(b);
    if a.spec_serialize() == b.spec_serialize() {
        lemma_view_injective(a.owner, b.owner);
        lemma_view_injective(a.payer, b.payer);
        lemma_view_injective(a.input, b.input);
        lemma_view_injective(a.output, b.output);
        lemma_token_amount_encoding(a.initial_amount_in, b.initial_amount_in);
        lemma_token_amount_encoding(a.amount_in, b.amount_in);
        lemma_token_amount_encoding(a.minimum_amount_out, b.minimum_amount_out);
        lemma_u16_round_trip(a.steps_left);
        lemma_u16_round_trip(b.steps_left);
        lemma_u64_round_trip(a.output_initial_balance);
        lemma_u64_round_trip(b.output_initial_balance);
    }
}

/// Every byte of the encoding of the default continuation is zero.
pub proof fn lemma_default_is_zeroed()
    ensures
        Continuation::spec_default().spec_serialize() == Seq::new(
            Continuation::LEN as nat,
            |i: int| 0u8,
        ),
{
    lemma_default_is_zero();
    assert(Continuation::spec_default().spec_serialize() =~= Seq::new(
        Continuation::LEN as nat,
        |i: int| 0u8,
    ));
}

/// Where each field stands in the encoding of a continuation.
proof fn lemma_continuation_fields(c: Continuation)
    ensures
        c.spec_serialize().len() == 259,
        c.spec_serialize().subrange(0, 32) == c.owner@,
        c.spec_serialize().subrange(32, 64) == c.payer@,
        c.spec_serialize().subrange(64, 104) == c.initial_amount_in.spec_serialize(),
        c.spec_serialize().subrange(104, 136) == c.input@,
        c.spec_serialize().subrange(136, 176) == c.amount_in.spec_serialize(),
        c.spec_serialize().subrange(176, 178) == u16_le(c.steps_left),
        c.spec_serialize().subrange(178, 210) == c.output@,
        c.spec_serialize().subrange(210, 218) == u64_le(c.output_initial_balance),
        c.spec_serialize().subrange(218, 258) == c.minimum_amount_out.spec_serialize(),
        c.spec_serialize()[258] == c.nonce,
{
    let s = c.spec_serialize();
    assert(s.subrange(0, 32) =~= c.owner@);
    assert(s.subrange(32, 64) =~= c.payer@);
    assert(s.subrange(64, 104) =~= c.initial_amount_in.spec_serialize());
    assert(s.subrange(104, 136) =~= c.input@);
    assert(s.subrange(136, 176) =~= c.amount_in.spec_serialize());
    assert(s.subrange(176, 178) =~= u16_le(c.steps_left));
    assert(s.subrange(178, 210) =~= c.output@);
    assert(s.subrange(210, 218) =~= u64_le(c.output_initial_balance));
    assert(s.subrange(218, 258) =~= c.minimum_amount_out.spec_serialize());
}

} // verus!
