//! The records that the router writes to the log.

use crate::action_type::{lemma_action_type_codes_distinct, ActionType};
use crate::codec::{get_key, put_key, put_mark};
use crate::pubkey::{lemma_view_injective, Pubkey, PUBKEY_BYTES};
use crate::token_amount::{lemma_token_amount_encoding, TokenAmount};
use vstd::prelude::*;
use vstd::std_specs::cmp::PartialEqSpecImpl;

verus! {

/// Written once for every hop that was taken.
#[derive(Clone, Copy, Debug, Eq)]
pub struct SwapActionEvent {
    /// The kind of the hop.
    pub action_type: ActionType,
    /// The owner of the chain.
    pub owner: Pubkey,
    /// What the hop consumed.
    pub input_amount: TokenAmount,
    /// The record into which the hop paid: the source of the next hop.
    pub output_account: Pubkey,
    /// What arrived in that record.
    pub output_amount: TokenAmount,
}

/// Written once when a chain is closed.
#[derive(Clone, Copy, Debug, Eq)]
pub struct SwapCompleteEvent {
    /// The owner of the chain.
    pub owner: Pubkey,
    /// What the chain started with.
    pub amount_in: TokenAmount,
    /// What the chain brought in.
    pub amount_out: TokenAmount,
}

impl PartialEq for SwapActionEvent {
    /// Two records are equal when all their fields are.
    fn eq(&self, other: &SwapActionEvent) -> (r: bool) {
        self.action_type == other.action_type && self.owner == other.owner && self.input_amount
            == other.input_amount && self.output_account == other.output_account
            && self.output_amount == other.output_amount
    }
}

impl PartialEqSpecImpl for SwapActionEvent {
    open spec fn obeys_eq_spec() -> bool {
        true
    }

    open spec fn eq_spec(&self, other: &SwapActionEvent) -> bool {
        *self == *other
    }
}

impl PartialEq for SwapCompleteEvent {
    /// Two records are equal when all their fields are.
    fn eq(&self, other: &SwapCompleteEvent) -> (r: bool) {
        self.owner == other.owner && self.amount_in == other.amount_in && self.amount_out
            == other.amount_out
    }
}

impl PartialEqSpecImpl for SwapCompleteEvent {
    open spec fn obeys_eq_spec() -> bool {
        true
    }

    open spec fn eq_spec(&self, other: &SwapCompleteEvent) -> bool {
        *self == *other
    }
}

/// The eight bytes that mark a logged hop.
pub open spec fn spec_swap_action_discriminator() -> Seq<u8> {
    seq![6u8, 114u8, 163u8, 169u8, 186u8, 233u8, 120u8, 250u8]
}

/// The eight bytes that mark a logged completion.
pub open spec fn spec_swap_complete_discriminator() -> Seq<u8> {
    seq![95u8, 210u8, 213u8, 216u8, 161u8, 151u8, 251u8, 84u8]
}

impl SwapActionEvent {
    /// Number of bytes that an encoded record takes.
    pub const LEN: usize = 1 + PUBKEY_BYTES + TokenAmount::LEN + PUBKEY_BYTES + TokenAmount::LEN;

    /// The encoding of the record: its fields in the order of their
    /// declaration.
    pub open spec fn spec_serialize(self) -> Seq<u8> {
        self.action_type.spec_serialize() + self.owner@ + self.input_amount.spec_serialize()
            + self.output_account@ + self.output_amount.spec_serialize()
    }

    /// The eight bytes that mark a logged hop.
    pub fn discriminator() -> (mark: [u8; 8])
        ensures
            mark@ == spec_swap_action_discriminator(),
    {
        let mark: [u8; 8] = [6, 114, 163, 169, 186, 233, 120, 250];
        proof {
            assert(mark@ =~= spec_swap_action_discriminator());
        }
        mark
    }

    /// Appends the encoding of the record to `writer`.
    pub fn serialize(&self, writer: &mut Vec<u8>)
        ensures
            final(writer)@ == old(writer)@ + self.spec_serialize(),
    {
        self.action_type.serialize(writer);
        put_key(writer, &self.owner);
        self.input_amount.serialize(writer);
        put_key(writer, &self.output_account);
        self.output_amount.serialize(writer);
        proof {
            assert(writer@ =~= old(writer)@ + self.spec_serialize());
        }
    }

    /// Decodes the record that `buf` starts with: the one whose encoding the
    /// first `LEN` bytes of `buf` are. `None` where `buf` is shorter than
    /// that, or its first byte stands for no kind of hop.
    pub fn deserialize(buf: &[u8]) -> (out: Option<SwapActionEvent>)
        ensures
            out is Some == (buf@.len() >= SwapActionEvent::LEN && buf@[0] <= 5),
            out matches Some(event) ==> event.spec_serialize() == buf@.subrange(
                0,
                SwapActionEvent::LEN as int,
            ),
    {
        if buf.len() < SwapActionEvent::LEN {
            return None;
        }
        let action_type = match ActionType::deserialize(buf) {
            Some(action_type) => action_type,
            None => {
                return None;
            },
        };
        let event = SwapActionEvent {
            action_type,
            owner: get_key(buf, 1),
            input_amount: TokenAmount::read(buf, 33),
            output_account: get_key(buf, 73),
            output_amount: TokenAmount::read(buf, 105),
        };
        proof {
            assert(event.spec_serialize() =~= buf@.subrange(0, SwapActionEvent::LEN as int));
        }
        Some(event)
    }

    /// The bytes that go to the log: the mark of a hop, then the encoding of
    /// the record.
    pub fn data(&self) -> (d: Vec<u8>)
        ensures
            d@ == spec_swap_action_discriminator() + self.spec_serialize(),
    {
        let mut d: Vec<u8> = Vec::new();
        put_mark(&mut d, &Self::discriminator());
        self.serialize(&mut d);
        d
    }
}

impl SwapCompleteEvent {
    /// Number of bytes that an encoded record takes.
    pub const LEN: usize = PUBKEY_BYTES + TokenAmount::LEN + TokenAmount::LEN;

    /// The encoding of the record: its fields in the order of their
    /// declaration.
    pub open spec fn spec_serialize(self) -> Seq<u8> {
        self.owner@ + self.amount_in.spec_serialize() + self.amount_out.spec_serialize()
    }

    /// The eight bytes that mark a logged completion.
    pub fn discriminator() -> (mark: [u8; 8])
        ensures
            mark@ == spec_swap_complete_discriminator(),
    {
        let mark: [u8; 8] = [95, 210, 213, 216, 161, 151, 251, 84];
        proof {
            assert(mark@ =~= spec_swap_complete_discriminator());
        }
        mark
    }

    /// Appends the encoding of the record to `writer`.
    pub fn serialize(&self, writer: &mut Vec<u8>)
        ensures
            final(writer)@ == old(writer)@ + self.spec_serialize(),
    {
        put_key(writer, &self.owner);
        self.amount_in.serialize(writer);
        self.amount_out.serialize(writer);
        proof {
            assert(writer@ =~= old(writer)@ + self.spec_serialize());
        }
    }

    /// Decodes the record that `buf` starts with: the one whose encoding the
    /// first `LEN` bytes of `buf` are. `None` where `buf` is shorter than
    /// that.
    pub fn deserialize(buf: &[u8]) -> (out: Option<SwapCompleteEvent>)
        ensures
            out is Some == (buf@.len() >= SwapCompleteEvent::LEN),
            out matches Some(event) ==> event.spec_serialize() == buf@.subrange(
                0,
                SwapCompleteEvent::LEN as int,
            ),
    {
        if buf.len() < SwapCompleteEvent::LEN {
            return None;
        }
        let event = SwapCompleteEvent {
            owner: get_key(buf, 0),
            amount_in: TokenAmount::read(buf, 32),
            amount_out: TokenAmount::read(buf, 72),
        };
        proof {
            assert(event.spec_serialize() =~= buf@.subrange(0, SwapCompleteEvent::LEN as int));
        }
        Some(event)
    }

    /// The bytes that go to the log: the mark of a completion, then the
    /// encoding of the record.
    pub fn data(&self) -> (d: Vec<u8>)
        ensures
            d@ == spec_swap_complete_discriminator() + self.spec_serialize(),
    {
        let mut d: Vec<u8> = Vec::new();
        put_mark(&mut d, &Self::discriminator());
        self.serialize(&mut d);
        d
    }
}

/// An encoded hop takes `LEN` bytes, and no two records share an encoding.
pub proof fn lemma_swap_action_event_encoding(a: SwapActionEvent, b: SwapActionEvent)
    ensures
        a.spec_serialize().len() == SwapActionEvent::LEN,
        a.spec_serialize() == b.spec_serialize() ==> a == b,
{
    let x = a.spec_serialize();
    let y = b.spec_serialize();
    assert(x.subrange(1, 33) =~= a.owner@ && y.subrange(1, 33) =~= b.owner@);
    assert(x.subrange(33, 73) =~= a.input_amount.spec_serialize() && y.subrange(33, 73)
        =~= b.input_amount.spec_serialize());
    assert(x.subrange(73, 105) =~= a.output_account@ && y.subrange(73, 105)
        =~= b.output_account@);
    assert(x.subrange(105, 145) =~= a.output_amount.spec_serialize() && y.subrange(105, 145)
        =~= b.output_amount.spec_serialize());
    assert(x[0] == a.action_type.variant_index() && y[0] == b.action_type.variant_index());
    if x == y {
        lemma_view_injective(a.owner, b.owner);
        lemma_view_injective(a.output_account, b.output_account);
        lemma_token_amount_encoding(a.input_amount, b.input_amount);
        lemma_token_amount_encoding(a.output_amount, b.output_amount);
        lemma_action_type_codes_distinct(a.action_type, b.action_type);
    }
}

/// An encoded completion takes `LEN` bytes, and no two records share an
/// encoding.
pub proof fn lemma_swap_complete_event_encoding(a: SwapCompleteEvent, b: SwapCompleteEvent)
    ensures
        a.spec_serialize().len() == SwapCompleteEvent::LEN,
        a.spec_serialize() == b.spec_serialize() ==> a == b,
{
    let x = a.spec_serialize();
    let y = b.spec_serialize();
    assert(x.subrange(0, 32) =~= a.owner@ && y.subrange(0, 32) =~= b.owner@);
    assert(x.subrange(32, 72) =~= a.amount_in.spec_serialize() && y.subrange(32, 72)
        =~= b.amount_in.spec_serialize());
    assert(x.subrange(72, 112) =~= a.amount_out.spec_serialize() && y.subrange(72, 112)
        =~= b.amount_out.spec_serialize());
    if x == y {
        lemma_view_injective(a.owner, b.owner);
        lemma_token_amount_encoding(a.amount_in, b.amount_in);
        lemma_token_amount_encoding(a.amount_out, b.amount_out);
    }
}

} // verus!
