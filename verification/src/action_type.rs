//! The kinds of hop that a route can take.

use vstd::prelude::*;
use vstd::std_specs::convert::FromSpecImpl;

verus! {

/// Represents a swap from one token to another.
#[derive(Clone, Copy, Debug, PartialEq, Eq, Structural, Hash)]
pub enum ActionType {
    SSSwap,
    SSWithdrawOne,
    SSDepositA,
    SSDepositB,
    ADWithdraw,
    ADDeposit,
}

/// A number that is the code of no kind of hop.
#[derive(Clone, Copy, Debug, PartialEq, Eq, Structural)]
pub struct TryFromPrimitiveError {
    /// The number that was offered.
    pub number: u16,
}

impl ActionType {
    /// The code by which a venue and a reader of the log know the kind.
    pub open spec fn code(self) -> u16 {
        match self {
            ActionType::SSSwap => 0,
            ActionType::SSWithdrawOne => 1,
            ActionType::SSDepositA => 2,
            ActionType::SSDepositB => 3,
            ActionType::ADWithdraw => 10,
            ActionType::ADDeposit => 11,
        }
    }

    /// The place of the kind in the list of kinds, counted from zero: the
    /// byte that stands for it in an encoded record.
    pub open spec fn variant_index(self) -> u8 {
        match self {
            ActionType::SSSwap => 0,
            ActionType::SSWithdrawOne => 1,
            ActionType::SSDepositA => 2,
            ActionType::SSDepositB => 3,
            ActionType::ADWithdraw => 4,
            ActionType::ADDeposit => 5,
        }
    }

    /// The encoding of the kind: one byte, its place in the list.
    pub open spec fn spec_serialize(self) -> Seq<u8> {
        seq![self.variant_index()]
    }

    /// The kind whose code `number` is; an error that holds `number` where it
    /// is the code of none.
    pub fn try_from_primitive(number: u16) -> (out: Result<ActionType, TryFromPrimitiveError>)
        ensures
            match out {
                Ok(kind) => kind.code() == number,
                Err(e) => e.number == number && forall|kind: ActionType| kind.code() != number,
            },
    {
        match number {
            0 => Ok(ActionType::SSSwap),
            1 => Ok(ActionType::SSWithdrawOne),
            2 => Ok(ActionType::SSDepositA),
            3 => Ok(ActionType::SSDepositB),
            10 => Ok(ActionType::ADWithdraw),
            11 => Ok(ActionType::ADDeposit),
            _ => Err(TryFromPrimitiveError { number }),
        }
    }

    /// Appends the encoding of the kind to `writer`.
    pub fn serialize(&self, writer: &mut Vec<u8>)
        ensures
            final(writer)@ == old(writer)@ + self.spec_serialize(),
    {
        let variant_idx: u8 = match self {
            ActionType::SSSwap => 0u8,
            ActionType::SSWithdrawOne => 1u8,
            ActionType::SSDepositA => 2u8,
            ActionType::SSDepositB => 3u8,
            ActionType::ADWithdraw => 4u8,
            ActionType::ADDeposit => 5u8,
        };
        writer.push(variant_idx);
        proof {
            assert(writer@ =~= old(writer)@ + self.spec_serialize());
        }
    }

    /// Decodes the kind that `buf` starts with. `None` where `buf` is empty or
    /// its first byte is the place of no kind.
    pub fn deserialize(buf: &[u8]) -> (out: Option<ActionType>)
        ensures
            out is Some == (buf@.len() >= 1 && buf@[0] <= 5),
            out matches Some(kind) ==> kind.variant_index() == buf@[0],
    {
        if buf.len() < 1 {
            return None;
        }
        match buf[0] {
            0u8 => Some(ActionType::SSSwap),
            1u8 => Some(ActionType::SSWithdrawOne),
            2u8 => Some(ActionType::SSDepositA),
            3u8 => Some(ActionType::SSDepositB),
            4u8 => Some(ActionType::ADWithdraw),
            5u8 => Some(ActionType::ADDeposit),
            _ => None,
        }
    }
}

impl From<ActionType> for u16 {
    /// The code of the kind.
    fn from(enum_value: ActionType) -> (code: u16) {
        match enum_value {
            ActionType::SSSwap => 0,
            ActionType::SSWithdrawOne => 1,
            ActionType::SSDepositA => 2,
            ActionType::SSDepositB => 3,
            ActionType::ADWithdraw => 10,
            ActionType::ADDeposit => 11,
        }
    }
}

impl FromSpecImpl<ActionType> for u16 {
    open spec fn obeys_from_spec() -> bool {
        true
    }

    open spec fn from_spec(enum_value: ActionType) -> u16 {
        enum_value.code()
    }
}

/// No two kinds share a code, and none shares its place in the list.
pub proof fn lemma_action_type_codes_distinct(a: ActionType, b: ActionType)
    ensures
        a.code() == b.code() ==> a == b,
        a.variant_index() == b.variant_index() ==> a == b,
{
}

} // verus!
