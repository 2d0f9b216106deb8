//! The instructions of the router: how each is written down, and how the
//! bytes that arrive are told apart.

use crate::codec::{get_u16, get_u64, le_u16, le_u64, lemma_u16_round_trip, lemma_u64_round_trip,
    put_mark, put_u16, put_u64, u16_le, u64_le};
use crate::error::FrameworkError;
use crate::pubkey::Pubkey;
use vstd::prelude::*;

verus! {

/// An instruction of the router, with its arguments.
#[derive(Clone, Copy, Debug, PartialEq, Eq, Structural)]
pub enum Instruction {
    /// One of the framework's own instructions on the description of the
    /// router's interface. What follows its tag is the framework's to read.
    Idl,
    /// Creates an ATA if it does not yet exist.
    CreateAtaIfNotExists,
    /// Begins a swap transaction.
    Begin { amount_in: u64, minimum_amount_out: u64, num_steps: u16 },
    /// Begins a swap transaction in storage that the caller supplies.
    BeginV2 { amount_in: u64, minimum_amount_out: u64, num_steps: u16 },
    /// Cleans up the transaction and checks several invariants.
    End,
    SsSwap,
    SsWithdrawOne,
    SsDepositA,
    SsDepositB,
    AdWithdraw,
    AdDeposit,
    /// Does nothing: it makes the accounts of a swap token known to readers
    /// of the interface.
    DummySwapToken,
    /// Does nothing: it makes the accounts of a swap output known to readers
    /// of the interface.
    DummySwapOutput,
    /// Does nothing: it makes the accounts of a swap known to readers of the
    /// interface.
    DummySsSwap,
}

/// The address of the router.
pub open spec fn spec_id() -> Seq<u8> {
    seq![
        176u8, 55u8, 206u8, 219u8, 51u8, 181u8, 150u8, 16u8, 146u8, 32u8, 78u8, 212u8, 183u8,
        92u8, 196u8, 149u8, 1u8, 210u8, 194u8, 54u8, 254u8, 181u8, 104u8, 251u8, 153u8, 43u8,
        185u8, 47u8, 136u8, 71u8, 249u8, 27u8,
    ]
}

/// Returns the program ID.
pub fn id() -> (key: Pubkey)
    ensures
        key@ == spec_id(),
{
    let key = Pubkey {
        bytes: [
            176u8, 55u8, 206u8, 219u8, 51u8, 181u8, 150u8, 16u8, 146u8, 32u8, 78u8, 212u8, 183u8,
            92u8, 196u8, 149u8, 1u8, 210u8, 194u8, 54u8, 254u8, 181u8, 104u8, 251u8, 153u8, 43u8,
            185u8, 47u8, 136u8, 71u8, 249u8, 27u8,
        ],
    };
    proof {
        assert(key@ =~= spec_id());
    }
    key
}

/// Confirms that a given pubkey is equivalent to the program ID.
pub fn check_id(id: &Pubkey) -> (same: bool)
    ensures
        same == (id@ == spec_id()),
{
    let own = self::id();
    proof {
        crate::pubkey::lemma_view_injective(*id, own);
    }
    *id == own
}

impl Instruction {
    /// The eight bytes by which the instruction is known.
    pub open spec fn spec_tag(self) -> Seq<u8> {
        match self {
            Instruction::Idl => seq![64u8, 244u8, 188u8, 120u8, 167u8, 233u8, 105u8, 10u8],
            Instruction::CreateAtaIfNotExists => seq![
                106u8, 191u8, 176u8, 28u8, 152u8, 6u8, 176u8, 42u8,
            ],
            Instruction::Begin { .. } => seq![35u8, 150u8, 31u8, 42u8, 98u8, 141u8, 116u8, 108u8],
            Instruction::BeginV2 { .. } => seq![
                241u8, 188u8, 208u8, 225u8, 254u8, 43u8, 38u8, 241u8,
            ],
            Instruction::End => seq![180u8, 160u8, 249u8, 217u8, 194u8, 121u8, 70u8, 16u8],
            Instruction::SsSwap => seq![77u8, 170u8, 215u8, 67u8, 182u8, 47u8, 249u8, 225u8],
            Instruction::SsWithdrawOne => seq![101u8, 22u8, 53u8, 15u8, 236u8, 31u8, 246u8, 84u8],
            Instruction::SsDepositA => seq![38u8, 68u8, 65u8, 68u8, 218u8, 131u8, 229u8, 202u8],
            Instruction::SsDepositB => seq![109u8, 222u8, 231u8, 0u8, 90u8, 222u8, 238u8, 233u8],
            Instruction::AdWithdraw => seq![45u8, 60u8, 152u8, 4u8, 191u8, 159u8, 160u8, 243u8],
            Instruction::AdDeposit => seq![202u8, 34u8, 43u8, 64u8, 127u8, 205u8, 158u8, 75u8],
            Instruction::DummySwapToken => seq![
                49u8, 251u8, 76u8, 149u8, 148u8, 65u8, 229u8, 158u8,
            ],
            Instruction::DummySwapOutput => seq![
                34u8, 173u8, 34u8, 58u8, 60u8, 156u8, 226u8, 183u8,
            ],
            Instruction::DummySsSwap => seq![66u8, 165u8, 97u8, 157u8, 220u8, 76u8, 187u8, 75u8],
        }
    }

    /// The encoding of the arguments of the instruction, in the order of their
    /// declaration.
    pub open spec fn spec_args(self) -> Seq<u8> {
        match self {
            Instruction::Begin { amount_in, minimum_amount_out, num_steps } => u64_le(amount_in)
                + u64_le(minimum_amount_out) + u16_le(num_steps),
            Instruction::BeginV2 { amount_in, minimum_amount_out, num_steps } => u64_le(amount_in)
                + u64_le(minimum_amount_out) + u16_le(num_steps),
            _ => Seq::empty(),
        }
    }

    /// The bytes that carry the instruction: its tag, then its arguments.
    pub open spec fn spec_data(self) -> Seq<u8> {
        self.spec_tag() + self.spec_args()
    }

    /// The eight bytes by which the instruction is known.
    pub fn tag(&self) -> (tag: [u8; 8])
        ensures
            tag@ == self.spec_tag(),
    {
        let tag: [u8; 8] = match self {
            Instruction::Idl => [64, 244, 188, 120, 167, 233, 105, 10],
            Instruction::CreateAtaIfNotExists => [106, 191, 176, 28, 152, 6, 176, 42],
            Instruction::Begin { .. } => [35, 150, 31, 42, 98, 141, 116, 108],
            Instruction::BeginV2 { .. } => [241, 188, 208, 225, 254, 43, 38, 241],
            Instruction::End => [180, 160, 249, 217, 194, 121, 70, 16],
            Instruction::SsSwap => [77, 170, 215, 67, 182, 47, 249, 225],
            Instruction::SsWithdrawOne => [101, 22, 53, 15, 236, 31, 246, 84],
            Instruction::SsDepositA => [38, 68, 65, 68, 218, 131, 229, 202],
            Instruction::SsDepositB => [109, 222, 231, 0, 90, 222, 238, 233],
            Instruction::AdWithdraw => [45, 60, 152, 4, 191, 159, 160, 243],
            Instruction::AdDeposit => [202, 34, 43, 64, 127, 205, 158, 75],
            Instruction::DummySwapToken => [49, 251, 76, 149, 148, 65, 229, 158],
            Instruction::DummySwapOutput => [34, 173, 34, 58, 60, 156, 226, 183],
            Instruction::DummySsSwap => [66, 165, 97, 157, 220, 76, 187, 75],
        };
        proof {
            assert(tag@ =~= self.spec_tag());
        }
        tag
    }

    /// The bytes that carry the instruction: its tag, then its arguments.
    pub fn data(&self) -> (d: Vec<u8>)
        ensures
            d@ == self.spec_data(),
    {
        let mut d: Vec<u8> = Vec::new();
        put_mark(&mut d, &self.tag());
        match self {
            Instruction::Begin { amount_in, minimum_amount_out, num_steps } => {
                put_u64(&mut d, *amount_in);
                put_u64(&mut d, *minimum_amount_out);
                put_u16(&mut d, *num_steps);
            },
            Instruction::BeginV2 { amount_in, minimum_amount_out, num_steps } => {
                put_u64(&mut d, *amount_in);
                put_u64(&mut d, *minimum_amount_out);
                put_u16(&mut d, *num_steps);
            },
            _ => {},
        }
        proof {
            assert(d@ =~= self.spec_data());
        }
        d
    }
}

/// The instruction that `data` carries, or why it carries none.
///
/// The first eight bytes name the instruction; where there are fewer, the
/// answer is `InstructionMissing`, and where they are the tag of none, it is
/// `InstructionFallbackNotFound`. The arguments follow the tag, and bytes
/// after them are not looked at; where they are too short, the answer is
/// `InstructionDidNotDeserialize`.
pub open spec fn spec_dispatch(data: Seq<u8>) -> Result<Instruction, FrameworkError> {
    let tag = data.subrange(0, 8);
    let args = data.subrange(8, data.len() as int);
    if data.len() < 8 {
        Err(FrameworkError::InstructionMissing)
    } else if tag == Instruction::Idl.spec_tag() {
        Ok(Instruction::Idl)
    } else if tag == Instruction::CreateAtaIfNotExists.spec_tag() {
        Ok(Instruction::CreateAtaIfNotExists)
    } else if tag == (Instruction::Begin {
        amount_in: 0,
        minimum_amount_out: 0,
        num_steps: 0,
    }).spec_tag() {
        if args.len() < 18 {
            Err(FrameworkError::InstructionDidNotDeserialize)
        } else {
            Ok(
                Instruction::Begin {
                    amount_in: le_u64(args.subrange(0, 8)),
                    minimum_amount_out: le_u64(args.subrange(8, 16)),
                    num_steps: le_u16(args.subrange(16, 18)),
                },
            )
        }
    } else if tag == (Instruction::BeginV2 {
        amount_in: 0,
        minimum_amount_out: 0,
        num_steps: 0,
    }).spec_tag() {
        if args.len() < 18 {
            Err(FrameworkError::InstructionDidNotDeserialize)
        } else {
            Ok(
                Instruction::BeginV2 {
                    amount_in: le_u64(args.subrange(0, 8)),
                    minimum_amount_out: le_u64(args.subrange(8, 16)),
                    num_steps: le_u16(args.subrange(16, 18)),
                },
            )
        }
    } else if tag == Instruction::End.spec_tag() {
        Ok(Instruction::End)
    } else if tag == Instruction::SsSwap.spec_tag() {
        Ok(Instruction::SsSwap)
    } else if tag == Instruction::SsWithdrawOne.spec_tag() {
        Ok(Instruction::SsWithdrawOne)
    } else if tag == Instruction::SsDepositA.spec_tag() {
        Ok(Instruction::SsDepositA)
    } else if tag == Instruction::SsDepositB.spec_tag() {
        Ok(Instruction::SsDepositB)
    } else if tag == Instruction::AdWithdraw.spec_tag() {
        Ok(Instruction::AdWithdraw)
    } else if tag == Instruction::AdDeposit.spec_tag() {
        Ok(Instruction::AdDeposit)
    } else if tag == Instruction::DummySwapToken.spec_tag() {
        Ok(Instruction::DummySwapToken)
    } else if tag == Instruction::DummySwapOutput.spec_tag() {
        Ok(Instruction::DummySwapOutput)
    } else if tag == Instruction::DummySsSwap.spec_tag() {
        Ok(Instruction::DummySsSwap)
    } else {
        Err(FrameworkError::InstructionFallbackNotFound)
    }
}

/// What the router makes of an instruction sent to `program_id` with the
/// bytes `data`: it must be sent to the router itself
/// (`DeclaredProgramIdMismatch`), and then is what the bytes carry.
pub open spec fn spec_entry(program_id: Pubkey, data: Seq<u8>) -> Result<
    Instruction,
    FrameworkError,
> {
    if program_id@ != spec_id() {
        Err(FrameworkError::DeclaredProgramIdMismatch)
    } else {
        spec_dispatch(data)
    }
}

/// Whether `data` starts with the tag of `instruction`.
fn has_tag(data: &[u8], instruction: Instruction) -> (same: bool)
    requires
        data.len() >= 8,
    ensures
        same == (data@.subrange(0, 8) == instruction.spec_tag()),
{
    let tag = instruction.tag();
    let mut i: usize = 0;
    while i < 8
        invariant
            i <= 8,
            data.len() >= 8,
            tag@ == instruction.spec_tag(),
            forall|j: int| 0 <= j < i ==> data@[j] == tag@[j],
        decreases 8 - i,
    {
        if data[i] != tag[i] {
            proof {
                assert(data@.subrange(0, 8)[i as int] == data@[i as int]);
            }
            return false;
        }
        i += 1;
    }
    proof {
        assert(data@.subrange(0, 8) =~= tag@);
    }
    true
}

/// Reads the three arguments of a begin instruction from what follows the
/// tag in `data`.
fn begin_args(data: &[u8]) -> (args: Option<(u64, u64, u16)>)
    requires
        data.len() >= 8,
    ensures
        args == if data@.len() < 26 {
            None
        } else {
            let rest = data@.subrange(8, data@.len() as int);
            Some(
                (
                    le_u64(rest.subrange(0, 8)),
                    le_u64(rest.subrange(8, 16)),
                    le_u16(rest.subrange(16, 18)),
                ),
            )
        },
{
    if data.len() < 26 {
        return None;
    }
    let amount_in = get_u64(data, 8);
    let minimum_amount_out = get_u64(data, 16);
    let num_steps = get_u16(data, 24);
    proof {
        let rest = data@.subrange(8, data@.len() as int);
        assert(rest.subrange(0, 8) =~= data@.subrange(8, 16));
        assert(rest.subrange(8, 16) =~= data@.subrange(16, 24));
        assert(rest.subrange(16, 18) =~= data@.subrange(24, 26));
    }
    Some((amount_in, minimum_amount_out, num_steps))
}

/// Performs method dispatch: tells which instruction `data` carries.
pub fn dispatch(data: &[u8]) -> (out: Result<Instruction, FrameworkError>)
    ensures
        out == spec_dispatch(data@),
{
    if data.len() < 8 {
        return Err(FrameworkError::InstructionMissing);
    }
    let begin = Instruction::Begin { amount_in: 0, minimum_amount_out: 0, num_steps: 0 };
    let begin_v2 = Instruction::BeginV2 { amount_in: 0, minimum_amount_out: 0, num_steps: 0 };
    if has_tag(data, Instruction::Idl) {
        Ok(Instruction::Idl)
    } else if has_tag(data, Instruction::CreateAtaIfNotExists) {
        Ok(Instruction::CreateAtaIfNotExists)
    } else if has_tag(data, begin) {
        match begin_args(data) {
            Some((amount_in, minimum_amount_out, num_steps)) => Ok(
                Instruction::Begin { amount_in, minimum_amount_out, num_steps },
            ),
            None => Err(FrameworkError::InstructionDidNotDeserialize),
        }
    } else if has_tag(data, begin_v2) {
        match begin_args(data) {
            Some((amount_in, minimum_amount_out, num_steps)) => Ok(
                Instruction::BeginV2 { amount_in, minimum_amount_out, num_steps },
            ),
            None => Err(FrameworkError::InstructionDidNotDeserialize),
        }
    } else if has_tag(data, Instruction::End) {
        Ok(Instruction::End)
    } else if has_tag(data, Instruction::SsSwap) {
        Ok(Instruction::SsSwap)
    } else if has_tag(data, Instruction::SsWithdrawOne) {
        Ok(Instruction::SsWithdrawOne)
    } else if has_tag(data, Instruction::SsDepositA) {
        Ok(Instruction::SsDepositA)
    } else if has_tag(data, Instruction::SsDepositB) {
        Ok(Instruction::SsDepositB)
    } else if has_tag(data, Instruction::AdWithdraw) {
        Ok(Instruction::AdWithdraw)
    } else if has_tag(data, Instruction::AdDeposit) {
        Ok(Instruction::AdDeposit)
    } else if has_tag(data, Instruction::DummySwapToken) {
        Ok(Instruction::DummySwapToken)
    } else if has_tag(data, Instruction::DummySwapOutput) {
        Ok(Instruction::DummySwapOutput)
    } else if has_tag(data, Instruction::DummySsSwap) {
        Ok(Instruction::DummySsSwap)
    } else {
        Err(FrameworkError::InstructionFallbackNotFound)
    }
}

/// The entry of the router: tells which instruction was sent, for the host
/// to run it.
pub fn entry(program_id: &Pubkey, data: &[u8]) -> (out: Result<Instruction, FrameworkError>)
    ensures
        out == spec_entry(*program_id, data@),
{
    if !check_id(program_id) {
        return Err(FrameworkError::DeclaredProgramIdMismatch);
    }
    dispatch(data)
}

/// The bytes that carry an instruction carry that instruction, whatever
/// follows them.
pub proof fn lemma_dispatch_data(instruction: Instruction, tail: Seq<u8>)
    ensures
        spec_dispatch(instruction.spec_data() + tail) == Ok::<Instruction, FrameworkError>(
            instruction,
        ),
{
    let data = instruction.spec_data() + tail;
    let args = data.subrange(8, data.len() as int);
    assert(data.subrange(0, 8) =~= instruction.spec_tag());
    assert(args =~= instruction.spec_args() + tail);
    match instruction {
        Instruction::Begin { amount_in, minimum_amount_out, num_steps } => {
            assert(args.subrange(0, 8) =~= u64_le(amount_in));
            assert(args.subrange(8, 16) =~= u64_le(minimum_amount_out));
            assert(args.subrange(16, 18) =~= u16_le(num_steps));
            lemma_u64_round_trip(amount_in);
            lemma_u64_round_trip(minimum_amount_out);
            lemma_u16_round_trip(num_steps);
        },
        Instruction::BeginV2 { amount_in, minimum_amount_out, num_steps } => {
            assert(args.subrange(0, 8) =~= u64_le(amount_in));
            assert(args.subrange(8, 16) =~= u64_le(minimum_amount_out));
            assert(args.subrange(16, 18) =~= u16_le(num_steps));
            lemma_u64_round_trip(amount_in);
            lemma_u64_round_trip(minimum_amount_out);
            lemma_u16_round_trip(num_steps);
        },
        _ => {},
    }
}

} // verus!
