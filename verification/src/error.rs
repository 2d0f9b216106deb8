//! The ways in which a route can be refused.

use vstd::prelude::*;
use vstd::std_specs::convert::FromSpecImpl;

verus! {

/// The number from which the codes of the router's errors count up.
pub const ERROR_CODE_OFFSET: u32 = 6000;

/// Why the router refused an instruction.
#[derive(Clone, Copy, Debug, PartialEq, Eq, Structural, Hash)]
pub enum ErrorCode {
    PathInputOutputMismatch,
    TransitiveSwapCalculationError,
    OverflowSwapResult,
    BalanceLower,
    ZeroSwap,
    InputOwnerMismatch,
    InputMintMismatch,
    OutputOwnerMismatch,
    NoMoreSteps,
    InsufficientInputBalance,
    EndIncomplete,
    MinimumOutNotMet,
    OutputMintMismatch,
}

/// Why the host's framework refuses an instruction before the router's own
/// rules are asked: the instruction or one of its accounts is not what the
/// router's interface declares.
#[derive(Clone, Copy, Debug, PartialEq, Eq, Structural, Hash)]
pub enum FrameworkError {
    /// The instruction data is too short to name an instruction.
    InstructionMissing,
    /// The instruction data names no instruction of the router.
    InstructionFallbackNotFound,
    /// The arguments of the instruction could not be decoded.
    InstructionDidNotDeserialize,
    /// The instruction was sent to another program.
    DeclaredProgramIdMismatch,
    /// An account that must be writable is not.
    ConstraintMut,
    /// A record does not name the account that it must belong to.
    ConstraintHasOne,
    /// The storage of a record does not hold enough to be exempt from rent.
    ConstraintRentExempt,
    /// The continuation is not at the address derived for it.
    ConstraintSeeds,
    /// An account would be closed into itself.
    ConstraintClose,
    /// Storage that must be fresh already holds a record.
    ConstraintZero,
    /// The stored form of a record is too short to hold the mark of its kind.
    AccountDiscriminatorNotFound,
    /// The stored form of a record carries the mark of another kind.
    AccountDiscriminatorMismatch,
    /// The stored form of a record could not be decoded.
    AccountDidNotDeserialize,
    /// The instruction names fewer accounts than it needs.
    AccountNotEnoughKeys,
    /// An account that must have signed did not.
    AccountNotSigner,
    /// An account does not hold a record of the kind that the instruction
    /// expects at its place.
    AccountOwnedByWrongProgram,
}

impl ErrorCode {
    /// The place of the error in the list of errors, counted from zero.
    pub open spec fn index(self) -> nat {
        match self {
            ErrorCode::PathInputOutputMismatch => 0,
            ErrorCode::TransitiveSwapCalculationError => 1,
            ErrorCode::OverflowSwapResult => 2,
            ErrorCode::BalanceLower => 3,
            ErrorCode::ZeroSwap => 4,
            ErrorCode::InputOwnerMismatch => 5,
            ErrorCode::InputMintMismatch => 6,
            ErrorCode::OutputOwnerMismatch => 7,
            ErrorCode::NoMoreSteps => 8,
            ErrorCode::InsufficientInputBalance => 9,
            ErrorCode::EndIncomplete => 10,
            ErrorCode::MinimumOutNotMet => 11,
            ErrorCode::OutputMintMismatch => 12,
        }
    }

    /// The symbolic name of the error.
    pub open spec fn spec_name(self) -> Seq<char> {
        match self {
            ErrorCode::PathInputOutputMismatch => "PathInputOutputMismatch"@,
            ErrorCode::TransitiveSwapCalculationError => "TransitiveSwapCalculationError"@,
            ErrorCode::OverflowSwapResult => "OverflowSwapResult"@,
            ErrorCode::BalanceLower => "BalanceLower"@,
            ErrorCode::ZeroSwap => "ZeroSwap"@,
            ErrorCode::InputOwnerMismatch => "InputOwnerMismatch"@,
            ErrorCode::InputMintMismatch => "InputMintMismatch"@,
            ErrorCode::OutputOwnerMismatch => "OutputOwnerMismatch"@,
            ErrorCode::NoMoreSteps => "NoMoreSteps"@,
            ErrorCode::InsufficientInputBalance => "InsufficientInputBalance"@,
            ErrorCode::EndIncomplete => "EndIncomplete"@,
            ErrorCode::MinimumOutNotMet => "MinimumOutNotMet"@,
            ErrorCode::OutputMintMismatch => "OutputMintMismatch"@,
        }
    }

    /// The sentence that describes the error to a reader.
    pub open spec fn spec_message(self) -> Seq<char> {
        match self {
            ErrorCode::PathInputOutputMismatch => "Path input does not match prior output."@,
            ErrorCode::TransitiveSwapCalculationError => "Error in a transitive swap input/output calculation."@,
            ErrorCode::OverflowSwapResult => "Swap result overflowed when checking balance difference."@,
            ErrorCode::BalanceLower => "Swap resulted in a balance lower than the original balance."@,
            ErrorCode::ZeroSwap => "Cannot perform a zero swap."@,
            ErrorCode::InputOwnerMismatch => "Input owner does not match continuation owner."@,
            ErrorCode::InputMintMismatch => "Input mint does not match continuation input mint."@,
            ErrorCode::OutputOwnerMismatch => "Output owner does not match continuation owner."@,
            ErrorCode::NoMoreSteps => "No more steps to process."@,
            ErrorCode::InsufficientInputBalance => "Insufficient input balance"@,
            ErrorCode::EndIncomplete => "Not all steps were processed."@,
            ErrorCode::MinimumOutNotMet => "Minimum amount out not met."@,
            ErrorCode::OutputMintMismatch => "Output mint does not match continuation output mint."@,
        }
    }

    /// Gets the name of this error.
    pub fn name(&self) -> (name: String)
        ensures
            name@ == self.spec_name(),
    {
        match self {
            ErrorCode::PathInputOutputMismatch => "PathInputOutputMismatch".to_owned(),
            ErrorCode::TransitiveSwapCalculationError => "TransitiveSwapCalculationError".to_owned(),
            ErrorCode::OverflowSwapResult => "OverflowSwapResult".to_owned(),
            ErrorCode::BalanceLower => "BalanceLower".to_owned(),
            ErrorCode::ZeroSwap => "ZeroSwap".to_owned(),
            ErrorCode::InputOwnerMismatch => "InputOwnerMismatch".to_owned(),
            ErrorCode::InputMintMismatch => "InputMintMismatch".to_owned(),
            ErrorCode::OutputOwnerMismatch => "OutputOwnerMismatch".to_owned(),
            ErrorCode::NoMoreSteps => "NoMoreSteps".to_owned(),
            ErrorCode::InsufficientInputBalance => "InsufficientInputBalance".to_owned(),
            ErrorCode::EndIncomplete => "EndIncomplete".to_owned(),
            ErrorCode::MinimumOutNotMet => "MinimumOutNotMet".to_owned(),
            ErrorCode::OutputMintMismatch => "OutputMintMismatch".to_owned(),
        }
    }

    /// The sentence that describes the error to a reader.
    pub fn to_string(&self) -> (message: String)
        ensures
            message@ == self.spec_message(),
    {
        match self {
            ErrorCode::PathInputOutputMismatch => "Path input does not match prior output.".to_owned(),
            ErrorCode::TransitiveSwapCalculationError => "Error in a transitive swap input/output calculation.".to_owned(),
            ErrorCode::OverflowSwapResult => "Swap result overflowed when checking balance difference.".to_owned(),
            ErrorCode::BalanceLower => "Swap resulted in a balance lower than the original balance.".to_owned(),
            ErrorCode::ZeroSwap => "Cannot perform a zero swap.".to_owned(),
            ErrorCode::InputOwnerMismatch => "Input owner does not match continuation owner.".to_owned(),
            ErrorCode::InputMintMismatch => "Input mint does not match continuation input mint.".to_owned(),
            ErrorCode::OutputOwnerMismatch => "Output owner does not match continuation owner.".to_owned(),
            ErrorCode::NoMoreSteps => "No more steps to process.".to_owned(),
            ErrorCode::InsufficientInputBalance => "Insufficient input balance".to_owned(),
            ErrorCode::EndIncomplete => "Not all steps were processed.".to_owned(),
            ErrorCode::MinimumOutNotMet => "Minimum amount out not met.".to_owned(),
            ErrorCode::OutputMintMismatch => "Output mint does not match continuation output mint.".to_owned(),
        }
    }
}

impl From<ErrorCode> for u32 {
    /// The number under which the host reports the error.
    fn from(e: ErrorCode) -> (code: u32) {
        let index: u32 = match e {
            ErrorCode::PathInputOutputMismatch => 0,
            ErrorCode::TransitiveSwapCalculationError => 1,
            ErrorCode::OverflowSwapResult => 2,
            ErrorCode::BalanceLower => 3,
            ErrorCode::ZeroSwap => 4,
            ErrorCode::InputOwnerMismatch => 5,
            ErrorCode::InputMintMismatch => 6,
            ErrorCode::OutputOwnerMismatch => 7,
            ErrorCode::NoMoreSteps => 8,
            ErrorCode::InsufficientInputBalance => 9,
            ErrorCode::EndIncomplete => 10,
            ErrorCode::MinimumOutNotMet => 11,
            ErrorCode::OutputMintMismatch => 12,
        };
        index + ERROR_CODE_OFFSET
    }
}

impl FromSpecImpl<ErrorCode> for u32 {
    open spec fn obeys_from_spec() -> bool {
        true
    }

    open spec fn from_spec(e: ErrorCode) -> u32 {
        (e.index() + ERROR_CODE_OFFSET) as u32
    }
}

} // verus!
