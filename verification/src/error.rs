//! The error taxonomy of the assembler: every stage reports its first failure
//! as a structured value carrying the offending token kind, label, or offset.

use vstd::prelude::*;
use crate::token::TokKind;
use crate::token::TokenKind;

verus! {

/// Mathematical model of an assembler error.
pub enum ErrSpec {
    /// A numeric literal does not fit in a signed machine word.
    InvalidNumberLiteral,
    /// A token of one kind was required by the grammar but another was found.
    UnexpectedToken { expected: TokKind, actual: TokKind },
    /// A register index or immediate operand was required.
    ExpectedNumber { actual: TokKind },
    /// A branch target (immediate or label name) was required.
    ExpectedNumberOrSymbol { actual: TokKind },
    /// The leading token of a line is not a mnemonic with a production.
    UnsupportedInstruction { actual: TokKind },
    /// A branch names a label that the label table does not hold.
    UnresolvedLabel { label: Seq<char> },
    /// A label name is defined on more than one line.
    DuplicateLabel { label: Seq<char> },
    /// A resolved branch offset does not fit in the signed 12-bit immediate.
    BranchTargetOutOfRange { offset: int },
    /// A label-definition line reached the encoder, which has no word for it.
    UnencodedLabelLine { label: Seq<char> },
    /// The program-counter ran past the machine word while counting lines.
    ProgramTooLarge,
}

/// An assembler error: lexical, syntactic, or from encoding and label
/// resolution. Each variant carries what it needs to describe the failure.
#[derive(Debug, PartialEq, Eq)]
pub enum AsmError {
    InvalidNumberLiteral,
    UnexpectedToken { expected: TokenKind, actual: TokenKind },
    ExpectedNumber { actual: TokenKind },
    ExpectedNumberOrSymbol { actual: TokenKind },
    UnsupportedInstruction { actual: TokenKind },
    UnresolvedLabel { label: String },
    DuplicateLabel { label: String },
    BranchTargetOutOfRange { offset: i128 },
    UnencodedLabelLine { label: String },
    ProgramTooLarge,
}

impl View for AsmError {
    type V = ErrSpec;

    open spec fn view(&self) -> ErrSpec {
        match self {
            AsmError::InvalidNumberLiteral => ErrSpec::InvalidNumberLiteral,
            AsmError::UnexpectedToken { expected, actual } => ErrSpec::UnexpectedToken {
                expected: expected@,
                actual: actual@,
            },
            AsmError::ExpectedNumber { actual } => ErrSpec::ExpectedNumber { actual: actual@ },
            AsmError::ExpectedNumberOrSymbol { actual } => ErrSpec::ExpectedNumberOrSymbol {
                actual: actual@,
            },
            AsmError::UnsupportedInstruction { actual } => ErrSpec::UnsupportedInstruction {
                actual: actual@,
            },
            AsmError::UnresolvedLabel { label } => ErrSpec::UnresolvedLabel { label: label@ },
            AsmError::DuplicateLabel { label } => ErrSpec::DuplicateLabel { label: label@ },
            AsmError::BranchTargetOutOfRange { offset } => ErrSpec::BranchTargetOutOfRange {
                offset: *offset as int,
            },
            AsmError::UnencodedLabelLine { label } => ErrSpec::UnencodedLabelLine { label: label@ },
            AsmError::ProgramTooLarge => ErrSpec::ProgramTooLarge,
        }
    }
}

} // verus!
