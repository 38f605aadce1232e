//! Error taxonomy of the treasury core.
//!
//! `ProgramError` is the error type surfaced by the instruction dispatcher;
//! `OVTError` is the domain-level taxonomy used by the guards, the
//! authorizer and the payment verifier.  Every rejection is fatal for the
//! current instruction and leaves all state exactly as it was.

use vstd::prelude::*;

verus! {

/// Errors surfaced by the dispatcher and the account runtime model.
#[derive(Debug, Clone, PartialEq, Eq)]
pub enum ProgramError {
    InvalidArgument,
    InvalidInstructionData,
    InvalidAccountData,
    AccountNotFound,
    InsufficientFunds,
    MissingRequiredSignature,
    Arithmetic,
    Overflow,
    InvalidNAVUpdate,
    InvalidSupplyChange,
    InvalidBitcoinPayment,
    InsufficientConfirmations,
    InvalidTreasuryKey,
    NotAnAdmin,
    DuplicateSignature,
    InsufficientSignatures,
    UTXOVerificationFailed,
    Custom(String),
}

pub type ProgramResult = Result<(), ProgramError>;

/// Domain-level errors of the treasury core.
#[derive(Debug, Clone, PartialEq, Eq)]
pub enum OVTError {
    InvalidAuthority,
    InvalidSAFEId,
    ArithmeticOverflow,
    InvalidTokenAccount,
    InvalidMetadataAccount,
    InvalidMintAccount,
    InvalidTreasuryAccount,
    InvalidOracleAccount,
    SAFENotFound,
    SAFEAlreadyConverted,
    SAFENotUnlocked,
    ProgramError(ProgramError),
    InvalidBitcoinPayment,
    InvalidNAVUpdate,
    InsufficientFunds,
    InvalidTreasuryKey,
    InvalidSupplyChange,
    InvalidTimestamp,
    UTXOVerificationFailed,
    NotAnAdmin,
    DuplicateSignature,
    InsufficientSignatures,
    InsufficientConfirmations,
}

/// The `ProgramError` that a given domain error is surfaced as.
pub open spec fn spec_to_program_error(e: OVTError) -> ProgramError {
    match e {
        OVTError::InvalidNAVUpdate => ProgramError::InvalidNAVUpdate,
        OVTError::InvalidSupplyChange => ProgramError::InvalidSupplyChange,
        OVTError::InvalidBitcoinPayment => ProgramError::InvalidBitcoinPayment,
        OVTError::InsufficientFunds => ProgramError::InsufficientFunds,
        OVTError::InsufficientConfirmations => ProgramError::InsufficientConfirmations,
        OVTError::InvalidTreasuryKey => ProgramError::InvalidTreasuryKey,
        OVTError::NotAnAdmin => ProgramError::NotAnAdmin,
        OVTError::DuplicateSignature => ProgramError::DuplicateSignature,
        OVTError::InsufficientSignatures => ProgramError::InsufficientSignatures,
        OVTError::UTXOVerificationFailed => ProgramError::UTXOVerificationFailed,
        OVTError::ArithmeticOverflow => ProgramError::Overflow,
        OVTError::ProgramError(p) => p,
        _ => ProgramError::InvalidArgument,
    }
}

impl OVTError {
    /// Surface this domain error as a `ProgramError`.
    pub fn to_program_error(self) -> (r: ProgramError)
        ensures
            r == spec_to_program_error(self),
    {
        match self {
            OVTError::InvalidNAVUpdate => ProgramError::InvalidNAVUpdate,
            OVTError::InvalidSupplyChange => ProgramError::InvalidSupplyChange,
            OVTError::InvalidBitcoinPayment => ProgramError::InvalidBitcoinPayment,
            OVTError::InsufficientFunds => ProgramError::InsufficientFunds,
            OVTError::InsufficientConfirmations => ProgramError::InsufficientConfirmations,
            OVTError::InvalidTreasuryKey => ProgramError::InvalidTreasuryKey,
            OVTError::NotAnAdmin => ProgramError::NotAnAdmin,
            OVTError::DuplicateSignature => ProgramError::DuplicateSignature,
            OVTError::InsufficientSignatures => ProgramError::InsufficientSignatures,
            OVTError::UTXOVerificationFailed => ProgramError::UTXOVerificationFailed,
            OVTError::ArithmeticOverflow => ProgramError::Overflow,
            OVTError::ProgramError(p) => p,
            _ => ProgramError::InvalidArgument,
        }
    }
}

} // verus!
