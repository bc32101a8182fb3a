use vstd::prelude::*;

verus! {

/// The program errors that the processors of this crate can report.
///
/// Each variant stands for the `solana_program::program_error::ProgramError`
/// variant of the same name.
#[derive(Debug, Clone, Copy, PartialEq, Eq, Structural)]
pub enum ProgramError {
    Custom(u32),
    InvalidInstructionData,
    InvalidAccountData,
    AccountAlreadyInitialized,
    UninitializedAccount,
    NotEnoughAccountKeys,
    MissingRequiredSignature,
    InvalidSeeds,
    IncorrectProgramId,
    InvalidAccountOwner,
}

} // verus!
