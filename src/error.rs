use vstd::prelude::*;

verus! {

/// Every way in which decoding or initializing an escrow can fail.
#[derive(Clone, Copy, Debug, PartialEq, Eq, Structural)]
pub enum EscrowError {
    /// The instruction buffer is empty or too short for its payload.
    InvalidInstruction,
    /// The instruction's tag names no known instruction.
    UnknownInstruction,
    /// The escrow record's bytes are not a valid record.
    InvalidAccountData,
    /// Fewer accounts were supplied than the instruction reads.
    NotEnoughAccountKeys,
    /// The initializer did not sign.
    MissingRequiredSignature,
    /// An account is not owned by, or is not, the token program.
    IncorrectProgramId,
    /// The escrow account is not funded enough to be exempt from rent.
    NotRentExempt,
    /// The escrow record already holds terms.
    AccountAlreadyInitialized,
    /// No program address could be derived for the escrow authority.
    AddressDerivationFailed,
}

} // verus!
