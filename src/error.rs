use vstd::prelude::*;

verus! {

/// Every way an instruction can be refused.
#[derive(Debug, Clone, Copy, PartialEq, Eq, Structural)]
pub enum BridgeError {
    /// A required signer did not sign.
    MissingRequiredSignature,
    /// An account is not controlled by the expected program or authority.
    IncorrectProgramId,
    /// The custody account holds less than the rent-exempt minimum.
    NotRentExempt,
    /// The registry was already initialized.
    BeaconsInitialized,
    /// The instruction payload could not be decoded.
    InvalidInstructionData,
    /// Fewer accounts were supplied than the instruction reads.
    NotEnoughAccountKeys,
    /// An account's data does not decode.
    InvalidAccountData,
    /// An account's data decodes to an uninitialized record.
    UninitializedAccount,
    /// The rent sysvar account is not the one the host provides.
    InvalidArgument,
    /// The seeds do not yield a program-derived address.
    InvalidSeeds,
    /// A seed is longer than the host allows.
    MaxSeedLengthExceeded,
    /// The owning program may not derive addresses.
    IllegalOwner,
}

} // verus!
