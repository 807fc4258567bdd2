use vstd::prelude::*;

verus! {

/// Why an instruction was refused.
#[derive(Clone, Copy, Debug, PartialEq, Eq, Structural)]
pub enum EscrowError {
    /// Fewer accounts were passed than the instruction expects.
    NotEnoughAccountKeys,
    /// The account that has to authorise the instruction did not sign.
    MissingRequiredSignature,
    /// An account is owned by the wrong program or wallet.
    IllegalOwner,
    /// An account's data does not have the expected shape or contents.
    InvalidAccountData,
    /// The escrow account is not the address derived from its seeds.
    InvalidSeeds,
    /// A token account is not owned by the token program.
    IncorrectProgramId,
    /// A lamport balance would overflow.
    ArithmeticOverflow,
    /// A cross-program invocation failed with the given raw error code.
    Invoke(u64),
}

} // verus!
