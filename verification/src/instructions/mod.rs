//! What the instruction processors ask the runtime to do, and what they share.

pub mod take;
pub mod cancel;

pub use take::process_take_instruction;
pub use cancel::process_cancel_instruction;

use vstd::prelude::*;
use crate::account::AccountSnapshot;
use crate::error::EscrowError;

verus! {

/// Signing on behalf of the escrow account: the seeds are `"escrow"`, the
/// address of the account at index `maker`, and `[bump]`.
#[derive(Clone, Copy, Debug, PartialEq, Eq, Structural)]
pub struct EscrowSigner {
    pub maker: usize,
    pub bump: u8,
}

/// A cross-program invocation; each field is an index into the instruction's accounts.
#[derive(Clone, Copy, Debug, PartialEq, Eq, Structural)]
pub enum Cpi {
    /// Create the associated token account `account` of `wallet` for `mint`,
    /// unless it exists already.
    CreateIdempotent {
        funding_account: usize,
        account: usize,
        wallet: usize,
        mint: usize,
        system_program: usize,
        token_program: usize,
    },
    /// Move `amount` tokens from `from` to `to`, authorised by `authority`.
    Transfer { from: usize, to: usize, authority: usize, amount: u64, signer: Option<EscrowSigner> },
    /// Close the token account `account`, sending its lamports to `destination`.
    CloseAccount { account: usize, destination: usize, authority: usize, escrow_signer: EscrowSigner },
}

/// The next thing the runtime has to do for an instruction.
#[derive(Clone, Copy, Debug, PartialEq, Eq)]
pub enum Step {
    /// Perform the invocation, then call the processor again with its outcome.
    Invoke(Cpi),
    /// Set the balance of `destination` to `lamports`, empty `closed` of its
    /// lamports and close it; the instruction then succeeds.
    Settle { destination: usize, lamports: u64, closed: usize },
    /// The instruction ends with this result.
    Finish(Result<(), EscrowError>),
}

/// The step that ends an instruction after an invocation failed with `code`.
pub open spec fn invoke_failed(code: u64) -> Step {
    Step::Finish(Err(EscrowError::Invoke(code)))
}

/// Moving every lamport of account `closed` to account `destination`: refused
/// when the sum does not fit in a `u64`.
pub open spec fn settlement(accounts: Seq<AccountSnapshot>, destination: int, closed: int) -> Step {
    let total = accounts[destination].lamports + accounts[closed].lamports;
    if total > u64::MAX {
        Step::Finish(Err(EscrowError::ArithmeticOverflow))
    } else {
        Step::Settle { destination: destination as usize, lamports: total as u64, closed: closed as usize }
    }
}

/// Computes the settlement that moves every lamport of `closed` to `destination`.
pub fn settle(accounts: &Vec<AccountSnapshot>, destination: usize, closed: usize) -> (s: Step)
    requires
        destination < accounts@.len(),
        closed < accounts@.len(),
    ensures
        s == settlement(accounts@, destination as int, closed as int),
{
    match accounts[destination].lamports.checked_add(accounts[closed].lamports) {
        Some(total) => Step::Settle { destination, lamports: total, closed },
        None => Step::Finish(Err(EscrowError::ArithmeticOverflow)),
    }
}

} // verus!
