use vstd::prelude::*;
use crate::account::AccountSnapshot;
use crate::bytes::same_address;
use crate::error::EscrowError;
use crate::instructions::{invoke_failed, settle, settlement, Cpi, EscrowSigner, Step};
use crate::pda::{escrow_address, spec_escrow_address};
use crate::state::{escrow_bump, escrow_maker, escrow_mint_a, Escrow, ESCROW_LEN};
use crate::token::{check_token_account, token_account_check};

verus! {

/// Accounts of `cancel`, in order:
/// 0. `[writable, signer]` maker
/// 1. `[]` mint A
/// 2. `[writable]` escrow account
/// 3. `[writable]` vault (owned by the escrow, holds mint A)
/// 4. `[writable]` maker's token account for mint A
/// 5. `[]` token program
pub const CANCEL_ACCOUNTS: usize = 6;

/// What `cancel` remembers between invocations.
#[derive(Clone, Copy, Debug, PartialEq, Eq, Structural)]
pub struct CancelTerms {
    /// The escrow address's bump seed.
    pub bump: u8,
    /// The vault's whole balance when the escrow was checked.
    pub vault_amount: u64,
}

/// Where a `cancel` instruction stands.
#[derive(Clone, Copy, Debug, PartialEq, Eq, Structural)]
pub enum CancelState {
    Start,
    ReturningVault(CancelTerms),
    ClosingVault(CancelTerms),
    Done,
}

/// The checks of `cancel` up to the escrow record, in the order they are made.
pub open spec fn cancel_escrow_check(a: Seq<AccountSnapshot>, program_id: Seq<u8>) -> Result<(), EscrowError> {
    if a.len() < CANCEL_ACCOUNTS {
        Err(EscrowError::NotEnoughAccountKeys)
    } else if !a[0].is_signer {
        Err(EscrowError::MissingRequiredSignature)
    } else if a[2].owner@ != program_id {
        Err(EscrowError::IllegalOwner)
    } else if a[2].data@.len() != ESCROW_LEN {
        Err(EscrowError::InvalidAccountData)
    } else if escrow_maker(a[2].data@) != a[0].address@ || escrow_mint_a(a[2].data@)
        != a[1].address@ {
        Err(EscrowError::InvalidAccountData)
    } else {
        Ok(())
    }
}

/// The remaining checks of `cancel`, given the address derived from the escrow's
/// seeds, and the terms they yield.
pub open spec fn cancel_terms_given(a: Seq<AccountSnapshot>, derived: Seq<u8>) -> Result<CancelTerms, EscrowError> {
    if derived != a[2].address@ {
        Err(EscrowError::InvalidSeeds)
    } else {
        match token_account_check(a[3], a[2].address@, a[1].address@) {
            Err(e) => Err(e),
            Ok(vault_amount) => match token_account_check(a[4], a[0].address@, a[1].address@) {
                Err(e) => Err(e),
                Ok(_) => Ok(CancelTerms { bump: escrow_bump(a[2].data@), vault_amount }),
            },
        }
    }
}

/// Every check that `cancel` makes before its first invocation, and the terms they yield.
pub open spec fn cancel_terms(a: Seq<AccountSnapshot>, program_id: Seq<u8>) -> Result<CancelTerms, EscrowError> {
    match cancel_escrow_check(a, program_id) {
        Err(e) => Err(e),
        Ok(_) => cancel_terms_given(
            a,
            spec_escrow_address(a[0].address@, escrow_bump(a[2].data@), program_id),
        ),
    }
}

/// The escrow returns the whole vault to the maker.
pub open spec fn return_vault(t: CancelTerms) -> Cpi {
    Cpi::Transfer {
        from: 3,
        to: 4,
        authority: 2,
        amount: t.vault_amount,
        signer: Some(EscrowSigner { maker: 0, bump: t.bump }),
    }
}

/// The escrow closes the vault, its lamports going to the maker.
pub open spec fn close_cancelled_vault(t: CancelTerms) -> Cpi {
    Cpi::CloseAccount {
        account: 3,
        destination: 0,
        authority: 2,
        escrow_signer: EscrowSigner { maker: 0, bump: t.bump },
    }
}

/// One move of the `cancel` state machine: from state `s`, with the accounts as
/// they are now and the outcome of the invocation asked for last.
pub open spec fn cancel_transition(
    s: CancelState,
    a: Seq<AccountSnapshot>,
    program_id: Seq<u8>,
    outcome: Result<(), u64>,
) -> (CancelState, Step) {
    match s {
        CancelState::Start => match cancel_terms(a, program_id) {
            Err(e) => (CancelState::Done, Step::Finish(Err(e))),
            Ok(t) => (CancelState::ReturningVault(t), Step::Invoke(return_vault(t))),
        },
        CancelState::ReturningVault(t) => match outcome {
            Err(code) => (CancelState::Done, invoke_failed(code)),
            Ok(_) => (CancelState::ClosingVault(t), Step::Invoke(close_cancelled_vault(t))),
        },
        CancelState::ClosingVault(t) => match outcome {
            Err(code) => (CancelState::Done, invoke_failed(code)),
            Ok(_) => (CancelState::Done, settlement(a, 0, 2)),
        },
        CancelState::Done => (CancelState::Done, Step::Finish(Ok(()))),
    }
}

/// Makes the checks of `cancel` up to the escrow record and returns the record.
pub fn check_cancel_escrow(accounts: &Vec<AccountSnapshot>, program_id: &[u8; 32]) -> (r: Result<
    Escrow,
    EscrowError,
>)
    ensures
        cancel_escrow_check(accounts@, program_id@) is Err ==> r == Err::<Escrow, EscrowError>(
            cancel_escrow_check(accounts@, program_id@)->Err_0,
        ),
        cancel_escrow_check(accounts@, program_id@) is Ok ==> (r matches Ok(e) && e.encoded_by(
            accounts@[2].data@,
        )),
{
    if accounts.len() < CANCEL_ACCOUNTS {
        return Err(EscrowError::NotEnoughAccountKeys);
    }
    if !accounts[0].is_signer {
        return Err(EscrowError::MissingRequiredSignature);
    }
    if !same_address(&accounts[2].owner, program_id) {
        return Err(EscrowError::IllegalOwner);
    }
    let escrow = Escrow::load(&accounts[2].data)?;
    if !same_address(&escrow.maker, &accounts[0].address) || !same_address(
        &escrow.mint_a,
        &accounts[1].address,
    ) {
        return Err(EscrowError::InvalidAccountData);
    }
    Ok(escrow)
}

/// Makes the remaining checks of `cancel`, given the escrow record and the
/// address derived from its seeds, and returns what the cancellation moves.
pub fn check_cancel_vault(accounts: &Vec<AccountSnapshot>, escrow: &Escrow, derived: &[u8; 32]) -> (r:
    Result<CancelTerms, EscrowError>)
    requires
        accounts@.len() >= CANCEL_ACCOUNTS,
        escrow.encoded_by(accounts@[2].data@),
    ensures
        r == cancel_terms_given(accounts@, derived@),
{
    if !same_address(derived, &accounts[2].address) {
        return Err(EscrowError::InvalidSeeds);
    }
    let vault_amount = check_token_account(&accounts[3], &accounts[2].address, &accounts[1].address)?;
    check_token_account(&accounts[4], &accounts[0].address, &accounts[1].address)?;
    Ok(CancelTerms { bump: escrow.bump, vault_amount })
}

/// Advances a `cancel` instruction by one step. On the first call `state` is
/// `Start` and `outcome` is not read; on each later call `outcome` is the result
/// of the invocation that the previous step asked for, and `accounts` are the
/// accounts as they are after it.
pub fn process_cancel_instruction(
    state: &mut CancelState,
    accounts: &Vec<AccountSnapshot>,
    program_id: &[u8; 32],
    outcome: Result<(), u64>,
) -> (step: Step)
    requires
        *old(state) != CancelState::Done,
        *old(state) == CancelState::Start || accounts@.len() >= CANCEL_ACCOUNTS,
    ensures
        (*final(state), step) == cancel_transition(*old(state), accounts@, program_id@, outcome),
{
    match *state {
        CancelState::Start => {
            let escrow = match check_cancel_escrow(accounts, program_id) {
                Ok(e) => e,
                Err(e) => {
                    *state = CancelState::Done;
                    return Step::Finish(Err(e));
                },
            };
            let derived = escrow_address(&accounts[0].address, escrow.bump, program_id);
            match check_cancel_vault(accounts, &escrow, &derived) {
                Ok(t) => {
                    *state = CancelState::ReturningVault(t);
                    Step::Invoke(
                        Cpi::Transfer {
                            from: 3,
                            to: 4,
                            authority: 2,
                            amount: t.vault_amount,
                            signer: Some(EscrowSigner { maker: 0, bump: t.bump }),
                        },
                    )
                },
                Err(e) => {
                    *state = CancelState::Done;
                    Step::Finish(Err(e))
                },
            }
        },
        CancelState::ReturningVault(t) => match outcome {
            Err(code) => {
                *state = CancelState::Done;
                Step::Finish(Err(EscrowError::Invoke(code)))
            },
            Ok(_) => {
                *state = CancelState::ClosingVault(t);
                Step::Invoke(
                    Cpi::CloseAccount {
                        account: 3,
                        destination: 0,
                        authority: 2,
                        escrow_signer: EscrowSigner { maker: 0, bump: t.bump },
                    },
                )
            },
        },
        CancelState::ClosingVault(_) => match outcome {
            Err(code) => {
                *state = CancelState::Done;
                Step::Finish(Err(EscrowError::Invoke(code)))
            },
            Ok(_) => {
                *state = CancelState::Done;
                settle(accounts, 0, 2)
            },
        },
        CancelState::Done => Step::Finish(Ok(())),
    }
}

} // verus!
