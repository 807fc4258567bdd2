use vstd::prelude::*;
use crate::account::AccountSnapshot;
use crate::bytes::same_address;
use crate::error::EscrowError;
use crate::instructions::{invoke_failed, settle, settlement, Cpi, EscrowSigner, Step};
use crate::pda::{escrow_address, spec_escrow_address};
use crate::state::{
    escrow_amount_to_receive, escrow_bump, escrow_maker, escrow_mint_a, escrow_mint_b, Escrow,
    ESCROW_LEN,
};
use crate::token::{check_token_account, token_account_check};

verus! {

/// Accounts of `take`, in order:
/// 0. `[writable, signer]` taker
/// 1. `[writable]` maker
/// 2. `[]` mint A
/// 3. `[]` mint B
/// 4. `[writable]` escrow account
/// 5. `[writable]` vault (owned by the escrow, holds mint A)
/// 6. `[writable]` taker's token account for mint A
/// 7. `[writable]` taker's token account for mint B
/// 8. `[writable]` maker's token account for mint B
/// 9. `[]` system program
/// 10. `[]` token program
/// 11. `[]` associated token program
pub const TAKE_ACCOUNTS: usize = 12;

/// What `take` remembers between invocations.
#[derive(Clone, Copy, Debug, PartialEq, Eq, Structural)]
pub struct TakeTerms {
    /// The price in mint-B tokens, as recorded in the escrow.
    pub amount_to_receive: u64,
    /// The escrow address's bump seed.
    pub bump: u8,
    /// The vault's whole balance when the trade was checked.
    pub vault_amount: u64,
}

/// Where a `take` instruction stands.
#[derive(Clone, Copy, Debug, PartialEq, Eq, Structural)]
pub enum TakeState {
    Start,
    CreatingTakerAtaA(TakeTerms),
    CreatingMakerAtaB(TakeTerms),
    PayingMaker(TakeTerms),
    ReleasingVault(TakeTerms),
    ClosingVault(TakeTerms),
    Done,
}

/// The checks of `take` up to the escrow record, in the order they are made.
pub open spec fn take_escrow_check(a: Seq<AccountSnapshot>, program_id: Seq<u8>) -> Result<(), EscrowError> {
    if a.len() < TAKE_ACCOUNTS {
        Err(EscrowError::NotEnoughAccountKeys)
    } else if !a[0].is_signer {
        Err(EscrowError::MissingRequiredSignature)
    } else if a[4].owner@ != program_id {
        Err(EscrowError::IllegalOwner)
    } else if a[4].data@.len() != ESCROW_LEN {
        Err(EscrowError::InvalidAccountData)
    } else if escrow_maker(a[4].data@) != a[1].address@ || escrow_mint_a(a[4].data@)
        != a[2].address@ || escrow_mint_b(a[4].data@) != a[3].address@ {
        Err(EscrowError::InvalidAccountData)
    } else {
        Ok(())
    }
}

/// The remaining checks of `take`, given the address derived from the escrow's
/// seeds, and the terms they yield.
pub open spec fn take_terms_given(a: Seq<AccountSnapshot>, derived: Seq<u8>) -> Result<TakeTerms, EscrowError> {
    if derived != a[4].address@ {
        Err(EscrowError::InvalidSeeds)
    } else {
        match token_account_check(a[5], a[4].address@, a[2].address@) {
            Err(e) => Err(e),
            Ok(vault_amount) => Ok(
                TakeTerms {
                    amount_to_receive: escrow_amount_to_receive(a[4].data@) as u64,
                    bump: escrow_bump(a[4].data@),
                    vault_amount,
                },
            ),
        }
    }
}

/// Every check that `take` makes before its first invocation, and the terms they yield.
pub open spec fn take_terms(a: Seq<AccountSnapshot>, program_id: Seq<u8>) -> Result<TakeTerms, EscrowError> {
    match take_escrow_check(a, program_id) {
        Err(e) => Err(e),
        Ok(_) => take_terms_given(
            a,
            spec_escrow_address(a[1].address@, escrow_bump(a[4].data@), program_id),
        ),
    }
}

/// Creating the taker's token account for mint A.
pub open spec fn create_taker_ata_a() -> Cpi {
    Cpi::CreateIdempotent {
        funding_account: 0,
        account: 6,
        wallet: 0,
        mint: 2,
        system_program: 9,
        token_program: 10,
    }
}

/// Creating the maker's token account for mint B.
pub open spec fn create_maker_ata_b() -> Cpi {
    Cpi::CreateIdempotent {
        funding_account: 0,
        account: 8,
        wallet: 1,
        mint: 3,
        system_program: 9,
        token_program: 10,
    }
}

/// The taker pays the maker the recorded price.
pub open spec fn pay_maker(t: TakeTerms) -> Cpi {
    Cpi::Transfer { from: 7, to: 8, authority: 0, amount: t.amount_to_receive, signer: None }
}

/// The escrow releases the whole vault to the taker.
pub open spec fn release_vault(t: TakeTerms) -> Cpi {
    Cpi::Transfer {
        from: 5,
        to: 6,
        authority: 4,
        amount: t.vault_amount,
        signer: Some(EscrowSigner { maker: 1, bump: t.bump }),
    }
}

/// The escrow closes the vault, its lamports going to the maker.
pub open spec fn close_vault(t: TakeTerms) -> Cpi {
    Cpi::CloseAccount {
        account: 5,
        destination: 1,
        authority: 4,
        escrow_signer: EscrowSigner { maker: 1, bump: t.bump },
    }
}

/// One move of the `take` state machine: from state `s`, with the accounts as
/// they are now and the outcome of the invocation asked for last.
pub open spec fn take_transition(
    s: TakeState,
    a: Seq<AccountSnapshot>,
    program_id: Seq<u8>,
    outcome: Result<(), u64>,
) -> (TakeState, Step) {
    match s {
        TakeState::Start => match take_terms(a, program_id) {
            Err(e) => (TakeState::Done, Step::Finish(Err(e))),
            Ok(t) => (TakeState::CreatingTakerAtaA(t), Step::Invoke(create_taker_ata_a())),
        },
        TakeState::CreatingTakerAtaA(t) => match outcome {
            Err(code) => (TakeState::Done, invoke_failed(code)),
            Ok(_) => (TakeState::CreatingMakerAtaB(t), Step::Invoke(create_maker_ata_b())),
        },
        TakeState::CreatingMakerAtaB(t) => match outcome {
            Err(code) => (TakeState::Done, invoke_failed(code)),
            Ok(_) => match token_account_check(a[7], a[0].address@, a[3].address@) {
                Err(e) => (TakeState::Done, Step::Finish(Err(e))),
                Ok(_) => (TakeState::PayingMaker(t), Step::Invoke(pay_maker(t))),
            },
        },
        TakeState::PayingMaker(t) => match outcome {
            Err(code) => (TakeState::Done, invoke_failed(code)),
            Ok(_) => (TakeState::ReleasingVault(t), Step::Invoke(release_vault(t))),
        },
        TakeState::ReleasingVault(t) => match outcome {
            Err(code) => (TakeState::Done, invoke_failed(code)),
            Ok(_) => (TakeState::ClosingVault(t), Step::Invoke(close_vault(t))),
        },
        TakeState::ClosingVault(t) => match outcome {
            Err(code) => (TakeState::Done, invoke_failed(code)),
            Ok(_) => (TakeState::Done, settlement(a, 1, 4)),
        },
        TakeState::Done => (TakeState::Done, Step::Finish(Ok(()))),
    }
}

/// Makes the checks of `take` up to the escrow record and returns the record.
pub fn check_take_escrow(accounts: &Vec<AccountSnapshot>, program_id: &[u8; 32]) -> (r: Result<
    Escrow,
    EscrowError,
>)
    ensures
        take_escrow_check(accounts@, program_id@) is Err ==> r == Err::<Escrow, EscrowError>(
            take_escrow_check(accounts@, program_id@)->Err_0,
        ),
        take_escrow_check(accounts@, program_id@) is Ok ==> (r matches Ok(e) && e.encoded_by(
            accounts@[4].data@,
        )),
{
    if accounts.len() < TAKE_ACCOUNTS {
        return Err(EscrowError::NotEnoughAccountKeys);
    }
    if !accounts[0].is_signer {
        return Err(EscrowError::MissingRequiredSignature);
    }
    if !same_address(&accounts[4].owner, program_id) {
        return Err(EscrowError::IllegalOwner);
    }
    let escrow = Escrow::load(&accounts[4].data)?;
    if !same_address(&escrow.maker, &accounts[1].address) || !same_address(
        &escrow.mint_a,
        &accounts[2].address,
    ) || !same_address(&escrow.mint_b, &accounts[3].address) {
        return Err(EscrowError::InvalidAccountData);
    }
    Ok(escrow)
}

/// Makes the remaining checks of `take`, given the escrow record and the address
/// derived from its seeds, and returns the terms of the trade.
pub fn check_take_vault(accounts: &Vec<AccountSnapshot>, escrow: &Escrow, derived: &[u8; 32]) -> (r:
    Result<TakeTerms, EscrowError>)
    requires
        accounts@.len() >= TAKE_ACCOUNTS,
        escrow.encoded_by(accounts@[4].data@),
    ensures
        r == take_terms_given(accounts@, derived@),
{
    if !same_address(derived, &accounts[4].address) {
        return Err(EscrowError::InvalidSeeds);
    }
    let vault_amount = check_token_account(&accounts[5], &accounts[4].address, &accounts[2].address)?;
    Ok(TakeTerms { amount_to_receive: escrow.amount_to_receive, bump: escrow.bump, vault_amount })
}

/// Advances a `take` instruction by one step. On the first call `state` is
/// `Start` and `outcome` is not read; on each later call `outcome` is the result
/// of the invocation that the previous step asked for, and `accounts` are the
/// accounts as they are after it.
pub fn process_take_instruction(
    state: &mut TakeState,
    accounts: &Vec<AccountSnapshot>,
    program_id: &[u8; 32],
    outcome: Result<(), u64>,
) -> (step: Step)
    requires
        *old(state) != TakeState::Done,
        *old(state) == TakeState::Start || accounts@.len() >= TAKE_ACCOUNTS,
    ensures
        (*final(state), step) == take_transition(*old(state), accounts@, program_id@, outcome),
{
    match *state {
        TakeState::Start => {
            let escrow = match check_take_escrow(accounts, program_id) {
                Ok(e) => e,
                Err(e) => {
                    *state = TakeState::Done;
                    return Step::Finish(Err(e));
                },
            };
            let derived = escrow_address(&accounts[1].address, escrow.bump, program_id);
            match check_take_vault(accounts, &escrow, &derived) {
                Ok(t) => {
                    *state = TakeState::CreatingTakerAtaA(t);
                    Step::Invoke(
                        Cpi::CreateIdempotent {
                            funding_account: 0,
                            account: 6,
                            wallet: 0,
                            mint: 2,
                            system_program: 9,
                            token_program: 10,
                        },
                    )
                },
                Err(e) => {
                    *state = TakeState::Done;
                    Step::Finish(Err(e))
                },
            }
        },
        TakeState::CreatingTakerAtaA(t) => match outcome {
            Err(code) => {
                *state = TakeState::Done;
                Step::Finish(Err(EscrowError::Invoke(code)))
            },
            Ok(_) => {
                *state = TakeState::CreatingMakerAtaB(t);
                Step::Invoke(
                    Cpi::CreateIdempotent {
                        funding_account: 0,
                        account: 8,
                        wallet: 1,
                        mint: 3,
                        system_program: 9,
                        token_program: 10,
                    },
                )
            },
        },
        TakeState::CreatingMakerAtaB(t) => match outcome {
            Err(code) => {
                *state = TakeState::Done;
                Step::Finish(Err(EscrowError::Invoke(code)))
            },
            Ok(_) => match check_token_account(&accounts[7], &accounts[0].address, &accounts[3].address) {
                Err(e) => {
                    *state = TakeState::Done;
                    Step::Finish(Err(e))
                },
                Ok(_) => {
                    *state = TakeState::PayingMaker(t);
                    Step::Invoke(
                        Cpi::Transfer {
                            from: 7,
                            to: 8,
                            authority: 0,
                            amount: t.amount_to_receive,
                            signer: None,
                        },
                    )
                },
            },
        },
        TakeState::PayingMaker(t) => match outcome {
            Err(code) => {
                *state = TakeState::Done;
                Step::Finish(Err(EscrowError::Invoke(code)))
            },
            Ok(_) => {
                *state = TakeState::ReleasingVault(t);
                Step::Invoke(
                    Cpi::Transfer {
                        from: 5,
                        to: 6,
                        authority: 4,
                        amount: t.vault_amount,
                        signer: Some(EscrowSigner { maker: 1, bump: t.bump }),
                    },
                )
            },
        },
        TakeState::ReleasingVault(t) => match outcome {
            Err(code) => {
                *state = TakeState::Done;
                Step::Finish(Err(EscrowError::Invoke(code)))
            },
            Ok(_) => {
                *state = TakeState::ClosingVault(t);
                Step::Invoke(
                    Cpi::CloseAccount {
                        account: 5,
                        destination: 1,
                        authority: 4,
                        escrow_signer: EscrowSigner { maker: 1, bump: t.bump },
                    },
                )
            },
        },
        TakeState::ClosingVault(_) => match outcome {
            Err(code) => {
                *state = TakeState::Done;
                Step::Finish(Err(EscrowError::Invoke(code)))
            },
            Ok(_) => {
                *state = TakeState::Done;
                settle(accounts, 1, 4)
            },
        },
        TakeState::Done => Step::Finish(Ok(())),
    }
}

} // verus!
