//! Properties of the instruction processors that span several steps or every input.

use vstd::prelude::*;
use crate::account::AccountSnapshot;
use crate::error::EscrowError;
use crate::bytes::le_u64;
use crate::instructions::cancel::{cancel_terms, cancel_transition, CancelState, CANCEL_ACCOUNTS};
use crate::instructions::take::{take_terms, take_transition, TakeState, TakeTerms, TAKE_ACCOUNTS};
use crate::instructions::{settlement, Cpi, EscrowSigner, Step};
use crate::pda::{derived_address, escrow_seeds, spec_escrow_address, ESCROW_SEED};
use crate::state::{escrow_bump, escrow_maker, escrow_mint_a, escrow_mint_b, ESCROW_LEN};
use crate::token::{spec_token_program_id, token_mint, token_owner};

verus! {

/// A `cancel` goes past its checks only when the maker recorded in the escrow
/// signed it, and the escrow is the program's own account at the address derived
/// from that maker; a stranger's cancel asks for no invocation at all.
pub proof fn cancel_only_by_the_recorded_maker(
    a: Seq<AccountSnapshot>,
    program_id: Seq<u8>,
    outcome: Result<(), u64>,
)
    ensures
        cancel_transition(CancelState::Start, a, program_id, outcome).1 is Invoke ==> {
            &&& a.len() >= CANCEL_ACCOUNTS
            &&& a[0].is_signer
            &&& a[2].data@.len() == ESCROW_LEN
            &&& escrow_maker(a[2].data@) == a[0].address@
            &&& a[2].owner@ == program_id
            &&& a[2].address@ == spec_escrow_address(
                a[0].address@,
                escrow_bump(a[2].data@),
                program_id,
            )
        },
        !a[0].is_signer || escrow_maker(a[2].data@) != a[0].address@ ==> cancel_transition(
            CancelState::Start,
            a,
            program_id,
            outcome,
        ).1 is Finish,
{
}

/// A `take` goes past its checks only when the taker signed, the escrow is the
/// program's own account at the address derived from the recorded maker, the
/// accounts passed as maker and mints are the recorded ones, and the vault is a
/// token account of mint A held by the escrow.
pub proof fn take_only_against_an_authentic_escrow(
    a: Seq<AccountSnapshot>,
    program_id: Seq<u8>,
    outcome: Result<(), u64>,
)
    ensures
        take_transition(TakeState::Start, a, program_id, outcome).1 is Invoke ==> {
            &&& a.len() >= TAKE_ACCOUNTS
            &&& a[0].is_signer
            &&& a[4].owner@ == program_id
            &&& a[4].data@.len() == ESCROW_LEN
            &&& escrow_maker(a[4].data@) == a[1].address@
            &&& escrow_mint_a(a[4].data@) == a[2].address@
            &&& escrow_mint_b(a[4].data@) == a[3].address@
            &&& a[4].address@ == spec_escrow_address(
                a[1].address@,
                escrow_bump(a[4].data@),
                program_id,
            )
            &&& token_owner(a[5].data@) == a[4].address@
            &&& token_mint(a[5].data@) == a[2].address@
        },
{
}

/// The first step of an instruction asks for an invocation exactly when every
/// check passes; otherwise it ends the instruction with the first failed check.
pub proof fn refused_instructions_invoke_nothing(
    a: Seq<AccountSnapshot>,
    program_id: Seq<u8>,
    outcome: Result<(), u64>,
)
    ensures
        take_terms(a, program_id) is Err ==> take_transition(
            TakeState::Start,
            a,
            program_id,
            outcome,
        ) == (TakeState::Done, Step::Finish(Err(take_terms(a, program_id)->Err_0))),
        take_terms(a, program_id) is Ok ==> take_transition(
            TakeState::Start,
            a,
            program_id,
            outcome,
        ).1 is Invoke,
        cancel_terms(a, program_id) is Err ==> cancel_transition(
            CancelState::Start,
            a,
            program_id,
            outcome,
        ) == (CancelState::Done, Step::Finish(Err(cancel_terms(a, program_id)->Err_0))),
        cancel_terms(a, program_id) is Ok ==> cancel_transition(
            CancelState::Start,
            a,
            program_id,
            outcome,
        ).1 is Invoke,
{
}

/// When an invocation fails, the instruction ends at once with that failure and
/// asks for nothing more.
pub proof fn failed_invocation_ends_the_instruction(
    ts: TakeState,
    cs: CancelState,
    a: Seq<AccountSnapshot>,
    program_id: Seq<u8>,
    code: u64,
)
    ensures
        ts != TakeState::Start && ts != TakeState::Done ==> take_transition(
            ts,
            a,
            program_id,
            Err(code),
        ) == (TakeState::Done, Step::Finish(Err(EscrowError::Invoke(code)))),
        cs != CancelState::Start && cs != CancelState::Done ==> cancel_transition(
            cs,
            a,
            program_id,
            Err(code),
        ) == (CancelState::Done, Step::Finish(Err(EscrowError::Invoke(code)))),
{
}

/// Settling moves every lamport of the closed account to the destination:
/// the destination's new balance is the sum of both, or the settlement is
/// refused when that sum overflows.
pub proof fn settlement_conserves_lamports(a: Seq<AccountSnapshot>, destination: int, closed: int)
    requires
        0 <= destination < a.len(),
        0 <= closed < a.len(),
    ensures
        a[destination].lamports + a[closed].lamports <= u64::MAX ==> settlement(
            a,
            destination,
            closed,
        ) == (Step::Settle {
            destination: destination as usize,
            lamports: (a[destination].lamports + a[closed].lamports) as u64,
            closed: closed as usize,
        }),
        a[destination].lamports + a[closed].lamports > u64::MAX ==> settlement(
            a,
            destination,
            closed,
        ) == Step::Finish(Err(EscrowError::ArithmeticOverflow)),
{
}

/// The conditions under which `take` accepts its accounts, stated on the raw
/// bytes: the taker signed; the escrow is the program's own 113-byte record at
/// the address derived from the recorded maker and bump; the record names the
/// passed maker and mints; the vault is a token account of mint A held by the
/// escrow. Nothing is asked of the accounts that the take will create.
pub open spec fn take_accounts_authentic(a: Seq<AccountSnapshot>, program_id: Seq<u8>) -> bool {
    &&& a.len() >= 12
    &&& a[0].is_signer
    &&& a[4].owner@ == program_id
    &&& a[4].data@.len() == 113
    &&& a[4].data@.subrange(0, 32) == a[1].address@
    &&& a[4].data@.subrange(32, 64) == a[2].address@
    &&& a[4].data@.subrange(64, 96) == a[3].address@
    &&& a[4].address@ == derived_address(
        seq![ESCROW_SEED@, a[1].address@, seq![a[4].data@[112]]],
        None,
        program_id,
    )
    &&& a[5].data@.len() == 165
    &&& a[5].owner@ == spec_token_program_id()
    &&& a[5].data@.subrange(32, 64) == a[4].address@
    &&& a[5].data@.subrange(0, 32) == a[2].address@
}

/// The conditions under which `cancel` accepts its accounts, stated on the raw
/// bytes: the maker signed; the escrow is the program's own 113-byte record at
/// the address derived from the signing maker and the recorded bump, and it
/// names that maker and mint A; the vault is a token account of mint A held by
/// the escrow; the maker's account is a token account of mint A held by the maker.
pub open spec fn cancel_accounts_authentic(a: Seq<AccountSnapshot>, program_id: Seq<u8>) -> bool {
    &&& a.len() >= 6
    &&& a[0].is_signer
    &&& a[2].owner@ == program_id
    &&& a[2].data@.len() == 113
    &&& a[2].data@.subrange(0, 32) == a[0].address@
    &&& a[2].data@.subrange(32, 64) == a[1].address@
    &&& a[2].address@ == derived_address(
        seq![ESCROW_SEED@, a[0].address@, seq![a[2].data@[112]]],
        None,
        program_id,
    )
    &&& a[3].data@.len() == 165
    &&& a[3].owner@ == spec_token_program_id()
    &&& a[3].data@.subrange(32, 64) == a[2].address@
    &&& a[3].data@.subrange(0, 32) == a[1].address@
    &&& a[4].data@.len() == 165
    &&& a[4].owner@ == spec_token_program_id()
    &&& a[4].data@.subrange(32, 64) == a[0].address@
    &&& a[4].data@.subrange(0, 32) == a[1].address@
}

/// A `take` against an authentic escrow is accepted, whatever the accounts it
/// is about to create hold: its first step creates the taker's mint-A account.
pub proof fn take_accepts_an_authentic_escrow(
    a: Seq<AccountSnapshot>,
    program_id: Seq<u8>,
    outcome: Result<(), u64>,
)
    requires
        take_accounts_authentic(a, program_id),
    ensures
        take_transition(TakeState::Start, a, program_id, outcome).1 == Step::Invoke(
            Cpi::CreateIdempotent {
                funding_account: 0,
                account: 6,
                wallet: 0,
                mint: 2,
                system_program: 9,
                token_program: 10,
            },
        ),
{
    assert(escrow_maker(a[4].data@) == a[1].address@);
    assert(escrow_mint_a(a[4].data@) == a[2].address@);
    assert(escrow_mint_b(a[4].data@) == a[3].address@);
    assert(escrow_seeds(a[1].address@, escrow_bump(a[4].data@)) == seq![
        ESCROW_SEED@,
        a[1].address@,
        seq![a[4].data@[112]],
    ]);
}

/// A `take` against an authentic escrow in which every invocation succeeds runs
/// in this order: create the taker's mint-A account; create the maker's mint-B
/// account; transfer from the taker's mint-B account to the maker's, authorised
/// by the taker, exactly the price recorded in the escrow (bytes 96..104); release
/// the vault's whole balance to the taker, signed with the escrow's seeds (the
/// maker's address and the recorded bump); close the vault to the maker with the
/// same seeds; and move every lamport of the escrow to the maker.
/// `a0`..`a5` are the accounts as seen at each of the six calls.
pub proof fn take_runs_in_order(
    a0: Seq<AccountSnapshot>,
    a1: Seq<AccountSnapshot>,
    a2: Seq<AccountSnapshot>,
    a3: Seq<AccountSnapshot>,
    a4: Seq<AccountSnapshot>,
    a5: Seq<AccountSnapshot>,
    program_id: Seq<u8>,
)
    requires
        take_accounts_authentic(a0, program_id),
        a2[7].data@.len() == 165,
        a2[7].owner@ == spec_token_program_id(),
        a2[7].data@.subrange(32, 64) == a2[0].address@,
        a2[7].data@.subrange(0, 32) == a2[3].address@,
    ensures
        ({
            let bump = a0[4].data@[112];
            let r0 = take_transition(TakeState::Start, a0, program_id, Ok(()));
            let r1 = take_transition(r0.0, a1, program_id, Ok(()));
            let r2 = take_transition(r1.0, a2, program_id, Ok(()));
            let r3 = take_transition(r2.0, a3, program_id, Ok(()));
            let r4 = take_transition(r3.0, a4, program_id, Ok(()));
            let r5 = take_transition(r4.0, a5, program_id, Ok(()));
            let lamports = a5[1].lamports + a5[4].lamports;
            &&& r0.1 == Step::Invoke(
                Cpi::CreateIdempotent {
                    funding_account: 0,
                    account: 6,
                    wallet: 0,
                    mint: 2,
                    system_program: 9,
                    token_program: 10,
                },
            )
            &&& r1.1 == Step::Invoke(
                Cpi::CreateIdempotent {
                    funding_account: 0,
                    account: 8,
                    wallet: 1,
                    mint: 3,
                    system_program: 9,
                    token_program: 10,
                },
            )
            &&& r2.1 == Step::Invoke(
                Cpi::Transfer {
                    from: 7,
                    to: 8,
                    authority: 0,
                    amount: le_u64(a0[4].data@, 96) as u64,
                    signer: None,
                },
            )
            &&& r3.1 == Step::Invoke(
                Cpi::Transfer {
                    from: 5,
                    to: 6,
                    authority: 4,
                    amount: le_u64(a0[5].data@, 64) as u64,
                    signer: Some(EscrowSigner { maker: 1, bump }),
                },
            )
            &&& r4.1 == Step::Invoke(
                Cpi::CloseAccount {
                    account: 5,
                    destination: 1,
                    authority: 4,
                    escrow_signer: EscrowSigner { maker: 1, bump },
                },
            )
            &&& r5.0 == TakeState::Done
            &&& lamports <= u64::MAX ==> r5.1 == Step::Settle {
                destination: 1,
                lamports: lamports as u64,
                closed: 4,
            }
            &&& lamports > u64::MAX ==> r5.1 == Step::Finish(Err(EscrowError::ArithmeticOverflow))
        }),
{
    take_accepts_an_authentic_escrow(a0, program_id, Ok(()));
}

/// A `cancel` of an authentic escrow in which every invocation succeeds returns
/// the vault's whole balance to the maker's mint-A account, signed with the
/// escrow's seeds (the maker's address and the recorded bump); closes the vault
/// to the maker with the same seeds; and moves every lamport of the escrow to
/// the maker. `a0`..`a2` are the accounts as seen at each call.
pub proof fn cancel_runs_in_order(
    a0: Seq<AccountSnapshot>,
    a1: Seq<AccountSnapshot>,
    a2: Seq<AccountSnapshot>,
    program_id: Seq<u8>,
)
    requires
        cancel_accounts_authentic(a0, program_id),
    ensures
        ({
            let bump = a0[2].data@[112];
            let r0 = cancel_transition(CancelState::Start, a0, program_id, Ok(()));
            let r1 = cancel_transition(r0.0, a1, program_id, Ok(()));
            let r2 = cancel_transition(r1.0, a2, program_id, Ok(()));
            let lamports = a2[0].lamports + a2[2].lamports;
            &&& r0.1 == Step::Invoke(
                Cpi::Transfer {
                    from: 3,
                    to: 4,
                    authority: 2,
                    amount: le_u64(a0[3].data@, 64) as u64,
                    signer: Some(EscrowSigner { maker: 0, bump }),
                },
            )
            &&& r1.1 == Step::Invoke(
                Cpi::CloseAccount {
                    account: 3,
                    destination: 0,
                    authority: 2,
                    escrow_signer: EscrowSigner { maker: 0, bump },
                },
            )
            &&& r2.0 == CancelState::Done
            &&& lamports <= u64::MAX ==> r2.1 == Step::Settle {
                destination: 0,
                lamports: lamports as u64,
                closed: 2,
            }
            &&& lamports > u64::MAX ==> r2.1 == Step::Finish(Err(EscrowError::ArithmeticOverflow))
        }),
{
    assert(escrow_maker(a0[2].data@) == a0[0].address@);
    assert(escrow_mint_a(a0[2].data@) == a0[1].address@);
    assert(escrow_seeds(a0[0].address@, escrow_bump(a0[2].data@)) == seq![
        ESCROW_SEED@,
        a0[0].address@,
        seq![a0[2].data@[112]],
    ]);
}


/// Which error a refused `take` ends with, stated on the raw bytes: each check
/// in turn, assuming the ones before it passed.
pub proof fn take_refusals(a: Seq<AccountSnapshot>, program_id: Seq<u8>, outcome: Result<(), u64>)
    ensures
        ({
            let first = take_transition(TakeState::Start, a, program_id, outcome);
            let refused = |e: EscrowError| first == (TakeState::Done, Step::Finish(Err(e)));
            let d = a[4].data@;
            let signed_and_owned = a.len() >= 12 && a[0].is_signer && a[4].owner@ == program_id;
            let record_ok = signed_and_owned && d.len() == 113 && d.subrange(0, 32) == a[1].address@
                && d.subrange(32, 64) == a[2].address@ && d.subrange(64, 96) == a[3].address@;
            let seeds_ok = record_ok && a[4].address@ == derived_address(
                seq![ESCROW_SEED@, a[1].address@, seq![d[112]]],
                None,
                program_id,
            );
            let v = a[5].data@;
            &&& a.len() < 12 ==> refused(EscrowError::NotEnoughAccountKeys)
            &&& a.len() >= 12 && !a[0].is_signer ==> refused(EscrowError::MissingRequiredSignature)
            &&& a.len() >= 12 && a[0].is_signer && a[4].owner@ != program_id ==> refused(
                EscrowError::IllegalOwner,
            )
            &&& signed_and_owned && !record_ok ==> refused(EscrowError::InvalidAccountData)
            &&& record_ok && !seeds_ok ==> refused(EscrowError::InvalidSeeds)
            &&& seeds_ok && v.len() != 165 ==> refused(EscrowError::InvalidAccountData)
            &&& seeds_ok && v.len() == 165 && a[5].owner@ != spec_token_program_id() ==> refused(
                EscrowError::IncorrectProgramId,
            )
            &&& seeds_ok && v.len() == 165 && a[5].owner@ == spec_token_program_id() && v.subrange(
                32,
                64,
            ) != a[4].address@ ==> refused(EscrowError::IllegalOwner)
            &&& seeds_ok && v.len() == 165 && a[5].owner@ == spec_token_program_id() && v.subrange(
                32,
                64,
            ) == a[4].address@ && v.subrange(0, 32) != a[2].address@ ==> refused(
                EscrowError::InvalidAccountData,
            )
        }),
{
    assert(escrow_seeds(a[1].address@, escrow_bump(a[4].data@)) == seq![
        ESCROW_SEED@,
        a[1].address@,
        seq![a[4].data@[112]],
    ]);
}

/// After both account creations succeed, `take` refuses a taker's mint-B
/// account that is not a token account of mint B held by the taker, and
/// otherwise asks for the payment.
pub proof fn take_checks_the_payment_account(
    t: TakeTerms,
    a: Seq<AccountSnapshot>,
    program_id: Seq<u8>,
)
    ensures
        ({
            let r = take_transition(TakeState::CreatingMakerAtaB(t), a, program_id, Ok(()));
            let refused = |e: EscrowError| r == (TakeState::Done, Step::Finish(Err(e)));
            let p = a[7].data@;
            let is_token = p.len() == 165 && a[7].owner@ == spec_token_program_id();
            &&& p.len() != 165 ==> refused(EscrowError::InvalidAccountData)
            &&& p.len() == 165 && a[7].owner@ != spec_token_program_id() ==> refused(
                EscrowError::IncorrectProgramId,
            )
            &&& is_token && p.subrange(32, 64) != a[0].address@ ==> refused(EscrowError::IllegalOwner)
            &&& is_token && p.subrange(32, 64) == a[0].address@ && p.subrange(0, 32) != a[3].address@
                ==> refused(EscrowError::InvalidAccountData)
            &&& is_token && p.subrange(32, 64) == a[0].address@ && p.subrange(0, 32) == a[3].address@
                ==> r == (TakeState::PayingMaker(t), Step::Invoke(
                Cpi::Transfer {
                    from: 7,
                    to: 8,
                    authority: 0,
                    amount: t.amount_to_receive,
                    signer: None,
                },
            ))
        }),
{
}

/// Which error a refused `cancel` ends with, stated on the raw bytes: each
/// check in turn, assuming the ones before it passed.
pub proof fn cancel_refusals(a: Seq<AccountSnapshot>, program_id: Seq<u8>, outcome: Result<(), u64>)
    ensures
        ({
            let first = cancel_transition(CancelState::Start, a, program_id, outcome);
            let refused = |e: EscrowError| first == (CancelState::Done, Step::Finish(Err(e)));
            let d = a[2].data@;
            let signed_and_owned = a.len() >= 6 && a[0].is_signer && a[2].owner@ == program_id;
            let record_ok = signed_and_owned && d.len() == 113 && d.subrange(0, 32) == a[0].address@
                && d.subrange(32, 64) == a[1].address@;
            let seeds_ok = record_ok && a[2].address@ == derived_address(
                seq![ESCROW_SEED@, a[0].address@, seq![d[112]]],
                None,
                program_id,
            );
            let v = a[3].data@;
            let vault_token = seeds_ok && v.len() == 165 && a[3].owner@ == spec_token_program_id();
            let vault_ok = vault_token && v.subrange(32, 64) == a[2].address@ && v.subrange(0, 32)
                == a[1].address@;
            let m = a[4].data@;
            let maker_token = vault_ok && m.len() == 165 && a[4].owner@ == spec_token_program_id();
            &&& a.len() < 6 ==> refused(EscrowError::NotEnoughAccountKeys)
            &&& a.len() >= 6 && !a[0].is_signer ==> refused(EscrowError::MissingRequiredSignature)
            &&& a.len() >= 6 && a[0].is_signer && a[2].owner@ != program_id ==> refused(
                EscrowError::IllegalOwner,
            )
            &&& signed_and_owned && !record_ok ==> refused(EscrowError::InvalidAccountData)
            &&& record_ok && !seeds_ok ==> refused(EscrowError::InvalidSeeds)
            &&& seeds_ok && v.len() != 165 ==> refused(EscrowError::InvalidAccountData)
            &&& seeds_ok && v.len() == 165 && a[3].owner@ != spec_token_program_id() ==> refused(
                EscrowError::IncorrectProgramId,
            )
            &&& vault_token && v.subrange(32, 64) != a[2].address@ ==> refused(EscrowError::IllegalOwner)
            &&& vault_token && v.subrange(32, 64) == a[2].address@ && v.subrange(0, 32) != a[1].address@
                ==> refused(EscrowError::InvalidAccountData)
            &&& vault_ok && m.len() != 165 ==> refused(EscrowError::InvalidAccountData)
            &&& vault_ok && m.len() == 165 && a[4].owner@ != spec_token_program_id() ==> refused(
                EscrowError::IncorrectProgramId,
            )
            &&& maker_token && m.subrange(32, 64) != a[0].address@ ==> refused(EscrowError::IllegalOwner)
            &&& maker_token && m.subrange(32, 64) == a[0].address@ && m.subrange(0, 32) != a[1].address@
                ==> refused(EscrowError::InvalidAccountData)
        }),
{
    assert(escrow_seeds(a[0].address@, escrow_bump(a[2].data@)) == seq![
        ESCROW_SEED@,
        a[0].address@,
        seq![a[2].data@[112]],
    ]);
}

} // verus!
