use escrow::account::AccountSnapshot;
use escrow::error::EscrowError;
use escrow::instructions::cancel::CancelState;
use escrow::instructions::take::TakeState;
use escrow::instructions::{Cpi, EscrowSigner, Step};
use escrow::instructions::{process_cancel_instruction, process_take_instruction};
use escrow::pda::escrow_address;
use escrow::state::Escrow;

const INITIAL_A: u64 = 1_000_000_000;
const RECEIVE_B: u64 = 100_000_000;
const GIVE_A: u64 = 500_000_000;
const LAMPORTS_PER_SOL: u64 = 1_000_000_000;
const TOKEN_ACCOUNT_RENT: u64 = 2_039_280;
const ESCROW_RENT: u64 = 1_677_360;

const TOKEN_PROGRAM: [u8; 32] = [
    6, 221, 246, 225, 215, 101, 161, 147, 217, 203, 225, 70, 206, 235, 121, 172, 28, 180, 133, 237,
    95, 91, 55, 145, 58, 140, 245, 133, 126, 255, 0, 169,
];
const SYSTEM_PROGRAM: [u8; 32] = [0; 32];
const PROGRAM_ID: [u8; 32] = [2; 32];
const INSUFFICIENT_FUNDS: u64 = 1;
const NOT_AUTHORISED: u64 = 4;

fn key(n: u8) -> [u8; 32] {
    let mut k = [n; 32];
    k[0] = 0xA0;
    k
}

fn wallet(address: [u8; 32], lamports: u64, is_signer: bool) -> AccountSnapshot {
    AccountSnapshot { address, owner: SYSTEM_PROGRAM, is_signer, lamports, data: Vec::new() }
}

fn token_data(mint: &[u8; 32], owner: &[u8; 32], amount: u64) -> Vec<u8> {
    let mut d = Vec::new();
    d.extend_from_slice(mint);
    d.extend_from_slice(owner);
    d.extend_from_slice(&amount.to_le_bytes());
    d.resize(165, 0);
    d[108] = 1;
    d
}

fn token_account(address: [u8; 32], mint: &[u8; 32], owner: &[u8; 32], amount: u64) -> AccountSnapshot {
    AccountSnapshot {
        address,
        owner: TOKEN_PROGRAM,
        is_signer: false,
        lamports: TOKEN_ACCOUNT_RENT,
        data: token_data(mint, owner, amount),
    }
}

fn escrow_data(maker: &[u8; 32], mint_a: &[u8; 32], mint_b: &[u8; 32], bump: u8) -> Vec<u8> {
    let mut d = Vec::new();
    d.extend_from_slice(maker);
    d.extend_from_slice(mint_a);
    d.extend_from_slice(mint_b);
    d.extend_from_slice(&RECEIVE_B.to_le_bytes());
    d.extend_from_slice(&GIVE_A.to_le_bytes());
    d.push(bump);
    d
}

fn amount_of(acc: &AccountSnapshot) -> u64 {
    u64::from_le_bytes(acc.data[64..72].try_into().unwrap())
}

fn set_amount(acc: &mut AccountSnapshot, amount: u64) {
    acc.data[64..72].copy_from_slice(&amount.to_le_bytes());
}

fn is_open(acc: &AccountSnapshot) -> bool {
    acc.lamports != 0 || !acc.data.is_empty()
}

fn assert_closed(acc: &AccountSnapshot) {
    assert_eq!(acc.lamports, 0);
    assert_eq!(acc.owner, SYSTEM_PROGRAM);
}

/// A small stand-in for the token and associated-token programs.
fn perform(cpi: &Cpi, accs: &mut Vec<AccountSnapshot>) -> Result<(), u64> {
    let signed = |signer: &Option<EscrowSigner>, authority: usize, accs: &Vec<AccountSnapshot>| match signer {
        None => accs[authority].is_signer,
        Some(s) => escrow_address(&accs[s.maker].address, s.bump, &PROGRAM_ID) == accs[authority].address,
    };
    match *cpi {
        Cpi::CreateIdempotent { funding_account, account, wallet, mint, .. } => {
            if is_open(&accs[account]) {
                return Ok(());
            }
            let (w, m) = (accs[wallet].address, accs[mint].address);
            accs[funding_account].lamports -= TOKEN_ACCOUNT_RENT;
            accs[account].owner = TOKEN_PROGRAM;
            accs[account].lamports = TOKEN_ACCOUNT_RENT;
            accs[account].data = token_data(&m, &w, 0);
            Ok(())
        }
        Cpi::Transfer { from, to, authority, amount, signer } => {
            if accs[from].data[32..64] != accs[authority].address || !signed(&signer, authority, accs) {
                return Err(NOT_AUTHORISED);
            }
            let balance = amount_of(&accs[from]);
            if balance < amount {
                return Err(INSUFFICIENT_FUNDS);
            }
            set_amount(&mut accs[from], balance - amount);
            let to_balance = amount_of(&accs[to]);
            set_amount(&mut accs[to], to_balance + amount);
            Ok(())
        }
        Cpi::CloseAccount { account, destination, authority, escrow_signer } => {
            if !signed(&Some(escrow_signer), authority, accs) || amount_of(&accs[account]) != 0 {
                return Err(NOT_AUTHORISED);
            }
            accs[destination].lamports += accs[account].lamports;
            accs[account] = wallet(accs[account].address, 0, false);
            Ok(())
        }
    }
}

/// Runs a whole instruction; like the runtime, keeps no change when it fails.
fn run(
    accs: &mut Vec<AccountSnapshot>,
    mut step_fn: impl FnMut(&Vec<AccountSnapshot>, Result<(), u64>) -> Step,
) -> Result<(), EscrowError> {
    let mut work: Vec<AccountSnapshot> = accs
        .iter()
        .map(|a| a.clone())
        .collect();
    let mut outcome = Ok(());
    loop {
        match step_fn(&work, outcome) {
            Step::Invoke(cpi) => outcome = perform(&cpi, &mut work),
            Step::Settle { destination, lamports, closed } => {
                work[destination].lamports = lamports;
                work[closed] = wallet(work[closed].address, 0, false);
                *accs = work;
                return Ok(());
            }
            Step::Finish(r) => {
                if r.is_ok() {
                    *accs = work;
                }
                return r;
            }
        }
    }
}

fn take(accs: &mut Vec<AccountSnapshot>) -> Result<(), EscrowError> {
    let mut state = TakeState::Start;
    run(accs, move |a, o| process_take_instruction(&mut state, a, &PROGRAM_ID, o))
}

fn cancel(accs: &mut Vec<AccountSnapshot>) -> Result<(), EscrowError> {
    let mut state = CancelState::Start;
    run(accs, move |a, o| process_cancel_instruction(&mut state, a, &PROGRAM_ID, o))
}

struct Fixture {
    maker: [u8; 32],
    mint_a: [u8; 32],
    mint_b: [u8; 32],
    escrow: AccountSnapshot,
    vault: AccountSnapshot,
    maker_ata_a: AccountSnapshot,
    maker_lamports: u64,
    bump: u8,
}

/// The state right after the maker opened a trade giving `GIVE_A` of mint A for
/// `RECEIVE_B` of mint B.
fn make_fixture() -> Fixture {
    let maker = key(1);
    let mint_a = key(2);
    let mint_b = key(3);
    let bump = 254;
    let escrow = escrow_address(&maker, bump, &PROGRAM_ID);
    Fixture {
        maker,
        mint_a,
        mint_b,
        escrow: AccountSnapshot {
            address: escrow,
            owner: PROGRAM_ID,
            is_signer: false,
            lamports: ESCROW_RENT,
            data: escrow_data(&maker, &mint_a, &mint_b, bump),
        },
        vault: token_account(key(4), &mint_a, &escrow, GIVE_A),
        maker_ata_a: token_account(key(5), &mint_a, &maker, INITIAL_A - GIVE_A),
        maker_lamports: 10 * LAMPORTS_PER_SOL,
        bump,
    }
}

fn take_accounts(f: &Fixture, taker: [u8; 32], taker_b_amount: u64) -> Vec<AccountSnapshot> {
    vec![
        wallet(taker, 2 * LAMPORTS_PER_SOL, true),
        wallet(f.maker, f.maker_lamports, false),
        wallet(f.mint_a, 1, false),
        wallet(f.mint_b, 1, false),
        f.escrow.clone(),
        f.vault.clone(),
        wallet(key(6), 0, false),
        token_account(key(7), &f.mint_b, &taker, taker_b_amount),
        wallet(key(8), 0, false),
        wallet(SYSTEM_PROGRAM, 1, false),
        wallet(TOKEN_PROGRAM, 1, false),
        wallet(key(9), 1, false),
    ]
}

fn cancel_accounts(f: &Fixture, signer: [u8; 32]) -> Vec<AccountSnapshot> {
    vec![
        wallet(signer, f.maker_lamports, true),
        wallet(f.mint_a, 1, false),
        f.escrow.clone(),
        f.vault.clone(),
        f.maker_ata_a.clone(),
        wallet(TOKEN_PROGRAM, 1, false),
    ]
}

#[test]
fn test_make_instruction() {
    let f = make_fixture();
    assert_eq!(amount_of(&f.vault), GIVE_A);
    assert_eq!(amount_of(&f.maker_ata_a), INITIAL_A - GIVE_A);
    let esc = &f.escrow;
    assert_eq!(esc.owner, PROGRAM_ID);
    assert_eq!(esc.data.len(), 113);
    assert_eq!(&esc.data[0..32], &f.maker[..]);
    assert_eq!(&esc.data[32..64], &f.mint_a[..]);
    assert_eq!(&esc.data[64..96], &f.mint_b[..]);
    assert_eq!(u64::from_le_bytes(esc.data[96..104].try_into().unwrap()), RECEIVE_B);
    assert_eq!(u64::from_le_bytes(esc.data[104..112].try_into().unwrap()), GIVE_A);
    assert_eq!(esc.data[112], f.bump);
    let record = Escrow::load(&esc.data).unwrap();
    assert_eq!(record.maker, f.maker);
    assert_eq!(record.mint_a, f.mint_a);
    assert_eq!(record.mint_b, f.mint_b);
    assert_eq!(record.amount_to_receive, RECEIVE_B);
    assert_eq!(record.amount_to_give, GIVE_A);
    assert_eq!(record.bump, f.bump);
}

#[test]
fn test_take_instruction() {
    let f = make_fixture();
    let taker = key(10);
    let mut accs = take_accounts(&f, taker, RECEIVE_B);
    let maker_sol = accs[1].lamports;
    assert_eq!(take(&mut accs), Ok(()));
    assert_eq!(amount_of(&accs[6]), GIVE_A);
    assert_eq!(amount_of(&accs[8]), RECEIVE_B);
    assert_closed(&accs[5]);
    assert_closed(&accs[4]);
    assert!(accs[1].lamports > maker_sol);
}

#[test]
fn test_cancel_instruction() {
    let f = make_fixture();
    let mut accs = cancel_accounts(&f, f.maker);
    assert_eq!(cancel(&mut accs), Ok(()));
    assert_eq!(amount_of(&accs[4]), INITIAL_A);
    assert_closed(&accs[3]);
    assert_closed(&accs[2]);
}

#[test]
fn test_take_fails_with_only_50_b() {
    let f = make_fixture();
    let taker = key(10);
    let mut accs = take_accounts(&f, taker, RECEIVE_B / 2);
    let result = take(&mut accs);
    assert!(result.is_err(), "underfunded Take must fail");
    assert_eq!(result, Err(EscrowError::Invoke(INSUFFICIENT_FUNDS)));
    assert_eq!(amount_of(&accs[5]), GIVE_A);
    assert_eq!(amount_of(&accs[7]), RECEIVE_B / 2);
    assert!(!is_open(&accs[6]));
    assert!(!is_open(&accs[8]));
    assert!(is_open(&accs[4]));
}

#[test]
fn test_cancel_fails_for_stranger() {
    let f = make_fixture();
    let stranger = key(11);
    let mut accs = cancel_accounts(&f, stranger);
    let result = cancel(&mut accs);
    assert!(result.is_err(), "a stranger must not be able to cancel");
    assert_eq!(result, Err(EscrowError::InvalidAccountData));
    assert_eq!(amount_of(&accs[3]), GIVE_A);
    assert_eq!(amount_of(&accs[4]), INITIAL_A - GIVE_A);
    assert!(is_open(&accs[2]));
}
