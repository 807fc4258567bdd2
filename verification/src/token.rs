use vstd::prelude::*;
use crate::account::AccountSnapshot;
use crate::bytes::{le_u64, read_address, read_u64_le, same_address};
use crate::error::EscrowError;

verus! {

/// The address of the SPL Token program (`TokenkegQfeZyiNwAJbNbGKPFXCWuBvf9Ss623VQ5DA`).
pub open spec fn spec_token_program_id() -> Seq<u8> {
    seq![
        6u8, 221, 246, 225, 215, 101, 161, 147, 217, 203, 225, 70, 206, 235, 121, 172,
        28, 180, 133, 237, 95, 91, 55, 145, 58, 140, 245, 133, 126, 255, 0, 169,
    ]
}

/// Length in bytes of a token account's data.
pub open spec fn spec_token_account_len() -> nat {
    165
}

/// Byte layout of a token account: `mint | owner | amount (u64 LE) | ...`.
pub open spec fn token_mint(d: Seq<u8>) -> Seq<u8> {
    d.subrange(0, 32)
}

pub open spec fn token_owner(d: Seq<u8>) -> Seq<u8> {
    d.subrange(32, 64)
}

pub open spec fn token_amount(d: Seq<u8>) -> nat {
    le_u64(d, 64)
}

/// `pinocchio_token::ID`: the contract claims it is the SPL Token program address above.
#[verifier::external_body]
fn token_program_id() -> (r: [u8; 32])
    ensures
        r@ == spec_token_program_id(),
{
    pinocchio_token::ID.to_bytes()
}

/// `pinocchio_token::state::Account::LEN`: the contract claims it is 165, the size of
/// the token account layout.
#[verifier::external_body]
fn token_account_len() -> (r: usize)
    ensures
        r == spec_token_account_len(),
{
    pinocchio_token::state::Account::LEN
}

/// The fields of a token account that the escrow reads.
#[derive(Clone, Copy, Debug, PartialEq, Eq)]
pub struct TokenAccount {
    pub mint: [u8; 32],
    pub owner: [u8; 32],
    pub amount: u64,
}

/// The outcome of reading an account as a token account: refused when its data
/// is not a token account's length, or when the token program does not own it.
pub open spec fn token_account_read(acc: AccountSnapshot) -> Result<(), EscrowError> {
    if acc.data@.len() != spec_token_account_len() {
        Err(EscrowError::InvalidAccountData)
    } else if acc.owner@ != spec_token_program_id() {
        Err(EscrowError::IncorrectProgramId)
    } else {
        Ok(())
    }
}

impl TokenAccount {
    /// Reads a token account from a snapshot, checking its length and its owner
    /// program in that order.
    pub fn from_snapshot(acc: &AccountSnapshot) -> (r: Result<TokenAccount, EscrowError>)
        ensures
            token_account_read(*acc) is Err ==> r == Err::<TokenAccount, EscrowError>(
                token_account_read(*acc)->Err_0,
            ),
            token_account_read(*acc) is Ok ==> (r matches Ok(t) && {
                &&& t.mint@ == token_mint(acc.data@)
                &&& t.owner@ == token_owner(acc.data@)
                &&& t.amount as nat == token_amount(acc.data@)
            }),
    {
        if acc.data.len() != token_account_len() {
            return Err(EscrowError::InvalidAccountData);
        }
        let program = token_program_id();
        if !same_address(&acc.owner, &program) {
            return Err(EscrowError::IncorrectProgramId);
        }
        let mint = read_address(&acc.data, 0);
        let owner = read_address(&acc.data, 32);
        let amount = read_u64_le(&acc.data, 64);
        Ok(TokenAccount { mint, owner, amount })
    }
}

/// The outcome of checking that `acc` is a token account of `mint` held by
/// `owner`: its balance, or the first check that fails.
pub open spec fn token_account_check(
    acc: AccountSnapshot,
    owner: Seq<u8>,
    mint: Seq<u8>,
) -> Result<u64, EscrowError> {
    if token_account_read(acc) is Err {
        Err(token_account_read(acc)->Err_0)
    } else if token_owner(acc.data@) != owner {
        Err(EscrowError::IllegalOwner)
    } else if token_mint(acc.data@) != mint {
        Err(EscrowError::InvalidAccountData)
    } else {
        Ok(token_amount(acc.data@) as u64)
    }
}

/// Checks that `acc` is a token account of `mint` held by `owner`, and returns its balance.
pub fn check_token_account(acc: &AccountSnapshot, owner: &[u8; 32], mint: &[u8; 32]) -> (r:
    Result<u64, EscrowError>)
    ensures
        r == token_account_check(*acc, owner@, mint@),
{
    let t = TokenAccount::from_snapshot(acc)?;
    if !same_address(&t.owner, owner) {
        return Err(EscrowError::IllegalOwner);
    }
    if !same_address(&t.mint, mint) {
        return Err(EscrowError::InvalidAccountData);
    }
    Ok(t.amount)
}

} // verus!
