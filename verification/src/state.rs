use vstd::prelude::*;
use crate::bytes::{le_u64, read_address, read_u64_le};
use crate::error::EscrowError;

verus! {

/// Length in bytes of an escrow record.
pub const ESCROW_LEN: usize = 113;

/// Byte layout of an escrow record: `maker | mint_a | mint_b | amount_to_receive (u64 LE) |
/// amount_to_give (u64 LE) | bump`.
pub open spec fn escrow_maker(d: Seq<u8>) -> Seq<u8> {
    d.subrange(0, 32)
}

pub open spec fn escrow_mint_a(d: Seq<u8>) -> Seq<u8> {
    d.subrange(32, 64)
}

pub open spec fn escrow_mint_b(d: Seq<u8>) -> Seq<u8> {
    d.subrange(64, 96)
}

pub open spec fn escrow_amount_to_receive(d: Seq<u8>) -> nat {
    le_u64(d, 96)
}

pub open spec fn escrow_amount_to_give(d: Seq<u8>) -> nat {
    le_u64(d, 104)
}

pub open spec fn escrow_bump(d: Seq<u8>) -> u8 {
    d[112]
}

/// The terms of an open trade, as stored in the escrow account.
#[derive(Clone, Copy, Debug, PartialEq, Eq)]
pub struct Escrow {
    /// Who opened the trade and receives the payment.
    pub maker: [u8; 32],
    /// The mint of the tokens locked in the vault.
    pub mint_a: [u8; 32],
    /// The mint of the tokens the maker asks for.
    pub mint_b: [u8; 32],
    /// How many mint-B tokens the maker asks for.
    pub amount_to_receive: u64,
    /// How many mint-A tokens the maker deposited.
    pub amount_to_give: u64,
    /// The bump seed of the escrow address.
    pub bump: u8,
}

impl Escrow {
    /// Holds when `self` is the record that the bytes `d` encode.
    pub open spec fn encoded_by(self, d: Seq<u8>) -> bool {
        &&& d.len() == ESCROW_LEN
        &&& self.maker@ == escrow_maker(d)
        &&& self.mint_a@ == escrow_mint_a(d)
        &&& self.mint_b@ == escrow_mint_b(d)
        &&& self.amount_to_receive as nat == escrow_amount_to_receive(d)
        &&& self.amount_to_give as nat == escrow_amount_to_give(d)
        &&& self.bump == escrow_bump(d)
    }

    /// Reads an escrow record from account data; refused unless the data has
    /// exactly the record's length.
    pub fn load(data: &Vec<u8>) -> (r: Result<Escrow, EscrowError>)
        ensures
            data@.len() != ESCROW_LEN ==> r == Err::<Escrow, EscrowError>(
                EscrowError::InvalidAccountData,
            ),
            data@.len() == ESCROW_LEN ==> (r matches Ok(e) && e.encoded_by(data@)),
    {
        if data.len() != ESCROW_LEN {
            return Err(EscrowError::InvalidAccountData);
        }
        let maker = read_address(data, 0);
        let mint_a = read_address(data, 32);
        let mint_b = read_address(data, 64);
        let amount_to_receive = read_u64_le(data, 96);
        let amount_to_give = read_u64_le(data, 104);
        let bump = data[112];
        Ok(Escrow { maker, mint_a, mint_b, amount_to_receive, amount_to_give, bump })
    }
}

} // verus!
