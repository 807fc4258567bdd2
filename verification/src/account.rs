use vstd::prelude::*;

verus! {

/// What an instruction can see of one account at a given moment.
#[derive(Clone, Debug)]
pub struct AccountSnapshot {
    /// The account's address.
    pub address: [u8; 32],
    /// The program that owns the account.
    pub owner: [u8; 32],
    /// Whether the transaction was signed by this account.
    pub is_signer: bool,
    /// The account's balance in lamports.
    pub lamports: u64,
    /// The account's data.
    pub data: Vec<u8>,
}

} // verus!
