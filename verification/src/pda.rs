use vstd::prelude::*;

verus! {

/// The first seed of every escrow address: the bytes of `"escrow"`.
pub const ESCROW_SEED: [u8; 6] = [101, 115, 99, 114, 111, 119];

/// The address that `pinocchio_pubkey` derives from `seeds`, an optional bump
/// and a program id (a SHA-256 digest of the seeds, the bump, the program id
/// and the PDA marker).
pub uninterp spec fn derived_address(seeds: Seq<Seq<u8>>, bump: Option<u8>, program_id: Seq<u8>) -> Seq<u8>;

/// `pinocchio_pubkey::derive_address_const` over three seeds: the contract claims the
/// result is the derived address of these seeds, bump and program id, a function of
/// them alone. `derive_address` on the Solana target hashes the same bytes with the
/// `sol_sha256` syscall; the const form hashes them in software and runs on any target.
#[verifier::external_body]
fn derive_address(
    seed0: &[u8],
    seed1: &[u8],
    seed2: &[u8],
    bump: Option<u8>,
    program_id: &[u8; 32],
) -> (r: [u8; 32])
    ensures
        r@ == derived_address(seq![seed0@, seed1@, seed2@], bump, program_id@),
{
    pinocchio_pubkey::derive_address_const(&[seed0, seed1, seed2], bump, program_id)
}

/// The seeds of the escrow opened by `maker` with the given bump:
/// `["escrow", maker, [bump]]`.
pub open spec fn escrow_seeds(maker: Seq<u8>, bump: u8) -> Seq<Seq<u8>> {
    seq![ESCROW_SEED@, maker, seq![bump]]
}

/// The address of the escrow that `maker` opens with `bump` under `program_id`.
pub open spec fn spec_escrow_address(maker: Seq<u8>, bump: u8, program_id: Seq<u8>) -> Seq<u8> {
    derived_address(escrow_seeds(maker, bump), None, program_id)
}

/// Derives the address of the escrow that `maker` opens with `bump` under `program_id`.
pub fn escrow_address(maker: &[u8; 32], bump: u8, program_id: &[u8; 32]) -> (r: [u8; 32])
    ensures
        r@ == spec_escrow_address(maker@, bump, program_id@),
{
    let prefix: [u8; 6] = ESCROW_SEED;
    let bump_seed: [u8; 1] = [bump];
    let r = derive_address(prefix.as_slice(), maker.as_slice(), bump_seed.as_slice(), None, program_id);
    assert(bump_seed@ =~= seq![bump]);
    assert(escrow_seeds(maker@, bump) =~= seq![prefix@, maker@, bump_seed@]);
    r
}

} // verus!
