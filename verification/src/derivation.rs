//! Deterministic custody-address derivation.
//!
//! The custody account that holds the sale's inventory lives at an address
//! derived from the token mint's identity plus a one-byte disambiguator (the
//! "bump"). The derivation itself is the ledger's hash-based program-address
//! computation; the library names its result and verifies, by recomputation,
//! that a caller-supplied proof reconstructs the canonical address.

use vstd::prelude::*;

verus! {

/// The program-derived address for seeds `[mint, [bump]]` under `program`,
/// or `None` where those seeds admit no valid derivation.
pub uninterp spec fn derived_custody(mint: Seq<u8>, bump: u8, program: Seq<u8>) -> Option<Seq<u8>>;

/// Relies on `anchor_lang::solana_program::pubkey::Pubkey::create_program_address`
/// (`solana_address::Address::create_program_address`): the derived address is a
/// hash of the seeds and the program id alone, so it is a function of the
/// arguments; the call returns `Err` exactly where the seeds admit no valid
/// derivation (the hash lands on the curve).
#[verifier::external_body]
fn derive_custody_address(mint: &[u8; 32], bump: u8, program: &[u8; 32]) -> (r: Option<[u8; 32]>)
    ensures
        (r matches Some(a) ==> derived_custody(mint@, bump, program@) == Some(a@)),
        (r is None ==> derived_custody(mint@, bump, program@) is None),
{
    let bump_seed: [u8; 1] = [bump];
    let seeds: [&[u8]; 2] = [mint.as_slice(), bump_seed.as_slice()];
    let program_id = anchor_lang::solana_program::pubkey::Pubkey::new_from_array(*program);
    match anchor_lang::solana_program::pubkey::Pubkey::create_program_address(&seeds, &program_id) {
        Ok(address) => Some(address.to_bytes()),
        Err(_) => None,
    }
}

/// True exactly when `bump` is a valid derivation proof: the canonical
/// derivation from `mint` under `program` exists and lands on `expected`.
pub open spec fn spec_custody_proof_ok(
    expected: Seq<u8>,
    mint: Seq<u8>,
    bump: u8,
    program: Seq<u8>,
) -> bool {
    derived_custody(mint, bump, program) == Some(expected)
}

/// Re-derives the custody address from `mint` and `bump` and compares it with
/// `expected`: the structural authority check for program-owned accounts.
pub fn verify_custody(expected: &[u8; 32], mint: &[u8; 32], bump: u8, program: &[u8; 32]) -> (r: bool)
    ensures
        r == spec_custody_proof_ok(expected@, mint@, bump, program@),
{
    match derive_custody_address(mint, bump, program) {
        Some(address) => crate::guard::identity_eq(&address, expected),
        None => false,
    }
}

} // verus!
