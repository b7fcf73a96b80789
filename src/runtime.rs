use vstd::prelude::*;

use solana_program::pubkey::Pubkey;

use crate::bytes::Address;

verus! {

/// Whether `key` is the token program's id.
pub uninterp spec fn is_token_program(key: Seq<u8>) -> bool;

/// The program address, with its bump seed, derived from `seed` for `program_id`;
/// `None` where no bump seed gives an address off the curve.
pub uninterp spec fn program_address(seed: Seq<u8>, program_id: Seq<u8>) -> Option<(Seq<u8>, u8)>;

/// Relies on `spl_token::check_program_account`: `Ok` exactly when `key` is the
/// token program's id, a fixed constant.
#[verifier::external_body]
pub(crate) fn check_token_program(key: &Address) -> (r: bool)
    ensures
        r == is_token_program(key@),
{
    spl_token::check_program_account(&Pubkey::new_from_array(key.bytes)).is_ok()
}

/// Relies on `Pubkey::try_find_program_address` with the single seed `seed`: it
/// hashes the seed, a bump byte and `program_id`, and depends on nothing else.
#[verifier::external_body]
pub(crate) fn find_program_address(seed: &[u8], program_id: &Address) -> (r: Option<(Address, u8)>)
    ensures
        match r {
            Some((a, bump)) => program_address(seed@, program_id@) == Some((a@, bump)),
            None => program_address(seed@, program_id@) is None,
        },
{
    match Pubkey::try_find_program_address(&[seed], &Pubkey::new_from_array(program_id.bytes)) {
        Some((key, bump)) => Some((Address { bytes: key.to_bytes() }, bump)),
        None => None,
    }
}

} // verus!
