//! Deterministic vault address derivation: the storage address of a vault
//! is a pure function of a namespace tag, the owner's key bytes, and the
//! program's key, computed by the host key type's program-derived-address
//! search.

use vstd::prelude::*;

use crate::vault::Identity;

verus! {

/// The derived address for the given namespace tag, owner key bytes and
/// 32-byte program key: the outcome of the program-derived-address search,
/// a deterministic function of its inputs alone. `None` is the
/// statistically improbable event that no bump seed yields a valid
/// address, or that a seed is malformed.
pub uninterp spec fn derived_address(tag: Seq<u8>, owner: Seq<u8>, program_id: Seq<u8>) -> Option<
    Seq<u8>,
>;

/// Relies on `Pubkey::try_find_program_address` of anchor_lang's key type:
/// the search depends only on the seeds and the program key, every address
/// it returns is 32 bytes, and `None` comes only when no bump seed yields
/// a valid address or a seed is malformed.
#[verifier::external_body]
fn find_address(tag: &Vec<u8>, owner: &Vec<u8>, program_id: &Vec<u8>) -> (r: Option<Vec<u8>>)
    requires
        program_id@.len() == 32,
    ensures
        match r {
            Some(a) => a@.len() == 32 && derived_address(tag@, owner@, program_id@) == Some(a@),
            None => derived_address(tag@, owner@, program_id@) is None,
        },
{
    let program = anchor_lang::solana_program::pubkey::Pubkey::new_from_array(
        program_id.as_slice().try_into().unwrap(),
    );
    anchor_lang::solana_program::pubkey::Pubkey::try_find_program_address(
        &[tag.as_slice(), owner.as_slice()],
        &program,
    ).map(|(address, _bump)| address.to_bytes().to_vec())
}

/// The storage address of the vault for `owner` under the given namespace
/// tag, within the program identified by the 32-byte `program_id`.
pub fn vault_address(tag: &Vec<u8>, owner: &Identity, program_id: &Vec<u8>) -> (r: Option<Vec<u8>>)
    requires
        program_id@.len() == 32,
    ensures
        match r {
            Some(a) => a@.len() == 32 && derived_address(tag@, owner@, program_id@) == Some(a@),
            None => derived_address(tag@, owner@, program_id@) is None,
        },
{
    find_address(tag, owner.as_bytes(), program_id)
}

} // verus!
