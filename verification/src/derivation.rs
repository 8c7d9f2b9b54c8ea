use vstd::prelude::*;

use crate::identity::Identity;

verus! {

/// The identity the host's canonical derivation yields for the seeds
/// ("pool", authority, bump): the pool's signing identity.
pub uninterp spec fn pool_signer_of(authority: Identity, bump: u8) -> Identity;

/// Relies on `Pubkey::derive_address` from anchor_lang's prelude: the derived
/// address is the SHA-256 digest of the seeds (the label "pool", the
/// authority's 32 bytes, the bump), the program's fixed identity and a fixed
/// marker, so it is a pure function of `authority` and `bump` alone, the same
/// on every machine. Both seeds are within the 32-byte seed limit, so the
/// call cannot fail.
#[verifier::external_body]
pub(crate) fn derive_pool_signer(authority: &Identity, bump: u8) -> (r: Identity)
    ensures
        r == pool_signer_of(*authority, bump),
{
    let program_id = anchor_lang::prelude::Pubkey::new_from_array([7u8; 32]);
    let seeds: [&[u8]; 2] = [b"pool", &authority.bytes];
    let pk = anchor_lang::prelude::Pubkey::derive_address(&seeds, Some(bump), &program_id);
    Identity { bytes: pk.to_bytes() }
}

} // verus!
