use vstd::prelude::*;
use crate::error::ProcessError;
use crate::vault::Address;

verus! {

/// The identity and bump byte that the host derives from a seed label and a
/// program identity: the first bump, counting down from 255 to 1, whose address
/// is off the curve. `None` when no bump gives one.
pub uninterp spec fn program_address_of(seed: Seq<char>, program_id: Seq<u8>) -> Option<(Seq<u8>, u8)>;

/// Relies on solana_program's `Pubkey::try_find_program_address`, called with the
/// single seed `seed` (its UTF-8 bytes): its result depends on the seed and the
/// program identity alone. A seed that is too long gives `None`, not a panic.
#[verifier::external_body]
fn find_program_address(seed: &str, program_id: &Address) -> (r: Option<(Address, u8)>)
    ensures
        r is None <==> program_address_of(seed@, program_id@) is None,
        r matches Some((a, b)) ==> program_address_of(seed@, program_id@) == Some((a@, b)),
{
    let id = solana_program::pubkey::Pubkey::new_from_array(*program_id);
    solana_program::pubkey::Pubkey::try_find_program_address(&[seed.as_bytes()], &id).map(
        |(k, b)| (k.to_bytes(), b),
    )
}

/// A signing identity that the engine holds without a private key: the host accepts
/// a signature for `address` from the program that replays `seed` and `bump`.
#[derive(Debug, Clone, Copy)]
pub struct Authority {
    pub seed: &'static str,
    pub address: Address,
    pub bump: u8,
}

/// Derives the signing identity of `program_id` for the seed label `seed`.
pub fn derive_authority(seed: &'static str, program_id: &Address) -> (r: Result<
    Authority,
    ProcessError,
>)
    ensures
        program_address_of(seed@, program_id@) is None ==> r == Err::<Authority, ProcessError>(
            ProcessError::InvalidSeeds,
        ),
        r matches Ok(a) ==> a.seed@ == seed@ && program_address_of(seed@, program_id@) == Some(
            (a.address@, a.bump),
        ),
        program_address_of(seed@, program_id@) is Some ==> r is Ok,
{
    match find_program_address(seed, program_id) {
        Some((address, bump)) => Ok(Authority { seed, address, bump }),
        None => Err(ProcessError::InvalidSeeds),
    }
}

} // verus!
