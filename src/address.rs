use vstd::prelude::*;
use solana_program::pubkey::Pubkey;

verus! {

/// The seed that, with a user's address, determines the user's custody
/// address: the ASCII text `custody`.
pub const CUSTODY_SEED: [u8; 7] = [99, 117, 115, 116, 111, 100, 121];

/// The address that the program `program` finds for the seeds `seed` and
/// `user`, if there is one.
pub uninterp spec fn program_address(seed: Seq<u8>, user: Seq<u8>, program: Seq<u8>) -> Option<
    Seq<u8>,
>;

/// Relies on `Pubkey::try_find_program_address`: a pure function of the seeds
/// and the program id; the bump seed it also reports is not used.
#[verifier::external_body]
fn find_program_address(seed: &[u8], user: &[u8; 32], program: &[u8; 32]) -> (r: Option<[u8; 32]>)
    ensures
        match r {
            Some(a) => program_address(seed@, user@, program@) == Some(a@),
            None => program_address(seed@, user@, program@) is None,
        },
{
    Pubkey::try_find_program_address(&[seed, user.as_slice()], &Pubkey::new_from_array(*program))
        .map(|(address, _bump)| address.to_bytes())
}

/// The custody address of `user` under `program`, if there is one.
pub open spec fn custody_address_of(user: Seq<u8>, program: Seq<u8>) -> Option<Seq<u8>> {
    program_address(CUSTODY_SEED@, user, program)
}

/// Derives the custody address of `user` under the program `program_id`.
pub fn custody_address(user: &[u8; 32], program_id: &[u8; 32]) -> (r: Option<[u8; 32]>)
    ensures
        match r {
            Some(a) => custody_address_of(user@, program_id@) == Some(a@),
            None => custody_address_of(user@, program_id@) is None,
        },
{
    let seed: [u8; 7] = CUSTODY_SEED;
    find_program_address(seed.as_slice(), user, program_id)
}

} // verus!
