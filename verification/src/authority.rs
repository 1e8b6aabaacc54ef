//! The derived minting authority and the mint instruction it signs.

use vstd::prelude::*;
use crate::constants::{authority_seed, game_authority_seed};
use crate::state::Pubkey;

verus! {

/// The program address and bump seed that `Pubkey::try_find_program_address`
/// of `anchor_lang` finds for one seed and a program's address, or `None`
/// where it finds none.
pub uninterp spec fn program_address(seed: Seq<u8>, program_id: Seq<u8>) -> Option<(Seq<u8>, u8)>;

/// A derived address and its bump seed as plain values.
pub open spec fn derived_view(derived: Option<(Pubkey, u8)>) -> Option<(Seq<u8>, u8)> {
    match derived {
        Some((key, bump)) => Some((key@, bump)),
        None => None,
    }
}

/// Calls `Pubkey::try_find_program_address` of `anchor_lang` with the single
/// seed `seed` and the program's address. The contract claims only that the
/// answer is the one named `program_address` for these bytes: the search hashes
/// the seed, a bump seed and the address, and depends on nothing else.
#[verifier::external_body]
pub(crate) fn find_program_address(seed: &Vec<u8>, program_id: &Pubkey) -> (derived: Option<(Pubkey, u8)>)
    ensures
        derived_view(derived) == program_address(seed@, program_id@),
{
    let id = anchor_lang::prelude::Pubkey::new_from_array(program_id.bytes);
    anchor_lang::prelude::Pubkey::try_find_program_address(&[seed.as_slice()], &id)
        .map(|(key, bump)| (Pubkey { bytes: key.to_bytes() }, bump))
}

/// The minting authority of the program at `program_id`: the address derived
/// from the fixed seed, with its bump seed.
pub fn derive_authority(program_id: &Pubkey) -> (derived: Option<(Pubkey, u8)>)
    ensures
        derived_view(derived) == program_address(authority_seed(), program_id@),
{
    let seed = game_authority_seed();
    find_program_address(&seed, program_id)
}

/// Whether the offered authority is the derived one.
pub open spec fn authority_accepted(offered: Seq<u8>, derived: Option<(Seq<u8>, u8)>) -> bool {
    match derived {
        Some((key, _)) => key == offered,
        None => false,
    }
}

/// The bump seed of a derived authority; of none, zero.
pub open spec fn derived_bump(derived: Option<(Seq<u8>, u8)>) -> u8 {
    match derived {
        Some((_, bump)) => bump,
        None => 0,
    }
}

/// Compares the offered authority with the derived one and hands out the bump
/// seed that signs for it.
pub fn check_authority(offered: &Pubkey, derived: Option<(Pubkey, u8)>) -> (bump: Option<u8>)
    ensures
        bump is Some <==> authority_accepted(offered@, derived_view(derived)),
        bump is Some ==> derived_view(derived) == Some((offered@, bump->0)) && bump->0 == derived_bump(
            derived_view(derived),
        ),
{
    match derived {
        Some((key, bump)) => {
            if key.same(offered) {
                Some(bump)
            } else {
                None
            }
        },
        None => None,
    }
}

/// A request to mint `amount` units of `mint` to the account `to`, signed by
/// the derived authority through its seeds.
#[derive(Clone, Copy, Debug, PartialEq, Eq)]
pub struct MintTo {
    pub mint: Pubkey,
    pub to: Pubkey,
    pub authority: Pubkey,
    pub bump: u8,
    pub amount: u64,
}

impl MintTo {
    /// The seeds that sign for the authority: the fixed seed, then the bump.
    pub open spec fn seeds(self) -> Seq<Seq<u8>> {
        seq![authority_seed(), seq![self.bump]]
    }

    /// The signer seeds of this request.
    pub fn signer_seeds(&self) -> (seeds: Vec<Vec<u8>>)
        ensures
            seeds.len() == 2,
            seeds[0]@ == authority_seed(),
            seeds[1]@ == seq![self.bump],
    {
        let mut seeds: Vec<Vec<u8>> = Vec::new();
        seeds.push(game_authority_seed());
        let bump: Vec<u8> = vec![self.bump];
        assert(bump@ =~= seq![self.bump]);
        seeds.push(bump);
        seeds
    }
}

} // verus!
