//! The fixed parameters of the emission schedule.

use vstd::prelude::*;

verus! {

/// The amount paid per reward when a ledger is created.
pub const INITIAL_REWARD: u64 = 10_000;

/// The emission after which the reward is halved.
pub const HALVING_THRESHOLD: u64 = 10_000_000_000;

/// The size of a stored ledger in bytes: an 8-byte tag, the mint's address,
/// three 64-bit counters and the authority's address.
pub const GAME_STATE_SPACE: usize = 96;

/// The tag that opens a stored ledger: the first eight bytes of the SHA-256
/// of the text `account:GameState`.
pub open spec fn account_tag_bytes() -> Seq<u8> {
    seq![144u8, 94u8, 208u8, 172u8, 248u8, 99u8, 134u8, 120u8]
}

/// The tag that opens a stored ledger.
pub fn account_tag() -> (tag: [u8; 8])
    ensures
        tag@ == account_tag_bytes(),
{
    let tag: [u8; 8] = [144u8, 94u8, 208u8, 172u8, 248u8, 99u8, 134u8, 120u8];
    assert(tag@ =~= account_tag_bytes());
    tag
}

/// The seed of the minting authority, the ASCII text `game_authority`.
pub open spec fn authority_seed() -> Seq<u8> {
    seq![103u8, 97u8, 109u8, 101u8, 95u8, 97u8, 117u8, 116u8, 104u8, 111u8, 114u8, 105u8, 116u8, 121u8]
}

/// The seed of the minting authority as bytes.
pub fn game_authority_seed() -> (seed: Vec<u8>)
    ensures
        seed@ == authority_seed(),
{
    let seed: Vec<u8> = vec![103u8, 97u8, 109u8, 101u8, 95u8, 97u8, 117u8, 116u8, 104u8, 111u8, 114u8, 105u8, 116u8, 121u8];
    assert(seed@ =~= authority_seed());
    seed
}

} // verus!
