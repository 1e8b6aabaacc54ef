//! The stored form of the ledger: a fixed run of bytes.

use vstd::prelude::*;
use vstd::bytes::{
    lemma_auto_spec_u64_to_from_le_bytes, spec_u64_to_le_bytes, u64_from_le_bytes,
    u64_to_le_bytes,
};
use vstd::slice::slice_subrange;
use crate::constants::GAME_STATE_SPACE;
use crate::state::{lemma_pubkey_ext, GameState, Pubkey};

verus! {

/// The bytes of a stored ledger, in order: the 8-byte tag of the record, the
/// mint's address, the counter, the current reward and the threshold as
/// little-endian 64-bit numbers, and the authority's address.
pub open spec fn stored(tag: Seq<u8>, state: GameState) -> Seq<u8> {
    tag + state.token_mint@ + spec_u64_to_le_bytes(state.total_minted) + spec_u64_to_le_bytes(
        state.current_reward,
    ) + spec_u64_to_le_bytes(state.halving_threshold) + state.authority@
}

/// Whether `bytes` begins with the eight bytes of `tag`.
pub fn has_tag(bytes: &[u8], tag: &[u8; 8]) -> (r: bool)
    ensures
        r == (bytes@.len() >= 8 && bytes@.subrange(0, 8) == tag@),
{
    if bytes.len() < 8 {
        return false;
    }
    let mut i: usize = 0;
    while i < 8
        invariant
            i <= 8,
            bytes@.len() >= 8,
            forall|j: int| 0 <= j < i ==> bytes@[j] == tag@[j],
        decreases 8 - i,
    {
        if bytes[i] != tag[i] {
            assert(bytes@.subrange(0, 8)[i as int] != tag@[i as int]);
            return false;
        }
        i += 1;
    }
    assert(bytes@.subrange(0, 8) =~= tag@);
    true
}

/// Reads the address that stands at `at` in `bytes`.
fn read_key(bytes: &[u8], at: usize) -> (key: Pubkey)
    requires
        at + 32 <= bytes@.len(),
    ensures
        key@ == bytes@.subrange(at as int, at + 32),
{
    let mut held: [u8; 32] = [0u8; 32];
    let len: usize = bytes.len();
    let mut i: usize = 0;
    while i < 32
        invariant
            i <= 32,
            len == bytes@.len(),
            at + 32 <= len,
            forall|j: int| 0 <= j < i ==> held@[j] == bytes@[at + j],
        decreases 32 - i,
    {
        held[i] = bytes[at + i];
        i += 1;
    }
    assert(held@ =~= bytes@.subrange(at as int, at + 32));
    Pubkey { bytes: held }
}

impl GameState {
    /// Writes the ledger in its stored form under the given tag.
    pub fn encode(&self, tag: &[u8; 8]) -> (bytes: Vec<u8>)
        ensures
            bytes@ == stored(tag@, *self),
            bytes@.len() == GAME_STATE_SPACE,
            bytes@.subrange(0, 8) == tag@,
    {
        proof {
            lemma_auto_spec_u64_to_from_le_bytes();
            lemma_stored_shape(tag@, *self);
        }
        let mut bytes: Vec<u8> = Vec::new();
        bytes.extend_from_slice(tag.as_slice());
        bytes.extend_from_slice(self.token_mint.bytes.as_slice());
        let total = u64_to_le_bytes(self.total_minted);
        bytes.extend_from_slice(total.as_slice());
        let reward = u64_to_le_bytes(self.current_reward);
        bytes.extend_from_slice(reward.as_slice());
        let threshold = u64_to_le_bytes(self.halving_threshold);
        bytes.extend_from_slice(threshold.as_slice());
        bytes.extend_from_slice(self.authority.bytes.as_slice());
        assert(bytes@ =~= stored(tag@, *self));
        bytes
    }

    /// Reads a ledger from its stored form. The bytes are accepted where
    /// they have the length of a stored ledger and begin with the tag; the
    /// ledger returned is the one whose stored form they are, so what
    /// `encode` wrote is read back as it was.
    pub fn decode(bytes: &[u8], tag: &[u8; 8]) -> (r: Option<GameState>)
        ensures
            r is Some <==> bytes@.len() == GAME_STATE_SPACE && bytes@.subrange(0, 8) == tag@,
            r is Some ==> stored(tag@, r->0) == bytes@,
            forall|state: GameState| #[trigger] stored(tag@, state) == bytes@ ==> r == Some(state),
    {
        proof {
            assert forall|other: GameState| #[trigger] stored(tag@, other) == bytes@ implies bytes@.len()
                == GAME_STATE_SPACE && bytes@.subrange(0, 8) == tag@ by {
                lemma_stored_shape(tag@, other);
            }
        }
        if bytes.len() != GAME_STATE_SPACE {
            return None;
        }
        if !has_tag(bytes, tag) {
            return None;
        }
        let token_mint = read_key(bytes, 8);
        let total_minted = u64_from_le_bytes(slice_subrange(bytes, 40, 48));
        let current_reward = u64_from_le_bytes(slice_subrange(bytes, 48, 56));
        let halving_threshold = u64_from_le_bytes(slice_subrange(bytes, 56, 64));
        let authority = read_key(bytes, 64);
        let state = GameState {
            token_mint,
            total_minted,
            current_reward,
            halving_threshold,
            authority,
        };
        proof {
            lemma_auto_spec_u64_to_from_le_bytes();
            assert(spec_u64_to_le_bytes(total_minted) == bytes@.subrange(40, 48));
            assert(spec_u64_to_le_bytes(current_reward) == bytes@.subrange(48, 56));
            assert(spec_u64_to_le_bytes(halving_threshold) == bytes@.subrange(56, 64));
            assert(stored(tag@, state) =~= bytes@);
            assert forall|other: GameState| #[trigger] stored(tag@, other) == bytes@ implies other
                == state by {
                lemma_stored_injective(tag@, state, other);
            }
        }
        Some(state)
    }
}

/// A stored form has the fixed length and begins with its tag.
pub proof fn lemma_stored_shape(tag: Seq<u8>, state: GameState)
    requires
        tag.len() == 8,
    ensures
        stored(tag, state).len() == GAME_STATE_SPACE,
        stored(tag, state).subrange(0, 8) == tag,
{
    lemma_auto_spec_u64_to_from_le_bytes();
    assert(stored(tag, state).subrange(0, 8) =~= tag);
}

/// Two ledgers with the same stored form are the same ledger: the stored
/// form loses nothing.
pub proof fn lemma_stored_injective(tag: Seq<u8>, state: GameState, read: GameState)
    requires
        tag.len() == 8,
        stored(tag, read) == stored(tag, state),
    ensures
        read == state,
{
    lemma_auto_spec_u64_to_from_le_bytes();
    let a = stored(tag, state);
    let b = stored(tag, read);
    assert(a.subrange(8, 40) =~= state.token_mint@);
    assert(b.subrange(8, 40) =~= read.token_mint@);
    assert(a.subrange(40, 48) =~= spec_u64_to_le_bytes(state.total_minted));
    assert(b.subrange(40, 48) =~= spec_u64_to_le_bytes(read.total_minted));
    assert(a.subrange(48, 56) =~= spec_u64_to_le_bytes(state.current_reward));
    assert(b.subrange(48, 56) =~= spec_u64_to_le_bytes(read.current_reward));
    assert(a.subrange(56, 64) =~= spec_u64_to_le_bytes(state.halving_threshold));
    assert(b.subrange(56, 64) =~= spec_u64_to_le_bytes(read.halving_threshold));
    assert(a.subrange(64, 96) =~= state.authority@);
    assert(b.subrange(64, 96) =~= read.authority@);
    lemma_pubkey_ext(read.token_mint, state.token_mint);
    lemma_pubkey_ext(read.authority, state.authority);
}

} // verus!
