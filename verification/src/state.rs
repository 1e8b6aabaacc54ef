//! The ledger's data and its mathematical model.

use vstd::prelude::*;

verus! {

/// A 32-byte account address.
#[derive(Clone, Copy, Debug, PartialEq, Eq)]
pub struct Pubkey {
    pub bytes: [u8; 32],
}

impl View for Pubkey {
    type V = Seq<u8>;

    open spec fn view(&self) -> Seq<u8> {
        self.bytes@
    }
}

impl Pubkey {
    /// The address made of the given bytes.
    pub fn new_from_array(bytes: [u8; 32]) -> (key: Pubkey)
        ensures
            key.bytes == bytes,
            key@ == bytes@,
    {
        Pubkey { bytes }
    }

    /// The bytes of the address.
    pub fn to_bytes(&self) -> (bytes: [u8; 32])
        ensures
            bytes == self.bytes,
            bytes@ == self@,
    {
        self.bytes
    }

    /// Whether two addresses hold the same bytes.
    pub fn same(&self, other: &Pubkey) -> (r: bool)
        ensures
            r == (self@ == other@),
    {
        let mut i: usize = 0;
        while i < 32
            invariant
                i <= 32,
                forall|j: int| 0 <= j < i ==> self@[j] == other@[j],
            decreases 32 - i,
        {
            if self.bytes[i] != other.bytes[i] {
                return false;
            }
            i += 1;
        }
        assert(self@ =~= other@);
        true
    }
}

/// Two addresses with the same bytes are the same address.
pub proof fn lemma_pubkey_ext(a: Pubkey, b: Pubkey)
    requires
        a@ == b@,
    ensures
        a == b,
{
    assert(a.bytes@ =~= b.bytes@);
    assert(a.bytes == b.bytes);
}

/// The ledger as mathematics sees it: unbounded counters and byte sequences.
pub struct Ledger {
    pub token_mint: Seq<u8>,
    pub total_minted: nat,
    pub current_reward: nat,
    pub halving_threshold: nat,
    pub authority: Seq<u8>,
}

impl Ledger {
    /// The counter after the reward is added, before any halving.
    pub open spec fn raised(self) -> nat {
        self.total_minted + self.current_reward
    }

    /// Whether adding the reward leaves the range of a 64-bit counter.
    pub open spec fn overflows(self) -> bool {
        self.raised() > u64::MAX
    }

    /// Whether this reward reaches the threshold, and so halves the amount.
    pub open spec fn crosses(self) -> bool {
        self.raised() >= self.halving_threshold
    }

    /// The ledger after one reward. The halving is applied once, however far
    /// past the threshold the counter has come.
    pub open spec fn rewarded(self) -> Ledger {
        if self.crosses() {
            Ledger {
                total_minted: (self.raised() - self.halving_threshold) as nat,
                current_reward: self.current_reward / 2,
                ..self
            }
        } else {
            Ledger { total_minted: self.raised(), ..self }
        }
    }

    /// The counter is below the threshold and one reward cannot pass it twice.
    pub open spec fn settled(self) -> bool {
        self.total_minted < self.halving_threshold && self.current_reward
            <= self.halving_threshold
    }
}

/// The durable record of one token's emission.
#[derive(Clone, Copy, Debug, PartialEq, Eq)]
pub struct GameState {
    pub token_mint: Pubkey,
    pub total_minted: u64,
    pub current_reward: u64,
    pub halving_threshold: u64,
    pub authority: Pubkey,
}

impl View for GameState {
    type V = Ledger;

    open spec fn view(&self) -> Ledger {
        Ledger {
            token_mint: self.token_mint@,
            total_minted: self.total_minted as nat,
            current_reward: self.current_reward as nat,
            halving_threshold: self.halving_threshold as nat,
            authority: self.authority@,
        }
    }
}

} // verus!
