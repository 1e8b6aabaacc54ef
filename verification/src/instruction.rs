//! The instructions of the program and the tags that select them.

use vstd::prelude::*;
use crate::layout::has_tag;

verus! {

/// An operation that a caller can ask of the program.
#[derive(Clone, Copy, Debug, PartialEq, Eq, Structural)]
pub enum Instruction {
    /// Create the ledger.
    Initialize,
    /// Pay one reward.
    RewardUser,
}

/// The tag of `Initialize`: the first eight bytes of the SHA-256 of the text
/// `global:initialize`.
pub open spec fn initialize_tag() -> Seq<u8> {
    seq![175u8, 175u8, 109u8, 31u8, 13u8, 152u8, 155u8, 237u8]
}

/// The tag of `RewardUser`: the first eight bytes of the SHA-256 of the text
/// `global:reward_user`.
pub open spec fn reward_user_tag() -> Seq<u8> {
    seq![185u8, 88u8, 102u8, 210u8, 188u8, 153u8, 92u8, 249u8]
}

impl Instruction {
    /// The tag that selects this instruction.
    pub open spec fn tag_bytes(self) -> Seq<u8> {
        match self {
            Instruction::Initialize => initialize_tag(),
            Instruction::RewardUser => reward_user_tag(),
        }
    }

    /// The instruction that the data of a call selects: the one whose tag
    /// the data begins with. What follows the tag is not read.
    pub open spec fn selected(data: Seq<u8>) -> Option<Instruction> {
        if data.len() >= 8 && data.subrange(0, 8) == initialize_tag() {
            Some(Instruction::Initialize)
        } else if data.len() >= 8 && data.subrange(0, 8) == reward_user_tag() {
            Some(Instruction::RewardUser)
        } else {
            None
        }
    }

    /// The tag that selects this instruction.
    pub fn tag(&self) -> (tag: [u8; 8])
        ensures
            tag@ == self.tag_bytes(),
    {
        match self {
            Instruction::Initialize => {
                let tag: [u8; 8] = [175u8, 175u8, 109u8, 31u8, 13u8, 152u8, 155u8, 237u8];
                assert(tag@ =~= initialize_tag());
                tag
            },
            Instruction::RewardUser => {
                let tag: [u8; 8] = [185u8, 88u8, 102u8, 210u8, 188u8, 153u8, 92u8, 249u8];
                assert(tag@ =~= reward_user_tag());
                tag
            },
        }
    }

    /// Reads the instruction from the data of a call.
    pub fn decode(data: &[u8]) -> (r: Option<Instruction>)
        ensures
            r == Instruction::selected(data@),
    {
        if has_tag(data, &Instruction::Initialize.tag()) {
            Some(Instruction::Initialize)
        } else if has_tag(data, &Instruction::RewardUser.tag()) {
            Some(Instruction::RewardUser)
        } else {
            None
        }
    }
}

/// The data that begins with an instruction's tag selects that instruction.
pub proof fn lemma_tag_selects(instruction: Instruction, rest: Seq<u8>)
    ensures
        Instruction::selected(instruction.tag_bytes() + rest) == Some(instruction),
{
    let data = instruction.tag_bytes() + rest;
    assert(data.subrange(0, 8) =~= instruction.tag_bytes());
    assert(initialize_tag()[0] != reward_user_tag()[0]);
}

} // verus!
