//! A reward ledger with a halving emission schedule.
//!
//! The ledger counts the tokens handed out since the last halving and holds the
//! amount paid per reward. Each reward adds the current amount to the counter;
//! when the counter reaches the threshold the amount is halved and the counter
//! is reduced by the threshold. Every reward ends in a mint instruction that is
//! signed by an authority derived from a fixed seed and the program's address.

pub mod constants;
pub mod error;
pub mod state;
pub mod authority;
pub mod engine;
pub mod laws;
pub mod layout;
pub mod instruction;

pub use crate::authority::MintTo;
pub use crate::engine::{
    initialize, initialize_with_schedule, reward_user, reward_user_gated, Initialize, RewardUser,
    UpdateReward,
};
pub use crate::error::ErrorCode;
pub use crate::instruction::Instruction;
pub use crate::state::{GameState, Pubkey};
