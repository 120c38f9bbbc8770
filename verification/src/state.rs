//! The records that the engine keeps.

pub mod auction;
pub mod escrow;
pub mod user_position;
