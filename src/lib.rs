//! Crowdfunded campaigns whose funds reach the creator milestone by milestone,
//! each milestone released only after a vote of the investors weighted by what
//! each invested.

pub mod identity;
pub mod state;
pub mod instructions;
pub mod laws;
