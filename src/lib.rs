//! Raffle escrow program: a deterministic state machine for raffles whose
//! winners are drawn from an outside randomness oracle, with checked
//! settlement of prizes and fees.
pub mod error;
pub mod interop;
pub mod state;
pub mod draw;
pub mod settlement;
pub mod accounts;
pub mod admin;
pub mod processor;
pub mod instruction;
