//! Core logic of a proof-gated social-deduction game.
//!
//! The library owns the game's rules: the phase state machine
//! (lobby, playing, meeting, ended), the player roster and its
//! mutation rules, the meeting and voting protocol with majority
//! ejection, win-condition evaluation, and the nullifier-based
//! replay guard. All state is explicit: every operation takes the
//! contract value and returns a typed result, so a host shell can
//! persist it in a ledger and publish notifications at its edge.
//! Proof verification is abstracted as a trait the host implements;
//! the rules are verified for every answer a verifier can give.

pub mod game;
pub mod hash;
pub mod laws;
pub mod roster;
pub mod types;
pub mod zk;

pub use hash::Hash32;
