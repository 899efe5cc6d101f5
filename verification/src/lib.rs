//! Share accounting for a tokenized investment pool.
//!
//! Investors deposit a stable asset and receive pool shares minted 1:1
//! against the deposit; tourists pay bookings into the pool's vault; and
//! accumulated proceeds are paid back to shareholders pro rata, one holder
//! per call, at a floor-divided per-share rate recomputed on every call.
//!
//! The actual movement of balances is the job of an external value-transfer
//! collaborator (a token runtime), which this crate treats as out of scope.
//! What this crate holds — and verifies — is the accounting itself: each
//! operation is a function over plain balances with an exact contract, every
//! guard (empty vault, zero share supply, overflow, insufficient balance)
//! returns a typed error and leaves the state untouched, and the
//! conservation laws for share supply and vault balance are proved over
//! arbitrary sequences of operations.

pub mod laws;
pub mod model;
pub mod ops;
pub mod rules;
pub mod state;
