//! Core logic of a proof-of-work mining client: exact 256-bit difficulty
//! comparison, keyed-hash validation, the byte protocol spoken with the
//! external nonce-search engine, reward-bus selection, epoch-reset
//! arbitration, and the state machine that drives one mining round.

pub mod bus;
pub mod compare;
pub mod display;
pub mod epoch;
pub mod hashing;
pub mod protocol;
mod rng;
pub mod round;
