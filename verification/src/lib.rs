//! Allocation engine for a phased digital-collectible distribution service.
//!
//! A fixed authority defines a pool of mintable items and a sequence of
//! eligibility phases; participants draw items from the pool one at a time
//! under phase-specific gating rules. The pool's item records are packed
//! into a single growable byte buffer that is compacted in place on resize.

pub mod address;
pub mod authorization;
pub mod config;
pub mod entry;
pub mod errors;
pub mod mint;
pub mod phase;
pub mod pool;
pub mod release;
pub mod token_check;
pub mod utils;
