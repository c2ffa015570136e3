//! A value time-lock: a depositor commits lamports into a custody record
//! that cannot be released before a minimum holding period has elapsed.
//!
//! The library is a pure state-transition function over plain account
//! values; the host runtime supplies the accounts, the clock reading and
//! the instruction bytes on each call and persists what comes back.
pub mod error;
pub mod instruction;
pub mod lifecycle;
pub mod processor;
pub mod state;
pub mod utils;
