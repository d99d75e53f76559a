//! Account-and-progress protocol logic for a multi-device reading-progress
//! synchronization service.
//!
//! Clients register an account, authenticate with a shared secret, and push or
//! pull a per-document progress record kept in a key-value store. This crate
//! holds everything that decides what a valid operation is and how state is
//! keyed and mutated: field validation, the key-namespacing scheme, the
//! authentication check, the progress-record model with its hash
//! (de)serialization, and the four endpoint orchestrators, stated against an
//! in-memory model of the store. Transport, routing and the store's network
//! driver are external collaborators and live outside this crate.

pub mod dto;
pub mod error;
pub mod handlers;
pub mod keys;
pub mod laws;
pub mod numerals;
pub mod percent;
pub mod store;
mod time;
pub mod validate;

use vstd::prelude::*;
use vstd::string::*;

verus! {

/// Default address of the backing store, used when no address is configured.
pub fn default_redis() -> (r: String)
    ensures
        r@ == "redis://127.0.0.1:6379/0"@,
{
    String::from_str("redis://127.0.0.1:6379/0")
}

} // verus!
