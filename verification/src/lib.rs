//! A foreign-function bridge around a content-provenance engine.
//!
//! The crate adapts the engine's reader, builder and signer objects for a
//! caller that has no view of Rust's ownership model: objects live behind
//! small integer handles in explicit tables, byte streams are modelled by
//! an in-memory stream with exact contracts, signing is driven through a
//! caller-supplied callback, and failures travel through a per-thread
//! last-error channel instead of `Result` values.

use vstd::prelude::*;

pub mod alg;
pub mod api;
pub mod engine;
pub mod error;
pub mod marshal;
pub mod signer;
pub mod handle;
pub mod stream;

verus! {

/// Identifying string for this library, used by callers for logging.
pub fn version() -> (r: &'static str)
    ensures
        r@ == "c2pa_c/0.1.0"@,
{
    "c2pa_c/0.1.0"
}

} // verus!
