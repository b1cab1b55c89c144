//! Core of a Starknet OS runner: the execution-helper state machine that
//! replays a batch's call trees in pre-order, and the hint handlers that
//! synchronize a Cairo VM with that cursor.
//!
//! The host VM, its memory and its execution-scope stack are modelled by
//! plain data (`vm`, `scopes`); the glue that binds the handlers to a real
//! VM lives outside the verified library.

pub mod felt;
pub mod helper;
pub mod hints;
pub mod scopes;
pub mod types;
pub mod vm;

use vstd::prelude::*;

verus! {

/// A block's hash is only available to the OS once this many blocks have
/// gone by; the previous block context exists only from that depth on.
pub const STORED_BLOCK_HASH_BUFFER: u64 = 10;

} // verus!
