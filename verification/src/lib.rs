//! A verified counter state-transition handler.
//!
//! The library owns one piece of persisted state, a `u32` counter stored as
//! four little-endian bytes in a host-managed storage slot, and applies one of
//! two operations to it: increment or decrement, both wrapping modulo 2^32.
//! The instruction processor decodes the stored state and the requested
//! operation from raw bytes, applies the operation, re-encodes the state into
//! the slot, and reports success or a typed failure.

pub mod codec;
pub mod error;
pub mod instruction;
pub mod processor;
pub mod state;
