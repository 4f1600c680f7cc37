//! Verified core of a client for a local hardware-abstraction daemon:
//! a wire-envelope codec, a correlation table from pending request ids to
//! response sinks, the connection's id-allocation and dispatch logic, and a
//! synchronous facade with one call per user-visible action.
//!
//! The stream itself is owned by unverified callers: they write the bytes
//! these functions produce and feed back the bytes they read.

pub mod codec;
pub mod table;
pub mod client;
pub mod facade;
