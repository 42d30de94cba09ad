//! Capability traits for the byte representations of cryptographic keys.
//!
//! A key type states its sizes ([`repr::KeyMeta`], [`repr::KeypairMeta`]) and
//! opts into the capabilities it has: construction from and scoped access to
//! its secret bytes, its public bytes, or both in one combined layout, and
//! generation at random or from a seed. Export into a byte sink, or into a
//! fresh buffer that clears itself, then comes with the capability.
//!
//! Every capability carries a contract over a mathematical model of the key:
//! the sequence of secret bytes that it holds, if it holds any, and the
//! sequence of its public bytes.

pub mod buffer;
pub mod error;
pub mod laws;
pub mod repr;
