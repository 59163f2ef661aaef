//! Signed trust elements: one link of a chain-of-trust certificate, in which an
//! issuer vouches, until an expiration time, that a public key is trustworthy.

pub mod key_pair;
pub mod trust;
