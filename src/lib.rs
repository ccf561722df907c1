//! Hash-committed identity and credential proofs.
//!
//! A holder proves knowledge of a private identifier whose digest matches a
//! published one, or possession of an issuer-signed credential, through a
//! zero-knowledge proof system that the caller supplies.

pub mod boundary;
pub mod circuit;
pub mod credential;
pub mod digest;
pub mod encoder;
pub mod error;
pub mod hexcode;
pub mod keystore;
pub mod protocol;
pub mod signature;
