//! Equality proofs between Pedersen commitments of selectively disclosable
//! credentials, over the Ristretto group.

pub mod bytes;
pub mod error;
pub mod primality;
pub mod certificate;
pub mod scalar;
pub mod group;
pub mod commitment;
pub mod equality;
pub mod transcript;
pub mod base64url;
pub mod json;
pub mod claims;
pub mod disclosure;
pub mod credential;
pub mod holder;
pub mod issuance;
pub mod presentation;
