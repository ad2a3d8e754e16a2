//! Holder side of a verifiable-credential presentation exchange.
//!
//! Given a decoded authorization request from a verifier, the library decides
//! whether the request may be trusted, which locally held credentials satisfy
//! its presentation definition, and what the holder must disclose; the caller
//! performs the network fetches, DID resolution and signing that the pipeline
//! asks for, and feeds the outcomes back in.

pub mod error;
pub mod model;
pub mod matching;
pub mod permission;
pub mod holder;
