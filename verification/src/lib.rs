//! Turns fetched zero-knowledge receipts into signed, policy-checked
//! attestations: discovery decoding, verification policy, canonical hashing
//! and signing, submission framing, and the batch state machine.

pub mod codec;
pub mod config;
pub mod error;
pub mod fetch;
pub mod graphql;
pub mod inputbox_client;
pub mod json;
pub mod keys;
pub mod pipeline;
pub mod proof_verifier;
pub mod receipt;
pub mod receipt_signer;
pub mod signer;
pub mod text;
pub mod types;
pub mod verification;
