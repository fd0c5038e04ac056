//! A node of a peer-to-peer AI mesh: identities, signed job envelopes,
//! receipts, capability matching and the decisions a node takes on jobs.

pub mod hexcode;
pub mod error;
pub mod keys;
pub mod canonical;
pub mod receipt;
pub mod envelope;
pub mod text;
pub mod capability;
pub mod config;
pub mod runtime;
pub mod mesh;
