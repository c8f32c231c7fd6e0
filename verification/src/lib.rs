//! Configuration core of a remote-attestation agent.
//!
//! The crate resolves the agent's runtime configuration from environment
//! variables, an INI-style configuration file and built-in defaults, keeps a
//! small persisted identity record tied to the hardware trust anchor, and
//! offers a length-checked symmetric-key combination primitive.

pub mod algorithms;
pub mod config;
pub mod identity;
pub mod json_wrapper;
pub mod keys;
pub mod resolver;
pub mod strutil;
pub mod uuid_resolver;
