//! Verified core of zksync contract linking and verification helpers.
pub mod link;
pub mod zk_provider;
pub mod artifact_output;
