//! Verification of deployed on-chain programs against reproducible builds.
//!
//! The crate holds the decision logic of the verifier: how an executable
//! image is reduced to a digest, how the answers of the remote verification
//! service are interpreted, and which step each pipeline takes next. The
//! caller performs the network, container and file-system work and feeds the
//! results back in as plain values.

pub mod digest;
pub mod json;
pub mod job;
pub mod conflict;
pub mod remote;
pub mod request;
pub mod reporter;
pub mod build_plan;
pub mod local;
