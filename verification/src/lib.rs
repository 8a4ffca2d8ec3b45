//! Per-user browser sandboxes on a container cluster, and the egress rules
//! that confine them.
//!
//! The crate holds the decisions: how resources are named and described, how
//! a deployment and a readiness poll advance, which namespaces are sandboxes,
//! and how a traffic rule becomes a network-policy manifest and back. Talking
//! to the cluster is left to the caller, who performs each action the library
//! asks for and reports the outcome.

pub mod account;
pub mod decimal;
pub mod error;
pub mod policy;
pub mod sandbox;
pub mod text;
