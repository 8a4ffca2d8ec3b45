//! Egress rules and the network-policy manifests that enforce them.

pub mod compile;
pub mod decompile;
pub mod json;
pub mod layout;
pub mod manifest;
pub mod round_trip;
pub mod rule;
pub mod yaml;
