//! The life of a sandbox: its names, its resources, its deployment, its
//! address, and the listing of the sandboxes that run.

pub mod catalog;
pub mod deploy;
pub mod ingress;
pub mod naming;
pub mod polling;
pub mod resources;
