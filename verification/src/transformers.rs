//! From the parts of a Nimble object to the resources they describe.

pub mod deployment;
pub mod hpa;
pub mod ingress;
pub mod metadata;
pub mod service;
