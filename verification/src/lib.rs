//! Turns a Nimble object, a compact description of a workload, into the
//! cluster resources that run it, and decides for each resource kind what a
//! reconcile pass has to do.

pub mod common;
pub mod controllers;
pub mod crds;
pub mod manifests;
pub mod nmexport;
pub mod transformers;
