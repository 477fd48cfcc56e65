//! The cluster resources that a Nimble object is turned into, reduced to
//! the fields that this crate fills.

pub mod apps;
pub mod autoscaling;
pub mod meta;
pub mod networking;
pub mod pod;
pub mod service;
