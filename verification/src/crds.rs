//! The declarative schema: the Nimble object and the parts it is made of.

pub mod deploymentspec;
pub mod hpaspec;
pub mod ingspec;
pub mod nimble;
pub mod servicespec;
