//! What a reconcile pass does for each kind of resource.

pub mod client;
pub mod dpcontroller;
pub mod hpacontroller;
pub mod ingcontroller;
pub mod reconciler;
pub mod servicecontroller;
