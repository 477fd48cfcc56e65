//! The offline preview: one object from a file, rendered once.

use crate::common::helper::{lowercase, string_to_bool};
use crate::controllers::reconciler::ResourceKind;
use vstd::prelude::*;

verus! {

/// What the preview is started with.
#[derive(Debug)]
pub struct Args {
    /// Path of the file that holds the object.
    pub resource_path: String,
}

impl Args {
    /// The arguments of a preview of the object in the file at `resource`.
    pub fn new(resource: String) -> (args: Args)
        ensures
            args.resource_path@ == resource@,
    {
        Self { resource_path: resource }
    }
}

/// Whether the process runs dry, given the value of the switch in its
/// environment. A switch that is not set is off.
pub fn dry_run_enabled(setting: Option<String>) -> (on: bool)
    ensures
        on == match setting {
            Some(value) => lowercase(value@) == "true"@,
            None => false,
        },
{
    match setting {
        Some(value) => string_to_bool(value),
        None => false,
    }
}

/// The kinds that a preview renders, in the order in which it does so.
pub open spec fn preview_order() -> Seq<ResourceKind> {
    seq![
        ResourceKind::Deployment,
        ResourceKind::Service,
        ResourceKind::Ingress,
        ResourceKind::HorizontalPodAutoscaler,
    ]
}

/// The kinds that a preview renders, each once, in the order in which it
/// does so.
pub fn preview_kinds() -> (kinds: Vec<ResourceKind>)
    ensures
        kinds@ == preview_order(),
{
    let mut kinds: Vec<ResourceKind> = Vec::new();
    kinds.push(ResourceKind::Deployment);
    kinds.push(ResourceKind::Service);
    kinds.push(ResourceKind::Ingress);
    kinds.push(ResourceKind::HorizontalPodAutoscaler);
    assert(kinds@ =~= preview_order());
    kinds
}

} // verus!
