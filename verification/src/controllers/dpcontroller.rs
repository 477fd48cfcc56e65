//! The reconciler of the deployment.

use crate::controllers::client::ReconcileError;
use crate::controllers::reconciler::{
    applies_for, fails_for_missing, field_manager, has_identity, name_path, namespace_path,
    ApplyRequest, Conclusion, Step,
};
use crate::crds::nimble::{Nimble, NimbleView};
use crate::manifests::apps::Deployment;
use crate::transformers::deployment::{deployment_of, transform_deployment};
use std::sync::Arc;
use vstd::prelude::*;

verus! {

/// What `reconcile` asks of an object: where the deployment is written
/// outside a dry run, the object owns it, for which it needs its uid.
pub open spec fn reconcilable(nimble: NimbleView, is_dry_run: bool) -> bool {
    has_identity(nimble) && !is_dry_run ==> nimble.metadata.uid is Some
}

/// Tells whether `nimble` meets what `reconcile` asks of it.
pub fn can_reconcile(nimble: &Nimble, is_dry_run: bool) -> (possible: bool)
    ensures
        possible == reconcilable(nimble.deep_view(), is_dry_run),
{
    is_dry_run || nimble.metadata.namespace.is_none() || nimble.metadata.name.is_none()
        || nimble.metadata.uid.is_some()
}

/// The first step of a pass over the deployment of `nimble`. An object
/// without a namespace or without a name fails the pass, the namespace
/// being looked at first. Every other object has its deployment written.
/// Outside a dry run the object owns the deployment, for which it needs
/// its uid.
pub fn reconcile(nimble: Arc<Nimble>, is_dry_run: bool) -> (step: Step<Deployment>)
    requires
        reconcilable(nimble.deep_view(), is_dry_run),
    ensures
        nimble.metadata.namespace is None ==> fails_for_missing(step, ".metadata.namespace"@),
        nimble.metadata.namespace is Some && nimble.metadata.name is None ==> fails_for_missing(
            step,
            ".metadata.name"@,
        ),
        nimble.metadata.namespace is Some && nimble.metadata.name is Some ==> applies_for(
            step,
            nimble.deep_view(),
            is_dry_run,
        ) && step->Apply_0.manifest.deep_view() == deployment_of(nimble.deep_view(), is_dry_run),
{
    let namespace = match &nimble.metadata.namespace {
        Some(namespace) => namespace.clone(),
        None => {
            return Step::Done(
                Conclusion::Failed(ReconcileError::MissingObjectKey(namespace_path())),
            );
        },
    };
    let name = match &nimble.metadata.name {
        Some(name) => name.clone(),
        None => {
            return Step::Done(Conclusion::Failed(ReconcileError::MissingObjectKey(name_path())));
        },
    };
    let deployment = transform_deployment(nimble, is_dry_run);
    Step::Apply(
        ApplyRequest {
            namespace,
            name,
            field_manager: field_manager().to_owned(),
            dry_run: is_dry_run,
            manifest: deployment,
        },
    )
}

} // verus!
