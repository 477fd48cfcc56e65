//! The reconciler of the ingress.

use crate::controllers::client::ReconcileError;
use crate::controllers::reconciler::{
    applies_for, fails_for_missing, field_manager, has_identity, name_path, namespace_path,
    ApplyRequest, Conclusion, Step,
};
use crate::crds::nimble::{Nimble, NimbleView};
use crate::manifests::networking::Ingress;
use crate::transformers::ingress::{ingress_of, ingress_ready, is_ingress_ready, transform_ingress};
use std::sync::Arc;
use vstd::prelude::*;

verus! {

/// What `reconcile` asks of an object: where the ingress is written, the
/// object meets what the transformer asks of it.
pub open spec fn reconcilable(nimble: NimbleView, is_dry_run: bool) -> bool {
    nimble.spec.ingress is Some && has_identity(nimble) ==> ingress_ready(nimble, is_dry_run)
}

/// Tells whether `nimble` meets what `reconcile` asks of it.
pub fn can_reconcile(nimble: &Nimble, is_dry_run: bool) -> (possible: bool)
    ensures
        possible == reconcilable(nimble.deep_view(), is_dry_run),
{
    nimble.spec.ingress.is_none() || nimble.metadata.namespace.is_none()
        || nimble.metadata.name.is_none() || is_ingress_ready(nimble, is_dry_run)
}

/// The first step of a pass over the ingress of `nimble`. Where the object
/// asks for no ingress, the pass is over and the presence flag of the kind
/// is cleared. Otherwise an object without a namespace or without a name
/// fails the pass, the namespace being looked at first, and every other
/// object has its ingress written. Outside a dry run the
/// object owns the ingress, for which it needs its uid.
pub fn reconcile(nimble: Arc<Nimble>, is_dry_run: bool) -> (step: Step<Ingress>)
    requires
        reconcilable(nimble.deep_view(), is_dry_run),
    ensures
        nimble.spec.ingress is None ==> step == Step::<Ingress>::Done(Conclusion::NotRequested),
        nimble.spec.ingress is Some && nimble.metadata.namespace is None ==> fails_for_missing(
            step,
            ".metadata.namespace"@,
        ),
        nimble.spec.ingress is Some && nimble.metadata.namespace is Some && nimble.metadata.name
            is None ==> fails_for_missing(step, ".metadata.name"@),
        nimble.spec.ingress is Some && has_identity(nimble.deep_view()) ==> applies_for(
            step,
            nimble.deep_view(),
            is_dry_run,
        ) && step->Apply_0.manifest.deep_view() == ingress_of(nimble.deep_view(), is_dry_run),
{
    if nimble.spec.ingress.is_none() {
        return Step::Done(Conclusion::NotRequested);
    }
    let namespace = match &nimble.metadata.namespace {
        Some(namespace) => namespace.clone(),
        None => {
            return Step::Done(
                Conclusion::Failed(ReconcileError::MissingObjectKey(namespace_path())),
            );
        },
    };
    let name = match &nimble.metadata.name {
        Some(name) => name.clone(),
        None => {
            return Step::Done(Conclusion::Failed(ReconcileError::MissingObjectKey(name_path())));
        },
    };
    let ingress = transform_ingress(nimble, is_dry_run);
    Step::Apply(
        ApplyRequest {
            namespace,
            name,
            field_manager: field_manager().to_owned(),
            dry_run: is_dry_run,
            manifest: ingress,
        },
    )
}

} // verus!
