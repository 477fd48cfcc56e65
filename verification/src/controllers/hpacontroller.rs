//! The reconciler of the autoscaler.

use crate::controllers::client::ReconcileError;
use crate::controllers::reconciler::{
    applies_for, fails_for_missing, field_manager, has_identity, name_path, namespace_path,
    ApplyRequest, Conclusion, Step,
};
use crate::crds::nimble::{Nimble, NimbleView};
use crate::manifests::autoscaling::HorizontalPodAutoscaler;
use crate::transformers::hpa::{hpa_of, hpa_ready, is_hpa_ready, transform_hpa};
use std::sync::Arc;
use vstd::prelude::*;

verus! {

/// What `reconcile` asks of an object: where the autoscaler is written, the
/// object meets what the transformer asks of it.
pub open spec fn reconcilable(nimble: NimbleView, is_dry_run: bool) -> bool {
    nimble.spec.hpa is Some && has_identity(nimble) ==> hpa_ready(nimble, is_dry_run)
}

/// Tells whether `nimble` meets what `reconcile` asks of it.
pub fn can_reconcile(nimble: &Nimble, is_dry_run: bool) -> (possible: bool)
    ensures
        possible == reconcilable(nimble.deep_view(), is_dry_run),
{
    nimble.spec.hpa.is_none() || nimble.metadata.namespace.is_none()
        || nimble.metadata.name.is_none() || is_hpa_ready(nimble, is_dry_run)
}

/// The first step of a pass over the autoscaler of `nimble`. Where the object
/// asks for no autoscaler, the pass is over and the presence flag of the kind
/// is cleared. Otherwise an object without a namespace or without a name
/// fails the pass, the namespace being looked at first, and every other
/// object has its autoscaler written. Outside a dry run
/// the object owns the autoscaler, for which it needs its uid.
pub fn reconcile(nimble: Arc<Nimble>, is_dry_run: bool) -> (step: Step<HorizontalPodAutoscaler>)
    requires
        reconcilable(nimble.deep_view(), is_dry_run),
    ensures
        nimble.spec.hpa is None ==> step == Step::<HorizontalPodAutoscaler>::Done(Conclusion::NotRequested),
        nimble.spec.hpa is Some && nimble.metadata.namespace is None ==> fails_for_missing(
            step,
            ".metadata.namespace"@,
        ),
        nimble.spec.hpa is Some && nimble.metadata.namespace is Some && nimble.metadata.name
            is None ==> fails_for_missing(step, ".metadata.name"@),
        nimble.spec.hpa is Some && has_identity(nimble.deep_view()) ==> applies_for(
            step,
            nimble.deep_view(),
            is_dry_run,
        ) && step->Apply_0.manifest.deep_view() == hpa_of(nimble.deep_view(), is_dry_run),
{
    if nimble.spec.hpa.is_none() {
        return Step::Done(Conclusion::NotRequested);
    }
    let namespace = match &nimble.metadata.namespace {
        Some(namespace) => namespace.clone(),
        None => {
            return Step::Done(
                Conclusion::Failed(ReconcileError::MissingObjectKey(namespace_path())),
            );
        },
    };
    let name = match &nimble.metadata.name {
        Some(name) => name.clone(),
        None => {
            return Step::Done(Conclusion::Failed(ReconcileError::MissingObjectKey(name_path())));
        },
    };
    let hpa = transform_hpa(nimble, is_dry_run);
    Step::Apply(
        ApplyRequest {
            namespace,
            name,
            field_manager: field_manager().to_owned(),
            dry_run: is_dry_run,
            manifest: hpa,
        },
    )
}

} // verus!
