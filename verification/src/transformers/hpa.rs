//! The autoscaler of the workload.

use crate::common::copies::{copy_opt_map, lemma_deep_view_push};
use crate::crds::hpaspec::{HPASpec, HPASpecView, ResourceMetricSpecView};
use crate::crds::nimble::{Nimble, NimbleView};
use crate::manifests::autoscaling::{
    HorizontalPodAutoscaler, HorizontalPodAutoscalerView, MetricSpec, MetricSpecView, ScaleTarget,
    ScaleTargetView,
};
use crate::transformers::metadata::{can_own, is_owner_known, metadata_of, transform_metadata};
use std::sync::Arc;
use vstd::prelude::*;

verus! {

/// The metric that a resource policy describes. Its source is always of
/// the kind `Resource`.
pub open spec fn metric_of(policy: ResourceMetricSpecView) -> MetricSpecView {
    MetricSpecView {
        type_: "Resource"@,
        name: policy.name,
        target_type: policy.type_,
        average_utilization: policy.average_utilization,
    }
}

/// The metrics of an autoscaler: none where there is no autoscaler, an
/// empty list where the autoscaler has no resource policy, and otherwise
/// the one metric that the policy describes.
pub open spec fn metrics_of(hpa_spec: Option<HPASpecView>) -> Option<Seq<MetricSpecView>> {
    match hpa_spec {
        Some(hpa) => match hpa.resource_policy {
            Some(policy) => Some(seq![metric_of(policy)]),
            None => Some(Seq::empty()),
        },
        None => None,
    }
}

/// An autoscaler without a resource policy has an empty list of metrics,
/// which is not the same as none; where there is no autoscaler there are
/// no metrics; and no autoscaler has more than one metric.
pub proof fn lemma_metrics_empty_or_absent(hpa: HPASpecView)
    ensures
        hpa.resource_policy is None ==> metrics_of(Some(hpa)) == Some(
            Seq::<MetricSpecView>::empty(),
        ),
        hpa.resource_policy matches Some(policy) ==> metrics_of(Some(hpa)) == Some(
            seq![metric_of(policy)],
        ),
        metrics_of(Some(hpa)) is Some,
        metrics_of(Some(hpa))->0.len() <= 1,
        metrics_of(None) is None,
{
}

/// The metrics of a borrowed autoscaler description.
pub fn metrics_from(hpa_spec: &Option<HPASpec>) -> (metrics: Option<Vec<MetricSpec>>)
    ensures
        metrics.deep_view() == metrics_of(hpa_spec.deep_view()),
{
    match hpa_spec {
        Some(hpa) => {
            let mut metric_spec_vec: Vec<MetricSpec> = Vec::new();
            assert(metric_spec_vec.deep_view() =~= Seq::empty());
            match &hpa.resource_policy {
                Some(resource_policy) => {
                    let ghost none = metric_spec_vec;
                    let metric = MetricSpec {
                        type_: "Resource".to_owned(),
                        name: resource_policy.name.clone(),
                        target_type: resource_policy.type_.clone(),
                        average_utilization: resource_policy.average_utilization,
                    };
                    metric_spec_vec.push(metric);
                    proof {
                        lemma_deep_view_push(none, metric_spec_vec, metric);
                        assert(metric_spec_vec.deep_view() =~= seq![
                            metric_of(resource_policy.deep_view()),
                        ]);
                    }
                },
                None => {},
            }
            Some(metric_spec_vec)
        },
        None => None,
    }
}

/// Turns the resource policy of an autoscaler into its list of metrics.
pub fn transform_metrics(hpa_spec: Option<HPASpec>) -> (metrics: Option<Vec<MetricSpec>>)
    ensures
        metrics.deep_view() == metrics_of(hpa_spec.deep_view()),
{
    metrics_from(&hpa_spec)
}

/// The autoscaler that a named Nimble object with an autoscaler part
/// describes. It scales the deployment that carries the name of the object.
pub open spec fn hpa_of(nimble: NimbleView, is_dry_run: bool) -> HorizontalPodAutoscalerView {
    let spec = nimble.spec.hpa->0;
    HorizontalPodAutoscalerView {
        metadata: metadata_of(nimble.metadata, None, spec.annotations, is_dry_run),
        max_replicas: spec.max,
        min_replicas: spec.min,
        scale_target_ref: ScaleTargetView {
            api_version: "apps/v1"@,
            kind: "Deployment"@,
            name: nimble.metadata.name->0,
        },
        metrics: metrics_of(nimble.spec.hpa),
    }
}

/// What `transform_hpa` asks of a Nimble object: an autoscaler part, a
/// name and, outside a dry run, a uid, so that the object can own the
/// autoscaler.
pub open spec fn hpa_ready(nimble: NimbleView, is_dry_run: bool) -> bool {
    &&& nimble.spec.hpa is Some
    &&& nimble.metadata.name is Some
    &&& !is_dry_run ==> can_own(nimble.metadata)
}

/// Tells whether `nimble` meets what `transform_hpa` asks of it.
pub fn is_hpa_ready(nimble: &Nimble, is_dry_run: bool) -> (ready: bool)
    ensures
        ready == hpa_ready(nimble.deep_view(), is_dry_run),
{
    nimble.spec.hpa.is_some() && nimble.metadata.name.is_some() && (is_dry_run || is_owner_known(
        nimble,
    ))
}

/// Builds the autoscaler that `nimble` describes.
pub fn transform_hpa(nimble: Arc<Nimble>, is_dry_run: bool) -> (hpa: HorizontalPodAutoscaler)
    requires
        hpa_ready(nimble.deep_view(), is_dry_run),
    ensures
        hpa.deep_view() == hpa_of(nimble.deep_view(), is_dry_run),
{
    let hpa_spec = nimble.spec.hpa.as_ref().unwrap();
    HorizontalPodAutoscaler {
        metadata: transform_metadata(&nimble, None, copy_opt_map(&hpa_spec.annotations), is_dry_run),
        max_replicas: hpa_spec.max,
        min_replicas: hpa_spec.min,
        scale_target_ref: ScaleTarget {
            api_version: "apps/v1".to_owned(),
            kind: "Deployment".to_owned(),
            name: nimble.metadata.name.as_ref().unwrap().clone(),
        },
        metrics: metrics_from(&nimble.spec.hpa),
    }
}

} // verus!
