//! Horizontal pod autoscalers.

use crate::manifests::meta::{ObjectMeta, ObjectMetaView};
use vstd::prelude::*;

verus! {

/// A metric that an autoscaler scales on, with its target.
#[derive(Debug, PartialEq, Clone)]
pub struct MetricSpec {
    /// Kind of the metric source.
    pub type_: String,
    /// Name of the resource that is measured.
    pub name: String,
    /// Kind of target: `Utilization`, `Value` or `AverageValue`.
    pub target_type: String,
    /// Target average over all pods, in percent of what the pods request.
    pub average_utilization: Option<i32>,
}

/// The mathematical view of `MetricSpec`: strings as sequences of characters,
/// lists as sequences, maps as maps.
pub struct MetricSpecView {
    pub type_: Seq<char>,
    pub name: Seq<char>,
    pub target_type: Seq<char>,
    pub average_utilization: Option<i32>,
}

impl DeepView for MetricSpec {
    type V = MetricSpecView;

    open spec fn deep_view(&self) -> MetricSpecView {
        MetricSpecView {
            type_: self.type_@,
            name: self.name@,
            target_type: self.target_type@,
            average_utilization: self.average_utilization,
        }
    }
}

/// The resource that an autoscaler scales.
#[derive(Debug, PartialEq, Clone)]
pub struct ScaleTarget {
    /// API version of the resource.
    pub api_version: String,
    /// Kind of the resource.
    pub kind: String,
    /// Name of the resource.
    pub name: String,
}

/// The mathematical view of `ScaleTarget`: strings as sequences of characters,
/// lists as sequences, maps as maps.
pub struct ScaleTargetView {
    pub api_version: Seq<char>,
    pub kind: Seq<char>,
    pub name: Seq<char>,
}

impl DeepView for ScaleTarget {
    type V = ScaleTargetView;

    open spec fn deep_view(&self) -> ScaleTargetView {
        ScaleTargetView { api_version: self.api_version@, kind: self.kind@, name: self.name@ }
    }
}

/// A horizontal pod autoscaler.
#[derive(Debug, PartialEq, Clone)]
pub struct HorizontalPodAutoscaler {
    /// Name, annotations and owner of the autoscaler.
    pub metadata: ObjectMeta,
    /// Upper limit for the number of replicas.
    pub max_replicas: i32,
    /// Lower limit for the number of replicas.
    pub min_replicas: Option<i32>,
    /// The resource to scale.
    pub scale_target_ref: ScaleTarget,
    /// The metrics to scale on.
    pub metrics: Option<Vec<MetricSpec>>,
}

/// The mathematical view of `HorizontalPodAutoscaler`: strings as sequences of characters,
/// lists as sequences, maps as maps.
pub struct HorizontalPodAutoscalerView {
    pub metadata: ObjectMetaView,
    pub max_replicas: i32,
    pub min_replicas: Option<i32>,
    pub scale_target_ref: ScaleTargetView,
    pub metrics: Option<Seq<MetricSpecView>>,
}

impl DeepView for HorizontalPodAutoscaler {
    type V = HorizontalPodAutoscalerView;

    open spec fn deep_view(&self) -> HorizontalPodAutoscalerView {
        HorizontalPodAutoscalerView {
            metadata: self.metadata.deep_view(),
            max_replicas: self.max_replicas,
            min_replicas: self.min_replicas,
            scale_target_ref: self.scale_target_ref.deep_view(),
            metrics: self.metrics.deep_view(),
        }
    }
}

} // verus!
