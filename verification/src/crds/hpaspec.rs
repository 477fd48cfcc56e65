//! Autoscaling of the workload.

use crate::common::string_map::StringMap;
use crate::crds::deploymentspec::{default_annotations, managed_by_annotations};
use vstd::prelude::*;

verus! {

/// The annotations of an autoscaler whose description gives none.
pub fn default_hpa_annotations() -> (annotations: Option<StringMap>)
    ensures
        annotations.deep_view() == Some(managed_by_annotations()),
{
    default_annotations()
}

/// The resource metric that drives the autoscaler.
#[derive(Debug, PartialEq, Clone)]
pub struct ResourceMetricSpec {
    /// Name of the resource, such as `cpu` or `memory`.
    pub name: String,
    /// Kind of target: `Utilization`, `Value` or `AverageValue`.
    pub type_: String,
    /// Target average over all pods, in percent of what the pods request.
    pub average_utilization: Option<i32>,
}

/// The mathematical view of `ResourceMetricSpec`: strings as sequences of characters,
/// lists as sequences, maps as maps.
pub struct ResourceMetricSpecView {
    pub name: Seq<char>,
    pub type_: Seq<char>,
    pub average_utilization: Option<i32>,
}

impl DeepView for ResourceMetricSpec {
    type V = ResourceMetricSpecView;

    open spec fn deep_view(&self) -> ResourceMetricSpecView {
        ResourceMetricSpecView {
            name: self.name@,
            type_: self.type_@,
            average_utilization: self.average_utilization,
        }
    }
}

/// The autoscaler that a Nimble object asks for.
#[derive(Debug, PartialEq, Clone)]
pub struct HPASpec {
    /// Annotations of the autoscaler.
    pub annotations: Option<StringMap>,
    /// Upper limit for the number of replicas.
    pub max: i32,
    /// Lower limit for the number of replicas.
    pub min: Option<i32>,
    /// The resource metric to scale on.
    pub resource_policy: Option<ResourceMetricSpec>,
}

/// The mathematical view of `HPASpec`: strings as sequences of characters,
/// lists as sequences, maps as maps.
pub struct HPASpecView {
    pub annotations: Option<Map<Seq<char>, Seq<char>>>,
    pub max: i32,
    pub min: Option<i32>,
    pub resource_policy: Option<ResourceMetricSpecView>,
}

impl DeepView for HPASpec {
    type V = HPASpecView;

    open spec fn deep_view(&self) -> HPASpecView {
        HPASpecView {
            annotations: self.annotations.deep_view(),
            max: self.max,
            min: self.min,
            resource_policy: self.resource_policy.deep_view(),
        }
    }
}

} // verus!
