//! Deployments.

use crate::common::string_map::StringMap;
use crate::manifests::pod::{Container, ContainerView};
use crate::manifests::meta::{ObjectMeta, ObjectMetaView};
use vstd::prelude::*;

verus! {

/// The pods that a deployment creates.
#[derive(Debug, PartialEq, Clone)]
pub struct PodTemplate {
    /// Labels and annotations of each pod.
    pub metadata: ObjectMeta,
    /// The containers of each pod.
    pub containers: Vec<Container>,
}

/// The mathematical view of `PodTemplate`: strings as sequences of characters,
/// lists as sequences, maps as maps.
pub struct PodTemplateView {
    pub metadata: ObjectMetaView,
    pub containers: Seq<ContainerView>,
}

impl DeepView for PodTemplate {
    type V = PodTemplateView;

    open spec fn deep_view(&self) -> PodTemplateView {
        PodTemplateView {
            metadata: self.metadata.deep_view(),
            containers: self.containers.deep_view(),
        }
    }
}

/// A deployment.
#[derive(Debug, PartialEq, Clone)]
pub struct Deployment {
    /// Name, labels, annotations and owner of the deployment.
    pub metadata: ObjectMeta,
    /// Number of pods to run.
    pub replicas: i32,
    /// The labels by which the deployment finds its pods.
    pub selector: StringMap,
    /// The pods to create.
    pub template: PodTemplate,
}

/// The mathematical view of `Deployment`: strings as sequences of characters,
/// lists as sequences, maps as maps.
pub struct DeploymentView {
    pub metadata: ObjectMetaView,
    pub replicas: i32,
    pub selector: Map<Seq<char>, Seq<char>>,
    pub template: PodTemplateView,
}

impl DeepView for Deployment {
    type V = DeploymentView;

    open spec fn deep_view(&self) -> DeploymentView {
        DeploymentView {
            metadata: self.metadata.deep_view(),
            replicas: self.replicas,
            selector: self.selector@,
            template: self.template.deep_view(),
        }
    }
}

} // verus!
