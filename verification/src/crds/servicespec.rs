//! Exposure of the workload inside the cluster.

use crate::common::string_map::StringMap;
use crate::crds::deploymentspec::{default_annotations, managed_by_annotations};
use vstd::prelude::*;

verus! {

/// The annotations of a service whose description gives none.
pub fn default_svc_annotations() -> (annotations: Option<StringMap>)
    ensures
        annotations.deep_view() == Some(managed_by_annotations()),
{
    default_annotations()
}

/// The protocol of a port whose description gives none: TCP.
pub fn default_protocol() -> (protocol: Option<String>)
    ensures
        protocol.deep_view() == Some("TCP"@),
{
    Some("TCP".to_owned())
}

/// One port of the service.
#[derive(Debug, PartialEq, Clone)]
pub struct PortSpec {
    /// Name of the port within the service.
    pub name: Option<String>,
    /// Port on each node on which the service is exposed.
    pub node_port: Option<i32>,
    /// Port that the service exposes.
    pub port: i32,
    /// IP protocol of the port.
    pub protocol: Option<String>,
    /// Port to reach on the pods. A service can be built only from ports
    /// that name one.
    pub target_port: Option<i32>,
}

/// The mathematical view of `PortSpec`: strings as sequences of characters,
/// lists as sequences, maps as maps.
pub struct PortSpecView {
    pub name: Option<Seq<char>>,
    pub node_port: Option<i32>,
    pub port: i32,
    pub protocol: Option<Seq<char>>,
    pub target_port: Option<i32>,
}

impl DeepView for PortSpec {
    type V = PortSpecView;

    open spec fn deep_view(&self) -> PortSpecView {
        PortSpecView {
            name: self.name.deep_view(),
            node_port: self.node_port,
            port: self.port,
            protocol: self.protocol.deep_view(),
            target_port: self.target_port,
        }
    }
}

impl PortSpec {
    /// A TCP port that forwards `port` to `target_port` on the pods.
    pub fn new(port: i32, target_port: i32) -> (spec: PortSpec)
        ensures
            spec.deep_view() == (PortSpecView {
                name: None,
                node_port: None,
                port,
                protocol: Some("TCP"@),
                target_port: Some(target_port),
            }),
    {
        PortSpec {
            name: None,
            node_port: None,
            port,
            protocol: default_protocol(),
            target_port: Some(target_port),
        }
    }
}

/// The service that a Nimble object asks for.
#[derive(Debug, PartialEq, Clone)]
pub struct SvcSpec {
    /// Annotations of the service.
    pub annotations: Option<StringMap>,
    /// Labels of the pods that receive the traffic.
    pub selector: Option<StringMap>,
    /// How the service is exposed: `ClusterIP`, `NodePort`, `LoadBalancer`
    /// or `ExternalName`.
    pub type_: Option<String>,
    /// The ports of the service.
    pub ports: Option<Vec<PortSpec>>,
}

/// The mathematical view of `SvcSpec`: strings as sequences of characters,
/// lists as sequences, maps as maps.
pub struct SvcSpecView {
    pub annotations: Option<Map<Seq<char>, Seq<char>>>,
    pub selector: Option<Map<Seq<char>, Seq<char>>>,
    pub type_: Option<Seq<char>>,
    pub ports: Option<Seq<PortSpecView>>,
}

impl DeepView for SvcSpec {
    type V = SvcSpecView;

    open spec fn deep_view(&self) -> SvcSpecView {
        SvcSpecView {
            annotations: self.annotations.deep_view(),
            selector: self.selector.deep_view(),
            type_: self.type_.deep_view(),
            ports: self.ports.deep_view(),
        }
    }
}

} // verus!
