//! Services.

use crate::common::string_map::StringMap;
use crate::manifests::meta::{ObjectMeta, ObjectMetaView};
use vstd::prelude::*;

verus! {

/// One port of a service.
#[derive(Debug, PartialEq, Clone)]
pub struct ServicePort {
    /// Name of the port within the service.
    pub name: Option<String>,
    /// Port on each node on which the service is exposed.
    pub node_port: Option<i32>,
    /// Port that the service exposes.
    pub port: i32,
    /// IP protocol of the port.
    pub protocol: Option<String>,
    /// Number of the port to reach on the pods.
    pub target_port: i32,
}

/// The mathematical view of `ServicePort`: strings as sequences of characters,
/// lists as sequences, maps as maps.
pub struct ServicePortView {
    pub name: Option<Seq<char>>,
    pub node_port: Option<i32>,
    pub port: i32,
    pub protocol: Option<Seq<char>>,
    pub target_port: i32,
}

impl DeepView for ServicePort {
    type V = ServicePortView;

    open spec fn deep_view(&self) -> ServicePortView {
        ServicePortView {
            name: self.name.deep_view(),
            node_port: self.node_port,
            port: self.port,
            protocol: self.protocol.deep_view(),
            target_port: self.target_port,
        }
    }
}

/// A service.
#[derive(Debug, PartialEq, Clone)]
pub struct Service {
    /// Name, annotations and owner of the service.
    pub metadata: ObjectMeta,
    /// How the service is exposed.
    pub type_: Option<String>,
    /// Labels of the pods that receive the traffic.
    pub selector: Option<StringMap>,
    /// The ports of the service.
    pub ports: Option<Vec<ServicePort>>,
}

/// The mathematical view of `Service`: strings as sequences of characters,
/// lists as sequences, maps as maps.
pub struct ServiceView {
    pub metadata: ObjectMetaView,
    pub type_: Option<Seq<char>>,
    pub selector: Option<Map<Seq<char>, Seq<char>>>,
    pub ports: Option<Seq<ServicePortView>>,
}

impl DeepView for Service {
    type V = ServiceView;

    open spec fn deep_view(&self) -> ServiceView {
        ServiceView {
            metadata: self.metadata.deep_view(),
            type_: self.type_.deep_view(),
            selector: self.selector.deep_view(),
            ports: self.ports.deep_view(),
        }
    }
}

} // verus!
