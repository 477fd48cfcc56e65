//! Ingresses.

use crate::manifests::meta::{ObjectMeta, ObjectMetaView};
use vstd::prelude::*;

verus! {

/// The one path of an ingress rule and the service behind it.
#[derive(Debug, PartialEq, Clone)]
pub struct IngressPath {
    /// The path matched against incoming requests.
    pub path: Option<String>,
    /// How the path is matched.
    pub path_type: String,
    /// Name of the service that receives the traffic.
    pub service_name: String,
    /// Number of the port of that service.
    pub service_port: Option<i32>,
}

/// The mathematical view of `IngressPath`: strings as sequences of characters,
/// lists as sequences, maps as maps.
pub struct IngressPathView {
    pub path: Option<Seq<char>>,
    pub path_type: Seq<char>,
    pub service_name: Seq<char>,
    pub service_port: Option<i32>,
}

impl DeepView for IngressPath {
    type V = IngressPathView;

    open spec fn deep_view(&self) -> IngressPathView {
        IngressPathView {
            path: self.path.deep_view(),
            path_type: self.path_type@,
            service_name: self.service_name@,
            service_port: self.service_port,
        }
    }
}

/// A rule of an ingress: a host and exactly one path.
#[derive(Debug, PartialEq, Clone)]
pub struct IngressRule {
    /// The host the rule applies to.
    pub host: Option<String>,
    /// The path and its backend.
    pub path: IngressPath,
}

/// The mathematical view of `IngressRule`: strings as sequences of characters,
/// lists as sequences, maps as maps.
pub struct IngressRuleView {
    pub host: Option<Seq<char>>,
    pub path: IngressPathView,
}

impl DeepView for IngressRule {
    type V = IngressRuleView;

    open spec fn deep_view(&self) -> IngressRuleView {
        IngressRuleView { host: self.host.deep_view(), path: self.path.deep_view() }
    }
}

/// An ingress.
#[derive(Debug, PartialEq, Clone)]
pub struct Ingress {
    /// Name, annotations and owner of the ingress.
    pub metadata: ObjectMeta,
    /// Name of the ingress class that serves this ingress.
    pub ingress_class_name: Option<String>,
    /// The routing rules.
    pub rules: Option<Vec<IngressRule>>,
}

/// The mathematical view of `Ingress`: strings as sequences of characters,
/// lists as sequences, maps as maps.
pub struct IngressView {
    pub metadata: ObjectMetaView,
    pub ingress_class_name: Option<Seq<char>>,
    pub rules: Option<Seq<IngressRuleView>>,
}

impl DeepView for Ingress {
    type V = IngressView;

    open spec fn deep_view(&self) -> IngressView {
        IngressView {
            metadata: self.metadata.deep_view(),
            ingress_class_name: self.ingress_class_name.deep_view(),
            rules: self.rules.deep_view(),
        }
    }
}

} // verus!
