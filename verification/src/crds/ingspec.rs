//! Routing of outside traffic to the workload.

use crate::common::string_map::StringMap;
use crate::crds::deploymentspec::{default_annotations, managed_by_annotations};
use vstd::prelude::*;

verus! {

/// The annotations of an ingress whose description gives none.
pub fn default_ing_annotations() -> (annotations: Option<StringMap>)
    ensures
        annotations.deep_view() == Some(managed_by_annotations()),
{
    default_annotations()
}

/// One routing rule: a host and a single path.
#[derive(Debug, PartialEq, Clone)]
pub struct RuleSpec {
    /// The host the rule applies to.
    pub host: Option<String>,
    /// How the path is matched: `Exact`, `Prefix` or `ImplementationSpecific`.
    pub path_type: String,
    /// The path matched against incoming requests.
    pub path: Option<String>,
    /// The port of the service that receives the traffic.
    pub port: Option<i32>,
}

/// The mathematical view of `RuleSpec`: strings as sequences of characters,
/// lists as sequences, maps as maps.
pub struct RuleSpecView {
    pub host: Option<Seq<char>>,
    pub path_type: Seq<char>,
    pub path: Option<Seq<char>>,
    pub port: Option<i32>,
}

impl DeepView for RuleSpec {
    type V = RuleSpecView;

    open spec fn deep_view(&self) -> RuleSpecView {
        RuleSpecView {
            host: self.host.deep_view(),
            path_type: self.path_type@,
            path: self.path.deep_view(),
            port: self.port,
        }
    }
}

/// The ingress that a Nimble object asks for.
#[derive(Debug, PartialEq, Clone)]
pub struct IngSpec {
    /// Annotations of the ingress.
    pub annotations: Option<StringMap>,
    /// Name of the ingress class that serves this ingress.
    pub class: Option<String>,
    /// The routing rules.
    pub rules: Option<Vec<RuleSpec>>,
}

/// The mathematical view of `IngSpec`: strings as sequences of characters,
/// lists as sequences, maps as maps.
pub struct IngSpecView {
    pub annotations: Option<Map<Seq<char>, Seq<char>>>,
    pub class: Option<Seq<char>>,
    pub rules: Option<Seq<RuleSpecView>>,
}

impl DeepView for IngSpec {
    type V = IngSpecView;

    open spec fn deep_view(&self) -> IngSpecView {
        IngSpecView {
            annotations: self.annotations.deep_view(),
            class: self.class.deep_view(),
            rules: self.rules.deep_view(),
        }
    }
}

} // verus!
