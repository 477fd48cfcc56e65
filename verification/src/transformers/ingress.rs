//! The ingress that routes outside traffic to the workload.

use crate::common::copies::{copy_opt_map, copy_opt_string};
use crate::crds::ingspec::{RuleSpec, RuleSpecView};
use crate::crds::nimble::{Nimble, NimbleView};
use crate::manifests::networking::{
    Ingress, IngressPath, IngressPathView, IngressRule, IngressRuleView, IngressView,
};
use crate::transformers::metadata::{can_own, is_owner_known, metadata_of, transform_metadata};
use std::sync::Arc;
use vstd::prelude::*;

verus! {

/// The ingress rule that a `RuleSpec` describes: its host, and its one
/// path, which leads to the given service.
pub open spec fn ingress_rule_of(rule: RuleSpecView, svc_name: Seq<char>) -> IngressRuleView {
    IngressRuleView {
        host: rule.host,
        path: IngressPathView {
            path: rule.path,
            path_type: rule.path_type,
            service_name: svc_name,
            service_port: rule.port,
        },
    }
}

/// The ingress rules that a list of `RuleSpec`s describes.
pub open spec fn ingress_rules_of(rules: Option<Seq<RuleSpecView>>, svc_name: Seq<char>) -> Option<
    Seq<IngressRuleView>,
> {
    match rules {
        Some(rules) => Some(rules.map_values(|rule: RuleSpecView| ingress_rule_of(rule, svc_name))),
        None => None,
    }
}

/// The ingress rules that a borrowed list of `RuleSpec`s describes.
pub fn ingress_rules_from(rules_spec: &Option<Vec<RuleSpec>>, svc_name: &String) -> (rules: Option<
    Vec<IngressRule>,
>)
    ensures
        rules.deep_view() == ingress_rules_of(rules_spec.deep_view(), svc_name@),
{
    match rules_spec {
        Some(rules) => {
            let mut ingress_rule_vec: Vec<IngressRule> = Vec::new();
            let mut i: usize = 0;
            while i < rules.len()
                invariant
                    i <= rules.len(),
                    ingress_rule_vec.len() == i,
                    forall|j: int|
                        0 <= j < i ==> (#[trigger] ingress_rule_vec[j]).deep_view()
                            == ingress_rule_of(rules[j].deep_view(), svc_name@),
                decreases rules.len() - i,
            {
                let rule = &rules[i];
                ingress_rule_vec.push(
                    IngressRule {
                        host: copy_opt_string(&rule.host),
                        path: IngressPath {
                            path: copy_opt_string(&rule.path),
                            path_type: rule.path_type.clone(),
                            service_name: svc_name.clone(),
                            service_port: rule.port,
                        },
                    },
                );
                i += 1;
            }
            assert(ingress_rule_vec.deep_view() =~= rules.deep_view().map_values(
                |rule: RuleSpecView| ingress_rule_of(rule, svc_name@),
            ));
            Some(ingress_rule_vec)
        },
        None => None,
    }
}

/// Turns the rules of an ingress into their manifest form, one for one
/// and in order. Every rule leads to the service named `svc_name`.
pub fn transform_rules(rules_spec: Option<Vec<RuleSpec>>, svc_name: String) -> (rules: Option<
    Vec<IngressRule>,
>)
    ensures
        rules.deep_view() == ingress_rules_of(rules_spec.deep_view(), svc_name@),
{
    ingress_rules_from(&rules_spec, &svc_name)
}

/// The ingress that a named Nimble object with an ingress part describes.
/// Its rules lead to the service that carries the name of the object.
pub open spec fn ingress_of(nimble: NimbleView, is_dry_run: bool) -> IngressView {
    let spec = nimble.spec.ingress->0;
    IngressView {
        metadata: metadata_of(nimble.metadata, None, spec.annotations, is_dry_run),
        ingress_class_name: spec.class,
        rules: ingress_rules_of(spec.rules, nimble.metadata.name->0),
    }
}

/// What `transform_ingress` asks of a Nimble object: an ingress part, a
/// name and, outside a dry run, a uid, so that the object can own the
/// ingress.
pub open spec fn ingress_ready(nimble: NimbleView, is_dry_run: bool) -> bool {
    &&& nimble.spec.ingress is Some
    &&& nimble.metadata.name is Some
    &&& !is_dry_run ==> can_own(nimble.metadata)
}

/// Tells whether `nimble` meets what `transform_ingress` asks of it.
pub fn is_ingress_ready(nimble: &Nimble, is_dry_run: bool) -> (ready: bool)
    ensures
        ready == ingress_ready(nimble.deep_view(), is_dry_run),
{
    nimble.spec.ingress.is_some() && nimble.metadata.name.is_some() && (is_dry_run
        || is_owner_known(nimble))
}

/// Builds the ingress that `nimble` describes.
pub fn transform_ingress(nimble: Arc<Nimble>, is_dry_run: bool) -> (ingress: Ingress)
    requires
        ingress_ready(nimble.deep_view(), is_dry_run),
    ensures
        ingress.deep_view() == ingress_of(nimble.deep_view(), is_dry_run),
{
    let ing_spec = nimble.spec.ingress.as_ref().unwrap();
    Ingress {
        metadata: transform_metadata(&nimble, None, copy_opt_map(&ing_spec.annotations), is_dry_run),
        ingress_class_name: copy_opt_string(&ing_spec.class),
        rules: ingress_rules_from(&ing_spec.rules, nimble.metadata.name.as_ref().unwrap()),
    }
}

} // verus!
