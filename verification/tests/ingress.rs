use kube_nimble::common::string_map::StringMap;
use kube_nimble::crds::deploymentspec::{ContainerSpec, DeploySpec};
use kube_nimble::crds::ingspec::{IngSpec, RuleSpec};
use kube_nimble::crds::nimble::{Identity, Nimble, NimbleSpec};
use kube_nimble::manifests::meta::{ObjectMeta, OwnerReference};
use kube_nimble::manifests::networking::{Ingress, IngressPath, IngressRule};
use kube_nimble::transformers::ingress::{ingress_rules_from, transform_ingress, transform_rules};
use std::sync::Arc;

fn text(s: &str) -> String {
    s.to_owned()
}

fn map_of(pairs: &[(&str, &str)]) -> StringMap {
    let mut map = StringMap::new();
    for (key, value) in pairs {
        map.insert(text(key), text(value));
    }
    map
}

fn nimble_with(ingress: Option<IngSpec>, uid: Option<&str>) -> Nimble {
    let container = ContainerSpec {
        name: text("web"),
        image: text("nginx:1.25"),
        command: None,
        requests: None,
        limits: None,
        readiness_probe: None,
        liveness_probe: None,
        startup_probe: None,
        env: None,
        env_from: None,
    };
    Nimble {
        metadata: Identity {
            name: Some(text("web")),
            namespace: Some(text("default")),
            uid: uid.map(text),
        },
        spec: NimbleSpec {
            deployment: DeploySpec::new(vec![container], map_of(&[("app", "web")])),
            service: None,
            hpa: None,
            ingress,
        },
    }
}

#[test]
fn rules_lead_to_the_named_service() {
    let specs = vec![
        RuleSpec {
            host: Some(text("web.example.com")),
            path_type: text("Prefix"),
            path: Some(text("/")),
            port: Some(80),
        },
        RuleSpec { host: None, path_type: text("Exact"), path: None, port: None },
    ];
    let expected = vec![
        IngressRule {
            host: Some(text("web.example.com")),
            path: IngressPath {
                path: Some(text("/")),
                path_type: text("Prefix"),
                service_name: text("web"),
                service_port: Some(80),
            },
        },
        IngressRule {
            host: None,
            path: IngressPath {
                path: None,
                path_type: text("Exact"),
                service_name: text("web"),
                service_port: None,
            },
        },
    ];
    assert_eq!(ingress_rules_from(&Some(specs.clone()), &text("web")), Some(expected.clone()));
    assert_eq!(transform_rules(Some(specs), text("web")), Some(expected));
}

#[test]
fn no_rules_give_no_rules() {
    assert_eq!(transform_rules(None, text("web")), None);
    assert_eq!(transform_rules(Some(vec![]), text("web")), Some(vec![]));
}

#[test]
fn ingress_in_a_dry_run_has_no_owner() {
    let spec = IngSpec {
        annotations: Some(map_of(&[("app.kubernetes.io/managed-by", "kube-nimble")])),
        class: Some(text("nginx")),
        rules: Some(vec![RuleSpec {
            host: Some(text("web.example.com")),
            path_type: text("Prefix"),
            path: Some(text("/app")),
            port: Some(8080),
        }]),
    };
    let ingress = transform_ingress(Arc::new(nimble_with(Some(spec), None)), true);
    assert_eq!(
        ingress,
        Ingress {
            metadata: ObjectMeta {
                name: Some(text("web")),
                labels: None,
                annotations: Some(map_of(&[("app.kubernetes.io/managed-by", "kube-nimble")])),
                owner_references: None,
            },
            ingress_class_name: Some(text("nginx")),
            rules: Some(vec![IngressRule {
                host: Some(text("web.example.com")),
                path: IngressPath {
                    path: Some(text("/app")),
                    path_type: text("Prefix"),
                    service_name: text("web"),
                    service_port: Some(8080),
                },
            }]),
        }
    );
}

#[test]
fn ingress_outside_a_dry_run_is_owned_by_the_object() {
    let spec = IngSpec { annotations: None, class: None, rules: None };
    let ingress = transform_ingress(Arc::new(nimble_with(Some(spec), Some("uid-9"))), false);
    assert_eq!(
        ingress,
        Ingress {
            metadata: ObjectMeta {
                name: Some(text("web")),
                labels: None,
                annotations: None,
                owner_references: Some(vec![OwnerReference {
                    api_version: text("ivaltryek.github.com/v1"),
                    kind: text("Nimble"),
                    name: text("web"),
                    uid: text("uid-9"),
                    controller: Some(true),
                    block_owner_deletion: None,
                }]),
            },
            ingress_class_name: None,
            rules: None,
        }
    );
}
