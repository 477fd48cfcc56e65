use kube_nimble::common::string_map::StringMap;
use kube_nimble::crds::deploymentspec::{ContainerSpec, DeploySpec};
use kube_nimble::crds::nimble::{Identity, Nimble, NimbleSpec};
use kube_nimble::crds::servicespec::{PortSpec, SvcSpec};
use kube_nimble::manifests::meta::{ObjectMeta, OwnerReference};
use kube_nimble::manifests::service::{Service, ServicePort};
use kube_nimble::transformers::service::{
    has_target_ports, service_ports_from, transform_ports, transform_svc,
};
use std::sync::Arc;

fn text(s: &str) -> String {
    s.to_owned()
}

fn map_of(pairs: &[(&str, &str)]) -> StringMap {
    let mut map = StringMap::new();
    for (key, value) in pairs {
        map.insert(text(key), text(value));
    }
    map
}

fn nimble_with(service: Option<SvcSpec>, uid: Option<&str>) -> Nimble {
    let container = ContainerSpec {
        name: text("web"),
        image: text("nginx:1.25"),
        command: None,
        requests: None,
        limits: None,
        readiness_probe: None,
        liveness_probe: None,
        startup_probe: None,
        env: None,
        env_from: None,
    };
    Nimble {
        metadata: Identity {
            name: Some(text("web")),
            namespace: Some(text("default")),
            uid: uid.map(text),
        },
        spec: NimbleSpec {
            deployment: DeploySpec::new(vec![container], map_of(&[("app", "web")])),
            service,
            hpa: None,
            ingress: None,
        },
    }
}

#[test]
fn ports_are_turned_one_for_one() {
    let specs = vec![
        PortSpec {
            name: Some(text("http")),
            node_port: Some(30080),
            port: 80,
            protocol: Some(text("TCP")),
            target_port: Some(8080),
        },
        PortSpec { name: None, node_port: None, port: 53, protocol: Some(text("UDP")), target_port: Some(53) },
        PortSpec { name: None, node_port: None, port: 443, protocol: None, target_port: Some(8443) },
    ];
    let expected = vec![
        ServicePort {
            name: Some(text("http")),
            node_port: Some(30080),
            port: 80,
            protocol: Some(text("TCP")),
            target_port: 8080,
        },
        ServicePort { name: None, node_port: None, port: 53, protocol: Some(text("UDP")), target_port: 53 },
        ServicePort { name: None, node_port: None, port: 443, protocol: None, target_port: 8443 },
    ];
    assert!(has_target_ports(&Some(specs.clone())));
    assert_eq!(service_ports_from(&Some(specs.clone())), Some(expected.clone()));
    assert_eq!(transform_ports(Some(specs)), Some(expected));
}

#[test]
fn no_ports_give_no_ports() {
    assert_eq!(transform_ports(None), None);
    assert_eq!(transform_ports(Some(vec![])), Some(vec![]));
    assert!(has_target_ports(&None));
    assert!(has_target_ports(&Some(vec![])));
}

#[test]
fn a_port_without_target_is_found() {
    let complete = PortSpec::new(80, 8080);
    let incomplete = PortSpec {
        name: None,
        node_port: None,
        port: 80,
        protocol: Some(text("TCP")),
        target_port: None,
    };
    assert!(has_target_ports(&Some(vec![complete.clone()])));
    assert!(!has_target_ports(&Some(vec![incomplete.clone()])));
    assert!(!has_target_ports(&Some(vec![complete.clone(), incomplete.clone()])));
    assert!(!has_target_ports(&Some(vec![incomplete, complete])));
}

#[test]
fn service_in_a_dry_run_has_no_owner() {
    let spec = SvcSpec {
        annotations: Some(map_of(&[("app.kubernetes.io/managed-by", "kube-nimble")])),
        selector: Some(map_of(&[("app", "web")])),
        type_: Some(text("ClusterIP")),
        ports: Some(vec![PortSpec::new(80, 80)]),
    };
    let service = transform_svc(Arc::new(nimble_with(Some(spec), None)), true);
    assert_eq!(
        service,
        Service {
            metadata: ObjectMeta {
                name: Some(text("web")),
                labels: None,
                annotations: Some(map_of(&[("app.kubernetes.io/managed-by", "kube-nimble")])),
                owner_references: None,
            },
            type_: Some(text("ClusterIP")),
            selector: Some(map_of(&[("app", "web")])),
            ports: Some(vec![ServicePort {
                name: None,
                node_port: None,
                port: 80,
                protocol: Some(text("TCP")),
                target_port: 80,
            }]),
        }
    );
}

#[test]
fn service_outside_a_dry_run_is_owned_by_the_object() {
    let spec = SvcSpec { annotations: None, selector: None, type_: None, ports: None };
    let service = transform_svc(Arc::new(nimble_with(Some(spec), Some("uid-1"))), false);
    assert_eq!(
        service,
        Service {
            metadata: ObjectMeta {
                name: Some(text("web")),
                labels: None,
                annotations: None,
                owner_references: Some(vec![OwnerReference {
                    api_version: text("ivaltryek.github.com/v1"),
                    kind: text("Nimble"),
                    name: text("web"),
                    uid: text("uid-1"),
                    controller: Some(true),
                    block_owner_deletion: None,
                }]),
            },
            type_: None,
            selector: None,
            ports: None,
        }
    );
}
