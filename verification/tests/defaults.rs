use kube_nimble::common::string_map::StringMap;
use kube_nimble::crds::deploymentspec::{
    default_annotations, default_initial_delay_seconds, default_period_seconds, default_replicas,
    default_success_threshold, ContainerSpec, DeploySpec, HTTPGet, ProbeSpec,
};
use kube_nimble::crds::hpaspec::default_hpa_annotations;
use kube_nimble::crds::ingspec::default_ing_annotations;
use kube_nimble::crds::servicespec::{default_protocol, default_svc_annotations, PortSpec};

fn managed_by() -> StringMap {
    let mut annotations = StringMap::new();
    annotations.insert("app.kubernetes.io/managed-by".to_owned(), "kube-nimble".to_owned());
    annotations
}

fn web_container() -> ContainerSpec {
    ContainerSpec {
        name: "web".to_owned(),
        image: "nginx:1.25".to_owned(),
        command: None,
        requests: None,
        limits: None,
        readiness_probe: None,
        liveness_probe: None,
        startup_probe: None,
        env: None,
        env_from: None,
    }
}

#[test]
fn default_annotations_name_the_manager() {
    let annotations = default_annotations().unwrap();
    assert_eq!(annotations.len(), 1);
    assert_eq!(annotations.get("app.kubernetes.io/managed-by"), Some(&"kube-nimble".to_owned()));
    assert!(annotations == managed_by());
}

#[test]
fn every_kind_has_the_same_default_annotations() {
    assert_eq!(default_hpa_annotations(), Some(managed_by()));
    assert_eq!(default_ing_annotations(), Some(managed_by()));
    assert_eq!(default_svc_annotations(), Some(managed_by()));
    assert_eq!(default_annotations(), Some(managed_by()));
}

#[test]
fn default_probe_timing() {
    assert_eq!(default_initial_delay_seconds(), Some(0));
    assert_eq!(default_period_seconds(), Some(10));
    assert_eq!(default_success_threshold(), Some(1));
}

#[test]
fn default_protocol_is_tcp() {
    assert_eq!(default_protocol(), Some("TCP".to_owned()));
}

#[test]
fn default_replicas_is_one() {
    assert_eq!(default_replicas(), 1);
}

#[test]
fn deploy_spec_without_replicas_and_annotations_gets_the_defaults() {
    let mut labels = StringMap::new();
    labels.insert("app".to_owned(), "web".to_owned());
    let spec = DeploySpec::new(vec![web_container()], labels.clone());
    assert_eq!(spec.replicas, 1);
    assert_eq!(spec.annotations, Some(managed_by()));
    assert_eq!(spec.labels, labels);
    assert_eq!(spec.containers, vec![web_container()]);
    assert!(spec.is_well_formed());
}

#[test]
fn deploy_spec_without_containers_is_not_well_formed() {
    let spec = DeploySpec {
        containers: vec![],
        replicas: 2,
        labels: StringMap::new(),
        annotations: None,
    };
    assert!(!spec.is_well_formed());
}

#[test]
fn probe_spec_without_timing_gets_the_defaults() {
    let probe = ProbeSpec::new(None, Some(HTTPGet { path: "/healthz".to_owned(), port: 8080 }), None);
    assert_eq!(probe.initial_delay_seconds, Some(0));
    assert_eq!(probe.period_seconds, Some(10));
    assert_eq!(probe.success_threshold, Some(1));
    assert_eq!(probe.http_get, Some(HTTPGet { path: "/healthz".to_owned(), port: 8080 }));
    assert_eq!(probe.exec_, None);
    assert_eq!(probe.tcp_socket, None);
}

#[test]
fn port_spec_without_protocol_gets_tcp() {
    let port = PortSpec::new(80, 8080);
    assert_eq!(
        port,
        PortSpec {
            name: None,
            node_port: None,
            port: 80,
            protocol: Some("TCP".to_owned()),
            target_port: Some(8080),
        }
    );
}
