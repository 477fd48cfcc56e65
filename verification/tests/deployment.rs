use kube_nimble::common::string_map::StringMap;
use kube_nimble::crds::deploymentspec::{
    ContainerSpec, DeploySpec, EnvFromSpec, EnvSpec, HTTPGet, ProbeSpec, ResourceSpec, TCPSocket,
};
use kube_nimble::crds::nimble::{Identity, Nimble, NimbleSpec};
use kube_nimble::manifests::apps::{Deployment, PodTemplate};
use kube_nimble::manifests::meta::{ObjectMeta, OwnerReference};
use kube_nimble::manifests::pod::{
    Container, EnvFromSource, EnvVar, Probe, ProbeHandler, ResourceRequirements,
};
use kube_nimble::transformers::deployment::{
    containers_from, env_from_sources_of, env_vars_of, transform_container, transform_containers,
    transform_deployment, transform_env_from, transform_envs, transform_probe,
    transform_resources,
};
use std::sync::Arc;

fn text(s: &str) -> String {
    s.to_owned()
}

fn map_of(pairs: &[(&str, &str)]) -> StringMap {
    let mut map = StringMap::new();
    for (key, value) in pairs {
        map.insert(text(key), text(value));
    }
    map
}

fn probe_spec(
    exec_: Option<Vec<String>>,
    http_get: Option<HTTPGet>,
    tcp_socket: Option<TCPSocket>,
) -> ProbeSpec {
    ProbeSpec {
        exec_,
        http_get,
        initial_delay_seconds: Some(5),
        period_seconds: Some(20),
        success_threshold: Some(2),
        tcp_socket,
    }
}

fn plain_container(name: &str, image: &str) -> ContainerSpec {
    ContainerSpec {
        name: text(name),
        image: text(image),
        command: None,
        requests: None,
        limits: None,
        readiness_probe: None,
        liveness_probe: None,
        startup_probe: None,
        env: None,
        env_from: None,
    }
}

fn plain_manifest(name: &str, image: &str) -> Container {
    Container {
        name: text(name),
        image: text(image),
        command: None,
        resources: ResourceRequirements { requests: None, limits: None },
        env: None,
        env_from: None,
        liveness_probe: None,
        readiness_probe: None,
        startup_probe: None,
    }
}

fn web_nimble(name: Option<&str>, uid: Option<&str>) -> Nimble {
    Nimble {
        metadata: Identity {
            name: name.map(text),
            namespace: Some(text("default")),
            uid: uid.map(text),
        },
        spec: NimbleSpec {
            deployment: DeploySpec::new(
                vec![plain_container("web", "nginx:1.25")],
                map_of(&[("app", "web")]),
            ),
            service: None,
            hpa: None,
            ingress: None,
        },
    }
}

#[test]
fn env_from_with_both_references_gives_config_map_then_secret() {
    let specs = vec![EnvFromSpec { config_map_ref: Some(text("cm1")), secret_ref: Some(text("s1")) }];
    assert_eq!(
        transform_env_from(Some(specs)),
        Some(vec![EnvFromSource::ConfigMap(text("cm1")), EnvFromSource::Secret(text("s1"))])
    );
}

#[test]
fn env_from_with_one_reference_gives_one_entry() {
    assert_eq!(
        transform_env_from(Some(vec![EnvFromSpec {
            config_map_ref: Some(text("cm1")),
            secret_ref: None
        }])),
        Some(vec![EnvFromSource::ConfigMap(text("cm1"))])
    );
    assert_eq!(
        transform_env_from(Some(vec![EnvFromSpec {
            config_map_ref: None,
            secret_ref: Some(text("s1"))
        }])),
        Some(vec![EnvFromSource::Secret(text("s1"))])
    );
}

#[test]
fn env_from_without_references_gives_no_entry() {
    assert_eq!(
        transform_env_from(Some(vec![EnvFromSpec { config_map_ref: None, secret_ref: None }])),
        Some(vec![])
    );
    assert_eq!(transform_env_from(Some(vec![])), Some(vec![]));
    assert_eq!(transform_env_from(None), None);
}

#[test]
fn env_from_keeps_the_order_of_its_elements() {
    let specs = vec![
        EnvFromSpec { config_map_ref: None, secret_ref: Some(text("s0")) },
        EnvFromSpec { config_map_ref: None, secret_ref: None },
        EnvFromSpec { config_map_ref: Some(text("cm1")), secret_ref: Some(text("s1")) },
        EnvFromSpec { config_map_ref: Some(text("cm2")), secret_ref: None },
    ];
    let expected = vec![
        EnvFromSource::Secret(text("s0")),
        EnvFromSource::ConfigMap(text("cm1")),
        EnvFromSource::Secret(text("s1")),
        EnvFromSource::ConfigMap(text("cm2")),
    ];
    assert_eq!(env_from_sources_of(&specs), expected);
    assert_eq!(transform_env_from(Some(specs)), Some(expected));
}

#[test]
fn envs_are_turned_one_for_one() {
    let specs = vec![
        EnvSpec { name: text("MODE"), value: Some(text("prod")) },
        EnvSpec { name: text("EMPTY"), value: None },
        EnvSpec { name: text("BLANK"), value: Some(text("")) },
    ];
    let expected = vec![
        EnvVar { name: text("MODE"), value: Some(text("prod")) },
        EnvVar { name: text("EMPTY"), value: None },
        EnvVar { name: text("BLANK"), value: Some(text("")) },
    ];
    assert_eq!(env_vars_of(&specs), expected);
    assert_eq!(transform_envs(Some(specs)), Some(expected));
    assert_eq!(transform_envs(Some(vec![])), Some(vec![]));
    assert_eq!(transform_envs(None), None);
}

#[test]
fn resources_hold_exactly_what_is_set() {
    let both = ResourceSpec { cpu: Some(text("500m")), memory: Some(text("128Mi")) };
    assert_eq!(
        transform_resources(&Some(both)),
        Some(map_of(&[("cpu", "500m"), ("memory", "128Mi")]))
    );
    let cpu_only = ResourceSpec { cpu: Some(text("2")), memory: None };
    let quantities = transform_resources(&Some(cpu_only)).unwrap();
    assert_eq!(quantities.len(), 1);
    assert_eq!(quantities.get("cpu"), Some(&text("2")));
    assert_eq!(quantities.get("memory"), None);
    let memory_only = ResourceSpec { cpu: None, memory: Some(text("1Gi")) };
    let quantities = transform_resources(&Some(memory_only)).unwrap();
    assert_eq!(quantities.len(), 1);
    assert_eq!(quantities.get("memory"), Some(&text("1Gi")));
    assert_eq!(quantities.get("cpu"), None);
}

#[test]
fn resources_are_absent_where_nothing_is_set() {
    assert_eq!(transform_resources(&Some(ResourceSpec { cpu: None, memory: None })), None);
    assert_eq!(transform_resources(&None), None);
}

#[test]
fn probe_with_exec_only() {
    let spec = probe_spec(Some(vec![text("cat"), text("/tmp/ready")]), None, None);
    assert_eq!(
        transform_probe(&Some(spec)),
        Some(Probe {
            handler: ProbeHandler::Exec { command: vec![text("cat"), text("/tmp/ready")] },
            initial_delay_seconds: Some(5),
            period_seconds: Some(20),
            success_threshold: Some(2),
        })
    );
}

#[test]
fn probe_with_http_get_only() {
    let spec = probe_spec(None, Some(HTTPGet { path: text("/healthz"), port: 8080 }), None);
    assert_eq!(
        transform_probe(&Some(spec)),
        Some(Probe {
            handler: ProbeHandler::HttpGet { path: text("/healthz"), port: 8080 },
            initial_delay_seconds: Some(5),
            period_seconds: Some(20),
            success_threshold: Some(2),
        })
    );
}

#[test]
fn probe_with_tcp_socket_only() {
    let spec = probe_spec(None, None, Some(TCPSocket { port: 5432 }));
    assert_eq!(
        transform_probe(&Some(spec)),
        Some(Probe {
            handler: ProbeHandler::TcpSocket { port: 5432 },
            initial_delay_seconds: Some(5),
            period_seconds: Some(20),
            success_threshold: Some(2),
        })
    );
}

#[test]
fn probe_with_default_timing_keeps_it() {
    let spec = ProbeSpec::new(None, None, Some(TCPSocket { port: 80 }));
    assert_eq!(
        transform_probe(&Some(spec)),
        Some(Probe {
            handler: ProbeHandler::TcpSocket { port: 80 },
            initial_delay_seconds: Some(0),
            period_seconds: Some(10),
            success_threshold: Some(1),
        })
    );
}

#[test]
fn probe_without_handler_is_dropped() {
    assert_eq!(transform_probe(&Some(probe_spec(None, None, None))), None);
    assert_eq!(transform_probe(&None), None);
}

#[test]
fn probe_with_several_handlers_is_dropped() {
    let exec_ = || Some(vec![text("true")]);
    let http = || Some(HTTPGet { path: text("/"), port: 80 });
    let tcp = || Some(TCPSocket { port: 80 });
    assert_eq!(transform_probe(&Some(probe_spec(exec_(), http(), None))), None);
    assert_eq!(transform_probe(&Some(probe_spec(exec_(), None, tcp()))), None);
    assert_eq!(transform_probe(&Some(probe_spec(None, http(), tcp()))), None);
    assert_eq!(transform_probe(&Some(probe_spec(exec_(), http(), tcp()))), None);
}

#[test]
fn probe_with_empty_command_is_kept() {
    let spec = probe_spec(Some(vec![]), None, None);
    assert_eq!(
        transform_probe(&Some(spec)).map(|probe| probe.handler),
        Some(ProbeHandler::Exec { command: vec![] })
    );
}

#[test]
fn container_with_every_part() {
    let spec = ContainerSpec {
        name: text("api"),
        image: text("registry.local/api:2"),
        command: Some(vec![text("/bin/api"), text("--port=8080")]),
        requests: Some(ResourceSpec { cpu: Some(text("250m")), memory: None }),
        limits: Some(ResourceSpec { cpu: None, memory: Some(text("256Mi")) }),
        readiness_probe: Some(probe_spec(
            None,
            Some(HTTPGet { path: text("/ready"), port: 8080 }),
            None,
        )),
        liveness_probe: Some(probe_spec(None, None, Some(TCPSocket { port: 8080 }))),
        startup_probe: Some(probe_spec(Some(vec![text("true")]), None, Some(TCPSocket { port: 1 }))),
        env: Some(vec![EnvSpec { name: text("MODE"), value: Some(text("prod")) }]),
        env_from: Some(vec![EnvFromSpec {
            config_map_ref: Some(text("cm1")),
            secret_ref: Some(text("s1")),
        }]),
    };
    let expected = Container {
        name: text("api"),
        image: text("registry.local/api:2"),
        command: Some(vec![text("/bin/api"), text("--port=8080")]),
        resources: ResourceRequirements {
            requests: Some(map_of(&[("cpu", "250m")])),
            limits: Some(map_of(&[("memory", "256Mi")])),
        },
        env: Some(vec![EnvVar { name: text("MODE"), value: Some(text("prod")) }]),
        env_from: Some(vec![
            EnvFromSource::ConfigMap(text("cm1")),
            EnvFromSource::Secret(text("s1")),
        ]),
        liveness_probe: Some(Probe {
            handler: ProbeHandler::TcpSocket { port: 8080 },
            initial_delay_seconds: Some(5),
            period_seconds: Some(20),
            success_threshold: Some(2),
        }),
        readiness_probe: Some(Probe {
            handler: ProbeHandler::HttpGet { path: text("/ready"), port: 8080 },
            initial_delay_seconds: Some(5),
            period_seconds: Some(20),
            success_threshold: Some(2),
        }),
        startup_probe: None,
    };
    assert_eq!(transform_container(&spec), expected);
}

#[test]
fn containers_keep_count_and_order() {
    let specs = vec![
        plain_container("web", "nginx:1.25"),
        plain_container("sidecar", "envoy:1.30"),
        plain_container("web", "nginx:1.25"),
    ];
    let expected = vec![
        plain_manifest("web", "nginx:1.25"),
        plain_manifest("sidecar", "envoy:1.30"),
        plain_manifest("web", "nginx:1.25"),
    ];
    assert_eq!(containers_from(&specs), expected);
    assert_eq!(transform_containers(specs), expected);
    assert_eq!(transform_containers(vec![]), vec![]);
}

#[test]
fn containers_come_out_the_same_every_time() {
    let specs = vec![plain_container("web", "nginx:1.25"), plain_container("db", "postgres:16")];
    let first = transform_containers(specs.clone());
    let second = transform_containers(specs);
    assert_eq!(first, second);
    assert_eq!(first.len(), 2);
}

#[test]
fn deployment_of_a_plain_object_in_a_dry_run() {
    let nimble = web_nimble(Some("web"), None);
    let deployment = transform_deployment(Arc::new(nimble), true);
    let managed_by = map_of(&[("app.kubernetes.io/managed-by", "kube-nimble")]);
    let labels = map_of(&[("app", "web")]);
    assert_eq!(
        deployment,
        Deployment {
            metadata: ObjectMeta {
                name: Some(text("web")),
                labels: Some(labels.clone()),
                annotations: Some(managed_by.clone()),
                owner_references: None,
            },
            replicas: 1,
            selector: labels.clone(),
            template: PodTemplate {
                metadata: ObjectMeta {
                    name: None,
                    labels: Some(labels),
                    annotations: Some(managed_by),
                    owner_references: None,
                },
                containers: vec![plain_manifest("web", "nginx:1.25")],
            },
        }
    );
}

#[test]
fn deployment_outside_a_dry_run_is_owned_by_the_object() {
    let nimble = web_nimble(Some("web"), Some("1234-abcd"));
    let deployment = transform_deployment(Arc::new(nimble), false);
    assert_eq!(
        deployment.metadata.owner_references,
        Some(vec![OwnerReference {
            api_version: text("ivaltryek.github.com/v1"),
            kind: text("Nimble"),
            name: text("web"),
            uid: text("1234-abcd"),
            controller: Some(true),
            block_owner_deletion: None,
        }])
    );
    assert_eq!(deployment.template.metadata.owner_references, None);
    assert_eq!(deployment.metadata.name, Some(text("web")));
    assert_eq!(deployment.replicas, 1);
}

#[test]
fn deployment_without_a_name_in_a_dry_run_has_none() {
    let mut nimble = web_nimble(None, None);
    nimble.spec.deployment.replicas = 3;
    nimble.spec.deployment.annotations = None;
    let deployment = transform_deployment(Arc::new(nimble), true);
    assert_eq!(deployment.metadata.name, None);
    assert_eq!(deployment.metadata.annotations, None);
    assert_eq!(deployment.template.metadata.annotations, None);
    assert_eq!(deployment.replicas, 3);
}
