//! The workload itself: containers, labels and annotations.

use crate::common::string_map::StringMap;
use vstd::prelude::*;

verus! {

/// The annotation that marks a resource as managed by this controller.
pub open spec fn managed_by_annotations() -> Map<Seq<char>, Seq<char>> {
    Map::<Seq<char>, Seq<char>>::empty().insert(
        "app.kubernetes.io/managed-by"@,
        "kube-nimble"@,
    )
}

/// The annotations of a resource whose description gives none: the single
/// entry that names this controller as the manager.
pub fn default_annotations() -> (annotations: Option<StringMap>)
    ensures
        annotations.deep_view() == Some(managed_by_annotations()),
{
    let mut annotations = StringMap::new();
    annotations.insert("app.kubernetes.io/managed-by".to_owned(), "kube-nimble".to_owned());
    Some(annotations)
}

/// The number of replicas of a deployment whose description gives none.
pub fn default_replicas() -> (replicas: i32)
    ensures
        replicas == 1,
{
    1
}

/// The delay before the first probe where the description gives none.
pub fn default_initial_delay_seconds() -> (seconds: Option<i32>)
    ensures
        seconds == Some(0i32),
{
    Some(0)
}

/// The time between two probes where the description gives none.
pub fn default_period_seconds() -> (seconds: Option<i32>)
    ensures
        seconds == Some(10i32),
{
    Some(10)
}

/// The number of successes that make a probe pass where the description
/// gives none.
pub fn default_success_threshold() -> (threshold: Option<i32>)
    ensures
        threshold == Some(1i32),
{
    Some(1)
}

/// An HTTP request that probes a container.
#[derive(Debug, PartialEq, Clone)]
pub struct HTTPGet {
    /// Path to access on the HTTP server.
    pub path: String,
    /// Number of the port to access on the container.
    pub port: i32,
}

/// The mathematical view of `HTTPGet`: strings as sequences of characters,
/// lists as sequences, maps as maps.
pub struct HTTPGetView {
    pub path: Seq<char>,
    pub port: i32,
}

impl DeepView for HTTPGet {
    type V = HTTPGetView;

    open spec fn deep_view(&self) -> HTTPGetView {
        HTTPGetView { path: self.path@, port: self.port }
    }
}

/// A TCP connection that probes a container.
#[derive(Debug, PartialEq, Clone)]
pub struct TCPSocket {
    /// The port to connect to.
    pub port: i32,
}

/// The mathematical view of `TCPSocket`: strings as sequences of characters,
/// lists as sequences, maps as maps.
pub struct TCPSocketView {
    pub port: i32,
}

impl DeepView for TCPSocket {
    type V = TCPSocketView;

    open spec fn deep_view(&self) -> TCPSocketView {
        TCPSocketView { port: self.port }
    }
}

/// A probe of a container. It is meant to name exactly one of the three
/// handlers `exec_`, `http_get` and `tcp_socket`.
#[derive(Debug, PartialEq, Clone)]
pub struct ProbeSpec {
    /// The command to run inside the container.
    pub exec_: Option<Vec<String>>,
    /// The HTTP request to perform.
    pub http_get: Option<HTTPGet>,
    /// Seconds after the start of the container before the first probe.
    pub initial_delay_seconds: Option<i32>,
    /// Seconds between two probes.
    pub period_seconds: Option<i32>,
    /// Consecutive successes after a failure that make the probe pass.
    pub success_threshold: Option<i32>,
    /// The TCP port to connect to.
    pub tcp_socket: Option<TCPSocket>,
}

/// The mathematical view of `ProbeSpec`: strings as sequences of characters,
/// lists as sequences, maps as maps.
pub struct ProbeSpecView {
    pub exec_: Option<Seq<Seq<char>>>,
    pub http_get: Option<HTTPGetView>,
    pub initial_delay_seconds: Option<i32>,
    pub period_seconds: Option<i32>,
    pub success_threshold: Option<i32>,
    pub tcp_socket: Option<TCPSocketView>,
}

impl DeepView for ProbeSpec {
    type V = ProbeSpecView;

    open spec fn deep_view(&self) -> ProbeSpecView {
        ProbeSpecView {
            exec_: self.exec_.deep_view(),
            http_get: self.http_get.deep_view(),
            initial_delay_seconds: self.initial_delay_seconds,
            period_seconds: self.period_seconds,
            success_threshold: self.success_threshold,
            tcp_socket: self.tcp_socket.deep_view(),
        }
    }
}

impl ProbeSpec {
    /// A probe with the given handlers and the default timing: no initial
    /// delay, a period of ten seconds, one success to pass.
    pub fn new(
        exec_: Option<Vec<String>>,
        http_get: Option<HTTPGet>,
        tcp_socket: Option<TCPSocket>,
    ) -> (probe: ProbeSpec)
        ensures
            probe.deep_view() == (ProbeSpecView {
                exec_: exec_.deep_view(),
                http_get: http_get.deep_view(),
                initial_delay_seconds: Some(0i32),
                period_seconds: Some(10i32),
                success_threshold: Some(1i32),
                tcp_socket: tcp_socket.deep_view(),
            }),
    {
        ProbeSpec {
            exec_,
            http_get,
            initial_delay_seconds: default_initial_delay_seconds(),
            period_seconds: default_period_seconds(),
            success_threshold: default_success_threshold(),
            tcp_socket,
        }
    }
}

/// Amounts of compute resources, as quantity strings.
#[derive(Debug, PartialEq, Clone)]
pub struct ResourceSpec {
    /// The amount of CPU.
    pub cpu: Option<String>,
    /// The amount of memory.
    pub memory: Option<String>,
}

/// The mathematical view of `ResourceSpec`: strings as sequences of characters,
/// lists as sequences, maps as maps.
pub struct ResourceSpecView {
    pub cpu: Option<Seq<char>>,
    pub memory: Option<Seq<char>>,
}

impl DeepView for ResourceSpec {
    type V = ResourceSpecView;

    open spec fn deep_view(&self) -> ResourceSpecView {
        ResourceSpecView { cpu: self.cpu.deep_view(), memory: self.memory.deep_view() }
    }
}

/// An environment variable of a container.
#[derive(Debug, PartialEq, Clone)]
pub struct EnvSpec {
    /// The name of the variable.
    pub name: String,
    /// Its value.
    pub value: Option<String>,
}

/// The mathematical view of `EnvSpec`: strings as sequences of characters,
/// lists as sequences, maps as maps.
pub struct EnvSpecView {
    pub name: Seq<char>,
    pub value: Option<Seq<char>>,
}

impl DeepView for EnvSpec {
    type V = EnvSpecView;

    open spec fn deep_view(&self) -> EnvSpecView {
        EnvSpecView { name: self.name@, value: self.value.deep_view() }
    }
}

/// Sources from which the environment of a container is filled. Both may be
/// given at once.
#[derive(Debug, PartialEq, Clone)]
pub struct EnvFromSpec {
    /// The name of a config map.
    pub config_map_ref: Option<String>,
    /// The name of a secret.
    pub secret_ref: Option<String>,
}

/// The mathematical view of `EnvFromSpec`: strings as sequences of characters,
/// lists as sequences, maps as maps.
pub struct EnvFromSpecView {
    pub config_map_ref: Option<Seq<char>>,
    pub secret_ref: Option<Seq<char>>,
}

impl DeepView for EnvFromSpec {
    type V = EnvFromSpecView;

    open spec fn deep_view(&self) -> EnvFromSpecView {
        EnvFromSpecView {
            config_map_ref: self.config_map_ref.deep_view(),
            secret_ref: self.secret_ref.deep_view(),
        }
    }
}

/// One container of the workload.
#[derive(Debug, PartialEq, Clone)]
pub struct ContainerSpec {
    /// Name of the container.
    pub name: String,
    /// Image to run.
    pub image: String,
    /// Command that replaces the entry point of the image.
    pub command: Option<Vec<String>>,
    /// The least amount of compute resources the container needs.
    pub requests: Option<ResourceSpec>,
    /// The most compute resources the container may use.
    pub limits: Option<ResourceSpec>,
    /// Probe that tells whether the container can serve requests.
    pub readiness_probe: Option<ProbeSpec>,
    /// Probe that tells whether the container has to be restarted.
    pub liveness_probe: Option<ProbeSpec>,
    /// Probe that tells whether the container has started.
    pub startup_probe: Option<ProbeSpec>,
    /// Environment variables to set in the container.
    pub env: Option<Vec<EnvSpec>>,
    /// Sources that fill the environment of the container.
    pub env_from: Option<Vec<EnvFromSpec>>,
}

/// The mathematical view of `ContainerSpec`: strings as sequences of characters,
/// lists as sequences, maps as maps.
pub struct ContainerSpecView {
    pub name: Seq<char>,
    pub image: Seq<char>,
    pub command: Option<Seq<Seq<char>>>,
    pub requests: Option<ResourceSpecView>,
    pub limits: Option<ResourceSpecView>,
    pub readiness_probe: Option<ProbeSpecView>,
    pub liveness_probe: Option<ProbeSpecView>,
    pub startup_probe: Option<ProbeSpecView>,
    pub env: Option<Seq<EnvSpecView>>,
    pub env_from: Option<Seq<EnvFromSpecView>>,
}

impl DeepView for ContainerSpec {
    type V = ContainerSpecView;

    open spec fn deep_view(&self) -> ContainerSpecView {
        ContainerSpecView {
            name: self.name@,
            image: self.image@,
            command: self.command.deep_view(),
            requests: self.requests.deep_view(),
            limits: self.limits.deep_view(),
            readiness_probe: self.readiness_probe.deep_view(),
            liveness_probe: self.liveness_probe.deep_view(),
            startup_probe: self.startup_probe.deep_view(),
            env: self.env.deep_view(),
            env_from: self.env_from.deep_view(),
        }
    }
}

/// The deployment that a Nimble object asks for.
#[derive(Debug, PartialEq, Clone)]
pub struct DeploySpec {
    /// Containers to run in the deployment. At least one is expected.
    pub containers: Vec<ContainerSpec>,
    /// Number of pods to run.
    pub replicas: i32,
    /// Labels of the deployment and of its pods, which also select the pods.
    pub labels: StringMap,
    /// Annotations of the deployment and of its pods.
    pub annotations: Option<StringMap>,
}

/// The mathematical view of `DeploySpec`: strings as sequences of characters,
/// lists as sequences, maps as maps.
pub struct DeploySpecView {
    pub containers: Seq<ContainerSpecView>,
    pub replicas: i32,
    pub labels: Map<Seq<char>, Seq<char>>,
    pub annotations: Option<Map<Seq<char>, Seq<char>>>,
}

impl DeepView for DeploySpec {
    type V = DeploySpecView;

    open spec fn deep_view(&self) -> DeploySpecView {
        DeploySpecView {
            containers: self.containers.deep_view(),
            replicas: self.replicas,
            labels: self.labels@,
            annotations: self.annotations.deep_view(),
        }
    }
}

impl DeploySpec {
    /// A deployment runs at least one container.
    pub open spec fn well_formed(&self) -> bool {
        self.containers.len() > 0
    }

    /// Tells whether the deployment runs at least one container.
    pub fn is_well_formed(&self) -> (valid: bool)
        ensures
            valid == self.well_formed(),
    {
        self.containers.len() > 0
    }

    /// A deployment of the given containers, of which there is at least
    /// one, under the given labels, with what a description may leave out:
    /// one replica, and the annotation that names this controller.
    pub fn new(containers: Vec<ContainerSpec>, labels: StringMap) -> (spec: DeploySpec)
        requires
            containers.len() > 0,
        ensures
            spec.well_formed(),
            spec.deep_view() == (DeploySpecView {
                containers: containers.deep_view(),
                replicas: 1,
                labels: labels@,
                annotations: Some(managed_by_annotations()),
            }),
    {
        DeploySpec {
            containers,
            replicas: default_replicas(),
            labels,
            annotations: default_annotations(),
        }
    }
}

} // verus!
