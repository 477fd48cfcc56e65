//! Containers and what they are made of.

use crate::common::string_map::StringMap;
use vstd::prelude::*;

verus! {

/// An environment variable of a container.
#[derive(Debug, PartialEq, Clone)]
pub struct EnvVar {
    /// Name of the variable.
    pub name: String,
    /// Its value.
    pub value: Option<String>,
}

/// The mathematical view of `EnvVar`: strings as sequences of characters,
/// lists as sequences, maps as maps.
pub struct EnvVarView {
    pub name: Seq<char>,
    pub value: Option<Seq<char>>,
}

impl DeepView for EnvVar {
    type V = EnvVarView;

    open spec fn deep_view(&self) -> EnvVarView {
        EnvVarView { name: self.name@, value: self.value.deep_view() }
    }
}

/// One source that fills the environment of a container.
#[derive(Debug, PartialEq, Clone)]
pub enum EnvFromSource {
    /// All entries of the config map with this name.
    ConfigMap(String),
    /// All entries of the secret with this name.
    Secret(String),
}

/// The mathematical view of `EnvFromSource`: strings as sequences of characters,
/// lists as sequences, maps as maps.
pub enum EnvFromSourceView {
    ConfigMap(Seq<char>),
    Secret(Seq<char>),
}

impl DeepView for EnvFromSource {
    type V = EnvFromSourceView;

    open spec fn deep_view(&self) -> EnvFromSourceView {
        match self {
            EnvFromSource::ConfigMap(name) => EnvFromSourceView::ConfigMap(name@),
            EnvFromSource::Secret(name) => EnvFromSourceView::Secret(name@),
        }
    }
}

/// What a probe does to find out how a container fares.
#[derive(Debug, PartialEq, Clone)]
pub enum ProbeHandler {
    /// Runs a command inside the container.
    Exec { command: Vec<String> },
    /// Performs an HTTP GET request.
    HttpGet { path: String, port: i32 },
    /// Opens a TCP connection.
    TcpSocket { port: i32 },
}

/// The mathematical view of `ProbeHandler`: strings as sequences of characters,
/// lists as sequences, maps as maps.
pub enum ProbeHandlerView {
    Exec { command: Seq<Seq<char>> },
    HttpGet { path: Seq<char>, port: i32 },
    TcpSocket { port: i32 },
}

impl DeepView for ProbeHandler {
    type V = ProbeHandlerView;

    open spec fn deep_view(&self) -> ProbeHandlerView {
        match self {
            ProbeHandler::Exec { command } => ProbeHandlerView::Exec {
                command: command.deep_view(),
            },
            ProbeHandler::HttpGet { path, port } => ProbeHandlerView::HttpGet {
                path: path@,
                port: *port,
            },
            ProbeHandler::TcpSocket { port } => ProbeHandlerView::TcpSocket { port: *port },
        }
    }
}

/// A probe of a container: one handler and its timing.
#[derive(Debug, PartialEq, Clone)]
pub struct Probe {
    /// What the probe does.
    pub handler: ProbeHandler,
    /// Seconds after the start of the container before the first probe.
    pub initial_delay_seconds: Option<i32>,
    /// Seconds between two probes.
    pub period_seconds: Option<i32>,
    /// Consecutive successes after a failure that make the probe pass.
    pub success_threshold: Option<i32>,
}

/// The mathematical view of `Probe`: strings as sequences of characters,
/// lists as sequences, maps as maps.
pub struct ProbeView {
    pub handler: ProbeHandlerView,
    pub initial_delay_seconds: Option<i32>,
    pub period_seconds: Option<i32>,
    pub success_threshold: Option<i32>,
}

impl DeepView for Probe {
    type V = ProbeView;

    open spec fn deep_view(&self) -> ProbeView {
        ProbeView {
            handler: self.handler.deep_view(),
            initial_delay_seconds: self.initial_delay_seconds,
            period_seconds: self.period_seconds,
            success_threshold: self.success_threshold,
        }
    }
}

/// The compute resources of a container. Each map goes from the name of a
/// resource to its quantity.
#[derive(Debug, PartialEq, Clone)]
pub struct ResourceRequirements {
    /// What the container needs at least.
    pub requests: Option<StringMap>,
    /// What the container may use at most.
    pub limits: Option<StringMap>,
}

/// The mathematical view of `ResourceRequirements`: strings as sequences of characters,
/// lists as sequences, maps as maps.
pub struct ResourceRequirementsView {
    pub requests: Option<Map<Seq<char>, Seq<char>>>,
    pub limits: Option<Map<Seq<char>, Seq<char>>>,
}

impl DeepView for ResourceRequirements {
    type V = ResourceRequirementsView;

    open spec fn deep_view(&self) -> ResourceRequirementsView {
        ResourceRequirementsView {
            requests: self.requests.deep_view(),
            limits: self.limits.deep_view(),
        }
    }
}

/// A container of a pod.
#[derive(Debug, PartialEq, Clone)]
pub struct Container {
    /// Name of the container.
    pub name: String,
    /// Image to run.
    pub image: String,
    /// Command that replaces the entry point of the image.
    pub command: Option<Vec<String>>,
    /// Compute resources of the container.
    pub resources: ResourceRequirements,
    /// Environment variables to set.
    pub env: Option<Vec<EnvVar>>,
    /// Sources that fill the environment.
    pub env_from: Option<Vec<EnvFromSource>>,
    /// Probe that tells whether the container has to be restarted.
    pub liveness_probe: Option<Probe>,
    /// Probe that tells whether the container can serve requests.
    pub readiness_probe: Option<Probe>,
    /// Probe that tells whether the container has started.
    pub startup_probe: Option<Probe>,
}

/// The mathematical view of `Container`: strings as sequences of characters,
/// lists as sequences, maps as maps.
pub struct ContainerView {
    pub name: Seq<char>,
    pub image: Seq<char>,
    pub command: Option<Seq<Seq<char>>>,
    pub resources: ResourceRequirementsView,
    pub env: Option<Seq<EnvVarView>>,
    pub env_from: Option<Seq<EnvFromSourceView>>,
    pub liveness_probe: Option<ProbeView>,
    pub readiness_probe: Option<ProbeView>,
    pub startup_probe: Option<ProbeView>,
}

impl DeepView for Container {
    type V = ContainerView;

    open spec fn deep_view(&self) -> ContainerView {
        ContainerView {
            name: self.name@,
            image: self.image@,
            command: self.command.deep_view(),
            resources: self.resources.deep_view(),
            env: self.env.deep_view(),
            env_from: self.env_from.deep_view(),
            liveness_probe: self.liveness_probe.deep_view(),
            readiness_probe: self.readiness_probe.deep_view(),
            startup_probe: self.startup_probe.deep_view(),
        }
    }
}

} // verus!
