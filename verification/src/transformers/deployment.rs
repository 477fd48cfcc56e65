//! Containers, and the deployment that runs them.

use crate::common::copies::{
    copy_opt_map, copy_opt_string, copy_opt_strings, copy_strings, lemma_deep_view_push,
    lemma_take_next,
};
use crate::common::string_map::StringMap;
use crate::crds::deploymentspec::{
    ContainerSpec, ContainerSpecView, EnvFromSpec, EnvFromSpecView, EnvSpec, EnvSpecView,
    ProbeSpec, ProbeSpecView, ResourceSpec, ResourceSpecView,
};
use crate::crds::nimble::{Nimble, NimbleView};
use crate::manifests::apps::{Deployment, DeploymentView, PodTemplate, PodTemplateView};
use crate::manifests::meta::{ObjectMeta, ObjectMetaView};
use crate::manifests::pod::{
    Container, ContainerView, EnvFromSource, EnvFromSourceView, EnvVar, EnvVarView, Probe,
    ProbeHandler, ProbeHandlerView, ProbeView, ResourceRequirements, ResourceRequirementsView,
};
use crate::transformers::metadata::{can_own, metadata_of, transform_metadata};
use std::sync::Arc;
use vstd::prelude::*;

verus! {

/// The sources that one `EnvFromSpec` names: its config map, if it names
/// one, and then its secret, if it names one.
pub open spec fn env_from_sources(spec: EnvFromSpecView) -> Seq<EnvFromSourceView> {
    let config_maps = match spec.config_map_ref {
        Some(name) => seq![EnvFromSourceView::ConfigMap(name)],
        None => Seq::empty(),
    };
    let secrets = match spec.secret_ref {
        Some(name) => seq![EnvFromSourceView::Secret(name)],
        None => Seq::empty(),
    };
    config_maps + secrets
}

/// The sources that a list of `EnvFromSpec`s names, in the order of the list.
pub open spec fn env_from_list(specs: Seq<EnvFromSpecView>) -> Seq<EnvFromSourceView>
    decreases specs.len(),
{
    if specs.len() == 0 {
        Seq::empty()
    } else {
        env_from_list(specs.drop_last()) + env_from_sources(specs.last())
    }
}

/// The sources that a list of `EnvFromSpec`s names, built from a borrowed
/// list.
pub fn env_from_sources_of(env_from: &Vec<EnvFromSpec>) -> (sources: Vec<EnvFromSource>)
    ensures
        sources.deep_view() == env_from_list(env_from.deep_view()),
{
    let mut env_from_vars: Vec<EnvFromSource> = Vec::new();
    let ghost specs = env_from.deep_view();
    assert(env_from_vars.deep_view() =~= env_from_list(specs.take(0)));
    let mut i: usize = 0;
    while i < env_from.len()
        invariant
            i <= env_from.len(),
            specs == env_from.deep_view(),
            env_from_vars.deep_view() == env_from_list(specs.take(i as int)),
        decreases env_from.len() - i,
    {
        let var = &env_from[i];
        let ghost before = env_from_vars.deep_view();
        proof {
            lemma_take_next(specs, i as int);
            assert(specs[i as int] == var.deep_view());
        }
        match &var.config_map_ref {
            Some(cm) => {
                let ghost earlier = env_from_vars;
                let source = EnvFromSource::ConfigMap(cm.clone());
                env_from_vars.push(source);
                proof {
                    lemma_deep_view_push(earlier, env_from_vars, source);
                }
            },
            None => {},
        }
        match &var.secret_ref {
            Some(secret) => {
                let ghost earlier = env_from_vars;
                let source = EnvFromSource::Secret(secret.clone());
                env_from_vars.push(source);
                proof {
                    lemma_deep_view_push(earlier, env_from_vars, source);
                }
            },
            None => {},
        }
        assert(env_from_vars.deep_view() =~= before + env_from_sources(var.deep_view()));
        i += 1;
    }
    assert(specs.take(env_from.len() as int) =~= specs);
    env_from_vars
}

/// Expands the environment sources of a container: each element gives a
/// config map entry, a secret entry, both in that order, or nothing.
pub fn transform_env_from(env_from_vec: Option<Vec<EnvFromSpec>>) -> (sources: Option<
    Vec<EnvFromSource>,
>)
    ensures
        sources.deep_view() == match env_from_vec.deep_view() {
            Some(specs) => Some(env_from_list(specs)),
            None => None,
        },
{
    match env_from_vec {
        Some(env_from) => Some(env_from_sources_of(&env_from)),
        None => None,
    }
}

/// The environment variable that an `EnvSpec` describes.
pub open spec fn env_var_of(spec: EnvSpecView) -> EnvVarView {
    EnvVarView { name: spec.name, value: spec.value }
}

/// The environment variables that a list of `EnvSpec`s describes.
pub open spec fn env_vars_list(specs: Seq<EnvSpecView>) -> Seq<EnvVarView> {
    specs.map_values(|spec: EnvSpecView| env_var_of(spec))
}

/// The environment variables that a list of `EnvSpec`s describes, built
/// from a borrowed list.
pub fn env_vars_of(env: &Vec<EnvSpec>) -> (vars: Vec<EnvVar>)
    ensures
        vars.deep_view() == env_vars_list(env.deep_view()),
{
    let mut env_vars: Vec<EnvVar> = Vec::new();
    let mut i: usize = 0;
    while i < env.len()
        invariant
            i <= env.len(),
            env_vars.len() == i,
            forall|j: int|
                0 <= j < i ==> (#[trigger] env_vars[j]).deep_view() == env_var_of(
                    env[j].deep_view(),
                ),
        decreases env.len() - i,
    {
        let var = &env[i];
        env_vars.push(EnvVar { name: var.name.clone(), value: copy_opt_string(&var.value) });
        i += 1;
    }
    assert(env_vars.deep_view() =~= env_vars_list(env.deep_view()));
    env_vars
}

/// Turns the environment variables of a container into their manifest
/// form, one for one and in order.
pub fn transform_envs(env_vec: Option<Vec<EnvSpec>>) -> (vars: Option<Vec<EnvVar>>)
    ensures
        vars.deep_view() == match env_vec.deep_view() {
            Some(specs) => Some(env_vars_list(specs)),
            None => None,
        },
{
    match env_vec {
        Some(env) => Some(env_vars_of(&env)),
        None => None,
    }
}

/// The quantities that a `ResourceSpec` sets, by resource name: `cpu` and
/// `memory`, each only if it is set. Nothing where neither is set, or
/// where there is no `ResourceSpec`.
pub open spec fn resource_quantities(spec: Option<ResourceSpecView>) -> Option<
    Map<Seq<char>, Seq<char>>,
> {
    match spec {
        Some(ResourceSpecView { cpu: Some(cpu), memory: Some(memory) }) => Some(
            Map::<Seq<char>, Seq<char>>::empty().insert("cpu"@, cpu).insert("memory"@, memory),
        ),
        Some(ResourceSpecView { cpu: None, memory: Some(memory) }) => Some(
            Map::<Seq<char>, Seq<char>>::empty().insert("memory"@, memory),
        ),
        Some(ResourceSpecView { cpu: Some(cpu), memory: None }) => Some(
            Map::<Seq<char>, Seq<char>>::empty().insert("cpu"@, cpu),
        ),
        _ => None,
    }
}

/// The quantities of a `ResourceSpec` are there exactly if it sets `cpu` or
/// `memory`, and then they hold precisely what it sets: `cpu` under the key
/// `cpu`, `memory` under the key `memory`, and no other key.
pub proof fn lemma_resource_quantities_hold_what_is_set(spec: ResourceSpecView)
    ensures
        resource_quantities(Some(spec)) is None <==> spec.cpu is None && spec.memory is None,
        resource_quantities(Some(spec)) matches Some(quantities) ==> {
            &&& forall|key: Seq<char>| #[trigger]
                quantities.contains_key(key) <==> (key == "cpu"@ && spec.cpu is Some) || (key
                    == "memory"@ && spec.memory is Some)
            &&& spec.cpu matches Some(cpu) ==> quantities["cpu"@] == cpu
            &&& spec.memory matches Some(memory) ==> quantities["memory"@] == memory
        },
        resource_quantities(None) is None,
{
    reveal_strlit("cpu");
    reveal_strlit("memory");
    assert("cpu"@.len() != "memory"@.len());
}

/// Turns the requests or the limits of a container into a map from
/// resource name to quantity.
pub fn transform_resources(resource_spec: &Option<ResourceSpec>) -> (quantities: Option<StringMap>)
    ensures
        quantities.deep_view() == resource_quantities(resource_spec.deep_view()),
{
    match resource_spec {
        Some(spec) => match (&spec.cpu, &spec.memory) {
            (Some(cpu), Some(memory)) => {
                let mut quantities = StringMap::new();
                quantities.insert("cpu".to_owned(), cpu.clone());
                quantities.insert("memory".to_owned(), memory.clone());
                Some(quantities)
            },
            (None, Some(memory)) => {
                let mut quantities = StringMap::new();
                quantities.insert("memory".to_owned(), memory.clone());
                Some(quantities)
            },
            (Some(cpu), None) => {
                let mut quantities = StringMap::new();
                quantities.insert("cpu".to_owned(), cpu.clone());
                Some(quantities)
            },
            (None, None) => None,
        },
        None => None,
    }
}

/// The number of handlers that a probe names.
pub open spec fn handler_count(spec: ProbeSpecView) -> nat {
    let exec_: nat = if spec.exec_ is Some { 1 } else { 0 };
    let http_get: nat = if spec.http_get is Some { 1 } else { 0 };
    let tcp_socket: nat = if spec.tcp_socket is Some { 1 } else { 0 };
    exec_ + http_get + tcp_socket
}

/// The probe that a `ProbeSpec` describes: the one handler it names, with
/// its timing. Nothing where it names no handler or more than one, or
/// where there is no `ProbeSpec`.
pub open spec fn probe_of(spec: Option<ProbeSpecView>) -> Option<ProbeView> {
    match spec {
        Some(probe) => {
            let handler = match (probe.exec_, probe.http_get, probe.tcp_socket) {
                (Some(command), None, None) => Some(ProbeHandlerView::Exec { command }),
                (None, Some(http_get), None) => Some(
                    ProbeHandlerView::HttpGet { path: http_get.path, port: http_get.port },
                ),
                (None, None, Some(tcp_socket)) => Some(
                    ProbeHandlerView::TcpSocket { port: tcp_socket.port },
                ),
                _ => None,
            };
            match handler {
                Some(handler) => Some(
                    ProbeView {
                        handler,
                        initial_delay_seconds: probe.initial_delay_seconds,
                        period_seconds: probe.period_seconds,
                        success_threshold: probe.success_threshold,
                    },
                ),
                None => None,
            }
        },
        None => None,
    }
}

/// A `ProbeSpec` gives a probe exactly if it names one handler, and the
/// probe then keeps the timing of the `ProbeSpec`. No `ProbeSpec` gives no
/// probe.
pub proof fn lemma_probe_iff_one_handler(spec: ProbeSpecView)
    ensures
        probe_of(Some(spec)) is Some <==> handler_count(spec) == 1,
        probe_of(Some(spec)) matches Some(probe) ==> probe.initial_delay_seconds
            == spec.initial_delay_seconds && probe.period_seconds == spec.period_seconds
            && probe.success_threshold == spec.success_threshold,
        probe_of(None) is None,
{
}

/// Turns a liveness, readiness or startup probe into its manifest form.
/// A probe that names no handler, or more than one, is dropped.
pub fn transform_probe(probe_type: &Option<ProbeSpec>) -> (probe: Option<Probe>)
    ensures
        probe.deep_view() == probe_of(probe_type.deep_view()),
        probe is Some <==> probe_type is Some && handler_count(probe_type->0.deep_view()) == 1,
{
    match probe_type {
        Some(probe) => {
            let handler = match (&probe.exec_, &probe.http_get, &probe.tcp_socket) {
                (Some(cmd), None, None) => Some(ProbeHandler::Exec { command: copy_strings(cmd) }),
                (None, Some(http_get), None) => Some(
                    ProbeHandler::HttpGet { path: http_get.path.clone(), port: http_get.port },
                ),
                (None, None, Some(tcp_sock)) => Some(
                    ProbeHandler::TcpSocket { port: tcp_sock.port },
                ),
                _ => None,
            };
            match handler {
                Some(handler) => Some(
                    Probe {
                        handler,
                        initial_delay_seconds: probe.initial_delay_seconds,
                        period_seconds: probe.period_seconds,
                        success_threshold: probe.success_threshold,
                    },
                ),
                None => None,
            }
        },
        None => None,
    }
}

/// The container that a `ContainerSpec` describes.
pub open spec fn container_of(spec: ContainerSpecView) -> ContainerView {
    ContainerView {
        name: spec.name,
        image: spec.image,
        command: spec.command,
        resources: ResourceRequirementsView {
            requests: resource_quantities(spec.requests),
            limits: resource_quantities(spec.limits),
        },
        env: match spec.env {
            Some(specs) => Some(env_vars_list(specs)),
            None => None,
        },
        env_from: match spec.env_from {
            Some(specs) => Some(env_from_list(specs)),
            None => None,
        },
        liveness_probe: probe_of(spec.liveness_probe),
        readiness_probe: probe_of(spec.readiness_probe),
        startup_probe: probe_of(spec.startup_probe),
    }
}

/// The containers that a list of `ContainerSpec`s describes.
pub open spec fn containers_of(specs: Seq<ContainerSpecView>) -> Seq<ContainerView> {
    specs.map_values(|spec: ContainerSpecView| container_of(spec))
}

/// The containers of a list of `ContainerSpec`s are as many as the
/// `ContainerSpec`s, and each stands where its `ContainerSpec` stands.
pub proof fn lemma_containers_keep_count_and_order(specs: Seq<ContainerSpecView>)
    ensures
        containers_of(specs).len() == specs.len(),
        forall|i: int|
            0 <= i < specs.len() ==> #[trigger] containers_of(specs)[i] == container_of(specs[i]),
{
}

/// Turns one container of a Nimble object into its manifest form.
pub fn transform_container(spec: &ContainerSpec) -> (container: Container)
    ensures
        container.deep_view() == container_of(spec.deep_view()),
{
    Container {
        name: spec.name.clone(),
        image: spec.image.clone(),
        command: copy_opt_strings(&spec.command),
        resources: ResourceRequirements {
            requests: transform_resources(&spec.requests),
            limits: transform_resources(&spec.limits),
        },
        env: match &spec.env {
            Some(env) => Some(env_vars_of(env)),
            None => None,
        },
        env_from: match &spec.env_from {
            Some(env_from) => Some(env_from_sources_of(env_from)),
            None => None,
        },
        liveness_probe: transform_probe(&spec.liveness_probe),
        readiness_probe: transform_probe(&spec.readiness_probe),
        startup_probe: transform_probe(&spec.startup_probe),
    }
}

/// The containers that a list of `ContainerSpec`s describes, built from a
/// borrowed list.
pub fn containers_from(container_spec: &Vec<ContainerSpec>) -> (containers: Vec<Container>)
    ensures
        containers.deep_view() == containers_of(container_spec.deep_view()),
{
    let mut containers: Vec<Container> = Vec::new();
    let mut i: usize = 0;
    while i < container_spec.len()
        invariant
            i <= container_spec.len(),
            containers.len() == i,
            forall|j: int|
                0 <= j < i ==> (#[trigger] containers[j]).deep_view() == container_of(
                    container_spec[j].deep_view(),
                ),
        decreases container_spec.len() - i,
    {
        containers.push(transform_container(&container_spec[i]));
        i += 1;
    }
    assert(containers.deep_view() =~= containers_of(container_spec.deep_view()));
    containers
}

/// Turns the containers of a Nimble object into their manifest form, one
/// for one and in order.
pub fn transform_containers(container_spec: Vec<ContainerSpec>) -> (containers: Vec<Container>)
    ensures
        containers.deep_view() == containers_of(container_spec.deep_view()),
{
    containers_from(&container_spec)
}

/// Whatever `transform_containers` returns for a list of `ContainerSpec`s,
/// it returns for the same list again: two results for lists with the same
/// view have the same view.
pub proof fn lemma_transform_containers_repeats(
    input: Vec<ContainerSpec>,
    again: Vec<ContainerSpec>,
    first: Vec<Container>,
    second: Vec<Container>,
)
    requires
        input.deep_view() == again.deep_view(),
        call_ensures(transform_containers, (input,), first),
        call_ensures(transform_containers, (again,), second),
    ensures
        first.deep_view() == second.deep_view(),
{
}

/// The deployment that a Nimble object describes. Its labels are at once
/// the labels of the deployment, the labels of its pods and the selector
/// that finds them; its annotations go to the deployment and to the pods.
pub open spec fn deployment_of(nimble: NimbleView, is_dry_run: bool) -> DeploymentView {
    let spec = nimble.spec.deployment;
    DeploymentView {
        metadata: metadata_of(nimble.metadata, Some(spec.labels), spec.annotations, is_dry_run),
        replicas: spec.replicas,
        selector: spec.labels,
        template: PodTemplateView {
            metadata: ObjectMetaView {
                name: None,
                labels: Some(spec.labels),
                annotations: spec.annotations,
                owner_references: None,
            },
            containers: containers_of(spec.containers),
        },
    }
}

/// Builds the deployment that `nimble` describes. Outside a dry run the
/// deployment names `nimble` as its owner, so `nimble` must have a name
/// and a uid.
pub fn transform_deployment(nimble: Arc<Nimble>, is_dry_run: bool) -> (deployment: Deployment)
    requires
        !is_dry_run ==> can_own(nimble.metadata.deep_view()),
    ensures
        deployment.deep_view() == deployment_of(nimble.deep_view(), is_dry_run),
{
    let spec = &nimble.spec.deployment;
    let containers = containers_from(&spec.containers);
    Deployment {
        metadata: transform_metadata(
            &nimble,
            Some(spec.labels.clone()),
            copy_opt_map(&spec.annotations),
            is_dry_run,
        ),
        replicas: spec.replicas,
        selector: spec.labels.clone(),
        template: PodTemplate {
            metadata: ObjectMeta {
                name: None,
                labels: Some(spec.labels.clone()),
                annotations: copy_opt_map(&spec.annotations),
                owner_references: None,
            },
            containers,
        },
    }
}

} // verus!
