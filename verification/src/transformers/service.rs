//! The service in front of the workload.

use crate::common::copies::{copy_opt_map, copy_opt_string};
use crate::crds::nimble::{Nimble, NimbleView};
use crate::crds::servicespec::{PortSpec, PortSpecView};
use crate::manifests::service::{Service, ServicePort, ServicePortView, ServiceView};
use crate::transformers::metadata::{can_own, is_owner_known, metadata_of, transform_metadata};
use std::sync::Arc;
use vstd::prelude::*;

verus! {

/// Every port of the list names the port to reach on the pods.
pub open spec fn ports_complete(ports: Option<Seq<PortSpecView>>) -> bool {
    match ports {
        Some(ports) => forall|i: int| 0 <= i < ports.len() ==> (#[trigger] ports[i]).target_port is Some,
        None => true,
    }
}

/// The service port that a `PortSpec` with a target port describes.
pub open spec fn service_port_of(spec: PortSpecView) -> ServicePortView {
    ServicePortView {
        name: spec.name,
        node_port: spec.node_port,
        port: spec.port,
        protocol: spec.protocol,
        target_port: spec.target_port->0,
    }
}

/// The service ports that a list of `PortSpec`s describes.
pub open spec fn service_ports_of(ports: Option<Seq<PortSpecView>>) -> Option<
    Seq<ServicePortView>,
> {
    match ports {
        Some(ports) => Some(ports.map_values(|spec: PortSpecView| service_port_of(spec))),
        None => None,
    }
}

/// Tells whether every port of the list names its target port, which is
/// what `transform_ports` and `transform_svc` ask of their input.
pub fn has_target_ports(ports: &Option<Vec<PortSpec>>) -> (complete: bool)
    ensures
        complete == ports_complete(ports.deep_view()),
{
    match ports {
        Some(list) => {
            let ghost views = list.deep_view();
            assert(ports.deep_view() == Some(views));
            let mut i: usize = 0;
            while i < list.len()
                invariant
                    i <= list.len(),
                    views == list.deep_view(),
                    ports.deep_view() == Some(views),
                    forall|j: int| 0 <= j < i ==> (#[trigger] views[j]).target_port is Some,
                decreases list.len() - i,
            {
                if list[i].target_port.is_none() {
                    assert(views[i as int].target_port is None);
                    return false;
                }
                assert(views[i as int].target_port is Some);
                i += 1;
            }
            true
        },
        None => true,
    }
}

/// The service ports that a borrowed list of `PortSpec`s describes.
pub fn service_ports_from(ports: &Option<Vec<PortSpec>>) -> (service_ports: Option<
    Vec<ServicePort>,
>)
    requires
        ports_complete(ports.deep_view()),
    ensures
        service_ports.deep_view() == service_ports_of(ports.deep_view()),
{
    match ports {
        Some(ports) => {
            let mut result_vec: Vec<ServicePort> = Vec::new();
            let mut i: usize = 0;
            while i < ports.len()
                invariant
                    i <= ports.len(),
                    result_vec.len() == i,
                    ports_complete(Some(ports.deep_view())),
                    forall|j: int|
                        0 <= j < i ==> (#[trigger] result_vec[j]).deep_view() == service_port_of(
                            ports[j].deep_view(),
                        ),
                decreases ports.len() - i,
            {
                let port = &ports[i];
                assert(ports.deep_view()[i as int].target_port is Some);
                result_vec.push(
                    ServicePort {
                        name: copy_opt_string(&port.name),
                        node_port: port.node_port,
                        port: port.port,
                        protocol: copy_opt_string(&port.protocol),
                        target_port: port.target_port.unwrap(),
                    },
                );
                i += 1;
            }
            assert(result_vec.deep_view() =~= ports.deep_view().map_values(
                |spec: PortSpecView| service_port_of(spec),
            ));
            Some(result_vec)
        },
        None => None,
    }
}

/// Turns the ports of a service into their manifest form, one for one and
/// in order. Every port must name its target port.
pub fn transform_ports(ports_vec: Option<Vec<PortSpec>>) -> (service_ports: Option<
    Vec<ServicePort>,
>)
    requires
        ports_complete(ports_vec.deep_view()),
    ensures
        service_ports.deep_view() == service_ports_of(ports_vec.deep_view()),
{
    service_ports_from(&ports_vec)
}

/// The service that a Nimble object with a service part describes.
pub open spec fn service_of(nimble: NimbleView, is_dry_run: bool) -> ServiceView {
    let spec = nimble.spec.service->0;
    ServiceView {
        metadata: metadata_of(nimble.metadata, None, spec.annotations, is_dry_run),
        type_: spec.type_,
        selector: spec.selector,
        ports: service_ports_of(spec.ports),
    }
}

/// What `transform_svc` asks of a Nimble object: a service part whose
/// ports all name their target port and, outside a dry run, a name and a
/// uid, so that the object can own the service.
pub open spec fn service_ready(nimble: NimbleView, is_dry_run: bool) -> bool {
    &&& nimble.spec.service is Some
    &&& ports_complete(nimble.spec.service->0.ports)
    &&& !is_dry_run ==> can_own(nimble.metadata)
}

/// Tells whether `nimble` meets what `transform_svc` asks of it.
pub fn is_service_ready(nimble: &Nimble, is_dry_run: bool) -> (ready: bool)
    ensures
        ready == service_ready(nimble.deep_view(), is_dry_run),
{
    match &nimble.spec.service {
        Some(svc_spec) => has_target_ports(&svc_spec.ports) && (is_dry_run || is_owner_known(
            nimble,
        )),
        None => false,
    }
}

/// Builds the service that `nimble` describes.
pub fn transform_svc(nimble: Arc<Nimble>, is_dry_run: bool) -> (service: Service)
    requires
        service_ready(nimble.deep_view(), is_dry_run),
    ensures
        service.deep_view() == service_of(nimble.deep_view(), is_dry_run),
{
    let svc_spec = nimble.spec.service.as_ref().unwrap();
    Service {
        metadata: transform_metadata(&nimble, None, copy_opt_map(&svc_spec.annotations), is_dry_run),
        type_: copy_opt_string(&svc_spec.type_),
        selector: copy_opt_map(&svc_spec.selector),
        ports: service_ports_from(&svc_spec.ports),
    }
}

} // verus!
