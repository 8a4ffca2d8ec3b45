//! The address under which a sandbox is reached from outside.
//!
//! The load balancer gives a service its address some time after the
//! service was created. Until then the service's status lacks it, at one
//! level or another; the library treats every such lack alike.

use crate::error::{SandboxError, SandboxErrorView};
use crate::sandbox::naming::{namespace_name, namespace_of, service_name, service_of};
use vstd::prelude::*;
use vstd::string::*;

verus! {

/// One entry of a load balancer's ingress list.
#[derive(Clone, Debug, PartialEq, Eq)]
pub struct IngressEntry {
    pub ip: Option<String>,
}

/// The mathematical content of an [`IngressEntry`].
pub struct IngressEntryView {
    pub ip: Option<Seq<char>>,
}

impl DeepView for IngressEntry {
    type V = IngressEntryView;

    open spec fn deep_view(&self) -> IngressEntryView {
        IngressEntryView { ip: self.ip.deep_view() }
    }
}

impl View for IngressEntry {
    type V = IngressEntryView;

    open spec fn view(&self) -> IngressEntryView {
        self.deep_view()
    }
}

/// What a service's status says of its load balancer.
#[derive(Clone, Debug, PartialEq, Eq)]
pub struct LoadBalancerStatus {
    pub ingress: Option<Vec<IngressEntry>>,
}

/// The mathematical content of a [`LoadBalancerStatus`].
pub struct LoadBalancerStatusView {
    pub ingress: Option<Seq<IngressEntryView>>,
}

impl DeepView for LoadBalancerStatus {
    type V = LoadBalancerStatusView;

    open spec fn deep_view(&self) -> LoadBalancerStatusView {
        LoadBalancerStatusView { ingress: self.ingress.deep_view() }
    }
}

impl View for LoadBalancerStatus {
    type V = LoadBalancerStatusView;

    open spec fn view(&self) -> LoadBalancerStatusView {
        self.deep_view()
    }
}

/// The status of a service, as far as the address needs it.
#[derive(Clone, Debug, PartialEq, Eq)]
pub struct ServiceStatus {
    pub load_balancer: Option<LoadBalancerStatus>,
}

/// The mathematical content of a [`ServiceStatus`].
pub struct ServiceStatusView {
    pub load_balancer: Option<LoadBalancerStatusView>,
}

impl DeepView for ServiceStatus {
    type V = ServiceStatusView;

    open spec fn deep_view(&self) -> ServiceStatusView {
        ServiceStatusView { load_balancer: self.load_balancer.deep_view() }
    }
}

impl View for ServiceStatus {
    type V = ServiceStatusView;

    open spec fn view(&self) -> ServiceStatusView {
        self.deep_view()
    }
}

/// The address of the first ingress entry, if the status, the load
/// balancer's part of it, the ingress list, its first entry and that entry's
/// address are all there.
pub open spec fn first_address(status: Option<ServiceStatusView>) -> Option<Seq<char>> {
    match status {
        Some(status) => match status.load_balancer {
            Some(balancer) => match balancer.ingress {
                Some(entries) => if entries.len() > 0 {
                    entries[0].ip
                } else {
                    None
                },
                None => None,
            },
            None => None,
        },
        None => None,
    }
}

/// What a lookup answers for a status: its first address, or that none was
/// found.
pub open spec fn address_lookup(status: Option<ServiceStatusView>) -> Result<
    Seq<char>,
    SandboxErrorView,
> {
    match first_address(status) {
        Some(address) => Ok(address),
        None => Err(SandboxErrorView::NotFound("No LoadBalancer IP found"@)),
    }
}

/// The view of a lookup's answer.
pub open spec fn lookup_view(answer: Result<String, SandboxError>) -> Result<
    Seq<char>,
    SandboxErrorView,
> {
    match answer {
        Ok(address) => Ok(address@),
        Err(error) => Err(error@),
    }
}

/// Names the service to read for an owner's address: its namespace, then
/// its name.
pub fn ingress_service(owner: &str) -> (service: (String, String))
    ensures
        service.0@ == namespace_of(owner@),
        service.1@ == service_of(owner@),
{
    (namespace_name(owner), service_name(owner))
}

/// Reads the address of a sandbox from the status of its service.
pub fn get_loadbalancer_ip(status: &Option<ServiceStatus>) -> (answer: Result<String, SandboxError>)
    ensures
        lookup_view(answer) == address_lookup(status.deep_view()),
{
    match status {
        Some(status) => match &status.load_balancer {
            Some(balancer) => match &balancer.ingress {
                Some(entries) => {
                    if entries.len() > 0 {
                        match &entries[0].ip {
                            Some(ip) => {
                                return Ok(ip.clone());
                            },
                            None => {},
                        }
                    }
                },
                None => {},
            },
            None => {},
        },
        None => {},
    }
    Err(SandboxError::NotFound(String::from_str("No LoadBalancer IP found")))
}

} // verus!
