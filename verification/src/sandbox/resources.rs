//! What a sandbox is made of: a namespace, one workload, one service.
//!
//! The values here are descriptions. Whoever talks to the cluster turns each
//! into the cluster's own object and creates it.

use crate::sandbox::naming::{namespace_name, namespace_of, service_name, service_of};
use vstd::prelude::*;
use vstd::string::*;

verus! {

/// The port on which a sandbox serves its browser.
pub const BROWSER_PORT: i32 = 3000;

/// One variable of the container's environment.
#[derive(Clone, Debug, PartialEq, Eq)]
pub struct EnvVar {
    pub name: String,
    pub value: String,
}

/// The mathematical content of an [`EnvVar`].
pub struct EnvVarView {
    pub name: Seq<char>,
    pub value: Seq<char>,
}

impl DeepView for EnvVar {
    type V = EnvVarView;

    open spec fn deep_view(&self) -> EnvVarView {
        EnvVarView { name: self.name@, value: self.value@ }
    }
}

impl View for EnvVar {
    type V = EnvVarView;

    open spec fn view(&self) -> EnvVarView {
        self.deep_view()
    }
}

/// The namespace that isolates a sandbox.
#[derive(Clone, Debug, PartialEq, Eq)]
pub struct NamespaceSpec {
    pub name: String,
}

/// The mathematical content of a [`NamespaceSpec`].
pub struct NamespaceSpecView {
    pub name: Seq<char>,
}

impl DeepView for NamespaceSpec {
    type V = NamespaceSpecView;

    open spec fn deep_view(&self) -> NamespaceSpecView {
        NamespaceSpecView { name: self.name@ }
    }
}

impl View for NamespaceSpec {
    type V = NamespaceSpecView;

    open spec fn view(&self) -> NamespaceSpecView {
        self.deep_view()
    }
}

/// The workload that runs the browser: one container, one port, one
/// memory-backed volume.
#[derive(Clone, Debug, PartialEq, Eq)]
pub struct WorkloadSpec {
    pub name: String,
    pub namespace: String,
    /// The value of the label `app`, on the workload, its selector and its
    /// pods.
    pub app_label: String,
    pub replicas: i32,
    pub container_name: String,
    pub image: String,
    pub env: Vec<EnvVar>,
    pub container_port: i32,
    pub protocol: String,
    pub seccomp_profile: String,
    pub volume_name: String,
    pub mount_path: String,
    pub volume_medium: String,
    pub volume_size_limit: String,
    pub memory_request: String,
    pub memory_limit: String,
}

/// The mathematical content of a [`WorkloadSpec`].
pub struct WorkloadSpecView {
    pub name: Seq<char>,
    pub namespace: Seq<char>,
    pub app_label: Seq<char>,
    pub replicas: i32,
    pub container_name: Seq<char>,
    pub image: Seq<char>,
    pub env: Seq<EnvVarView>,
    pub container_port: i32,
    pub protocol: Seq<char>,
    pub seccomp_profile: Seq<char>,
    pub volume_name: Seq<char>,
    pub mount_path: Seq<char>,
    pub volume_medium: Seq<char>,
    pub volume_size_limit: Seq<char>,
    pub memory_request: Seq<char>,
    pub memory_limit: Seq<char>,
}

impl DeepView for WorkloadSpec {
    type V = WorkloadSpecView;

    open spec fn deep_view(&self) -> WorkloadSpecView {
        WorkloadSpecView {
            name: self.name@,
            namespace: self.namespace@,
            app_label: self.app_label@,
            replicas: self.replicas,
            container_name: self.container_name@,
            image: self.image@,
            env: self.env.deep_view(),
            container_port: self.container_port,
            protocol: self.protocol@,
            seccomp_profile: self.seccomp_profile@,
            volume_name: self.volume_name@,
            mount_path: self.mount_path@,
            volume_medium: self.volume_medium@,
            volume_size_limit: self.volume_size_limit@,
            memory_request: self.memory_request@,
            memory_limit: self.memory_limit@,
        }
    }
}

impl View for WorkloadSpec {
    type V = WorkloadSpecView;

    open spec fn view(&self) -> WorkloadSpecView {
        self.deep_view()
    }
}

/// The service through which a sandbox is reached from outside.
#[derive(Clone, Debug, PartialEq, Eq)]
pub struct ServiceSpec {
    pub name: String,
    pub namespace: String,
    /// The value of the label `app` of the pods that the service selects.
    pub app_label: String,
    pub port: i32,
    pub target_port: i32,
    pub protocol: String,
    pub service_type: String,
}

/// The mathematical content of a [`ServiceSpec`].
pub struct ServiceSpecView {
    pub name: Seq<char>,
    pub namespace: Seq<char>,
    pub app_label: Seq<char>,
    pub port: i32,
    pub target_port: i32,
    pub protocol: Seq<char>,
    pub service_type: Seq<char>,
}

impl DeepView for ServiceSpec {
    type V = ServiceSpecView;

    open spec fn deep_view(&self) -> ServiceSpecView {
        ServiceSpecView {
            name: self.name@,
            namespace: self.namespace@,
            app_label: self.app_label@,
            port: self.port,
            target_port: self.target_port,
            protocol: self.protocol@,
            service_type: self.service_type@,
        }
    }
}

impl View for ServiceSpec {
    type V = ServiceSpecView;

    open spec fn view(&self) -> ServiceSpecView {
        self.deep_view()
    }
}

/// A resource to create.
#[derive(Clone, Debug, PartialEq, Eq)]
pub enum Resource {
    Namespace(NamespaceSpec),
    Workload(WorkloadSpec),
    Service(ServiceSpec),
}

/// The mathematical content of a [`Resource`].
pub enum ResourceView {
    Namespace(NamespaceSpecView),
    Workload(WorkloadSpecView),
    Service(ServiceSpecView),
}

impl DeepView for Resource {
    type V = ResourceView;

    open spec fn deep_view(&self) -> ResourceView {
        match self {
            Resource::Namespace(spec) => ResourceView::Namespace(spec@),
            Resource::Workload(spec) => ResourceView::Workload(spec@),
            Resource::Service(spec) => ResourceView::Service(spec@),
        }
    }
}

impl View for Resource {
    type V = ResourceView;

    open spec fn view(&self) -> ResourceView {
        self.deep_view()
    }
}

/// The namespace of an owner's sandbox.
pub open spec fn namespace_spec_of(owner: Seq<char>) -> NamespaceSpecView {
    NamespaceSpecView { name: namespace_of(owner) }
}

/// The environment of the browser's container: the user and group it runs
/// as, its time zone, and the page it opens.
pub open spec fn browser_env() -> Seq<EnvVarView> {
    seq![
        EnvVarView { name: "PUID"@, value: "1000"@ },
        EnvVarView { name: "PGID"@, value: "1000"@ },
        EnvVarView { name: "TZ"@, value: "Etc/UTC"@ },
        EnvVarView { name: "CHROME_CLI"@, value: "https://isen-mediterranee.fr/en/"@ },
    ]
}

/// The workload of an owner's sandbox: one replica of the browser image,
/// labelled with the owner, serving TCP port 3000. The browser needs system
/// calls that the default profile blocks, so its seccomp profile is
/// `Unconfined`; it needs more shared memory than a container gets, so a
/// memory-backed volume of at most 1Gi is mounted at `/dev/shm`. It asks for
/// 512Mi of memory and may use 1Gi.
pub open spec fn workload_of(owner: Seq<char>) -> WorkloadSpecView {
    WorkloadSpecView {
        name: namespace_of(owner),
        namespace: namespace_of(owner),
        app_label: owner,
        replicas: 1,
        container_name: "chromium"@,
        image: "dilanek/docker_chromiun:test"@,
        env: browser_env(),
        container_port: BROWSER_PORT,
        protocol: "TCP"@,
        seccomp_profile: "Unconfined"@,
        volume_name: "shm"@,
        mount_path: "/dev/shm"@,
        volume_medium: "Memory"@,
        volume_size_limit: "1Gi"@,
        memory_request: "512Mi"@,
        memory_limit: "1Gi"@,
    }
}

/// The service of an owner's sandbox: a load balancer in the sandbox's
/// namespace that forwards TCP port 3000 to the owner's pods.
pub open spec fn service_spec_of(owner: Seq<char>) -> ServiceSpecView {
    ServiceSpecView {
        name: service_of(owner),
        namespace: namespace_of(owner),
        app_label: owner,
        port: BROWSER_PORT,
        target_port: BROWSER_PORT,
        protocol: "TCP"@,
        service_type: "LoadBalancer"@,
    }
}

fn env_var(name: &str, value: &str) -> (var: EnvVar)
    ensures
        var@ == (EnvVarView { name: name@, value: value@ }),
{
    EnvVar { name: String::from_str(name), value: String::from_str(value) }
}

/// Describes the namespace of an owner's sandbox.
pub fn namespace_for(owner: &str) -> (spec: NamespaceSpec)
    ensures
        spec@ == namespace_spec_of(owner@),
{
    NamespaceSpec { name: namespace_name(owner) }
}

/// Describes the workload of an owner's sandbox.
pub fn workload_for(owner: &str) -> (spec: WorkloadSpec)
    ensures
        spec@ == workload_of(owner@),
{
    let mut env: Vec<EnvVar> = Vec::new();
    env.push(env_var("PUID", "1000"));
    env.push(env_var("PGID", "1000"));
    env.push(env_var("TZ", "Etc/UTC"));
    env.push(env_var("CHROME_CLI", "https://isen-mediterranee.fr/en/"));
    assert(env.deep_view() =~= browser_env());
    WorkloadSpec {
        name: namespace_name(owner),
        namespace: namespace_name(owner),
        app_label: String::from_str(owner),
        replicas: 1,
        container_name: String::from_str("chromium"),
        image: String::from_str("dilanek/docker_chromiun:test"),
        env,
        container_port: BROWSER_PORT,
        protocol: String::from_str("TCP"),
        seccomp_profile: String::from_str("Unconfined"),
        volume_name: String::from_str("shm"),
        mount_path: String::from_str("/dev/shm"),
        volume_medium: String::from_str("Memory"),
        volume_size_limit: String::from_str("1Gi"),
        memory_request: String::from_str("512Mi"),
        memory_limit: String::from_str("1Gi"),
    }
}

/// Describes the service of an owner's sandbox.
pub fn service_for(owner: &str) -> (spec: ServiceSpec)
    ensures
        spec@ == service_spec_of(owner@),
{
    ServiceSpec {
        name: service_name(owner),
        namespace: namespace_name(owner),
        app_label: String::from_str(owner),
        port: BROWSER_PORT,
        target_port: BROWSER_PORT,
        protocol: String::from_str("TCP"),
        service_type: String::from_str("LoadBalancer"),
    }
}

} // verus!
