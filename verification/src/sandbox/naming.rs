//! The names of a sandbox's resources, all derived from its owner.

use crate::text::{ends_with, starts_with, strip_trailing, trim_trailing};
use vstd::prelude::*;
use vstd::string::*;

verus! {

/// The namespace of an owner's sandbox; its workload has the same name.
pub open spec fn namespace_of(owner: Seq<char>) -> Seq<char> {
    owner + "-browser"@
}

/// The service of an owner's sandbox.
pub open spec fn service_of(owner: Seq<char>) -> Seq<char> {
    owner + "-service"@
}

/// Whether a namespace is a sandbox: its name ends in `-browser` and does
/// not begin with `kube-`, which the cluster keeps for itself.
pub open spec fn is_sandbox_namespace(name: Seq<char>) -> bool {
    "-browser"@.is_suffix_of(name) && !"kube-"@.is_prefix_of(name)
}

/// The owner of a sandbox namespace: the name without its `-browser`
/// endings.
pub open spec fn owner_of(namespace: Seq<char>) -> Seq<char> {
    strip_trailing(namespace, "-browser"@)
}

/// Names the namespace of an owner's sandbox.
pub fn namespace_name(owner: &str) -> (name: String)
    ensures
        name@ == namespace_of(owner@),
{
    let mut name = String::from_str(owner);
    name.append("-browser");
    name
}

/// Names the workload of an owner's sandbox.
pub fn deployment_name(owner: &str) -> (name: String)
    ensures
        name@ == namespace_of(owner@),
{
    namespace_name(owner)
}

/// Names the service of an owner's sandbox.
pub fn service_name(owner: &str) -> (name: String)
    ensures
        name@ == service_of(owner@),
{
    let mut name = String::from_str(owner);
    name.append("-service");
    name
}

/// Tests whether a namespace is a sandbox.
pub fn is_sandbox(name: &str) -> (sandbox: bool)
    ensures
        sandbox == is_sandbox_namespace(name@),
{
    ends_with(name, "-browser") && !starts_with(name, "kube-")
}

/// Reads the owner from the name of a sandbox namespace.
pub fn owner_of_namespace(namespace: &str) -> (owner: String)
    ensures
        owner@ == owner_of(namespace@),
{
    trim_trailing(namespace, "-browser")
}

/// One owner's sandbox. The names of its resources are computed from the
/// owner, never stored; the address is there once the load balancer has
/// given one.
#[derive(Clone, Debug, PartialEq, Eq)]
pub struct SandboxSession {
    pub owner: String,
    pub ingress_address: Option<String>,
}

/// The mathematical content of a [`SandboxSession`].
pub struct SandboxSessionView {
    pub owner: Seq<char>,
    pub ingress_address: Option<Seq<char>>,
}

impl DeepView for SandboxSession {
    type V = SandboxSessionView;

    open spec fn deep_view(&self) -> SandboxSessionView {
        SandboxSessionView {
            owner: self.owner@,
            ingress_address: self.ingress_address.deep_view(),
        }
    }
}

impl View for SandboxSession {
    type V = SandboxSessionView;

    open spec fn view(&self) -> SandboxSessionView {
        self.deep_view()
    }
}

impl SandboxSession {
    /// A session that has no address yet.
    pub fn new(owner: &str) -> (session: SandboxSession)
        ensures
            session@ == (SandboxSessionView { owner: owner@, ingress_address: None }),
    {
        SandboxSession { owner: String::from_str(owner), ingress_address: None }
    }

    /// The namespace of the session.
    pub fn namespace(&self) -> (name: String)
        ensures
            name@ == namespace_of(self@.owner),
    {
        namespace_name(self.owner.as_str())
    }

    /// The workload of the session.
    pub fn deployment_name(&self) -> (name: String)
        ensures
            name@ == namespace_of(self@.owner),
    {
        namespace_name(self.owner.as_str())
    }

    /// The service of the session.
    pub fn service_name(&self) -> (name: String)
        ensures
            name@ == service_of(self@.owner),
    {
        service_name(self.owner.as_str())
    }

    /// Records the address that the load balancer gave.
    pub fn set_ingress_address(&mut self, address: &str)
        ensures
            final(self)@ == (SandboxSessionView {
                owner: old(self)@.owner,
                ingress_address: Some(address@),
            }),
    {
        self.ingress_address = Some(String::from_str(address));
    }
}

/// The namespace of every owner ends in `-browser`, so it is a sandbox
/// exactly when it does not begin with `kube-`.
pub proof fn lemma_namespace_is_sandbox(owner: Seq<char>)
    ensures
        "-browser"@.is_suffix_of(namespace_of(owner)),
        is_sandbox_namespace(namespace_of(owner)) <==> !"kube-"@.is_prefix_of(namespace_of(owner)),
{
    let name = namespace_of(owner);
    assert(name.subrange(name.len() - "-browser"@.len(), name.len() as int) =~= "-browser"@);
}

/// The owner is read back from its namespace, unless the owner's own name
/// ends in `-browser`.
pub proof fn lemma_owner_round_trip(owner: Seq<char>)
    requires
        !"-browser"@.is_suffix_of(owner),
    ensures
        owner_of(namespace_of(owner)) == owner,
{
    let suffix = "-browser"@;
    let name = namespace_of(owner);
    reveal_strlit("-browser");
    lemma_namespace_is_sandbox(owner);
    assert(name.take(name.len() - suffix.len()) =~= owner);
    reveal_with_fuel(strip_trailing, 2);
}

/// The namespace `kube-browser` is no sandbox, whatever its ending.
pub proof fn lemma_system_namespace_is_no_sandbox()
    ensures
        !is_sandbox_namespace("kube-browser"@),
{
    reveal_strlit("kube-browser");
    reveal_strlit("kube-");
    assert("kube-browser"@.subrange(0, 5) =~= "kube-"@);
}

} // verus!
