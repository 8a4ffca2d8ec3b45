//! The sandboxes that run, read from the cluster's list of namespaces.

use crate::sandbox::naming::{
    is_sandbox, is_sandbox_namespace, lemma_namespace_is_sandbox,
    lemma_system_namespace_is_no_sandbox, namespace_name, namespace_of, owner_of,
    owner_of_namespace,
};
use vstd::prelude::*;
use vstd::string::*;

verus! {

/// The sandbox namespaces among the names that the cluster lists, in the
/// cluster's order. A namespace without a name is passed over.
pub open spec fn sandbox_namespaces(names: Seq<Option<Seq<char>>>) -> Seq<Seq<char>>
    decreases names.len(),
{
    if names.len() == 0 {
        Seq::empty()
    } else {
        let before = sandbox_namespaces(names.drop_last());
        match names.last() {
            Some(name) => if is_sandbox_namespace(name) {
                before.push(name)
            } else {
                before
            },
            None => before,
        }
    }
}

/// Picks the sandbox namespaces out of the names that the cluster lists.
pub fn list_deployments(names: &Vec<Option<String>>) -> (sandboxes: Vec<String>)
    ensures
        sandboxes.deep_view() == sandbox_namespaces(names.deep_view()),
{
    let mut sandboxes: Vec<String> = Vec::new();
    let ghost all = names.deep_view();
    let mut i: usize = 0;
    assert(sandboxes.deep_view() =~= sandbox_namespaces(all.take(0)));
    while i < names.len()
        invariant
            i <= names.len(),
            all == names.deep_view(),
            sandboxes.deep_view() == sandbox_namespaces(all.take(i as int)),
        decreases names.len() - i,
    {
        proof {
            assert(all.take(i + 1).drop_last() =~= all.take(i as int));
            assert(all.take(i + 1).last() == names[i as int].deep_view());
        }
        let ghost before = sandboxes.deep_view();
        match &names[i] {
            Some(name) => {
                if is_sandbox(name.as_str()) {
                    sandboxes.push(name.clone());
                    assert(sandboxes.deep_view() =~= before.push(name@));
                }
            },
            None => {},
        }
        i = i + 1;
    }
    assert(all.take(i as int) =~= all);
    sandboxes
}

/// A name is listed exactly when the cluster has a namespace of that name
/// and the name is a sandbox's.
pub proof fn lemma_listed_exactly(names: Seq<Option<Seq<char>>>, name: Seq<char>)
    ensures
        sandbox_namespaces(names).contains(name) <==> names.contains(Some(name))
            && is_sandbox_namespace(name),
    decreases names.len(),
{
    let listed = sandbox_namespaces(names);
    if names.len() > 0 {
        let front = names.drop_last();
        let before = sandbox_namespaces(front);
        lemma_listed_exactly(front, name);
        if names.contains(Some(name)) {
            let i = choose|i: int| 0 <= i < names.len() && names[i] == Some(name);
            if i < names.len() - 1 {
                assert(front[i] == Some(name));
            }
        }
        if front.contains(Some(name)) {
            let i = choose|i: int| 0 <= i < front.len() && front[i] == Some(name);
            assert(names[i] == Some(name));
        }
        if listed.contains(name) {
            let i = choose|i: int| 0 <= i < listed.len() && listed[i] == name;
            if i < before.len() {
                assert(before[i] == name);
            } else {
                assert(names[names.len() - 1] == Some(name));
            }
        }
        if before.contains(name) {
            let i = choose|i: int| 0 <= i < before.len() && before[i] == name;
            assert(listed[i] == name);
        }
        if names.last() == Some(name) && is_sandbox_namespace(name) {
            assert(listed[listed.len() - 1] == name);
        }
    }
}

/// The namespace `kube-browser` is never listed, whatever the cluster holds.
pub proof fn lemma_system_namespace_not_listed(names: Seq<Option<Seq<char>>>)
    ensures
        !sandbox_namespaces(names).contains("kube-browser"@),
{
    lemma_system_namespace_is_no_sandbox();
    lemma_listed_exactly(names, "kube-browser"@);
}

/// While the cluster holds the namespace of an owner's sandbox, the listing
/// holds it too, unless the name begins with `kube-`; once the cluster holds
/// it no more, neither does the listing.
pub proof fn lemma_session_lifecycle(
    deployed: Seq<Option<Seq<char>>>,
    cleaned: Seq<Option<Seq<char>>>,
    owner: Seq<char>,
)
    requires
        deployed.contains(Some(namespace_of(owner))),
        !cleaned.contains(Some(namespace_of(owner))),
        !"kube-"@.is_prefix_of(namespace_of(owner)),
    ensures
        sandbox_namespaces(deployed).contains(namespace_of(owner)),
        !sandbox_namespaces(cleaned).contains(namespace_of(owner)),
{
    lemma_namespace_is_sandbox(owner);
    lemma_listed_exactly(deployed, namespace_of(owner));
    lemma_listed_exactly(cleaned, namespace_of(owner));
}

/// One running sandbox, as a listing shows it.
#[derive(Clone, Debug, PartialEq, Eq)]
pub struct BrowserInfo {
    pub pod_id: String,
    pub username: String,
    pub browser_type: String,
    pub browser_url: Option<String>,
}

/// The mathematical content of a [`BrowserInfo`].
pub struct BrowserInfoView {
    pub pod_id: Seq<char>,
    pub username: Seq<char>,
    pub browser_type: Seq<char>,
    pub browser_url: Option<Seq<char>>,
}

impl DeepView for BrowserInfo {
    type V = BrowserInfoView;

    open spec fn deep_view(&self) -> BrowserInfoView {
        BrowserInfoView {
            pod_id: self.pod_id@,
            username: self.username@,
            browser_type: self.browser_type@,
            browser_url: self.browser_url.deep_view(),
        }
    }
}

impl View for BrowserInfo {
    type V = BrowserInfoView;

    open spec fn view(&self) -> BrowserInfoView {
        self.deep_view()
    }
}

/// The URL of the browser behind an address.
pub open spec fn browser_url_of(address: Seq<char>) -> Seq<char> {
    "http://"@ + address + ":3000/"@
}

/// The path under which an owner's browser is shown.
pub open spec fn access_path_of(owner: Seq<char>) -> Seq<char> {
    "/browser/access-browser/"@ + owner
}

/// The listing's entry for a sandbox namespace and the address found for
/// it, if one was found: the namespace as identity, its owner, and the URL
/// of the address. A sandbox without an address is listed without a URL.
pub open spec fn entry_of(namespace: Seq<char>, address: Option<Seq<char>>) -> BrowserInfoView {
    BrowserInfoView {
        pod_id: namespace,
        username: owner_of(namespace),
        browser_type: "Chrome"@,
        browser_url: match address {
            Some(address) => Some(browser_url_of(address)),
            None => None,
        },
    }
}

/// The listing for the sandboxes found: one entry each, in the same order.
pub open spec fn entries_of(found: Seq<(Seq<char>, Option<Seq<char>>)>) -> Seq<BrowserInfoView> {
    Seq::new(found.len(), |i: int| entry_of(found[i].0, found[i].1))
}

/// Writes the URL of the browser behind an address.
pub fn browser_url(address: &str) -> (url: String)
    ensures
        url@ == browser_url_of(address@),
{
    let mut url = String::from_str("http://");
    url.append(address);
    url.append(":3000/");
    url
}

/// Writes the path under which an owner's browser is shown.
pub fn access_path(owner: &str) -> (path: String)
    ensures
        path@ == access_path_of(owner@),
{
    let mut path = String::from_str("/browser/access-browser/");
    path.append(owner);
    path
}

/// Makes the listing's entry for one sandbox.
pub fn catalog_entry(namespace: &str, address: &Option<String>) -> (entry: BrowserInfo)
    ensures
        entry@ == entry_of(namespace@, address.deep_view()),
{
    BrowserInfo {
        pod_id: String::from_str(namespace),
        username: owner_of_namespace(namespace),
        browser_type: String::from_str("Chrome"),
        browser_url: match address {
            Some(address) => Some(browser_url(address.as_str())),
            None => None,
        },
    }
}

/// Makes the listing for the sandboxes found, each with the address that
/// its lookup gave or with none. No sandbox is left out for want of an
/// address, and none is made up: no sandboxes, no entries.
pub fn list_browsers(found: &Vec<(String, Option<String>)>) -> (entries: Vec<BrowserInfo>)
    ensures
        entries.deep_view() == entries_of(found.deep_view()),
{
    let mut entries: Vec<BrowserInfo> = Vec::new();
    let mut i: usize = 0;
    while i < found.len()
        invariant
            i <= found.len(),
            entries.len() == i,
            forall|j: int|
                0 <= j < i ==> (#[trigger] entries[j])@ == entry_of(
                    found[j].0@,
                    found[j].1.deep_view(),
                ),
        decreases found.len() - i,
    {
        entries.push(catalog_entry(found[i].0.as_str(), &found[i].1));
        i = i + 1;
    }
    assert(entries.deep_view() =~= entries_of(found.deep_view()));
    entries
}

/// A request to start a browser.
#[derive(Clone, Debug, PartialEq, Eq)]
pub struct BrowserRequest {
    pub browser_type: String,
}

/// The mathematical content of a [`BrowserRequest`].
pub struct BrowserRequestView {
    pub browser_type: Seq<char>,
}

impl DeepView for BrowserRequest {
    type V = BrowserRequestView;

    open spec fn deep_view(&self) -> BrowserRequestView {
        BrowserRequestView { browser_type: self.browser_type@ }
    }
}

impl View for BrowserRequest {
    type V = BrowserRequestView;

    open spec fn view(&self) -> BrowserRequestView {
        self.deep_view()
    }
}

/// What is told of a browser that was started and has its address.
#[derive(Clone, Debug, PartialEq, Eq)]
pub struct StartedBrowser {
    pub message: String,
    pub pod_id: String,
    pub browser_type: String,
    pub browser_url: String,
    pub loadbalancer_ip: String,
    pub access_url: String,
}

/// The mathematical content of a [`StartedBrowser`].
pub struct StartedBrowserView {
    pub message: Seq<char>,
    pub pod_id: Seq<char>,
    pub browser_type: Seq<char>,
    pub browser_url: Seq<char>,
    pub loadbalancer_ip: Seq<char>,
    pub access_url: Seq<char>,
}

impl DeepView for StartedBrowser {
    type V = StartedBrowserView;

    open spec fn deep_view(&self) -> StartedBrowserView {
        StartedBrowserView {
            message: self.message@,
            pod_id: self.pod_id@,
            browser_type: self.browser_type@,
            browser_url: self.browser_url@,
            loadbalancer_ip: self.loadbalancer_ip@,
            access_url: self.access_url@,
        }
    }
}

impl View for StartedBrowser {
    type V = StartedBrowserView;

    open spec fn view(&self) -> StartedBrowserView {
        self.deep_view()
    }
}

/// What is told of the browser started for an owner on a request, once the
/// load balancer gave it an address.
pub open spec fn started_of(owner: Seq<char>, request: BrowserRequestView, address: Seq<char>)
    -> StartedBrowserView {
    StartedBrowserView {
        message: "Navigateur lancé avec succès"@,
        pod_id: namespace_of(owner),
        browser_type: request.browser_type,
        browser_url: browser_url_of(address),
        loadbalancer_ip: address,
        access_url: access_path_of(owner),
    }
}

/// Tells of the browser that was started for an owner.
pub fn start_browser(owner: &str, request: &BrowserRequest, address: &str) -> (started:
    StartedBrowser)
    ensures
        started@ == started_of(owner@, request@, address@),
{
    StartedBrowser {
        message: String::from_str("Navigateur lancé avec succès"),
        pod_id: namespace_name(owner),
        browser_type: request.browser_type.clone(),
        browser_url: browser_url(address),
        loadbalancer_ip: String::from_str(address),
        access_url: access_path(owner),
    }
}

} // verus!
