//! The structured form of a network policy: what the policy engine stores.

use vstd::prelude::*;

verus! {

/// One label of a selector.
#[derive(Clone, Debug, PartialEq, Eq)]
pub struct Label {
    pub key: String,
    pub value: String,
}

/// The mathematical content of a [`Label`].
pub struct LabelView {
    pub key: Seq<char>,
    pub value: Seq<char>,
}

impl DeepView for Label {
    type V = LabelView;

    open spec fn deep_view(&self) -> LabelView {
        LabelView { key: self.key@, value: self.value@ }
    }
}

impl View for Label {
    type V = LabelView;

    open spec fn view(&self) -> LabelView {
        self.deep_view()
    }
}

/// A choice of endpoints by their labels.
#[derive(Clone, Debug, PartialEq, Eq)]
pub struct EndpointSelector {
    pub match_labels: Vec<Label>,
}

/// The mathematical content of an [`EndpointSelector`].
pub struct EndpointSelectorView {
    pub match_labels: Seq<LabelView>,
}

impl DeepView for EndpointSelector {
    type V = EndpointSelectorView;

    open spec fn deep_view(&self) -> EndpointSelectorView {
        EndpointSelectorView { match_labels: self.match_labels.deep_view() }
    }
}

impl View for EndpointSelector {
    type V = EndpointSelectorView;

    open spec fn view(&self) -> EndpointSelectorView {
        self.deep_view()
    }
}

/// One entry of a domain-match list: an exact name, a wildcard pattern, or
/// both.
#[derive(Clone, Debug, PartialEq, Eq)]
pub struct DomainMatcher {
    pub match_name: Option<String>,
    pub match_pattern: Option<String>,
}

/// The mathematical content of a [`DomainMatcher`].
pub struct DomainMatcherView {
    pub match_name: Option<Seq<char>>,
    pub match_pattern: Option<Seq<char>>,
}

impl DeepView for DomainMatcher {
    type V = DomainMatcherView;

    open spec fn deep_view(&self) -> DomainMatcherView {
        DomainMatcherView {
            match_name: self.match_name.deep_view(),
            match_pattern: self.match_pattern.deep_view(),
        }
    }
}

impl View for DomainMatcher {
    type V = DomainMatcherView;

    open spec fn view(&self) -> DomainMatcherView {
        self.deep_view()
    }
}

/// One port of a port rule. The port is kept as the text the manifest
/// holds.
#[derive(Clone, Debug, PartialEq, Eq)]
pub struct PortSelector {
    pub port: Option<String>,
    pub protocol: Option<String>,
}

/// The mathematical content of a [`PortSelector`].
pub struct PortSelectorView {
    pub port: Option<Seq<char>>,
    pub protocol: Option<Seq<char>>,
}

impl DeepView for PortSelector {
    type V = PortSelectorView;

    open spec fn deep_view(&self) -> PortSelectorView {
        PortSelectorView { port: self.port.deep_view(), protocol: self.protocol.deep_view() }
    }
}

impl View for PortSelector {
    type V = PortSelectorView;

    open spec fn view(&self) -> PortSelectorView {
        self.deep_view()
    }
}

/// One entry of a block's port list.
#[derive(Clone, Debug, PartialEq, Eq)]
pub struct PortRule {
    pub ports: Option<Vec<PortSelector>>,
}

/// The mathematical content of a [`PortRule`].
pub struct PortRuleView {
    pub ports: Option<Seq<PortSelectorView>>,
}

impl DeepView for PortRule {
    type V = PortRuleView;

    open spec fn deep_view(&self) -> PortRuleView {
        PortRuleView { ports: self.ports.deep_view() }
    }
}

impl View for PortRule {
    type V = PortRuleView;

    open spec fn view(&self) -> PortRuleView {
        self.deep_view()
    }
}

/// One egress block: where traffic may go, and on which ports.
#[derive(Clone, Debug, PartialEq, Eq)]
pub struct EgressBlock {
    pub to_endpoints: Option<Vec<EndpointSelector>>,
    pub to_fqdns: Option<Vec<DomainMatcher>>,
    pub to_cidr: Option<Vec<String>>,
    pub to_ports: Option<Vec<PortRule>>,
}

/// The mathematical content of an [`EgressBlock`].
pub struct EgressBlockView {
    pub to_endpoints: Option<Seq<EndpointSelectorView>>,
    pub to_fqdns: Option<Seq<DomainMatcherView>>,
    pub to_cidr: Option<Seq<Seq<char>>>,
    pub to_ports: Option<Seq<PortRuleView>>,
}

impl DeepView for EgressBlock {
    type V = EgressBlockView;

    open spec fn deep_view(&self) -> EgressBlockView {
        EgressBlockView {
            to_endpoints: self.to_endpoints.deep_view(),
            to_fqdns: self.to_fqdns.deep_view(),
            to_cidr: self.to_cidr.deep_view(),
            to_ports: self.to_ports.deep_view(),
        }
    }
}

impl View for EgressBlock {
    type V = EgressBlockView;

    open spec fn view(&self) -> EgressBlockView {
        self.deep_view()
    }
}

/// A network policy for the sandboxes. The endpoint selector is not held:
/// every policy of this library selects the sandboxes by the same label.
#[derive(Clone, Debug, PartialEq, Eq)]
pub struct NetworkPolicyManifest {
    pub name: String,
    pub description: Option<String>,
    pub egress: Vec<EgressBlock>,
}

/// The mathematical content of a [`NetworkPolicyManifest`].
pub struct NetworkPolicyManifestView {
    pub name: Seq<char>,
    pub description: Option<Seq<char>>,
    pub egress: Seq<EgressBlockView>,
}

impl DeepView for NetworkPolicyManifest {
    type V = NetworkPolicyManifestView;

    open spec fn deep_view(&self) -> NetworkPolicyManifestView {
        NetworkPolicyManifestView {
            name: self.name@,
            description: self.description.deep_view(),
            egress: self.egress.deep_view(),
        }
    }
}

impl View for NetworkPolicyManifest {
    type V = NetworkPolicyManifestView;

    open spec fn view(&self) -> NetworkPolicyManifestView {
        self.deep_view()
    }
}

} // verus!
