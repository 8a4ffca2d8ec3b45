//! From a traffic rule to the manifest that enforces it.

use crate::decimal::{i32_to_text, int_text};
use crate::policy::manifest::{
    DomainMatcher, DomainMatcherView, EgressBlock, EgressBlockView, EndpointSelector,
    EndpointSelectorView, Label, LabelView, NetworkPolicyManifest, NetworkPolicyManifestView,
    PortRule, PortRuleView, PortSelector, PortSelectorView,
};
use crate::policy::rule::{RuleType, TrafficRule, TrafficRuleView};
use vstd::prelude::*;
use vstd::string::*;

verus! {

/// A port list of one rule with one port.
pub open spec fn one_port(port: Seq<char>, protocol: Seq<char>) -> Seq<PortRuleView> {
    seq![
        PortRuleView {
            ports: Some(seq![PortSelectorView { port: Some(port), protocol: Some(protocol) }]),
        },
    ]
}

/// The block that lets every sandbox reach the cluster's DNS service: UDP
/// port 53 of the endpoints labelled `k8s-app: kube-dns`.
pub open spec fn dns_block() -> EgressBlockView {
    EgressBlockView {
        to_endpoints: Some(
            seq![
                EndpointSelectorView {
                    match_labels: seq![LabelView { key: "k8s-app"@, value: "kube-dns"@ }],
                },
            ],
        ),
        to_fqdns: None,
        to_cidr: None,
        to_ports: Some(one_port("53"@, "UDP"@)),
    }
}

/// The TCP port list of a rule: one port written in decimal, or no list.
pub open spec fn tcp_ports(port: Option<i32>) -> Option<Seq<PortRuleView>> {
    match port {
        Some(p) => Some(one_port(int_text(p as int), "TCP"@)),
        None => None,
    }
}

/// The two matchers of a blocked host: the wildcard pattern for its
/// subdomains, then its exact name.
pub open spec fn host_matchers(host: Seq<char>) -> Seq<DomainMatcherView> {
    seq![
        DomainMatcherView { match_name: None, match_pattern: Some("*."@ + host) },
        DomainMatcherView { match_name: Some(host), match_pattern: None },
    ]
}

/// The block of a deny rule: the host by pattern and by name, on the rule's
/// port if it has one.
pub open spec fn deny_block(host: Seq<char>, port: Option<i32>) -> EgressBlockView {
    EgressBlockView {
        to_endpoints: None,
        to_fqdns: Some(host_matchers(host)),
        to_cidr: None,
        to_ports: tcp_ports(port),
    }
}

/// The block of an allow rule: every address, on the rule's port if it has
/// one.
pub open spec fn allow_block(port: Option<i32>) -> EgressBlockView {
    EgressBlockView {
        to_endpoints: None,
        to_fqdns: None,
        to_cidr: Some(seq!["0.0.0.0/0"@]),
        to_ports: tcp_ports(port),
    }
}

/// The egress blocks of a rule: always the DNS block first; then the deny
/// block of a deny rule that names a host, or the allow block of an allow
/// rule. A deny rule without a host adds nothing, and the host of an allow
/// rule is not used.
pub open spec fn rule_blocks(rule: TrafficRuleView) -> Seq<EgressBlockView> {
    match rule.rule_type {
        RuleType::Deny => match rule.host {
            Some(host) => seq![dns_block(), deny_block(host, rule.port)],
            None => seq![dns_block()],
        },
        RuleType::Allow => seq![dns_block(), allow_block(rule.port)],
    }
}

/// The manifest of a rule: the rule's name, its description as the
/// annotation, and its egress blocks.
pub open spec fn compiled(rule: TrafficRuleView) -> NetworkPolicyManifestView {
    NetworkPolicyManifestView {
        name: rule.name,
        description: Some(rule.description),
        egress: rule_blocks(rule),
    }
}

fn make_one_port(port: String, protocol: &str) -> (rules: Vec<PortRule>)
    ensures
        rules.deep_view() == one_port(port@, protocol@),
{
    let mut selectors: Vec<PortSelector> = Vec::new();
    selectors.push(PortSelector { port: Some(port), protocol: Some(String::from_str(protocol)) });
    assert(selectors.deep_view() =~= seq![
        PortSelectorView { port: Some(port@), protocol: Some(protocol@) },
    ]);
    let mut rules: Vec<PortRule> = Vec::new();
    rules.push(PortRule { ports: Some(selectors) });
    assert(rules.deep_view() =~= one_port(port@, protocol@));
    rules
}

fn make_tcp_ports(port: Option<i32>) -> (rules: Option<Vec<PortRule>>)
    ensures
        rules.deep_view() == tcp_ports(port),
{
    match port {
        Some(p) => Some(make_one_port(i32_to_text(p), "TCP")),
        None => None,
    }
}

fn make_dns_block() -> (block: EgressBlock)
    ensures
        block@ == dns_block(),
{
    let mut labels: Vec<Label> = Vec::new();
    labels.push(Label { key: String::from_str("k8s-app"), value: String::from_str("kube-dns") });
    assert(labels.deep_view() =~= seq![LabelView { key: "k8s-app"@, value: "kube-dns"@ }]);
    let mut endpoints: Vec<EndpointSelector> = Vec::new();
    endpoints.push(EndpointSelector { match_labels: labels });
    assert(endpoints.deep_view() =~= seq![
        EndpointSelectorView {
            match_labels: seq![LabelView { key: "k8s-app"@, value: "kube-dns"@ }],
        },
    ]);
    EgressBlock {
        to_endpoints: Some(endpoints),
        to_fqdns: None,
        to_cidr: None,
        to_ports: Some(make_one_port(String::from_str("53"), "UDP")),
    }
}

fn make_deny_block(host: &str, port: Option<i32>) -> (block: EgressBlock)
    ensures
        block@ == deny_block(host@, port),
{
    let mut pattern = String::from_str("*.");
    pattern.append(host);
    let mut matchers: Vec<DomainMatcher> = Vec::new();
    matchers.push(DomainMatcher { match_name: None, match_pattern: Some(pattern) });
    matchers.push(DomainMatcher { match_name: Some(String::from_str(host)), match_pattern: None });
    assert(matchers.deep_view() =~= host_matchers(host@));
    EgressBlock {
        to_endpoints: None,
        to_fqdns: Some(matchers),
        to_cidr: None,
        to_ports: make_tcp_ports(port),
    }
}

fn make_allow_block(port: Option<i32>) -> (block: EgressBlock)
    ensures
        block@ == allow_block(port),
{
    let mut cidr: Vec<String> = Vec::new();
    cidr.push(String::from_str("0.0.0.0/0"));
    assert(cidr.deep_view() =~= seq!["0.0.0.0/0"@]);
    EgressBlock {
        to_endpoints: None,
        to_fqdns: None,
        to_cidr: Some(cidr),
        to_ports: make_tcp_ports(port),
    }
}

/// Compiles a rule into its manifest.
pub fn compile(rule: &TrafficRule) -> (manifest: NetworkPolicyManifest)
    ensures
        manifest@ == compiled(rule@),
{
    let mut egress: Vec<EgressBlock> = Vec::new();
    egress.push(make_dns_block());
    match rule.rule_type {
        RuleType::Deny => {
            match &rule.host {
                Some(host) => {
                    egress.push(make_deny_block(host.as_str(), rule.port));
                },
                None => {},
            }
        },
        RuleType::Allow => {
            egress.push(make_allow_block(rule.port));
        },
    }
    assert(egress.deep_view() =~= rule_blocks(rule@));
    NetworkPolicyManifest {
        name: rule.name.clone(),
        description: Some(rule.description.clone()),
        egress,
    }
}

} // verus!
