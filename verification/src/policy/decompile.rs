//! From a stored manifest back to the rule it enforces.
//!
//! A manifest written by this library holds the DNS block at index 0 and the
//! rule's block at index 1. Older manifests hold the rule's block at index 0.
//! The block to read is chosen once: index 1 if it matches domains, else
//! index 0 if it does, else the last of the first two blocks that exists.

use crate::decimal::{parse_i32, parse_int_text};
use crate::policy::manifest::{
    DomainMatcher, DomainMatcherView, EgressBlock, EgressBlockView, NetworkPolicyManifest,
    NetworkPolicyManifestView,
};
use crate::policy::rule::{
    NetworkPolicyInfo, NetworkPolicyInfoView, RuleType, TrafficRule, TrafficRuleView,
};
use crate::text::{strip_leading, trim_leading};
use vstd::prelude::*;
use vstd::string::*;

verus! {

/// Whether a block holds a domain-match list with at least one entry.
pub open spec fn has_domain_match(block: EgressBlockView) -> bool {
    block.to_fqdns matches Some(matchers) && matchers.len() > 0
}

/// The index of the block that holds the rule, if the manifest has any
/// block.
pub open spec fn rule_block_index(egress: Seq<EgressBlockView>) -> Option<int> {
    if egress.len() >= 2 && has_domain_match(egress[1]) {
        Some(1)
    } else if egress.len() >= 1 && has_domain_match(egress[0]) {
        Some(0)
    } else if egress.len() >= 2 {
        Some(1)
    } else if egress.len() >= 1 {
        Some(0)
    } else {
        None
    }
}

/// The rule type of a manifest: deny if the block at index 1 matches
/// domains, else deny if the block at index 0 does, else allow.
pub open spec fn read_rule_type(egress: Seq<EgressBlockView>) -> RuleType {
    if (egress.len() >= 2 && has_domain_match(egress[1])) || (egress.len() >= 1
        && has_domain_match(egress[0])) {
        RuleType::Deny
    } else {
        RuleType::Allow
    }
}

/// The exact name of the first matcher that has one.
pub open spec fn first_name(matchers: Seq<DomainMatcherView>) -> Option<Seq<char>>
    decreases matchers.len(),
{
    if matchers.len() == 0 {
        None
    } else if matchers[0].match_name is Some {
        matchers[0].match_name
    } else {
        first_name(matchers.skip(1))
    }
}

/// The pattern of the first matcher that has one.
pub open spec fn first_pattern(matchers: Seq<DomainMatcherView>) -> Option<Seq<char>>
    decreases matchers.len(),
{
    if matchers.len() == 0 {
        None
    } else if matchers[0].match_pattern is Some {
        matchers[0].match_pattern
    } else {
        first_pattern(matchers.skip(1))
    }
}

/// The host of a domain-match list: an exact name if any matcher has one,
/// else a pattern without its leading `*.` parts.
pub open spec fn host_of(matchers: Seq<DomainMatcherView>) -> Option<Seq<char>> {
    match first_name(matchers) {
        Some(name) => Some(name),
        None => match first_pattern(matchers) {
            Some(pattern) => Some(strip_leading(pattern, "*."@)),
            None => None,
        },
    }
}

/// The host that a block names.
pub open spec fn block_host(block: EgressBlockView) -> Option<Seq<char>> {
    match block.to_fqdns {
        Some(matchers) => host_of(matchers),
        None => None,
    }
}

/// The text of the first port of the first port rule of a block.
pub open spec fn first_port_text(block: EgressBlockView) -> Option<Seq<char>> {
    match block.to_ports {
        Some(rules) => if rules.len() > 0 {
            match rules[0].ports {
                Some(ports) => if ports.len() > 0 {
                    ports[0].port
                } else {
                    None
                },
                None => None,
            }
        } else {
            None
        },
        None => None,
    }
}

/// The port of a block: its first port's text read as a decimal integer;
/// none where there is no such text or it is no integer.
pub open spec fn block_port(block: EgressBlockView) -> Option<i32> {
    match first_port_text(block) {
        Some(text) => parse_int_text(text),
        None => None,
    }
}

/// The host of a manifest: that of its rule block.
pub open spec fn read_host(egress: Seq<EgressBlockView>) -> Option<Seq<char>> {
    match rule_block_index(egress) {
        Some(i) => block_host(egress[i]),
        None => None,
    }
}

/// The port of a manifest: that of its rule block.
pub open spec fn read_port(egress: Seq<EgressBlockView>) -> Option<i32> {
    match rule_block_index(egress) {
        Some(i) => block_port(egress[i]),
        None => None,
    }
}

/// The rule that a manifest enforces. The description is the manifest's
/// annotation, or `default_description` where it has none.
pub open spec fn decompiled(
    manifest: NetworkPolicyManifestView,
    default_description: Seq<char>,
) -> TrafficRuleView {
    TrafficRuleView {
        id: None,
        name: manifest.name,
        description: match manifest.description {
            Some(description) => description,
            None => default_description,
        },
        rule_type: read_rule_type(manifest.egress),
        host: read_host(manifest.egress),
        port: read_port(manifest.egress),
    }
}

/// What a manifest says of its rule, the description left as it is.
pub open spec fn described(manifest: NetworkPolicyManifestView) -> NetworkPolicyInfoView {
    NetworkPolicyInfoView {
        name: manifest.name,
        description: manifest.description,
        rule_type: read_rule_type(manifest.egress),
        host: read_host(manifest.egress),
        port: read_port(manifest.egress),
    }
}

fn block_has_domain_match(block: &EgressBlock) -> (found: bool)
    ensures
        found == has_domain_match(block@),
{
    match &block.to_fqdns {
        Some(matchers) => matchers.len() > 0,
        None => false,
    }
}

fn find_rule_block(egress: &Vec<EgressBlock>) -> (index: Option<usize>)
    ensures
        match index {
            Some(i) => rule_block_index(egress.deep_view()) == Some(i as int) && i < egress.len(),
            None => rule_block_index(egress.deep_view()) is None,
        },
        read_rule_type(egress.deep_view()) == if index matches Some(i) && has_domain_match(
            egress[i as int]@,
        ) {
            RuleType::Deny
        } else {
            RuleType::Allow
        },
{
    if egress.len() >= 2 && block_has_domain_match(&egress[1]) {
        Some(1)
    } else if egress.len() >= 1 && block_has_domain_match(&egress[0]) {
        Some(0)
    } else if egress.len() >= 2 {
        Some(1)
    } else if egress.len() >= 1 {
        Some(0)
    } else {
        None
    }
}

fn find_name(matchers: &Vec<DomainMatcher>) -> (name: Option<String>)
    ensures
        name.deep_view() == first_name(matchers.deep_view()),
{
    let mut i: usize = 0;
    assert(matchers.deep_view().skip(0) =~= matchers.deep_view());
    while i < matchers.len()
        invariant
            i <= matchers.len(),
            first_name(matchers.deep_view()) == first_name(matchers.deep_view().skip(i as int)),
        decreases matchers.len() - i,
    {
        proof {
            let rest = matchers.deep_view().skip(i as int);
            assert(rest[0] == matchers[i as int].deep_view());
            assert(rest.skip(1) =~= matchers.deep_view().skip(i + 1));
        }
        match &matchers[i].match_name {
            Some(name) => {
                return Some(name.clone());
            },
            None => {},
        }
        i = i + 1;
    }
    None
}

fn find_pattern(matchers: &Vec<DomainMatcher>) -> (pattern: Option<String>)
    ensures
        pattern.deep_view() == first_pattern(matchers.deep_view()),
{
    let mut i: usize = 0;
    assert(matchers.deep_view().skip(0) =~= matchers.deep_view());
    while i < matchers.len()
        invariant
            i <= matchers.len(),
            first_pattern(matchers.deep_view()) == first_pattern(
                matchers.deep_view().skip(i as int),
            ),
        decreases matchers.len() - i,
    {
        proof {
            let rest = matchers.deep_view().skip(i as int);
            assert(rest[0] == matchers[i as int].deep_view());
            assert(rest.skip(1) =~= matchers.deep_view().skip(i + 1));
        }
        match &matchers[i].match_pattern {
            Some(pattern) => {
                return Some(pattern.clone());
            },
            None => {},
        }
        i = i + 1;
    }
    None
}

/// Reads the host that a block names.
pub fn extract_host(block: &EgressBlock) -> (host: Option<String>)
    ensures
        host.deep_view() == block_host(block@),
{
    match &block.to_fqdns {
        Some(matchers) => match find_name(matchers) {
            Some(name) => Some(name),
            None => match find_pattern(matchers) {
                Some(pattern) => Some(trim_leading(pattern.as_str(), "*.")),
                None => None,
            },
        },
        None => None,
    }
}

/// Reads the port of a block.
pub fn extract_port(block: &EgressBlock) -> (port: Option<i32>)
    ensures
        port == block_port(block@),
{
    match &block.to_ports {
        Some(rules) => {
            if rules.len() > 0 {
                match &rules[0].ports {
                    Some(ports) => {
                        if ports.len() > 0 {
                            match &ports[0].port {
                                Some(text) => parse_i32(text.as_str()),
                                None => None,
                            }
                        } else {
                            None
                        }
                    },
                    None => None,
                }
            } else {
                None
            }
        },
        None => None,
    }
}

/// Tells whether a manifest enforces a deny rule or an allow rule.
pub fn determine_rule_type(manifest: &NetworkPolicyManifest) -> (rule_type: RuleType)
    ensures
        rule_type == read_rule_type(manifest@.egress),
{
    match find_rule_block(&manifest.egress) {
        Some(i) => if block_has_domain_match(&manifest.egress[i]) {
            RuleType::Deny
        } else {
            RuleType::Allow
        },
        None => RuleType::Allow,
    }
}

/// Reads the rule that a manifest enforces, with `default_description` for a
/// manifest that carries no description.
pub fn decompile(manifest: &NetworkPolicyManifest, default_description: &str) -> (rule:
    TrafficRule)
    ensures
        rule@ == decompiled(manifest@, default_description@),
{
    let description = match &manifest.description {
        Some(description) => description.clone(),
        None => String::from_str(default_description),
    };
    let rule_type = determine_rule_type(manifest);
    match find_rule_block(&manifest.egress) {
        Some(i) => TrafficRule {
            id: None,
            name: manifest.name.clone(),
            description,
            rule_type,
            host: extract_host(&manifest.egress[i]),
            port: extract_port(&manifest.egress[i]),
        },
        None => TrafficRule {
            id: None,
            name: manifest.name.clone(),
            description,
            rule_type,
            host: None,
            port: None,
        },
    }
}

/// Reads what a manifest says of its rule, for a listing.
pub fn describe_policy(manifest: &NetworkPolicyManifest) -> (info: NetworkPolicyInfo)
    ensures
        info@ == described(manifest@),
{
    let rule = decompile(manifest, "");
    NetworkPolicyInfo {
        name: rule.name,
        description: manifest.description.clone(),
        rule_type: rule.rule_type,
        host: rule.host,
        port: rule.port,
    }
}

} // verus!
