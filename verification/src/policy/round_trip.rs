//! What compiling a rule and reading the manifest back preserves, and what
//! it does not.

use crate::decimal::{
    int_text, is_digit, lemma_int_text_round_trip, lemma_non_numeric_text, nat_text,
};
use crate::policy::compile::{
    allow_block, compiled, deny_block, dns_block, host_matchers, rule_blocks, tcp_ports,
};
use crate::policy::decompile::{
    block_host, block_port, decompiled, first_name, first_port_text, has_domain_match,
    rule_block_index,
};
use crate::policy::manifest::{EgressBlockView, NetworkPolicyManifestView};
use crate::policy::rule::{RuleType, TrafficRuleView};
use vstd::prelude::*;

verus! {

proof fn lemma_tcp_port_reads_back(port: Option<i32>, block: EgressBlockView)
    requires
        block.to_ports == tcp_ports(port),
    ensures
        block_port(block) == port,
{
    match port {
        Some(p) => {
            lemma_int_text_round_trip(p);
            assert(first_port_text(block) == Some(int_text(p as int)));
        },
        None => {},
    }
}

proof fn lemma_dns_block_reads(block: EgressBlockView)
    requires
        block == dns_block(),
    ensures
        !has_domain_match(block),
        block_host(block) is None,
        block_port(block) == Some(53i32),
{
    reveal_strlit("53");
    reveal_with_fuel(nat_text, 2);
    assert("53"@ =~= int_text(53));
    lemma_int_text_round_trip(53i32);
    assert(first_port_text(block) == Some("53"@));
}

/// A deny rule that names a host comes back from its manifest as a deny
/// rule with the same host and the same port, under the same name and
/// description.
pub proof fn lemma_deny_round_trip(rule: TrafficRuleView, default_description: Seq<char>)
    requires
        rule.rule_type == RuleType::Deny,
        rule.host is Some,
    ensures
        decompiled(compiled(rule), default_description).rule_type == RuleType::Deny,
        decompiled(compiled(rule), default_description).host == rule.host,
        decompiled(compiled(rule), default_description).port == rule.port,
        decompiled(compiled(rule), default_description).name == rule.name,
        decompiled(compiled(rule), default_description).description == rule.description,
{
    let host = rule.host->0;
    let egress = rule_blocks(rule);
    let block = deny_block(host, rule.port);
    assert(egress[1] == block);
    let matchers = host_matchers(host);
    assert(has_domain_match(block));
    assert(rule_block_index(egress) == Some(1int));
    assert(first_name(matchers) == Some(host)) by {
        assert(matchers.skip(1)[0] == matchers[1]);
        reveal_with_fuel(first_name, 3);
    }
    lemma_tcp_port_reads_back(rule.port, block);
}

/// An allow rule comes back from its manifest as an allow rule with the same
/// port and without a host, whether or not it named one.
pub proof fn lemma_allow_round_trip(rule: TrafficRuleView, default_description: Seq<char>)
    requires
        rule.rule_type == RuleType::Allow,
    ensures
        decompiled(compiled(rule), default_description).rule_type == RuleType::Allow,
        decompiled(compiled(rule), default_description).port == rule.port,
        decompiled(compiled(rule), default_description).host is None,
        decompiled(compiled(rule), default_description).name == rule.name,
        decompiled(compiled(rule), default_description).description == rule.description,
{
    let egress = rule_blocks(rule);
    let block = allow_block(rule.port);
    assert(egress[1] == block);
    lemma_dns_block_reads(egress[0]);
    assert(!has_domain_match(block));
    assert(rule_block_index(egress) == Some(1int));
    lemma_tcp_port_reads_back(rule.port, block);
}

/// A deny rule without a host compiles to the DNS block alone, and that
/// manifest reads back as an allow rule: without a host, and with the port
/// of the DNS block.
pub proof fn lemma_deny_without_host(rule: TrafficRuleView, default_description: Seq<char>)
    requires
        rule.rule_type == RuleType::Deny,
        rule.host is None,
    ensures
        compiled(rule).egress == seq![dns_block()],
        decompiled(compiled(rule), default_description).rule_type == RuleType::Allow,
        decompiled(compiled(rule), default_description).host is None,
        decompiled(compiled(rule), default_description).port == Some(53i32),
{
    let egress = rule_blocks(rule);
    lemma_dns_block_reads(egress[0]);
    assert(rule_block_index(egress) == Some(0int));
}

/// A manifest whose rule block gives as its first port a text with a char
/// that is no digit (a sign in first place aside) reads back without a port.
pub proof fn lemma_non_numeric_port_is_absent(
    manifest: NetworkPolicyManifestView,
    default_description: Seq<char>,
    text: Seq<char>,
    i: int,
)
    requires
        rule_block_index(manifest.egress) matches Some(index) && first_port_text(
            manifest.egress[index],
        ) == Some(text),
        0 <= i < text.len(),
        !is_digit(text[i]),
        i > 0 || (text[0] != '-' && text[0] != '+'),
    ensures
        decompiled(manifest, default_description).port is None,
{
    lemma_non_numeric_text(text, i);
}

} // verus!
