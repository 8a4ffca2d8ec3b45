//! The text of a compiled rule, line by line.
//!
//! The writer of manifests is general; here its output for the manifests
//! that compiling produces is spelled out, so that the text which the policy
//! engine receives can be read off directly.

use crate::decimal::int_text;
use crate::policy::compile::{
    allow_block, compiled, deny_block, dns_block, host_matchers, one_port, rule_blocks, tcp_ports,
};
use crate::policy::manifest::{
    DomainMatcherView, EgressBlockView, EndpointSelectorView, LabelView, PortRuleView,
    PortSelectorView,
};
use crate::policy::rule::{RuleType, TrafficRuleView};
use crate::policy::yaml::{
    as_item, block_body, block_items, cidr_items, indented, label_lines, manifest_lines,
    matcher_body, matcher_items, port_body, port_items, port_rule_body, port_rule_items, quoted,
    selector_body, selector_items,
};
use vstd::prelude::*;

verus! {

/// The lines before the egress blocks.
pub open spec fn head_lines(name: Seq<char>, description: Seq<char>) -> Seq<Seq<char>> {
    seq![
        "apiVersion: cilium.io/v2"@,
        "kind: CiliumNetworkPolicy"@,
        "metadata:"@,
        "  name: "@ + name,
        "  annotations:"@,
        "    description: \""@ + description + "\""@,
        "spec:"@,
        "  endpointSelector:"@,
        "    matchLabels:"@,
        "      app: browser"@,
        "  egress:"@,
    ]
}

/// The lines of the DNS block.
pub open spec fn dns_lines() -> Seq<Seq<char>> {
    seq![
        "  - toEndpoints:"@,
        "    - matchLabels:"@,
        "        k8s-app: kube-dns"@,
        "    toPorts:"@,
        "    - ports:"@,
        "      - port: \"53\""@,
        "        protocol: UDP"@,
    ]
}

/// The lines of a rule's TCP port, if it has one.
pub open spec fn tcp_port_lines(port: Option<i32>) -> Seq<Seq<char>> {
    match port {
        Some(p) => seq![
            "    toPorts:"@,
            "    - ports:"@,
            "      - port: \""@ + int_text(p as int) + "\""@,
            "        protocol: TCP"@,
        ],
        None => Seq::empty(),
    }
}

/// The lines of a rule's own block.
pub open spec fn rule_lines(rule: TrafficRuleView) -> Seq<Seq<char>> {
    match rule.rule_type {
        RuleType::Deny => match rule.host {
            Some(host) => seq![
                "  - toFQDNs:"@,
                "    - matchPattern: \"*."@ + host + "\""@,
                "    - matchName: \""@ + host + "\""@,
            ] + tcp_port_lines(rule.port),
            None => Seq::empty(),
        },
        RuleType::Allow => seq!["  - toCIDR:"@, "    - 0.0.0.0/0"@] + tcp_port_lines(rule.port),
    }
}

/// The body of a one-port list under a block: the four lines of `toPorts`,
/// not yet indented.
spec fn port_section(port: Seq<char>, protocol: Seq<char>) -> Seq<Seq<char>> {
    seq![
        "toPorts:"@,
        "- ports:"@,
        "  - port: \""@ + port + "\""@,
        "    protocol: "@ + protocol,
    ]
}

proof fn lemma_port_section(port: Seq<char>, protocol: Seq<char>)
    ensures
        seq!["toPorts:"@] + port_rule_items(one_port(port, protocol)) == port_section(
            port,
            protocol,
        ),
{
    reveal_strlit("toPorts:");
    reveal_strlit("- ports:");
    reveal_strlit("ports:");
    reveal_strlit("- ");
    reveal_strlit("  ");
    reveal_strlit("port: ");
    reveal_strlit("protocol: ");
    reveal_strlit("\"");
    reveal_strlit("  - port: \"");
    reveal_strlit("    protocol: ");
    let selector = PortSelectorView { port: Some(port), protocol: Some(protocol) };
    let rule = PortRuleView { ports: Some(seq![selector]) };
    let body = port_body(selector);
    assert(body =~= seq!["port: "@ + quoted(port), "protocol: "@ + protocol]);
    let ports = seq![selector];
    assert(ports.drop_last() =~= Seq::<PortSelectorView>::empty());
    assert(port_items(ports.drop_last()) =~= Seq::<Seq<char>>::empty());
    assert(port_items(ports) =~= as_item(body));
    let rule_body = port_rule_body(rule);
    assert(rule_body =~= seq!["ports:"@, "- "@ + body[0], "  "@ + body[1]]);
    let rules = one_port(port, protocol);
    assert(rules =~= seq![rule]);
    assert(rules.drop_last() =~= Seq::<PortRuleView>::empty());
    assert(port_rule_items(rules.drop_last()) =~= Seq::<Seq<char>>::empty());
    assert(port_rule_items(rules) =~= as_item(rule_body));
    let section = seq!["toPorts:"@] + port_rule_items(rules);
    let wanted = port_section(port, protocol);
    assert(section.len() == 4);
    assert(section[1] =~= wanted[1]);
    assert(section[2] =~= wanted[2]);
    assert(section[3] =~= wanted[3]);
    assert(section =~= wanted);
}

/// The four lines of a one-port list at their place in a block: after the
/// block's first line, under the egress list.
spec fn placed_port_section(port: Seq<char>, protocol: Seq<char>) -> Seq<Seq<char>> {
    seq![
        "    toPorts:"@,
        "    - ports:"@,
        "      - port: \""@ + port + "\""@,
        "        protocol: "@ + protocol,
    ]
}

/// A block's lines at their place under the egress list: the first after
/// `  - `, the others after four spaces.
spec fn placed(body: Seq<Seq<char>>) -> Seq<Seq<char>> {
    indented("  "@, as_item(body))
}

proof fn lemma_placed_with_ports(
    first: Seq<Seq<char>>,
    port: Seq<char>,
    protocol: Seq<char>,
)
    requires
        first.len() > 0,
    ensures
        placed(first + port_section(port, protocol)) == placed(first) + placed_port_section(
            port,
            protocol,
        ),
{
    reveal_strlit("  ");
    reveal_strlit("toPorts:");
    reveal_strlit("- ports:");
    reveal_strlit("  - port: \"");
    reveal_strlit("    protocol: ");
    reveal_strlit("    toPorts:");
    reveal_strlit("    - ports:");
    reveal_strlit("      - port: \"");
    reveal_strlit("        protocol: ");
    let section = port_section(port, protocol);
    let whole = placed(first + section);
    let wanted = placed(first) + placed_port_section(port, protocol);
    let n = first.len() as int;
    assert(whole.len() == wanted.len());
    assert forall|i: int| 0 <= i < whole.len() implies whole[i] == wanted[i] by {
        if i < n {
            assert((first + section)[i] == first[i]);
        } else {
            assert((first + section)[i] == section[i - n]);
            assert(whole[i] == "  "@ + ("  "@ + section[i - n]));
            assert(whole[i] =~= placed_port_section(port, protocol)[i - n]);
        }
    }
    assert(whole =~= wanted);
}

proof fn lemma_dns_block_lines()
    ensures
        placed(block_body(dns_block())) == dns_lines(),
{
    let label = LabelView { key: "k8s-app"@, value: "kube-dns"@ };
    let selector = EndpointSelectorView { match_labels: seq![label] };
    let selectors = seq![selector];
    let labels = label_lines(seq![label]);
    assert(labels =~= seq!["  "@ + "k8s-app"@ + ": "@ + "kube-dns"@]);
    let body = selector_body(selector);
    assert(body =~= seq!["matchLabels:"@, labels[0]]);
    assert(selectors.drop_last() =~= Seq::<EndpointSelectorView>::empty());
    assert(selector_items(selectors.drop_last()) =~= Seq::<Seq<char>>::empty());
    assert(selector_items(selectors) =~= as_item(body));
    let first = seq!["toEndpoints:"@] + selector_items(selectors);
    lemma_port_section("53"@, "UDP"@);
    let block = dns_block();
    assert(block_body(block) =~= first + port_section("53"@, "UDP"@));
    lemma_placed_with_ports(first, "53"@, "UDP"@);
    reveal_strlit("  ");
    reveal_strlit("- ");
    reveal_strlit(": ");
    reveal_strlit("k8s-app");
    reveal_strlit("kube-dns");
    reveal_strlit("toEndpoints:");
    reveal_strlit("matchLabels:");
    reveal_strlit("  - toEndpoints:");
    reveal_strlit("    - matchLabels:");
    reveal_strlit("        k8s-app: kube-dns");
    reveal_strlit("    toPorts:");
    reveal_strlit("    - ports:");
    reveal_strlit("      - port: \"");
    reveal_strlit("\"");
    reveal_strlit("53");
    reveal_strlit("      - port: \"53\"");
    reveal_strlit("        protocol: ");
    reveal_strlit("UDP");
    reveal_strlit("        protocol: UDP");
    let head = placed(first);
    assert(head.len() == 3);
    assert(head[0] =~= dns_lines()[0]);
    assert(head[1] =~= dns_lines()[1]);
    assert(head[2] =~= dns_lines()[2]);
    let tail = placed_port_section("53"@, "UDP"@);
    assert(tail[2] =~= dns_lines()[5]);
    assert(tail[3] =~= dns_lines()[6]);
    assert(head + tail =~= dns_lines());
}

proof fn lemma_tcp_ports_placed(first: Seq<Seq<char>>, port: Option<i32>)
    requires
        first.len() > 0,
    ensures
        placed(
            first + (match tcp_ports(port) {
                Some(rules) => seq!["toPorts:"@] + port_rule_items(rules),
                None => Seq::empty(),
            }),
        ) == placed(first) + tcp_port_lines(port),
{
    match port {
        Some(p) => {
            let text = int_text(p as int);
            lemma_port_section(text, "TCP"@);
            lemma_placed_with_ports(first, text, "TCP"@);
            reveal_strlit("        protocol: ");
            reveal_strlit("TCP");
            reveal_strlit("        protocol: TCP");
            let tail = placed_port_section(text, "TCP"@);
            assert(tail[3] =~= tcp_port_lines(port)[3]);
            assert(tail =~= tcp_port_lines(port));
        },
        None => {
            assert(first + Seq::<Seq<char>>::empty() =~= first);
            assert(placed(first) + tcp_port_lines(port) =~= placed(first));
        },
    }
}

proof fn lemma_deny_block_lines(host: Seq<char>, port: Option<i32>)
    ensures
        placed(block_body(deny_block(host, port))) == seq![
            "  - toFQDNs:"@,
            "    - matchPattern: \"*."@ + host + "\""@,
            "    - matchName: \""@ + host + "\""@,
        ] + tcp_port_lines(port),
{
    let matchers = host_matchers(host);
    let by_pattern = matchers[0];
    let by_name = matchers[1];
    assert(matcher_body(by_pattern) =~= seq!["matchPattern: "@ + quoted("*."@ + host)]);
    assert(matcher_body(by_name) =~= seq!["matchName: "@ + quoted(host)]);
    let front = matchers.drop_last();
    assert(front =~= seq![by_pattern]);
    assert(front.drop_last() =~= Seq::<DomainMatcherView>::empty());
    assert(matcher_items(front.drop_last()) =~= Seq::<Seq<char>>::empty());
    assert(matcher_items(front) =~= as_item(matcher_body(by_pattern)));
    assert(matchers.last() == by_name);
    assert(matcher_items(matchers) =~= as_item(matcher_body(by_pattern)) + as_item(
        matcher_body(by_name),
    ));
    let first = seq!["toFQDNs:"@] + matcher_items(matchers);
    let block = deny_block(host, port);
    assert(block_body(block) =~= first + (match tcp_ports(port) {
        Some(rules) => seq!["toPorts:"@] + port_rule_items(rules),
        None => Seq::empty(),
    }));
    lemma_tcp_ports_placed(first, port);
    reveal_strlit("  ");
    reveal_strlit("- ");
    reveal_strlit("\"");
    reveal_strlit("*.");
    reveal_strlit("toFQDNs:");
    reveal_strlit("matchPattern: ");
    reveal_strlit("matchName: ");
    reveal_strlit("  - toFQDNs:");
    reveal_strlit("    - matchPattern: \"*.");
    reveal_strlit("    - matchName: \"");
    let head = placed(first);
    let wanted = seq![
        "  - toFQDNs:"@,
        "    - matchPattern: \"*."@ + host + "\""@,
        "    - matchName: \""@ + host + "\""@,
    ];
    assert(head.len() == 3);
    assert(head[0] =~= wanted[0]);
    assert(head[1] =~= wanted[1]);
    assert(head[2] =~= wanted[2]);
    assert(head =~= wanted);
}

proof fn lemma_allow_block_lines(port: Option<i32>)
    ensures
        placed(block_body(allow_block(port))) == seq!["  - toCIDR:"@, "    - 0.0.0.0/0"@]
            + tcp_port_lines(port),
{
    let ranges = seq!["0.0.0.0/0"@];
    assert(cidr_items(ranges) =~= seq!["- "@ + "0.0.0.0/0"@]);
    let first = seq!["toCIDR:"@] + cidr_items(ranges);
    let block = allow_block(port);
    assert(block_body(block) =~= first + (match tcp_ports(port) {
        Some(rules) => seq!["toPorts:"@] + port_rule_items(rules),
        None => Seq::empty(),
    }));
    lemma_tcp_ports_placed(first, port);
    reveal_strlit("  ");
    reveal_strlit("- ");
    reveal_strlit("toCIDR:");
    reveal_strlit("0.0.0.0/0");
    reveal_strlit("  - toCIDR:");
    reveal_strlit("    - 0.0.0.0/0");
    let head = placed(first);
    let wanted = seq!["  - toCIDR:"@, "    - 0.0.0.0/0"@];
    assert(head.len() == 2);
    assert(head[0] =~= wanted[0]);
    assert(head[1] =~= wanted[1]);
    assert(head =~= wanted);
}

/// The lines of the manifest compiled from a rule are the head with the
/// rule's name and description, the DNS block, and the rule's own block.
pub proof fn lemma_compiled_rule_layout(rule: TrafficRuleView)
    ensures
        manifest_lines(compiled(rule)) == head_lines(rule.name, rule.description) + dns_lines()
            + rule_lines(rule),
{
    let blocks = rule_blocks(rule);
    let dns = as_item(block_body(dns_block()));
    lemma_dns_block_lines();
    let one = seq![dns_block()];
    assert(one.drop_last() =~= Seq::<EgressBlockView>::empty());
    assert(block_items(one.drop_last()) =~= Seq::<Seq<char>>::empty());
    assert(block_items(one) =~= dns);
    let placed_blocks = indented("  "@, block_items(blocks));
    if blocks.len() == 1 {
        assert(blocks =~= one);
        assert(placed_blocks =~= dns_lines() + rule_lines(rule));
    } else {
        let own = blocks[1];
        assert(blocks.drop_last() =~= one);
        assert(blocks.last() == own);
        let own_lines = as_item(block_body(own));
        assert(block_items(blocks) =~= dns + own_lines);
        assert(placed_blocks =~= indented("  "@, dns) + indented("  "@, own_lines));
        match rule.rule_type {
            RuleType::Deny => {
                lemma_deny_block_lines(rule.host->0, rule.port);
            },
            RuleType::Allow => {
                lemma_allow_block_lines(rule.port);
            },
        }
        assert(placed_blocks =~= dns_lines() + rule_lines(rule));
    }
    reveal_strlit("    description: ");
    reveal_strlit("    description: \"");
    reveal_strlit("\"");
    assert("    description: "@ + quoted(rule.description) =~= "    description: \""@
        + rule.description + "\""@);
    let lines = manifest_lines(compiled(rule));
    let head = head_lines(rule.name, rule.description);
    assert(lines =~= head + placed_blocks);
    assert(head + placed_blocks =~= head + dns_lines() + rule_lines(rule));
}

} // verus!
