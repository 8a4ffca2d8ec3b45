//! The text of a manifest, as the policy engine reads it.
//!
//! The text is a list of lines joined by line feeds. A list entry starts with
//! `- ` on its first line and is indented by two spaces on the others; an
//! entry without content is written `- {}`. Names, descriptions and the other
//! values are written as they are, without escaping.

use crate::policy::compile::{compile, compiled};
use crate::policy::layout::{dns_lines, head_lines, lemma_compiled_rule_layout, rule_lines};
use crate::policy::manifest::{
    DomainMatcher, DomainMatcherView, EgressBlock, EgressBlockView, EndpointSelector,
    EndpointSelectorView, LabelView, NetworkPolicyManifest, NetworkPolicyManifestView, PortRule,
    PortRuleView, PortSelector, PortSelectorView,
};
use crate::policy::rule::TrafficRule;
use vstd::prelude::*;
use vstd::string::*;

verus! {

/// The lines joined by line feeds, with none after the last line.
pub open spec fn join_lines(lines: Seq<Seq<char>>) -> Seq<char>
    decreases lines.len(),
{
    if lines.len() == 0 {
        Seq::empty()
    } else if lines.len() == 1 {
        lines[0]
    } else {
        join_lines(lines.drop_last()) + seq!['\n'] + lines.last()
    }
}

/// Every line with `prefix` before it.
pub open spec fn indented(prefix: Seq<char>, lines: Seq<Seq<char>>) -> Seq<Seq<char>> {
    Seq::new(lines.len(), |i: int| prefix + lines[i])
}

/// The lines as one list entry.
pub open spec fn as_item(lines: Seq<Seq<char>>) -> Seq<Seq<char>> {
    if lines.len() == 0 {
        seq!["- {}"@]
    } else {
        Seq::new(
            lines.len(),
            |i: int|
                if i == 0 {
                    "- "@ + lines[i]
                } else {
                    "  "@ + lines[i]
                },
        )
    }
}

/// A value between double quotes.
pub open spec fn quoted(value: Seq<char>) -> Seq<char> {
    "\""@ + value + "\""@
}

/// The line of an optional value under a key, quoted or not.
pub open spec fn value_line(key: Seq<char>, value: Option<Seq<char>>, quote: bool) -> Seq<
    Seq<char>,
> {
    match value {
        Some(v) => seq![
            key + if quote {
                quoted(v)
            } else {
                v
            },
        ],
        None => Seq::empty(),
    }
}

/// One line for each label, indented under `matchLabels:`.
pub open spec fn label_lines(labels: Seq<LabelView>) -> Seq<Seq<char>> {
    Seq::new(labels.len(), |i: int| "  "@ + labels[i].key + ": "@ + labels[i].value)
}

/// The lines of one endpoint selector.
pub open spec fn selector_body(selector: EndpointSelectorView) -> Seq<Seq<char>> {
    seq!["matchLabels:"@] + label_lines(selector.match_labels)
}

/// The entries of a list of endpoint selectors.
pub open spec fn selector_items(selectors: Seq<EndpointSelectorView>) -> Seq<Seq<char>>
    decreases selectors.len(),
{
    if selectors.len() == 0 {
        Seq::empty()
    } else {
        selector_items(selectors.drop_last()) + as_item(selector_body(selectors.last()))
    }
}

/// The lines of one domain matcher: its name, then its pattern.
pub open spec fn matcher_body(matcher: DomainMatcherView) -> Seq<Seq<char>> {
    value_line("matchName: "@, matcher.match_name, true) + value_line(
        "matchPattern: "@,
        matcher.match_pattern,
        true,
    )
}

/// The entries of a domain-match list.
pub open spec fn matcher_items(matchers: Seq<DomainMatcherView>) -> Seq<Seq<char>>
    decreases matchers.len(),
{
    if matchers.len() == 0 {
        Seq::empty()
    } else {
        matcher_items(matchers.drop_last()) + as_item(matcher_body(matchers.last()))
    }
}

/// One entry for each address range.
pub open spec fn cidr_items(ranges: Seq<Seq<char>>) -> Seq<Seq<char>> {
    Seq::new(ranges.len(), |i: int| "- "@ + ranges[i])
}

/// The lines of one port: its number between quotes, then its protocol.
pub open spec fn port_body(port: PortSelectorView) -> Seq<Seq<char>> {
    value_line("port: "@, port.port, true) + value_line("protocol: "@, port.protocol, false)
}

/// The entries of a list of ports.
pub open spec fn port_items(ports: Seq<PortSelectorView>) -> Seq<Seq<char>>
    decreases ports.len(),
{
    if ports.len() == 0 {
        Seq::empty()
    } else {
        port_items(ports.drop_last()) + as_item(port_body(ports.last()))
    }
}

/// The lines of one port rule.
pub open spec fn port_rule_body(rule: PortRuleView) -> Seq<Seq<char>> {
    match rule.ports {
        Some(ports) => seq!["ports:"@] + port_items(ports),
        None => Seq::empty(),
    }
}

/// The entries of a list of port rules.
pub open spec fn port_rule_items(rules: Seq<PortRuleView>) -> Seq<Seq<char>>
    decreases rules.len(),
{
    if rules.len() == 0 {
        Seq::empty()
    } else {
        port_rule_items(rules.drop_last()) + as_item(port_rule_body(rules.last()))
    }
}

/// The lines of one egress block: endpoints, domains, address ranges, then
/// ports, each only if the block has it.
pub open spec fn block_body(block: EgressBlockView) -> Seq<Seq<char>> {
    (match block.to_endpoints {
        Some(selectors) => seq!["toEndpoints:"@] + selector_items(selectors),
        None => Seq::empty(),
    }) + (match block.to_fqdns {
        Some(matchers) => seq!["toFQDNs:"@] + matcher_items(matchers),
        None => Seq::empty(),
    }) + (match block.to_cidr {
        Some(ranges) => seq!["toCIDR:"@] + cidr_items(ranges),
        None => Seq::empty(),
    }) + (match block.to_ports {
        Some(rules) => seq!["toPorts:"@] + port_rule_items(rules),
        None => Seq::empty(),
    })
}

/// The entries of the egress list.
pub open spec fn block_items(blocks: Seq<EgressBlockView>) -> Seq<Seq<char>>
    decreases blocks.len(),
{
    if blocks.len() == 0 {
        Seq::empty()
    } else {
        block_items(blocks.drop_last()) + as_item(block_body(blocks.last()))
    }
}

/// The lines of a manifest: version and kind, the metadata with the name
/// and the description annotation, the selector of the sandboxes, then the
/// egress list.
pub open spec fn manifest_lines(manifest: NetworkPolicyManifestView) -> Seq<Seq<char>> {
    seq![
        "apiVersion: cilium.io/v2"@,
        "kind: CiliumNetworkPolicy"@,
        "metadata:"@,
        "  name: "@ + manifest.name,
    ] + (match manifest.description {
        Some(description) => seq![
            "  annotations:"@,
            "    description: "@ + quoted(description),
        ],
        None => Seq::empty(),
    }) + seq![
        "spec:"@,
        "  endpointSelector:"@,
        "    matchLabels:"@,
        "      app: browser"@,
        "  egress:"@,
    ] + indented("  "@, block_items(manifest.egress))
}

/// The text of a manifest.
pub open spec fn manifest_text(manifest: NetworkPolicyManifestView) -> Seq<char> {
    join_lines(manifest_lines(manifest))
}

fn push_line(lines: &mut Vec<String>, line: String)
    ensures
        final(lines).deep_view() == old(lines).deep_view().push(line@),
{
    lines.push(line);
    assert(lines.deep_view() =~= old(lines).deep_view().push(line@));
}

fn push_text(lines: &mut Vec<String>, line: &str)
    ensures
        final(lines).deep_view() == old(lines).deep_view().push(line@),
{
    push_line(lines, String::from_str(line));
}

fn extend_lines(lines: &mut Vec<String>, more: Vec<String>)
    ensures
        final(lines).deep_view() == old(lines).deep_view() + more.deep_view(),
{
    let mut more = more;
    let ghost added = more.deep_view();
    lines.append(&mut more);
    assert(lines.deep_view() =~= old(lines).deep_view() + added);
}

fn joined(a: &str, b: &str) -> (text: String)
    ensures
        text@ == a@ + b@,
{
    let mut text = String::from_str(a);
    text.append(b);
    text
}

fn make_indented(prefix: &str, lines: &Vec<String>) -> (out: Vec<String>)
    ensures
        out.deep_view() == indented(prefix@, lines.deep_view()),
{
    let mut out: Vec<String> = Vec::new();
    let mut i: usize = 0;
    while i < lines.len()
        invariant
            i <= lines.len(),
            out.len() == i,
            forall|j: int| 0 <= j < i ==> out[j]@ == prefix@ + lines[j]@,
        decreases lines.len() - i,
    {
        out.push(joined(prefix, lines[i].as_str()));
        i = i + 1;
    }
    assert(out.deep_view() =~= indented(prefix@, lines.deep_view()));
    out
}

fn make_item(lines: &Vec<String>) -> (out: Vec<String>)
    ensures
        out.deep_view() == as_item(lines.deep_view()),
{
    let mut out: Vec<String> = Vec::new();
    if lines.len() == 0 {
        push_text(&mut out, "- {}");
        assert(out.deep_view() =~= as_item(lines.deep_view()));
        return out;
    }
    let mut i: usize = 0;
    while i < lines.len()
        invariant
            i <= lines.len(),
            out.len() == i,
            forall|j: int|
                0 <= j < i ==> out[j]@ == if j == 0 {
                    "- "@ + lines[j]@
                } else {
                    "  "@ + lines[j]@
                },
        decreases lines.len() - i,
    {
        if i == 0 {
            out.push(joined("- ", lines[i].as_str()));
        } else {
            out.push(joined("  ", lines[i].as_str()));
        }
        i = i + 1;
    }
    assert(out.deep_view() =~= as_item(lines.deep_view()));
    out
}

fn push_value(lines: &mut Vec<String>, key: &str, value: &Option<String>, quote: bool)
    ensures
        final(lines).deep_view() == old(lines).deep_view() + value_line(
            key@,
            value.deep_view(),
            quote,
        ),
{
    match value {
        Some(v) => {
            let mut line = String::from_str(key);
            if quote {
                line.append("\"");
                line.append(v.as_str());
                line.append("\"");
                assert(line@ =~= key@ + quoted(v@));
            } else {
                line.append(v.as_str());
            }
            push_line(lines, line);
            assert(lines.deep_view() =~= old(lines).deep_view() + value_line(
                key@,
                value.deep_view(),
                quote,
            ));
        },
        None => {
            assert(lines.deep_view() =~= old(lines).deep_view() + value_line(
                key@,
                value.deep_view(),
                quote,
            ));
        },
    }
}

fn selector_lines(selector: &EndpointSelector) -> (out: Vec<String>)
    ensures
        out.deep_view() == selector_body(selector@),
{
    let mut out: Vec<String> = Vec::new();
    push_text(&mut out, "matchLabels:");
    let ghost labels = selector.match_labels.deep_view();
    let mut i: usize = 0;
    while i < selector.match_labels.len()
        invariant
            i <= selector.match_labels.len(),
            labels == selector.match_labels.deep_view(),
            out.deep_view() == seq!["matchLabels:"@] + label_lines(labels).take(i as int),
        decreases selector.match_labels.len() - i,
    {
        let label = &selector.match_labels[i];
        let mut line = String::from_str("  ");
        line.append(label.key.as_str());
        line.append(": ");
        line.append(label.value.as_str());
        push_line(&mut out, line);
        assert(out.deep_view() =~= seq!["matchLabels:"@] + label_lines(labels).take(i + 1));
        i = i + 1;
    }
    assert(label_lines(labels).take(i as int) =~= label_lines(labels));
    out
}

fn selector_list_lines(selectors: &Vec<EndpointSelector>) -> (out: Vec<String>)
    ensures
        out.deep_view() == selector_items(selectors.deep_view()),
{
    let mut out: Vec<String> = Vec::new();
    let ghost all = selectors.deep_view();
    let mut i: usize = 0;
    while i < selectors.len()
        invariant
            i <= selectors.len(),
            all == selectors.deep_view(),
            out.deep_view() == selector_items(all.take(i as int)),
        decreases selectors.len() - i,
    {
        proof {
            assert(all.take(i + 1).drop_last() =~= all.take(i as int));
        }
        let body = selector_lines(&selectors[i]);
        extend_lines(&mut out, make_item(&body));
        i = i + 1;
    }
    assert(all.take(i as int) =~= all);
    out
}

fn matcher_lines(matcher: &DomainMatcher) -> (out: Vec<String>)
    ensures
        out.deep_view() == matcher_body(matcher@),
{
    let mut out: Vec<String> = Vec::new();
    push_value(&mut out, "matchName: ", &matcher.match_name, true);
    push_value(&mut out, "matchPattern: ", &matcher.match_pattern, true);
    assert(out.deep_view() =~= matcher_body(matcher@));
    out
}

fn matcher_list_lines(matchers: &Vec<DomainMatcher>) -> (out: Vec<String>)
    ensures
        out.deep_view() == matcher_items(matchers.deep_view()),
{
    let mut out: Vec<String> = Vec::new();
    let ghost all = matchers.deep_view();
    let mut i: usize = 0;
    while i < matchers.len()
        invariant
            i <= matchers.len(),
            all == matchers.deep_view(),
            out.deep_view() == matcher_items(all.take(i as int)),
        decreases matchers.len() - i,
    {
        proof {
            assert(all.take(i + 1).drop_last() =~= all.take(i as int));
        }
        let body = matcher_lines(&matchers[i]);
        extend_lines(&mut out, make_item(&body));
        i = i + 1;
    }
    assert(all.take(i as int) =~= all);
    out
}

fn cidr_lines(ranges: &Vec<String>) -> (out: Vec<String>)
    ensures
        out.deep_view() == cidr_items(ranges.deep_view()),
{
    let out = make_indented("- ", ranges);
    assert(out.deep_view() =~= cidr_items(ranges.deep_view()));
    out
}

fn port_lines(port: &PortSelector) -> (out: Vec<String>)
    ensures
        out.deep_view() == port_body(port@),
{
    let mut out: Vec<String> = Vec::new();
    push_value(&mut out, "port: ", &port.port, true);
    push_value(&mut out, "protocol: ", &port.protocol, false);
    assert(out.deep_view() =~= port_body(port@));
    out
}

fn port_list_lines(ports: &Vec<PortSelector>) -> (out: Vec<String>)
    ensures
        out.deep_view() == port_items(ports.deep_view()),
{
    let mut out: Vec<String> = Vec::new();
    let ghost all = ports.deep_view();
    let mut i: usize = 0;
    while i < ports.len()
        invariant
            i <= ports.len(),
            all == ports.deep_view(),
            out.deep_view() == port_items(all.take(i as int)),
        decreases ports.len() - i,
    {
        proof {
            assert(all.take(i + 1).drop_last() =~= all.take(i as int));
        }
        let body = port_lines(&ports[i]);
        extend_lines(&mut out, make_item(&body));
        i = i + 1;
    }
    assert(all.take(i as int) =~= all);
    out
}

fn port_rule_lines(rule: &PortRule) -> (out: Vec<String>)
    ensures
        out.deep_view() == port_rule_body(rule@),
{
    let mut out: Vec<String> = Vec::new();
    match &rule.ports {
        Some(ports) => {
            push_text(&mut out, "ports:");
            extend_lines(&mut out, port_list_lines(ports));
            assert(out.deep_view() =~= port_rule_body(rule@));
        },
        None => {
            assert(out.deep_view() =~= port_rule_body(rule@));
        },
    }
    out
}

fn port_rule_list_lines(rules: &Vec<PortRule>) -> (out: Vec<String>)
    ensures
        out.deep_view() == port_rule_items(rules.deep_view()),
{
    let mut out: Vec<String> = Vec::new();
    let ghost all = rules.deep_view();
    let mut i: usize = 0;
    while i < rules.len()
        invariant
            i <= rules.len(),
            all == rules.deep_view(),
            out.deep_view() == port_rule_items(all.take(i as int)),
        decreases rules.len() - i,
    {
        proof {
            assert(all.take(i + 1).drop_last() =~= all.take(i as int));
        }
        let body = port_rule_lines(&rules[i]);
        extend_lines(&mut out, make_item(&body));
        i = i + 1;
    }
    assert(all.take(i as int) =~= all);
    out
}

fn block_lines(block: &EgressBlock) -> (out: Vec<String>)
    ensures
        out.deep_view() == block_body(block@),
{
    let mut out: Vec<String> = Vec::new();
    let ghost empty = Seq::<Seq<char>>::empty();
    match &block.to_endpoints {
        Some(selectors) => {
            push_text(&mut out, "toEndpoints:");
            extend_lines(&mut out, selector_list_lines(selectors));
        },
        None => {},
    }
    let ghost part1 = out.deep_view();
    match &block.to_fqdns {
        Some(matchers) => {
            push_text(&mut out, "toFQDNs:");
            extend_lines(&mut out, matcher_list_lines(matchers));
        },
        None => {},
    }
    let ghost part2 = out.deep_view();
    match &block.to_cidr {
        Some(ranges) => {
            push_text(&mut out, "toCIDR:");
            extend_lines(&mut out, cidr_lines(ranges));
        },
        None => {},
    }
    let ghost part3 = out.deep_view();
    match &block.to_ports {
        Some(rules) => {
            push_text(&mut out, "toPorts:");
            extend_lines(&mut out, port_rule_list_lines(rules));
        },
        None => {},
    }
    proof {
        let view = block@;
        let s1 = match view.to_endpoints {
            Some(selectors) => seq!["toEndpoints:"@] + selector_items(selectors),
            None => empty,
        };
        let s2 = match view.to_fqdns {
            Some(matchers) => seq!["toFQDNs:"@] + matcher_items(matchers),
            None => empty,
        };
        let s3 = match view.to_cidr {
            Some(ranges) => seq!["toCIDR:"@] + cidr_items(ranges),
            None => empty,
        };
        let s4 = match view.to_ports {
            Some(rules) => seq!["toPorts:"@] + port_rule_items(rules),
            None => empty,
        };
        assert(part1 =~= s1);
        assert(part2 =~= s1 + s2);
        assert(part3 =~= s1 + s2 + s3);
        assert(out.deep_view() =~= s1 + s2 + s3 + s4);
    }
    out
}

fn block_list_lines(blocks: &Vec<EgressBlock>) -> (out: Vec<String>)
    ensures
        out.deep_view() == block_items(blocks.deep_view()),
{
    let mut out: Vec<String> = Vec::new();
    let ghost all = blocks.deep_view();
    let mut i: usize = 0;
    while i < blocks.len()
        invariant
            i <= blocks.len(),
            all == blocks.deep_view(),
            out.deep_view() == block_items(all.take(i as int)),
        decreases blocks.len() - i,
    {
        proof {
            assert(all.take(i + 1).drop_last() =~= all.take(i as int));
        }
        let body = block_lines(&blocks[i]);
        extend_lines(&mut out, make_item(&body));
        i = i + 1;
    }
    assert(all.take(i as int) =~= all);
    out
}

/// Joins lines by line feeds.
pub fn join(lines: &Vec<String>) -> (text: String)
    ensures
        text@ == join_lines(lines.deep_view()),
{
    let mut text = String::new();
    let ghost all = lines.deep_view();
    let mut i: usize = 0;
    while i < lines.len()
        invariant
            i <= lines.len(),
            all == lines.deep_view(),
            text@ == join_lines(all.take(i as int)),
        decreases lines.len() - i,
    {
        proof {
            assert(all.take(i + 1).drop_last() =~= all.take(i as int));
            reveal_strlit("\n");
        }
        if i > 0 {
            text.append("\n");
            assert("\n"@ =~= seq!['\n']);
        }
        text.append(lines[i].as_str());
        i = i + 1;
    }
    assert(all.take(i as int) =~= all);
    text
}

/// Writes the lines of a manifest.
pub fn render_lines(manifest: &NetworkPolicyManifest) -> (lines: Vec<String>)
    ensures
        lines.deep_view() == manifest_lines(manifest@),
{
    let mut lines: Vec<String> = Vec::new();
    push_text(&mut lines, "apiVersion: cilium.io/v2");
    push_text(&mut lines, "kind: CiliumNetworkPolicy");
    push_text(&mut lines, "metadata:");
    push_line(&mut lines, joined("  name: ", manifest.name.as_str()));
    let ghost head = lines.deep_view();
    match &manifest.description {
        Some(description) => {
            push_text(&mut lines, "  annotations:");
            let mut line = String::from_str("    description: \"");
            line.append(description.as_str());
            line.append("\"");
            proof {
                reveal_strlit("    description: \"");
                reveal_strlit("    description: ");
                reveal_strlit("\"");
                assert("    description: \""@ =~= "    description: "@ + "\""@);
                assert(line@ =~= "    description: "@ + quoted(description@));
            }
            push_line(&mut lines, line);
        },
        None => {},
    }
    let ghost annotated = lines.deep_view();
    push_text(&mut lines, "spec:");
    push_text(&mut lines, "  endpointSelector:");
    push_text(&mut lines, "    matchLabels:");
    push_text(&mut lines, "      app: browser");
    push_text(&mut lines, "  egress:");
    let ghost fixed = lines.deep_view();
    let blocks = block_list_lines(&manifest.egress);
    extend_lines(&mut lines, make_indented("  ", &blocks));
    proof {
        let view = manifest@;
        let h = seq![
            "apiVersion: cilium.io/v2"@,
            "kind: CiliumNetworkPolicy"@,
            "metadata:"@,
            "  name: "@ + view.name,
        ];
        let a = match view.description {
            Some(description) => seq![
                "  annotations:"@,
                "    description: "@ + quoted(description),
            ],
            None => Seq::<Seq<char>>::empty(),
        };
        let f = seq![
            "spec:"@,
            "  endpointSelector:"@,
            "    matchLabels:"@,
            "      app: browser"@,
            "  egress:"@,
        ];
        assert(head =~= h);
        assert(annotated =~= h + a);
        assert(fixed =~= h + a + f);
        assert(lines.deep_view() =~= h + a + f + indented("  "@, block_items(view.egress)));
    }
    lines
}

/// Writes the text of a manifest.
pub fn render_manifest(manifest: &NetworkPolicyManifest) -> (text: String)
    ensures
        text@ == manifest_text(manifest@),
{
    let lines = render_lines(manifest);
    join(&lines)
}

/// Writes the text of the manifest that enforces `rule`: the head with the
/// rule's name and description, the DNS block, and the rule's own block.
pub fn generate_network_policy_yaml(rule: &TrafficRule) -> (text: String)
    ensures
        text@ == manifest_text(compiled(rule@)),
        text@ == join_lines(
            head_lines(rule@.name, rule@.description) + dns_lines() + rule_lines(rule@),
        ),
{
    proof {
        lemma_compiled_rule_layout(rule@);
    }
    let manifest = compile(rule);
    render_manifest(&manifest)
}

} // verus!
