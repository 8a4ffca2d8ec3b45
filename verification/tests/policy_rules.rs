use browser_sandbox::error::SandboxError;
use browser_sandbox::policy::compile::compile;
use browser_sandbox::policy::decompile::{
    decompile, describe_policy, determine_rule_type, extract_host, extract_port,
};
use browser_sandbox::policy::json::{decode_manifest, get_rule, list_rules, manifest_from_json};
use browser_sandbox::policy::manifest::{
    DomainMatcher, EgressBlock, EndpointSelector, Label, NetworkPolicyManifest, PortRule,
    PortSelector,
};
use browser_sandbox::policy::rule::{NetworkPolicyInfo, RuleType, TrafficRule};
use browser_sandbox::policy::yaml::{generate_network_policy_yaml, join, render_manifest};

fn rule(rule_type: RuleType, host: Option<&str>, port: Option<i32>) -> TrafficRule {
    TrafficRule {
        id: Some(7),
        name: "block-social-media".to_string(),
        description: "Bloquer les réseaux sociaux".to_string(),
        rule_type,
        host: host.map(|h| h.to_string()),
        port,
    }
}

fn ports(port: &str, protocol: &str) -> Option<Vec<PortRule>> {
    Some(vec![PortRule {
        ports: Some(vec![PortSelector {
            port: Some(port.to_string()),
            protocol: Some(protocol.to_string()),
        }]),
    }])
}

fn dns_block() -> EgressBlock {
    EgressBlock {
        to_endpoints: Some(vec![EndpointSelector {
            match_labels: vec![Label { key: "k8s-app".to_string(), value: "kube-dns".to_string() }],
        }]),
        to_fqdns: None,
        to_cidr: None,
        to_ports: ports("53", "UDP"),
    }
}

fn block_with_port_text(text: &str) -> EgressBlock {
    EgressBlock {
        to_endpoints: None,
        to_fqdns: None,
        to_cidr: Some(vec!["0.0.0.0/0".to_string()]),
        to_ports: ports(text, "TCP"),
    }
}

fn manifest(egress: Vec<EgressBlock>) -> NetworkPolicyManifest {
    NetworkPolicyManifest { name: "stored".to_string(), description: None, egress }
}

#[test]
fn rule_type_words() {
    assert_eq!(RuleType::Allow.as_text(), "allow");
    assert_eq!(RuleType::Deny.as_text(), "deny");
    assert_eq!(RuleType::from_text("deny"), RuleType::Deny);
    assert_eq!(RuleType::from_text("allow"), RuleType::Allow);
    assert_eq!(RuleType::from_text("Deny"), RuleType::Allow);
    assert_eq!(RuleType::from_text(""), RuleType::Allow);
}

#[test]
fn deny_rule_compiles_to_dns_and_domain_blocks() {
    let compiled = compile(&rule(RuleType::Deny, Some("facebook.com"), Some(443)));
    assert_eq!(compiled.name, "block-social-media");
    assert_eq!(compiled.description, Some("Bloquer les réseaux sociaux".to_string()));
    assert_eq!(compiled.egress.len(), 2);
    assert_eq!(compiled.egress[0], dns_block());
    assert_eq!(
        compiled.egress[1],
        EgressBlock {
            to_endpoints: None,
            to_fqdns: Some(vec![
                DomainMatcher {
                    match_name: None,
                    match_pattern: Some("*.facebook.com".to_string()),
                },
                DomainMatcher { match_name: Some("facebook.com".to_string()), match_pattern: None },
            ]),
            to_cidr: None,
            to_ports: ports("443", "TCP"),
        }
    );
}

#[test]
fn allow_rule_compiles_to_dns_and_open_cidr_blocks() {
    let compiled = compile(&rule(RuleType::Allow, Some("example.com"), Some(8080)));
    assert_eq!(compiled.egress.len(), 2);
    assert_eq!(compiled.egress[0], dns_block());
    assert_eq!(compiled.egress[1], block_with_port_text("8080"));
}

#[test]
fn allow_rule_without_host_still_opens_the_cidr() {
    let compiled = compile(&rule(RuleType::Allow, None, None));
    assert_eq!(compiled.egress.len(), 2);
    assert_eq!(
        compiled.egress[1],
        EgressBlock {
            to_endpoints: None,
            to_fqdns: None,
            to_cidr: Some(vec!["0.0.0.0/0".to_string()]),
            to_ports: None,
        }
    );
}

#[test]
fn deny_rule_without_port_has_no_port_list() {
    let compiled = compile(&rule(RuleType::Deny, Some("facebook.com"), None));
    assert_eq!(compiled.egress[1].to_ports, None);
}

#[test]
fn deny_round_trip_keeps_type_host_and_port() {
    for port in vec![1, 53, 443, 3000, 65535] {
        let written = rule(RuleType::Deny, Some("facebook.com"), Some(port));
        let back = decompile(&compile(&written), "fallback");
        assert_eq!(back.rule_type, RuleType::Deny);
        assert_eq!(back.host, Some("facebook.com".to_string()));
        assert_eq!(back.port, Some(port));
        assert_eq!(back.name, written.name);
        assert_eq!(back.description, written.description);
        assert_eq!(back.id, None);
    }
}

#[test]
fn deny_round_trip_keeps_a_host_that_looks_like_a_pattern() {
    let written = rule(RuleType::Deny, Some("*.example.com"), None);
    let back = decompile(&compile(&written), "fallback");
    assert_eq!(back.host, Some("*.example.com".to_string()));
    assert_eq!(back.port, None);
}

#[test]
fn allow_round_trip_keeps_type_and_port_and_drops_host() {
    let written = rule(RuleType::Allow, Some("example.com"), Some(443));
    let back = decompile(&compile(&written), "fallback");
    assert_eq!(back.rule_type, RuleType::Allow);
    assert_eq!(back.port, Some(443));
    assert_eq!(back.host, None);
}

#[test]
fn allow_round_trip_without_port_reads_no_port() {
    let back = decompile(&compile(&rule(RuleType::Allow, None, None)), "fallback");
    assert_eq!(back.rule_type, RuleType::Allow);
    assert_eq!(back.port, None);
    assert_eq!(back.host, None);
}

#[test]
fn deny_without_host_compiles_to_dns_only_and_reads_back_as_allow() {
    let compiled = compile(&rule(RuleType::Deny, None, Some(443)));
    assert_eq!(compiled.egress, vec![dns_block()]);
    let back = decompile(&compiled, "fallback");
    assert_eq!(back.rule_type, RuleType::Allow);
    assert_eq!(back.host, None);
    assert_eq!(back.port, Some(53));
}

#[test]
fn non_numeric_port_reads_as_absent() {
    for text in vec!["http", "", "44x3", "4 43", "-", "80/tcp"] {
        let stored = manifest(vec![dns_block(), block_with_port_text(text)]);
        assert_eq!(decompile(&stored, "fallback").port, None);
        assert_eq!(extract_port(&stored.egress[1]), None);
    }
}

#[test]
fn port_out_of_range_of_the_integer_reads_as_absent() {
    let stored = manifest(vec![dns_block(), block_with_port_text("99999999999")]);
    assert_eq!(decompile(&stored, "fallback").port, None);
}

#[test]
fn default_description_is_used_only_when_the_manifest_has_none() {
    let mut stored = manifest(vec![dns_block()]);
    assert_eq!(decompile(&stored, "Description de la règle").description, "Description de la règle");
    stored.description = Some("kept".to_string());
    assert_eq!(decompile(&stored, "Description de la règle").description, "kept");
    assert_eq!(describe_policy(&stored).description, Some("kept".to_string()));
    stored.description = None;
    assert_eq!(describe_policy(&stored).description, None);
}

fn domain_block(entries: Vec<(Option<&str>, Option<&str>)>) -> EgressBlock {
    EgressBlock {
        to_endpoints: None,
        to_fqdns: Some(
            entries
                .into_iter()
                .map(|(name, pattern)| DomainMatcher {
                    match_name: name.map(|n| n.to_string()),
                    match_pattern: pattern.map(|p| p.to_string()),
                })
                .collect(),
        ),
        to_cidr: None,
        to_ports: None,
    }
}

#[test]
fn host_prefers_the_exact_name() {
    let block = domain_block(vec![(None, Some("*.a.com")), (Some("b.com"), None)]);
    assert_eq!(extract_host(&block), Some("b.com".to_string()));
    let both = domain_block(vec![(Some("c.com"), Some("*.d.com"))]);
    assert_eq!(extract_host(&both), Some("c.com".to_string()));
}

#[test]
fn host_falls_back_to_the_pattern_without_its_wildcard() {
    let block = domain_block(vec![(None, None), (None, Some("*.a.com")), (None, Some("*.b.com"))]);
    assert_eq!(extract_host(&block), Some("a.com".to_string()));
    let doubled = domain_block(vec![(None, Some("*.*.a.com"))]);
    assert_eq!(extract_host(&doubled), Some("a.com".to_string()));
    let plain = domain_block(vec![(None, Some("a.com"))]);
    assert_eq!(extract_host(&plain), Some("a.com".to_string()));
}

#[test]
fn host_is_absent_without_matchers() {
    assert_eq!(extract_host(&domain_block(vec![])), None);
    assert_eq!(extract_host(&domain_block(vec![(None, None)])), None);
    assert_eq!(extract_host(&dns_block()), None);
}

#[test]
fn rule_block_is_index_one_when_it_matches_domains() {
    let stored = manifest(vec![
        domain_block(vec![(Some("zero.com"), None)]),
        domain_block(vec![(Some("one.com"), None)]),
        domain_block(vec![(Some("two.com"), None)]),
    ]);
    let back = decompile(&stored, "d");
    assert_eq!(back.rule_type, RuleType::Deny);
    assert_eq!(back.host, Some("one.com".to_string()));
}

#[test]
fn rule_block_falls_back_to_index_zero() {
    let old = manifest(vec![domain_block(vec![(Some("zero.com"), None)])]);
    let back = decompile(&old, "d");
    assert_eq!(back.rule_type, RuleType::Deny);
    assert_eq!(back.host, Some("zero.com".to_string()));

    let mixed = manifest(vec![
        domain_block(vec![(Some("zero.com"), None)]),
        block_with_port_text("8080"),
    ]);
    let back = decompile(&mixed, "d");
    assert_eq!(back.rule_type, RuleType::Deny);
    assert_eq!(back.host, Some("zero.com".to_string()));
    assert_eq!(back.port, None);
}

#[test]
fn blocks_past_index_one_are_never_read() {
    let stored = manifest(vec![
        dns_block(),
        block_with_port_text("8080"),
        domain_block(vec![(Some("two.com"), None)]),
    ]);
    let back = decompile(&stored, "d");
    assert_eq!(back.rule_type, RuleType::Allow);
    assert_eq!(back.host, None);
    assert_eq!(back.port, Some(8080));
}

#[test]
fn empty_manifest_reads_as_allow_without_host_or_port() {
    let stored = manifest(vec![]);
    let back = decompile(&stored, "d");
    assert_eq!(back.rule_type, RuleType::Allow);
    assert_eq!(back.host, None);
    assert_eq!(back.port, None);
    assert_eq!(determine_rule_type(&stored), RuleType::Allow);
}

#[test]
fn empty_domain_list_is_no_domain_match() {
    let stored = manifest(vec![dns_block(), domain_block(vec![])]);
    assert_eq!(determine_rule_type(&stored), RuleType::Allow);
}

#[test]
fn describe_policy_reads_the_same_rule() {
    let compiled = compile(&rule(RuleType::Deny, Some("facebook.com"), Some(443)));
    assert_eq!(
        describe_policy(&compiled),
        NetworkPolicyInfo {
            name: "block-social-media".to_string(),
            description: Some("Bloquer les réseaux sociaux".to_string()),
            rule_type: RuleType::Deny,
            host: Some("facebook.com".to_string()),
            port: Some(443),
        }
    );
}

#[test]
fn deny_rule_text() {
    let text = generate_network_policy_yaml(&rule(RuleType::Deny, Some("facebook.com"), Some(443)));
    let expected = vec![
        "apiVersion: cilium.io/v2",
        "kind: CiliumNetworkPolicy",
        "metadata:",
        "  name: block-social-media",
        "  annotations:",
        "    description: \"Bloquer les réseaux sociaux\"",
        "spec:",
        "  endpointSelector:",
        "    matchLabels:",
        "      app: browser",
        "  egress:",
        "  - toEndpoints:",
        "    - matchLabels:",
        "        k8s-app: kube-dns",
        "    toPorts:",
        "    - ports:",
        "      - port: \"53\"",
        "        protocol: UDP",
        "  - toFQDNs:",
        "    - matchPattern: \"*.facebook.com\"",
        "    - matchName: \"facebook.com\"",
        "    toPorts:",
        "    - ports:",
        "      - port: \"443\"",
        "        protocol: TCP",
    ]
    .join("\n");
    assert_eq!(text, expected);
}

#[test]
fn allow_rule_text() {
    let text = generate_network_policy_yaml(&rule(RuleType::Allow, None, Some(80)));
    let expected = vec![
        "apiVersion: cilium.io/v2",
        "kind: CiliumNetworkPolicy",
        "metadata:",
        "  name: block-social-media",
        "  annotations:",
        "    description: \"Bloquer les réseaux sociaux\"",
        "spec:",
        "  endpointSelector:",
        "    matchLabels:",
        "      app: browser",
        "  egress:",
        "  - toEndpoints:",
        "    - matchLabels:",
        "        k8s-app: kube-dns",
        "    toPorts:",
        "    - ports:",
        "      - port: \"53\"",
        "        protocol: UDP",
        "  - toCIDR:",
        "    - 0.0.0.0/0",
        "    toPorts:",
        "    - ports:",
        "      - port: \"80\"",
        "        protocol: TCP",
    ]
    .join("\n");
    assert_eq!(text, expected);
}

#[test]
fn deny_without_host_text_ends_with_the_dns_block() {
    let text = generate_network_policy_yaml(&rule(RuleType::Deny, None, Some(80)));
    assert!(text.ends_with("      - port: \"53\"\n        protocol: UDP"));
    assert_eq!(text.lines().count(), 18);
}

#[test]
fn manifest_without_description_or_blocks_text() {
    let text = render_manifest(&manifest(vec![]));
    let expected = vec![
        "apiVersion: cilium.io/v2",
        "kind: CiliumNetworkPolicy",
        "metadata:",
        "  name: stored",
        "spec:",
        "  endpointSelector:",
        "    matchLabels:",
        "      app: browser",
        "  egress:",
    ]
    .join("\n");
    assert_eq!(text, expected);
}

#[test]
fn empty_entries_are_written_as_empty_maps() {
    let empty_block =
        EgressBlock { to_endpoints: None, to_fqdns: None, to_cidr: None, to_ports: None };
    let odd = EgressBlock {
        to_endpoints: Some(vec![EndpointSelector { match_labels: vec![] }]),
        to_fqdns: Some(vec![
            DomainMatcher { match_name: None, match_pattern: None },
            DomainMatcher {
                match_name: Some("a.com".to_string()),
                match_pattern: Some("*.a.com".to_string()),
            },
        ]),
        to_cidr: Some(vec![]),
        to_ports: Some(vec![
            PortRule { ports: None },
            PortRule { ports: Some(vec![PortSelector { port: None, protocol: None }]) },
        ]),
    };
    let text = render_manifest(&manifest(vec![empty_block, odd]));
    let tail = vec![
        "  egress:",
        "  - {}",
        "  - toEndpoints:",
        "    - matchLabels:",
        "    toFQDNs:",
        "    - {}",
        "    - matchName: \"a.com\"",
        "      matchPattern: \"*.a.com\"",
        "    toCIDR:",
        "    toPorts:",
        "    - {}",
        "    - ports:",
        "      - {}",
    ]
    .join("\n");
    assert!(text.ends_with(tail.as_str()));
}

#[test]
fn lines_are_joined_by_line_feeds() {
    assert_eq!(join(&vec![]), "");
    assert_eq!(join(&vec!["a".to_string()]), "a");
    assert_eq!(join(&vec!["a".to_string(), "".to_string(), "b".to_string()]), "a\n\nb");
}

const STORED_DENY: &str = r#"{
  "apiVersion": "cilium.io/v2",
  "kind": "CiliumNetworkPolicy",
  "metadata": {
    "name": "block-social-media",
    "annotations": { "description": "Bloquer les réseaux sociaux" }
  },
  "spec": {
    "endpointSelector": { "matchLabels": { "app": "browser" } },
    "egress": [
      {
        "toEndpoints": [ { "matchLabels": { "k8s-app": "kube-dns" } } ],
        "toPorts": [ { "ports": [ { "port": "53", "protocol": "UDP" } ] } ]
      },
      {
        "toFQDNs": [ { "matchPattern": "*.facebook.com" }, { "matchName": "facebook.com" } ],
        "toPorts": [ { "ports": [ { "port": "443", "protocol": "TCP" } ] } ]
      }
    ]
  }
}"#;

#[test]
fn stored_policy_decodes_to_the_compiled_manifest() {
    let decoded = decode_manifest("block-social-media", STORED_DENY);
    let compiled = compile(&rule(RuleType::Deny, Some("facebook.com"), Some(443)));
    assert_eq!(decoded, Ok(compiled));
}

#[test]
fn stored_policy_reads_back_as_its_rule() {
    let back = get_rule("block-social-media", STORED_DENY, "fallback");
    assert_eq!(
        back,
        Ok(TrafficRule {
            id: None,
            name: "block-social-media".to_string(),
            description: "Bloquer les réseaux sociaux".to_string(),
            rule_type: RuleType::Deny,
            host: Some("facebook.com".to_string()),
            port: Some(443),
        })
    );
}

#[test]
fn text_that_is_no_json_is_a_decode_error() {
    for text in vec!["", "{", "apiVersion: cilium.io/v2", "{\"spec\": }"] {
        assert!(matches!(decode_manifest("x", text), Err(SandboxError::Decode(_))));
        assert!(matches!(get_rule("x", text, "d"), Err(SandboxError::Decode(_))));
    }
}

#[test]
fn json_without_the_fields_of_a_manifest_decodes_to_an_empty_one() {
    for text in vec!["{}", "null", "[]", "3", "{\"spec\": {\"egress\": 5}}", "{\"spec\": []}"] {
        assert_eq!(
            decode_manifest("x", text),
            Ok(NetworkPolicyManifest { name: "x".to_string(), description: None, egress: vec![] })
        );
    }
}

#[test]
fn values_of_the_wrong_kind_count_as_absent() {
    let text = r#"{
      "metadata": { "annotations": { "description": 12 } },
      "spec": { "egress": [
        { "toFQDNs": "facebook.com", "toCIDR": ["10.0.0.0/8", 7, "0.0.0.0/0"],
          "toPorts": [ { "ports": [ { "port": 443, "protocol": "TCP" } ] }, { "ports": {} } ],
          "toEndpoints": [ { "matchLabels": { "a": "1", "b": 2, "c": "3" } }, {}, 5 ] },
        "not a block"
      ] }
    }"#;
    let decoded = decode_manifest("odd", text).unwrap();
    assert_eq!(decoded.description, None);
    assert_eq!(decoded.egress.len(), 2);
    let first = &decoded.egress[0];
    assert_eq!(first.to_fqdns, None);
    assert_eq!(first.to_cidr, Some(vec!["10.0.0.0/8".to_string(), "0.0.0.0/0".to_string()]));
    assert_eq!(
        first.to_ports,
        Some(vec![
            PortRule {
                ports: Some(vec![PortSelector { port: None, protocol: Some("TCP".to_string()) }]),
            },
            PortRule { ports: None },
        ])
    );
    assert_eq!(
        first.to_endpoints,
        Some(vec![
            EndpointSelector {
                match_labels: vec![
                    Label { key: "a".to_string(), value: "1".to_string() },
                    Label { key: "c".to_string(), value: "3".to_string() },
                ],
            },
            EndpointSelector { match_labels: vec![] },
            EndpointSelector { match_labels: vec![] },
        ])
    );
    assert_eq!(
        decoded.egress[1],
        EgressBlock { to_endpoints: None, to_fqdns: None, to_cidr: None, to_ports: None }
    );
    assert_eq!(decompile(&decoded, "d").port, None);
}

#[test]
fn parsed_document_is_read_without_its_own_name() {
    let document = serde_json::from_str::<serde_json::Value>(STORED_DENY).unwrap();
    let read = manifest_from_json("asked-for", &document);
    assert_eq!(read.name, "asked-for");
    assert_eq!(read.egress.len(), 2);
}

#[test]
fn listing_passes_over_what_is_no_json() {
    let policies = vec![
        ("first".to_string(), STORED_DENY.to_string()),
        ("broken".to_string(), "{".to_string()),
        ("bare".to_string(), "{}".to_string()),
    ];
    let listed = list_rules(&policies);
    assert_eq!(
        listed,
        vec![
            NetworkPolicyInfo {
                name: "first".to_string(),
                description: Some("Bloquer les réseaux sociaux".to_string()),
                rule_type: RuleType::Deny,
                host: Some("facebook.com".to_string()),
                port: Some(443),
            },
            NetworkPolicyInfo {
                name: "bare".to_string(),
                description: None,
                rule_type: RuleType::Allow,
                host: None,
                port: None,
            },
        ]
    );
}

#[test]
fn listing_of_no_policies_is_empty() {
    assert_eq!(list_rules(&vec![]), vec![]);
}
