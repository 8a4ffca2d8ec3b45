//! Reading a manifest from the JSON text in which the cluster hands it out.
//!
//! The text is parsed by `serde_json`. A parsed value is opaque here; what
//! it holds is a [`JsonView`], and each accessor of `serde_json::Value` that
//! the decoder calls is trusted to answer by what the value holds. The
//! decoder itself, which walks from the document to the manifest's fields,
//! is verified against that.

use crate::error::SandboxError;
use crate::policy::decompile::{decompile, decompiled, describe_policy, described};
use crate::policy::manifest::{
    DomainMatcher, DomainMatcherView, EgressBlock, EgressBlockView, EndpointSelector,
    EndpointSelectorView, Label, LabelView, NetworkPolicyManifest, NetworkPolicyManifestView,
    PortRule, PortRuleView, PortSelector, PortSelectorView,
};
use crate::policy::rule::{NetworkPolicyInfo, NetworkPolicyInfoView, TrafficRule};
use vstd::prelude::*;
use vstd::string::*;

verus! {

/// A JSON value of `serde_json`.
#[verifier::external_type_specification]
#[verifier::external_body]
pub struct ExJsonValue(serde_json::Value);

/// The error of `serde_json`.
#[verifier::external_type_specification]
#[verifier::external_body]
pub struct ExJsonError(serde_json::Error);

/// What a JSON value holds.
pub enum JsonView {
    Null,
    Bool(bool),
    /// A number. The library reads none, so its value is not held.
    Number,
    Text(Seq<char>),
    Array(Seq<JsonView>),
    /// The members with their keys, in the order in which the value hands
    /// them out.
    Object(Seq<(Seq<char>, JsonView)>),
}

/// What a `serde_json::Value` holds.
pub uninterp spec fn json_content(value: serde_json::Value) -> JsonView;

/// What `serde_json::from_str` reads from a text, if it reads a value.
pub uninterp spec fn json_document(text: Seq<char>) -> Option<JsonView>;

/// What the values of a list hold, one by one.
pub open spec fn json_contents(values: Seq<serde_json::Value>) -> Seq<JsonView> {
    Seq::new(values.len(), |i: int| json_content(values[i]))
}

/// The member under a key among the entries of an object.
pub open spec fn entry_of(entries: Seq<(Seq<char>, JsonView)>, key: Seq<char>) -> Option<JsonView>
    decreases entries.len(),
{
    if entries.len() == 0 {
        None
    } else if entries[0].0 == key {
        Some(entries[0].1)
    } else {
        entry_of(entries.skip(1), key)
    }
}

/// The member under a key, if the value is an object that has it.
pub open spec fn member_of(value: JsonView, key: Seq<char>) -> Option<JsonView> {
    match value {
        JsonView::Object(entries) => entry_of(entries, key),
        _ => None,
    }
}

/// The elements, if the value is an array.
pub open spec fn elements_of(value: JsonView) -> Option<Seq<JsonView>> {
    match value {
        JsonView::Array(elements) => Some(elements),
        _ => None,
    }
}

/// The text, if the value is a string.
pub open spec fn text_of(value: JsonView) -> Option<Seq<char>> {
    match value {
        JsonView::Text(text) => Some(text),
        _ => None,
    }
}

/// The entries, if the value is an object.
pub open spec fn entries_of(value: JsonView) -> Option<Seq<(Seq<char>, JsonView)>> {
    match value {
        JsonView::Object(entries) => Some(entries),
        _ => None,
    }
}

/// Calls `serde_json::from_str` for a `serde_json::Value`. The contract
/// claims that the outcome is a function of the text, and names it.
#[verifier::external_body]
fn json_parse(text: &str) -> (parsed: Result<serde_json::Value, serde_json::Error>)
    ensures
        match parsed {
            Ok(value) => json_document(text@) == Some(json_content(value)),
            Err(_) => json_document(text@) is None,
        },
{
    serde_json::from_str::<serde_json::Value>(text)
}

/// Calls `serde_json::Value::get` with a key. The contract claims that it
/// finds the member of that key where the value is an object that has it,
/// and nothing otherwise.
#[verifier::external_body]
fn json_get<'a>(value: &'a serde_json::Value, key: &str) -> (member: Option<
    &'a serde_json::Value,
>)
    ensures
        match member {
            Some(found) => member_of(json_content(*value), key@) == Some(json_content(*found)),
            None => member_of(json_content(*value), key@) is None,
        },
{
    value.get(key)
}

/// Calls `serde_json::Value::as_array`. The contract claims that it gives
/// the elements where the value is an array, and nothing otherwise.
#[verifier::external_body]
fn json_array<'a>(value: &'a serde_json::Value) -> (elements: Option<&'a Vec<serde_json::Value>>)
    ensures
        match elements {
            Some(list) => elements_of(json_content(*value)) == Some(json_contents(list@)),
            None => elements_of(json_content(*value)) is None,
        },
{
    value.as_array()
}

/// Calls `serde_json::Value::as_str`. The contract claims that it gives the
/// text where the value is a string, and nothing otherwise.
#[verifier::external_body]
fn json_str<'a>(value: &'a serde_json::Value) -> (text: Option<&'a str>)
    ensures
        match text {
            Some(found) => text_of(json_content(*value)) == Some(found@),
            None => text_of(json_content(*value)) is None,
        },
{
    value.as_str()
}

/// Calls `serde_json::Value::as_object` and hands the map's entries out as
/// it iterates them. The contract claims that these are the entries where
/// the value is an object, and that there is nothing otherwise.
#[verifier::external_body]
fn json_object<'a>(value: &'a serde_json::Value) -> (entries: Option<
    Vec<(String, &'a serde_json::Value)>,
>)
    ensures
        match entries {
            Some(list) => entries_of(json_content(*value)) == Some(
                Seq::new(list@.len(), |i: int| (list@[i].0@, json_content(*list@[i].1))),
            ),
            None => entries_of(json_content(*value)) is None,
        },
{
    value.as_object().map(|map| map.iter().map(|(key, member)| (key.clone(), member)).collect())
}

/// Writes a `serde_json::Error` out with its `Display`. Nothing is claimed
/// of the words.
#[verifier::external_body]
fn json_error_text(error: &serde_json::Error) -> (text: String) {
    format!("{}", error)
}

/// The text under a key of an object, if there is one.
pub open spec fn text_member(value: JsonView, key: Seq<char>) -> Option<Seq<char>> {
    match member_of(value, key) {
        Some(member) => text_of(member),
        None => None,
    }
}

/// The elements of the array under a key of an object, if there is one.
pub open spec fn list_member(value: JsonView, key: Seq<char>) -> Option<Seq<JsonView>> {
    match member_of(value, key) {
        Some(member) => elements_of(member),
        None => None,
    }
}

/// The labels among the entries of an object: those whose value is a text.
pub open spec fn labels_of(entries: Seq<(Seq<char>, JsonView)>) -> Seq<LabelView>
    decreases entries.len(),
{
    if entries.len() == 0 {
        Seq::empty()
    } else {
        let before = labels_of(entries.drop_last());
        match text_of(entries.last().1) {
            Some(value) => before.push(LabelView { key: entries.last().0, value }),
            None => before,
        }
    }
}

/// The selector that a value describes: the labels under `matchLabels`.
pub open spec fn selector_of(value: JsonView) -> EndpointSelectorView {
    EndpointSelectorView {
        match_labels: match member_of(value, "matchLabels"@) {
            Some(labels) => match entries_of(labels) {
                Some(entries) => labels_of(entries),
                None => Seq::empty(),
            },
            None => Seq::empty(),
        },
    }
}

/// The selectors that the elements of an array describe.
pub open spec fn selectors_of(values: Seq<JsonView>) -> Seq<EndpointSelectorView> {
    Seq::new(values.len(), |i: int| selector_of(values[i]))
}

/// The domain matcher that a value describes.
pub open spec fn matcher_of(value: JsonView) -> DomainMatcherView {
    DomainMatcherView {
        match_name: text_member(value, "matchName"@),
        match_pattern: text_member(value, "matchPattern"@),
    }
}

/// The domain matchers that the elements of an array describe.
pub open spec fn matchers_of(values: Seq<JsonView>) -> Seq<DomainMatcherView> {
    Seq::new(values.len(), |i: int| matcher_of(values[i]))
}

/// The port that a value describes. A port that is not written as a text
/// counts as absent.
pub open spec fn port_selector_of(value: JsonView) -> PortSelectorView {
    PortSelectorView {
        port: text_member(value, "port"@),
        protocol: text_member(value, "protocol"@),
    }
}

/// The ports that the elements of an array describe.
pub open spec fn port_selectors_of(values: Seq<JsonView>) -> Seq<PortSelectorView> {
    Seq::new(values.len(), |i: int| port_selector_of(values[i]))
}

/// The port rule that a value describes.
pub open spec fn port_rule_of(value: JsonView) -> PortRuleView {
    PortRuleView {
        ports: match list_member(value, "ports"@) {
            Some(ports) => Some(port_selectors_of(ports)),
            None => None,
        },
    }
}

/// The port rules that the elements of an array describe.
pub open spec fn port_rules_of(values: Seq<JsonView>) -> Seq<PortRuleView> {
    Seq::new(values.len(), |i: int| port_rule_of(values[i]))
}

/// The texts among the elements of an array.
pub open spec fn texts_of(elements: Seq<JsonView>) -> Seq<Seq<char>>
    decreases elements.len(),
{
    if elements.len() == 0 {
        Seq::empty()
    } else {
        let before = texts_of(elements.drop_last());
        match text_of(elements.last()) {
            Some(text) => before.push(text),
            None => before,
        }
    }
}

/// The egress block that a value describes. A key whose value is no array
/// counts as absent.
pub open spec fn block_of(value: JsonView) -> EgressBlockView {
    EgressBlockView {
        to_endpoints: match list_member(value, "toEndpoints"@) {
            Some(selectors) => Some(
                selectors_of(selectors),
            ),
            None => None,
        },
        to_fqdns: match list_member(value, "toFQDNs"@) {
            Some(matchers) => Some(matchers_of(matchers)),
            None => None,
        },
        to_cidr: match list_member(value, "toCIDR"@) {
            Some(ranges) => Some(texts_of(ranges)),
            None => None,
        },
        to_ports: match list_member(value, "toPorts"@) {
            Some(rules) => Some(port_rules_of(rules)),
            None => None,
        },
    }
}

/// The egress blocks that the elements of an array describe.
pub open spec fn blocks_of(values: Seq<JsonView>) -> Seq<EgressBlockView> {
    Seq::new(values.len(), |i: int| block_of(values[i]))
}

/// The description of a document: the text at
/// `metadata.annotations.description`.
pub open spec fn description_of(document: JsonView) -> Option<Seq<char>> {
    match member_of(document, "metadata"@) {
        Some(metadata) => match member_of(metadata, "annotations"@) {
            Some(annotations) => text_member(annotations, "description"@),
            None => None,
        },
        None => None,
    }
}

/// The egress blocks of a document: the elements of the array at
/// `spec.egress`, or none where there is no such array.
pub open spec fn egress_of(document: JsonView) -> Seq<EgressBlockView> {
    match member_of(document, "spec"@) {
        Some(spec) => match list_member(spec, "egress"@) {
            Some(blocks) => blocks_of(blocks),
            None => Seq::empty(),
        },
        None => Seq::empty(),
    }
}

/// The manifest that a document describes, under the name by which the
/// policy was asked for.
pub open spec fn manifest_of(name: Seq<char>, document: JsonView) -> NetworkPolicyManifestView {
    NetworkPolicyManifestView {
        name,
        description: description_of(document),
        egress: egress_of(document),
    }
}

fn read_text(value: &serde_json::Value, key: &str) -> (text: Option<String>)
    ensures
        text.deep_view() == text_member(json_content(*value), key@),
{
    match json_get(value, key) {
        Some(member) => match json_str(member) {
            Some(text) => Some(String::from_str(text)),
            None => None,
        },
        None => None,
    }
}

fn read_list<'a>(value: &'a serde_json::Value, key: &str) -> (list: Option<
    &'a Vec<serde_json::Value>,
>)
    ensures
        match list {
            Some(elements) => list_member(json_content(*value), key@) == Some(
                json_contents(elements@),
            ),
            None => list_member(json_content(*value), key@) is None,
        },
{
    match json_get(value, key) {
        Some(member) => json_array(member),
        None => None,
    }
}

fn read_selector(value: &serde_json::Value) -> (selector: EndpointSelector)
    ensures
        selector@ == selector_of(json_content(*value)),
{
    let mut labels: Vec<Label> = Vec::new();
    match json_get(value, "matchLabels") {
        Some(member) => match json_object(member) {
            Some(entries) => {
                let ghost all = Seq::new(
                    entries@.len(),
                    |i: int| (entries@[i].0@, json_content(*entries@[i].1)),
                );
                let mut i: usize = 0;
                assert(labels.deep_view() =~= labels_of(all.take(0)));
                while i < entries.len()
                    invariant
                        i <= entries.len(),
                        all == Seq::new(
                            entries@.len(),
                            |i: int| (entries@[i].0@, json_content(*entries@[i].1)),
                        ),
                        labels.deep_view() == labels_of(all.take(i as int)),
                    decreases entries.len() - i,
                {
                    proof {
                        assert(all.take(i + 1).drop_last() =~= all.take(i as int));
                    }
                    let ghost before = labels.deep_view();
                    match json_str(entries[i].1) {
                        Some(text) => {
                            labels.push(
                                Label { key: entries[i].0.clone(), value: String::from_str(text) },
                            );
                            assert(labels.deep_view() =~= before.push(
                                LabelView { key: entries[i as int].0@, value: text@ },
                            ));
                        },
                        None => {},
                    }
                    i = i + 1;
                }
                assert(all.take(i as int) =~= all);
            },
            None => {
                assert(labels.deep_view() =~= Seq::<LabelView>::empty());
            },
        },
        None => {
            assert(labels.deep_view() =~= Seq::<LabelView>::empty());
        },
    }
    EndpointSelector { match_labels: labels }
}

fn read_selectors(list: &Vec<serde_json::Value>) -> (selectors: Vec<EndpointSelector>)
    ensures
        selectors.deep_view() == selectors_of(json_contents(list@)),
{
    let mut selectors: Vec<EndpointSelector> = Vec::new();
    let mut i: usize = 0;
    while i < list.len()
        invariant
            i <= list.len(),
            selectors.len() == i,
            forall|j: int|
                0 <= j < i ==> (#[trigger] selectors[j])@ == selector_of(json_content(list@[j])),
        decreases list.len() - i,
    {
        selectors.push(read_selector(&list[i]));
        i = i + 1;
    }
    assert(selectors.deep_view() =~= selectors_of(json_contents(list@)));
    selectors
}

fn read_matchers(list: &Vec<serde_json::Value>) -> (matchers: Vec<DomainMatcher>)
    ensures
        matchers.deep_view() == matchers_of(json_contents(list@)),
{
    let mut matchers: Vec<DomainMatcher> = Vec::new();
    let mut i: usize = 0;
    while i < list.len()
        invariant
            i <= list.len(),
            matchers.len() == i,
            forall|j: int|
                0 <= j < i ==> (#[trigger] matchers[j])@ == matcher_of(json_content(list@[j])),
        decreases list.len() - i,
    {
        matchers.push(
            DomainMatcher {
                match_name: read_text(&list[i], "matchName"),
                match_pattern: read_text(&list[i], "matchPattern"),
            },
        );
        i = i + 1;
    }
    assert(matchers.deep_view() =~= matchers_of(json_contents(list@)));
    matchers
}

fn read_texts(list: &Vec<serde_json::Value>) -> (texts: Vec<String>)
    ensures
        texts.deep_view() == texts_of(json_contents(list@)),
{
    let mut texts: Vec<String> = Vec::new();
    let mut i: usize = 0;
    let ghost all = json_contents(list@);
    assert(texts.deep_view() =~= texts_of(all.take(0)));
    while i < list.len()
        invariant
            i <= list.len(),
            all == json_contents(list@),
            texts.deep_view() == texts_of(all.take(i as int)),
        decreases list.len() - i,
    {
        proof {
            assert(all.take(i + 1).drop_last() =~= all.take(i as int));
        }
        let ghost before = texts.deep_view();
        match json_str(&list[i]) {
            Some(text) => {
                texts.push(String::from_str(text));
                assert(texts.deep_view() =~= before.push(text@));
            },
            None => {},
        }
        i = i + 1;
    }
    assert(all.take(i as int) =~= all);
    texts
}

fn read_port_selectors(list: &Vec<serde_json::Value>) -> (ports: Vec<PortSelector>)
    ensures
        ports.deep_view() == port_selectors_of(json_contents(list@)),
{
    let mut ports: Vec<PortSelector> = Vec::new();
    let mut i: usize = 0;
    while i < list.len()
        invariant
            i <= list.len(),
            ports.len() == i,
            forall|j: int|
                0 <= j < i ==> (#[trigger] ports[j])@ == port_selector_of(json_content(list@[j])),
        decreases list.len() - i,
    {
        ports.push(
            PortSelector {
                port: read_text(&list[i], "port"),
                protocol: read_text(&list[i], "protocol"),
            },
        );
        i = i + 1;
    }
    assert(ports.deep_view() =~= port_selectors_of(json_contents(list@)));
    ports
}

fn read_port_rules(list: &Vec<serde_json::Value>) -> (rules: Vec<PortRule>)
    ensures
        rules.deep_view() == port_rules_of(json_contents(list@)),
{
    let mut rules: Vec<PortRule> = Vec::new();
    let mut i: usize = 0;
    while i < list.len()
        invariant
            i <= list.len(),
            rules.len() == i,
            forall|j: int|
                0 <= j < i ==> (#[trigger] rules[j])@ == port_rule_of(json_content(list@[j])),
        decreases list.len() - i,
    {
        let ports = match read_list(&list[i], "ports") {
            Some(ports) => Some(read_port_selectors(ports)),
            None => None,
        };
        rules.push(PortRule { ports });
        i = i + 1;
    }
    assert(rules.deep_view() =~= port_rules_of(json_contents(list@)));
    rules
}

fn read_block(value: &serde_json::Value) -> (block: EgressBlock)
    ensures
        block@ == block_of(json_content(*value)),
{
    EgressBlock {
        to_endpoints: match read_list(value, "toEndpoints") {
            Some(list) => Some(read_selectors(list)),
            None => None,
        },
        to_fqdns: match read_list(value, "toFQDNs") {
            Some(list) => Some(read_matchers(list)),
            None => None,
        },
        to_cidr: match read_list(value, "toCIDR") {
            Some(list) => Some(read_texts(list)),
            None => None,
        },
        to_ports: match read_list(value, "toPorts") {
            Some(list) => Some(read_port_rules(list)),
            None => None,
        },
    }
}

fn read_description(document: &serde_json::Value) -> (description: Option<String>)
    ensures
        description.deep_view() == description_of(json_content(*document)),
{
    match json_get(document, "metadata") {
        Some(metadata) => match json_get(metadata, "annotations") {
            Some(annotations) => read_text(annotations, "description"),
            None => None,
        },
        None => None,
    }
}

fn read_egress(document: &serde_json::Value) -> (egress: Vec<EgressBlock>)
    ensures
        egress.deep_view() == egress_of(json_content(*document)),
{
    let mut egress: Vec<EgressBlock> = Vec::new();
    match json_get(document, "spec") {
        Some(spec) => match read_list(spec, "egress") {
            Some(list) => {
                let mut i: usize = 0;
                while i < list.len()
                    invariant
                        i <= list.len(),
                        egress.len() == i,
                        forall|j: int|
                            0 <= j < i ==> (#[trigger] egress[j])@ == block_of(json_content(list@[j])),
                    decreases list.len() - i,
                {
                    egress.push(read_block(&list[i]));
                    i = i + 1;
                }
                assert(egress.deep_view() =~= blocks_of(json_contents(list@)));
            },
            None => {
                assert(egress.deep_view() =~= Seq::<EgressBlockView>::empty());
            },
        },
        None => {
            assert(egress.deep_view() =~= Seq::<EgressBlockView>::empty());
        },
    }
    egress
}

/// Reads the manifest that a parsed document describes. Whatever the
/// document lacks is absent from the manifest; no document is refused.
pub fn manifest_from_json(name: &str, document: &serde_json::Value) -> (manifest:
    NetworkPolicyManifest)
    ensures
        manifest@ == manifest_of(name@, json_content(*document)),
{
    NetworkPolicyManifest {
        name: String::from_str(name),
        description: read_description(document),
        egress: read_egress(document),
    }
}

/// Reads a manifest from its JSON text. A text that is no JSON gives a
/// decode error, and only such a text does.
pub fn decode_manifest(name: &str, text: &str) -> (decoded: Result<
    NetworkPolicyManifest,
    SandboxError,
>)
    ensures
        match json_document(text@) {
            Some(document) => decoded is Ok && decoded->Ok_0@ == manifest_of(name@, document),
            None => decoded is Err && decoded->Err_0@ is Decode,
        },
{
    match json_parse(text) {
        Ok(document) => Ok(manifest_from_json(name, &document)),
        Err(error) => Err(SandboxError::Decode(json_error_text(&error))),
    }
}

/// Reads the rule of a stored policy from its JSON text, with
/// `default_description` for a policy that carries no description.
pub fn get_rule(name: &str, text: &str, default_description: &str) -> (rule: Result<
    TrafficRule,
    SandboxError,
>)
    ensures
        match json_document(text@) {
            Some(document) => rule is Ok && rule->Ok_0@ == decompiled(
                manifest_of(name@, document),
                default_description@,
            ),
            None => rule is Err && rule->Err_0@ is Decode,
        },
{
    match decode_manifest(name, text) {
        Ok(manifest) => Ok(decompile(&manifest, default_description)),
        Err(error) => Err(error),
    }
}

/// What a listing says of the stored policies, each given by its name and
/// its JSON text: one entry for each policy whose text is JSON, in the same
/// order. A policy whose text is no JSON is passed over.
pub open spec fn listed_rules(policies: Seq<(Seq<char>, Seq<char>)>) -> Seq<NetworkPolicyInfoView>
    decreases policies.len(),
{
    if policies.len() == 0 {
        Seq::empty()
    } else {
        let before = listed_rules(policies.drop_last());
        match json_document(policies.last().1) {
            Some(document) => before.push(described(manifest_of(policies.last().0, document))),
            None => before,
        }
    }
}

/// Lists what the stored policies say of their rules.
pub fn list_rules(policies: &Vec<(String, String)>) -> (rules: Vec<NetworkPolicyInfo>)
    ensures
        rules.deep_view() == listed_rules(policies.deep_view()),
{
    let mut rules: Vec<NetworkPolicyInfo> = Vec::new();
    let ghost all = policies.deep_view();
    let mut i: usize = 0;
    assert(rules.deep_view() =~= listed_rules(all.take(0)));
    while i < policies.len()
        invariant
            i <= policies.len(),
            all == policies.deep_view(),
            rules.deep_view() == listed_rules(all.take(i as int)),
        decreases policies.len() - i,
    {
        proof {
            assert(all.take(i + 1).drop_last() =~= all.take(i as int));
            assert(all.take(i + 1).last() == (policies[i as int].0@, policies[i as int].1@));
        }
        let ghost before = rules.deep_view();
        match decode_manifest(policies[i].0.as_str(), policies[i].1.as_str()) {
            Ok(manifest) => {
                let info = describe_policy(&manifest);
                rules.push(info);
                assert(rules.deep_view() =~= before.push(info@));
            },
            Err(_) => {},
        }
        i = i + 1;
    }
    assert(all.take(i as int) =~= all);
    rules
}

} // verus!
