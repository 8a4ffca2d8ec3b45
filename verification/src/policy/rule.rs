//! The traffic rule a user writes, and what is read back from a stored policy.

use crate::text::same_text;
use vstd::prelude::*;
use vstd::string::*;

verus! {

/// Whether a rule opens egress or blocks a domain.
#[derive(Clone, Copy, Debug, PartialEq, Eq, Structural)]
pub enum RuleType {
    Allow,
    Deny,
}

impl RuleType {
    /// The word that stands for the rule type in a request or a reply.
    pub open spec fn word(self) -> Seq<char> {
        match self {
            RuleType::Allow => "allow"@,
            RuleType::Deny => "deny"@,
        }
    }

    /// The rule type that a word stands for: `deny` blocks, every other word
    /// allows.
    pub open spec fn of_word(word: Seq<char>) -> RuleType {
        if word == "deny"@ {
            RuleType::Deny
        } else {
            RuleType::Allow
        }
    }

    /// Gives the word for this rule type.
    pub fn as_text(&self) -> (word: &'static str)
        ensures
            word@ == self.word(),
    {
        match self {
            RuleType::Allow => "allow",
            RuleType::Deny => "deny",
        }
    }

    /// Reads a rule type from its word.
    pub fn from_text(word: &str) -> (rule_type: RuleType)
        ensures
            rule_type == RuleType::of_word(word@),
    {
        if same_text(word, "deny") {
            RuleType::Deny
        } else {
            RuleType::Allow
        }
    }
}

/// Reading back the word of a rule type gives the rule type.
pub proof fn lemma_rule_type_word_round_trip(rule_type: RuleType)
    ensures
        RuleType::of_word(rule_type.word()) == rule_type,
{
    reveal_strlit("allow");
    reveal_strlit("deny");
    if rule_type == RuleType::Allow {
        assert("allow"@.len() != "deny"@.len());
    }
}

/// An egress rule as its author states it.
#[derive(Clone, Debug, PartialEq, Eq)]
pub struct TrafficRule {
    pub id: Option<i32>,
    pub name: String,
    pub description: String,
    pub rule_type: RuleType,
    pub host: Option<String>,
    pub port: Option<i32>,
}

/// The mathematical content of a [`TrafficRule`].
pub struct TrafficRuleView {
    pub id: Option<i32>,
    pub name: Seq<char>,
    pub description: Seq<char>,
    pub rule_type: RuleType,
    pub host: Option<Seq<char>>,
    pub port: Option<i32>,
}

impl DeepView for TrafficRule {
    type V = TrafficRuleView;

    open spec fn deep_view(&self) -> TrafficRuleView {
        TrafficRuleView {
            id: self.id,
            name: self.name@,
            description: self.description@,
            rule_type: self.rule_type,
            host: self.host.deep_view(),
            port: self.port,
        }
    }
}

impl View for TrafficRule {
    type V = TrafficRuleView;

    open spec fn view(&self) -> TrafficRuleView {
        self.deep_view()
    }
}

/// What a stored policy says of the rule it enforces.
#[derive(Clone, Debug, PartialEq, Eq)]
pub struct NetworkPolicyInfo {
    pub name: String,
    pub description: Option<String>,
    pub rule_type: RuleType,
    pub host: Option<String>,
    pub port: Option<i32>,
}

/// The mathematical content of a [`NetworkPolicyInfo`].
pub struct NetworkPolicyInfoView {
    pub name: Seq<char>,
    pub description: Option<Seq<char>>,
    pub rule_type: RuleType,
    pub host: Option<Seq<char>>,
    pub port: Option<i32>,
}

impl DeepView for NetworkPolicyInfo {
    type V = NetworkPolicyInfoView;

    open spec fn deep_view(&self) -> NetworkPolicyInfoView {
        NetworkPolicyInfoView {
            name: self.name@,
            description: self.description.deep_view(),
            rule_type: self.rule_type,
            host: self.host.deep_view(),
            port: self.port,
        }
    }
}

impl View for NetworkPolicyInfo {
    type V = NetworkPolicyInfoView;

    open spec fn view(&self) -> NetworkPolicyInfoView {
        self.deep_view()
    }
}

} // verus!
