//! Rules: declarative filters that select the receipts a downstream function cares for.

use crate::text::option_view;
use vstd::prelude::*;

verus! {

/// What a rule is about.
#[derive(Clone, Copy, Debug, PartialEq, Eq)]
pub enum IndexerRuleKind {
    Action,
    Event,
    AnyBlock,
    Shard,
}

/// Which terminal execution status a rule accepts.
#[derive(Clone, Copy, Debug, PartialEq, Eq)]
pub enum Status {
    Any,
    Success,
    Fail,
}

/// What a receipt has to look like for a rule to select it.
///
/// `affected_account_id` and `contract_account_id` are account patterns: comma-separated
/// lists of account ids in which `*` is a wildcard. `function` is a method pattern: a
/// comma-separated list of method names. `event`, `standard` and `version` are globs.
#[derive(Clone, Debug, PartialEq, Eq)]
pub enum MatchingRule {
    ActionAny { affected_account_id: String, status: Status },
    ActionFunctionCall { affected_account_id: String, status: Status, function: String },
    Event { contract_account_id: String, standard: String, version: String, event: String },
}

/// A registered rule: its identity and what it matches.
#[derive(Clone, Debug, PartialEq, Eq)]
pub struct IndexerRule {
    pub indexer_rule_kind: IndexerRuleKind,
    pub matching_rule: MatchingRule,
    pub id: Option<u32>,
    pub name: Option<String>,
}

/// The mathematical content of a `MatchingRule`.
pub enum MatchingRuleView {
    ActionAny { affected_account_id: Seq<char>, status: Status },
    ActionFunctionCall { affected_account_id: Seq<char>, status: Status, function: Seq<char> },
    Event {
        contract_account_id: Seq<char>,
        standard: Seq<char>,
        version: Seq<char>,
        event: Seq<char>,
    },
}

/// The mathematical content of an `IndexerRule`.
pub struct IndexerRuleView {
    pub indexer_rule_kind: IndexerRuleKind,
    pub matching_rule: MatchingRuleView,
    pub id: Option<u32>,
    pub name: Option<Seq<char>>,
}

impl View for MatchingRule {
    type V = MatchingRuleView;

    open spec fn view(&self) -> MatchingRuleView {
        match *self {
            MatchingRule::ActionAny { affected_account_id, status } => {
                MatchingRuleView::ActionAny { affected_account_id: affected_account_id@, status }
            },
            MatchingRule::ActionFunctionCall { affected_account_id, status, function } => {
                MatchingRuleView::ActionFunctionCall {
                    affected_account_id: affected_account_id@,
                    status,
                    function: function@,
                }
            },
            MatchingRule::Event { contract_account_id, standard, version, event } => {
                MatchingRuleView::Event {
                    contract_account_id: contract_account_id@,
                    standard: standard@,
                    version: version@,
                    event: event@,
                }
            },
        }
    }
}

impl View for IndexerRule {
    type V = IndexerRuleView;

    open spec fn view(&self) -> IndexerRuleView {
        IndexerRuleView {
            indexer_rule_kind: self.indexer_rule_kind,
            matching_rule: self.matching_rule@,
            id: self.id,
            name: option_view(self.name),
        }
    }
}

impl MatchingRuleView {
    /// The account pattern of the rule.
    pub open spec fn account_pattern(self) -> Seq<char> {
        match self {
            MatchingRuleView::ActionAny { affected_account_id, .. } => affected_account_id,
            MatchingRuleView::ActionFunctionCall { affected_account_id, .. } => affected_account_id,
            MatchingRuleView::Event { contract_account_id, .. } => contract_account_id,
        }
    }
}

} // verus!
