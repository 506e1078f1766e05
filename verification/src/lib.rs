//! Per-block rule evaluation for a blockchain stream processor: which receipts of a
//! block satisfy a registered rule, and the match record reported for each hit.

pub mod coordinator;
pub mod glob;
pub mod json;
pub mod matcher;
pub mod opts;
pub mod outcomes_reducer;
mod outcomes_reducer_sync;
pub mod pattern;
pub mod primitives;
pub mod registry;
pub mod text;
pub mod types;

use outcomes_reducer::{is_reduction, records_view, ReduceError};
use types::block::{BlockMessage, BlockView};
use types::indexer_rule::{IndexerRule, IndexerRuleView, MatchingRule};
use types::indexer_rule_match::{ChainId, IndexerRuleMatch};
use vstd::prelude::*;

verus! {

/// Evaluates `indexer_rule` on `block` and reports failure as a value. This is the
/// form that callers drive from tasks, many rules to a block.
///
/// Every kind of rule known today is decided on the outcomes of the block's receipts.
pub fn reduce_indexer_rule_matches(
    indexer_rule: &IndexerRule,
    block: &BlockMessage,
    chain_id: ChainId,
) -> (result: Result<Vec<IndexerRuleMatch>, ReduceError>)
    ensures
        result matches Ok(records) && is_reduction(indexer_rule@, block@, chain_id, records@),
{
    match &indexer_rule.matching_rule {
        MatchingRule::ActionAny { .. }
        | MatchingRule::ActionFunctionCall { .. }
        | MatchingRule::Event { .. } => {
            outcomes_reducer::reduce_indexer_rule_matches_from_outcomes(
                indexer_rule,
                block,
                chain_id,
            )
        },
    }
}

/// Evaluates `indexer_rule` on `block` and hands back the records.
pub fn reduce_indexer_rule_matches_sync(
    indexer_rule: &IndexerRule,
    block: &BlockMessage,
    chain_id: ChainId,
) -> (records: Vec<IndexerRuleMatch>)
    ensures
        is_reduction(indexer_rule@, block@, chain_id, records@),
{
    match &indexer_rule.matching_rule {
        MatchingRule::ActionAny { .. }
        | MatchingRule::ActionFunctionCall { .. }
        | MatchingRule::Event { .. } => {
            outcomes_reducer_sync::reduce_indexer_rule_matches_from_outcomes(
                indexer_rule,
                block,
                chain_id,
            )
        },
    }
}

/// The two forms of the reducer agree: on the same rule and the same block, what
/// `reduce_indexer_rule_matches` returns is `Ok`, and it holds the records that
/// `reduce_indexer_rule_matches_sync` returns.
pub proof fn reducer_forms_agree(
    rule: IndexerRuleView,
    block: BlockView,
    chain_id: ChainId,
    fallible: Result<Vec<IndexerRuleMatch>, ReduceError>,
    plain: Vec<IndexerRuleMatch>,
)
    requires
        fallible matches Ok(records) && is_reduction(rule, block, chain_id, records@),
        is_reduction(rule, block, chain_id, plain@),
    ensures
        fallible is Ok,
        records_view(fallible->Ok_0@) == records_view(plain@),
        fallible->Ok_0@.len() == plain@.len(),
{
}

} // verus!
