//! The match reducer in its plain form: it hands back the records themselves.

use crate::outcomes_reducer::{
    build_indexer_rule_match_payload,
    first_matching_outcome,
    is_reduction,
    lemma_first_match_in_matches,
    lemma_match_has_payload,
    records_view,
    block_matches,
};
use crate::types::block::BlockMessage;
use crate::types::indexer_rule::IndexerRule;
use crate::types::indexer_rule_match::{ChainId, IndexerRuleMatch};
use vstd::prelude::*;

verus! {

/// Evaluates `indexer_rule` on `block`: the match record of the first outcome that
/// satisfies the rule, or no record where none does.
pub fn reduce_indexer_rule_matches_from_outcomes(
    indexer_rule: &IndexerRule,
    block: &BlockMessage,
    chain_id: ChainId,
) -> (records: Vec<IndexerRuleMatch>)
    ensures
        is_reduction(indexer_rule@, block@, chain_id, records@),
{
    let mut records: Vec<IndexerRuleMatch> = Vec::new();
    if let Some(outcome) = first_matching_outcome(&indexer_rule.matching_rule, block) {
        proof {
            lemma_first_match_in_matches(indexer_rule@.matching_rule, block@.shards);
            lemma_match_has_payload(indexer_rule@.matching_rule, outcome@);
        }
        if let Some(payload) = build_indexer_rule_match_payload(
            indexer_rule,
            outcome,
            block.header.hash.clone(),
        ) {
            records.push(
                IndexerRuleMatch {
                    chain_id,
                    indexer_rule_id: indexer_rule.id,
                    indexer_rule_name: indexer_rule.name.clone(),
                    payload,
                    block_height: block.header.height,
                },
            );
        }
    }
    assert(records_view(records@) =~= block_matches(indexer_rule@, block@, chain_id));
    records
}

} // verus!
