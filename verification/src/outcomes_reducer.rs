//! The match reducer: the match records that a rule yields on a block.
//!
//! The outcomes of a block are looked at shard by shard and, within a shard, in the
//! order in which they were executed. The first outcome that satisfies the rule is
//! reported, and nothing after it.

use crate::glob::glob_matches;
use crate::matcher::{
    first_matching_event,
    first_matching_event_in,
    lemma_first_matching_event_matches,
    rule_matches,
};
use crate::text::option_view;
use crate::types::block::{
    outcomes_view,
    BlockMessage,
    BlockView,
    OutcomeView,
    ReceiptExecutionOutcome,
    ShardView,
};
use crate::types::indexer_rule::{IndexerRule, IndexerRuleView, MatchingRule, MatchingRuleView};
use crate::types::indexer_rule_match::{
    ChainId,
    IndexerRuleMatch,
    IndexerRuleMatchPayload,
    MatchView,
    PayloadView,
};
use vstd::prelude::*;

verus! {

/// Why no match record could be built.
#[derive(Clone, Copy, Debug, PartialEq, Eq, Structural)]
pub enum ReduceErrorCause {
    /// The rule asks for an event, and no log of the receipt holds one that matches.
    NoMatchingEvent,
}

/// A failure to evaluate a rule on a block: which rule, which block, and why.
#[derive(Clone, Debug, PartialEq, Eq)]
pub struct ReduceError {
    pub indexer_rule_id: Option<u32>,
    pub indexer_rule_name: Option<String>,
    pub block_height: u64,
    pub cause: ReduceErrorCause,
}

/// The mathematical content of a `ReduceError`.
pub struct ReduceErrorView {
    pub indexer_rule_id: Option<u32>,
    pub indexer_rule_name: Option<Seq<char>>,
    pub block_height: u64,
    pub cause: ReduceErrorCause,
}

impl View for ReduceError {
    type V = ReduceErrorView;

    open spec fn view(&self) -> ReduceErrorView {
        ReduceErrorView {
            indexer_rule_id: self.indexer_rule_id,
            indexer_rule_name: option_view(self.indexer_rule_name),
            block_height: self.block_height,
            cause: self.cause,
        }
    }
}

impl ReduceErrorCause {
    /// The cause in words.
    pub open spec fn text(self) -> Seq<char> {
        match self {
            ReduceErrorCause::NoMatchingEvent => "no log of the receipt holds a matching event"@,
        }
    }

    /// The cause in words.
    pub fn description(&self) -> (text: String)
        ensures
            text@ == self.text(),
    {
        match self {
            ReduceErrorCause::NoMatchingEvent => {
                "no log of the receipt holds a matching event".to_owned()
            },
        }
    }
}

/// The mathematical content of a list of match records.
pub open spec fn records_view(records: Seq<IndexerRuleMatch>) -> Seq<MatchView> {
    records.map_values(|record: IndexerRuleMatch| record@)
}

/// Whether a payload can be built for `outcome` under `rule`. Only an `Event` rule
/// can stand in the way: it needs a log with a matching event to report.
pub open spec fn has_payload(rule: MatchingRuleView, outcome: OutcomeView) -> bool {
    rule matches MatchingRuleView::Event { event, standard, version, .. } ==> first_matching_event(
        event,
        standard,
        version,
        outcome.execution_outcome.logs,
    ) is Some
}

/// The payload reported for `outcome` under `rule`, in the block with the hash
/// `block_hash`. The action rules report the receipt; an `Event` rule also reports
/// the first matching event of the receipt. No transaction hash is reported.
pub open spec fn payload_of(
    rule: MatchingRuleView,
    outcome: OutcomeView,
    block_hash: Seq<char>,
) -> PayloadView {
    match rule {
        MatchingRuleView::Event { event, standard, version, .. } => {
            let record = first_matching_event(
                event,
                standard,
                version,
                outcome.execution_outcome.logs,
            )->Some_0;
            PayloadView::Events {
                block_hash,
                receipt_id: outcome.receipt.receipt_id,
                transaction_hash: None,
                event: record.event,
                standard: record.standard,
                version: record.version,
                data: record.data,
            }
        },
        _ => PayloadView::Actions {
            block_hash,
            receipt_id: outcome.receipt.receipt_id,
            transaction_hash: None,
        },
    }
}

/// The match record reported for `outcome` under `rule`.
pub open spec fn record_of(
    rule: IndexerRuleView,
    outcome: OutcomeView,
    block_hash: Seq<char>,
    block_height: u64,
    chain_id: ChainId,
) -> MatchView {
    MatchView {
        chain_id,
        indexer_rule_id: rule.id,
        indexer_rule_name: rule.name,
        payload: payload_of(rule.matching_rule, outcome, block_hash),
        block_height,
    }
}

/// The first of `outcomes` that satisfies `rule`.
pub open spec fn first_match_among(rule: MatchingRuleView, outcomes: Seq<OutcomeView>) -> Option<
    OutcomeView,
>
    decreases outcomes.len(),
{
    if outcomes.len() == 0 {
        None
    } else if rule_matches(rule, outcomes[0]) {
        Some(outcomes[0])
    } else {
        first_match_among(rule, outcomes.drop_first())
    }
}

/// The first outcome in `shards` that satisfies `rule`: shards in order, and in each
/// shard its outcomes in order.
pub open spec fn first_match_in(rule: MatchingRuleView, shards: Seq<ShardView>) -> Option<
    OutcomeView,
>
    decreases shards.len(),
{
    if shards.len() == 0 {
        None
    } else {
        match first_match_among(rule, shards[0].receipt_execution_outcomes) {
            Some(outcome) => Some(outcome),
            None => first_match_in(rule, shards.drop_first()),
        }
    }
}

/// The match records that `rule` yields on `block`: one record, for the first outcome
/// that satisfies the rule; none where no outcome does.
pub open spec fn block_matches(rule: IndexerRuleView, block: BlockView, chain_id: ChainId) -> Seq<
    MatchView,
> {
    match first_match_in(rule.matching_rule, block.shards) {
        None => Seq::empty(),
        Some(outcome) => seq![
            record_of(rule, outcome, block.header.hash, block.header.height, chain_id),
        ],
    }
}

/// Whether `records` is what `rule` yields on `block`.
pub open spec fn is_reduction(
    rule: IndexerRuleView,
    block: BlockView,
    chain_id: ChainId,
    records: Seq<IndexerRuleMatch>,
) -> bool {
    &&& records.len() == block_matches(rule, block, chain_id).len()
    &&& records_view(records) == block_matches(rule, block, chain_id)
}

/// Outcomes that do not satisfy the rule can be taken off the front.
pub proof fn lemma_first_match_among_skip(
    rule: MatchingRuleView,
    outcomes: Seq<OutcomeView>,
    i: int,
)
    requires
        0 <= i <= outcomes.len(),
        forall|k: int| 0 <= k < i ==> !rule_matches(rule, #[trigger] outcomes[k]),
    ensures
        first_match_among(rule, outcomes) == first_match_among(rule, outcomes.skip(i)),
    decreases i,
{
    if i == 0 {
        assert(outcomes.skip(0) =~= outcomes);
    } else {
        assert(!rule_matches(rule, outcomes[0]));
        lemma_first_match_among_skip(rule, outcomes.drop_first(), i - 1);
        assert(outcomes.drop_first().skip(i - 1) =~= outcomes.skip(i));
    }
}

/// Shards without an outcome that satisfies the rule can be taken off the front.
pub proof fn lemma_first_match_in_skip(rule: MatchingRuleView, shards: Seq<ShardView>, i: int)
    requires
        0 <= i <= shards.len(),
        forall|k: int|
            0 <= k < i ==> first_match_among(
                rule,
                (#[trigger] shards[k]).receipt_execution_outcomes,
            ) is None,
    ensures
        first_match_in(rule, shards) == first_match_in(rule, shards.skip(i)),
    decreases i,
{
    if i == 0 {
        assert(shards.skip(0) =~= shards);
    } else {
        assert(first_match_among(rule, shards[0].receipt_execution_outcomes) is None);
        lemma_first_match_in_skip(rule, shards.drop_first(), i - 1);
        assert(shards.drop_first().skip(i - 1) =~= shards.skip(i));
    }
}

/// The first of `outcomes` that satisfies `rule`.
pub fn first_matching_outcome_among<'a>(
    rule: &MatchingRule,
    outcomes: &'a Vec<ReceiptExecutionOutcome>,
) -> (found: Option<&'a ReceiptExecutionOutcome>)
    ensures
        match found {
            Some(outcome) => first_match_among(rule@, outcomes_view(outcomes@)) == Some(outcome@),
            None => first_match_among(rule@, outcomes_view(outcomes@)) is None,
        },
{
    let mut i: usize = 0;
    while i < outcomes.len()
        invariant
            i <= outcomes@.len(),
            forall|k: int|
                0 <= k < i ==> !rule_matches(rule@, #[trigger] outcomes_view(outcomes@)[k]),
        decreases outcomes@.len() - i,
    {
        proof {
            lemma_first_match_among_skip(rule@, outcomes_view(outcomes@), i as int);
            assert(outcomes_view(outcomes@)[i as int] == outcomes@[i as int]@);
        }
        if crate::matcher::matches(rule, &outcomes[i]) {
            return Some(&outcomes[i]);
        }
        i = i + 1;
    }
    proof {
        lemma_first_match_among_skip(rule@, outcomes_view(outcomes@), i as int);
    }
    None
}

/// The first outcome of `block` that satisfies `rule`, in shard order and then in
/// receipt order.
pub fn first_matching_outcome<'a>(rule: &MatchingRule, block: &'a BlockMessage) -> (found: Option<
    &'a ReceiptExecutionOutcome,
>)
    ensures
        match found {
            Some(outcome) => first_match_in(rule@, block@.shards) == Some(outcome@),
            None => first_match_in(rule@, block@.shards) is None,
        },
{
    let shards = &block.shards;
    let mut i: usize = 0;
    while i < shards.len()
        invariant
            i <= shards@.len(),
            shards@ == block.shards@,
            forall|k: int|
                0 <= k < i ==> first_match_among(
                    rule@,
                    (#[trigger] block@.shards[k]).receipt_execution_outcomes,
                ) is None,
        decreases shards@.len() - i,
    {
        proof {
            lemma_first_match_in_skip(rule@, block@.shards, i as int);
            assert(block@.shards[i as int] == shards@[i as int]@);
        }
        let found = first_matching_outcome_among(rule, &shards[i].receipt_execution_outcomes);
        if found.is_some() {
            return found;
        }
        i = i + 1;
    }
    proof {
        lemma_first_match_in_skip(rule@, block@.shards, i as int);
    }
    None
}

/// Builds the payload of the match record for `receipt_execution_outcome`. An `Event`
/// rule reports the first log that holds a matching event; where the receipt has no
/// such log there is nothing to report, and the result is `None`.
pub fn build_indexer_rule_match_payload(
    indexer_rule: &IndexerRule,
    receipt_execution_outcome: &ReceiptExecutionOutcome,
    block_header_hash: String,
) -> (payload: Option<IndexerRuleMatchPayload>)
    ensures
        payload is Some == has_payload(indexer_rule@.matching_rule, receipt_execution_outcome@),
        payload matches Some(p) ==> p@ == payload_of(
            indexer_rule@.matching_rule,
            receipt_execution_outcome@,
            block_header_hash@,
        ),
{
    let transaction_hash = None;
    match &indexer_rule.matching_rule {
        MatchingRule::ActionAny { .. } | MatchingRule::ActionFunctionCall { .. } => {
            Some(
                IndexerRuleMatchPayload::Actions {
                    block_hash: block_header_hash,
                    receipt_id: receipt_execution_outcome.receipt.receipt_id.clone(),
                    transaction_hash,
                },
            )
        },
        MatchingRule::Event { event, standard, version, .. } => {
            match first_matching_event_in(
                event.as_str(),
                standard.as_str(),
                version.as_str(),
                &receipt_execution_outcome.execution_outcome.logs,
            ) {
                None => None,
                Some(record) => Some(
                    IndexerRuleMatchPayload::Events {
                        block_hash: block_header_hash,
                        receipt_id: receipt_execution_outcome.receipt.receipt_id.clone(),
                        transaction_hash,
                        event: record.event,
                        standard: record.standard,
                        version: record.version,
                        data: record.data,
                    },
                ),
            }
        },
    }
}

/// Builds the match record for `receipt_execution_outcome`: the rule's identity, the
/// block's, and the payload. Fails where no payload can be built.
pub fn build_indexer_rule_match(
    indexer_rule: &IndexerRule,
    receipt_execution_outcome: &ReceiptExecutionOutcome,
    block_header_hash: String,
    block_height: u64,
    chain_id: ChainId,
) -> (result: Result<IndexerRuleMatch, ReduceError>)
    ensures
        result is Ok == has_payload(indexer_rule@.matching_rule, receipt_execution_outcome@),
        result matches Ok(record) ==> record@ == record_of(
            indexer_rule@,
            receipt_execution_outcome@,
            block_header_hash@,
            block_height,
            chain_id,
        ),
        result matches Err(error) ==> error@ == (ReduceErrorView {
            indexer_rule_id: indexer_rule@.id,
            indexer_rule_name: indexer_rule@.name,
            block_height,
            cause: ReduceErrorCause::NoMatchingEvent,
        }),
{
    match build_indexer_rule_match_payload(
        indexer_rule,
        receipt_execution_outcome,
        block_header_hash,
    ) {
        Some(payload) => Ok(
            IndexerRuleMatch {
                chain_id,
                indexer_rule_id: indexer_rule.id,
                indexer_rule_name: indexer_rule.name.clone(),
                payload,
                block_height,
            },
        ),
        None => Err(
            ReduceError {
                indexer_rule_id: indexer_rule.id,
                indexer_rule_name: indexer_rule.name.clone(),
                block_height,
                cause: ReduceErrorCause::NoMatchingEvent,
            },
        ),
    }
}

/// An outcome that satisfies a rule has a payload to report.
pub proof fn lemma_match_has_payload(rule: MatchingRuleView, outcome: OutcomeView)
    requires
        rule_matches(rule, outcome),
    ensures
        has_payload(rule, outcome),
{
}

/// What `first_match_among` finds satisfies the rule.
pub proof fn lemma_first_match_among_matches(rule: MatchingRuleView, outcomes: Seq<OutcomeView>)
    ensures
        first_match_among(rule, outcomes) matches Some(outcome) ==> rule_matches(rule, outcome),
    decreases outcomes.len(),
{
    if outcomes.len() > 0 && !rule_matches(rule, outcomes[0]) {
        lemma_first_match_among_matches(rule, outcomes.drop_first());
    }
}

/// What `first_match_in` finds satisfies the rule.
pub proof fn lemma_first_match_in_matches(rule: MatchingRuleView, shards: Seq<ShardView>)
    ensures
        first_match_in(rule, shards) matches Some(outcome) ==> rule_matches(rule, outcome),
    decreases shards.len(),
{
    if shards.len() > 0 {
        lemma_first_match_among_matches(rule, shards[0].receipt_execution_outcomes);
        lemma_first_match_in_matches(rule, shards.drop_first());
    }
}

/// Evaluates `indexer_rule` on `block`: the match record of the first outcome that
/// satisfies the rule, or no record where none does. The evaluation never fails:
/// the outcome that is reported was found with the very routine that builds its
/// payload.
pub fn reduce_indexer_rule_matches_from_outcomes(
    indexer_rule: &IndexerRule,
    block: &BlockMessage,
    chain_id: ChainId,
) -> (result: Result<Vec<IndexerRuleMatch>, ReduceError>)
    ensures
        result matches Ok(records) && is_reduction(indexer_rule@, block@, chain_id, records@),
{
    let mut records: Vec<IndexerRuleMatch> = Vec::new();
    if let Some(outcome) = first_matching_outcome(&indexer_rule.matching_rule, block) {
        proof {
            lemma_first_match_in_matches(indexer_rule@.matching_rule, block@.shards);
            lemma_match_has_payload(indexer_rule@.matching_rule, outcome@);
        }
        let record = build_indexer_rule_match(
            indexer_rule,
            outcome,
            block.header.hash.clone(),
            block.header.height,
            chain_id,
        )?;
        records.push(record);
    }
    assert(records_view(records@) =~= block_matches(indexer_rule@, block@, chain_id));
    Ok(records)
}

/// Whether `shards` has an outcome at place `r` of shard `s`.
pub open spec fn is_position(shards: Seq<ShardView>, s: int, r: int) -> bool {
    0 <= s < shards.len() && 0 <= r < shards[s].receipt_execution_outcomes.len()
}

/// The outcome at place `r` of shard `s`.
pub open spec fn outcome_at(shards: Seq<ShardView>, s: int, r: int) -> OutcomeView {
    shards[s].receipt_execution_outcomes[r]
}

/// Whether the position `(s1, r1)` comes before `(s2, r2)`: in an earlier shard, or
/// earlier in the same shard.
pub open spec fn precedes(s1: int, r1: int, s2: int, r2: int) -> bool {
    s1 < s2 || (s1 == s2 && r1 < r2)
}

/// Whether the outcome at `(s, r)` satisfies `rule` and no outcome before it does.
pub open spec fn is_first_match_at(
    rule: MatchingRuleView,
    shards: Seq<ShardView>,
    s: int,
    r: int,
) -> bool {
    &&& is_position(shards, s, r)
    &&& rule_matches(rule, outcome_at(shards, s, r))
    &&& forall|s2: int, r2: int|
        #![trigger outcome_at(shards, s2, r2)]
        is_position(shards, s2, r2) && precedes(s2, r2, s, r) ==> !rule_matches(
            rule,
            outcome_at(shards, s2, r2),
        )
}

/// Where `first_match_among` finds nothing, nothing satisfies the rule; where it
/// finds an outcome, that outcome stands at the place returned, satisfies the rule,
/// and nothing before it does.
pub proof fn lemma_first_match_among_place(rule: MatchingRuleView, outcomes: Seq<OutcomeView>) -> (r:
    int)
    ensures
        first_match_among(rule, outcomes) is None ==> forall|k: int|
            0 <= k < outcomes.len() ==> !rule_matches(rule, #[trigger] outcomes[k]),
        first_match_among(rule, outcomes) matches Some(outcome) ==> {
            &&& 0 <= r < outcomes.len()
            &&& outcomes[r] == outcome
            &&& rule_matches(rule, outcome)
            &&& forall|k: int| 0 <= k < r ==> !rule_matches(rule, #[trigger] outcomes[k])
        },
    decreases outcomes.len(),
{
    if outcomes.len() == 0 || rule_matches(rule, outcomes[0]) {
        0
    } else {
        let tail = outcomes.drop_first();
        let r = lemma_first_match_among_place(rule, tail);
        assert forall|k: int| 0 < k < outcomes.len() implies outcomes[k] == tail[k - 1] by {}
        r + 1
    }
}

/// Where `first_match_in` finds nothing, no outcome satisfies the rule; where it finds
/// an outcome, that outcome stands at the position returned, and it is the first
/// in shard order and then receipt order that satisfies the rule.
pub proof fn lemma_first_match_in_place(rule: MatchingRuleView, shards: Seq<ShardView>) -> (place: (
    int,
    int,
))
    ensures
        first_match_in(rule, shards) is None ==> forall|s: int, r: int|
            #![trigger outcome_at(shards, s, r)]
            is_position(shards, s, r) ==> !rule_matches(rule, outcome_at(shards, s, r)),
        first_match_in(rule, shards) matches Some(outcome) ==> {
            &&& is_first_match_at(rule, shards, place.0, place.1)
            &&& outcome_at(shards, place.0, place.1) == outcome
        },
    decreases shards.len(),
{
    if shards.len() == 0 {
        (0, 0)
    } else {
        let r = lemma_first_match_among_place(rule, shards[0].receipt_execution_outcomes);
        if first_match_among(rule, shards[0].receipt_execution_outcomes) is Some {
            (0, r)
        } else {
            let tail = shards.drop_first();
            let place = lemma_first_match_in_place(rule, tail);
            assert forall|s: int, r: int| is_position(shards, s, r) && s > 0 implies is_position(
                tail,
                s - 1,
                r,
            ) && outcome_at(shards, s, r) == outcome_at(tail, s - 1, r) by {}
            if first_match_in(rule, tail) is Some {
                assert(outcome_at(shards, place.0 + 1, place.1) == outcome_at(
                    tail,
                    place.0,
                    place.1,
                ));
                assert forall|s2: int, r2: int|
                    #![trigger outcome_at(shards, s2, r2)]
                    is_position(shards, s2, r2) && precedes(
                        s2,
                        r2,
                        place.0 + 1,
                        place.1,
                    ) implies !rule_matches(rule, outcome_at(shards, s2, r2)) by {
                    if s2 > 0 {
                        assert(outcome_at(shards, s2, r2) == outcome_at(tail, s2 - 1, r2));
                        assert(precedes(s2 - 1, r2, place.0, place.1));
                    }
                }
            } else {
                assert forall|s: int, r: int|
                    #![trigger outcome_at(shards, s, r)]
                    is_position(shards, s, r) implies !rule_matches(
                    rule,
                    outcome_at(shards, s, r),
                ) by {
                    if s > 0 {
                        assert(outcome_at(shards, s, r) == outcome_at(tail, s - 1, r));
                    }
                }
            }
            (place.0 + 1, place.1)
        }
    }
}

/// A rule yields at most one record on a block.
pub proof fn at_most_one_record(rule: IndexerRuleView, block: BlockView, chain_id: ChainId)
    ensures
        block_matches(rule, block, chain_id).len() <= 1,
{
}

/// Evaluating a rule on a block has one answer: whatever two evaluations of the same
/// rule on the same block return, they return the same records in the same order.
pub proof fn reduction_is_deterministic(
    rule: IndexerRuleView,
    block: BlockView,
    chain_id: ChainId,
    first: Seq<IndexerRuleMatch>,
    second: Seq<IndexerRuleMatch>,
)
    requires
        is_reduction(rule, block, chain_id, first),
        is_reduction(rule, block, chain_id, second),
    ensures
        records_view(first) == records_view(second),
{
}

/// The records follow the block's order: a record is reported for the first outcome,
/// in shard order and then receipt order, that satisfies the rule, and for no other;
/// where no outcome satisfies the rule, none is reported.
pub proof fn reduction_follows_block_order(
    rule: IndexerRuleView,
    block: BlockView,
    chain_id: ChainId,
)
    ensures
        (forall|s: int, r: int|
            #![trigger outcome_at(block.shards, s, r)]
            is_position(block.shards, s, r) ==> !rule_matches(
                rule.matching_rule,
                outcome_at(block.shards, s, r),
            )) ==> block_matches(rule, block, chain_id) == Seq::<MatchView>::empty(),
        forall|s: int, r: int|
            #![trigger outcome_at(block.shards, s, r)]
            is_first_match_at(rule.matching_rule, block.shards, s, r) ==> block_matches(
                rule,
                block,
                chain_id,
            ) == seq![
                record_of(
                    rule,
                    outcome_at(block.shards, s, r),
                    block.header.hash,
                    block.header.height,
                    chain_id,
                ),
            ],
{
    let place = lemma_first_match_in_place(rule.matching_rule, block.shards);
    assert forall|s: int, r: int|
        #![trigger outcome_at(block.shards, s, r)]
        is_first_match_at(rule.matching_rule, block.shards, s, r) implies block_matches(
        rule,
        block,
        chain_id,
    ) == seq![
        record_of(
            rule,
            outcome_at(block.shards, s, r),
            block.header.hash,
            block.header.height,
            chain_id,
        ),
    ] by {
        assert(first_match_in(rule.matching_rule, block.shards) is Some);
        assert(!precedes(s, r, place.0, place.1));
        assert(!precedes(place.0, place.1, s, r));
    }
}

/// Every record stems from an outcome of the block that satisfies the rule.
pub proof fn record_stems_from_match(
    rule: IndexerRuleView,
    block: BlockView,
    chain_id: ChainId,
    i: int,
) -> (place: (int, int))
    requires
        0 <= i < block_matches(rule, block, chain_id).len(),
    ensures
        is_position(block.shards, place.0, place.1),
        rule_matches(rule.matching_rule, outcome_at(block.shards, place.0, place.1)),
        block_matches(rule, block, chain_id)[i] == record_of(
            rule,
            outcome_at(block.shards, place.0, place.1),
            block.header.hash,
            block.header.height,
            chain_id,
        ),
{
    lemma_first_match_in_place(rule.matching_rule, block.shards)
}

/// Every record names the block it was found in, by height and by hash, and the
/// rule it was found for, by id and by name; and none names a transaction.
pub proof fn record_names_block_and_rule(
    rule: IndexerRuleView,
    block: BlockView,
    chain_id: ChainId,
    i: int,
)
    requires
        0 <= i < block_matches(rule, block, chain_id).len(),
    ensures
        block_matches(rule, block, chain_id)[i].block_height == block.header.height,
        block_matches(rule, block, chain_id)[i].payload.block_hash() == block.header.hash,
        block_matches(rule, block, chain_id)[i].chain_id == chain_id,
        block_matches(rule, block, chain_id)[i].indexer_rule_id == rule.id,
        block_matches(rule, block, chain_id)[i].indexer_rule_name == rule.name,
        block_matches(rule, block, chain_id)[i].payload.transaction_hash() is None,
{
}

/// The record of an action rule carries an `Actions` payload.
pub proof fn action_record_reports_receipt(
    rule: IndexerRuleView,
    block: BlockView,
    chain_id: ChainId,
    i: int,
)
    requires
        !(rule.matching_rule is Event),
        0 <= i < block_matches(rule, block, chain_id).len(),
    ensures
        block_matches(rule, block, chain_id)[i].payload is Actions,
{
}

/// The record of an `Event` rule carries an `Events` payload, and the event, the
/// standard and the version that it reports each match the rule's glob for them.
pub proof fn event_record_matches_globs(
    rule: IndexerRuleView,
    block: BlockView,
    chain_id: ChainId,
    i: int,
)
    requires
        rule.matching_rule is Event,
        0 <= i < block_matches(rule, block, chain_id).len(),
    ensures
        block_matches(rule, block, chain_id)[i].payload is Events,
        glob_matches(
            rule.matching_rule->Event_event,
            block_matches(rule, block, chain_id)[i].payload->Events_event,
        ),
        glob_matches(
            rule.matching_rule->Event_standard,
            block_matches(rule, block, chain_id)[i].payload->Events_standard,
        ),
        glob_matches(
            rule.matching_rule->Event_version,
            block_matches(rule, block, chain_id)[i].payload->Events_version,
        ),
{
    let outcome = first_match_in(rule.matching_rule, block.shards)->Some_0;
    lemma_first_match_in_matches(rule.matching_rule, block.shards);
    lemma_first_matching_event_matches(
        rule.matching_rule->Event_event,
        rule.matching_rule->Event_standard,
        rule.matching_rule->Event_version,
        outcome.execution_outcome.logs,
    );
}

/// On a block that names itself and its receipts, every record does so too: its
/// block hash and its receipt id are not empty.
pub proof fn record_is_well_formed(
    rule: IndexerRuleView,
    block: BlockView,
    chain_id: ChainId,
    i: int,
)
    requires
        block.well_formed(),
        0 <= i < block_matches(rule, block, chain_id).len(),
    ensures
        block_matches(rule, block, chain_id)[i].well_formed(),
{
    let place = lemma_first_match_in_place(rule.matching_rule, block.shards);
    assert(outcome_at(block.shards, place.0, place.1)
        == block.shards[place.0].receipt_execution_outcomes[place.1]);
}

} // verus!
