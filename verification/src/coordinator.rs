//! What the coordinator does with a block: the operations on the cache and on the
//! streams that a block calls for, in the order in which they are to be carried out.
//!
//! Nothing is carried out here. The plan is a list of values; whoever holds the
//! connection to the store walks through it.

use crate::outcomes_reducer::block_matches;
use crate::reduce_indexer_rule_matches;
use crate::registry::{functions_view, IndexerFunction, IndexerFunctionView};
use crate::types::block::{BlockMessage, BlockView};
use crate::types::indexer_rule_match::ChainId;
use vstd::prelude::*;

verus! {

/// For how many seconds a block stays in the cache.
pub const BLOCK_CACHE_SECONDS: u64 = 60;

/// One operation on the store or on the registry. A function is named by its place
/// in the list of functions that the plan was made for.
#[derive(Clone, Copy, Debug, PartialEq, Eq)]
pub enum StoreAction {
    /// Put the block into the cache, to expire after `ttl_seconds`.
    CacheBlock { block_height: u64, ttl_seconds: u64 },
    /// Take over what the block changes in the registry.
    IndexRegistryChanges { block_height: u64 },
    /// Mark the function as provisioned.
    MarkProvisioned { function: usize },
    /// Add the function's stream to the set of active streams.
    AddStream { function: usize },
    /// Store the function itself, with no expiry.
    StoreFunction { function: usize },
    /// Append the block's height to the function's stream.
    AppendToStream { function: usize, block_height: u64 },
    /// Note the block as the last one indexed.
    UpdateLastIndexedBlock { block_height: u64 },
}

/// What one match of the function at place `index` calls for: the function is marked
/// as provisioned unless it was so already, its stream is made known, the function
/// is stored, and the block's height is appended to the stream.
pub open spec fn match_actions(
    function: IndexerFunctionView,
    index: int,
    block_height: u64,
) -> Seq<StoreAction> {
    let known = seq![
        StoreAction::AddStream { function: index as usize },
        StoreAction::StoreFunction { function: index as usize },
        StoreAction::AppendToStream { function: index as usize, block_height },
    ];
    if function.provisioned {
        known
    } else {
        seq![StoreAction::MarkProvisioned { function: index as usize }] + known
    }
}

/// `actions`, `times` times over.
pub open spec fn repeated(actions: Seq<StoreAction>, times: nat) -> Seq<StoreAction>
    decreases times,
{
    if times == 0 {
        Seq::empty()
    } else {
        repeated(actions, (times - 1) as nat) + actions
    }
}

/// What the first `n` of `functions` call for on `block`: function after function,
/// and for each function match after match.
pub open spec fn function_actions(
    functions: Seq<IndexerFunctionView>,
    block: BlockView,
    chain_id: ChainId,
    n: int,
) -> Seq<StoreAction>
    decreases n,
{
    if n <= 0 {
        Seq::empty()
    } else {
        function_actions(functions, block, chain_id, n - 1) + repeated(
            match_actions(functions[n - 1], n - 1, block.header.height),
            block_matches(functions[n - 1].indexer_rule, block, chain_id).len(),
        )
    }
}

/// What `block` calls for, given the registered `functions`: the block goes into the
/// cache, the registry takes over its changes, every match of every function is
/// handed on to the function's stream, and the block is noted as the last one indexed.
pub open spec fn block_plan(
    functions: Seq<IndexerFunctionView>,
    block: BlockView,
    chain_id: ChainId,
) -> Seq<StoreAction> {
    opening_actions(block.header.height) + function_actions(
        functions,
        block,
        chain_id,
        functions.len() as int,
    ) + closing_actions(block.header.height)
}

/// What a block calls for before any match is looked at.
pub open spec fn opening_actions(block_height: u64) -> Seq<StoreAction> {
    seq![
        StoreAction::CacheBlock { block_height, ttl_seconds: BLOCK_CACHE_SECONDS },
        StoreAction::IndexRegistryChanges { block_height },
    ]
}

/// What a block calls for once all matches are dealt with.
pub open spec fn closing_actions(block_height: u64) -> Seq<StoreAction> {
    seq![StoreAction::UpdateLastIndexedBlock { block_height }]
}

/// The operations that a block of height `block_height` begins with: the block is
/// cached, and the registry takes over the block's changes.
pub fn first_actions(block_height: u64) -> (plan: Vec<StoreAction>)
    ensures
        plan@ == opening_actions(block_height),
{
    let mut plan: Vec<StoreAction> = Vec::new();
    plan.push(StoreAction::CacheBlock { block_height, ttl_seconds: BLOCK_CACHE_SECONDS });
    plan.push(StoreAction::IndexRegistryChanges { block_height });
    assert(plan@ =~= opening_actions(block_height));
    plan
}

/// The operations that `matches` matches of the function at place `index` call for.
pub fn actions_for_matches(
    function: &IndexerFunction,
    index: usize,
    matches: usize,
    block_height: u64,
) -> (plan: Vec<StoreAction>)
    ensures
        plan@ == repeated(match_actions(function@, index as int, block_height), matches as nat),
{
    let mut plan: Vec<StoreAction> = Vec::new();
    let mut m: usize = 0;
    while m < matches
        invariant
            m <= matches,
            plan@ == repeated(match_actions(function@, index as int, block_height), m as nat),
        decreases matches - m,
    {
        let ghost before = plan@;
        if !function.provisioned {
            plan.push(StoreAction::MarkProvisioned { function: index });
        }
        plan.push(StoreAction::AddStream { function: index });
        plan.push(StoreAction::StoreFunction { function: index });
        plan.push(StoreAction::AppendToStream { function: index, block_height });
        assert(plan@ =~= before + match_actions(function@, index as int, block_height));
        m = m + 1;
    }
    plan
}

/// The operation that a block of height `block_height` ends with: the block is noted
/// as the last one indexed.
pub fn last_actions(block_height: u64) -> (plan: Vec<StoreAction>)
    ensures
        plan@ == closing_actions(block_height),
{
    let mut plan: Vec<StoreAction> = Vec::new();
    plan.push(StoreAction::UpdateLastIndexedBlock { block_height });
    assert(plan@ =~= closing_actions(block_height));
    plan
}

/// Plans what is to be done with `block`, from its first operation to its last: each
/// function's rule is evaluated on the block, in the order of `functions`, and every
/// match adds its operations to the plan. A rule whose evaluation fails adds nothing
/// and holds up nothing.
pub fn plan_streamer_message(
    functions: &Vec<IndexerFunction>,
    block: &BlockMessage,
    chain_id: ChainId,
) -> (plan: Vec<StoreAction>)
    ensures
        plan@ == block_plan(functions_view(functions@), block@, chain_id),
{
    let block_height = block.header.height;
    let mut plan = first_actions(block_height);
    let ghost head = plan@;
    let mut i: usize = 0;
    while i < functions.len()
        invariant
            i <= functions@.len(),
            block_height == block.header.height,
            plan@ == head + function_actions(
                functions_view(functions@),
                block@,
                chain_id,
                i as int,
            ),
        decreases functions@.len() - i,
    {
        assert(functions_view(functions@)[i as int] == functions@[i as int]@);
        if let Ok(records) = reduce_indexer_rule_matches(&functions[i].indexer_rule, block, chain_id) {
            let mut actions = actions_for_matches(&functions[i], i, records.len(), block_height);
            plan.append(&mut actions);
        }
        assert(plan@ =~= head + function_actions(
            functions_view(functions@),
            block@,
            chain_id,
            i + 1,
        ));
        i = i + 1;
    }
    let mut tail = last_actions(block_height);
    plan.append(&mut tail);
    assert(plan@ =~= block_plan(functions_view(functions@), block@, chain_id));
    plan
}

} // verus!
