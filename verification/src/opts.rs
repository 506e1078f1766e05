//! What the coordinator is started with: the chain to follow and the block to start at.

use crate::types::indexer_rule_match;
use vstd::prelude::*;

verus! {

/// The settings of a coordinator.
#[derive(Clone, Debug, PartialEq, Eq)]
pub struct Opts {
    /// Where the cache is reached.
    pub redis_connection_string: String,
    /// The access key for the block archive.
    pub lake_aws_access_key: String,
    /// The secret that belongs to the access key.
    pub lake_aws_secret_access_key: String,
    /// The account of the registry contract.
    pub registry_contract_id: String,
    /// The port of the metrics and health service.
    pub port: u16,
    /// The chain to follow, and where on it to start.
    pub chain_id: ChainId,
}

/// The chain to follow, with the place to start at.
#[derive(Clone, Copy, Debug, PartialEq, Eq)]
pub enum ChainId {
    Mainnet(StartOptions),
    Testnet(StartOptions),
}

/// Where on the chain to start.
#[derive(Clone, Copy, Debug, PartialEq, Eq)]
pub enum StartOptions {
    /// At the block of the given height.
    FromBlock { height: u64 },
    /// Where the last run stopped.
    FromInterruption,
    /// At the latest final block.
    FromLatest,
}

/// What to do next in order to learn the height to start at.
#[derive(Clone, Copy, Debug, PartialEq, Eq)]
pub enum StartHeightStep {
    /// Nothing: this is the height.
    StartAt { height: u64 },
    /// Read from the cache the height of the block that was indexed last.
    ReadLastIndexedBlock,
    /// Ask the chain for the height of its latest final block.
    QueryFinalBlock,
}

impl ChainId {
    /// The chain, without the place to start at.
    pub open spec fn chain(self) -> indexer_rule_match::ChainId {
        match self {
            ChainId::Mainnet(_) => indexer_rule_match::ChainId::Mainnet,
            ChainId::Testnet(_) => indexer_rule_match::ChainId::Testnet,
        }
    }

    /// The place to start at.
    pub open spec fn start(self) -> StartOptions {
        match self {
            ChainId::Mainnet(start) => start,
            ChainId::Testnet(start) => start,
        }
    }

    /// The address of the chain's archival RPC node. Blocks that are more than a few
    /// epochs old can be asked of an archival node only.
    pub open spec fn archival_rpc(self) -> Seq<char> {
        match self {
            ChainId::Mainnet(_) => "https://archival-rpc.mainnet.near.org"@,
            ChainId::Testnet(_) => "https://archival-rpc.testnet.near.org"@,
        }
    }
}

/// The height to start at, given what the cache holds as the last indexed block, if
/// it could be read, and the height of the chain's latest final block.
pub open spec fn start_height(start: StartOptions, last_indexed: Option<u64>, final_block: u64) -> u64 {
    match start {
        StartOptions::FromBlock { height } => height,
        StartOptions::FromInterruption => match last_indexed {
            Some(height) => height,
            None => final_block,
        },
        StartOptions::FromLatest => final_block,
    }
}

impl Opts {
    pub fn chain_id(&self) -> (chain: indexer_rule_match::ChainId)
        ensures
            chain == self.chain_id.chain(),
    {
        match self.chain_id {
            ChainId::Mainnet(_) => indexer_rule_match::ChainId::Mainnet,
            ChainId::Testnet(_) => indexer_rule_match::ChainId::Testnet,
        }
    }

    /// The place to start at.
    pub fn start_options(&self) -> (start: &StartOptions)
        ensures
            *start == self.chain_id.start(),
    {
        match &self.chain_id {
            ChainId::Mainnet(start_options) => start_options,
            ChainId::Testnet(start_options) => start_options,
        }
    }

    /// The address of the archival RPC node of the chain.
    pub fn rpc_url(&self) -> (url: &str)
        ensures
            url@ == self.chain_id.archival_rpc(),
    {
        match self.chain_id {
            ChainId::Mainnet(_) => "https://archival-rpc.mainnet.near.org",
            ChainId::Testnet(_) => "https://archival-rpc.testnet.near.org",
        }
    }
}

impl StartOptions {
    /// The first step towards the height to start at: a given height is taken as it
    /// is, an interrupted run is taken up from the cache, and the latest block is
    /// asked of the chain.
    pub fn first_step(&self) -> (step: StartHeightStep)
        ensures
            step == match *self {
                StartOptions::FromBlock { height } => StartHeightStep::StartAt { height },
                StartOptions::FromInterruption => StartHeightStep::ReadLastIndexedBlock,
                StartOptions::FromLatest => StartHeightStep::QueryFinalBlock,
            },
    {
        match self {
            StartOptions::FromBlock { height } => StartHeightStep::StartAt { height: *height },
            StartOptions::FromInterruption => StartHeightStep::ReadLastIndexedBlock,
            StartOptions::FromLatest => StartHeightStep::QueryFinalBlock,
        }
    }
}

impl StartHeightStep {
    /// The step that follows `ReadLastIndexedBlock`: the height that was read is the
    /// one to start at; where the cache could not be reached or held no height, the
    /// chain is asked for its latest final block.
    pub fn after_last_indexed_block(last_indexed: Option<u64>) -> (step: StartHeightStep)
        ensures
            step == match last_indexed {
                Some(height) => StartHeightStep::StartAt { height },
                None => StartHeightStep::QueryFinalBlock,
            },
    {
        match last_indexed {
            Some(height) => StartHeightStep::StartAt { height },
            None => StartHeightStep::QueryFinalBlock,
        }
    }

    /// The step that follows `QueryFinalBlock`: the height of the final block is the
    /// one to start at.
    pub fn after_final_block(final_block: u64) -> (step: StartHeightStep)
        ensures
            step == (StartHeightStep::StartAt { height: final_block }),
    {
        StartHeightStep::StartAt { height: final_block }
    }

    /// Where a walk through the steps from `self` on ends, given what the cache and
    /// the chain answer when asked.
    pub open spec fn outcome(self, last_indexed: Option<u64>, final_block: u64) -> u64 {
        match self {
            StartHeightStep::StartAt { height } => height,
            StartHeightStep::ReadLastIndexedBlock => match last_indexed {
                Some(height) => height,
                None => final_block,
            },
            StartHeightStep::QueryFinalBlock => final_block,
        }
    }
}

/// Walking through the steps ends at `start_height`, whatever the cache and the
/// chain answer.
pub proof fn steps_reach_start_height(
    start: StartOptions,
    last_indexed: Option<u64>,
    final_block: u64,
)
    ensures
        (match start {
            StartOptions::FromBlock { height } => StartHeightStep::StartAt { height },
            StartOptions::FromInterruption => StartHeightStep::ReadLastIndexedBlock,
            StartOptions::FromLatest => StartHeightStep::QueryFinalBlock,
        }).outcome(last_indexed, final_block) == start_height(start, last_indexed, final_block),
{
}

} // verus!
