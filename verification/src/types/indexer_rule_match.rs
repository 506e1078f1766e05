//! Match records: what the engine reports for a receipt that satisfies a rule.

use crate::text::option_view;
use vstd::prelude::*;

verus! {

pub type TransactionHashString = String;

pub type ReceiptIdString = String;

pub type BlockHashString = String;

/// The chain a block belongs to.
#[derive(Clone, Copy, Debug, PartialEq, Eq)]
pub enum ChainId {
    Mainnet,
    Testnet,
}

/// What a match record says about the receipt that was hit.
#[derive(Clone, Debug, PartialEq, Eq)]
pub enum IndexerRuleMatchPayload {
    Actions {
        block_hash: BlockHashString,
        receipt_id: ReceiptIdString,
        transaction_hash: Option<TransactionHashString>,
    },
    Events {
        block_hash: BlockHashString,
        receipt_id: ReceiptIdString,
        transaction_hash: Option<TransactionHashString>,
        event: String,
        standard: String,
        version: String,
        data: Option<String>,
    },
    StateChanges {
        block_hash: BlockHashString,
        receipt_id: Option<ReceiptIdString>,
        transaction_hash: Option<TransactionHashString>,
    },
}

/// A match record: the rule that matched, the block it matched in, and the payload.
#[derive(Clone, Debug, PartialEq, Eq)]
pub struct IndexerRuleMatch {
    pub chain_id: ChainId,
    pub indexer_rule_id: Option<u32>,
    pub indexer_rule_name: Option<String>,
    pub payload: IndexerRuleMatchPayload,
    pub block_height: u64,
}

/// The mathematical content of an `IndexerRuleMatchPayload`.
pub enum PayloadView {
    Actions { block_hash: Seq<char>, receipt_id: Seq<char>, transaction_hash: Option<Seq<char>> },
    Events {
        block_hash: Seq<char>,
        receipt_id: Seq<char>,
        transaction_hash: Option<Seq<char>>,
        event: Seq<char>,
        standard: Seq<char>,
        version: Seq<char>,
        data: Option<Seq<char>>,
    },
    StateChanges {
        block_hash: Seq<char>,
        receipt_id: Option<Seq<char>>,
        transaction_hash: Option<Seq<char>>,
    },
}

/// The mathematical content of an `IndexerRuleMatch`.
pub struct MatchView {
    pub chain_id: ChainId,
    pub indexer_rule_id: Option<u32>,
    pub indexer_rule_name: Option<Seq<char>>,
    pub payload: PayloadView,
    pub block_height: u64,
}

impl View for IndexerRuleMatchPayload {
    type V = PayloadView;

    open spec fn view(&self) -> PayloadView {
        match *self {
            IndexerRuleMatchPayload::Actions { block_hash, receipt_id, transaction_hash } => {
                PayloadView::Actions {
                    block_hash: block_hash@,
                    receipt_id: receipt_id@,
                    transaction_hash: option_view(transaction_hash),
                }
            },
            IndexerRuleMatchPayload::Events {
                block_hash,
                receipt_id,
                transaction_hash,
                event,
                standard,
                version,
                data,
            } => PayloadView::Events {
                block_hash: block_hash@,
                receipt_id: receipt_id@,
                transaction_hash: option_view(transaction_hash),
                event: event@,
                standard: standard@,
                version: version@,
                data: option_view(data),
            },
            IndexerRuleMatchPayload::StateChanges { block_hash, receipt_id, transaction_hash } => {
                PayloadView::StateChanges {
                    block_hash: block_hash@,
                    receipt_id: option_view(receipt_id),
                    transaction_hash: option_view(transaction_hash),
                }
            },
        }
    }
}

impl View for IndexerRuleMatch {
    type V = MatchView;

    open spec fn view(&self) -> MatchView {
        MatchView {
            chain_id: self.chain_id,
            indexer_rule_id: self.indexer_rule_id,
            indexer_rule_name: option_view(self.indexer_rule_name),
            payload: self.payload@,
            block_height: self.block_height,
        }
    }
}

impl PayloadView {
    /// The hash of the block the receipt was executed in.
    pub open spec fn block_hash(self) -> Seq<char> {
        match self {
            PayloadView::Actions { block_hash, .. } => block_hash,
            PayloadView::Events { block_hash, .. } => block_hash,
            PayloadView::StateChanges { block_hash, .. } => block_hash,
        }
    }

    /// The id of the receipt, where the payload names one.
    pub open spec fn receipt_id(self) -> Option<Seq<char>> {
        match self {
            PayloadView::Actions { receipt_id, .. } => Some(receipt_id),
            PayloadView::Events { receipt_id, .. } => Some(receipt_id),
            PayloadView::StateChanges { receipt_id, .. } => receipt_id,
        }
    }

    /// The hash of the transaction the receipt stems from, where the payload names one.
    pub open spec fn transaction_hash(self) -> Option<Seq<char>> {
        match self {
            PayloadView::Actions { transaction_hash, .. } => transaction_hash,
            PayloadView::Events { transaction_hash, .. } => transaction_hash,
            PayloadView::StateChanges { transaction_hash, .. } => transaction_hash,
        }
    }

    /// Whether the payload names its block, and its receipt where it is about one.
    pub open spec fn well_formed(self) -> bool {
        &&& self.block_hash().len() > 0
        &&& self is Actions || self is Events ==> self.receipt_id().unwrap().len() > 0
    }
}

impl ChainId {
    /// The address of the chain's explorer.
    pub open spec fn explorer(self) -> Seq<char> {
        match self {
            ChainId::Mainnet => "https://explorer.near.org"@,
            ChainId::Testnet => "https://explorer.testnet.near.org"@,
        }
    }

    /// The name of the chain.
    pub open spec fn name(self) -> Seq<char> {
        match self {
            ChainId::Mainnet => "mainnet"@,
            ChainId::Testnet => "testnet"@,
        }
    }

    /// The name of the chain, in lower case.
    pub fn to_string(&self) -> (name: String)
        ensures
            name@ == self.name(),
    {
        match self {
            ChainId::Mainnet => "mainnet".to_owned(),
            ChainId::Testnet => "testnet".to_owned(),
        }
    }
}

/// Where the explorer at `explorer` shows what a payload is about: the transaction,
/// with the receipt as its fragment where there is one, if the payload names a
/// transaction; the block otherwise.
pub open spec fn explorer_link_of(explorer: Seq<char>, payload: PayloadView) -> Seq<char> {
    match payload.transaction_hash() {
        Some(transaction_hash) => match payload.receipt_id() {
            Some(receipt_id) => explorer + "/transactions/"@ + transaction_hash + "#"@
                + receipt_id,
            None => explorer + "/transactions/"@ + transaction_hash,
        },
        None => explorer + "/block/"@ + payload.block_hash(),
    }
}

impl IndexerRuleMatchPayload {
    pub fn block_hash(&self) -> (hash: BlockHashString)
        ensures
            hash@ == self@.block_hash(),
    {
        match self {
            Self::Actions { block_hash, .. } => block_hash.clone(),
            Self::Events { block_hash, .. } => block_hash.clone(),
            Self::StateChanges { block_hash, .. } => block_hash.clone(),
        }
    }

    pub fn receipt_id(&self) -> (id: Option<ReceiptIdString>)
        ensures
            option_view(id) == self@.receipt_id(),
    {
        match self {
            Self::Actions { receipt_id, .. } => Some(receipt_id.clone()),
            Self::Events { receipt_id, .. } => Some(receipt_id.clone()),
            Self::StateChanges { receipt_id, .. } => receipt_id.clone(),
        }
    }

    pub fn transaction_hash(&self) -> (hash: Option<TransactionHashString>)
        ensures
            option_view(hash) == self@.transaction_hash(),
    {
        match self {
            Self::Actions { transaction_hash, .. } => transaction_hash.clone(),
            Self::Events { transaction_hash, .. } => transaction_hash.clone(),
            Self::StateChanges { transaction_hash, .. } => transaction_hash.clone(),
        }
    }
}

impl IndexerRuleMatch {
    /// The address at which the chain's explorer shows what was matched.
    pub fn explorer_link(&self) -> (link: String)
        ensures
            link@ == explorer_link_of(self.chain_id.explorer(), self.payload@),
    {
        let mut link = match self.chain_id {
            ChainId::Testnet => "https://explorer.testnet.near.org".to_owned(),
            ChainId::Mainnet => "https://explorer.near.org".to_owned(),
        };
        if let Some(transaction_hash) = self.payload.transaction_hash() {
            link.append("/transactions/");
            link.append(transaction_hash.as_str());
            if let Some(receipt_id) = self.payload.receipt_id() {
                link.append("#");
                link.append(receipt_id.as_str());
            }
        } else {
            link.append("/block/");
            link.append(self.payload.block_hash().as_str());
        }
        link
    }
}

impl MatchView {
    /// Whether the record names its block, and its receipt where it is about one.
    pub open spec fn well_formed(self) -> bool {
        self.payload.well_formed()
    }
}

} // verus!
