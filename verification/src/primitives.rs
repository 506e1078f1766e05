//! Alert messages: what is queued for delivery when an alert rule fires.

use vstd::prelude::*;

verus! {

pub type TransactionHashString = String;

pub type ReceiptIdString = String;

pub type BlockHashString = String;

/// The chain an alert was raised on.
#[derive(Clone, Copy, Debug, PartialEq, Eq)]
pub enum ChainId {
    Mainnet,
    Testnet,
}

/// What an alert is about.
#[derive(Clone, Debug, PartialEq, Eq)]
pub enum AlertQueueMessagePayload {
    Actions {
        block_hash: BlockHashString,
        receipt_id: ReceiptIdString,
        transaction_hash: TransactionHashString,
    },
}

/// An alert in the queue.
#[derive(Clone, Debug, PartialEq, Eq)]
pub struct AlertQueueMessage {
    pub chain_id: ChainId,
    pub alert_rule_id: i32,
    pub payload: AlertQueueMessagePayload,
}

/// The mathematical content of an `AlertQueueMessagePayload`.
pub enum AlertPayloadView {
    Actions { block_hash: Seq<char>, receipt_id: Seq<char>, transaction_hash: Seq<char> },
}

impl View for AlertQueueMessagePayload {
    type V = AlertPayloadView;

    open spec fn view(&self) -> AlertPayloadView {
        match *self {
            AlertQueueMessagePayload::Actions { block_hash, receipt_id, transaction_hash } => {
                AlertPayloadView::Actions {
                    block_hash: block_hash@,
                    receipt_id: receipt_id@,
                    transaction_hash: transaction_hash@,
                }
            },
        }
    }
}

impl AlertPayloadView {
    /// The hash of the block.
    pub open spec fn block_hash(self) -> Seq<char> {
        match self {
            AlertPayloadView::Actions { block_hash, .. } => block_hash,
        }
    }

    /// The id of the receipt.
    pub open spec fn receipt_id(self) -> Seq<char> {
        match self {
            AlertPayloadView::Actions { receipt_id, .. } => receipt_id,
        }
    }

    /// The hash of the transaction.
    pub open spec fn transaction_hash(self) -> Seq<char> {
        match self {
            AlertPayloadView::Actions { transaction_hash, .. } => transaction_hash,
        }
    }
}

impl ChainId {
    /// The address of the chain's explorer.
    pub open spec fn explorer(self) -> Seq<char> {
        match self {
            ChainId::Mainnet => "https://explorer.near.org"@,
            ChainId::Testnet => "https://explorer.testnet.near.org"@,
        }
    }
}

impl AlertQueueMessagePayload {
    pub fn block_hash(&self) -> (hash: BlockHashString)
        ensures
            hash@ == self@.block_hash(),
    {
        match self {
            Self::Actions { block_hash, .. } => block_hash.clone(),
        }
    }

    pub fn receipt_id(&self) -> (id: Option<ReceiptIdString>)
        ensures
            id matches Some(receipt_id) && receipt_id@ == self@.receipt_id(),
    {
        match self {
            Self::Actions { receipt_id, .. } => Some(receipt_id.clone()),
        }
    }

    pub fn transaction_hash(&self) -> (hash: Option<TransactionHashString>)
        ensures
            hash matches Some(transaction_hash) && transaction_hash@ == self@.transaction_hash(),
    {
        match self {
            Self::Actions { transaction_hash, .. } => Some(transaction_hash.clone()),
        }
    }
}

impl AlertQueueMessage {
    /// The address at which the chain's explorer shows the transaction of the alert,
    /// with the receipt as its fragment.
    pub fn explorer_link(&self) -> (link: String)
        ensures
            link@ == self.chain_id.explorer() + "/transactions/"@ + self.payload@.transaction_hash()
                + "#"@ + self.payload@.receipt_id(),
    {
        let mut link = match self.chain_id {
            ChainId::Testnet => "https://explorer.testnet.near.org".to_owned(),
            ChainId::Mainnet => "https://explorer.near.org".to_owned(),
        };
        match (self.payload.transaction_hash(), self.payload.receipt_id()) {
            (Some(transaction_hash), Some(receipt_id)) => {
                link.append("/transactions/");
                link.append(transaction_hash.as_str());
                link.append("#");
                link.append(receipt_id.as_str());
            },
            _ => {
                link.append("/block/");
                link.append(self.payload.block_hash().as_str());
            },
        }
        link
    }
}

} // verus!
