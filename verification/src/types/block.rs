//! A block message as the engine reads it: a header and, shard by shard, the outcomes
//! of the receipts that were executed in the block.

use crate::text::strings_view;
use vstd::prelude::*;

verus! {

/// What identifies a block.
#[derive(Clone, Debug, PartialEq, Eq)]
pub struct BlockHeader {
    pub hash: String,
    pub height: u64,
    pub timestamp: u64,
}

/// One operation of a receipt. Only a function call carries more than its kind.
#[derive(Clone, Debug, PartialEq, Eq)]
pub enum Action {
    CreateAccount,
    DeployContract,
    FunctionCall { method_name: String, args: Vec<u8> },
    Transfer,
    Stake,
    AddKey,
    DeleteKey,
    DeleteAccount,
    Delegate,
    DeployGlobalContract,
    UseGlobalContract,
    DeterministicStateInit,
    TransferToGasKey,
    WithdrawFromGasKey,
}

/// A unit of cross-contract work addressed to a receiver account.
#[derive(Clone, Debug, PartialEq, Eq)]
pub struct Receipt {
    pub receipt_id: String,
    pub predecessor_id: String,
    pub receiver_id: String,
    pub actions: Vec<Action>,
}

/// How the execution of a receipt ended.
#[derive(Clone, Copy, Debug, PartialEq, Eq)]
pub enum ExecutionStatus {
    /// Pending or unknown.
    Unknown,
    /// The execution failed.
    Failure,
    /// The last action succeeded and returned a value.
    SuccessValue,
    /// The last action handed over to a further receipt.
    SuccessReceiptId,
}

/// The result of executing a receipt.
#[derive(Clone, Debug, PartialEq, Eq)]
pub struct ExecutionOutcome {
    pub status: ExecutionStatus,
    pub logs: Vec<String>,
    pub gas_burnt: u64,
    pub tokens_burnt: u128,
}

/// A receipt together with the outcome of its execution.
#[derive(Clone, Debug, PartialEq, Eq)]
pub struct ReceiptExecutionOutcome {
    pub receipt: Receipt,
    pub execution_outcome: ExecutionOutcome,
}

/// A partition of a block's execution.
#[derive(Clone, Debug, PartialEq, Eq)]
pub struct Shard {
    pub shard_id: u64,
    pub receipt_execution_outcomes: Vec<ReceiptExecutionOutcome>,
}

/// One streaming unit: a block header and the outcomes of all its shards.
#[derive(Clone, Debug, PartialEq, Eq)]
pub struct BlockMessage {
    pub header: BlockHeader,
    pub shards: Vec<Shard>,
}

/// The mathematical content of an `Action`.
pub enum ActionView {
    CreateAccount,
    DeployContract,
    FunctionCall { method_name: Seq<char>, args: Seq<u8> },
    Transfer,
    Stake,
    AddKey,
    DeleteKey,
    DeleteAccount,
    Delegate,
    DeployGlobalContract,
    UseGlobalContract,
    DeterministicStateInit,
    TransferToGasKey,
    WithdrawFromGasKey,
}

/// The mathematical content of a `Receipt`.
pub struct ReceiptView {
    pub receipt_id: Seq<char>,
    pub predecessor_id: Seq<char>,
    pub receiver_id: Seq<char>,
    pub actions: Seq<ActionView>,
}

/// The mathematical content of an `ExecutionOutcome`.
pub struct ExecutionOutcomeView {
    pub status: ExecutionStatus,
    pub logs: Seq<Seq<char>>,
    pub gas_burnt: u64,
    pub tokens_burnt: u128,
}

/// The mathematical content of a `ReceiptExecutionOutcome`.
pub struct OutcomeView {
    pub receipt: ReceiptView,
    pub execution_outcome: ExecutionOutcomeView,
}

/// The mathematical content of a `Shard`.
pub struct ShardView {
    pub shard_id: u64,
    pub receipt_execution_outcomes: Seq<OutcomeView>,
}

/// The mathematical content of a `BlockHeader`.
pub struct BlockHeaderView {
    pub hash: Seq<char>,
    pub height: u64,
    pub timestamp: u64,
}

/// The mathematical content of a `BlockMessage`.
pub struct BlockView {
    pub header: BlockHeaderView,
    pub shards: Seq<ShardView>,
}

impl View for Action {
    type V = ActionView;

    open spec fn view(&self) -> ActionView {
        match *self {
            Action::CreateAccount => ActionView::CreateAccount,
            Action::DeployContract => ActionView::DeployContract,
            Action::FunctionCall { method_name, args } => ActionView::FunctionCall {
                method_name: method_name@,
                args: args@,
            },
            Action::Transfer => ActionView::Transfer,
            Action::Stake => ActionView::Stake,
            Action::AddKey => ActionView::AddKey,
            Action::DeleteKey => ActionView::DeleteKey,
            Action::DeleteAccount => ActionView::DeleteAccount,
            Action::Delegate => ActionView::Delegate,
            Action::DeployGlobalContract => ActionView::DeployGlobalContract,
            Action::UseGlobalContract => ActionView::UseGlobalContract,
            Action::DeterministicStateInit => ActionView::DeterministicStateInit,
            Action::TransferToGasKey => ActionView::TransferToGasKey,
            Action::WithdrawFromGasKey => ActionView::WithdrawFromGasKey,
        }
    }
}

impl View for Receipt {
    type V = ReceiptView;

    open spec fn view(&self) -> ReceiptView {
        ReceiptView {
            receipt_id: self.receipt_id@,
            predecessor_id: self.predecessor_id@,
            receiver_id: self.receiver_id@,
            actions: self.actions@.map_values(|action: Action| action@),
        }
    }
}

impl View for ExecutionOutcome {
    type V = ExecutionOutcomeView;

    open spec fn view(&self) -> ExecutionOutcomeView {
        ExecutionOutcomeView {
            status: self.status,
            logs: strings_view(self.logs@),
            gas_burnt: self.gas_burnt,
            tokens_burnt: self.tokens_burnt,
        }
    }
}

impl View for ReceiptExecutionOutcome {
    type V = OutcomeView;

    open spec fn view(&self) -> OutcomeView {
        OutcomeView { receipt: self.receipt@, execution_outcome: self.execution_outcome@ }
    }
}

/// The mathematical content of a list of outcomes.
pub open spec fn outcomes_view(outcomes: Seq<ReceiptExecutionOutcome>) -> Seq<OutcomeView> {
    outcomes.map_values(|outcome: ReceiptExecutionOutcome| outcome@)
}

impl View for Shard {
    type V = ShardView;

    open spec fn view(&self) -> ShardView {
        ShardView {
            shard_id: self.shard_id,
            receipt_execution_outcomes: outcomes_view(self.receipt_execution_outcomes@),
        }
    }
}

impl View for BlockHeader {
    type V = BlockHeaderView;

    open spec fn view(&self) -> BlockHeaderView {
        BlockHeaderView { hash: self.hash@, height: self.height, timestamp: self.timestamp }
    }
}

impl View for BlockMessage {
    type V = BlockView;

    open spec fn view(&self) -> BlockView {
        BlockView { header: self.header@, shards: self.shards@.map_values(|shard: Shard| shard@) }
    }
}

impl ExecutionStatus {
    /// Whether the execution ended in success: with a value, or by handing over to a
    /// further receipt.
    pub open spec fn is_success(self) -> bool {
        self is SuccessValue || self is SuccessReceiptId
    }

    /// Decides `is_success`.
    pub fn succeeded(&self) -> (r: bool)
        ensures
            r == self.is_success(),
    {
        match self {
            ExecutionStatus::SuccessValue | ExecutionStatus::SuccessReceiptId => true,
            ExecutionStatus::Unknown | ExecutionStatus::Failure => false,
        }
    }
}

impl BlockView {
    /// Whether the block names itself and each of its receipts: the block hash and
    /// every receipt id are non-empty.
    pub open spec fn well_formed(self) -> bool {
        &&& self.header.hash.len() > 0
        &&& forall|s: int, r: int|
            0 <= s < self.shards.len() && 0 <= r < self.shards[s].receipt_execution_outcomes.len()
                ==> (#[trigger] self.shards[s].receipt_execution_outcomes[r]).receipt.receipt_id.len()
                > 0
    }
}

} // verus!
