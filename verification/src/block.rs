//! The input: a block of confirmed transactions, as plain values.
//!
//! Only what the extraction reads is kept: per transaction the optional
//! execution metadata with its error indicator and the optional message; per
//! message the account table and the instructions; per instruction the
//! indices into the account table and the raw payload.

use vstd::prelude::*;

verus! {

/// One operation of a transaction.
#[derive(Clone, Debug, PartialEq, Eq)]
pub struct CompiledInstruction {
    /// Indices into the account table of the enclosing message, one byte
    /// each.
    pub accounts: Vec<u8>,
    /// The raw instruction payload.
    pub data: Vec<u8>,
}

/// The body of a transaction.
#[derive(Clone, Debug, PartialEq, Eq)]
pub struct Message {
    /// The account table: raw keys that instructions refer to by index.
    pub account_keys: Vec<Vec<u8>>,
    /// The instructions, in execution order.
    pub instructions: Vec<CompiledInstruction>,
}

/// A transaction as it was submitted.
#[derive(Clone, Debug, PartialEq, Eq)]
pub struct Transaction {
    pub message: Option<Message>,
}

/// Why a transaction failed, in the chain's own encoding.
#[derive(Clone, Debug, PartialEq, Eq)]
pub struct TransactionError {
    pub err: Vec<u8>,
}

/// What the chain recorded about a transaction's execution.
#[derive(Clone, Debug, PartialEq, Eq)]
pub struct TransactionStatusMeta {
    /// Present exactly when execution failed.
    pub err: Option<TransactionError>,
}

/// A transaction together with the record of its execution.
#[derive(Clone, Debug, PartialEq, Eq)]
pub struct ConfirmedTransaction {
    pub transaction: Option<Transaction>,
    pub meta: Option<TransactionStatusMeta>,
}

/// A batch of confirmed transactions.
#[derive(Clone, Debug, PartialEq, Eq)]
pub struct Block {
    pub transactions: Vec<ConfirmedTransaction>,
}

/// An instruction as sequences of bytes.
pub struct InstructionModel {
    pub accounts: Seq<u8>,
    pub data: Seq<u8>,
}

/// A message as sequences.
pub struct MessageModel {
    pub account_keys: Seq<Seq<u8>>,
    pub instructions: Seq<InstructionModel>,
}

/// What is known of a transaction's execution.
pub enum ExecutionModel {
    /// No metadata was recorded.
    Unrecorded,
    /// Metadata without an error indicator.
    Succeeded,
    /// Metadata with an error indicator, which holds these bytes.
    Failed(Seq<u8>),
}

/// A confirmed transaction: how it ran, and its message where it has one.
pub struct TransactionModel {
    pub execution: ExecutionModel,
    pub message: Option<MessageModel>,
}

/// A block as a sequence of transactions.
pub struct BlockModel {
    pub transactions: Seq<TransactionModel>,
}

/// The account table as a sequence of byte sequences.
pub open spec fn keys_model(keys: Seq<Vec<u8>>) -> Seq<Seq<u8>> {
    keys.map_values(|key: Vec<u8>| key@)
}

/// The instructions, each as its model.
pub open spec fn instructions_model(instructions: Seq<CompiledInstruction>) -> Seq<
    InstructionModel,
> {
    instructions.map_values(|instruction: CompiledInstruction| instruction@)
}

/// The transactions, each as its model.
pub open spec fn transactions_model(transactions: Seq<ConfirmedTransaction>) -> Seq<
    TransactionModel,
> {
    transactions.map_values(|transaction: ConfirmedTransaction| transaction@)
}

impl View for CompiledInstruction {
    type V = InstructionModel;

    open spec fn view(&self) -> InstructionModel {
        InstructionModel { accounts: self.accounts@, data: self.data@ }
    }
}

impl View for Message {
    type V = MessageModel;

    open spec fn view(&self) -> MessageModel {
        MessageModel {
            account_keys: keys_model(self.account_keys@),
            instructions: instructions_model(self.instructions@),
        }
    }
}

impl View for TransactionStatusMeta {
    type V = ExecutionModel;

    open spec fn view(&self) -> ExecutionModel {
        match self.err {
            Some(error) => ExecutionModel::Failed(error.err@),
            None => ExecutionModel::Succeeded,
        }
    }
}

impl View for ConfirmedTransaction {
    type V = TransactionModel;

    open spec fn view(&self) -> TransactionModel {
        TransactionModel {
            execution: match self.meta {
                Some(meta) => meta@,
                None => ExecutionModel::Unrecorded,
            },
            message: match self.transaction {
                Some(Transaction { message: Some(message) }) => Some(message@),
                _ => None,
            },
        }
    }
}

impl View for Block {
    type V = BlockModel;

    open spec fn view(&self) -> BlockModel {
        BlockModel { transactions: transactions_model(self.transactions@) }
    }
}

} // verus!
