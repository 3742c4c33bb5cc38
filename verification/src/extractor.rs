//! Walking a block and collecting its transfers.
//!
//! A transaction contributes only if its execution was recorded, did not
//! fail, and it has a message. Its instructions are then decoded one by one,
//! and a contributing instruction appends exactly one record. Nothing an
//! instruction holds can stop the walk.

use vstd::prelude::*;
use crate::block::{
    instructions_model, keys_model, transactions_model, Block, BlockModel, ConfirmedTransaction,
    ExecutionModel, InstructionModel, Message, MessageModel, TransactionModel,
};
use crate::decoder::{decode, decoded};
use crate::transfer::{transfers_model, Transfer, TransferModel, Transfers};

verus! {

/// The records of one instruction: one or none.
pub open spec fn instruction_transfers(keys: Seq<Seq<u8>>, instruction: InstructionModel) -> Seq<
    TransferModel,
> {
    match decoded(keys, instruction) {
        Some(record) => seq![record],
        None => Seq::empty(),
    }
}

/// The records of a run of instructions: those of each, in instruction
/// order.
pub open spec fn instructions_transfers(
    keys: Seq<Seq<u8>>,
    instructions: Seq<InstructionModel>,
) -> Seq<TransferModel>
    decreases instructions.len(),
{
    if instructions.len() == 0 {
        Seq::empty()
    } else {
        instructions_transfers(keys, instructions.drop_last()) + instruction_transfers(
            keys,
            instructions.last(),
        )
    }
}

/// The records of a message: those of its instructions, read against its
/// own account table.
pub open spec fn message_transfers(message: MessageModel) -> Seq<TransferModel> {
    instructions_transfers(message.account_keys, message.instructions)
}

/// Whether a transaction is looked into at all.
pub open spec fn contributes(transaction: TransactionModel) -> bool {
    transaction.execution is Succeeded && transaction.message is Some
}

/// The records of a transaction: those of its message where it contributes,
/// none otherwise.
pub open spec fn transaction_transfers(transaction: TransactionModel) -> Seq<TransferModel> {
    if contributes(transaction) {
        message_transfers(transaction.message->0)
    } else {
        Seq::empty()
    }
}

/// The records of a run of transactions: those of each, in transaction
/// order.
pub open spec fn transactions_transfers(transactions: Seq<TransactionModel>) -> Seq<
    TransferModel,
>
    decreases transactions.len(),
{
    if transactions.len() == 0 {
        Seq::empty()
    } else {
        transactions_transfers(transactions.drop_last()) + transaction_transfers(
            transactions.last(),
        )
    }
}

/// The records of a block.
pub open spec fn block_transfers(block: BlockModel) -> Seq<TransferModel> {
    transactions_transfers(block.transactions)
}

/// Appends to `out` the records of the instructions of `message`, in
/// instruction order. What `out` held stays in front, untouched.
pub fn collect_message_transfers(message: &Message, out: &mut Vec<Transfer>)
    ensures
        transfers_model(final(out)@) == transfers_model(old(out)@) + message_transfers(message@),
{
    let ghost keys = keys_model(message.account_keys@);
    let ghost instructions = instructions_model(message.instructions@);
    let ghost before = transfers_model(out@);
    let mut i: usize = 0;
    while i < message.instructions.len()
        invariant
            i <= message.instructions@.len(),
            keys == keys_model(message.account_keys@),
            instructions == instructions_model(message.instructions@),
            transfers_model(out@) == before + instructions_transfers(
                keys,
                instructions.take(i as int),
            ),
        decreases message.instructions@.len() - i,
    {
        let ghost held = out@;
        let decoded_here = decode(&message.instructions[i], &message.account_keys);
        proof {
            let longer = instructions.take(i + 1);
            assert(longer.drop_last() =~= instructions.take(i as int));
            assert(longer.last() == message.instructions@[i as int]@);
        }
        match decoded_here {
            Some(record) => {
                out.push(record);
                assert(transfers_model(out@) =~= transfers_model(held).push(record@));
            },
            None => {},
        }
        i = i + 1;
    }
    assert(instructions.take(i as int) =~= instructions);
}

/// Appends to `out` the records of `transaction`: nothing where its
/// execution was not recorded, where it failed, or where it has no message;
/// otherwise the records of its message.
pub fn collect_transaction_transfers(transaction: &ConfirmedTransaction, out: &mut Vec<Transfer>)
    ensures
        transfers_model(final(out)@) == transfers_model(old(out)@) + transaction_transfers(
            transaction@,
        ),
{
    let meta = match &transaction.meta {
        Some(meta) => meta,
        None => { return ; },
    };
    if meta.err.is_some() {
        return ;
    }
    let submitted = match &transaction.transaction {
        Some(submitted) => submitted,
        None => { return ; },
    };
    let message = match &submitted.message {
        Some(message) => message,
        None => { return ; },
    };
    collect_message_transfers(message, out);
}

/// Extracts the transfers of `block`: the records of its contributing
/// transactions in transaction order, and within a transaction in
/// instruction order. Every block has a result.
pub fn map_transfers(block: Block) -> (found: Transfers)
    ensures
        found@ == block_transfers(block@),
{
    let ghost transactions = transactions_model(block.transactions@);
    let mut transfers: Vec<Transfer> = Vec::new();
    let mut i: usize = 0;
    while i < block.transactions.len()
        invariant
            i <= block.transactions@.len(),
            transactions == transactions_model(block.transactions@),
            transfers_model(transfers@) == transactions_transfers(transactions.take(i as int)),
        decreases block.transactions@.len() - i,
    {
        collect_transaction_transfers(&block.transactions[i], &mut transfers);
        proof {
            let longer = transactions.take(i + 1);
            assert(longer.drop_last() =~= transactions.take(i as int));
            assert(longer.last() == block.transactions@[i as int]@);
        }
        i = i + 1;
    }
    assert(transactions.take(i as int) =~= transactions);
    Transfers { transfers }
}

} // verus!
