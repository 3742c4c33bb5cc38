//! What holds of the extraction on every input.

use vstd::prelude::*;
use crate::address::{address_text, base58, resolved_key};
use crate::block::{ConfirmedTransaction, InstructionModel, TransactionModel};
use crate::decoder::decoded;
use crate::extractor::{
    contributes, instruction_transfers, instructions_transfers, transaction_transfers,
    transactions_transfers,
};
use crate::payload::{
    is_transfer_payload, lemma_transfer_payload_round_trip, payload_amount, transfer_payload,
    transfer_tag_bytes,
};
use crate::transfer::TransferModel;

verus! {

/// A transaction whose metadata carries an error indicator yields no record,
/// whatever its instructions hold.
pub proof fn lemma_failed_transaction_yields_nothing(transaction: ConfirmedTransaction)
    requires
        transaction.meta is Some,
        transaction.meta->0.err is Some,
    ensures
        transaction@.execution is Failed,
        transaction_transfers(transaction@) == Seq::<TransferModel>::empty(),
{
}

/// A transaction without metadata, or without a message, yields no record.
pub proof fn lemma_incomplete_transaction_yields_nothing(transaction: ConfirmedTransaction)
    requires
        transaction.meta is None || transaction.transaction is None
            || transaction.transaction->0.message is None,
    ensures
        transaction_transfers(transaction@) == Seq::<TransferModel>::empty(),
{
}

/// A run in which no transaction contributes yields no record.
pub proof fn lemma_skipped_transactions_yield_nothing(transactions: Seq<TransactionModel>)
    requires
        forall|i: int| 0 <= i < transactions.len() ==> !contributes(#[trigger] transactions[i]),
    ensures
        transactions_transfers(transactions) == Seq::<TransferModel>::empty(),
    decreases transactions.len(),
{
    if transactions.len() > 0 {
        lemma_skipped_transactions_yield_nothing(transactions.drop_last());
    }
}

/// A transaction that does not contribute leaves no trace: the records of
/// the block are those of the block without it.
pub proof fn lemma_skipped_transaction_is_invisible(
    before: Seq<TransactionModel>,
    skipped: TransactionModel,
    after: Seq<TransactionModel>,
)
    requires
        !contributes(skipped),
    ensures
        transactions_transfers(before + seq![skipped] + after) == transactions_transfers(
            before + after,
        ),
{
    lemma_transactions_in_order(before + seq![skipped], after);
    lemma_transactions_in_order(before, seq![skipped]);
    lemma_transactions_in_order(before, after);
    assert(seq![skipped].drop_last() =~= Seq::<TransactionModel>::empty());
    reveal_with_fuel(transactions_transfers, 2);
}

/// An instruction whose payload is not 12 bytes long, or does not start with
/// the discriminator, yields no record.
pub proof fn lemma_other_payload_yields_nothing(keys: Seq<Seq<u8>>, instruction: InstructionModel)
    requires
        instruction.data.len() != 12 || instruction.data.subrange(0, 4) != transfer_tag_bytes(),
    ensures
        decoded(keys, instruction) is None,
        instruction_transfers(keys, instruction) == Seq::<TransferModel>::empty(),
{
    if is_transfer_payload(instruction.data) {
        assert(instruction.data.subrange(0, 4) =~= transfer_tag_bytes());
    }
}

/// The payload built for `amount`, with an account list whose first two
/// entries point into the account table, decodes to that amount and to the
/// base-58 forms of the two keys pointed at.
pub proof fn lemma_decode_round_trip(keys: Seq<Seq<u8>>, accounts: Seq<u8>, amount: u64)
    requires
        accounts.len() >= 2,
        (accounts[0] as int) < keys.len(),
        (accounts[1] as int) < keys.len(),
    ensures
        decoded(
            keys,
            (InstructionModel { accounts, data: transfer_payload(amount as nat) }),
        ) == Some(
            (TransferModel {
                from: base58(keys[accounts[0] as int]),
                to: base58(keys[accounts[1] as int]),
                amount: amount as nat,
            }),
        ),
{
    lemma_transfer_payload_round_trip(amount as nat);
}

/// The records of two runs of transactions put end to end are the records
/// of the first followed by those of the second: records come out in
/// transaction order.
pub proof fn lemma_transactions_in_order(
    first: Seq<TransactionModel>,
    second: Seq<TransactionModel>,
)
    ensures
        transactions_transfers(first + second) == transactions_transfers(first)
            + transactions_transfers(second),
    decreases second.len(),
{
    if second.len() == 0 {
        assert(first + second =~= first);
    } else {
        lemma_transactions_in_order(first, second.drop_last());
        assert((first + second).drop_last() =~= first + second.drop_last());
        assert((first + second).last() == second.last());
    }
}

/// Within a message, the records of two runs of instructions put end to end
/// are the records of the first followed by those of the second: records
/// come out in instruction order.
pub proof fn lemma_instructions_in_order(
    keys: Seq<Seq<u8>>,
    first: Seq<InstructionModel>,
    second: Seq<InstructionModel>,
)
    ensures
        instructions_transfers(keys, first + second) == instructions_transfers(keys, first)
            + instructions_transfers(keys, second),
    decreases second.len(),
{
    if second.len() == 0 {
        assert(first + second =~= first);
    } else {
        lemma_instructions_in_order(keys, first, second.drop_last());
        assert((first + second).drop_last() =~= first + second.drop_last());
        assert((first + second).last() == second.last());
    }
}

/// A run of one transaction yields what that transaction yields, and a run
/// of one instruction what that instruction yields.
pub proof fn lemma_single_step(
    keys: Seq<Seq<u8>>,
    transaction: TransactionModel,
    instruction: InstructionModel,
)
    ensures
        transactions_transfers(seq![transaction]) == transaction_transfers(transaction),
        instructions_transfers(keys, seq![instruction]) == instruction_transfers(keys, instruction),
{
    assert(seq![transaction].drop_last() =~= Seq::<TransactionModel>::empty());
    assert(seq![instruction].drop_last() =~= Seq::<InstructionModel>::empty());
    reveal_with_fuel(transactions_transfers, 2);
    reveal_with_fuel(instructions_transfers, 2);
}

/// An account reference that cannot be followed displays as the empty
/// string.
pub proof fn lemma_unresolved_address_is_empty(
    keys: Seq<Seq<u8>>,
    accounts: Seq<u8>,
    position: int,
)
    requires
        resolved_key(keys, accounts, position) is None,
    ensures
        address_text(keys, accounts, position) == Seq::<char>::empty(),
{
}

/// A transfer instruction with an empty account list still yields a record:
/// both addresses empty, the amount as the payload holds it.
pub proof fn lemma_empty_accounts_degrade(keys: Seq<Seq<u8>>, data: Seq<u8>)
    requires
        is_transfer_payload(data),
    ensures
        decoded(keys, (InstructionModel { accounts: Seq::empty(), data })) == Some(
            (TransferModel {
                from: Seq::empty(),
                to: Seq::empty(),
                amount: payload_amount(data),
            }),
        ),
{
}

} // verus!
