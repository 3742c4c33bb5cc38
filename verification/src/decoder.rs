//! Decoding one instruction into a transfer record.
//!
//! Decoding defaults rather than fails: once the payload is recognised as a
//! transfer a record is always produced, with an empty address wherever an
//! account reference cannot be followed.

use vstd::prelude::*;
use crate::address::{account_address, address_text};
use crate::block::{keys_model, CompiledInstruction, InstructionModel};
use crate::payload::{decode_amount, is_transfer, is_transfer_payload, payload_amount};
use crate::transfer::{Transfer, TransferModel};

verus! {

/// Position of the sender in an instruction's account list.
pub const SENDER_POSITION: usize = 0;

/// Position of the receiver in an instruction's account list.
pub const RECEIVER_POSITION: usize = 1;

/// The record that a transfer instruction stands for, read against the
/// account table `keys`.
pub open spec fn decoded_transfer(keys: Seq<Seq<u8>>, instruction: InstructionModel) -> TransferModel {
    TransferModel {
        from: address_text(keys, instruction.accounts, SENDER_POSITION as int),
        to: address_text(keys, instruction.accounts, RECEIVER_POSITION as int),
        amount: payload_amount(instruction.data),
    }
}

/// What an instruction decodes to: its record where the payload is a
/// transfer, nothing otherwise.
pub open spec fn decoded(keys: Seq<Seq<u8>>, instruction: InstructionModel) -> Option<
    TransferModel,
> {
    if is_transfer_payload(instruction.data) {
        Some(decoded_transfer(keys, instruction))
    } else {
        None
    }
}

/// Decodes `instruction` against the account table of its message.
///
/// Returns a record exactly when the payload is a transfer. The record holds
/// the amount read from the payload and the display addresses of the
/// accounts at positions 0 and 1, each empty where it does not resolve.
pub fn decode(instruction: &CompiledInstruction, account_keys: &Vec<Vec<u8>>) -> (transfer:
    Option<Transfer>)
    ensures
        decoded(keys_model(account_keys@), instruction@) == match transfer {
            Some(record) => Some(record@),
            None => None,
        },
        transfer is Some <==> is_transfer_payload(instruction.data@),
{
    if !is_transfer(instruction.data.as_slice()) {
        return None;
    }
    let amount = decode_amount(instruction.data.as_slice());
    let from = account_address(account_keys, instruction.accounts.as_slice(), SENDER_POSITION);
    let to = account_address(account_keys, instruction.accounts.as_slice(), RECEIVER_POSITION);
    Some(Transfer { from, to, amount })
}

} // verus!
