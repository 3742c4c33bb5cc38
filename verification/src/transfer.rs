//! The output: normalized transfer records.

use vstd::prelude::*;

verus! {

/// One token movement: who sent, who received, how much.
#[derive(Clone, Debug, PartialEq, Eq)]
pub struct Transfer {
    /// Display form of the sender's address; empty where it could not be
    /// resolved.
    pub from: String,
    /// Display form of the receiver's address; empty where it could not be
    /// resolved.
    pub to: String,
    pub amount: u64,
}

/// The transfers of one block, in the order in which they were found.
#[derive(Clone, Debug, PartialEq, Eq)]
pub struct Transfers {
    pub transfers: Vec<Transfer>,
}

/// A transfer as mathematical values.
pub struct TransferModel {
    pub from: Seq<char>,
    pub to: Seq<char>,
    pub amount: nat,
}

/// The records, each as its model.
pub open spec fn transfers_model(transfers: Seq<Transfer>) -> Seq<TransferModel> {
    transfers.map_values(|transfer: Transfer| transfer@)
}

impl View for Transfer {
    type V = TransferModel;

    open spec fn view(&self) -> TransferModel {
        TransferModel { from: self.from@, to: self.to@, amount: self.amount as nat }
    }
}

impl View for Transfers {
    type V = Seq<TransferModel>;

    open spec fn view(&self) -> Seq<TransferModel> {
        transfers_model(self.transfers@)
    }
}

} // verus!
