//! Extraction of token-transfer events from blocks of confirmed transactions.
//!
//! A block is walked transaction by transaction and instruction by
//! instruction. Every instruction of a successful transaction whose payload
//! has the fixed binary layout of a transfer yields one [`transfer::Transfer`]
//! record: sender address, receiver address and amount. The transformation is
//! stateless and total: it never fails, whatever the block holds.

pub mod address;
pub mod block;
pub mod decoder;
pub mod extractor;
pub mod laws;
pub mod payload;
pub mod transfer;
