//! Resolving an instruction's account references to display addresses.
//!
//! An instruction names its accounts by position in its own index list; each
//! index points into the account table of the enclosing message. A reference
//! that cannot be followed, because the list is too short or the index lies
//! outside the table, resolves to nothing, and nothing displays as the empty
//! string.

use vstd::prelude::*;
use crate::block::keys_model;

verus! {

/// The base-58 display form of a raw key, in the Bitcoin alphabet.
pub uninterp spec fn base58(bytes: Seq<u8>) -> Seq<char>;

/// Calls `bs58::encode(..).into_string()`: the result is the base-58 text of
/// `key` in the default alphabet, a function of the bytes alone. The call
/// cannot fail: it encodes into a growable buffer sized for the worst case.
#[verifier::external_body]
fn encode_base58(key: &[u8]) -> (text: String)
    ensures
        text@ == base58(key@),
{
    bs58::encode(key).into_string()
}

/// The key that the account reference at `position` leads to, if it leads
/// anywhere.
pub open spec fn resolved_key(keys: Seq<Seq<u8>>, accounts: Seq<u8>, position: int) -> Option<
    Seq<u8>,
> {
    if 0 <= position < accounts.len() && (accounts[position] as int) < keys.len() {
        Some(keys[accounts[position] as int])
    } else {
        None
    }
}

/// What is displayed for an encoded address that may be missing.
pub open spec fn text_or_empty(encoded: Option<Seq<char>>) -> Seq<char> {
    match encoded {
        Some(text) => text,
        None => Seq::empty(),
    }
}

/// The display address of the account at `position`: the base-58 form of
/// the resolved key, or the empty string where nothing resolves.
pub open spec fn address_text(keys: Seq<Seq<u8>>, accounts: Seq<u8>, position: int) -> Seq<
    char,
> {
    text_or_empty(
        match resolved_key(keys, accounts, position) {
            Some(key) => Some(base58(key)),
            None => None,
        },
    )
}

/// Follows the account reference at `position` of an instruction's index
/// list through the account table. `None` where the list has no such
/// position or the index there lies outside the table.
pub fn resolve_account<'a>(
    account_keys: &'a Vec<Vec<u8>>,
    accounts: &[u8],
    position: usize,
) -> (key: Option<&'a Vec<u8>>)
    ensures
        resolved_key(keys_model(account_keys@), accounts@, position as int) == match key {
            Some(found) => Some(found@),
            None => None,
        },
        key matches Some(found) ==> *found == account_keys@[accounts@[position as int] as int],
{
    if position < accounts.len() {
        let index = accounts[position] as usize;
        if index < account_keys.len() {
            return Some(&account_keys[index]);
        }
    }
    None
}

/// Maps a missing address to the empty string and hands a present one on
/// unchanged.
pub fn address_or_empty(encoded: Option<String>) -> (text: String)
    ensures
        text@ == text_or_empty(
            match encoded {
                Some(present) => Some(present@),
                None => None,
            },
        ),
{
    match encoded {
        Some(present) => present,
        None => String::new(),
    }
}

/// The display address of the account at `position` of an instruction's
/// index list: the base-58 form of the key it resolves to, or the empty
/// string where it resolves to nothing.
pub fn account_address(account_keys: &Vec<Vec<u8>>, accounts: &[u8], position: usize) -> (text:
    String)
    ensures
        text@ == address_text(keys_model(account_keys@), accounts@, position as int),
{
    let encoded = match resolve_account(account_keys, accounts, position) {
        Some(key) => Some(encode_base58(key.as_slice())),
        None => None,
    };
    address_or_empty(encoded)
}

} // verus!
