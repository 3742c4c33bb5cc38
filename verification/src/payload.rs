//! The binary layout of a transfer instruction payload.
//!
//! | bytes   | meaning                                             |
//! |---------|-----------------------------------------------------|
//! | 0 .. 4  | discriminator: the 32-bit value 2, little-endian    |
//! | 4 .. 12 | amount: unsigned 64-bit integer, little-endian      |
//!
//! A payload is a transfer exactly when it is 12 bytes long and starts with
//! the discriminator. Nothing else about the payload is interpreted.

use vstd::prelude::*;

verus! {

/// Length in bytes of the leading discriminator.
pub const TAG_LEN: usize = 4;

/// Offset of the first byte of the amount.
pub const AMOUNT_OFFSET: usize = 4;

/// Offset just past the last byte of the amount.
pub const AMOUNT_END: usize = 12;

/// Total length in bytes of a transfer payload.
pub const TRANSFER_PAYLOAD_LEN: usize = 12;

/// The discriminator value that identifies a transfer.
pub const TRANSFER_TAG: u32 = 2;

/// `256` to the power `n`.
pub open spec fn pow256(n: nat) -> nat
    decreases n,
{
    if n == 0 {
        1
    } else {
        256 * pow256((n - 1) as nat)
    }
}

/// The number that `bytes` denotes when read little-endian: the byte at
/// index `k` weighs `256^k`.
pub open spec fn le_value(bytes: Seq<u8>) -> nat
    decreases bytes.len(),
{
    if bytes.len() == 0 {
        0
    } else {
        bytes[0] as nat + 256 * le_value(bytes.drop_first())
    }
}

/// The little-endian encoding of `value` in `width` bytes (the low `width`
/// bytes of it, where it needs more).
pub open spec fn le_bytes(value: nat, width: nat) -> Seq<u8>
    decreases width,
{
    if width == 0 {
        Seq::empty()
    } else {
        seq![(value % 256) as u8] + le_bytes(value / 256, (width - 1) as nat)
    }
}

/// The four bytes every transfer payload starts with.
pub open spec fn transfer_tag_bytes() -> Seq<u8> {
    seq![2u8, 0u8, 0u8, 0u8]
}

/// Whether `payload` has the layout of a transfer: exactly
/// [`TRANSFER_PAYLOAD_LEN`] bytes, the first four being the discriminator.
pub open spec fn is_transfer_payload(payload: Seq<u8>) -> bool {
    &&& payload.len() == TRANSFER_PAYLOAD_LEN
    &&& payload[0] == 2
    &&& payload[1] == 0
    &&& payload[2] == 0
    &&& payload[3] == 0
}

/// The amount a payload carries: bytes 4 to 11 read little-endian, or zero
/// where the payload is too short to hold them.
pub open spec fn payload_amount(payload: Seq<u8>) -> nat {
    if payload.len() >= AMOUNT_END {
        le_value(payload.subrange(AMOUNT_OFFSET as int, AMOUNT_END as int))
    } else {
        0
    }
}

/// The payload of a transfer of `amount`: the discriminator, then the amount
/// in eight bytes, little-endian.
pub open spec fn transfer_payload(amount: nat) -> Seq<u8> {
    transfer_tag_bytes() + le_bytes(amount, 8)
}

/// The first nine powers of 256; the last is one more than `u64::MAX`.
pub proof fn lemma_pow256_values()
    ensures
        pow256(0) == 1,
        pow256(1) == 0x100,
        pow256(2) == 0x1_0000,
        pow256(3) == 0x100_0000,
        pow256(4) == 0x1_0000_0000,
        pow256(5) == 0x100_0000_0000,
        pow256(6) == 0x1_0000_0000_0000,
        pow256(7) == 0x100_0000_0000_0000,
        pow256(8) == 0x1_0000_0000_0000_0000,
{
    reveal_with_fuel(pow256, 9);
}

/// Powers of 256 grow with the exponent.
pub proof fn lemma_pow256_monotonic(low: nat, high: nat)
    requires
        low <= high,
    ensures
        pow256(low) <= pow256(high),
    decreases high,
{
    if low < high {
        lemma_pow256_monotonic(low, (high - 1) as nat);
    }
}

/// A little-endian number of `n` bytes is below `256^n`.
pub proof fn lemma_le_value_bound(bytes: Seq<u8>)
    ensures
        le_value(bytes) < pow256(bytes.len()),
    decreases bytes.len(),
{
    if bytes.len() > 0 {
        lemma_le_value_bound(bytes.drop_first());
    }
}

/// Encoding in `width` bytes gives `width` bytes.
pub proof fn lemma_le_bytes_len(value: nat, width: nat)
    ensures
        le_bytes(value, width).len() == width,
    decreases width,
{
    if width > 0 {
        lemma_le_bytes_len(value / 256, (width - 1) as nat);
    }
}

/// Reading back what was encoded gives the number again, as long as the
/// number fits in the width.
pub proof fn lemma_le_round_trip(value: nat, width: nat)
    requires
        value < pow256(width),
    ensures
        le_value(le_bytes(value, width)) == value,
    decreases width,
{
    if width > 0 {
        let rest = le_bytes(value / 256, (width - 1) as nat);
        let all = le_bytes(value, width);
        lemma_le_round_trip(value / 256, (width - 1) as nat);
        lemma_le_bytes_len(value / 256, (width - 1) as nat);
        assert(all.drop_first() =~= rest);
        assert(all[0] == (value % 256) as u8);
    }
}

/// The discriminator is the little-endian encoding of [`TRANSFER_TAG`] in
/// [`TAG_LEN`] bytes.
pub proof fn lemma_tag_is_little_endian()
    ensures
        transfer_tag_bytes() == le_bytes(TRANSFER_TAG as nat, TAG_LEN as nat),
        le_value(transfer_tag_bytes()) == TRANSFER_TAG,
{
    reveal_with_fuel(le_bytes, 5);
    assert(transfer_tag_bytes() =~= le_bytes(2, 4));
    lemma_pow256_values();
    lemma_le_round_trip(2, 4);
}

/// A payload built for an amount that fits in 64 bits is a transfer payload
/// and carries that amount.
pub proof fn lemma_transfer_payload_round_trip(amount: nat)
    requires
        amount <= u64::MAX,
    ensures
        is_transfer_payload(transfer_payload(amount)),
        payload_amount(transfer_payload(amount)) == amount,
{
    let payload = transfer_payload(amount);
    lemma_le_bytes_len(amount, 8);
    lemma_pow256_values();
    lemma_le_round_trip(amount, 8);
    assert(payload.subrange(AMOUNT_OFFSET as int, AMOUNT_END as int) =~= le_bytes(amount, 8));
}

/// Classifies an instruction payload: `true` exactly for a payload of 12
/// bytes that starts with the transfer discriminator.
pub fn is_transfer(payload: &[u8]) -> (matches: bool)
    ensures
        matches == is_transfer_payload(payload@),
        matches == (payload@.len() == 12 && payload@.subrange(0, 4) == transfer_tag_bytes()),
{
    proof {
        if payload@.len() >= 4 {
            let head = payload@.subrange(0, 4);
            assert(head[0] == payload@[0] && head[1] == payload@[1] && head[2] == payload@[2]
                && head[3] == payload@[3]);
            if is_transfer_payload(payload@) {
                assert(head =~= transfer_tag_bytes());
            }
        }
    }
    payload.len() == TRANSFER_PAYLOAD_LEN && payload[0] == 2 && payload[1] == 0 && payload[2] == 0
        && payload[3] == 0
}

/// Reads the amount of a payload: the eight bytes at offsets 4 to 11 as a
/// little-endian unsigned integer. A payload too short to hold them gives 0.
pub fn decode_amount(payload: &[u8]) -> (amount: u64)
    ensures
        amount as nat == payload_amount(payload@),
{
    if payload.len() < AMOUNT_END {
        return 0;
    }
    let mut amount: u64 = 0;
    let mut i: usize = AMOUNT_END;
    while i > AMOUNT_OFFSET
        invariant
            AMOUNT_OFFSET <= i <= AMOUNT_END <= payload@.len(),
            amount as nat == le_value(payload@.subrange(i as int, AMOUNT_END as int)),
        decreases i,
    {
        proof {
            let tail = payload@.subrange(i as int, AMOUNT_END as int);
            lemma_le_value_bound(tail);
            lemma_pow256_values();
            lemma_pow256_monotonic(tail.len(), 7);
            let longer = payload@.subrange(i - 1, AMOUNT_END as int);
            assert(longer.drop_first() =~= tail);
            assert(longer[0] == payload@[i - 1]);
        }
        i = i - 1;
        amount = amount * 256 + payload[i] as u64;
    }
    amount
}

} // verus!
