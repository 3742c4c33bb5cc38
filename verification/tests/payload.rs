use solana_transfers::payload::{
    decode_amount, is_transfer, AMOUNT_END, AMOUNT_OFFSET, TAG_LEN, TRANSFER_PAYLOAD_LEN,
    TRANSFER_TAG,
};

fn payload_for(amount: u64) -> Vec<u8> {
    let mut data = vec![2u8, 0, 0, 0];
    data.extend_from_slice(&amount.to_le_bytes());
    data
}

#[test]
fn layout_constants_are_pinned() {
    assert_eq!(TAG_LEN, 4);
    assert_eq!(AMOUNT_OFFSET, 4);
    assert_eq!(AMOUNT_END, 12);
    assert_eq!(TRANSFER_PAYLOAD_LEN, 12);
    assert_eq!(TRANSFER_TAG, 2);
    assert_eq!(TRANSFER_TAG.to_le_bytes(), [2, 0, 0, 0]);
}

#[test]
fn classifier_accepts_exact_layout() {
    assert!(is_transfer(&payload_for(0)));
    assert!(is_transfer(&payload_for(1000)));
    assert!(is_transfer(&payload_for(u64::MAX)));
    assert!(is_transfer(&[2, 0, 0, 0, 9, 9, 9, 9, 9, 9, 9, 9]));
}

#[test]
fn classifier_rejects_other_lengths() {
    assert!(!is_transfer(&[]));
    assert!(!is_transfer(&[2]));
    assert!(!is_transfer(&[2, 0, 0]));
    assert!(!is_transfer(&[2, 0, 0, 0]));
    assert!(!is_transfer(&[2, 0, 0, 0, 1, 0, 0, 0]));
    assert!(!is_transfer(&[2, 0, 0, 0, 1, 0, 0, 0, 0, 0, 0]));
    assert!(!is_transfer(&[2, 0, 0, 0, 1, 0, 0, 0, 0, 0, 0, 0, 0]));
    let long = vec![0u8; 64];
    assert!(!is_transfer(&long));
}

#[test]
fn classifier_rejects_other_discriminators() {
    assert!(!is_transfer(&[0, 0, 0, 0, 1, 0, 0, 0, 0, 0, 0, 0]));
    assert!(!is_transfer(&[3, 0, 0, 0, 1, 0, 0, 0, 0, 0, 0, 0]));
    assert!(!is_transfer(&[2, 1, 0, 0, 1, 0, 0, 0, 0, 0, 0, 0]));
    assert!(!is_transfer(&[2, 0, 1, 0, 1, 0, 0, 0, 0, 0, 0, 0]));
    assert!(!is_transfer(&[2, 0, 0, 1, 1, 0, 0, 0, 0, 0, 0, 0]));
    assert!(!is_transfer(&[0, 0, 0, 2, 1, 0, 0, 0, 0, 0, 0, 0]));
    assert!(!is_transfer(&[2, 0, 0, 128, 1, 0, 0, 0, 0, 0, 0, 0]));
}

#[test]
fn amount_is_little_endian_at_offset_four() {
    let data = [2u8, 0, 0, 0, 0x01, 0x02, 0x03, 0x04, 0x05, 0x06, 0x07, 0x08];
    assert_eq!(decode_amount(&data), 0x0807_0605_0403_0201);
    assert_eq!(decode_amount(&[2, 0, 0, 0, 1, 0, 0, 0, 0, 0, 0, 0]), 1);
    assert_eq!(decode_amount(&[2, 0, 0, 0, 0, 1, 0, 0, 0, 0, 0, 0]), 256);
    assert_eq!(decode_amount(&[2, 0, 0, 0, 0, 0, 0, 0, 0, 0, 0, 1]), 1u64 << 56);
    assert_eq!(decode_amount(&[2, 0, 0, 0, 0xe8, 0x03, 0, 0, 0, 0, 0, 0]), 1000);
}

#[test]
fn amount_round_trips() {
    let amounts = [
        0u64,
        1,
        255,
        256,
        1000,
        65_535,
        65_536,
        4_294_967_295,
        4_294_967_296,
        1_000_000_000_000,
        u64::MAX - 1,
        u64::MAX,
    ];
    for amount in amounts {
        assert_eq!(decode_amount(&payload_for(amount)), amount);
    }
}

#[test]
fn amount_ignores_the_discriminator() {
    assert_eq!(decode_amount(&[7, 7, 7, 7, 5, 0, 0, 0, 0, 0, 0, 0]), 5);
    assert_eq!(decode_amount(&[255, 255, 255, 255, 0, 0, 0, 0, 0, 0, 0, 0]), 0);
}

#[test]
fn amount_of_short_payload_is_zero() {
    assert_eq!(decode_amount(&[]), 0);
    assert_eq!(decode_amount(&[2, 0, 0, 0]), 0);
    assert_eq!(decode_amount(&[2, 0, 0, 0, 9, 9, 9, 9]), 0);
    assert_eq!(decode_amount(&[2, 0, 0, 0, 9, 9, 9, 9, 9, 9, 9]), 0);
}

#[test]
fn amount_of_long_payload_reads_the_same_eight_bytes() {
    assert_eq!(decode_amount(&[2, 0, 0, 0, 3, 0, 0, 0, 0, 0, 0, 0, 0xff, 0xff]), 3);
}
