//! Timelock decoding and byte-codec behavior.

use tockb::codec::{bytes_eq, copy_range, read_be_value, read_udt_amount, saturating_add_u128};
use tockb::config::{LOCK_TYPE_FLAG, SIGNER_TIMEOUT_SECONDS, SINCE_TYPE_TIMESTAMP};
use tockb::error::Error;
use tockb::since::decode_since;

fn since_of(value: u64) -> u64 {
    LOCK_TYPE_FLAG | SINCE_TYPE_TIMESTAMP | value
}

#[test]
fn decode_since_accepts_relative_timestamp() {
    assert_eq!(decode_since(since_of(0)), Ok(0));
    assert_eq!(decode_since(since_of(1)), Ok(1));
    assert_eq!(decode_since(since_of(SIGNER_TIMEOUT_SECONDS)), Ok(SIGNER_TIMEOUT_SECONDS));
    assert_eq!(decode_since(since_of(0x00ff_ffff_ffff_ffff)), Ok(0x00ff_ffff_ffff_ffff));
}

#[test]
fn decode_since_is_deterministic() {
    let v = since_of(12345);
    assert_eq!(decode_since(v), decode_since(v));
}

#[test]
fn decode_since_rejects_reserved_bits_whatever_the_magnitude() {
    for value in [0u64, 1, 77, SIGNER_TIMEOUT_SECONDS, 0x00ff_ffff_ffff_ffff] {
        let with_reserved = since_of(value) | 0x0100_0000_0000_0000;
        assert_eq!(decode_since(with_reserved), Err(Error::InputSinceInvalid));
    }
}

#[test]
fn decode_since_rejects_absolute_timelocks_whatever_the_magnitude() {
    for value in [0u64, 1, 77, SIGNER_TIMEOUT_SECONDS, 0x00ff_ffff_ffff_ffff] {
        let absolute = SINCE_TYPE_TIMESTAMP | value;
        assert_eq!(decode_since(absolute), Err(Error::InputSinceInvalid));
    }
}

#[test]
fn decode_since_rejects_wrong_metric_whatever_the_magnitude() {
    for value in [0u64, 1, 77, SIGNER_TIMEOUT_SECONDS] {
        // Block-number metric (no metric bits set).
        assert_eq!(decode_since(LOCK_TYPE_FLAG | value), Err(Error::InputSinceInvalid));
        // Epoch metric.
        assert_eq!(
            decode_since(LOCK_TYPE_FLAG | 0x2000_0000_0000_0000 | value),
            Err(Error::InputSinceInvalid)
        );
        // Both metric bits set.
        assert_eq!(
            decode_since(LOCK_TYPE_FLAG | 0x6000_0000_0000_0000 | value),
            Err(Error::InputSinceInvalid)
        );
    }
}

#[test]
fn read_udt_amount_reads_little_endian() {
    let mut data = vec![0u8; 16];
    data[0] = 0x40;
    data[1] = 0x42;
    data[2] = 0x0f;
    assert_eq!(read_udt_amount(&data), Ok(1_000_000));

    let amount: u128 = 0x0102_0304_0506_0708_090a_0b0c_0d0e_0f10;
    let bytes = amount.to_le_bytes().to_vec();
    assert_eq!(read_udt_amount(&bytes), Ok(amount));
}

#[test]
fn read_udt_amount_rejects_wrong_length() {
    assert_eq!(read_udt_amount(&vec![]), Err(Error::Encoding));
    assert_eq!(read_udt_amount(&vec![0u8; 15]), Err(Error::Encoding));
    assert_eq!(read_udt_amount(&vec![0u8; 17]), Err(Error::Encoding));
}

#[test]
fn read_be_value_reads_big_endian() {
    let data = vec![0xffu8, 0x01, 0x02, 0x03, 0xee];
    assert_eq!(read_be_value(&data, 1, 3), 0x010203);
    assert_eq!(read_be_value(&data, 0, 1), 0xff);
    assert_eq!(read_be_value(&data, 0, 0), 0);
}

#[test]
fn bytes_eq_compares_exactly() {
    assert!(bytes_eq(&vec![], &vec![]));
    assert!(bytes_eq(&vec![1, 2, 3], &vec![1, 2, 3]));
    assert!(!bytes_eq(&vec![1, 2, 3], &vec![1, 2]));
    assert!(!bytes_eq(&vec![1, 2, 3], &vec![1, 2, 4]));
}

#[test]
fn copy_range_copies_the_window() {
    let data = vec![9u8, 8, 7, 6, 5];
    assert_eq!(copy_range(&data, 1, 3), vec![8, 7, 6]);
    assert_eq!(copy_range(&data, 0, 0), Vec::<u8>::new());
}

#[test]
fn saturating_add_saturates() {
    assert_eq!(saturating_add_u128(1, 2), 3);
    assert_eq!(saturating_add_u128(u128::MAX, 1), u128::MAX);
    assert_eq!(saturating_add_u128(u128::MAX - 1, 1), u128::MAX);
}
