use snowflaked::codec::{
    checked_encode, decode, encode, machine_id_from_id, sequence_from_id, timestamp_offset_of,
    MAX_MACHINE_ID, MAX_SEQUENCE, MAX_TIMESTAMP_OFFSET,
};
use snowflaked::errors::SnowflakeError;

#[test]
fn encode_packs_fields_most_significant_first() {
    // 1 << 22 | 2 << 12 | 3
    assert_eq!(encode(1, 2, 3), 4_202_499);
    assert_eq!(encode(0, 0, 0), 0);
    assert_eq!(encode(0, 0, 1), 1);
    assert_eq!(encode(0, 1, 0), 4096);
    assert_eq!(encode(1, 0, 0), 4_194_304);
}

#[test]
fn round_trip_small_values() {
    let id = encode(1, 2, 3);
    assert_eq!(decode(id), (1, 2, 3));
    assert_eq!(timestamp_offset_of(id), 1);
    assert_eq!(machine_id_from_id(id), 2);
    assert_eq!(sequence_from_id(id), 3);
}

#[test]
fn round_trip_max_values() {
    let id = encode(MAX_TIMESTAMP_OFFSET, MAX_MACHINE_ID, MAX_SEQUENCE);
    assert_eq!(id, u64::MAX);
    assert_eq!(
        decode(id),
        (MAX_TIMESTAMP_OFFSET, MAX_MACHINE_ID as u64, MAX_SEQUENCE as u64)
    );
}

#[test]
fn round_trip_mixed_values() {
    for &(t, m, s) in &[
        (0u64, 0u16, 0u16),
        (5, 3, 1),
        (1_700_000_000_000, 1023, 4095),
        (MAX_TIMESTAMP_OFFSET, 0, 0),
        (0, MAX_MACHINE_ID, 0),
        (0, 0, MAX_SEQUENCE),
    ] {
        let id = encode(t, m, s);
        assert_eq!(decode(id), (t, m as u64, s as u64));
    }
}

#[test]
fn checked_encode_accepts_in_range_fields() {
    assert_eq!(checked_encode(1, 2, 3), Ok(4_202_499));
    assert_eq!(
        checked_encode(
            MAX_TIMESTAMP_OFFSET,
            MAX_MACHINE_ID as u64,
            MAX_SEQUENCE as u64
        ),
        Ok(u64::MAX)
    );
}

#[test]
fn checked_encode_rejects_oversized_timestamp() {
    assert_eq!(
        checked_encode(MAX_TIMESTAMP_OFFSET + 1, 0, 0),
        Err(SnowflakeError::FieldOutOfRange)
    );
}

#[test]
fn checked_encode_rejects_oversized_machine_id() {
    assert_eq!(
        checked_encode(0, MAX_MACHINE_ID as u64 + 1, 0),
        Err(SnowflakeError::FieldOutOfRange)
    );
}

#[test]
fn checked_encode_rejects_oversized_sequence() {
    assert_eq!(
        checked_encode(0, 0, MAX_SEQUENCE as u64 + 1),
        Err(SnowflakeError::FieldOutOfRange)
    );
}

#[test]
fn identifiers_sort_in_creation_order_for_fixed_machine() {
    let a = encode(5, 1, 0);
    let b = encode(5, 1, 1);
    let c = encode(6, 1, 0);
    assert!(a < b);
    assert!(b < c);
}
