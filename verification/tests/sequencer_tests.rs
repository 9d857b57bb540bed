use snowflaked::codec::{decode, encode, MAX_SEQUENCE, MAX_TIMESTAMP_OFFSET};
use snowflaked::errors::SnowflakeError;
use snowflaked::sequencer::Sequencer;

#[test]
fn fresh_millisecond_resets_sequence() {
    let mut s = Sequencer::new();
    assert_eq!(s.step(5), Ok((5, 0)));
    assert_eq!(s.step(5), Ok((5, 1)));
    assert_eq!(s.step(5), Ok((5, 2)));
    assert_eq!(s.step(7), Ok((7, 0)));
    assert_eq!(s.step(8), Ok((8, 0)));
}

#[test]
fn clock_regression_fails_and_leaves_state() {
    let mut s = Sequencer::new();
    assert_eq!(s.step(10), Ok((10, 0)));
    assert_eq!(s.step(9), Err(SnowflakeError::ClockRegression));
    // The failed step advanced nothing: the same millisecond continues.
    assert_eq!(s.step(10), Ok((10, 1)));
}

#[test]
fn oversized_timestamp_is_rejected() {
    let mut s = Sequencer::new();
    assert_eq!(
        s.step(MAX_TIMESTAMP_OFFSET + 1),
        Err(SnowflakeError::FieldOutOfRange)
    );
    assert_eq!(s.step(3), Ok((3, 0)));
}

#[test]
fn sequence_exhaustion_blocks_until_next_millisecond() {
    let mut s = Sequencer::new();
    for expected in 0..=MAX_SEQUENCE {
        assert_eq!(s.step(1), Ok((1, expected)));
    }
    assert_eq!(s.step(1), Err(SnowflakeError::SequenceExhausted));
    assert_eq!(s.step(1), Err(SnowflakeError::SequenceExhausted));
    assert_eq!(s.step(2), Ok((2, 0)));
}

#[test]
fn next_id_packs_the_issued_pair() {
    let mut s = Sequencer::new();
    let id = s.next_id(7, 123).unwrap();
    assert_eq!(id, encode(123, 7, 0));
    assert_eq!(decode(id), (123, 7, 0));
    let id2 = s.next_id(7, 123).unwrap();
    assert_eq!(decode(id2), (123, 7, 1));
    assert!(id2 > id);
}

#[test]
fn issued_pairs_are_pairwise_distinct() {
    let mut s = Sequencer::new();
    let mut ids: Vec<u64> = Vec::new();
    // A run mixing repeated and advancing milliseconds.
    for &now in &[4u64, 4, 4, 5, 5, 9, 9, 9, 9, 12] {
        ids.push(s.next_id(1, now).unwrap());
    }
    for i in 0..ids.len() {
        for j in (i + 1)..ids.len() {
            assert_ne!(ids[i], ids[j]);
            assert!(ids[i] < ids[j]);
        }
    }
}
