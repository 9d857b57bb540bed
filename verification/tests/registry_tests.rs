use snowflaked::codec::decode;
use snowflaked::errors::SnowflakeError;
use snowflaked::registry::{
    configured_machine_id, ensure_initialized, epoch_offset, generate, generate_at,
    is_initialized, parse, timestamp_ms, validate_config, ParsedId, ProcessState, Slot,
};

const PID: u32 = 100;
const OTHER_PID: u32 = 200;

#[test]
fn init_is_idempotent_per_process() {
    let mut slot = Slot::Empty;
    assert!(ensure_initialized(&mut slot, PID, 5, 0));
    assert!(!ensure_initialized(&mut slot, PID, 5, 0));
    assert_eq!(configured_machine_id(&slot, PID), Some(5));
    assert_eq!(epoch_offset(&slot), Ok(0));
}

#[test]
fn init_ignores_config_of_later_calls() {
    let mut slot = Slot::Empty;
    assert!(ensure_initialized(&mut slot, PID, 5, 0));
    assert!(!ensure_initialized(&mut slot, PID, 7, 99));
    assert_eq!(configured_machine_id(&slot, PID), Some(5));
    assert_eq!(epoch_offset(&slot), Ok(0));
}

#[test]
fn mismatched_config_is_rejected_and_state_kept() {
    let mut slot = Slot::Empty;
    assert!(ensure_initialized(&mut slot, PID, 5, 0));
    assert_eq!(
        generate_at(&mut slot, PID, 7, 0, 1000),
        Err(SnowflakeError::ConfigMismatch)
    );
    assert_eq!(
        generate_at(&mut slot, PID, 5, 1, 1000),
        Err(SnowflakeError::ConfigMismatch)
    );
    assert_eq!(configured_machine_id(&slot, PID), Some(5));
    assert_eq!(epoch_offset(&slot), Ok(0));
}

#[test]
fn validate_config_compares_both_fields() {
    let state = ProcessState::new(5, 40, PID);
    assert_eq!(validate_config(&state, 5, 40), Ok(()));
    assert_eq!(
        validate_config(&state, 7, 40),
        Err(SnowflakeError::ConfigMismatch)
    );
    assert_eq!(
        validate_config(&state, 5, 41),
        Err(SnowflakeError::ConfigMismatch)
    );
}

#[test]
fn same_millisecond_counts_up_from_zero() {
    let mut slot = Slot::Empty;
    assert!(ensure_initialized(&mut slot, PID, 3, 1_700_000_000_000));
    let id1 = generate_at(&mut slot, PID, 3, 1_700_000_000_000, 1_700_000_000_005).unwrap();
    let id2 = generate_at(&mut slot, PID, 3, 1_700_000_000_000, 1_700_000_000_005).unwrap();
    assert_eq!(decode(id1), (5, 3, 0));
    assert_eq!(decode(id2), (5, 3, 1));
}

#[test]
fn generation_initializes_an_empty_slot() {
    let mut slot = Slot::Empty;
    let id = generate_at(&mut slot, PID, 9, 0, 1234).unwrap();
    assert_eq!(decode(id), (1234, 9, 0));
    assert!(is_initialized(&slot, PID));
    assert_eq!(configured_machine_id(&slot, PID), Some(9));
}

#[test]
fn forked_caller_is_not_the_owner() {
    let mut slot = Slot::Empty;
    assert!(ensure_initialized(&mut slot, PID, 5, 0));
    assert!(is_initialized(&slot, PID));
    assert!(!is_initialized(&slot, OTHER_PID));
    assert_eq!(configured_machine_id(&slot, OTHER_PID), None);
}

#[test]
fn fork_remediation_rebuilds_fresh_counters() {
    let mut slot = Slot::Empty;
    assert!(ensure_initialized(&mut slot, PID, 5, 0));
    // The parent burns through sequences 0..=2 of millisecond 50.
    for expected in 0..3u64 {
        let id = generate_at(&mut slot, PID, 5, 0, 50).unwrap();
        assert_eq!(decode(id), (50, 5, expected));
    }
    // A caller with a different process identity in the same millisecond
    // gets a rebuilt state: sequence 0 again, never the parent's next value.
    let child_id = generate_at(&mut slot, OTHER_PID, 5, 0, 50).unwrap();
    assert_eq!(decode(child_id), (50, 5, 0));
    assert!(is_initialized(&slot, OTHER_PID));
    assert!(!is_initialized(&slot, PID));
}

#[test]
fn fork_remediation_on_init_reports_newly_created() {
    let mut slot = Slot::Empty;
    assert!(ensure_initialized(&mut slot, PID, 5, 0));
    assert!(ensure_initialized(&mut slot, OTHER_PID, 5, 0));
    assert!(is_initialized(&slot, OTHER_PID));
    assert_eq!(configured_machine_id(&slot, OTHER_PID), Some(5));
}

#[test]
fn operations_on_an_empty_slot_report_not_initialized() {
    let slot = Slot::Empty;
    assert!(!is_initialized(&slot, PID));
    assert_eq!(configured_machine_id(&slot, PID), None);
    assert_eq!(epoch_offset(&slot), Err(SnowflakeError::NotInitialized));
    assert_eq!(parse(&slot, 1), Err(SnowflakeError::NotInitialized));
    assert_eq!(timestamp_ms(&slot, 1), Err(SnowflakeError::NotInitialized));
}

#[test]
fn parse_translates_back_to_absolute_milliseconds() {
    let mut slot = Slot::Empty;
    assert!(ensure_initialized(&mut slot, PID, 1, 1000));
    let id = generate_at(&mut slot, PID, 1, 1000, 1005).unwrap();
    assert_eq!(
        parse(&slot, id),
        Ok(ParsedId { timestamp_ms: 1005, machine_id: 1, sequence: 0 })
    );
    assert_eq!(timestamp_ms(&slot, id), Ok(1005));
}

#[test]
fn parse_saturates_past_the_u64_range() {
    let mut slot = Slot::Empty;
    assert!(ensure_initialized(&mut slot, PID, 1, u64::MAX));
    let parsed = parse(&slot, snowflaked::codec::encode(5, 1, 0)).unwrap();
    assert_eq!(parsed.timestamp_ms, u64::MAX);
}

#[test]
fn clock_before_epoch_is_a_regression() {
    let mut slot = Slot::Empty;
    assert!(ensure_initialized(&mut slot, PID, 1, 1000));
    assert_eq!(
        generate_at(&mut slot, PID, 1, 1000, 999),
        Err(SnowflakeError::ClockRegression)
    );
    // The rejected call advanced nothing.
    let id = generate_at(&mut slot, PID, 1, 1000, 1001).unwrap();
    assert_eq!(decode(id), (1, 1, 0));
}

#[test]
fn exhausted_millisecond_reports_and_recovers() {
    let mut slot = Slot::Empty;
    assert!(ensure_initialized(&mut slot, PID, 2, 0));
    for _ in 0..4096u32 {
        generate_at(&mut slot, PID, 2, 0, 10).unwrap();
    }
    assert_eq!(
        generate_at(&mut slot, PID, 2, 0, 10),
        Err(SnowflakeError::SequenceExhausted)
    );
    let id = generate_at(&mut slot, PID, 2, 0, 11).unwrap();
    assert_eq!(decode(id), (11, 2, 0));
}

#[test]
fn identifiers_of_one_process_are_pairwise_distinct() {
    let mut slot = Slot::Empty;
    let mut ids: Vec<u64> = Vec::new();
    for i in 0..100u64 {
        // Several ids per millisecond, with the clock advancing now and then.
        let now = 1000 + i / 10;
        ids.push(generate_at(&mut slot, PID, 4, 0, now).unwrap());
    }
    for i in 0..ids.len() {
        for j in (i + 1)..ids.len() {
            assert_ne!(ids[i], ids[j]);
            assert!(ids[i] < ids[j]);
        }
    }
}

#[test]
fn generation_against_the_live_clock() {
    let mut slot = Slot::Empty;
    let id1 = generate(&mut slot, PID, 9, 0).unwrap();
    let (_, machine, _) = decode(id1);
    assert_eq!(machine, 9);
    assert!(is_initialized(&slot, PID));
    match generate(&mut slot, PID, 9, 0) {
        Ok(id2) => assert!(id2 > id1),
        // Only a wall clock stepping backwards between the two calls may
        // fail here; it must never produce a duplicate identifier.
        Err(e) => assert_eq!(e, SnowflakeError::ClockRegression),
    }
}

#[test]
fn live_clock_burst_stays_unique() {
    let mut slot = Slot::Empty;
    let mut prev: u64 = 0;
    // Enough calls to spend several whole milliseconds' sequences, so the
    // bounded retry that waits out an exhausted millisecond is exercised.
    for _ in 0..10_000u32 {
        match generate(&mut slot, PID, 1, 0) {
            Ok(id) => {
                assert!(id > prev);
                prev = id;
            }
            Err(e) => assert_eq!(e, SnowflakeError::ClockRegression),
        }
    }
}

#[test]
fn generation_with_live_clock_rejects_mismatched_config() {
    let mut slot = Slot::Empty;
    generate(&mut slot, PID, 9, 0).unwrap();
    assert_eq!(
        generate(&mut slot, PID, 8, 0),
        Err(SnowflakeError::ConfigMismatch)
    );
    assert_eq!(configured_machine_id(&slot, PID), Some(9));
}
