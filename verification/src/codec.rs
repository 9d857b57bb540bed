//! Bit-level identifier codec.
//!
//! An identifier is one 64-bit word holding three non-overlapping fields,
//! most significant first by recency: a 42-bit timestamp offset (milliseconds
//! since the configured epoch), a 10-bit machine id and a 12-bit sequence
//! counter. The widths are a fixed design parameter: identifiers sort
//! numerically in creation order for a fixed machine id, and decoding is the
//! exact inverse of encoding for every in-range triple. Out-of-range field
//! values are rejected outright, never silently truncated.

use vstd::prelude::*;

use crate::errors::SnowflakeError;

verus! {

/// Largest timestamp offset (in milliseconds) that fits its 42-bit field.
pub const MAX_TIMESTAMP_OFFSET: u64 = 0x3FF_FFFF_FFFF;

/// Largest machine id that fits its 10-bit field.
pub const MAX_MACHINE_ID: u16 = 0x3FF;

/// Largest sequence value that fits its 12-bit field.
pub const MAX_SEQUENCE: u16 = 0xFFF;

/// Bits to the right of the timestamp field: machine id plus sequence.
pub const TIMESTAMP_SHIFT: u64 = 22;

/// Bits to the right of the machine id field: the sequence.
pub const MACHINE_ID_SHIFT: u64 = 12;

/// Whether a field triple fits the fixed bit widths of an identifier.
pub open spec fn fields_in_range(timestamp_offset: u64, machine_id: u64, sequence: u64) -> bool {
    &&& timestamp_offset <= MAX_TIMESTAMP_OFFSET
    &&& machine_id <= MAX_MACHINE_ID
    &&& sequence <= MAX_SEQUENCE
}

/// The word produced by packing an in-range field triple.
pub open spec fn spec_encode(timestamp_offset: u64, machine_id: u64, sequence: u64) -> u64 {
    (timestamp_offset << TIMESTAMP_SHIFT) | (machine_id << MACHINE_ID_SHIFT) | sequence
}

/// The timestamp offset held in an identifier.
pub open spec fn spec_timestamp(id: u64) -> u64 {
    id >> TIMESTAMP_SHIFT
}

/// The machine id held in an identifier.
pub open spec fn spec_machine_id(id: u64) -> u64 {
    (id >> MACHINE_ID_SHIFT) & (MAX_MACHINE_ID as u64)
}

/// The sequence value held in an identifier.
pub open spec fn spec_sequence(id: u64) -> u64 {
    id & (MAX_SEQUENCE as u64)
}

/// Strict creation order on (timestamp offset, sequence) pairs: a later
/// millisecond, or the same millisecond with a larger sequence.
pub open spec fn lex_lt(t1: u64, s1: u64, t2: u64, s2: u64) -> bool {
    t1 < t2 || (t1 == t2 && s1 < s2)
}

/// Non-strict creation order on (timestamp offset, sequence) pairs.
pub open spec fn lex_le(t1: u64, s1: u64, t2: u64, s2: u64) -> bool {
    lex_lt(t1, s1, t2, s2) || (t1 == t2 && s1 == s2)
}

/// Round trip: decoding an encoded identifier yields exactly the in-range
/// triple that was encoded.
pub proof fn lemma_round_trip(timestamp_offset: u64, machine_id: u64, sequence: u64)
    by (bit_vector)
    requires
        fields_in_range(timestamp_offset, machine_id, sequence),
    ensures
        spec_timestamp(spec_encode(timestamp_offset, machine_id, sequence)) == timestamp_offset,
        spec_machine_id(spec_encode(timestamp_offset, machine_id, sequence)) == machine_id,
        spec_sequence(spec_encode(timestamp_offset, machine_id, sequence)) == sequence,
{
}

/// Every decoded field lies within the width of the field it was read from.
pub proof fn lemma_decode_in_range(id: u64)
    by (bit_vector)
    ensures
        spec_timestamp(id) <= MAX_TIMESTAMP_OFFSET,
        spec_machine_id(id) <= MAX_MACHINE_ID,
        spec_sequence(id) <= MAX_SEQUENCE,
{
}

/// Encoding is injective on in-range triples: two distinct triples never
/// collide in one identifier.
pub proof fn lemma_encode_injective(
    t1: u64, m1: u64, s1: u64,
    t2: u64, m2: u64, s2: u64,
)
    requires
        fields_in_range(t1, m1, s1),
        fields_in_range(t2, m2, s2),
        spec_encode(t1, m1, s1) == spec_encode(t2, m2, s2),
    ensures
        t1 == t2,
        m1 == m2,
        s1 == s2,
{
    lemma_round_trip(t1, m1, s1);
    lemma_round_trip(t2, m2, s2);
}

/// For a fixed machine id, identifiers sort numerically in creation order:
/// a strictly later (timestamp offset, sequence) pair encodes to a strictly
/// larger word.
pub proof fn lemma_encode_ordered(t1: u64, s1: u64, t2: u64, s2: u64, machine_id: u64)
    by (bit_vector)
    requires
        fields_in_range(t1, machine_id, s1),
        fields_in_range(t2, machine_id, s2),
        lex_lt(t1, s1, t2, s2),
    ensures
        spec_encode(t1, machine_id, s1) < spec_encode(t2, machine_id, s2),
{
}

/// Packs an in-range field triple into one identifier word.
pub fn encode(timestamp_offset: u64, machine_id: u16, sequence: u16) -> (id: u64)
    requires
        fields_in_range(timestamp_offset, machine_id as u64, sequence as u64),
    ensures
        id == spec_encode(timestamp_offset, machine_id as u64, sequence as u64),
        spec_timestamp(id) == timestamp_offset,
        spec_machine_id(id) == machine_id,
        spec_sequence(id) == sequence,
{
    proof {
        lemma_round_trip(timestamp_offset, machine_id as u64, sequence as u64);
    }
    (timestamp_offset << TIMESTAMP_SHIFT) | ((machine_id as u64) << MACHINE_ID_SHIFT)
        | (sequence as u64)
}

/// Packs a field triple, rejecting any field that exceeds its bit width.
pub fn checked_encode(timestamp_offset: u64, machine_id: u64, sequence: u64)
    -> (r: Result<u64, SnowflakeError>)
    ensures
        fields_in_range(timestamp_offset, machine_id, sequence)
            ==> r == Ok::<u64, SnowflakeError>(
                spec_encode(timestamp_offset, machine_id, sequence)),
        !fields_in_range(timestamp_offset, machine_id, sequence)
            ==> r == Err::<u64, SnowflakeError>(SnowflakeError::FieldOutOfRange),
{
    if timestamp_offset > MAX_TIMESTAMP_OFFSET
        || machine_id > MAX_MACHINE_ID as u64
        || sequence > MAX_SEQUENCE as u64
    {
        Err(SnowflakeError::FieldOutOfRange)
    } else {
        Ok((timestamp_offset << TIMESTAMP_SHIFT) | (machine_id << MACHINE_ID_SHIFT) | sequence)
    }
}

/// Unpacks an identifier into its (timestamp offset, machine id, sequence)
/// triple; pure masking and shifting, with no failure modes.
pub fn decode(id: u64) -> (r: (u64, u64, u64))
    ensures
        r.0 == spec_timestamp(id),
        r.1 == spec_machine_id(id),
        r.2 == spec_sequence(id),
        fields_in_range(r.0, r.1, r.2),
{
    proof {
        lemma_decode_in_range(id);
    }
    (
        id >> TIMESTAMP_SHIFT,
        (id >> MACHINE_ID_SHIFT) & (MAX_MACHINE_ID as u64),
        id & (MAX_SEQUENCE as u64),
    )
}

/// The timestamp offset field of an identifier.
pub fn timestamp_offset_of(id: u64) -> (t: u64)
    ensures
        t == spec_timestamp(id),
        t <= MAX_TIMESTAMP_OFFSET,
{
    proof {
        lemma_decode_in_range(id);
    }
    id >> TIMESTAMP_SHIFT
}

/// The machine id field of an identifier.
pub fn machine_id_from_id(id: u64) -> (m: u64)
    ensures
        m == spec_machine_id(id),
        m <= MAX_MACHINE_ID,
{
    proof {
        lemma_decode_in_range(id);
    }
    (id >> MACHINE_ID_SHIFT) & (MAX_MACHINE_ID as u64)
}

/// The sequence field of an identifier.
pub fn sequence_from_id(id: u64) -> (s: u64)
    ensures
        s == spec_sequence(id),
        s <= MAX_SEQUENCE,
{
    proof {
        lemma_decode_in_range(id);
    }
    id & (MAX_SEQUENCE as u64)
}

} // verus!
