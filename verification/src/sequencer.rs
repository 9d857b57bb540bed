//! The per-process counter state and its transition rules.
//!
//! A [`Sequencer`] owns the mutable `(last_timestamp_ms, sequence)` pair of
//! one generator. The pair is read and updated only as a single unit, through
//! [`Sequencer::step`], whose whole behaviour is the pure transition
//! [`spec_step`]: a fresh millisecond resets the sequence to zero, the same
//! millisecond increments it, an exhausted sequence and a clock observed
//! behind the last adopted millisecond both fail without touching the state.
//! A failed step never advances the counters, and every successful step
//! moves the pair strictly forward in creation order, which is what makes
//! the issued identifiers unique and monotone.

use vstd::prelude::*;

use crate::codec;
use crate::codec::{MAX_MACHINE_ID, MAX_SEQUENCE, MAX_TIMESTAMP_OFFSET};
use crate::errors::SnowflakeError;

verus! {

/// The mutable clock/counter state of one generator: the last millisecond it
/// adopted and the sequence value it last issued within that millisecond.
#[derive(Clone, Copy, Debug, PartialEq, Eq, Structural)]
pub struct Sequencer {
    /// The most recent timestamp offset adopted by a successful step.
    pub last_timestamp_ms: u64,
    /// The sequence value issued for `last_timestamp_ms` most recently.
    pub sequence: u16,
}

impl Sequencer {
    /// Both counters fit the bit widths of the identifier fields they are
    /// packed into.
    pub open spec fn wf(self) -> bool {
        &&& self.last_timestamp_ms <= MAX_TIMESTAMP_OFFSET
        &&& self.sequence <= MAX_SEQUENCE
    }

    /// A fresh sequencer that has issued nothing yet.
    pub fn new() -> (s: Self)
        ensures
            s == (Sequencer { last_timestamp_ms: 0u64, sequence: 0u16 }),
            s.wf(),
    {
        Sequencer { last_timestamp_ms: 0, sequence: 0 }
    }

    /// Reads and updates the counter pair as one atomic unit.
    ///
    /// The result and the new state are exactly [`spec_step`] of the old
    /// state and the observed timestamp offset: a failure leaves the state
    /// untouched, and a success yields the pair the new state now holds,
    /// strictly later in creation order than the old pair.
    pub fn step(&mut self, now_offset: u64) -> (r: Result<(u64, u16), SnowflakeError>)
        requires
            old(self).wf(),
        ensures
            *final(self) == spec_step(*old(self), now_offset).0,
            r == spec_step(*old(self), now_offset).1,
            final(self).wf(),
            r is Err ==> *final(self) == *old(self),
            r matches Ok(p) ==> {
                &&& p.0 == final(self).last_timestamp_ms
                &&& p.1 == final(self).sequence
                &&& codec::lex_lt(
                    old(self).last_timestamp_ms, old(self).sequence as u64,
                    p.0, p.1 as u64)
                &&& p.0 <= MAX_TIMESTAMP_OFFSET
                &&& p.1 <= MAX_SEQUENCE
            },
    {
        if now_offset < self.last_timestamp_ms {
            Err(SnowflakeError::ClockRegression)
        } else if now_offset > MAX_TIMESTAMP_OFFSET {
            Err(SnowflakeError::FieldOutOfRange)
        } else if now_offset == self.last_timestamp_ms {
            if self.sequence < MAX_SEQUENCE {
                self.sequence = self.sequence + 1;
                Ok((self.last_timestamp_ms, self.sequence))
            } else {
                Err(SnowflakeError::SequenceExhausted)
            }
        } else {
            self.last_timestamp_ms = now_offset;
            self.sequence = 0;
            Ok((now_offset, 0))
        }
    }

    /// One generation attempt: a step at the given timestamp offset, packed
    /// into an identifier carrying the given machine id.
    pub fn next_id(&mut self, machine_id: u16, now_offset: u64)
        -> (r: Result<u64, SnowflakeError>)
        requires
            old(self).wf(),
            machine_id <= MAX_MACHINE_ID,
        ensures
            *final(self) == spec_step(*old(self), now_offset).0,
            final(self).wf(),
            r is Err ==> *final(self) == *old(self),
            r matches Err(e) ==> Err::<(u64, u16), SnowflakeError>(e)
                == spec_step(*old(self), now_offset).1,
            r matches Ok(id) ==> {
                &&& spec_step(*old(self), now_offset).1
                    == Ok::<(u64, u16), SnowflakeError>(
                        (final(self).last_timestamp_ms, final(self).sequence))
                &&& id == codec::spec_encode(
                    final(self).last_timestamp_ms, machine_id as u64,
                    final(self).sequence as u64)
                &&& codec::spec_timestamp(id) == final(self).last_timestamp_ms
                &&& codec::spec_machine_id(id) == machine_id
                &&& codec::spec_sequence(id) == final(self).sequence
                &&& codec::lex_lt(
                    old(self).last_timestamp_ms, old(self).sequence as u64,
                    final(self).last_timestamp_ms, final(self).sequence as u64)
            },
    {
        match self.step(now_offset) {
            Ok(p) => Ok(codec::encode(p.0, machine_id, p.1)),
            Err(e) => Err(e),
        }
    }
}

/// The pure transition of one step: the new counter state and the issued
/// (timestamp offset, sequence) pair, or the failure that left the state
/// untouched. The clock-regression check reads the observation against the
/// last adopted millisecond; a regression fails at once (the documented
/// policy of this crate) rather than waiting for the clock to catch up.
pub open spec fn spec_step(s: Sequencer, now_offset: u64)
    -> (Sequencer, Result<(u64, u16), SnowflakeError>)
{
    if now_offset < s.last_timestamp_ms {
        (s, Err(SnowflakeError::ClockRegression))
    } else if now_offset > MAX_TIMESTAMP_OFFSET {
        (s, Err(SnowflakeError::FieldOutOfRange))
    } else if now_offset == s.last_timestamp_ms {
        if s.sequence < MAX_SEQUENCE {
            (
                Sequencer { last_timestamp_ms: s.last_timestamp_ms, sequence: (s.sequence + 1) as u16 },
                Ok(((s.last_timestamp_ms, (s.sequence + 1) as u16))),
            )
        } else {
            (s, Err(SnowflakeError::SequenceExhausted))
        }
    } else {
        (
            Sequencer { last_timestamp_ms: now_offset, sequence: 0u16 },
            Ok((now_offset, 0u16)),
        )
    }
}

/// A step never moves the counter pair backwards, whether it succeeds or
/// fails.
pub proof fn lemma_step_state_monotonic(s: Sequencer, now_offset: u64)
    requires
        s.wf(),
    ensures
        ({
            let s2 = spec_step(s, now_offset).0;
            s.last_timestamp_ms == s2.last_timestamp_ms && s.sequence == s2.sequence
                || codec::lex_lt(
                    s.last_timestamp_ms, s.sequence as u64,
                    s2.last_timestamp_ms, s2.sequence as u64)
        }),
{
}

/// Monotonic non-decrease: when one successful step happens before another
/// on the same sequencer, the later pair has a strictly greater timestamp,
/// or the same timestamp and a strictly greater sequence; for a fixed
/// machine id the later identifier is therefore numerically larger, and the
/// two decoded triples are distinct.
pub proof fn lemma_successive_steps_ordered(
    s0: Sequencer, now1: u64, now2: u64, machine_id: u64,
)
    requires
        s0.wf(),
        machine_id <= MAX_MACHINE_ID,
        spec_step(s0, now1).1 is Ok,
        spec_step(spec_step(s0, now1).0, now2).1 is Ok,
    ensures
        ({
            let p1 = spec_step(s0, now1).1->Ok_0;
            let p2 = spec_step(spec_step(s0, now1).0, now2).1->Ok_0;
            &&& codec::lex_lt(p1.0, p1.1 as u64, p2.0, p2.1 as u64)
            &&& codec::spec_encode(p1.0, machine_id, p1.1 as u64)
                < codec::spec_encode(p2.0, machine_id, p2.1 as u64)
            &&& (p1.0, machine_id, p1.1 as u64) != (p2.0, machine_id, p2.1 as u64)
        }),
{
    let s1 = spec_step(s0, now1).0;
    let p1 = spec_step(s0, now1).1->Ok_0;
    let p2 = spec_step(s1, now2).1->Ok_0;
    codec::lemma_encode_ordered(p1.0, p1.1 as u64, p2.0, p2.1 as u64, machine_id);
}

/// The counter state after stepping, in order, through a whole run of clock
/// readings, successful or not.
pub open spec fn spec_run(s: Sequencer, nows: Seq<u64>) -> Sequencer
    decreases nows.len(),
{
    if nows.len() == 0 {
        s
    } else {
        spec_step(spec_run(s, nows.drop_last()), nows.last()).0
    }
}

/// What the step at position `i` of a run issues (or how it fails).
pub open spec fn spec_run_output(s: Sequencer, nows: Seq<u64>, i: int)
    -> Result<(u64, u16), SnowflakeError>
{
    spec_step(spec_run(s, nows.take(i)), nows[i]).1
}

/// A run keeps the counters within their field widths.
pub proof fn lemma_run_wf(s: Sequencer, nows: Seq<u64>)
    requires
        s.wf(),
    ensures
        spec_run(s, nows).wf(),
    decreases nows.len(),
{
    if nows.len() > 0 {
        lemma_run_wf(s, nows.drop_last());
    }
}

/// Extending a run by one reading steps the state it had reached.
pub proof fn lemma_run_snoc(s: Sequencer, nows: Seq<u64>, i: int)
    requires
        0 <= i < nows.len(),
    ensures
        spec_run(s, nows.take(i + 1)) == spec_step(spec_run(s, nows.take(i)), nows[i]).0,
{
    assert(nows.take(i + 1).drop_last() =~= nows.take(i));
    assert(nows.take(i + 1).last() == nows[i]);
}

/// Along a run the counter pair never moves backwards, whether the
/// individual steps succeed or fail.
pub proof fn lemma_run_monotonic(s: Sequencer, nows: Seq<u64>, a: int, b: int)
    requires
        s.wf(),
        0 <= a <= b <= nows.len(),
    ensures
        ({
            let sa = spec_run(s, nows.take(a));
            let sb = spec_run(s, nows.take(b));
            codec::lex_le(
                sa.last_timestamp_ms, sa.sequence as u64,
                sb.last_timestamp_ms, sb.sequence as u64)
        }),
    decreases b - a,
{
    if a < b {
        lemma_run_monotonic(s, nows, a, b - 1);
        lemma_run_snoc(s, nows, b - 1);
        lemma_run_wf(s, nows.take(b - 1));
        lemma_step_state_monotonic(spec_run(s, nows.take(b - 1)), nows[b - 1]);
    }
}

/// Uniqueness under arbitrary interleaving: every two successful steps of
/// one run — whatever succeeded, failed or waited in between — issue
/// strictly ordered (timestamp offset, sequence) pairs, so the identifiers
/// they pack (for the one machine id of the sequencer's configuration) are
/// pairwise distinct and numerically ordered by position in the run.
pub proof fn lemma_run_outputs_distinct(
    s: Sequencer, nows: Seq<u64>, i: int, j: int, machine_id: u64,
)
    requires
        s.wf(),
        machine_id <= MAX_MACHINE_ID,
        0 <= i < j < nows.len(),
        spec_run_output(s, nows, i) is Ok,
        spec_run_output(s, nows, j) is Ok,
    ensures
        ({
            let p1 = spec_run_output(s, nows, i)->Ok_0;
            let p2 = spec_run_output(s, nows, j)->Ok_0;
            &&& codec::lex_lt(p1.0, p1.1 as u64, p2.0, p2.1 as u64)
            &&& codec::spec_encode(p1.0, machine_id, p1.1 as u64)
                < codec::spec_encode(p2.0, machine_id, p2.1 as u64)
            &&& (p1.0, machine_id, p1.1 as u64) != (p2.0, machine_id, p2.1 as u64)
        }),
{
    let si1 = spec_run(s, nows.take(i + 1));
    let p1 = spec_run_output(s, nows, i)->Ok_0;
    let p2 = spec_run_output(s, nows, j)->Ok_0;
    lemma_run_wf(s, nows.take(i));
    lemma_run_wf(s, nows.take(j));
    lemma_run_snoc(s, nows, i);
    assert(p1.0 == si1.last_timestamp_ms && p1.1 == si1.sequence);
    lemma_run_monotonic(s, nows, i + 1, j);
    codec::lemma_encode_ordered(p1.0, p1.1 as u64, p2.0, p2.1 as u64, machine_id);
}

} // verus!
