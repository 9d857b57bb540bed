//! The process state registry: at most one generator per process.
//!
//! A [`Slot`] is the single coordination point of a process. It is explicit
//! and caller-owned: an embedding application threads one slot through every
//! call (wrapping it in one exclusive lock when several threads share it, so
//! that each operation's check and write happen as one unit). The slot is
//! either `Empty` or `Ready`, and a `Ready` state is only ever replaced
//! wholesale, never mutated field by field except for its sequencer's one
//! atomic counter step.
//!
//! Fork handling: every operation compares the process identity recorded at
//! creation with the identity of the caller. A caller with a different
//! identity (a forked child, whose memory still holds the parent's state)
//! never continues the inherited counters: the policy of this crate is
//! transparent rebuild, publishing a brand-new state with the caller's
//! configuration and a fresh sequencer. Generation performed as part of that
//! remediation publishes the rebuilt state even when the generation step
//! itself then fails; in every other respect a failed operation leaves the
//! slot exactly as it was.

use vstd::prelude::*;

use crate::clock;
use crate::codec;
use crate::codec::MAX_MACHINE_ID;
use crate::errors::SnowflakeError;
use crate::sequencer::{spec_step, Sequencer};

verus! {

/// How many times a generation call re-reads the clock when the sequence of
/// the current millisecond is spent, before giving up with
/// [`SnowflakeError::SequenceExhausted`]. Reads are back-to-back, so the
/// budget spans several milliseconds of a live clock; a clock that never
/// advances surfaces the failure instead of looping forever.
pub const GENERATE_RETRY_LIMIT: u64 = 1_000_000;

/// The immutable configuration a process commits to when its state is first
/// published.
#[derive(Clone, Copy, Debug, PartialEq, Eq, Structural)]
pub struct GeneratorConfig {
    /// Caller-assigned shard identity; must fit the 10-bit identifier field.
    pub machine_id: u16,
    /// The custom epoch, as milliseconds since the Unix epoch, that issued
    /// timestamps are relative to.
    pub epoch_offset_ms: u64,
}

impl GeneratorConfig {
    /// The machine id fits the identifier field it is packed into.
    pub open spec fn wf(self) -> bool {
        self.machine_id <= MAX_MACHINE_ID
    }
}

/// One published generator: its configuration, its sequencer, and the
/// identity of the process that created it.
#[derive(Clone, Copy, Debug, PartialEq, Eq, Structural)]
pub struct ProcessState {
    /// The configuration adopted when this state was published.
    pub config: GeneratorConfig,
    /// The mutable counter pair; updated only as one atomic unit.
    pub sequencer: Sequencer,
    /// The identity of the process that built and published this state.
    pub init_pid: u32,
}

impl ProcessState {
    /// The configuration and the counters are all within field widths.
    pub open spec fn wf(self) -> bool {
        self.config.wf() && self.sequencer.wf()
    }

    /// The state a process publishes when it adopts a configuration: the
    /// given config, a fresh sequencer, and the caller as creator.
    pub open spec fn spec_new(machine_id: u16, epoch_offset_ms: u64, pid: u32) -> ProcessState {
        ProcessState {
            config: GeneratorConfig { machine_id, epoch_offset_ms },
            sequencer: Sequencer { last_timestamp_ms: 0u64, sequence: 0u16 },
            init_pid: pid,
        }
    }

    /// Builds the state [`ProcessState::spec_new`] describes.
    pub fn new(machine_id: u16, epoch_offset_ms: u64, pid: u32) -> (s: Self)
        requires
            machine_id <= MAX_MACHINE_ID,
        ensures
            s == Self::spec_new(machine_id, epoch_offset_ms, pid),
            s.wf(),
    {
        ProcessState {
            config: GeneratorConfig { machine_id, epoch_offset_ms },
            sequencer: Sequencer::new(),
            init_pid: pid,
        }
    }

    /// One generation attempt against this state at the given wall-clock
    /// reading: exactly [`spec_generate_on`] of the old state. A clock
    /// before the configured epoch or behind the last adopted millisecond
    /// fails as a regression; a spent sequence fails as exhausted; every
    /// failure leaves the state untouched.
    pub fn generate_at_ms(&mut self, now_unix_ms: u64) -> (r: Result<u64, SnowflakeError>)
        requires
            old(self).wf(),
        ensures
            (Slot::Ready(*final(self)), r) == spec_generate_on(*old(self), now_unix_ms),
            final(self).wf(),
            final(self).config == old(self).config,
            final(self).init_pid == old(self).init_pid,
            r is Err ==> *final(self) == *old(self),
            r matches Ok(id) ==> {
                &&& id == codec::spec_encode(
                    final(self).sequencer.last_timestamp_ms,
                    old(self).config.machine_id as u64,
                    final(self).sequencer.sequence as u64)
                &&& codec::spec_machine_id(id) == old(self).config.machine_id
                &&& codec::lex_lt(
                    old(self).sequencer.last_timestamp_ms, old(self).sequencer.sequence as u64,
                    final(self).sequencer.last_timestamp_ms, final(self).sequencer.sequence as u64)
            },
    {
        if now_unix_ms < self.config.epoch_offset_ms {
            return Err(SnowflakeError::ClockRegression);
        }
        let offset = now_unix_ms - self.config.epoch_offset_ms;
        self.sequencer.next_id(self.config.machine_id, offset)
    }
}

/// The global slot of a process: zero or one published [`ProcessState`].
#[derive(Clone, Copy, Debug, PartialEq, Eq, Structural)]
pub enum Slot {
    /// No generator has been configured in this process yet.
    Empty,
    /// A generator is published and in use.
    Ready(ProcessState),
}

impl Slot {
    /// A published state, if any, is well formed.
    pub open spec fn wf(self) -> bool {
        self matches Slot::Ready(s) ==> s.wf()
    }

    /// Whether a state is published and was created by the given process.
    pub open spec fn owned_by(self, pid: u32) -> bool {
        self matches Slot::Ready(s) && s.init_pid == pid
    }

    /// Whether the published configuration is exactly the given one.
    pub open spec fn config_matches(self, machine_id: u16, epoch_offset_ms: u64) -> bool {
        self matches Slot::Ready(s)
            && s.config.machine_id == machine_id
            && s.config.epoch_offset_ms == epoch_offset_ms
    }
}

/// The transition of first-writer-wins initialization: a slot already owned
/// by the caller is kept as it is, whatever configuration is passed; any
/// other slot (empty, or created by another process) is replaced by a fresh
/// state with the caller's configuration. The flag reports whether this call
/// was the one that created the published state.
pub open spec fn spec_ensure_initialized(
    slot: Slot, pid: u32, machine_id: u16, epoch_offset_ms: u64,
) -> (Slot, bool) {
    if slot.owned_by(pid) {
        (slot, false)
    } else {
        (Slot::Ready(ProcessState::spec_new(machine_id, epoch_offset_ms, pid)), true)
    }
}

/// The transition of one generation attempt against a published state at a
/// given wall-clock reading.
pub open spec fn spec_generate_on(s: ProcessState, now_unix_ms: u64)
    -> (Slot, Result<u64, SnowflakeError>)
{
    if now_unix_ms < s.config.epoch_offset_ms {
        (Slot::Ready(s), Err(SnowflakeError::ClockRegression))
    } else {
        let offset = (now_unix_ms - s.config.epoch_offset_ms) as u64;
        let stepped = spec_step(s.sequencer, offset);
        let s2 = ProcessState { config: s.config, sequencer: stepped.0, init_pid: s.init_pid };
        (
            Slot::Ready(s2),
            match stepped.1 {
                Ok(p) => Ok(
                    codec::spec_encode(p.0, s.config.machine_id as u64, p.1 as u64)),
                Err(e) => Err(e),
            },
        )
    }
}

/// The transition of one externally-atomic generation call: initialization
/// (or fork remediation), configuration validation and one sequencer step,
/// observed as a single step on the slot.
pub open spec fn spec_generate_at(
    slot: Slot, pid: u32, machine_id: u16, epoch_offset_ms: u64, now_unix_ms: u64,
) -> (Slot, Result<u64, SnowflakeError>) {
    if slot.owned_by(pid) {
        let s = slot->Ready_0;
        if s.config.machine_id == machine_id && s.config.epoch_offset_ms == epoch_offset_ms {
            spec_generate_on(s, now_unix_ms)
        } else {
            (slot, Err(SnowflakeError::ConfigMismatch))
        }
    } else {
        spec_generate_on(ProcessState::spec_new(machine_id, epoch_offset_ms, pid), now_unix_ms)
    }
}

/// True exactly when a state created by the calling process is published.
pub fn is_initialized(slot: &Slot, pid: u32) -> (r: bool)
    ensures
        r == slot.owned_by(pid),
{
    match slot {
        Slot::Ready(s) => s.init_pid == pid,
        Slot::Empty => false,
    }
}

/// First-writer-wins initialization: exactly
/// [`spec_ensure_initialized`] of the old slot. A slot already owned by the
/// calling process is returned as it is — the passed configuration is
/// ignored, not re-validated — and the call reports `false`; an empty slot,
/// or one created by another process (a fork), is replaced by a freshly
/// built state and the call reports `true`.
pub fn ensure_initialized(
    slot: &mut Slot, pid: u32, machine_id: u16, epoch_offset_ms: u64,
) -> (newly_created: bool)
    requires
        old(slot).wf(),
        machine_id <= MAX_MACHINE_ID,
    ensures
        (*final(slot), newly_created)
            == spec_ensure_initialized(*old(slot), pid, machine_id, epoch_offset_ms),
        final(slot).wf(),
        final(slot).owned_by(pid),
        newly_created == !old(slot).owned_by(pid),
        !newly_created ==> *final(slot) == *old(slot),
        newly_created ==> *final(slot)
            == Slot::Ready(ProcessState::spec_new(machine_id, epoch_offset_ms, pid)),
{
    if is_initialized(slot, pid) {
        false
    } else {
        *slot = Slot::Ready(ProcessState::new(machine_id, epoch_offset_ms, pid));
        true
    }
}

/// Fails with [`SnowflakeError::ConfigMismatch`] exactly when the stored
/// machine id or epoch differs from the arguments; the state is never
/// changed.
pub fn validate_config(
    state: &ProcessState, machine_id: u16, epoch_offset_ms: u64,
) -> (r: Result<(), SnowflakeError>)
    ensures
        state.config.machine_id == machine_id && state.config.epoch_offset_ms == epoch_offset_ms
            ==> r == Ok::<(), SnowflakeError>(()),
        state.config.machine_id != machine_id || state.config.epoch_offset_ms != epoch_offset_ms
            ==> r == Err::<(), SnowflakeError>(SnowflakeError::ConfigMismatch),
{
    if state.config.machine_id != machine_id || state.config.epoch_offset_ms != epoch_offset_ms {
        Err(SnowflakeError::ConfigMismatch)
    } else {
        Ok(())
    }
}

/// One externally-atomic generation call at a given wall-clock reading:
/// initialization or fork remediation, configuration validation and one
/// sequencer step, exactly [`spec_generate_at`] of the old slot.
///
/// On success the identifier carries the caller's machine id, the clock
/// reading relative to the epoch, and the sequencer's new sequence value.
/// A configuration mismatch leaves the slot untouched; any failure after a
/// fork (or first call) still publishes the freshly rebuilt state, whose
/// counters it has not advanced.
pub fn generate_at(
    slot: &mut Slot, pid: u32, machine_id: u16, epoch_offset_ms: u64, now_unix_ms: u64,
) -> (r: Result<u64, SnowflakeError>)
    requires
        old(slot).wf(),
        machine_id <= MAX_MACHINE_ID,
    ensures
        (*final(slot), r)
            == spec_generate_at(*old(slot), pid, machine_id, epoch_offset_ms, now_unix_ms),
        final(slot).wf(),
        final(slot).owned_by(pid),
        r == Err::<u64, SnowflakeError>(SnowflakeError::ConfigMismatch)
            <==> old(slot).owned_by(pid)
                && !old(slot).config_matches(machine_id, epoch_offset_ms),
        old(slot).owned_by(pid) && r is Err ==> *final(slot) == *old(slot),
        !old(slot).owned_by(pid) && r is Err ==> *final(slot)
            == Slot::Ready(ProcessState::spec_new(machine_id, epoch_offset_ms, pid)),
        r matches Ok(id) ==> {
            &&& (*final(slot)) matches Slot::Ready(s2) && s2.init_pid == pid
            &&& final(slot)->Ready_0.config
                == (GeneratorConfig { machine_id, epoch_offset_ms })
            &&& id == codec::spec_encode(
                final(slot)->Ready_0.sequencer.last_timestamp_ms,
                machine_id as u64,
                final(slot)->Ready_0.sequencer.sequence as u64)
            &&& codec::spec_machine_id(id) == machine_id
            &&& now_unix_ms >= epoch_offset_ms
            &&& final(slot)->Ready_0.sequencer.last_timestamp_ms
                == now_unix_ms - epoch_offset_ms
        },
        r is Ok && old(slot).owned_by(pid) && old(slot).config_matches(machine_id, epoch_offset_ms)
            ==> codec::lex_lt(
                old(slot)->Ready_0.sequencer.last_timestamp_ms,
                old(slot)->Ready_0.sequencer.sequence as u64,
                final(slot)->Ready_0.sequencer.last_timestamp_ms,
                final(slot)->Ready_0.sequencer.sequence as u64),
{
    if is_initialized(slot, pid) {
        match slot {
            Slot::Ready(s) => {
                if s.config.machine_id != machine_id || s.config.epoch_offset_ms != epoch_offset_ms
                {
                    return Err(SnowflakeError::ConfigMismatch);
                }
                s.generate_at_ms(now_unix_ms)
            },
            Slot::Empty => {
                assert(false);
                Err(SnowflakeError::NotInitialized)
            },
        }
    } else {
        *slot = Slot::Ready(ProcessState::new(machine_id, epoch_offset_ms, pid));
        match slot {
            Slot::Ready(s) => s.generate_at_ms(now_unix_ms),
            Slot::Empty => {
                assert(false);
                Err(SnowflakeError::NotInitialized)
            },
        }
    }
}

/// One externally-atomic generation call against the live wall clock:
/// [`generate_at`] retried, re-reading the clock, only while the current
/// millisecond's sequence is exhausted, up to [`GENERATE_RETRY_LIMIT`]
/// attempts. The clock is outside the contract, so every clause here holds
/// for every reading it may produce.
pub fn generate(
    slot: &mut Slot, pid: u32, machine_id: u16, epoch_offset_ms: u64,
) -> (r: Result<u64, SnowflakeError>)
    requires
        old(slot).wf(),
        machine_id <= MAX_MACHINE_ID,
    ensures
        final(slot).wf(),
        final(slot).owned_by(pid),
        r == Err::<u64, SnowflakeError>(SnowflakeError::ConfigMismatch)
            <==> old(slot).owned_by(pid)
                && !old(slot).config_matches(machine_id, epoch_offset_ms),
        old(slot).owned_by(pid) && r is Err ==> *final(slot) == *old(slot),
        !old(slot).owned_by(pid) && r is Err ==> *final(slot)
            == Slot::Ready(ProcessState::spec_new(machine_id, epoch_offset_ms, pid)),
        r matches Ok(id) ==> {
            &&& final(slot)->Ready_0.config
                == (GeneratorConfig { machine_id, epoch_offset_ms })
            &&& id == codec::spec_encode(
                final(slot)->Ready_0.sequencer.last_timestamp_ms,
                machine_id as u64,
                final(slot)->Ready_0.sequencer.sequence as u64)
            &&& codec::spec_machine_id(id) == machine_id
        },
        r is Ok && old(slot).owned_by(pid) && old(slot).config_matches(machine_id, epoch_offset_ms)
            ==> codec::lex_lt(
                old(slot)->Ready_0.sequencer.last_timestamp_ms,
                old(slot)->Ready_0.sequencer.sequence as u64,
                final(slot)->Ready_0.sequencer.last_timestamp_ms,
                final(slot)->Ready_0.sequencer.sequence as u64),
{
    let mut attempt: u64 = 0;
    while attempt < GENERATE_RETRY_LIMIT
        invariant
            machine_id <= MAX_MACHINE_ID,
            slot.wf(),
            *slot == *old(slot),
            attempt <= GENERATE_RETRY_LIMIT,
            attempt > 0 ==> old(slot).owned_by(pid)
                && old(slot).config_matches(machine_id, epoch_offset_ms),
        decreases GENERATE_RETRY_LIMIT - attempt,
    {
        let now = clock::now_unix_millis();
        let r = generate_at(slot, pid, machine_id, epoch_offset_ms, now);
        match r {
            Err(SnowflakeError::SequenceExhausted) => {
                proof {
                    // A sequence can only be spent in a state the caller
                    // already owns: remediation and first initialization
                    // step a fresh sequencer, which is never exhausted.
                    assert(old(slot).owned_by(pid));
                    assert(old(slot).config_matches(machine_id, epoch_offset_ms));
                }
                attempt = attempt + 1;
            },
            _ => {
                return r;
            },
        }
    }
    Err(SnowflakeError::SequenceExhausted)
}

/// The machine id the process is configured with, when a state created by
/// the calling process is published.
pub fn configured_machine_id(slot: &Slot, pid: u32) -> (r: Option<u16>)
    ensures
        slot.owned_by(pid) ==> r == Some(slot->Ready_0.config.machine_id),
        !slot.owned_by(pid) ==> r is None,
{
    match slot {
        Slot::Ready(s) => {
            if s.init_pid == pid {
                Some(s.config.machine_id)
            } else {
                None
            }
        },
        Slot::Empty => None,
    }
}

/// The epoch that issued identifiers are relative to. Any published state
/// answers, even one inherited across a fork: the epoch is needed to
/// interpret identifiers that were already issued, and remediation keeps it
/// only by re-adoption.
pub fn epoch_offset(slot: &Slot) -> (r: Result<u64, SnowflakeError>)
    ensures
        (*slot) matches Slot::Ready(s) ==> r == Ok::<u64, SnowflakeError>(s.config.epoch_offset_ms),
        (*slot) is Empty ==> r == Err::<u64, SnowflakeError>(SnowflakeError::NotInitialized),
{
    match slot {
        Slot::Ready(s) => Ok(s.config.epoch_offset_ms),
        Slot::Empty => Err(SnowflakeError::NotInitialized),
    }
}

/// Addition on `u64` that stops at the largest representable value.
pub open spec fn spec_saturating_add(a: u64, b: u64) -> u64 {
    if a + b > u64::MAX {
        u64::MAX
    } else {
        (a + b) as u64
    }
}

/// The three decoded fields of an identifier, with the timestamp translated
/// back to milliseconds since the Unix epoch.
#[derive(Clone, Copy, Debug, PartialEq, Eq, Structural)]
pub struct ParsedId {
    /// Decoded timestamp offset plus the configured epoch, saturating.
    pub timestamp_ms: u64,
    /// The decoded machine id field.
    pub machine_id: u64,
    /// The decoded sequence field.
    pub sequence: u64,
}

/// Decodes an identifier under the configured epoch: the timestamp field
/// plus the epoch offset (saturating), the machine id and the sequence.
/// Needs a published state for the epoch; fails with
/// [`SnowflakeError::NotInitialized`] on an empty slot.
pub fn parse(slot: &Slot, id: u64) -> (r: Result<ParsedId, SnowflakeError>)
    ensures
        (*slot) matches Slot::Ready(s) ==> r == Ok::<ParsedId, SnowflakeError>(
            ParsedId {
                timestamp_ms: spec_saturating_add(
                    codec::spec_timestamp(id), s.config.epoch_offset_ms),
                machine_id: codec::spec_machine_id(id),
                sequence: codec::spec_sequence(id),
            }),
        (*slot) is Empty ==> r == Err::<ParsedId, SnowflakeError>(SnowflakeError::NotInitialized),
{
    let epoch = epoch_offset(slot)?;
    Ok(ParsedId {
        timestamp_ms: codec::timestamp_offset_of(id).saturating_add(epoch),
        machine_id: codec::machine_id_from_id(id),
        sequence: codec::sequence_from_id(id),
    })
}

/// The absolute millisecond timestamp of an identifier: its decoded
/// timestamp field plus the configured epoch offset, saturating.
pub fn timestamp_ms(slot: &Slot, id: u64) -> (r: Result<u64, SnowflakeError>)
    ensures
        (*slot) matches Slot::Ready(s) ==> r == Ok::<u64, SnowflakeError>(
            spec_saturating_add(codec::spec_timestamp(id), s.config.epoch_offset_ms)),
        (*slot) is Empty ==> r == Err::<u64, SnowflakeError>(SnowflakeError::NotInitialized),
{
    let epoch = epoch_offset(slot)?;
    Ok(codec::timestamp_offset_of(id).saturating_add(epoch))
}

/// Idempotent initialization: from an empty slot, the first call publishes a
/// fresh state and reports it newly created; a second call by the same
/// process returns the very same state and reports `false`, whatever
/// configuration it passes, so the stored configuration is the first one in
/// both observations.
pub proof fn lemma_init_idempotent(
    pid: u32, machine_id: u16, epoch_offset_ms: u64, machine_id2: u16, epoch_offset_ms2: u64,
)
    ensures
        ({
            let (slot1, created1) =
                spec_ensure_initialized(Slot::Empty, pid, machine_id, epoch_offset_ms);
            let (slot2, created2) =
                spec_ensure_initialized(slot1, pid, machine_id2, epoch_offset_ms2);
            &&& created1
            &&& !created2
            &&& slot2 == slot1
            &&& slot1 == Slot::Ready(ProcessState::spec_new(machine_id, epoch_offset_ms, pid))
        }),
{
}

/// Configuration rejection: a slot owned by the caller but initialized with
/// a different machine id or epoch fails generation with a configuration
/// mismatch and keeps its stored state, configuration included, unchanged.
pub proof fn lemma_config_rejection(
    slot: Slot, pid: u32, machine_id: u16, epoch_offset_ms: u64, now_unix_ms: u64,
)
    requires
        slot.owned_by(pid),
        !slot.config_matches(machine_id, epoch_offset_ms),
    ensures
        spec_generate_at(slot, pid, machine_id, epoch_offset_ms, now_unix_ms)
            == (slot, Err::<u64, SnowflakeError>(SnowflakeError::ConfigMismatch)),
{
}

/// Fork isolation: for a caller that does not own the published state, both
/// initialization and generation behave exactly as they would on an empty
/// slot — the rebuilt state starts from a fresh sequencer, so the inherited
/// counters are never read, let alone continued.
pub proof fn lemma_fork_isolation(
    slot: Slot, pid: u32, machine_id: u16, epoch_offset_ms: u64, now_unix_ms: u64,
)
    requires
        !slot.owned_by(pid),
    ensures
        spec_generate_at(slot, pid, machine_id, epoch_offset_ms, now_unix_ms)
            == spec_generate_at(Slot::Empty, pid, machine_id, epoch_offset_ms, now_unix_ms),
        spec_ensure_initialized(slot, pid, machine_id, epoch_offset_ms)
            == spec_ensure_initialized(Slot::Empty, pid, machine_id, epoch_offset_ms),
        spec_ensure_initialized(slot, pid, machine_id, epoch_offset_ms).0->Ready_0.sequencer
            == (Sequencer { last_timestamp_ms: 0u64, sequence: 0u16 }),
{
}

/// The state after a run of generation attempts against one published
/// state, at the given wall-clock readings in order.
pub open spec fn spec_run_on(s: ProcessState, nows: Seq<u64>) -> ProcessState
    decreases nows.len(),
{
    if nows.len() == 0 {
        s
    } else {
        spec_generate_on(spec_run_on(s, nows.drop_last()), nows.last()).0->Ready_0
    }
}

/// What the attempt at position `i` of a run returns.
pub open spec fn spec_run_on_output(s: ProcessState, nows: Seq<u64>, i: int)
    -> Result<u64, SnowflakeError>
{
    spec_generate_on(spec_run_on(s, nows.take(i)), nows[i]).1
}

/// A run of generation attempts never touches the configuration or the
/// creator identity, and keeps the state well formed.
pub proof fn lemma_run_on_preserves(s: ProcessState, nows: Seq<u64>)
    requires
        s.wf(),
    ensures
        spec_run_on(s, nows).wf(),
        spec_run_on(s, nows).config == s.config,
        spec_run_on(s, nows).init_pid == s.init_pid,
    decreases nows.len(),
{
    if nows.len() > 0 {
        lemma_run_on_preserves(s, nows.drop_last());
    }
}

/// Extending a run by one reading performs one attempt on the state the run
/// had reached.
pub proof fn lemma_run_on_snoc(s: ProcessState, nows: Seq<u64>, i: int)
    requires
        0 <= i < nows.len(),
    ensures
        spec_run_on(s, nows.take(i + 1))
            == spec_generate_on(spec_run_on(s, nows.take(i)), nows[i]).0->Ready_0,
{
    assert(nows.take(i + 1).drop_last() =~= nows.take(i));
    assert(nows.take(i + 1).last() == nows[i]);
}

/// Along a run the counter pair never moves backwards, whether the
/// individual attempts succeed or fail.
pub proof fn lemma_run_on_monotonic(s: ProcessState, nows: Seq<u64>, a: int, b: int)
    requires
        s.wf(),
        0 <= a <= b <= nows.len(),
    ensures
        ({
            let qa = spec_run_on(s, nows.take(a)).sequencer;
            let qb = spec_run_on(s, nows.take(b)).sequencer;
            codec::lex_le(
                qa.last_timestamp_ms, qa.sequence as u64,
                qb.last_timestamp_ms, qb.sequence as u64)
        }),
    decreases b - a,
{
    if a < b {
        lemma_run_on_monotonic(s, nows, a, b - 1);
        lemma_run_on_snoc(s, nows, b - 1);
        lemma_run_on_preserves(s, nows.take(b - 1));
        let sb = spec_run_on(s, nows.take(b - 1));
        if nows[b - 1] >= sb.config.epoch_offset_ms {
            crate::sequencer::lemma_step_state_monotonic(
                sb.sequencer, (nows[b - 1] - sb.config.epoch_offset_ms) as u64);
        }
    }
}

/// Uniqueness: for any number of generation calls against one published
/// state — under the one exclusive lock that makes each call atomic, any
/// thread interleaving is some such run — every two calls that succeeded
/// returned identifiers whose decoded (timestamp, machine id, sequence)
/// triples are pairwise distinct; in run order the identifiers are strictly
/// increasing.
pub proof fn lemma_run_ids_pairwise_distinct(s: ProcessState, nows: Seq<u64>, i: int, j: int)
    requires
        s.wf(),
        0 <= i < j < nows.len(),
        spec_run_on_output(s, nows, i) is Ok,
        spec_run_on_output(s, nows, j) is Ok,
    ensures
        ({
            let id1 = spec_run_on_output(s, nows, i)->Ok_0;
            let id2 = spec_run_on_output(s, nows, j)->Ok_0;
            &&& id1 < id2
            &&& codec::lex_lt(
                codec::spec_timestamp(id1), codec::spec_sequence(id1),
                codec::spec_timestamp(id2), codec::spec_sequence(id2))
            &&& (codec::spec_timestamp(id1), codec::spec_machine_id(id1),
                codec::spec_sequence(id1))
                != ((codec::spec_timestamp(id2), codec::spec_machine_id(id2),
                    codec::spec_sequence(id2)))
        }),
{
    let machine = s.config.machine_id as u64;
    let sj = spec_run_on(s, nows.take(j));
    let si1 = spec_run_on(s, nows.take(i + 1));
    lemma_run_on_preserves(s, nows.take(i));
    lemma_run_on_preserves(s, nows.take(j));
    lemma_run_on_snoc(s, nows, i);
    // The pair issued at position i is the pair the run then carries.
    let q1 = si1.sequencer;
    let q2 = spec_generate_on(sj, nows[j]).0->Ready_0.sequencer;
    lemma_run_on_monotonic(s, nows, i + 1, j);
    codec::lemma_round_trip(q1.last_timestamp_ms, machine, q1.sequence as u64);
    codec::lemma_round_trip(q2.last_timestamp_ms, machine, q2.sequence as u64);
    codec::lemma_encode_ordered(
        q1.last_timestamp_ms, q1.sequence as u64,
        q2.last_timestamp_ms, q2.sequence as u64,
        machine);
}

/// Uniqueness and monotonic non-decrease of consecutive identifiers: when
/// one successful generation happens before another on the same slot, by the
/// same process with one configuration, the later identifier's (timestamp,
/// sequence) pair is strictly later in creation order — a greater timestamp,
/// or the same timestamp and a strictly greater sequence — so the later
/// identifier is numerically larger and the two decoded triples are
/// distinct.
pub proof fn lemma_successive_generate_ordered(
    slot: Slot, pid: u32, machine_id: u16, epoch_offset_ms: u64, now1: u64, now2: u64,
)
    requires
        slot.wf(),
        machine_id <= MAX_MACHINE_ID,
        spec_generate_at(slot, pid, machine_id, epoch_offset_ms, now1).1 is Ok,
        spec_generate_at(
            spec_generate_at(slot, pid, machine_id, epoch_offset_ms, now1).0,
            pid, machine_id, epoch_offset_ms, now2).1 is Ok,
    ensures
        ({
            let (mid, r1) = spec_generate_at(slot, pid, machine_id, epoch_offset_ms, now1);
            let r2 = spec_generate_at(mid, pid, machine_id, epoch_offset_ms, now2).1;
            let id1 = r1->Ok_0;
            let id2 = r2->Ok_0;
            &&& codec::lex_lt(
                codec::spec_timestamp(id1), codec::spec_sequence(id1),
                codec::spec_timestamp(id2), codec::spec_sequence(id2))
            &&& id1 < id2
            &&& (codec::spec_timestamp(id1), codec::spec_machine_id(id1),
                codec::spec_sequence(id1))
                != ((codec::spec_timestamp(id2), codec::spec_machine_id(id2),
                    codec::spec_sequence(id2)))
        }),
{
    let (mid, r1) = spec_generate_at(slot, pid, machine_id, epoch_offset_ms, now1);
    let (fin, r2) = spec_generate_at(mid, pid, machine_id, epoch_offset_ms, now2);
    let s1 = mid->Ready_0.sequencer;
    let s2 = fin->Ready_0.sequencer;
    codec::lemma_round_trip(s1.last_timestamp_ms, machine_id as u64, s1.sequence as u64);
    codec::lemma_round_trip(s2.last_timestamp_ms, machine_id as u64, s2.sequence as u64);
    codec::lemma_encode_ordered(
        s1.last_timestamp_ms, s1.sequence as u64,
        s2.last_timestamp_ms, s2.sequence as u64,
        machine_id as u64);
}

} // verus!
