//! The identifier-generation step and its uniqueness argument.
//!
//! The process keeps one generator state: the timestamp of the last issued
//! identifier and the anti-collision sequence counter. The surrounding
//! process serializes callers (the original discipline: sequence lock, then
//! timestamp lock, always in that order) and hands each call the current
//! clock reading; this module holds the step each serialized call performs.
//! The counter is never reset when the clock advances; it only grows when a
//! timestamp repeats, so with a clock that never runs backwards the issued
//! (timestamp, sequence) pairs strictly grow in lexicographic order and can
//! never repeat.

use vstd::prelude::*;

use crate::snowflake::Snowflake;
use crate::snowflake::lemma_render_injective;

verus! {

/// Process-wide generator state: the previously issued timestamp and the
/// sequence counter, both zero at process start.
#[derive(Clone, Copy, PartialEq, Eq, Structural)]
pub struct GeneratorState {
    /// Timestamp (nanoseconds since the epoch) of the last issued identifier.
    pub previous_timestamp: u128,
    /// Counter disambiguating identifiers that share a timestamp.
    pub sequence_counter: u8,
}

/// The state after one generation step at clock reading `now`: a fresh
/// timestamp is recorded, a repeated one increments the sequence counter.
pub open spec fn spec_step(st: GeneratorState, now: u128) -> GeneratorState {
    if now != st.previous_timestamp {
        GeneratorState { previous_timestamp: now, sequence_counter: st.sequence_counter }
    } else {
        GeneratorState {
            previous_timestamp: st.previous_timestamp,
            sequence_counter: (st.sequence_counter + 1) as u8,
        }
    }
}

/// The identifier a step at clock reading `now` issues.
pub open spec fn spec_generated(st: GeneratorState, now: u128, worker_id: u16, usage_id: u8)
    -> Snowflake {
    Snowflake {
        timestamp: now,
        worker_id,
        sequence_id: spec_step(st, now).sequence_counter,
        usage_id,
    }
}

/// A step at `now` would exhaust the sequence counter: the timestamp
/// repeats while the counter is already at its maximum. The caller must
/// stall until the clock advances instead of stepping.
pub open spec fn would_exhaust(st: GeneratorState, now: u128) -> bool {
    now == st.previous_timestamp && st.sequence_counter == u8::MAX
}

impl GeneratorState {
    /// The state a process starts in.
    pub fn new() -> (r: GeneratorState)
        ensures
            r.previous_timestamp == 0,
            r.sequence_counter == 0,
    {
        GeneratorState { previous_timestamp: 0, sequence_counter: 0 }
    }

    /// Whether the next caller should stall briefly before reading the
    /// clock: the counter is at its maximum, and one more identifier in the
    /// same nanosecond would overflow it.
    pub fn at_sequence_limit(&self) -> (r: bool)
        ensures
            r <==> self.sequence_counter == u8::MAX,
    {
        self.sequence_counter == u8::MAX
    }

    /// Performs one generation step: issues the identifier for clock
    /// reading `now` and advances the state.
    pub fn generate(&mut self, now: u128, worker_id: u16, usage_id: u8) -> (r: Snowflake)
        requires
            !would_exhaust(*old(self), now),
        ensures
            *final(self) == spec_step(*old(self), now),
            r == spec_generated(*old(self), now, worker_id, usage_id),
    {
        if now != self.previous_timestamp {
            self.previous_timestamp = now;
        } else {
            self.sequence_counter = self.sequence_counter + 1;
        }
        Snowflake { timestamp: now, worker_id, sequence_id: self.sequence_counter, usage_id }
    }

    /// Total form of the step: declines instead of overflowing. `None`
    /// directs the caller to stall until the clock advances past the
    /// current nanosecond and try again.
    pub fn try_generate(&mut self, now: u128, worker_id: u16, usage_id: u8) -> (r: Option<
        Snowflake,
    >)
        ensures
            would_exhaust(*old(self), now) ==> r is None && *final(self) == *old(self),
            !would_exhaust(*old(self), now) ==> *final(self) == spec_step(*old(self), now) && r
                == Some(spec_generated(*old(self), now, worker_id, usage_id)),
    {
        if now == self.previous_timestamp && self.sequence_counter == u8::MAX {
            None
        } else {
            Some(self.generate(now, worker_id, usage_id))
        }
    }
}

/// The (timestamp, sequence) pairs issued by a run of steps at the clock
/// readings `nows`.
pub open spec fn spec_trace_keys(st: GeneratorState, nows: Seq<u128>) -> Seq<(u128, u8)>
    decreases nows.len(),
{
    if nows.len() == 0 {
        Seq::empty()
    } else {
        let st1 = spec_step(st, nows[0]);
        seq![(nows[0], st1.sequence_counter)] + spec_trace_keys(st1, nows.drop_first())
    }
}

/// The clock readings of a run are admissible: the clock never runs
/// backwards, and no step falls on an exhausted counter (the stall in the
/// caller enforces exactly this).
pub open spec fn trace_admissible(st: GeneratorState, nows: Seq<u128>) -> bool
    decreases nows.len(),
{
    nows.len() == 0 || {
        &&& nows[0] >= st.previous_timestamp
        &&& !would_exhaust(st, nows[0])
        &&& trace_admissible(spec_step(st, nows[0]), nows.drop_first())
    }
}

/// Strict lexicographic order on (timestamp, sequence) pairs.
pub open spec fn key_lt(a: (u128, u8), b: (u128, u8)) -> bool {
    a.0 < b.0 || (a.0 == b.0 && a.1 < b.1)
}

/// A run of steps issues one key per clock reading.
pub proof fn lemma_trace_keys_len(st: GeneratorState, nows: Seq<u128>)
    ensures
        spec_trace_keys(st, nows).len() == nows.len(),
    decreases nows.len(),
{
    if nows.len() > 0 {
        lemma_trace_keys_len(spec_step(st, nows[0]), nows.drop_first());
    }
}

/// Every key an admissible run issues lies strictly above the key recorded
/// in the starting state.
proof fn lemma_trace_lower_bound(st: GeneratorState, nows: Seq<u128>, k: int)
    requires
        trace_admissible(st, nows),
        0 <= k < nows.len(),
    ensures
        key_lt(
            (st.previous_timestamp, st.sequence_counter),
            spec_trace_keys(st, nows)[k],
        ),
    decreases k,
{
    let st1 = spec_step(st, nows[0]);
    let head = (nows[0], st1.sequence_counter);
    lemma_trace_keys_len(st1, nows.drop_first());
    assert(head == (st1.previous_timestamp, st1.sequence_counter));
    assert(key_lt((st.previous_timestamp, st.sequence_counter), head));
    if k > 0 {
        lemma_trace_lower_bound(st1, nows.drop_first(), k - 1);
        assert(spec_trace_keys(st, nows)[k] == spec_trace_keys(st1, nows.drop_first())[k - 1]);
    }
}

/// The keys of an admissible run grow strictly in lexicographic order.
proof fn lemma_trace_keys_increasing(st: GeneratorState, nows: Seq<u128>, i: int, j: int)
    requires
        trace_admissible(st, nows),
        0 <= i < j < nows.len(),
    ensures
        key_lt(spec_trace_keys(st, nows)[i], spec_trace_keys(st, nows)[j]),
    decreases i,
{
    let st1 = spec_step(st, nows[0]);
    lemma_trace_keys_len(st1, nows.drop_first());
    if i == 0 {
        assert(spec_trace_keys(st, nows)[0] == (st1.previous_timestamp, st1.sequence_counter));
        lemma_trace_lower_bound(st1, nows.drop_first(), j - 1);
        assert(spec_trace_keys(st, nows)[j] == spec_trace_keys(st1, nows.drop_first())[j - 1]);
    } else {
        lemma_trace_keys_increasing(st1, nows.drop_first(), i - 1, j - 1);
        assert(spec_trace_keys(st, nows)[i] == spec_trace_keys(st1, nows.drop_first())[i - 1]);
        assert(spec_trace_keys(st, nows)[j] == spec_trace_keys(st1, nows.drop_first())[j - 1]);
    }
}

/// Law (uniqueness): an admissible run never issues the same (timestamp,
/// sequence) pair twice.
pub proof fn lemma_trace_keys_distinct(st: GeneratorState, nows: Seq<u128>, i: int, j: int)
    requires
        trace_admissible(st, nows),
        0 <= i < nows.len(),
        0 <= j < nows.len(),
        i != j,
    ensures
        spec_trace_keys(st, nows)[i] != spec_trace_keys(st, nows)[j],
{
    if i < j {
        lemma_trace_keys_increasing(st, nows, i, j);
    } else {
        lemma_trace_keys_increasing(st, nows, j, i);
    }
}

/// Law (uniqueness of rendered strings): two identifiers issued at distinct
/// positions of an admissible run render to distinct strings, whatever
/// their usage tags.
pub proof fn lemma_generated_strings_distinct(
    st: GeneratorState,
    nows: Seq<u128>,
    i: int,
    j: int,
    a: Snowflake,
    b: Snowflake,
)
    requires
        trace_admissible(st, nows),
        0 <= i < nows.len(),
        0 <= j < nows.len(),
        i != j,
        (a.timestamp, a.sequence_id) == spec_trace_keys(st, nows)[i],
        (b.timestamp, b.sequence_id) == spec_trace_keys(st, nows)[j],
    ensures
        a.spec_render() != b.spec_render(),
{
    lemma_trace_keys_distinct(st, nows, i, j);
    if a.spec_render() == b.spec_render() {
        lemma_render_injective(a, b);
    }
}

} // verus!
