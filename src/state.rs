use vstd::prelude::*;

use crate::config::{mask_of, valid_node_bits, MAX_TIMESTAMP};
use crate::extractor::{assemble, lemma_assemble_order, sequence_bits_of};

verus! {

/// The largest timestamp the packed state word can hold.
pub const MAX_STATE_TIMESTAMP: u64 = 0xFFFF_FFFF_FFFF;

/// A generator's last published (timestamp, sequence) pair packed into one
/// word: the timestamp in the high 48 bits, the sequence in the low 16.
#[derive(Clone, Copy, Debug, PartialEq, Eq, Structural)]
pub struct State(u64);

/// A (timestamp, sequence) pair.
pub type Stamp = (u64, u16);

/// Whether `a` comes strictly before `b`: by timestamp, then by sequence.
pub open spec fn stamp_lt(a: Stamp, b: Stamp) -> bool {
    a.0 < b.0 || (a.0 == b.0 && a.1 < b.1)
}

/// Whether a pair fits the identifier layout whose sequence runs up to `max_seq`.
pub open spec fn stamp_valid(s: Stamp, max_seq: u16) -> bool {
    s.0 <= MAX_TIMESTAMP && s.1 <= max_seq
}

/// The pair a generator publishes after observing `(ts, seq)` with the clock
/// reading `now`, or `None` when the identifier range has no pair after it.
///  - The clock has passed `ts`: claim the clock's millisecond with sequence 0.
///  - Otherwise, with room in the sequence: the next sequence, same timestamp
///    (a clock that went backwards never pulls the timestamp down).
///  - Otherwise the millisecond is used up: sequence 0 of the next one, ahead
///    of the clock. The generator takes this step only in the last round of
///    its slow path, after waiting for the clock; its other updates follow
///    `successor_within_clock`.
pub open spec fn successor_spec(ts: u64, seq: u16, now: u64, max_seq: u16) -> Option<Stamp> {
    let now = if now > MAX_TIMESTAMP { MAX_TIMESTAMP } else { now };
    if ts > MAX_TIMESTAMP {
        None
    } else if now > ts {
        Some((now, 0u16))
    } else if seq < max_seq {
        Some((ts, (seq + 1) as u16))
    } else if ts < MAX_TIMESTAMP {
        Some(((ts + 1) as u64, 0u16))
    } else {
        None
    }
}

/// Like `successor_spec`, but never ahead of the clock: `None` also when the
/// millisecond `ts` is used up and the clock has not passed it.
pub open spec fn successor_within_clock(ts: u64, seq: u16, now: u64, max_seq: u16) -> Option<
    Stamp,
> {
    let capped = if now > MAX_TIMESTAMP { MAX_TIMESTAMP } else { now };
    if ts <= MAX_TIMESTAMP && capped <= ts && seq >= max_seq {
        None
    } else {
        successor_spec(ts, seq, now, max_seq)
    }
}

/// The successor rule a generator's update applies: `successor_spec` when it
/// may run ahead of the clock, else `successor_within_clock`.
pub open spec fn update_spec(ts: u64, seq: u16, now: u64, max_seq: u16, run_ahead: bool) -> Option<
    Stamp,
> {
    if run_ahead {
        successor_spec(ts, seq, now, max_seq)
    } else {
        successor_within_clock(ts, seq, now, max_seq)
    }
}

/// The pair a packed state word holds.
pub open spec fn raw_stamp(raw: u64) -> Stamp {
    (raw >> 16u64, (raw & 0xFFFFu64) as u16)
}

/// The identifier a pair stands for, for `node` under a layout with `node_bits`.
pub open spec fn stamp_id(node_bits: u8, node: u64, s: Stamp) -> u64 {
    assemble(node_bits, s.0, node, s.1 as u64)
}

impl State {
    pub const SEQ_BITS: u32 = 16;

    pub const SEQ_MASK: u64 = 0xFFFF;

    pub closed spec fn spec_raw(self) -> u64 {
        self.0
    }

    pub open spec fn stamp(self) -> Stamp {
        raw_stamp(self.spec_raw())
    }

    pub open spec fn spec_timestamp(self) -> u64 {
        self.stamp().0
    }

    pub open spec fn spec_sequence(self) -> u16 {
        self.stamp().1
    }

    /// Packs a timestamp of at most 48 bits with a sequence.
    pub fn new(timestamp: u64, sequence: u16) -> (r: Self)
        requires
            timestamp <= MAX_STATE_TIMESTAMP,
        ensures
            r.spec_timestamp() == timestamp,
            r.spec_sequence() == sequence,
    {
        let raw = (timestamp << 16u64) | (sequence as u64);
        assert((raw >> 16u64) == timestamp && ((raw & 0xFFFFu64) as u16) == sequence) by (bit_vector)
            requires
                timestamp <= 0xFFFF_FFFF_FFFFu64,
                raw == (timestamp << 16u64) | (sequence as u64),
        ;
        State(raw)
    }

    pub fn timestamp(self) -> (r: u64)
        ensures
            r == self.spec_timestamp(),
            r <= MAX_STATE_TIMESTAMP,
    {
        let raw = self.0;
        let r = raw >> 16u64;
        assert(raw >> 16u64 <= 0xFFFF_FFFF_FFFFu64) by (bit_vector);
        r
    }

    pub fn sequence(self) -> (r: u16)
        ensures
            r == self.spec_sequence(),
    {
        (self.0 & Self::SEQ_MASK) as u16
    }

    /// The packed word, as stored in the generator's atomic.
    pub fn raw(self) -> (r: u64)
        ensures
            r == self.spec_raw(),
    {
        self.0
    }

    pub fn from_raw(raw: u64) -> (r: Self)
        ensures
            r.spec_raw() == raw,
            r.stamp() == raw_stamp(raw),
    {
        State(raw)
    }

    /// A state is its word: two states with the same word are equal.
    pub proof fn lemma_raw_determines(a: State, b: State)
        requires
            a.spec_raw() == b.spec_raw(),
        ensures
            a == b,
    {
    }

    /// A state is its pair: two states with the same timestamp and sequence
    /// are equal, so `from_raw(s.raw()) == s` and packing a state's own
    /// fields gives it back.
    pub proof fn lemma_stamp_determines(a: State, b: State)
        requires
            a.stamp() == b.stamp(),
        ensures
            a == b,
    {
        let x = a.0;
        let y = b.0;
        assert(x == y) by (bit_vector)
            requires
                x >> 16u64 == y >> 16u64,
                (x & 0xFFFFu64) as u16 == (y & 0xFFFFu64) as u16,
        ;
    }

    /// The state to publish after this one with the clock at `now`, if any;
    /// see `successor_spec`.
    pub fn successor(self, now: u64, max_seq: u16) -> (r: Option<State>)
        ensures
            r matches Some(n) ==> successor_spec(self.stamp().0, self.stamp().1, now, max_seq) == Some(
                n.stamp(),
            ),
            r is None ==> successor_spec(self.stamp().0, self.stamp().1, now, max_seq) is None,
    {
        let ts = self.timestamp();
        let seq = self.sequence();
        let now = if now > MAX_TIMESTAMP {
            MAX_TIMESTAMP
        } else {
            now
        };
        if ts > MAX_TIMESTAMP {
            None
        } else if now > ts {
            Some(State::new(now, 0))
        } else if seq < max_seq {
            Some(State::new(ts, seq + 1))
        } else if ts < MAX_TIMESTAMP {
            Some(State::new(ts + 1, 0))
        } else {
            None
        }
    }
}

/// The generator's update on packed words: `State::successor`, or, unless
/// `run_ahead`, `None` for a used-up millisecond the clock has not passed.
pub fn successor_raw(raw: u64, now: u64, max_seq: u16, run_ahead: bool) -> (r: Option<u64>)
    ensures
        r matches Some(n) ==> update_spec(raw_stamp(raw).0, raw_stamp(raw).1, now, max_seq, run_ahead)
            == Some(raw_stamp(n)),
        r is None ==> update_spec(raw_stamp(raw).0, raw_stamp(raw).1, now, max_seq, run_ahead) is None,
{
    let current = State::from_raw(raw);
    let capped = if now > MAX_TIMESTAMP {
        MAX_TIMESTAMP
    } else {
        now
    };
    let ts = current.timestamp();
    if !run_ahead && ts <= MAX_TIMESTAMP && capped <= ts && current.sequence() >= max_seq {
        return None;
    }
    match current.successor(now, max_seq) {
        Some(n) => Some(n.raw()),
        None => None,
    }
}

/// Whether `h` is a history of published pairs: each one after the first is
/// the successor of the one before it, at the clock reading `clock[i]`.
/// A generator's atomic word passes through such a history, since every
/// update replaces the value it read by that value's successor.
pub open spec fn is_history(h: Seq<Stamp>, clock: Seq<u64>, max_seq: u16) -> bool {
    &&& h.len() == clock.len() + 1
    &&& forall|i: int|
        0 <= i < clock.len() ==> #[trigger] successor_spec(h[i].0, h[i].1, clock[i], max_seq) == Some(
            h[i + 1],
        )
}

/// Each successor lies strictly after the pair it replaces and fits the layout;
/// its timestamp is at least the clock reading (up to the largest timestamp).
pub proof fn lemma_successor_advances(ts: u64, seq: u16, now: u64, max_seq: u16)
    ensures
        successor_spec(ts, seq, now, max_seq) matches Some(n) ==> {
            &&& stamp_lt((ts, seq), n)
            &&& stamp_valid(n, max_seq)
            &&& n.0 >= ts
            &&& (now <= MAX_TIMESTAMP ==> n.0 >= now)
        },
        successor_spec(ts, seq, now, max_seq) is None ==> ts > MAX_TIMESTAMP || (ts == MAX_TIMESTAMP
            && seq >= max_seq),
{
}

/// However far the clock reading falls below the last published timestamp,
/// the next published timestamp is not below it.
pub proof fn lemma_clock_regression(ts: u64, seq: u16, now: u64, max_seq: u16)
    requires
        now < ts,
        ts <= MAX_TIMESTAMP,
    ensures
        successor_spec(ts, seq, now, max_seq) matches Some(n) ==> n.0 >= ts,
        seq < max_seq ==> successor_spec(ts, seq, now, max_seq) == Some((ts, (seq + 1) as u16)),
{
}

/// Pairs along a history strictly increase.
pub proof fn lemma_history_increases(h: Seq<Stamp>, clock: Seq<u64>, max_seq: u16, j: int)
    requires
        is_history(h, clock, max_seq),
        0 <= j < h.len(),
    ensures
        forall|i: int| 0 <= i < j ==> #[trigger] stamp_lt(h[i], h[j]),
        j > 0 ==> stamp_valid(h[j], max_seq),
    decreases j,
{
    if j > 0 {
        lemma_history_increases(h, clock, max_seq, j - 1);
        assert(successor_spec(h[j - 1].0, h[j - 1].1, clock[j - 1], max_seq) == Some(h[j]));
        lemma_successor_advances(h[j - 1].0, h[j - 1].1, clock[j - 1], max_seq);
        assert forall|i: int| 0 <= i < j implies #[trigger] stamp_lt(h[i], h[j]) by {
            if i < j - 1 {
                assert(stamp_lt(h[i], h[j - 1]));
            }
        }
    }
}

/// Along any history of a generator's state, whatever the clock readings and
/// however the concurrent updates interleave, the identifiers handed out
/// (one for each published pair) strictly increase, so no two are equal.
pub proof fn lemma_history_ids_increase(
    node_bits: u8,
    node: u64,
    h: Seq<Stamp>,
    clock: Seq<u64>,
    max_seq: u16,
)
    requires
        valid_node_bits(node_bits),
        node <= mask_of(node_bits as u64),
        max_seq as u64 == mask_of(sequence_bits_of(node_bits)),
        is_history(h, clock, max_seq),
    ensures
        forall|i: int, j: int|
            1 <= i < j < h.len() ==> #[trigger] stamp_id(node_bits, node, h[i]) < #[trigger] stamp_id(
                node_bits,
                node,
                h[j],
            ),
        forall|i: int, j: int|
            1 <= i < h.len() && 1 <= j < h.len() && i != j ==> stamp_id(node_bits, node, h[i])
                != stamp_id(node_bits, node, h[j]),
{
    assert forall|i: int, j: int| 1 <= i < j < h.len() implies #[trigger] stamp_id(
        node_bits,
        node,
        h[i],
    ) < #[trigger] stamp_id(node_bits, node, h[j]) by {
        lemma_history_increases(h, clock, max_seq, i);
        lemma_history_increases(h, clock, max_seq, j);
        assert(stamp_lt(h[i], h[j]));
        lemma_assemble_order(node_bits, node, h[i].0, h[i].1 as u64, h[j].0, h[j].1 as u64);
    }
    assert forall|i: int, j: int|
        1 <= i < h.len() && 1 <= j < h.len() && i != j implies stamp_id(node_bits, node, h[i])
        != stamp_id(node_bits, node, h[j]) by {
        if i < j {
            assert(stamp_id(node_bits, node, h[i]) < stamp_id(node_bits, node, h[j]));
        } else {
            assert(stamp_id(node_bits, node, h[j]) < stamp_id(node_bits, node, h[i]));
        }
    }
}

/// `k` successive claims with the clock held at `now`, from `s`.
pub open spec fn claims(s: Stamp, now: u64, max_seq: u16, k: nat) -> Option<Stamp>
    decreases k,
{
    if k == 0 {
        Some(s)
    } else {
        match claims(s, now, max_seq, (k - 1) as nat) {
            Some(p) => successor_spec(p.0, p.1, now, max_seq),
            None => None,
        }
    }
}

/// With the clock held within one millisecond `ts`, `k` claims from `(ts, 0)`
/// reach sequence `k`, for `k` up to `max_seq`.
pub proof fn lemma_claims_count(ts: u64, now: u64, max_seq: u16, k: nat)
    requires
        ts <= MAX_TIMESTAMP,
        now <= ts,
        k <= max_seq,
    ensures
        claims((ts, 0u16), now, max_seq, k) == Some((ts, k as u16)),
    decreases k,
{
    if k > 0 {
        lemma_claims_count(ts, now, max_seq, (k - 1) as nat);
    }
}

/// With the clock held within one millisecond `ts`, the claims from `(ts, 0)`
/// use up the sequence; the claim after the last one moves to a later
/// timestamp and starts the sequence again at 0.
pub proof fn lemma_exhaustion_boundary(ts: u64, now: u64, max_seq: u16)
    requires
        ts < MAX_TIMESTAMP,
        now <= ts,
    ensures
        claims((ts, 0u16), now, max_seq, max_seq as nat) == Some((ts, max_seq)),
        claims((ts, 0u16), now, max_seq, (max_seq + 1) as nat) == Some(((ts + 1) as u64, 0u16)),
{
    lemma_claims_count(ts, now, max_seq, max_seq as nat);
}

} // verus!
