use vstd::prelude::*;
use vstd::string::StringSliceAdditionalSpecFns;

use std::sync::atomic::{AtomicU64, Ordering};

use crate::base62::{
    decode, decode_spec, encode, encode_array, encode_spec, lemma_encode_ascii, DecodeError, MAX_LEN,
};
use crate::config::{
    valid_node_bits, SnowIDConfig, DEFAULT_CUSTOM_EPOCH, DEFAULT_NODE_BITS, MAX_TIMESTAMP,
};
use crate::error::SnowIDError;
use crate::extractor::{
    lemma_decompose_assemble, node_field, sequence_bits_of, sequence_field, timestamp_field,
    SnowIDExtractor,
};
use crate::state::{
    is_history, lemma_history_ids_increase, update_spec, lemma_successor_advances, raw_stamp, stamp_id,
    successor_raw, successor_spec, State,
};
use crate::text::{ascii_chars, ascii_prefix_str};
use crate::time::{cap_timestamp, time_since_epoch};
use crate::wait::spin_wait;

verus! {

/// Readings of the clock, past the spinning phase, before a wait for the next
/// millisecond gives up on the clock and moves the timestamp on by itself.
pub const CLOCK_POLL_LIMIT: u64 = 0x1_0000_0000;

/// Rounds of the slow path that wait for the clock when another thread used
/// up the millisecond first; the last round may run ahead of the clock.
pub const SLOW_PATH_ROUNDS: u32 = 64;

/// Relies on AtomicU64::fetch_update: it reads the word, computes the update
/// with `successor_raw` and stores it with compare_exchange_weak, starting
/// over whenever the word changed in between; it returns Ok with the value it
/// replaced, or Err with the value read when `successor_raw` gave None.
#[verifier::external_body]
fn publish_successor(cell: &AtomicU64, now: u64, max_seq: u16, run_ahead: bool) -> (r: Result<
    u64,
    u64,
>)
    ensures
        r matches Ok(prev) ==> update_spec(raw_stamp(prev).0, raw_stamp(prev).1, now, max_seq, run_ahead)
            is Some,
        r matches Err(prev) ==> update_spec(raw_stamp(prev).0, raw_stamp(prev).1, now, max_seq, run_ahead)
            is None,
{
    cell.fetch_update(
        Ordering::AcqRel,
        Ordering::Acquire,
        |raw| successor_raw(raw, now, max_seq, run_ahead),
    )
}

/// An identifier generator for one node: lock-free, shared between threads.
#[derive(Debug)]
pub struct SnowID {
    /// The last published (timestamp, sequence) pair, packed as a `State`.
    state: AtomicU64,
    /// `node_id` shifted into the node field.
    node_prefix: u64,
    /// The largest sequence number of the layout.
    max_seq: u16,
    pub node_id: u16,
    pub config: SnowIDConfig,
    pub extract: SnowIDExtractor,
}

impl SnowID {
    pub const TIMESTAMP_BITS: u32 = 42;

    pub const TOTAL_NODE_AND_SEQUENCE_BITS: u8 = 22;

    /// The layout's node width, and the cached values agree with `node_id` and `config`.
    pub closed spec fn wf(self) -> bool {
        let nb = self.config.spec_node_bits();
        &&& valid_node_bits(nb)
        &&& self.node_id as u64 <= self.config.spec_max_node_id()
        &&& self.node_prefix == (self.node_id as u64) << sequence_bits_of(nb)
        &&& self.max_seq as u64 == self.config.spec_max_sequence_id()
        &&& self.extract.spec_config() == self.config
    }

    pub closed spec fn spec_node_id(self) -> u16 {
        self.node_id
    }

    pub closed spec fn spec_config(self) -> SnowIDConfig {
        self.config
    }

    pub open spec fn spec_node_bits(self) -> u8 {
        self.spec_config().spec_node_bits()
    }

    /// The identifier of this generator for a (timestamp, sequence) pair.
    pub open spec fn id_of(self, s: (u64, u16)) -> u64 {
        stamp_id(self.spec_node_bits(), self.spec_node_id() as u64, s)
    }

    /// The pair published after `prev` with the clock at `now`, in this layout.
    pub open spec fn next_of(self, prev: (u64, u16), now: u64) -> Option<(u64, u16)> {
        successor_spec(prev.0, prev.1, now, self.spec_config().spec_max_sequence_id() as u16)
    }

    /// The fields of `id` fit the layout and its node field is this generator's node.
    pub open spec fn fields_fit(self, id: u64) -> bool {
        &&& timestamp_field(id) <= MAX_TIMESTAMP
        &&& node_field(self.spec_node_bits(), id) == self.spec_node_id()
        &&& sequence_field(self.spec_node_bits(), id) <= self.spec_config().spec_max_sequence_id()
    }

    /// What every identifier that `generate` returns satisfies: it is this
    /// node's identifier for the successor of some pair, at some clock reading
    /// not past the largest timestamp, or the identifier of the range's last
    /// pair. Which pair the state held is not visible here, so this holds of
    /// every in-range identifier of this node but the one for (0, 0); what is
    /// issued after a given pair and clock reading is `issue_after`, and the
    /// order of identifiers along the state's history is
    /// `lemma_ids_along_history`.
    pub open spec fn issued(self, id: u64) -> bool {
        let max_seq = self.spec_config().spec_max_sequence_id() as u16;
        exists|prev: (u64, u16), now: u64|
            now <= MAX_TIMESTAMP && {
                ||| self.next_of(prev, now) matches Some(n) && id == self.id_of(n)
                ||| self.next_of(prev, now) is None && id == self.id_of((MAX_TIMESTAMP, max_seq))
            }
    }

    /// A generator for `node_id` with the default layout.
    pub fn new(node_id: u16) -> (r: Result<Self, SnowIDError>)
        ensures
            r matches Ok(g) ==> g.wf() && g.spec_node_id() == node_id && g.spec_node_bits()
                == DEFAULT_NODE_BITS && g.spec_config().spec_epoch() == DEFAULT_CUSTOM_EPOCH,
            r is Ok <==> node_id <= 1023,
            r matches Err(e) ==> e == (SnowIDError::InvalidNodeId { node_id, max: 1023 }),
    {
        assert(((1u64 << 10u64) - 1) as u64 == 1023u64) by (bit_vector);
        Self::with_config(node_id, SnowIDConfig::default())
    }

    /// A generator for `node_id` with the layout `config`; fails when
    /// `node_id` exceeds the layout's largest node id.
    pub fn with_config(node_id: u16, config: SnowIDConfig) -> (r: Result<Self, SnowIDError>)
        ensures
            r is Ok <==> node_id as u64 <= config.spec_max_node_id(),
            r matches Ok(g) ==> g.wf() && g.spec_node_id() == node_id && g.spec_config() == config,
            r matches Err(e) ==> e == (SnowIDError::InvalidNodeId {
                node_id,
                max: config.spec_max_node_id() as u16,
            }),
    {
        let max_node_id = config.max_node_id();
        if node_id > max_node_id {
            return Err(SnowIDError::InvalidNodeId { node_id, max: max_node_id });
        }
        let shift = config.node_shift();
        // The width's range, which this read brings into the proof, bounds the shifts.
        let _node_bits = config.node_bits();
        Ok(Self {
            state: AtomicU64::new(0),
            node_prefix: (node_id as u64) << (shift as u64),
            max_seq: config.max_sequence_id(),
            node_id,
            config,
            extract: SnowIDExtractor::new(config),
        })
    }

    /// The clock in milliseconds since the custom epoch, capped at the largest timestamp.
    pub fn get_time_since_epoch(&self) -> (r: u64)
        ensures
            r <= MAX_TIMESTAMP,
    {
        cap_timestamp(time_since_epoch(self.config.epoch()))
    }

    /// The identifier for a timestamp and sequence of this generator's node.
    fn create_snowid_fast(&self, timestamp: u64, sequence: u16) -> (r: u64)
        requires
            self.wf(),
            timestamp <= MAX_TIMESTAMP,
            sequence as u64 <= self.config.spec_max_sequence_id(),
        ensures
            r == self.id_of((timestamp, sequence)),
            timestamp_field(r) == timestamp,
            node_field(self.spec_node_bits(), r) == self.node_id,
            sequence_field(self.spec_node_bits(), r) == sequence,
    {
        let mask = self.config.timestamp_mask();
        let shift = self.config.timestamp_shift();
        let nb = self.config.node_bits();
        proof {
            lemma_decompose_assemble(nb, timestamp, self.node_id as u64, sequence as u64);
        }
        ((timestamp & mask) << (shift as u64)) | self.node_prefix | (sequence as u64)
    }

    /// Replaces `expected` by `new` in the state word, if it still holds `expected`.
    fn cas_state(&self, expected: State, new: State) -> bool {
        let raw = self.state.compare_exchange_weak(
            expected.raw(),
            new.raw(),
            Ordering::AcqRel,
            Ordering::Acquire,
        );
        raw.is_ok()
    }

    /// One attempt to claim millisecond `new_ts`, which the clock reached
    /// after the observed `current`, with sequence 0.
    fn try_claim_millisecond(&self, current: State, new_ts: u64) -> (r: Option<u64>)
        requires
            self.wf(),
            new_ts <= MAX_TIMESTAMP,
            new_ts > current.spec_timestamp(),
        ensures
            r matches Some(id) ==> self.issued(id) && id == self.id_of((new_ts, 0u16)),
    {
        let new_state = State::new(new_ts, 0);
        if self.cas_state(current, new_state) {
            let id = self.create_snowid_fast(new_ts, 0);
            proof {
                assert(self.next_of(current.stamp(), new_ts) == Some((new_ts, 0u16)));
                assert(self.issued(id));
            }
            Some(id)
        } else {
            None
        }
    }

    /// One attempt to take the next sequence number of the observed
    /// millisecond, when the clock has not passed it and the sequence has room.
    fn try_increment_sequence(&self, current: State, now: u64) -> (r: Option<u64>)
        requires
            self.wf(),
            now <= current.spec_timestamp(),
        ensures
            r matches Some(id) ==> self.issued(id) && id == self.id_of(
                (current.spec_timestamp(), (current.spec_sequence() + 1) as u16),
            ),
            current.spec_sequence() >= self.spec_config().spec_max_sequence_id()
                || current.spec_timestamp() > MAX_TIMESTAMP ==> r is None,
    {
        let ts = current.timestamp();
        let seq = current.sequence();
        if ts > MAX_TIMESTAMP || seq >= self.max_seq {
            return None;
        }
        let new_state = State::new(ts, seq + 1);
        if self.cas_state(current, new_state) {
            let id = self.create_snowid_fast(ts, seq + 1);
            proof {
                assert(self.next_of((ts, seq), now) == Some((ts, (seq + 1) as u16)));
                assert(self.issued(id));
            }
            Some(id)
        } else {
            None
        }
    }

    /// Waits for the clock to pass `from_timestamp`: spins as the layout's
    /// tuning says, then keeps reading the clock up to `CLOCK_POLL_LIMIT`
    /// times. Returns the first reading past `from_timestamp`, or
    /// `from_timestamp + 1` when the clock never got there.
    pub fn wait_next_millis(&self, from_timestamp: u64) -> (r: u64)
        requires
            from_timestamp < MAX_TIMESTAMP,
        ensures
            from_timestamp < r <= MAX_TIMESTAMP,
    {
        let clock = || -> (t: u64)
            ensures
                t <= MAX_TIMESTAMP,
            { self.get_time_since_epoch() };
        if let Some(t) = spin_wait(from_timestamp, &self.config, clock) {
            return t;
        }
        let mut polls: u64 = 0;
        while polls < CLOCK_POLL_LIMIT
            invariant
                from_timestamp < MAX_TIMESTAMP,
            decreases CLOCK_POLL_LIMIT - polls,
        {
            let t = self.get_time_since_epoch();
            if t > from_timestamp {
                return t;
            }
            core::hint::spin_loop();
            polls = polls + 1;
        }
        from_timestamp + 1
    }

    /// Generates the next identifier.
    ///
    /// The fast path makes one attempt at the common transitions: claim the
    /// clock's new millisecond, or take the next sequence number. Anything
    /// else goes to the slow path.
    pub fn generate(&self) -> (r: u64)
        requires
            self.wf(),
        ensures
            self.issued(r),
            timestamp_field(r) <= MAX_TIMESTAMP,
            node_field(self.spec_node_bits(), r) == self.spec_node_id(),
            sequence_field(self.spec_node_bits(), r) <= self.spec_config().spec_max_sequence_id(),
    {
        let now = self.get_time_since_epoch();
        let current = State::from_raw(self.state.load(Ordering::Acquire));
        if now > current.timestamp() {
            if let Some(id) = self.try_claim_millisecond(current, now) {
                proof { self.lemma_issued_fields(id); }
                return id;
            }
        } else if let Some(id) = self.try_increment_sequence(current, now) {
            proof { self.lemma_issued_fields(id); }
            return id;
        }
        self.generate_slow_path()
    }

    /// The contended and exhausted cases, in rounds. Each round reads the
    /// clock and the state; when the observed millisecond has no sequence
    /// numbers left, it waits for the clock to pass it; then it publishes the
    /// successor of whatever the state holds by then. A round that finds the
    /// millisecond used up again before the clock passed it (other threads
    /// got there first) starts over. Only the last of `SLOW_PATH_ROUNDS`
    /// rounds takes sequence 0 of the next millisecond instead, ahead of the
    /// clock, so that the call ends.
    fn generate_slow_path(&self) -> (r: u64)
        requires
            self.wf(),
        ensures
            self.issued(r),
            timestamp_field(r) <= MAX_TIMESTAMP,
            node_field(self.spec_node_bits(), r) == self.spec_node_id(),
            sequence_field(self.spec_node_bits(), r) <= self.spec_config().spec_max_sequence_id(),
    {
        let max_seq = self.max_seq;
        let mut round: u32 = 1;
        loop
            invariant
                self.wf(),
                max_seq == self.max_seq,
                1 <= round <= SLOW_PATH_ROUNDS,
            decreases SLOW_PATH_ROUNDS - round,
        {
            let run_ahead = round == SLOW_PATH_ROUNDS;
            let mut now = self.get_time_since_epoch();
            let current = State::from_raw(self.state.load(Ordering::Acquire));
            let ts = current.timestamp();
            if now <= ts && ts < MAX_TIMESTAMP && current.sequence() >= max_seq {
                now = self.wait_next_millis(ts);
            }
            match publish_successor(&self.state, now, max_seq, run_ahead) {
                Ok(prev) => {
                    let id = match self.issue_after(prev, now) {
                        Some(id) => id,
                        None => self.last_snowid(prev, now),
                    };
                    proof { self.lemma_issued_fields(id); }
                    return id;
                },
                Err(prev) => {
                    if run_ahead || successor_raw(prev, now, max_seq, true).is_none() {
                        let id = self.last_snowid(prev, now);
                        proof { self.lemma_issued_fields(id); }
                        return id;
                    }
                },
            }
            round = round + 1;
        }
    }

    /// The identifier issued when the state word held `prev` and the clock
    /// read `now`: that of the successor of `prev`, if it has one.
    pub fn issue_after(&self, prev: u64, now: u64) -> (r: Option<u64>)
        requires
            self.wf(),
            now <= MAX_TIMESTAMP,
        ensures
            r matches Some(id) ==> self.issued(id),
            self.next_of(raw_stamp(prev), now) matches Some(n)
                ==> r == Some(self.id_of(n)),
            self.next_of(raw_stamp(prev), now) is None
                ==> r is None,
    {
        let max_seq = self.max_seq;
        match successor_raw(prev, now, max_seq, true) {
            Some(next) => {
                let s = State::from_raw(next);
                proof {
                    lemma_successor_advances(raw_stamp(prev).0, raw_stamp(prev).1, now, max_seq);
                }
                let id = self.create_snowid_fast(s.timestamp(), s.sequence());
                proof {
                    assert(self.issued(id)) by {
                        assert(self.next_of(raw_stamp(prev), now) == Some(s.stamp()));
                    }
                }
                Some(id)
            },
            None => None,
        }
    }

    /// The identifier of the last pair of the range, handed out when the
    /// state `prev` has no successor.
    fn last_snowid(&self, prev: u64, now: u64) -> (r: u64)
        requires
            self.wf(),
            now <= MAX_TIMESTAMP,
            self.next_of(raw_stamp(prev), now) is None,
        ensures
            self.issued(r),
    {
        let id = self.create_snowid_fast(MAX_TIMESTAMP, self.max_seq);
        proof {
            assert(self.issued(id)) by {
                let p = raw_stamp(prev);
                assert(successor_spec(p.0, p.1, now, self.max_seq) is None);
            }
        }
        id
    }

    /// Uniqueness and order of a generator's identifiers: along any history of
    /// its state word (each published pair the successor of the pair it
    /// replaced, whatever the clock read and however threads interleave), the
    /// identifiers issued for later pairs are strictly greater, so an
    /// identifier issued before another call begins is below that call's, and
    /// no two issued identifiers are equal.
    pub proof fn lemma_ids_along_history(self, h: Seq<(u64, u16)>, clock: Seq<u64>)
        requires
            self.wf(),
            is_history(h, clock, self.spec_config().spec_max_sequence_id() as u16),
        ensures
            forall|i: int, j: int|
                1 <= i < j < h.len() ==> #[trigger] self.id_of(h[i]) < #[trigger] self.id_of(h[j]),
            forall|i: int, j: int|
                1 <= i < h.len() && 1 <= j < h.len() && i != j ==> self.id_of(h[i]) != self.id_of(h[j]),
    {
        let nb = self.spec_node_bits();
        lemma_history_ids_increase(nb, self.node_id as u64, h, clock, self.max_seq);
    }

    /// The fields of an issued identifier fit the layout and carry this node.
    pub proof fn lemma_issued_fields(self, id: u64)
        requires
            self.wf(),
            self.issued(id),
        ensures
            timestamp_field(id) <= MAX_TIMESTAMP,
            node_field(self.spec_node_bits(), id) == self.spec_node_id(),
            sequence_field(self.spec_node_bits(), id) <= self.spec_config().spec_max_sequence_id(),
    {
        let max_seq = self.config.spec_max_sequence_id() as u16;
        let (prev, now) = choose|prev: (u64, u16), now: u64|
            now <= MAX_TIMESTAMP && {
                ||| self.next_of(prev, now) matches Some(n) && id == self.id_of(n)
                ||| self.next_of(prev, now) is None && id == self.id_of((MAX_TIMESTAMP, max_seq))
            };
        lemma_successor_advances(prev.0, prev.1, now, max_seq);
        let n = match successor_spec(prev.0, prev.1, now, max_seq) {
            Some(n) => n,
            None => (MAX_TIMESTAMP, max_seq),
        };
        lemma_decompose_assemble(self.spec_node_bits(), n.0, self.node_id as u64, n.1 as u64);
    }

    /// The node id in every identifier of this generator.
    pub fn node_id(&self) -> (r: u16)
        ensures
            r == self.spec_node_id(),
    {
        self.node_id
    }

    /// The layout of this generator's identifiers.
    pub fn config(&self) -> (r: SnowIDConfig)
        ensures
            r == self.spec_config(),
    {
        self.config
    }

    /// The extractor for this generator's layout.
    pub fn extract(&self) -> (r: SnowIDExtractor)
        requires
            self.wf(),
        ensures
            r.spec_config() == self.spec_config(),
    {
        self.extract
    }

    /// The pair the state word holds: the last published timestamp and sequence.
    pub fn last_state(&self) -> State {
        State::from_raw(self.state.load(Ordering::Acquire))
    }

    /// The last published timestamp.
    pub fn last_timestamp(&self) -> u64 {
        self.last_state().timestamp()
    }

    /// The largest sequence number of this generator's layout.
    pub fn max_sequence(&self) -> (r: u16)
        requires
            self.wf(),
        ensures
            r as u64 == self.spec_config().spec_max_sequence_id(),
    {
        self.max_seq
    }

    /// Generates an identifier and returns its base-62 text.
    pub fn generate_base62(&self) -> (r: String)
        requires
            self.wf(),
        ensures
            exists|id: u64|
                self.issued(id) && self.fields_fit(id) && r@ == encode_spec(id as nat).map_values(
                    |b: u8| b as char,
                ),
    {
        let id = self.generate();
        encode(id)
    }

    /// Generates an identifier and returns its base-62 text with the identifier.
    pub fn generate_base62_with_raw(&self) -> (r: (String, u64))
        requires
            self.wf(),
        ensures
            self.issued(r.1),
            self.fields_fit(r.1),
            r.0@ == encode_spec(r.1 as nat).map_values(|b: u8| b as char),
    {
        let id = self.generate();
        (encode(id), id)
    }

    /// Generates an identifier and returns its base-62 digits in a fixed
    /// buffer, with the number of digits used from the start of it.
    pub fn generate_base62_array(&self) -> (r: ([u8; MAX_LEN], usize))
        requires
            self.wf(),
        ensures
            exists|id: u64|
                self.issued(id) && self.fields_fit(id) && r.0@.subrange(0, r.1 as int) == encode_spec(
                    id as nat,
                ),
    {
        let id = self.generate();
        encode_array(id)
    }

    /// Generates an identifier, writes its base-62 digits to the start of
    /// `buf`, and returns them as text together with the identifier.
    pub fn generate_base62_into<'a>(&self, buf: &'a mut [u8; MAX_LEN]) -> (r: (&'a str, u64))
        requires
            self.wf(),
        ensures
            self.issued(r.1),
            self.fields_fit(r.1),
            r.0@ == encode_spec(r.1 as nat).map_values(|b: u8| b as char),
    {
        let id = self.generate();
        let (digits, len) = encode_array(id);
        *buf = digits;
        let filled: &'a [u8; MAX_LEN] = buf;
        proof {
            lemma_encode_ascii(id as nat);
            assert(filled@ == digits@);
            assert forall|i: int| 0 <= i < len implies #[trigger] filled@[i] < 128 by {
                assert(digits@.subrange(0, len as int)[i] == digits@[i]);
            }
        }
        let text = ascii_prefix_str(filled, len);
        proof {
            assert(ascii_chars(filled@.subrange(0, len as int)) =~= encode_spec(id as nat).map_values(
                |b: u8| b as char,
            ));
        }
        (text, id)
    }

    /// The identifier that base-62 text stands for.
    pub fn decode_base62(&self, encoded: &str) -> (r: Result<u64, DecodeError>)
        ensures
            r == decode_spec(encoded.spec_bytes()),
    {
        decode(encoded)
    }

    /// The timestamp, node and sequence of the identifier that base-62 text stands for.
    pub fn decompose_base62(&self, encoded: &str) -> (r: Result<(u64, u16, u16), DecodeError>)
        requires
            self.wf(),
        ensures
            decode_spec(encoded.spec_bytes()) matches Ok(id) ==> r matches Ok(t) && {
                &&& t.0 == timestamp_field(id)
                &&& t.1 as u64 == node_field(self.spec_node_bits(), id)
                &&& t.2 as u64 == sequence_field(self.spec_node_bits(), id)
            },
            decode_spec(encoded.spec_bytes()) matches Err(e) ==> r matches Err(f) && f == e,
    {
        let id = self.decode_base62(encoded)?;
        Ok(self.extract.decompose(id))
    }
}

} // verus!
