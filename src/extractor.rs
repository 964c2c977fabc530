use vstd::prelude::*;

use crate::config::{mask_of, valid_node_bits, SnowIDConfig, MAX_TIMESTAMP, NODE_AND_SEQUENCE_BITS};

verus! {

/// Width of the sequence field when the node field is `node_bits` wide.
pub open spec fn sequence_bits_of(node_bits: u8) -> u64 {
    (NODE_AND_SEQUENCE_BITS - node_bits) as u64
}

/// The identifier with the given fields: the timestamp above bit 22, the node
/// above the sequence, the sequence in the low bits.
pub open spec fn assemble(node_bits: u8, timestamp: u64, node: u64, sequence: u64) -> u64 {
    ((timestamp & MAX_TIMESTAMP) << 22u64) | (node << sequence_bits_of(node_bits)) | sequence
}

/// The timestamp field of an identifier.
pub open spec fn timestamp_field(id: u64) -> u64 {
    (id >> 22u64) & MAX_TIMESTAMP
}

/// The node field of an identifier.
pub open spec fn node_field(node_bits: u8, id: u64) -> u64 {
    (id >> sequence_bits_of(node_bits)) & mask_of(node_bits as u64)
}

/// The sequence field of an identifier.
pub open spec fn sequence_field(node_bits: u8, id: u64) -> u64 {
    id & mask_of(sequence_bits_of(node_bits))
}

/// Whether the three fields fit the widths of the layout.
pub open spec fn fits_layout(node_bits: u8, timestamp: u64, node: u64, sequence: u64) -> bool {
    &&& valid_node_bits(node_bits)
    &&& timestamp <= MAX_TIMESTAMP
    &&& node <= mask_of(node_bits as u64)
    &&& sequence <= mask_of(sequence_bits_of(node_bits))
}

/// Reads the fields of an identifier back out under one layout.
#[derive(Debug, Clone, Copy)]
pub struct SnowIDExtractor {
    config: SnowIDConfig,
}

impl SnowIDExtractor {
    pub closed spec fn spec_config(self) -> SnowIDConfig {
        self.config
    }

    pub open spec fn spec_node_bits(self) -> u8 {
        self.spec_config().spec_node_bits()
    }

    pub fn new(config: SnowIDConfig) -> (r: Self)
        ensures
            r.spec_config() == config,
    {
        Self { config }
    }

    /// The timestamp field of `id`.
    pub fn timestamp(&self, id: u64) -> (r: u64)
        ensures
            r == timestamp_field(id),
    {
        let shift = self.config.timestamp_shift();
        (id >> (shift as u64)) & self.config.timestamp_mask()
    }

    /// The node field of `id`.
    pub fn node(&self, id: u64) -> (r: u16)
        ensures
            r as u64 == node_field(self.spec_node_bits(), id),
    {
        let shift = self.config.node_shift();
        let mask = self.config.node_mask();
        // The width's range, which this read brings into the proof, bounds the shifts.
        let _node_bits = self.config.node_bits();
        let v = (id >> (shift as u64)) & (mask as u64);
        assert(v <= mask as u64) by (bit_vector)
            requires
                v == (id >> (shift as u64)) & (mask as u64),
        ;
        v as u16
    }

    /// The sequence field of `id`.
    pub fn sequence(&self, id: u64) -> (r: u16)
        ensures
            r as u64 == sequence_field(self.spec_node_bits(), id),
    {
        let mask = self.config.sequence_mask();
        // The width's range, which this read brings into the proof, bounds the shifts.
        let _node_bits = self.config.node_bits();
        let v = id & (mask as u64);
        assert(v <= mask as u64) by (bit_vector)
            requires
                v == id & (mask as u64),
        ;
        v as u16
    }

    /// All three fields of `id`: timestamp, node, sequence.
    pub fn decompose(&self, id: u64) -> (r: (u64, u16, u16))
        ensures
            r.0 == timestamp_field(id),
            r.1 as u64 == node_field(self.spec_node_bits(), id),
            r.2 as u64 == sequence_field(self.spec_node_bits(), id),
    {
        (self.timestamp(id), self.node(id), self.sequence(id))
    }
}

/// Taking an identifier apart gives back the fields it was assembled from,
/// for every timestamp, node and sequence that fit the layout.
pub proof fn lemma_decompose_assemble(node_bits: u8, timestamp: u64, node: u64, sequence: u64)
    requires
        fits_layout(node_bits, timestamp, node, sequence),
    ensures
        timestamp_field(assemble(node_bits, timestamp, node, sequence)) == timestamp,
        node_field(node_bits, assemble(node_bits, timestamp, node, sequence)) == node,
        sequence_field(node_bits, assemble(node_bits, timestamp, node, sequence)) == sequence,
{
    let sb = sequence_bits_of(node_bits);
    let nb = node_bits as u64;
    let id = assemble(node_bits, timestamp, node, sequence);
    assert(id == ((timestamp & 0x3FF_FFFF_FFFFu64) << 22u64) | (node << sb) | sequence);
    assert(
        ((id >> 22u64) & 0x3FF_FFFF_FFFFu64) == timestamp
        && ((id >> sb) & ((1u64 << nb) - 1) as u64) == node
        && (id & ((1u64 << sb) - 1) as u64) == sequence
    ) by (bit_vector)
        requires
            6u64 <= nb <= 16u64,
            sb == 22u64 - nb,
            timestamp <= 0x3FF_FFFF_FFFFu64,
            node <= ((1u64 << nb) - 1) as u64,
            sequence <= ((1u64 << sb) - 1) as u64,
            id == ((timestamp & 0x3FF_FFFF_FFFFu64) << 22u64) | (node << sb) | sequence,
    ;
}

/// For one node, identifiers order as their (timestamp, sequence) pairs do.
pub proof fn lemma_assemble_order(
    node_bits: u8,
    node: u64,
    ts1: u64,
    seq1: u64,
    ts2: u64,
    seq2: u64,
)
    requires
        fits_layout(node_bits, ts1, node, seq1),
        fits_layout(node_bits, ts2, node, seq2),
        ts1 < ts2 || (ts1 == ts2 && seq1 < seq2),
    ensures
        assemble(node_bits, ts1, node, seq1) < assemble(node_bits, ts2, node, seq2),
{
    let sb = sequence_bits_of(node_bits);
    let nb = node_bits as u64;
    let a = assemble(node_bits, ts1, node, seq1);
    let b = assemble(node_bits, ts2, node, seq2);
    assert(a == ((ts1 & 0x3FF_FFFF_FFFFu64) << 22u64) | (node << sb) | seq1);
    assert(b == ((ts2 & 0x3FF_FFFF_FFFFu64) << 22u64) | (node << sb) | seq2);
    assert(a < b) by (bit_vector)
        requires
            6u64 <= nb <= 16u64,
            sb == 22u64 - nb,
            ts1 <= 0x3FF_FFFF_FFFFu64,
            ts2 <= 0x3FF_FFFF_FFFFu64,
            node <= ((1u64 << nb) - 1) as u64,
            seq1 <= ((1u64 << sb) - 1) as u64,
            seq2 <= ((1u64 << sb) - 1) as u64,
            ts1 < ts2 || (ts1 == ts2 && seq1 < seq2),
            a == ((ts1 & 0x3FF_FFFF_FFFFu64) << 22u64) | (node << sb) | seq1,
            b == ((ts2 & 0x3FF_FFFF_FFFFu64) << 22u64) | (node << sb) | seq2,
    ;
}

/// Identifiers of two different nodes never coincide, and each carries its own node.
pub proof fn lemma_node_isolation(
    node_bits: u8,
    node1: u64,
    ts1: u64,
    seq1: u64,
    node2: u64,
    ts2: u64,
    seq2: u64,
)
    requires
        fits_layout(node_bits, ts1, node1, seq1),
        fits_layout(node_bits, ts2, node2, seq2),
        node1 != node2,
    ensures
        node_field(node_bits, assemble(node_bits, ts1, node1, seq1)) == node1,
        node_field(node_bits, assemble(node_bits, ts2, node2, seq2)) == node2,
        assemble(node_bits, ts1, node1, seq1) != assemble(node_bits, ts2, node2, seq2),
{
    lemma_decompose_assemble(node_bits, ts1, node1, seq1);
    lemma_decompose_assemble(node_bits, ts2, node2, seq2);
}

} // verus!
