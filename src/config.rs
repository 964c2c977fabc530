use vstd::prelude::*;
use vstd::string::StringExecFns;

use crate::text::{ascii_chars, decimal_spec, decimal_string};

verus! {

/// Bits of an identifier that hold the timestamp.
pub const TIMESTAMP_BITS: u64 = 42;

/// Bits of an identifier shared between the node and sequence fields.
pub const NODE_AND_SEQUENCE_BITS: u8 = 22;

/// The largest timestamp the timestamp field can hold.
pub const MAX_TIMESTAMP: u64 = 0x3FF_FFFF_FFFF;

pub const MIN_NODE_BITS: u8 = 6;

pub const MAX_NODE_BITS: u8 = 16;

pub const DEFAULT_NODE_BITS: u8 = 10;

/// January 1, 2024 UTC, in milliseconds since the Unix epoch.
pub const DEFAULT_CUSTOM_EPOCH: u64 = 1704067200000;

pub const DEFAULT_SPIN_ENABLED: bool = true;

pub const DEFAULT_SPIN_LOOPS: u32 = 64;

pub const DEFAULT_SPIN_YIELD_EVERY: u32 = 16;

/// The value with the low `bits` bits set.
pub open spec fn mask_of(bits: u64) -> u64 {
    ((1u64 << bits) - 1) as u64
}

/// Whether `bits` is an accepted width for the node field.
pub open spec fn valid_node_bits(bits: u8) -> bool {
    MIN_NODE_BITS <= bits <= MAX_NODE_BITS
}

/// Layout of a 64-bit identifier, most significant first:
/// `[timestamp: 42][node: node_bits][sequence: 22 - node_bits]`,
/// together with the custom epoch and the tuning of the wait on exhaustion.
#[derive(Debug, Clone, Copy)]
pub struct SnowIDConfig {
    node_bits: u8,
    custom_epoch: u64,
    timestamp_shift: u8,
    node_shift: u8,
    timestamp_mask: u64,
    node_mask: u16,
    sequence_mask: u16,
    spin_enabled: bool,
    spin_loops: u32,
    spin_yield_every: u32,
}

/// Rejections of the configuration builder.
#[derive(Debug, Clone, Copy, PartialEq, Eq, Structural)]
pub enum SnowIDConfigError {
    /// The node width lies outside `[6, 16]`.
    InvalidNodeBits { bits: u8 },
}

impl SnowIDConfigError {
    /// The text that describes this error.
    pub open spec fn message_spec(self) -> Seq<char> {
        match self {
            SnowIDConfigError::InvalidNodeBits { bits } => "Node bits "@ + ascii_chars(
                decimal_spec(bits as nat),
            ) + " must be between 6 and 16"@,
        }
    }

    /// The text that describes this error.
    pub fn to_string(&self) -> (r: String)
        ensures
            r@ == self.message_spec(),
    {
        match self {
            SnowIDConfigError::InvalidNodeBits { bits } => {
                let mut s = String::from_str("Node bits ");
                let n = decimal_string(*bits as u64);
                s.append(n.as_str());
                s.append(" must be between 6 and 16");
                s
            },
        }
    }
}

impl SnowIDConfig {
    /// The mask for `bits` low bits, for widths of the node and sequence fields.
    pub fn calculate_mask(bits: u8) -> (r: u16)
        requires
            bits <= 16,
        ensures
            r as u64 == mask_of(bits as u64),
    {
        assert(1u32 << bits >= 1) by (bit_vector)
            requires
                bits <= 16,
        ;
        let m: u32 = (1u32 << bits) - 1;
        assert(((1u32 << bits) - 1) as u64 == ((1u64 << (bits as u64)) - 1) as u64
            && ((1u32 << bits) - 1) < 0x10000) by (bit_vector)
            requires
                bits <= 16,
        ;
        m as u16
    }

    #[verifier::type_invariant]
    spec fn well_formed(self) -> bool {
        &&& valid_node_bits(self.node_bits)
        &&& self.timestamp_shift == NODE_AND_SEQUENCE_BITS
        &&& self.node_shift == NODE_AND_SEQUENCE_BITS - self.node_bits
        &&& self.timestamp_mask == MAX_TIMESTAMP
        &&& self.node_mask as u64 == mask_of(self.node_bits as u64)
        &&& self.sequence_mask as u64 == mask_of(self.node_shift as u64)
    }

    pub closed spec fn spec_node_bits(self) -> u8 {
        self.node_bits
    }

    pub closed spec fn spec_epoch(self) -> u64 {
        self.custom_epoch
    }

    pub closed spec fn spec_spin_enabled(self) -> bool {
        self.spin_enabled
    }

    pub closed spec fn spec_spin_loops(self) -> u32 {
        self.spin_loops
    }

    pub closed spec fn spec_spin_yield_every(self) -> u32 {
        self.spin_yield_every
    }

    /// Width of the sequence field.
    pub open spec fn spec_sequence_bits(self) -> u8 {
        (NODE_AND_SEQUENCE_BITS - self.spec_node_bits()) as u8
    }

    /// Largest node id the layout can hold.
    pub open spec fn spec_max_node_id(self) -> u64 {
        mask_of(self.spec_node_bits() as u64)
    }

    /// Largest sequence number the layout can hold.
    pub open spec fn spec_max_sequence_id(self) -> u64 {
        mask_of(self.spec_sequence_bits() as u64)
    }

    /// A layout with the given node width and epoch, and the default wait tuning.
    fn new(node_bits: u8, custom_epoch: u64) -> (r: Self)
        requires
            valid_node_bits(node_bits),
        ensures
            r.spec_node_bits() == node_bits,
            r.spec_epoch() == custom_epoch,
            r.spec_spin_enabled() == DEFAULT_SPIN_ENABLED,
            r.spec_spin_loops() == DEFAULT_SPIN_LOOPS,
            r.spec_spin_yield_every() == DEFAULT_SPIN_YIELD_EVERY,
    {
        let sequence_bits = NODE_AND_SEQUENCE_BITS - node_bits;
        Self {
            node_bits,
            custom_epoch,
            timestamp_shift: NODE_AND_SEQUENCE_BITS,
            node_shift: sequence_bits,
            timestamp_mask: MAX_TIMESTAMP,
            node_mask: Self::calculate_mask(node_bits),
            sequence_mask: Self::calculate_mask(sequence_bits),
            spin_enabled: DEFAULT_SPIN_ENABLED,
            spin_loops: DEFAULT_SPIN_LOOPS,
            spin_yield_every: DEFAULT_SPIN_YIELD_EVERY,
        }
    }

    /// The layout that a builder describes.
    pub fn from_builder(b: SnowIDConfigBuilder) -> (r: Self)
        ensures
            r.spec_node_bits() == b@.node_bits,
            r.spec_epoch() == b@.custom_epoch,
            r.spec_spin_enabled() == b@.spin_enabled,
            r.spec_spin_loops() == b@.spin_loops,
            r.spec_spin_yield_every() == b@.spin_yield_every,
    {
        proof {
            use_type_invariant(&b);
        }
        let cfg = Self::new(b.node_bits, b.custom_epoch);
        proof {
            use_type_invariant(&cfg);
        }
        Self {
            spin_enabled: b.spin_enabled,
            spin_loops: b.spin_loops,
            spin_yield_every: b.spin_yield_every,
            ..cfg
        }
    }

    /// A builder that starts from the default layout.
    pub fn builder() -> (r: SnowIDConfigBuilder)
        ensures
            r@ == SnowIDConfigBuilder::spec_default(),
    {
        SnowIDConfigBuilder::new()
    }

    /// Milliseconds since the Unix epoch at which timestamps start.
    pub fn epoch(&self) -> (r: u64)
        ensures
            r == self.spec_epoch(),
    {
        self.custom_epoch
    }

    pub fn node_bits(&self) -> (r: u8)
        ensures
            r == self.spec_node_bits(),
            valid_node_bits(r),
    {
        proof {
            use_type_invariant(self);
        }
        self.node_bits
    }

    pub fn sequence_bits(&self) -> (r: u8)
        ensures
            r == self.spec_sequence_bits(),
            r + self.spec_node_bits() == NODE_AND_SEQUENCE_BITS,
    {
        proof {
            use_type_invariant(self);
        }
        NODE_AND_SEQUENCE_BITS - self.node_bits
    }

    pub fn max_node_id(&self) -> (r: u16)
        ensures
            r as u64 == self.spec_max_node_id(),
    {
        proof {
            use_type_invariant(self);
        }
        self.node_mask
    }

    pub fn max_sequence_id(&self) -> (r: u16)
        ensures
            r as u64 == self.spec_max_sequence_id(),
    {
        proof {
            use_type_invariant(self);
        }
        self.sequence_mask
    }

    /// Whether the wait on exhaustion polls the clock in a spin first.
    pub fn spin_enabled(&self) -> (r: bool)
        ensures
            r == self.spec_spin_enabled(),
    {
        self.spin_enabled
    }

    /// Number of spin rounds; 0 disables spinning.
    pub fn spin_loops(&self) -> (r: u32)
        ensures
            r == self.spec_spin_loops(),
    {
        self.spin_loops
    }

    /// Yield the time slice every this many spin rounds; 0 disables yielding.
    pub fn spin_yield_every(&self) -> (r: u32)
        ensures
            r == self.spec_spin_yield_every(),
    {
        self.spin_yield_every
    }

    pub fn timestamp_shift(&self) -> (r: u8)
        ensures
            r == NODE_AND_SEQUENCE_BITS,
    {
        proof {
            use_type_invariant(self);
        }
        self.timestamp_shift
    }

    pub fn node_shift(&self) -> (r: u8)
        ensures
            r == self.spec_sequence_bits(),
    {
        proof {
            use_type_invariant(self);
        }
        self.node_shift
    }

    pub fn timestamp_mask(&self) -> (r: u64)
        ensures
            r == MAX_TIMESTAMP,
            r == mask_of(TIMESTAMP_BITS),
    {
        proof {
            use_type_invariant(self);
            assert(0x3FF_FFFF_FFFFu64 == ((1u64 << 42u64) - 1) as u64) by (bit_vector);
        }
        self.timestamp_mask
    }

    pub fn node_mask(&self) -> (r: u16)
        ensures
            r as u64 == self.spec_max_node_id(),
    {
        self.max_node_id()
    }

    pub fn sequence_mask(&self) -> (r: u16)
        ensures
            r as u64 == self.spec_max_sequence_id(),
    {
        self.max_sequence_id()
    }
}

/// The default layout: 10 node bits, 12 sequence bits, epoch January 1, 2024.
impl Default for SnowIDConfig {
    fn default() -> (r: Self)
        ensures
            r.spec_node_bits() == DEFAULT_NODE_BITS,
            r.spec_epoch() == DEFAULT_CUSTOM_EPOCH,
            r.spec_spin_enabled() == DEFAULT_SPIN_ENABLED,
            r.spec_spin_loops() == DEFAULT_SPIN_LOOPS,
            r.spec_spin_yield_every() == DEFAULT_SPIN_YIELD_EVERY,
    {
        Self::new(DEFAULT_NODE_BITS, DEFAULT_CUSTOM_EPOCH)
    }
}

/// Collects the choices for a `SnowIDConfig`; `build` derives the layout from them.
#[derive(Debug)]
pub struct SnowIDConfigBuilder {
    node_bits: u8,
    custom_epoch: u64,
    spin_enabled: bool,
    spin_loops: u32,
    spin_yield_every: u32,
}

/// The choices a builder holds, as plain values.
pub struct BuilderChoices {
    pub node_bits: u8,
    pub custom_epoch: u64,
    pub spin_enabled: bool,
    pub spin_loops: u32,
    pub spin_yield_every: u32,
}

impl View for SnowIDConfigBuilder {
    type V = BuilderChoices;

    closed spec fn view(&self) -> BuilderChoices {
        BuilderChoices {
            node_bits: self.node_bits,
            custom_epoch: self.custom_epoch,
            spin_enabled: self.spin_enabled,
            spin_loops: self.spin_loops,
            spin_yield_every: self.spin_yield_every,
        }
    }
}

impl SnowIDConfigBuilder {
    #[verifier::type_invariant]
    spec fn well_formed(self) -> bool {
        valid_node_bits(self.node_bits)
    }

    pub open spec fn spec_default() -> BuilderChoices {
        BuilderChoices {
            node_bits: DEFAULT_NODE_BITS,
            custom_epoch: DEFAULT_CUSTOM_EPOCH,
            spin_enabled: DEFAULT_SPIN_ENABLED,
            spin_loops: DEFAULT_SPIN_LOOPS,
            spin_yield_every: DEFAULT_SPIN_YIELD_EVERY,
        }
    }

    pub fn new() -> (r: Self)
        ensures
            r@ == Self::spec_default(),
    {
        Self {
            node_bits: DEFAULT_NODE_BITS,
            custom_epoch: DEFAULT_CUSTOM_EPOCH,
            spin_enabled: DEFAULT_SPIN_ENABLED,
            spin_loops: DEFAULT_SPIN_LOOPS,
            spin_yield_every: DEFAULT_SPIN_YIELD_EVERY,
        }
    }

    /// Sets the node width; the sequence takes the other `22 - bits` bits.
    /// Fails unless `6 <= bits <= 16`.
    pub fn node_bits(self, bits: u8) -> (r: Result<Self, SnowIDConfigError>)
        ensures
            valid_node_bits(bits) <==> r is Ok,
            r matches Ok(b) ==> b@ == (BuilderChoices { node_bits: bits, ..self@ }),
            r matches Err(e) ==> e == (SnowIDConfigError::InvalidNodeBits { bits }),
    {
        if bits < MIN_NODE_BITS || bits > MAX_NODE_BITS {
            return Err(SnowIDConfigError::InvalidNodeBits { bits });
        }
        Ok(Self { node_bits: bits, ..self })
    }

    /// Sets the custom epoch, in milliseconds since the Unix epoch.
    pub fn epoch(self, epoch: u64) -> (r: Self)
        ensures
            r@ == (BuilderChoices { custom_epoch: epoch, ..self@ }),
    {
        proof {
            use_type_invariant(&self);
        }
        Self { custom_epoch: epoch, ..self }
    }

    pub fn enable_spin(self, enable: bool) -> (r: Self)
        ensures
            r@ == (BuilderChoices { spin_enabled: enable, ..self@ }),
    {
        proof {
            use_type_invariant(&self);
        }
        Self { spin_enabled: enable, ..self }
    }

    pub fn spin_loops(self, loops: u32) -> (r: Self)
        ensures
            r@ == (BuilderChoices { spin_loops: loops, ..self@ }),
    {
        proof {
            use_type_invariant(&self);
        }
        Self { spin_loops: loops, ..self }
    }

    pub fn spin_yield_every(self, n: u32) -> (r: Self)
        ensures
            r@ == (BuilderChoices { spin_yield_every: n, ..self@ }),
    {
        proof {
            use_type_invariant(&self);
        }
        Self { spin_yield_every: n, ..self }
    }

    /// The layout these choices describe.
    pub fn build(self) -> (r: SnowIDConfig)
        ensures
            r.spec_node_bits() == self@.node_bits,
            r.spec_epoch() == self@.custom_epoch,
            r.spec_spin_enabled() == self@.spin_enabled,
            r.spec_spin_loops() == self@.spin_loops,
            r.spec_spin_yield_every() == self@.spin_yield_every,
    {
        SnowIDConfig::from_builder(self)
    }
}

impl Default for SnowIDConfigBuilder {
    fn default() -> (r: Self)
        ensures
            r@ == Self::spec_default(),
    {
        Self::new()
    }
}

} // verus!
