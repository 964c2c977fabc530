use vstd::prelude::*;
use vstd::string::StringExecFns;

use crate::text::{ascii_chars, decimal_spec, decimal_string};

verus! {

/// Rejections when a generator is built.
#[derive(Debug, Clone, Copy, PartialEq, Eq, Structural)]
pub enum SnowIDError {
    /// The node id exceeds the largest the layout can hold.
    InvalidNodeId { node_id: u16, max: u16 },
}

/// Failures of identifier generation, for callers that report them by kind.
#[derive(Debug, Clone, Copy, PartialEq, Eq, Structural)]
pub enum TsidError {
    /// The node id exceeds the largest allowed.
    InvalidNodeId { node_id: u16, max_allowed: u16 },
    /// The system clock moved backwards.
    ClockBackwards,
    /// The sequence numbers of a millisecond ran out.
    SequenceOverflow,
}

impl TsidError {
    /// The text that describes this error.
    pub open spec fn message_spec(self) -> Seq<char> {
        match self {
            TsidError::InvalidNodeId { node_id, max_allowed } => "Node ID "@ + ascii_chars(
                decimal_spec(node_id as nat),
            ) + " exceeds maximum allowed value "@ + ascii_chars(decimal_spec(max_allowed as nat)),
            TsidError::ClockBackwards => "System clock moved backwards"@,
            TsidError::SequenceOverflow => "Sequence number overflow"@,
        }
    }

    /// The text that describes this error.
    pub fn to_string(&self) -> (r: String)
        ensures
            r@ == self.message_spec(),
    {
        match self {
            TsidError::InvalidNodeId { node_id, max_allowed } => {
                let mut s = String::from_str("Node ID ");
                let n = decimal_string(*node_id as u64);
                s.append(n.as_str());
                s.append(" exceeds maximum allowed value ");
                let m = decimal_string(*max_allowed as u64);
                s.append(m.as_str());
                s
            },
            TsidError::ClockBackwards => String::from_str("System clock moved backwards"),
            TsidError::SequenceOverflow => String::from_str("Sequence number overflow"),
        }
    }
}

} // verus!
