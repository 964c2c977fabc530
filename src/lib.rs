//! Time-sorted 64-bit identifiers for distributed systems.
//!
//! An identifier holds, most significant first, a 42-bit timestamp in
//! milliseconds since a custom epoch, a node id of `node_bits` bits (6 to 16)
//! and a sequence number in the remaining `22 - node_bits` bits. A `SnowID`
//! generator keeps its last published (timestamp, sequence) pair in one atomic
//! word and moves it forward only by compare-and-swap, so identifiers from one
//! generator are distinct and increasing, also across threads.

use vstd::prelude::*;
use vstd::string::StringSliceAdditionalSpecFns;

pub mod base62;
pub mod config;
pub mod extractor;
pub mod state;
pub mod text;
pub mod time;
pub mod wait;
pub mod error;
pub mod generator;

pub use config::{SnowIDConfig, SnowIDConfigBuilder, SnowIDConfigError};
pub use extractor::SnowIDExtractor;
pub use error::{SnowIDError, TsidError};
pub use generator::SnowID;

pub use base62::DecodeError as Base62DecodeError;

verus! {

/// The base-62 text of an identifier.
pub fn base62_encode(id: u64) -> (r: String)
    ensures
        r@ == base62::encode_spec(id as nat).map_values(|b: u8| b as char),
        1 <= r@.len() <= base62::MAX_LEN,
{
    base62::encode(id)
}

/// The identifier that base-62 text stands for.
pub fn base62_decode(encoded: &str) -> (r: Result<u64, Base62DecodeError>)
    ensures
        r == base62::decode_spec(encoded.spec_bytes()),
{
    base62::decode(encoded)
}

} // verus!
