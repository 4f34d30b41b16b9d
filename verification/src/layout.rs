//! The bit layout of a Snowflake ID: 41 bits of timestamp, 10 bits of node, 12 bits of sequence.

use crate::decimal::{i64_value, parse_i64};
use crate::error::IdGenError;
use vstd::arithmetic::power2::{lemma2_to64, lemma2_to64_rest, pow2};
use vstd::prelude::*;

verus! {

/// Default epoch: 2024-01-01 00:00:00 UTC in milliseconds.
pub const DEFAULT_EPOCH_MILLIS: u64 = 1_704_067_200_000;

pub const TIMESTAMP_BITS: u8 = 41;

pub const NODE_BITS: u8 = 10;

pub const SEQUENCE_BITS: u8 = 12;

/// The largest node ID.
pub const MAX_NODE_ID: u16 = 1023;

/// The largest sequence number within one millisecond.
pub const MAX_SEQUENCE: u16 = 4095;

/// The largest number of milliseconds after the epoch that an ID can carry.
pub const MAX_TIMESTAMP_DELTA: u64 = 2_199_023_255_551;

const NODE_SHIFT: u64 = 12;

const TIMESTAMP_SHIFT: u64 = 22;

/// What one step of the node adds to an ID: the sequence lies below it.
pub open spec fn node_weight() -> int {
    4096
}

/// What one millisecond adds to an ID: the sequence and the node lie below it.
pub open spec fn timestamp_weight() -> int {
    4194304
}

/// The ID made of a timestamp delta, a node and a sequence number.
pub open spec fn composed(delta_millis: int, node_id: int, sequence: int) -> int {
    delta_millis * timestamp_weight() + node_id * node_weight() + sequence
}

/// The node that the ID `id` carries.
pub open spec fn node_of(id: int) -> int {
    id / node_weight() % (MAX_NODE_ID + 1)
}

/// The milliseconds after the epoch that the ID `id` carries.
pub open spec fn delta_of(id: int) -> int {
    id / timestamp_weight()
}

/// The sequence number that the ID `id` carries.
pub open spec fn sequence_of(id: int) -> int {
    id % node_weight()
}

/// Puts the three parts of an ID together.
pub fn compose(delta_millis: u64, node_id: u16, sequence: u16) -> (id: i64)
    requires
        delta_millis <= MAX_TIMESTAMP_DELTA,
        node_id <= MAX_NODE_ID,
        sequence <= MAX_SEQUENCE,
    ensures
        id == composed(delta_millis as int, node_id as int, sequence as int),
        id >= 0,
{
    let node: u64 = node_id as u64;
    let seq: u64 = sequence as u64;
    let value: u64 = (delta_millis << TIMESTAMP_SHIFT) | (node << NODE_SHIFT) | seq;
    assert(value == delta_millis * 4194304 + node * 4096 + seq && value
        <= 0x7fff_ffff_ffff_ffff) by (bit_vector)
        requires
            value == (delta_millis << 22u64) | (node << 12u64) | seq,
            delta_millis <= 2_199_023_255_551u64,
            node <= 1023u64,
            seq <= 4095u64,
    ;
    value as i64
}

/// Takes an ID apart: node, milliseconds after the epoch, sequence number.
pub fn decompose(id: i64) -> (parts: (u16, u64, u16))
    requires
        id >= 0,
    ensures
        parts.0 == node_of(id as int),
        parts.1 == delta_of(id as int),
        parts.2 == sequence_of(id as int),
{
    let bits: u64 = id as u64;
    let node: u64 = (bits >> NODE_SHIFT) & 0x3FF;
    let delta: u64 = bits >> TIMESTAMP_SHIFT;
    let seq: u64 = bits & 0xFFF;
    assert(node == bits / 4096 % 1024 && delta == bits / 4194304 && seq == bits % 4096)
        by (bit_vector)
        requires
            node == (bits >> 12u64) & 0x3FFu64,
            delta == bits >> 22u64,
            seq == bits & 0xFFFu64,
    ;
    (node as u16, delta, seq as u16)
}

/// What the text of a Snowflake ID decodes to, or the message with which it is refused.
pub open spec fn decoded(text: Seq<char>) -> Result<(int, int, int), Seq<char>> {
    match i64_value(text) {
        None => Err("invalid Snowflake ID format"@),
        Some(id) => if id <= 0 {
            Err("Snowflake ID must be positive"@)
        } else {
            Ok((node_of(id as int), delta_of(id as int), sequence_of(id as int)))
        },
    }
}

/// Validate a Snowflake ID string.
///
/// Returns the decoded parts if valid: (node_id, timestamp_delta_millis, sequence).
pub fn validate_snowflake_id(id_str: &str) -> (r: Result<(u16, u64, u16), IdGenError>)
    ensures
        match r {
            Ok(parts) => decoded(id_str@) == Ok::<(int, int, int), Seq<char>>(
                (parts.0 as int, parts.1 as int, parts.2 as int),
            ),
            Err(e) => decoded(id_str@) == Err::<(int, int, int), Seq<char>>(e.message@),
        },
{
    match parse_i64(id_str) {
        None => Err(IdGenError::from("invalid Snowflake ID format")),
        Some(id) => {
            if id <= 0 {
                Err(IdGenError::from("Snowflake ID must be positive"))
            } else {
                Ok(decompose(id))
            }
        },
    }
}

/// Snowflake profile describing the bit layout.
#[derive(Debug, Clone, Copy, Eq, PartialEq)]
pub struct SnowflakeProfile {
    pub epoch_millis: u64,
    pub timestamp_bits: u8,
    pub node_bits: u8,
    pub sequence_bits: u8,
    pub max_node_id: u16,
    pub max_sequence_per_millis: u16,
    pub max_timestamp_delta_millis: u64,
    pub min_required_lifetime_years: u16,
}

/// The profile of the default layout and epoch.
pub open spec fn default_profile() -> SnowflakeProfile {
    SnowflakeProfile {
        epoch_millis: 1_704_067_200_000,
        timestamp_bits: 41,
        node_bits: 10,
        sequence_bits: 12,
        max_node_id: 1023,
        max_sequence_per_millis: 4095,
        max_timestamp_delta_millis: 2_199_023_255_551,
        min_required_lifetime_years: 30,
    }
}

/// Get the default epoch in milliseconds.
pub fn default_snowflake_epoch_millis() -> (r: u64)
    ensures
        r == 1_704_067_200_000,
{
    DEFAULT_EPOCH_MILLIS
}

/// Get the default Snowflake profile.
///
/// The three fields fill an `i64` below its sign bit, each maximum is what its bits hold, and the
/// timestamp lasts as many mean years as are required.
pub fn default_snowflake_profile() -> (r: SnowflakeProfile)
    ensures
        r == default_profile(),
        r.timestamp_bits + r.node_bits + r.sequence_bits == 63,
        r.max_node_id == pow2(r.node_bits as nat) - 1,
        r.max_sequence_per_millis == pow2(r.sequence_bits as nat) - 1,
        r.max_timestamp_delta_millis == pow2(r.timestamp_bits as nat) - 1,
        r.max_timestamp_delta_millis >= r.min_required_lifetime_years * 31_556_952_000,
{
    proof {
        lemma2_to64();
        lemma2_to64_rest();
    }
    SnowflakeProfile {
        epoch_millis: DEFAULT_EPOCH_MILLIS,
        timestamp_bits: TIMESTAMP_BITS,
        node_bits: NODE_BITS,
        sequence_bits: SEQUENCE_BITS,
        max_node_id: MAX_NODE_ID,
        max_sequence_per_millis: MAX_SEQUENCE,
        max_timestamp_delta_millis: MAX_TIMESTAMP_DELTA,
        min_required_lifetime_years: 30,
    }
}

/// Get the maximum valid node ID.
pub fn max_snowflake_node_id() -> (r: u16)
    ensures
        r == 1023,
{
    MAX_NODE_ID
}

} // verus!
