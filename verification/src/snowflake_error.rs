//! The ways in which a Snowflake generator refuses to give out an ID.

use crate::decimal::{nat_text, push_u64};
use vstd::prelude::*;
use vstd::string::*;

verus! {

/// Snowflake ID generation errors
#[derive(Debug, Clone, Eq, PartialEq)]
pub enum SnowflakeIdError {
    /// The distributed node lease is no longer valid.
    LeaseUnavailable,
    /// Invalid node ID (must be 0-1023)
    InvalidNodeId { node_id: u16, max_node_id: u16 },
    /// System clock is before the epoch
    ClockBeforeEpoch { now_millis: u64, epoch_millis: u64 },
    /// Clock moved backwards (beyond drift tolerance)
    ClockMovedBackwards { last_millis: u64, now_millis: u64 },
    /// Timestamp overflow (69+ years since epoch)
    TimestampOverflow { delta_millis: u64, max_delta_millis: u64 },
    /// Sequence exhausted (4096 IDs in one millisecond)
    SequenceExhausted { millis: u64 },
    /// System time error
    SystemTime(String),
    /// The generator state was left half-changed; no request leaves it so
    StatePoisoned,
}

/// Text with two numbers in it: each after its introduction.
pub open spec fn two_numbers(first: Seq<char>, a: nat, second: Seq<char>, b: nat) -> Seq<char> {
    first + nat_text(a) + second + nat_text(b)
}

fn write_two_numbers(first: &str, a: u64, second: &str, b: u64) -> (r: String)
    ensures
        r@ == two_numbers(first@, a as nat, second@, b as nat),
{
    let mut out = first.to_owned();
    push_u64(&mut out, a);
    out.append(second);
    push_u64(&mut out, b);
    out
}

impl SnowflakeIdError {
    /// The error as it is shown to a reader.
    pub open spec fn shown(&self) -> Seq<char> {
        match *self {
            SnowflakeIdError::LeaseUnavailable => "snowflake node lease is unavailable"@,
            SnowflakeIdError::InvalidNodeId { node_id, max_node_id } => two_numbers(
                "invalid node_id="@,
                node_id as nat,
                ", max="@,
                max_node_id as nat,
            ),
            SnowflakeIdError::ClockBeforeEpoch { now_millis, epoch_millis } => two_numbers(
                "clock before epoch: now="@,
                now_millis as nat,
                ", epoch="@,
                epoch_millis as nat,
            ),
            SnowflakeIdError::ClockMovedBackwards { last_millis, now_millis } => two_numbers(
                "clock moved backwards: last="@,
                last_millis as nat,
                ", now="@,
                now_millis as nat,
            ),
            SnowflakeIdError::TimestampOverflow { delta_millis, max_delta_millis } => two_numbers(
                "timestamp overflow: delta="@,
                delta_millis as nat,
                ", max="@,
                max_delta_millis as nat,
            ),
            SnowflakeIdError::SequenceExhausted { millis } => "sequence exhausted at millis="@
                + nat_text(millis as nat),
            SnowflakeIdError::SystemTime(e) => "system time error: "@ + e@,
            SnowflakeIdError::StatePoisoned => "generator state poisoned"@,
        }
    }

    /// Writes the error out for a reader.
    pub fn to_string(&self) -> (r: String)
        ensures
            r@ == self.shown(),
    {
        match self {
            SnowflakeIdError::LeaseUnavailable => "snowflake node lease is unavailable".to_owned(),
            SnowflakeIdError::InvalidNodeId { node_id, max_node_id } => write_two_numbers(
                "invalid node_id=",
                *node_id as u64,
                ", max=",
                *max_node_id as u64,
            ),
            SnowflakeIdError::ClockBeforeEpoch { now_millis, epoch_millis } => write_two_numbers(
                "clock before epoch: now=",
                *now_millis,
                ", epoch=",
                *epoch_millis,
            ),
            SnowflakeIdError::ClockMovedBackwards { last_millis, now_millis } => write_two_numbers(
                "clock moved backwards: last=",
                *last_millis,
                ", now=",
                *now_millis,
            ),
            SnowflakeIdError::TimestampOverflow { delta_millis, max_delta_millis } =>
                write_two_numbers(
                "timestamp overflow: delta=",
                *delta_millis,
                ", max=",
                *max_delta_millis,
            ),
            SnowflakeIdError::SequenceExhausted { millis } => {
                let mut out = "sequence exhausted at millis=".to_owned();
                push_u64(&mut out, *millis);
                out
            },
            SnowflakeIdError::SystemTime(e) => {
                let mut out = "system time error: ".to_owned();
                out.append(e.as_str());
                out
            },
            SnowflakeIdError::StatePoisoned => "generator state poisoned".to_owned(),
        }
    }
}

} // verus!
