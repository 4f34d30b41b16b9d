//! The state behind a Snowflake generator, and what each request does to it.

use crate::layout::{composed, MAX_SEQUENCE, MAX_TIMESTAMP_DELTA};
use crate::snowflake_error::SnowflakeIdError;
use vstd::prelude::*;

verus! {

/// Maximum allowed clock drift before error (100ms).
pub const MAX_CLOCK_DRIFT_MS: u64 = 100;

/// The millisecond and the sequence number of the last ID.
#[derive(Debug, Clone, Copy)]
pub struct SnowflakeState {
    pub last_millis: u64,
    pub sequence: u16,
}

/// One request for an ID: the verdict of the lease guard, if there is one, the time that the ID
/// is asked for, and the wall clock.
#[derive(Debug, Clone, Copy)]
pub struct IdRequest {
    pub permit: Option<bool>,
    pub now_millis: u64,
    pub wall_clock_millis: u64,
}

impl SnowflakeState {
    /// The state before the first request.
    pub open spec fn initial() -> SnowflakeState {
        SnowflakeState { last_millis: 0, sequence: 0 }
    }

    /// Whether the sequence number fits its bits.
    pub open spec fn valid(self) -> bool {
        self.sequence <= MAX_SEQUENCE
    }

    /// Creates the state before the first request.
    pub fn new() -> (r: Self)
        ensures
            r == SnowflakeState::initial(),
    {
        SnowflakeState { last_millis: 0, sequence: 0 }
    }
}

/// How far two times lie apart.
pub open spec fn distance(a: u64, b: u64) -> int {
    if a > b {
        a - b
    } else {
        b - a
    }
}

/// The error with which a request is refused because of the lease, if it is: the guard does not
/// allow it, or the time asked for lies too far from the wall clock.
pub open spec fn lease_refusal(request: IdRequest) -> Option<SnowflakeIdError> {
    match request.permit {
        None => None,
        Some(false) => Some(SnowflakeIdError::LeaseUnavailable),
        Some(true) => if distance(request.now_millis, request.wall_clock_millis)
            > MAX_CLOCK_DRIFT_MS {
            Some(
                SnowflakeIdError::ClockMovedBackwards {
                    last_millis: request.wall_clock_millis,
                    now_millis: request.now_millis,
                },
            )
        } else {
            None
        },
    }
}

/// The error with which an ID at `now_millis` is refused because of the clock or because the
/// millisecond is full, if it is.
pub open spec fn clock_refusal(epoch_millis: u64, state: SnowflakeState, now_millis: u64) -> Option<
    SnowflakeIdError,
> {
    if now_millis < epoch_millis {
        Some(SnowflakeIdError::ClockBeforeEpoch { now_millis, epoch_millis })
    } else if state.last_millis > now_millis + MAX_CLOCK_DRIFT_MS {
        Some(
            SnowflakeIdError::ClockMovedBackwards { last_millis: state.last_millis, now_millis },
        )
    } else if now_millis <= state.last_millis && state.sequence == MAX_SEQUENCE {
        Some(SnowflakeIdError::SequenceExhausted { millis: state.last_millis })
    } else {
        None
    }
}

/// The place of the next ID: the next sequence number of the last millisecond, or the start of a
/// later one.
pub open spec fn next_place(state: SnowflakeState, now_millis: u64) -> SnowflakeState {
    if now_millis <= state.last_millis {
        SnowflakeState { last_millis: state.last_millis, sequence: (state.sequence + 1) as u16 }
    } else {
        SnowflakeState { last_millis: now_millis, sequence: 0 }
    }
}

/// The state after an ID was asked for at `now_millis`: a refusal leaves it as it was, and any
/// other outcome takes the next place.
pub open spec fn place_after(
    epoch_millis: u64,
    state: SnowflakeState,
    now_millis: u64,
) -> SnowflakeState {
    if clock_refusal(epoch_millis, state, now_millis) is Some {
        state
    } else {
        next_place(state, now_millis)
    }
}

/// The ID at a place.
pub open spec fn id_at(node_id: u16, epoch_millis: u64, place: SnowflakeState) -> int {
    composed(
        place.last_millis - epoch_millis,
        node_id as int,
        place.sequence as int,
    )
}

/// The outcome of asking for an ID at `now_millis`.
pub open spec fn outcome(
    node_id: u16,
    epoch_millis: u64,
    state: SnowflakeState,
    now_millis: u64,
) -> Result<i64, SnowflakeIdError> {
    let place = next_place(state, now_millis);
    let delta_millis = place.last_millis - epoch_millis;
    match clock_refusal(epoch_millis, state, now_millis) {
        Some(e) => Err(e),
        None => if delta_millis > MAX_TIMESTAMP_DELTA {
            Err(
                SnowflakeIdError::TimestampOverflow {
                    delta_millis: delta_millis as u64,
                    max_delta_millis: MAX_TIMESTAMP_DELTA,
                },
            )
        } else {
            Ok(id_at(node_id, epoch_millis, place) as i64)
        },
    }
}

/// The answer to a request: the lease is looked at first, then the state.
pub open spec fn answer(
    node_id: u16,
    epoch_millis: u64,
    state: SnowflakeState,
    request: IdRequest,
) -> Result<i64, SnowflakeIdError> {
    match lease_refusal(request) {
        Some(e) => Err(e),
        None => outcome(node_id, epoch_millis, state, request.now_millis),
    }
}

/// The state after a request.
pub open spec fn state_after(
    epoch_millis: u64,
    state: SnowflakeState,
    request: IdRequest,
) -> SnowflakeState {
    if lease_refusal(request) is Some {
        state
    } else {
        place_after(epoch_millis, state, request.now_millis)
    }
}

/// The state after a history of requests that starts at the initial state.
pub open spec fn state_after_all(epoch_millis: u64, history: Seq<IdRequest>) -> SnowflakeState
    decreases history.len(),
{
    if history.len() == 0 {
        SnowflakeState::initial()
    } else {
        state_after(
            epoch_millis,
            state_after_all(epoch_millis, history.drop_last()),
            history.last(),
        )
    }
}

/// Every state that a history of requests leads to is valid.
pub proof fn law_reachable_states_are_valid(epoch_millis: u64, history: Seq<IdRequest>)
    ensures
        state_after_all(epoch_millis, history).valid(),
    decreases history.len(),
{
    if history.len() > 0 {
        law_reachable_states_are_valid(epoch_millis, history.drop_last());
    }
}

/// The answer to the request number `i` of a history.
pub open spec fn answer_in(
    node_id: u16,
    epoch_millis: u64,
    history: Seq<IdRequest>,
    i: int,
) -> Result<i64, SnowflakeIdError> {
    answer(node_id, epoch_millis, state_after_all(epoch_millis, history.take(i)), history[i])
}

/// Tells whether the lease lets a request through.
pub fn check_lease(request: IdRequest) -> (r: Result<(), SnowflakeIdError>)
    ensures
        match r {
            Ok(_) => lease_refusal(request) is None,
            Err(e) => lease_refusal(request) == Some(e),
        },
{
    match request.permit {
        None => Ok(()),
        Some(allowed) => {
            if !allowed {
                return Err(SnowflakeIdError::LeaseUnavailable);
            }
            let now_millis = request.now_millis;
            let wall_clock_millis = request.wall_clock_millis;
            let apart: u64 = if now_millis > wall_clock_millis {
                now_millis - wall_clock_millis
            } else {
                wall_clock_millis - now_millis
            };
            if apart > MAX_CLOCK_DRIFT_MS {
                return Err(
                    SnowflakeIdError::ClockMovedBackwards {
                        last_millis: wall_clock_millis,
                        now_millis,
                    },
                );
            }
            Ok(())
        },
    }
}

} // verus!
