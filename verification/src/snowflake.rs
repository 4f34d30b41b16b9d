//! Snowflake IDs: the generator.

pub use crate::clock::current_time_millis;
use crate::clock::is_wall_clock_reading;
use crate::decimal::{i64_to_string, int_text, push_u64};
use crate::error::IdGenError;
use crate::generator::IdGenerator;
pub use crate::guard::SnowflakeLeaseGuard;
pub use crate::layout::{
    default_snowflake_epoch_millis, default_snowflake_profile, max_snowflake_node_id,
    SnowflakeProfile,
};
use crate::layout::{
    compose, DEFAULT_EPOCH_MILLIS, MAX_NODE_ID, MAX_SEQUENCE, MAX_TIMESTAMP_DELTA,
};
use crate::lease_reader::LeaseReader;
use crate::pen::Pen;
use crate::shared::SharedState;
use crate::snowflake_error::two_numbers;
pub use crate::snowflake_error::SnowflakeIdError;
use crate::state::{
    answer, check_lease, law_reachable_states_are_valid, lease_refusal, outcome, place_after,
    state_after_all, IdRequest, SnowflakeState, MAX_CLOCK_DRIFT_MS,
};
use std::sync::Arc;
use vstd::prelude::*;
use vstd::string::*;

verus! {

/// Thread-safe Snowflake ID generator.
///
/// Generates unique, monotonically increasing 64-bit IDs using the Snowflake algorithm.
/// - 41 bits: timestamp (milliseconds since epoch)
/// - 10 bits: node ID (0-1023)
/// - 12 bits: sequence (0-4095 per millisecond)
///
/// Supports 30+ years of operation and up to 4096 IDs per millisecond per node.
///
/// Clones of a generator share its state.
pub struct SnowflakeIdGenerator {
    node_id: u16,
    epoch_millis: u64,
    state: Arc<SharedState>,
    pen: Pen,
    lease_reader: Option<LeaseReader>,
    lease_guard: Ghost<Option<Arc<SnowflakeLeaseGuard>>>,
}

impl Clone for SnowflakeIdGenerator {
    fn clone(&self) -> (r: Self)
        ensures
            r == *self,
    {
        proof {
            use_type_invariant(self);
        }
        SnowflakeIdGenerator {
            node_id: self.node_id,
            epoch_millis: self.epoch_millis,
            state: self.state.clone(),
            pen: self.pen.clone(),
            lease_reader: match &self.lease_reader {
                Some(reader) => Some(reader.clone()),
                None => None,
            },
            lease_guard: Ghost(self.lease_guard@),
        }
    }
}

impl SnowflakeIdGenerator {
    #[verifier::type_invariant]
    spec fn well_formed(&self) -> bool {
        &&& self.node_id <= MAX_NODE_ID
        &&& self.state.epoch() == self.epoch_millis
        &&& self.pen.seal() == self.state.seal()
        &&& self.lease_reader == match self.lease_guard@ {
            Some(guard) => Some(guard.shown()),
            None => None,
        }
    }

    /// The node that the generator's IDs carry.
    pub closed spec fn node(&self) -> u16 {
        self.node_id
    }

    /// The time from which the generator's IDs count.
    pub closed spec fn epoch(&self) -> u64 {
        self.epoch_millis
    }

    /// The state that the generator and its clones share.
    pub closed spec fn shared_state(&self) -> Arc<SharedState> {
        self.state
    }

    /// The lease guard that the generator looks at, if it has one.
    pub closed spec fn lease(&self) -> Option<Arc<SnowflakeLeaseGuard>> {
        self.lease_guard@
    }

    /// Whether `permit` is what a look at the lease guard can come to: its verdict if there is a
    /// guard, nothing if there is none.
    pub open spec fn can_permit(&self, wall_clock_millis: u64, permit: Option<bool>) -> bool {
        match self.lease() {
            Some(guard) => permit is Some && guard.can_allow(wall_clock_millis, permit->0),
            None => permit is None,
        }
    }

    /// Whether `r` is the answer to a request that comes after a history of requests, made to this
    /// generator or to any other that shares its state.
    pub open spec fn answers_after(
        &self,
        history: Seq<IdRequest>,
        request: IdRequest,
        r: Result<i64, SnowflakeIdError>,
    ) -> bool {
        r == answer(self.node(), self.epoch(), state_after_all(self.epoch(), history), request)
    }

    /// Whether `r` can be the answer to a request: the refusal because of the lease, or the outcome
    /// on the state that some history of earlier requests leads to, the request being added to that
    /// history for the next one to find.
    pub open spec fn can_answer_request(
        &self,
        request: IdRequest,
        r: Result<i64, SnowflakeIdError>,
    ) -> bool {
        match lease_refusal(request) {
            Some(e) => r == Err::<i64, SnowflakeIdError>(e),
            None => exists|history: Seq<IdRequest>| #[trigger]
                self.shared_state().can_find(history) && self.shared_state().can_find(
                    history.push(request),
                ) && self.answers_after(history, request, r),
        }
    }

    /// Whether `r` can be the answer to a request at these times, with what a look at the lease
    /// guard comes to.
    pub open spec fn can_answer(
        &self,
        now_millis: u64,
        wall_clock_millis: u64,
        r: Result<i64, SnowflakeIdError>,
    ) -> bool {
        exists|permit: Option<bool>| #[trigger]
            self.can_permit(wall_clock_millis, permit) && self.can_answer_request(
                IdRequest { permit, now_millis, wall_clock_millis },
                r,
            )
    }

    /// Whether `r` can come of a request at the time that the wall clock shows.
    pub open spec fn can_generate(&self, r: Result<i64, SnowflakeIdError>) -> bool {
        exists|reading: Result<u64, SnowflakeIdError>| #[trigger]
            is_wall_clock_reading(reading) && match reading {
                Ok(now_millis) => self.can_answer(now_millis, now_millis, r),
                Err(e) => r == Err::<i64, SnowflakeIdError>(e),
            }
    }

    /// Create a new Snowflake ID generator with the default epoch.
    pub fn new(node_id: u16) -> (r: Result<Self, SnowflakeIdError>)
        ensures
            match r {
                Ok(g) => node_id <= 1023 && g.node() == node_id && g.epoch() == 1_704_067_200_000
                    && g.lease() is None && g.shared_state().can_find(Seq::empty()),
                Err(e) => node_id > 1023 && e == (SnowflakeIdError::InvalidNodeId {
                    node_id,
                    max_node_id: 1023,
                }),
            },
    {
        Self::with_epoch(node_id, DEFAULT_EPOCH_MILLIS)
    }

    /// Create a new Snowflake ID generator with a custom epoch.
    pub fn with_epoch(node_id: u16, epoch_millis: u64) -> (r: Result<Self, SnowflakeIdError>)
        ensures
            match r {
                Ok(g) => node_id <= 1023 && g.node() == node_id && g.epoch() == epoch_millis
                    && g.lease() is None && g.shared_state().can_find(Seq::empty()),
                Err(e) => node_id > 1023 && e == (SnowflakeIdError::InvalidNodeId {
                    node_id,
                    max_node_id: 1023,
                }),
            },
    {
        if node_id > MAX_NODE_ID {
            return Err(SnowflakeIdError::InvalidNodeId { node_id, max_node_id: MAX_NODE_ID });
        }
        let (state, pen) = SharedState::new(epoch_millis);
        Ok(
            SnowflakeIdGenerator {
                node_id,
                epoch_millis,
                state: Arc::new(state),
                pen,
                lease_reader: None,
                lease_guard: Ghost(None),
            },
        )
    }

    /// Attach a distributed lease guard to this generator.
    ///
    /// Database-backed allocators use this guard to fence ID generation when
    /// the node lease can no longer be proven valid. The check is a short
    /// look at the guard on the generation hot path.
    #[must_use]
    pub fn with_lease_guard(self, lease_guard: Arc<SnowflakeLeaseGuard>) -> (r: Self)
        ensures
            r.node() == self.node(),
            r.epoch() == self.epoch(),
            r.shared_state() == self.shared_state(),
            r.lease() == Some(lease_guard),
    {
        proof {
            use_type_invariant(&self);
        }
        SnowflakeIdGenerator {
            node_id: self.node_id,
            epoch_millis: self.epoch_millis,
            state: self.state,
            pen: self.pen,
            lease_reader: Some(lease_guard.reader()),
            lease_guard: Ghost(Some(lease_guard)),
        }
    }

    /// Generate a new ID using the current system time.
    pub fn generate(&self) -> (r: Result<i64, SnowflakeIdError>)
        ensures
            self.can_generate(r),
    {
        let reading = current_time_millis();
        match reading {
            Ok(now_millis) => self.generate_at_with_wall_clock(now_millis, now_millis),
            Err(e) => Err(e),
        }
    }

    /// Generate a new ID at a specific timestamp (useful for testing).
    pub fn generate_at(&self, now_millis: u64) -> (r: Result<i64, SnowflakeIdError>)
        ensures
            exists|reading: Result<u64, SnowflakeIdError>| #[trigger]
                is_wall_clock_reading(reading) && match reading {
                    Ok(wall_clock_millis) => self.can_answer(now_millis, wall_clock_millis, r),
                    Err(e) => r == Err::<i64, SnowflakeIdError>(e),
                },
    {
        let reading = current_time_millis();
        match reading {
            Ok(wall_clock_millis) => self.generate_at_with_wall_clock(
                now_millis,
                wall_clock_millis,
            ),
            Err(e) => Err(e),
        }
    }

    /// Generate a new ID at a specific timestamp, the wall clock standing at `wall_clock_millis`.
    pub fn generate_at_with_wall_clock(
        &self,
        now_millis: u64,
        wall_clock_millis: u64,
    ) -> (r: Result<i64, SnowflakeIdError>)
        ensures
            self.can_answer(now_millis, wall_clock_millis, r),
    {
        proof {
            use_type_invariant(self);
        }
        let permit: Option<bool> = match &self.lease_reader {
            Some(reader) => {
                let allowed = reader.allows(wall_clock_millis);
                proof {
                    let guard = self.lease_guard@->0;
                    guard.law_guard_answers_as_its_reader(wall_clock_millis, allowed);
                }
                Some(allowed)
            },
            None => None,
        };
        let request = IdRequest { permit, now_millis, wall_clock_millis };
        assert(self.can_permit(wall_clock_millis, permit));
        match check_lease(request) {
            Err(e) => {
                assert(self.can_answer_request(request, Err(e)));
                return Err(e);
            },
            Ok(_) => {},
        }
        let (mut state, held) = self.state.acquire();
        let ghost history = held.history();
        proof {
            law_reachable_states_are_valid(self.epoch(), history);
        }
        let r = self.next_id_at(now_millis, &mut state);
        assert(history.push(request).drop_last() == history);
        self.state.release(held, self.pen.stroke(), request, state);
        proof {
            assert(self.shared_state().can_find(history));
            assert(self.can_answer_request(request, r));
        }
        r
    }

    /// Get the node ID for this generator.
    pub fn node_id(&self) -> (r: u16)
        ensures
            r == self.node(),
            r <= 1023,
    {
        proof {
            use_type_invariant(self);
        }
        self.node_id
    }

    /// Get the epoch used by this generator.
    pub fn epoch_millis(&self) -> (r: u64)
        ensures
            r == self.epoch(),
    {
        self.epoch_millis
    }

    /// Generate the next ID at a given timestamp on the given state.
    ///
    /// A timestamp overflow takes the next place in the state too, though no ID comes of it.
    pub fn next_id_at(&self, now_millis: u64, state: &mut SnowflakeState) -> (r: Result<
        i64,
        SnowflakeIdError,
    >)
        requires
            old(state).valid(),
        ensures
            r == outcome(self.node(), self.epoch(), *old(state), now_millis),
            *final(state) == place_after(self.epoch(), *old(state), now_millis),
            final(state).valid(),
    {
        proof {
            use_type_invariant(self);
        }
        // Check clock before epoch
        if now_millis < self.epoch_millis {
            return Err(
                SnowflakeIdError::ClockBeforeEpoch { now_millis, epoch_millis: self.epoch_millis },
            );
        }
        // Check for excessive clock drift (beyond 100ms tolerance)

        if state.last_millis > now_millis.saturating_add(MAX_CLOCK_DRIFT_MS) {
            return Err(
                SnowflakeIdError::ClockMovedBackwards {
                    last_millis: state.last_millis,
                    now_millis,
                },
            );
        }
        // Pin small clock rollbacks to the last logical millisecond. Never
        // move the encoded timestamp backwards or reset sequence at an older
        // timestamp, otherwise a clock recovery can duplicate an earlier ID.

        let logical_millis: u64 = if state.last_millis > now_millis {
            state.last_millis
        } else {
            now_millis
        };
        if state.last_millis == logical_millis {
            if state.sequence == MAX_SEQUENCE {
                return Err(SnowflakeIdError::SequenceExhausted { millis: logical_millis });
            }
            state.sequence = state.sequence + 1;
        } else {
            state.last_millis = logical_millis;
            state.sequence = 0;
        }
        // Calculate delta from epoch

        let delta_millis: u64 = logical_millis - self.epoch_millis;
        if delta_millis > MAX_TIMESTAMP_DELTA {
            return Err(
                SnowflakeIdError::TimestampOverflow {
                    delta_millis,
                    max_delta_millis: MAX_TIMESTAMP_DELTA,
                },
            );
        }
        // Combine bits: timestamp | node_id | sequence

        Ok(compose(delta_millis, self.node_id, state.sequence))
    }

    /// Writes the generator out for a programmer: its node and epoch, not its state.
    pub fn debug_string(&self) -> (r: String)
        ensures
            r@ == two_numbers(
                "SnowflakeIdGenerator { node_id: "@,
                self.node() as nat,
                ", epoch_millis: "@,
                self.epoch() as nat,
            ) + ", .. }"@,
    {
        let mut out = "SnowflakeIdGenerator { node_id: ".to_owned();
        push_u64(&mut out, self.node_id as u64);
        out.append(", epoch_millis: ");
        push_u64(&mut out, self.epoch_millis);
        out.append(", .. }");
        out
    }
}

impl IdGenerator for SnowflakeIdGenerator {
    open spec fn can_issue(&self, outcome: Result<Seq<char>, Seq<char>>) -> bool {
        match outcome {
            Ok(text) => exists|id: i64| #[trigger]
                self.can_generate(Ok(id)) && text == int_text(id as int),
            Err(message) => exists|e: SnowflakeIdError| #[trigger]
                self.can_generate(Err(e)) && message == e.shown(),
        }
    }

    open spec fn label_text(&self) -> Seq<char> {
        "snowflake"@
    }

    fn next_id(&self) -> (r: Result<String, IdGenError>) {
        match self.generate() {
            Ok(id) => Ok(i64_to_string(id)),
            Err(e) => Err(IdGenError::from(e.to_string())),
        }
    }

    fn label(&self) -> (r: &str) {
        "snowflake"
    }
}

} // verus!
