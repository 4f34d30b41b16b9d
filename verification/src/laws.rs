//! What holds of the library as a whole: of IDs, of histories of requests, of leases.

use crate::decimal::{int_text, law_int_text_reads_back};
use crate::layout::{
    composed, decoded, delta_of, node_of, sequence_of, MAX_NODE_ID, MAX_SEQUENCE,
    MAX_TIMESTAMP_DELTA,
};
use crate::guard::SnowflakeLeaseGuard;
use crate::lease::{deadline_after, remaining, terms_after, terms_after_all, LeaseEvent, LeaseTerms};
use crate::snowflake::SnowflakeIdGenerator;
use crate::snowflake_error::SnowflakeIdError;
use crate::state::{
    answer, answer_in, id_at, law_reachable_states_are_valid, lease_refusal, next_place, outcome,
    place_after, state_after, state_after_all, IdRequest, SnowflakeState, MAX_CLOCK_DRIFT_MS,
};
use crate::uuid_gen::{hex_char, hex_text, hyphenated};
use vstd::arithmetic::div_mod::lemma_fundamental_div_mod_converse;
use vstd::prelude::*;

verus! {

// ---- IDs and their parts ----

/// An ID carries its parts: each of them reads back, and the ID is a non-negative `i64`.
pub proof fn law_parts_read_back(delta_millis: int, node_id: int, sequence: int)
    requires
        0 <= delta_millis <= MAX_TIMESTAMP_DELTA,
        0 <= node_id <= MAX_NODE_ID,
        0 <= sequence <= MAX_SEQUENCE,
    ensures
        delta_of(composed(delta_millis, node_id, sequence)) == delta_millis,
        node_of(composed(delta_millis, node_id, sequence)) == node_id,
        sequence_of(composed(delta_millis, node_id, sequence)) == sequence,
        0 <= composed(delta_millis, node_id, sequence) <= i64::MAX,
{
    let id = composed(delta_millis, node_id, sequence);
    let below = node_id * 4096 + sequence;
    let above = delta_millis * 1024 + node_id;
    assert(id == delta_millis * 4194304 + below);
    lemma_fundamental_div_mod_converse(id, 4194304, delta_millis, below);
    assert(id == above * 4096 + sequence);
    lemma_fundamental_div_mod_converse(id, 4096, above, sequence);
    lemma_fundamental_div_mod_converse(above, 1024, delta_millis, node_id);
}

/// The text of an ID validates to the parts that the ID was made of, unless the ID is zero.
pub proof fn law_id_text_validates(delta_millis: int, node_id: int, sequence: int)
    requires
        0 <= delta_millis <= MAX_TIMESTAMP_DELTA,
        0 <= node_id <= MAX_NODE_ID,
        0 <= sequence <= MAX_SEQUENCE,
        composed(delta_millis, node_id, sequence) != 0,
    ensures
        decoded(int_text(composed(delta_millis, node_id, sequence))) == Ok::<
            (int, int, int),
            Seq<char>,
        >((node_id, delta_millis, sequence)),
{
    law_parts_read_back(delta_millis, node_id, sequence);
    law_int_text_reads_back(composed(delta_millis, node_id, sequence) as i64);
}

/// Different integers are written differently.
pub proof fn law_id_texts_are_distinct(a: i64, b: i64)
    requires
        a != b,
    ensures
        int_text(a as int) != int_text(b as int),
{
    law_int_text_reads_back(a);
    law_int_text_reads_back(b);
}

// ---- Histories of requests ----

/// An ID that is answered is the one at the place that the request takes.
proof fn lemma_issued_at_place(
    node_id: u16,
    epoch_millis: u64,
    state: SnowflakeState,
    request: IdRequest,
    id: i64,
)
    requires
        node_id <= MAX_NODE_ID,
        state.valid(),
        answer(node_id, epoch_millis, state, request) == Ok::<i64, SnowflakeIdError>(id),
    ensures
        ({
            let place = state_after(epoch_millis, state, request);
            &&& id == id_at(node_id, epoch_millis, place)
            &&& place == next_place(state, request.now_millis)
            &&& place.valid()
            &&& epoch_millis <= place.last_millis <= epoch_millis + MAX_TIMESTAMP_DELTA
            &&& request.now_millis <= place.last_millis <= request.now_millis + MAX_CLOCK_DRIFT_MS
        }),
{
    let place = next_place(state, request.now_millis);
    law_parts_read_back(
        place.last_millis - epoch_millis,
        node_id as int,
        place.sequence as int,
    );
}

/// An issued ID carries the generator's node and a time that is not before the one asked for, and
/// not more than the drift tolerance after it.
pub proof fn law_issued_id_carries_node_and_time(
    node_id: u16,
    epoch_millis: u64,
    state: SnowflakeState,
    request: IdRequest,
    id: i64,
)
    requires
        node_id <= MAX_NODE_ID,
        state.valid(),
        answer(node_id, epoch_millis, state, request) == Ok::<i64, SnowflakeIdError>(id),
    ensures
        node_of(id as int) == node_id,
        request.now_millis <= epoch_millis + delta_of(id as int)
            <= request.now_millis + MAX_CLOCK_DRIFT_MS,
{
    lemma_issued_at_place(node_id, epoch_millis, state, request, id);
    let place = state_after(epoch_millis, state, request);
    law_parts_read_back(
        place.last_millis - epoch_millis,
        node_id as int,
        place.sequence as int,
    );
}

/// Issued IDs are positive, but for the ID that node 0 gives out first at the epoch itself.
pub proof fn law_issued_ids_are_positive(
    node_id: u16,
    epoch_millis: u64,
    state: SnowflakeState,
    request: IdRequest,
    id: i64,
)
    requires
        node_id <= MAX_NODE_ID,
        state.valid(),
        answer(node_id, epoch_millis, state, request) == Ok::<i64, SnowflakeIdError>(id),
        !(node_id == 0 && next_place(state, request.now_millis) == (SnowflakeState {
            last_millis: epoch_millis,
            sequence: 0,
        })),
    ensures
        id > 0,
{
    lemma_issued_at_place(node_id, epoch_millis, state, request, id);
}

/// The text of every issued ID validates, to the generator's node and the place of the ID, unless
/// the ID is zero.
pub proof fn law_issued_ids_validate(
    node_id: u16,
    epoch_millis: u64,
    state: SnowflakeState,
    request: IdRequest,
    id: i64,
)
    requires
        node_id <= MAX_NODE_ID,
        state.valid(),
        answer(node_id, epoch_millis, state, request) == Ok::<i64, SnowflakeIdError>(id),
        id != 0,
    ensures
        ({
            let place = next_place(state, request.now_millis);
            decoded(int_text(id as int)) == Ok::<
                (int, int, int),
                Seq<char>,
            >((node_id as int, place.last_millis - epoch_millis, place.sequence as int))
        }),
{
    lemma_issued_at_place(node_id, epoch_millis, state, request, id);
    let place = next_place(state, request.now_millis);
    law_id_text_validates(
        place.last_millis - epoch_millis,
        node_id as int,
        place.sequence as int,
    );
}

/// The logical time of a generator never goes back.
pub proof fn law_time_never_goes_back(
    epoch_millis: u64,
    history: Seq<IdRequest>,
    more: Seq<IdRequest>,
)
    ensures
        state_after_all(epoch_millis, history).last_millis
            <= state_after_all(epoch_millis, history + more).last_millis,
    decreases more.len(),
{
    if more.len() == 0 {
        assert(history + more == history);
    } else {
        law_time_never_goes_back(epoch_millis, history, more.drop_last());
        assert((history + more).drop_last() == history + more.drop_last());
    }
}

/// A longer history leads to no smaller ID.
proof fn lemma_places_never_go_back(
    node_id: u16,
    epoch_millis: u64,
    history: Seq<IdRequest>,
    n: int,
)
    requires
        0 <= n <= history.len(),
    ensures
        id_at(
            node_id,
            epoch_millis,
            state_after_all(epoch_millis, history.take(n)),
        ) <= id_at(
            node_id,
            epoch_millis,
            state_after_all(epoch_millis, history),
        ),
    decreases history.len() - n,
{
    if n == history.len() {
        assert(history.take(n) == history);
    } else {
        let shorter = history.drop_last();
        lemma_places_never_go_back(node_id, epoch_millis, shorter, n);
        assert(shorter.take(n) == history.take(n));
        law_reachable_states_are_valid(epoch_millis, shorter);
    }
}

/// Of two requests of one history that are both given an ID, the later one is given the larger ID.
pub proof fn law_ids_increase(
    node_id: u16,
    epoch_millis: u64,
    history: Seq<IdRequest>,
    i: int,
    j: int,
    first: i64,
    second: i64,
)
    requires
        node_id <= MAX_NODE_ID,
        0 <= i < j < history.len(),
        answer_in(node_id, epoch_millis, history, i) == Ok::<i64, SnowflakeIdError>(first),
        answer_in(node_id, epoch_millis, history, j) == Ok::<i64, SnowflakeIdError>(second),
    ensures
        first < second,
{
    let before = state_after_all(epoch_millis, history.take(i));
    let after = state_after_all(epoch_millis, history.take(i + 1));
    let later = state_after_all(epoch_millis, history.take(j));
    assert(history.take(i + 1).drop_last() == history.take(i));
    assert(history.take(j).take(i + 1) == history.take(i + 1));
    law_reachable_states_are_valid(epoch_millis, history.take(i));
    law_reachable_states_are_valid(epoch_millis, history.take(j));
    lemma_issued_at_place(node_id, epoch_millis, before, history[i], first);
    lemma_places_never_go_back(node_id, epoch_millis, history.take(j), i + 1);
    lemma_issued_at_place(node_id, epoch_millis, later, history[j], second);
}

/// No two requests of one history are given the same ID, nor IDs with the same text.
pub proof fn law_ids_are_unique(
    node_id: u16,
    epoch_millis: u64,
    history: Seq<IdRequest>,
    i: int,
    j: int,
    first: i64,
    second: i64,
)
    requires
        node_id <= MAX_NODE_ID,
        0 <= i < history.len(),
        0 <= j < history.len(),
        i != j,
        answer_in(node_id, epoch_millis, history, i) == Ok::<i64, SnowflakeIdError>(first),
        answer_in(node_id, epoch_millis, history, j) == Ok::<i64, SnowflakeIdError>(second),
    ensures
        first != second,
        int_text(first as int) != int_text(second as int),
{
    if i < j {
        law_ids_increase(node_id, epoch_millis, history, i, j, first, second);
    } else {
        law_ids_increase(node_id, epoch_millis, history, j, i, second, first);
    }
    law_id_texts_are_distinct(first, second);
}

/// Generators of different nodes never give out the same ID, whatever their epochs, states and
/// clocks.
pub proof fn law_nodes_never_collide(
    node_a: u16,
    epoch_a: u64,
    state_a: SnowflakeState,
    request_a: IdRequest,
    a: i64,
    node_b: u16,
    epoch_b: u64,
    state_b: SnowflakeState,
    request_b: IdRequest,
    b: i64,
)
    requires
        node_a <= MAX_NODE_ID,
        node_b <= MAX_NODE_ID,
        node_a != node_b,
        state_a.valid(),
        state_b.valid(),
        answer(node_a, epoch_a, state_a, request_a) == Ok::<i64, SnowflakeIdError>(a),
        answer(node_b, epoch_b, state_b, request_b) == Ok::<i64, SnowflakeIdError>(b),
    ensures
        a != b,
{
    law_issued_id_carries_node_and_time(node_a, epoch_a, state_a, request_a, a);
    law_issued_id_carries_node_and_time(node_b, epoch_b, state_b, request_b, b);
}

/// A refused request changes nothing, but for one whose timestamp overflows.
pub proof fn law_refusal_changes_nothing(
    node_id: u16,
    epoch_millis: u64,
    state: SnowflakeState,
    request: IdRequest,
)
    requires
        answer(node_id, epoch_millis, state, request) is Err,
        !(answer(node_id, epoch_millis, state, request)->Err_0
            is TimestampOverflow),
    ensures
        state_after(epoch_millis, state, request) == state,
{
}

/// A request is never answered with an error that is not about requests: the node was checked
/// before, the clock was read before, and no request leaves the state broken.
pub proof fn law_answers_blame_only_the_request(
    node_id: u16,
    epoch_millis: u64,
    state: SnowflakeState,
    request: IdRequest,
)
    requires
        answer(node_id, epoch_millis, state, request) is Err,
    ensures
        ({
            let e = answer(node_id, epoch_millis, state, request)->Err_0;
            !(e is InvalidNodeId) && !(e is SystemTime) && !(e is StatePoisoned)
        }),
{
}

/// A clock that went back within the tolerance is pinned: the next ID keeps the last millisecond
/// and takes its next sequence number, as long as there is one.
pub proof fn law_small_rollback_is_pinned(
    node_id: u16,
    epoch_millis: u64,
    state: SnowflakeState,
    now_millis: u64,
)
    requires
        node_id <= MAX_NODE_ID,
        epoch_millis <= now_millis <= state.last_millis,
        state.last_millis <= now_millis + MAX_CLOCK_DRIFT_MS,
        state.last_millis <= epoch_millis + MAX_TIMESTAMP_DELTA,
        state.sequence < MAX_SEQUENCE,
    ensures
        outcome(node_id, epoch_millis, state, now_millis) == Ok::<
            i64,
            SnowflakeIdError,
        >(
            composed(
                state.last_millis - epoch_millis,
                node_id as int,
                state.sequence + 1,
            ) as i64,
        ),
        place_after(epoch_millis, state, now_millis) == (SnowflakeState {
            last_millis: state.last_millis,
            sequence: (state.sequence + 1) as u16,
        }),
{
}

/// A clock that went back by more than the tolerance is refused.
pub proof fn law_large_rollback_is_refused(
    node_id: u16,
    epoch_millis: u64,
    state: SnowflakeState,
    now_millis: u64,
)
    requires
        epoch_millis <= now_millis,
        now_millis + MAX_CLOCK_DRIFT_MS < state.last_millis,
    ensures
        outcome(node_id, epoch_millis, state, now_millis) == Err::<
            i64,
            SnowflakeIdError,
        >(SnowflakeIdError::ClockMovedBackwards { last_millis: state.last_millis, now_millis }),
        place_after(epoch_millis, state, now_millis) == state,
{
}

/// A history, then the same request `n` times.
pub open spec fn burst(history: Seq<IdRequest>, request: IdRequest, n: nat) -> Seq<IdRequest> {
    history + Seq::new(n, |i: int| request)
}

proof fn lemma_burst_state(
    epoch_millis: u64,
    history: Seq<IdRequest>,
    request: IdRequest,
    n: nat,
)
    requires
        request.permit is None,
        epoch_millis <= request.now_millis,
        state_after_all(epoch_millis, history).last_millis < request.now_millis,
        n > 0,
    ensures
        state_after_all(epoch_millis, burst(history, request, n)) == (
        SnowflakeState {
            last_millis: request.now_millis,
            sequence: (if n > MAX_SEQUENCE {
                MAX_SEQUENCE as int
            } else {
                n - 1
            }) as u16,
        }),
    decreases n,
{
    let shorter = burst(history, request, (n - 1) as nat);
    assert(burst(history, request, n).drop_last() == shorter);
    assert(burst(history, request, n).last() == request);
    if n == 1 {
        assert(shorter == history);
    } else {
        lemma_burst_state(epoch_millis, history, request, (n - 1) as nat);
    }
}

/// A millisecond holds 4096 IDs: after any history, as many requests at one later time are given
/// an ID each, with the sequence numbers in order, and those after them are told that the
/// millisecond is full.
pub proof fn law_millisecond_holds_every_sequence(
    node_id: u16,
    epoch_millis: u64,
    history: Seq<IdRequest>,
    request: IdRequest,
    n: nat,
)
    requires
        node_id <= MAX_NODE_ID,
        request.permit is None,
        epoch_millis <= request.now_millis <= epoch_millis + MAX_TIMESTAMP_DELTA,
        state_after_all(epoch_millis, history).last_millis < request.now_millis,
    ensures
        answer(
            node_id,
            epoch_millis,
            state_after_all(epoch_millis, burst(history, request, n)),
            request,
        ) == if n < 4096 {
            Ok::<i64, SnowflakeIdError>(
                composed(
                    request.now_millis - epoch_millis,
                    node_id as int,
                    n as int,
                ) as i64,
            )
        } else {
            Err(SnowflakeIdError::SequenceExhausted { millis: request.now_millis })
        },
{
    if n == 0 {
        assert(burst(history, request, n) == history);
    } else {
        lemma_burst_state(epoch_millis, history, request, n);
    }
}

/// Every ID that a generator can answer with carries its node and a time within the tolerance of
/// the one asked for.
pub proof fn law_generator_answers_carry_node_and_time(
    generator: SnowflakeIdGenerator,
    now_millis: u64,
    wall_clock_millis: u64,
    id: i64,
)
    requires
        generator.node() <= MAX_NODE_ID,
        generator.can_answer(now_millis, wall_clock_millis, Ok(id)),
    ensures
        id >= 0,
        node_of(id as int) == generator.node(),
        now_millis <= generator.epoch() + delta_of(id as int) <= now_millis
            + MAX_CLOCK_DRIFT_MS,
{
    let permit = choose|permit: Option<bool>| #[trigger]
        generator.can_permit(wall_clock_millis, permit) && generator.can_answer_request(
            IdRequest { permit, now_millis, wall_clock_millis },
            Ok(id),
        );
    let request = IdRequest { permit, now_millis, wall_clock_millis };
    let history = choose|history: Seq<IdRequest>| #[trigger]
        generator.shared_state().can_find(history) && generator.shared_state().can_find(
            history.push(request),
        ) && generator.answers_after(history, request, Ok(id));
    let state = state_after_all(generator.epoch(), history);
    law_reachable_states_are_valid(generator.epoch(), history);
    lemma_issued_at_place(generator.node(), generator.epoch(), state, request, id);
    law_issued_id_carries_node_and_time(generator.node(), generator.epoch(), state, request, id);
}

// ---- Calls on generators that share a state ----

/// A call that finds what another one left goes on from the state that the other one made.
pub proof fn law_next_call_goes_on(
    generator: SnowflakeIdGenerator,
    history: Seq<IdRequest>,
    request: IdRequest,
    next_request: IdRequest,
    r: Result<i64, SnowflakeIdError>,
)
    requires
        generator.answers_after(history.push(request), next_request, r),
    ensures
        r == answer(
            generator.node(),
            generator.epoch(),
            state_after(
                generator.epoch(),
                state_after_all(generator.epoch(), history),
                request,
            ),
            next_request,
        ),
{
    assert(history.push(request).drop_last() == history);
}

/// Whether a call with `request`, which found `history`, came before one that found
/// `later_history`: what it left is the beginning of what the later call found.
pub open spec fn comes_before(
    history: Seq<IdRequest>,
    request: IdRequest,
    later_history: Seq<IdRequest>,
) -> bool {
    history.push(request).is_prefix_of(later_history)
}

/// The IDs that a generator and its clones hand out increase from call to call, whatever the
/// times asked for and whatever was refused in between.
pub proof fn law_calls_increase(
    generator: SnowflakeIdGenerator,
    other: SnowflakeIdGenerator,
    history: Seq<IdRequest>,
    request: IdRequest,
    first: i64,
    later_history: Seq<IdRequest>,
    later_request: IdRequest,
    second: i64,
)
    requires
        generator.node() <= MAX_NODE_ID,
        other.node() == generator.node(),
        other.epoch() == generator.epoch(),
        comes_before(history, request, later_history),
        generator.answers_after(history, request, Ok(first)),
        other.answers_after(later_history, later_request, Ok(second)),
    ensures
        0 <= first < second,
{
    let all = later_history.push(later_request);
    let i = history.len() as int;
    let j = later_history.len() as int;
    assert(history.push(request)[i] == later_history[i]);
    assert(all.take(i) == history) by {
        assert forall|k: int| 0 <= k < i implies all[k] == history[k] by {
            assert(history.push(request)[k] == later_history[k]);
        }
    }
    assert(all.take(j) == later_history);
    law_ids_increase(generator.node(), generator.epoch(), all, i, j, first, second);
    law_reachable_states_are_valid(generator.epoch(), history);
    lemma_issued_at_place(
        generator.node(),
        generator.epoch(),
        state_after_all(generator.epoch(), history),
        request,
        first,
    );
}

/// Without a lease guard, the answers depend on node, epoch and the times asked for alone: two
/// fresh generators that are asked for the same times answer alike, whatever their wall clocks
/// show.
pub proof fn law_fresh_generators_answer_alike(
    a: SnowflakeIdGenerator,
    b: SnowflakeIdGenerator,
    requests_a: Seq<IdRequest>,
    requests_b: Seq<IdRequest>,
    i: int,
)
    requires
        a.node() == b.node(),
        a.epoch() == b.epoch(),
        requests_a.len() == requests_b.len(),
        forall|k: int|
            #![trigger requests_a[k]]
            #![trigger requests_b[k]]
            0 <= k < requests_a.len() ==> requests_a[k].permit is None
                && requests_b[k].permit is None && requests_a[k].now_millis
                == requests_b[k].now_millis,
        0 <= i < requests_a.len(),
    ensures
        answer_in(a.node(), a.epoch(), requests_a, i) == answer_in(
            b.node(),
            b.epoch(),
            requests_b,
            i,
        ),
{
    lemma_same_times_same_state(a.epoch(), requests_a.take(i), requests_b.take(i));
    assert(requests_a[i].now_millis == requests_b[i].now_millis);
}

proof fn lemma_same_times_same_state(epoch_millis: u64, a: Seq<IdRequest>, b: Seq<IdRequest>)
    requires
        a.len() == b.len(),
        forall|k: int|
            #![trigger a[k]]
            #![trigger b[k]]
            0 <= k < a.len() ==> a[k].permit is None && b[k].permit is None && a[k].now_millis
                == b[k].now_millis,
    ensures
        state_after_all(epoch_millis, a) == state_after_all(epoch_millis, b),
    decreases a.len(),
{
    if a.len() > 0 {
        lemma_same_times_same_state(epoch_millis, a.drop_last(), b.drop_last());
        assert(a.last().now_millis == b.last().now_millis);
    }
}

/// A request that the lease refuses leaves no trace: every later call, on the generator or on any
/// that shares its state, answers as if it had never been made.
pub proof fn law_refused_request_leaves_no_trace(
    generator: SnowflakeIdGenerator,
    before: Seq<IdRequest>,
    refused: IdRequest,
    after: Seq<IdRequest>,
    request: IdRequest,
    r: Result<i64, SnowflakeIdError>,
)
    requires
        lease_refusal(refused) is Some,
    ensures
        generator.answers_after(before.push(refused) + after, request, r)
            == generator.answers_after(before + after, request, r),
{
    lemma_refused_request_is_skipped(generator.epoch(), before, refused, after);
}

proof fn lemma_refused_request_is_skipped(
    epoch_millis: u64,
    before: Seq<IdRequest>,
    refused: IdRequest,
    after: Seq<IdRequest>,
)
    requires
        lease_refusal(refused) is Some,
    ensures
        state_after_all(epoch_millis, before.push(refused) + after) == state_after_all(
            epoch_millis,
            before + after,
        ),
    decreases after.len(),
{
    if after.len() == 0 {
        assert(before.push(refused) + after == before.push(refused));
        assert(before.push(refused).drop_last() == before);
        assert(before + after == before);
    } else {
        lemma_refused_request_is_skipped(epoch_millis, before, refused, after.drop_last());
        assert((before.push(refused) + after).drop_last() == before.push(refused)
            + after.drop_last());
        assert((before + after).drop_last() == before + after.drop_last());
    }
}

// ---- Leases ----

/// Fencing is permanent: whatever happens to a fenced lease, it allows nothing at any time.
pub proof fn law_fence_is_permanent(
    terms: LeaseTerms,
    events: Seq<LeaseEvent>,
    wall: u64,
    monotonic: u64,
)
    ensures
        !terms_after_all(terms.withdrawn(), events).available,
        !terms_after_all(terms.withdrawn(), events).allow(wall, monotonic),
    decreases events.len(),
{
    if events.len() > 0 {
        law_fence_is_permanent(terms, events.drop_last(), wall, monotonic);
    }
}

/// Only a fence makes a lease unavailable: renewals leave it as it was.
pub proof fn law_only_a_fence_withdraws(terms: LeaseTerms, events: Seq<LeaseEvent>)
    requires
        forall|i: int| 0 <= i < events.len() ==> !(#[trigger] events[i] is Fence),
    ensures
        terms_after_all(terms, events).available == terms.available,
    decreases events.len(),
{
    if events.len() > 0 {
        law_only_a_fence_withdraws(terms, events.drop_last());
        assert(!(events[events.len() - 1] is Fence));
    }
}

/// Events add up: those of a longer series act on the terms that its beginning leads to.
proof fn lemma_terms_add_up(terms: LeaseTerms, events: Seq<LeaseEvent>, later: Seq<LeaseEvent>)
    ensures
        terms_after_all(terms, events + later) == terms_after_all(
            terms_after_all(terms, events),
            later,
        ),
    decreases later.len(),
{
    if later.len() == 0 {
        assert(events + later == events);
    } else {
        lemma_terms_add_up(terms, events, later.drop_last());
        assert((events + later).drop_last() == events + later.drop_last());
    }
}

/// Whether a series of events holds a fence.
pub open spec fn is_fenced(events: Seq<LeaseEvent>) -> bool {
    exists|i: int| 0 <= i < events.len() && #[trigger] events[i] is Fence
}

/// A guard is available as long as none of its events is a fence, and not from then on.
pub proof fn law_guard_is_available_until_fenced(
    guard: SnowflakeLeaseGuard,
    events: Seq<LeaseEvent>,
)
    requires
        guard.can_find(events),
    ensures
        guard.terms_by(events).available == !is_fenced(events),
{
    guard.law_found_events_went_by_the_clocks(events);
    if is_fenced(events) {
        let i = choose|i: int| 0 <= i < events.len() && #[trigger] events[i] is Fence;
        let before = guard.terms_by(events.take(i));
        let after = events.skip(i + 1);
        assert(events == events.take(i + 1) + after);
        assert(events.take(i + 1).drop_last() == events.take(i));
        lemma_terms_add_up(guard.first_terms(), events.take(i + 1), after);
        law_fence_is_permanent(before, after, 0, 0);
    } else {
        law_only_a_fence_withdraws(guard.first_terms(), events);
    }
}

/// A fenced guard allows nothing, whatever happened to it before and after the fence and whatever
/// the clocks show, and a generator that looks at it makes no ID.
pub proof fn law_fenced_guard_stops_generators(
    guard: SnowflakeLeaseGuard,
    events: Seq<LeaseEvent>,
    generator: SnowflakeIdGenerator,
    history: Seq<IdRequest>,
    now_millis: u64,
    wall_clock_millis: u64,
    monotonic: u64,
    r: Result<i64, SnowflakeIdError>,
)
    requires
        guard.can_find(events),
        is_fenced(events),
        generator.answers_after(
            history,
            (IdRequest {
                permit: Some(guard.terms_by(events).allow(wall_clock_millis, monotonic)),
                now_millis,
                wall_clock_millis,
            }),
            r,
        ),
    ensures
        !guard.terms_by(events).allow(wall_clock_millis, monotonic),
        r == Err::<i64, SnowflakeIdError>(SnowflakeIdError::LeaseUnavailable),
{
    law_guard_is_available_until_fenced(guard, events);
}

/// The deadlines are the ones that were set last: what happened before the last renewal does not
/// count, and a fence moves none of them.
pub proof fn law_last_renewal_sets_the_deadlines(
    terms: LeaseTerms,
    before: Seq<LeaseEvent>,
    renewal: LeaseEvent,
    after: Seq<LeaseEvent>,
)
    requires
        renewal is RenewUntil || renewal is RenewFor,
        forall|i: int| 0 <= i < after.len() ==> #[trigger] after[i] is Fence,
    ensures
        ({
            let found = terms_after_all(terms, before.push(renewal) + after);
            let set = terms_after(terms, renewal);
            &&& found.valid_until_millis == set.valid_until_millis
            &&& found.valid_until_monotonic_millis == set.valid_until_monotonic_millis
        }),
    decreases after.len(),
{
    if after.len() == 0 {
        assert(before.push(renewal) + after == before.push(renewal));
        assert(before.push(renewal).drop_last() == before);
    } else {
        law_last_renewal_sets_the_deadlines(terms, before, renewal, after.drop_last());
        assert((before.push(renewal) + after).drop_last() == before.push(renewal)
            + after.drop_last());
        assert(after[after.len() - 1] is Fence);
    }
}

/// A guard that was renewed until a time, and not changed since, is available unless it was fenced
/// before, and allows an ID as long as neither that time nor what was left until it has passed. The
/// earlier deadlines do not count, be they later or not.
pub proof fn law_guard_answers_by_renewal_until(
    guard: SnowflakeLeaseGuard,
    events: Seq<LeaseEvent>,
    valid_until_millis: u64,
    wall: u64,
    monotonic: u64,
    now_millis: u64,
    now_monotonic: u64,
)
    requires
        guard.can_find(
            events.push(LeaseEvent::RenewUntil { valid_until_millis, wall, monotonic }),
        ),
    ensures
        ({
            let found = guard.terms_by(
                events.push(LeaseEvent::RenewUntil { valid_until_millis, wall, monotonic }),
            );
            &&& found.available == !is_fenced(events)
            &&& found.allow(now_millis, now_monotonic) == (!is_fenced(events) && now_millis
                < valid_until_millis && now_monotonic < deadline_after(
                monotonic,
                remaining(valid_until_millis, wall),
            ))
        }),
{
    let event = LeaseEvent::RenewUntil { valid_until_millis, wall, monotonic };
    lemma_guard_after_event(guard, events, event);
}

/// A guard that was renewed for a time, and not changed since, is available unless it was fenced
/// before, and allows an ID as long as that time has passed on neither clock. A renewal for no time
/// leaves no moment at which it allows one.
pub proof fn law_guard_answers_by_renewal_for(
    guard: SnowflakeLeaseGuard,
    events: Seq<LeaseEvent>,
    ttl_millis: u64,
    wall: u64,
    monotonic: u64,
    now_millis: u64,
    now_monotonic: u64,
)
    requires
        guard.can_find(events.push(LeaseEvent::RenewFor { ttl_millis, wall, monotonic })),
    ensures
        ({
            let found = guard.terms_by(
                events.push(LeaseEvent::RenewFor { ttl_millis, wall, monotonic }),
            );
            &&& found.available == !is_fenced(events)
            &&& found.allow(now_millis, now_monotonic) == (!is_fenced(events) && now_millis
                < deadline_after(wall, ttl_millis) && now_monotonic < deadline_after(
                monotonic,
                ttl_millis,
            ))
            &&& ttl_millis == 0 && monotonic <= now_monotonic ==> !found.allow(
                now_millis,
                now_monotonic,
            )
        }),
{
    let event = LeaseEvent::RenewFor { ttl_millis, wall, monotonic };
    lemma_guard_after_event(guard, events, event);
}

/// A guard whose monotonic deadline was set, and which was not changed since, refuses once that
/// deadline has come, however far ahead the other one lies.
pub proof fn law_guard_refuses_at_monotonic_deadline(
    guard: SnowflakeLeaseGuard,
    events: Seq<LeaseEvent>,
    valid_until_monotonic_millis: u64,
    now_millis: u64,
    now_monotonic: u64,
)
    requires
        valid_until_monotonic_millis <= now_monotonic,
    ensures
        !guard.terms_by(
            events.push(LeaseEvent::SetMonotonicDeadline { valid_until_monotonic_millis }),
        ).allow(now_millis, now_monotonic),
{
    let event = LeaseEvent::SetMonotonicDeadline { valid_until_monotonic_millis };
    assert(events.push(event).drop_last() == events);
}

/// What an event other than a fence leaves of a guard's availability.
proof fn lemma_guard_after_event(
    guard: SnowflakeLeaseGuard,
    events: Seq<LeaseEvent>,
    event: LeaseEvent,
)
    requires
        guard.can_find(events.push(event)),
        !(event is Fence),
    ensures
        guard.terms_by(events.push(event)) == terms_after(guard.terms_by(events), event),
        guard.terms_by(events.push(event)).available == !is_fenced(events),
{
    assert(events.push(event).drop_last() == events);
    law_guard_is_available_until_fenced(guard, events.push(event));
    if is_fenced(events) {
        let i = choose|i: int| 0 <= i < events.len() && #[trigger] events[i] is Fence;
        assert(events.push(event)[i] is Fence);
    }
    if is_fenced(events.push(event)) {
        let i = choose|i: int|
            0 <= i < events.len() + 1 && #[trigger] events.push(event)[i] is Fence;
        assert(events[i] is Fence);
    }
}

/// A new guard is available, and until it is renewed or fenced it allows an ID as long as neither
/// the time that it was given nor what was left until then has passed. Where nothing was left, or
/// the wall clock could not be read, it allows nothing from the start.
pub proof fn law_new_guard_stands_until_its_deadlines(
    guard: SnowflakeLeaseGuard,
    valid_until_millis: u64,
    wall: u64,
    monotonic: u64,
    now_millis: u64,
    now_monotonic: u64,
)
    requires
        guard.first_terms() == LeaseTerms::granted(valid_until_millis, wall, monotonic),
        monotonic <= now_monotonic,
    ensures
        ({
            let found = guard.terms_by(Seq::empty());
            &&& found.available
            &&& found.allow(now_millis, now_monotonic) == (now_millis < valid_until_millis
                && now_monotonic < deadline_after(monotonic, remaining(valid_until_millis, wall)))
            &&& valid_until_millis <= wall || wall == u64::MAX ==> !found.allow(
                now_millis,
                now_monotonic,
            )
        }),
{
}

/// A lease that does not allow an ID keeps the generator from making one, and from moving.
pub proof fn law_disallowed_request_is_refused(
    node_id: u16,
    epoch_millis: u64,
    state: SnowflakeState,
    terms: LeaseTerms,
    monotonic: u64,
    now_millis: u64,
    wall_clock_millis: u64,
)
    requires
        !terms.allow(wall_clock_millis, monotonic),
    ensures
        ({
            let request = IdRequest {
                permit: Some(terms.allow(wall_clock_millis, monotonic)),
                now_millis,
                wall_clock_millis,
            };
            &&& answer(node_id, epoch_millis, state, request) == Err::<
                i64,
                SnowflakeIdError,
            >(SnowflakeIdError::LeaseUnavailable)
            &&& state_after(epoch_millis, state, request) == state
        }),
{
}

/// A leased generator makes no ID for a time that lies further from the wall clock than the drift
/// tolerance.
pub proof fn law_leased_time_stays_near_wall_clock(
    node_id: u16,
    epoch_millis: u64,
    state: SnowflakeState,
    request: IdRequest,
)
    requires
        request.permit is Some,
        answer(node_id, epoch_millis, state, request) is Ok,
    ensures
        request.permit == Some(true),
        request.wall_clock_millis <= request.now_millis + MAX_CLOCK_DRIFT_MS,
        request.now_millis <= request.wall_clock_millis + MAX_CLOCK_DRIFT_MS,
{
}

/// Both deadlines bind: once either has come, nothing is allowed.
pub proof fn law_both_deadlines_bind(terms: LeaseTerms, wall: u64, monotonic: u64)
    requires
        wall >= terms.valid_until_millis || monotonic >= terms.valid_until_monotonic_millis,
    ensures
        !terms.allow(wall, monotonic),
{
}

/// Setting the wall clock back does not prolong a lease that was renewed for a time: once that
/// time has passed on the monotonic clock, nothing is allowed, whatever the wall clock shows and
/// showed.
pub proof fn law_wall_clock_rollback_prolongs_nothing(
    terms: LeaseTerms,
    ttl_millis: u64,
    wall_at_renewal: u64,
    monotonic_at_renewal: u64,
    wall: u64,
    monotonic: u64,
)
    requires
        monotonic >= monotonic_at_renewal + ttl_millis,
    ensures
        !terms.extended_for(ttl_millis, wall_at_renewal, monotonic_at_renewal).allow(
            wall,
            monotonic,
        ),
{
}

// ---- UUIDs ----

proof fn lemma_hex_text_is_injective(a: Seq<u8>, b: Seq<u8>)
    requires
        a.len() == b.len(),
        hex_text(a) == hex_text(b),
    ensures
        a == b,
{
    assert forall|i: int| 0 <= i < a.len() implies a[i] == b[i] by {
        let high = hex_text(a)[2 * i];
        let low = hex_text(a)[2 * i + 1];
        assert(high == hex_char(a[i] as int / 16));
        assert(low == hex_char(a[i] as int % 16));
        assert(high == hex_text(b)[2 * i]);
        assert(low == hex_text(b)[2 * i + 1]);
        assert(high == hex_char(b[i] as int / 16));
        assert(low == hex_char(b[i] as int % 16));
    }
}

/// Different UUIDs are written differently, each in 36 characters.
pub proof fn law_uuid_texts_are_distinct(a: Seq<u8>, b: Seq<u8>)
    requires
        a.len() == 16,
        b.len() == 16,
        a != b,
    ensures
        hyphenated(a).len() == 36,
        hyphenated(a) != hyphenated(b),
{
    let s = hyphenated(a);
    let t = hyphenated(b);
    if s == t {
        assert(s.subrange(0, 8) == hex_text(a.subrange(0, 4)));
        assert(t.subrange(0, 8) == hex_text(b.subrange(0, 4)));
        assert(s.subrange(9, 13) == hex_text(a.subrange(4, 6)));
        assert(t.subrange(9, 13) == hex_text(b.subrange(4, 6)));
        assert(s.subrange(14, 18) == hex_text(a.subrange(6, 8)));
        assert(t.subrange(14, 18) == hex_text(b.subrange(6, 8)));
        assert(s.subrange(19, 23) == hex_text(a.subrange(8, 10)));
        assert(t.subrange(19, 23) == hex_text(b.subrange(8, 10)));
        assert(s.subrange(24, 36) == hex_text(a.subrange(10, 16)));
        assert(t.subrange(24, 36) == hex_text(b.subrange(10, 16)));
        lemma_hex_text_is_injective(a.subrange(0, 4), b.subrange(0, 4));
        lemma_hex_text_is_injective(a.subrange(4, 6), b.subrange(4, 6));
        lemma_hex_text_is_injective(a.subrange(6, 8), b.subrange(6, 8));
        lemma_hex_text_is_injective(a.subrange(8, 10), b.subrange(8, 10));
        lemma_hex_text_is_injective(a.subrange(10, 16), b.subrange(10, 16));
        assert forall|i: int| 0 <= i < 16 implies a[i] == b[i] by {
            if i < 4 {
                assert(a.subrange(0, 4)[i] == b.subrange(0, 4)[i]);
            } else if i < 6 {
                assert(a.subrange(4, 6)[i - 4] == b.subrange(4, 6)[i - 4]);
            } else if i < 8 {
                assert(a.subrange(6, 8)[i - 6] == b.subrange(6, 8)[i - 6]);
            } else if i < 10 {
                assert(a.subrange(8, 10)[i - 8] == b.subrange(8, 10)[i - 8]);
            } else {
                assert(a.subrange(10, 16)[i - 10] == b.subrange(10, 16)[i - 10]);
            }
        }
        assert(a == b);
    }
}

} // verus!
