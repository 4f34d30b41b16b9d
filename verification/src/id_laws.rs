//! What holds of Snowflake IDs in plain arithmetic: of their parts, of single requests, of requests
//! that follow one another, of batches.

use crate::clock::{duration_millis, is_wall_clock_reading, since_epoch};
use crate::decimal::{int_text, int_value, law_int_text_reads_back};
use crate::error::IdGenError;
use crate::generator::{batch_came_of, issue_of, IdGenerator};
use crate::laws::{comes_before, law_calls_increase, law_id_texts_are_distinct};
use crate::layout::{composed, delta_of, node_of, sequence_of};
use crate::snowflake::SnowflakeIdGenerator;
use crate::snowflake_error::SnowflakeIdError;
use crate::state::{
    answer, law_reachable_states_are_valid, lease_refusal, outcome, place_after, state_after,
    state_after_all, IdRequest, SnowflakeState,
};
use std::time::SystemTime;
use vstd::prelude::*;

verus! {

// ---- Parts ----

/// An ID counts up by one with its sequence number, by 4096 with its node, and by 4096 times 1024
/// with its millisecond, from zero on.
pub proof fn law_ids_count_by_their_parts(delta: int, node: int, sequence: int)
    ensures
        composed(0, 0, 0) == 0,
        composed(delta, node, sequence + 1) == composed(delta, node, sequence) + 1,
        composed(delta, node + 1, sequence) == composed(delta, node, sequence) + 4096,
        composed(delta + 1, node, sequence) == composed(delta, node, sequence) + 4096 * 1024,
{
}

/// Every ID that is not negative is the sum of its parts, and no part spills into the next one: the
/// sequence number has 12 bits, the node 10, the millisecond the 41 above them.
pub proof fn law_ids_are_the_sum_of_their_parts(id: i64)
    requires
        id >= 0,
    ensures
        id == delta_of(id as int) * 4_194_304 + node_of(id as int) * 4096 + sequence_of(id as int),
        0 <= sequence_of(id as int) < 4096,
        0 <= node_of(id as int) < 1024,
        0 <= delta_of(id as int) < 2_199_023_255_552,
{
    let above = id as int / 4096;
    vstd::arithmetic::div_mod::lemma_fundamental_div_mod(id as int, 4096);
    vstd::arithmetic::div_mod::lemma_fundamental_div_mod(above, 1024);
    vstd::arithmetic::div_mod::lemma_div_denominator(id as int, 4096, 1024);
}

// ---- Single requests ----

/// What a request at a time comes to on a state, in every case:
/// - before the epoch, and more than 100 milliseconds before the last ID, it is refused;
/// - at the time of the last ID or up to 100 milliseconds before it, it takes the next sequence
///   number of the last millisecond, and is refused once 4096 are taken;
/// - later, it starts the millisecond that it asks for;
/// - what lies 2^41 milliseconds or more after the epoch is refused too, but takes its place.
pub proof fn law_every_request_is_answered(
    node_id: u16,
    epoch_millis: u64,
    state: SnowflakeState,
    now_millis: u64,
)
    requires
        node_id <= 1023,
        state.sequence <= 4095,
    ensures
        ({
            let r = outcome(node_id, epoch_millis, state, now_millis);
            let after = place_after(epoch_millis, state, now_millis);
            if now_millis < epoch_millis {
                &&& r == Err::<i64, SnowflakeIdError>(
                    SnowflakeIdError::ClockBeforeEpoch { now_millis, epoch_millis },
                )
                &&& after == state
            } else if state.last_millis > now_millis + 100 {
                &&& r == Err::<i64, SnowflakeIdError>(
                    SnowflakeIdError::ClockMovedBackwards {
                        last_millis: state.last_millis,
                        now_millis,
                    },
                )
                &&& after == state
            } else if now_millis <= state.last_millis && state.sequence == 4095 {
                &&& r == Err::<i64, SnowflakeIdError>(
                    SnowflakeIdError::SequenceExhausted { millis: state.last_millis },
                )
                &&& after == state
            } else {
                let millis: int = if now_millis <= state.last_millis {
                    state.last_millis as int
                } else {
                    now_millis as int
                };
                let sequence: int = if now_millis <= state.last_millis {
                    state.sequence + 1
                } else {
                    0
                };
                &&& after.last_millis == millis
                &&& after.sequence == sequence
                &&& millis - epoch_millis < 2_199_023_255_552 ==> (r matches Ok(id) && id == (millis
                    - epoch_millis) * 4_194_304 + node_id * 4096 + sequence)
                &&& millis - epoch_millis >= 2_199_023_255_552 ==> r == Err::<
                    i64,
                    SnowflakeIdError,
                >(
                    SnowflakeIdError::TimestampOverflow {
                        delta_millis: (millis - epoch_millis) as u64,
                        max_delta_millis: 2_199_023_255_551,
                    },
                )
            }
        }),
{
}

/// When the lease lets a request through: without a guard always; with one, if it allows the
/// request and the time asked for lies within 100 milliseconds of the wall clock.
pub proof fn law_lease_lets_requests_through(request: IdRequest)
    ensures
        request.permit is None ==> lease_refusal(request) is None,
        request.permit == Some(false) ==> lease_refusal(request) == Some(
            SnowflakeIdError::LeaseUnavailable,
        ),
        request.permit == Some(true) && request.now_millis <= request.wall_clock_millis + 100
            && request.wall_clock_millis <= request.now_millis + 100 ==> lease_refusal(
            request,
        ) is None,
        request.permit == Some(true) && (request.now_millis > request.wall_clock_millis + 100
            || request.wall_clock_millis > request.now_millis + 100) ==> lease_refusal(request)
            == Some(
            SnowflakeIdError::ClockMovedBackwards {
                last_millis: request.wall_clock_millis,
                now_millis: request.now_millis,
            },
        ),
{
}

/// A request that the lease refuses is answered with its refusal and changes nothing; any other is
/// answered by its time.
pub proof fn law_lease_comes_before_the_clock(
    node_id: u16,
    epoch_millis: u64,
    state: SnowflakeState,
    request: IdRequest,
)
    ensures
        match lease_refusal(request) {
            Some(e) => answer(node_id, epoch_millis, state, request) == Err::<
                i64,
                SnowflakeIdError,
            >(e) && state_after(epoch_millis, state, request) == state,
            None => answer(node_id, epoch_millis, state, request) == outcome(
                node_id,
                epoch_millis,
                state,
                request.now_millis,
            ) && state_after(epoch_millis, state, request) == place_after(
                epoch_millis,
                state,
                request.now_millis,
            ),
        },
{
}

/// Requests act one after the other, from time zero on.
pub proof fn law_requests_act_in_order(
    epoch_millis: u64,
    history: Seq<IdRequest>,
    request: IdRequest,
)
    ensures
        state_after_all(epoch_millis, Seq::empty()).last_millis == 0,
        state_after_all(epoch_millis, Seq::empty()).sequence == 0,
        state_after_all(epoch_millis, history.push(request)) == state_after(
            epoch_millis,
            state_after_all(epoch_millis, history),
            request,
        ),
{
    assert(history.push(request).drop_last() == history);
}

/// The first ID of a fresh generator is the first of the millisecond asked for.
pub proof fn law_first_id_starts_its_millisecond(
    generator: SnowflakeIdGenerator,
    request: IdRequest,
    r: Result<i64, SnowflakeIdError>,
)
    requires
        generator.node() <= 1023,
        request.permit is None,
        generator.epoch() <= request.now_millis < generator.epoch() + 2_199_023_255_552,
        request.now_millis > 0,
        generator.answers_after(Seq::empty(), request, r),
    ensures
        r matches Ok(id) && id == (request.now_millis - generator.epoch()) * 4_194_304
            + generator.node() * 4096,
{
    law_requests_act_in_order(generator.epoch(), Seq::empty(), request);
    law_every_request_is_answered(
        generator.node(),
        generator.epoch(),
        state_after_all(generator.epoch(), Seq::empty()),
        request.now_millis,
    );
}

// ---- Requests that follow one another ----

/// Of two calls that follow one another, the second at the time of the first ID or up to 100
/// milliseconds before it: the second ID is the first one plus one, as long as the millisecond is
/// not full, and then the second call is told so.
pub proof fn law_next_id_is_one_more(
    generator: SnowflakeIdGenerator,
    other: SnowflakeIdGenerator,
    history: Seq<IdRequest>,
    request: IdRequest,
    first: i64,
    next_request: IdRequest,
    r: Result<i64, SnowflakeIdError>,
)
    requires
        generator.node() <= 1023,
        other.node() == generator.node(),
        other.epoch() == generator.epoch(),
        generator.answers_after(history, request, Ok(first)),
        other.answers_after(history.push(request), next_request, r),
        lease_refusal(next_request) is None,
        generator.epoch() <= next_request.now_millis,
        next_request.now_millis <= generator.epoch() + first / 4_194_304 <= next_request.now_millis
            + 100,
    ensures
        first % 4096 < 4095 ==> (r matches Ok(second) && second == first + 1),
        first % 4096 == 4095 ==> r is Err && r->Err_0 is SequenceExhausted,
{
    let before = state_after_all(generator.epoch(), history);
    let after = state_after_all(generator.epoch(), history.push(request));
    law_reachable_states_are_valid(generator.epoch(), history);
    law_reachable_states_are_valid(generator.epoch(), history.push(request));
    law_requests_act_in_order(generator.epoch(), history, request);
    law_lease_comes_before_the_clock(generator.node(), generator.epoch(), before, request);
    law_lease_comes_before_the_clock(generator.node(), generator.epoch(), after, next_request);
    law_every_request_is_answered(
        generator.node(),
        generator.epoch(),
        before,
        request.now_millis,
    );
    law_every_request_is_answered(
        generator.node(),
        generator.epoch(),
        after,
        next_request.now_millis,
    );
    let delta = after.last_millis - generator.epoch();
    let rest = generator.node() * 4096 + after.sequence;
    assert(first == delta * 4_194_304 + rest);
    vstd::arithmetic::div_mod::lemma_fundamental_div_mod_converse(
        first as int,
        4_194_304,
        delta,
        rest,
    );
    let above = delta * 1024 + generator.node();
    assert(first == above * 4096 + after.sequence);
    vstd::arithmetic::div_mod::lemma_fundamental_div_mod_converse(
        first as int,
        4096,
        above,
        after.sequence as int,
    );
}

/// Of two calls on a generator or its clones, of which the second finds what the first left, with
/// any requests in between, both IDs and their texts differ, and the second ID is the larger one.
pub proof fn law_ids_of_two_calls_differ(
    generator: SnowflakeIdGenerator,
    other: SnowflakeIdGenerator,
    history: Seq<IdRequest>,
    request: IdRequest,
    first: i64,
    between: Seq<IdRequest>,
    later_request: IdRequest,
    second: i64,
)
    requires
        generator.node() <= 1023,
        other.node() == generator.node(),
        other.epoch() == generator.epoch(),
        generator.answers_after(history, request, Ok(first)),
        other.answers_after(history.push(request) + between, later_request, Ok(second)),
    ensures
        0 <= first < second,
        int_text(first as int) != int_text(second as int),
{
    let later = history.push(request) + between;
    assert(history.push(request) == later.subrange(0, history.push(request).len() as int));
    assert(comes_before(history, request, later));
    law_calls_increase(
        generator,
        other,
        history,
        request,
        first,
        later,
        later_request,
        second,
    );
    law_id_texts_are_distinct(first, second);
}

// ---- Answers of generators ----

/// Without a guard, every answer is the one on a history that the generator's ledger came to, and
/// the request was added to it.
pub proof fn law_unleased_answers_come_of_the_ledger(
    generator: SnowflakeIdGenerator,
    now_millis: u64,
    wall_clock_millis: u64,
    r: Result<i64, SnowflakeIdError>,
)
    requires
        generator.lease() is None,
        generator.can_answer(now_millis, wall_clock_millis, r),
    ensures
        exists|history: Seq<IdRequest>| #[trigger]
            generator.shared_state().can_find(history) && generator.shared_state().can_find(
                history.push(IdRequest { permit: None, now_millis, wall_clock_millis }),
            ) && r == outcome(
                generator.node(),
                generator.epoch(),
                state_after_all(generator.epoch(), history),
                now_millis,
            ),
{
}

/// With a guard or without one, every ID is the one on a history that the generator's ledger came
/// to, and its request was added to it.
pub proof fn law_ids_come_of_the_ledger(
    generator: SnowflakeIdGenerator,
    now_millis: u64,
    wall_clock_millis: u64,
    id: i64,
)
    requires
        generator.can_answer(now_millis, wall_clock_millis, Ok(id)),
    ensures
        exists|permit: Option<bool>, history: Seq<IdRequest>|
            #![trigger generator.can_permit(wall_clock_millis, permit),
                generator.shared_state().can_find(history)]
            {
                &&& generator.can_permit(wall_clock_millis, permit)
                &&& generator.shared_state().can_find(history)
                &&& generator.shared_state().can_find(
                    history.push(IdRequest { permit, now_millis, wall_clock_millis }),
                )
                &&& outcome(
                    generator.node(),
                    generator.epoch(),
                    state_after_all(generator.epoch(), history),
                    now_millis,
                ) == Ok::<i64, SnowflakeIdError>(id)
            },
{
    let permit = choose|permit: Option<bool>| #[trigger]
        generator.can_permit(wall_clock_millis, permit) && generator.can_answer_request(
            IdRequest { permit, now_millis, wall_clock_millis },
            Ok(id),
        );
    let request = IdRequest { permit, now_millis, wall_clock_millis };
    let history = choose|history: Seq<IdRequest>| #[trigger]
        generator.shared_state().can_find(history) && generator.shared_state().can_find(
            history.push(request),
        ) && generator.answers_after(history, request, Ok(id));
    assert(generator.can_permit(wall_clock_millis, permit));
    assert(generator.shared_state().can_find(history));
}

/// An ID that is generated carries the time of the wall clock, to within 100 milliseconds, and the
/// generator's node.
pub proof fn law_generated_id_carries_the_wall_clock(generator: SnowflakeIdGenerator, id: i64)
    requires
        generator.node() <= 1023,
        generator.can_generate(Ok(id)),
    ensures
        id >= 0,
        id as int / 4096 % 1024 == generator.node(),
        exists|time: SystemTime|
            {
                &&& #[trigger] since_epoch(time) is Ok
                &&& duration_millis(since_epoch(time)->Ok_0) % 0x1_0000_0000_0000_0000
                    <= generator.epoch() + id as int / 4_194_304 <= duration_millis(
                    since_epoch(time)->Ok_0,
                ) % 0x1_0000_0000_0000_0000 + 100
            },
{
    let reading = choose|reading: Result<u64, SnowflakeIdError>| #[trigger]
        is_wall_clock_reading(reading) && match reading {
            Ok(now_millis) => generator.can_answer(now_millis, now_millis, Ok(id)),
            Err(e) => Ok::<i64, SnowflakeIdError>(id) == Err::<i64, SnowflakeIdError>(e),
        };
    let now_millis = reading->Ok_0;
    crate::laws::law_generator_answers_carry_node_and_time(generator, now_millis, now_millis, id);
    let time = choose|time: SystemTime|
        crate::clock::reads_as(#[trigger] since_epoch(time), reading);
    assert(since_epoch(time) is Ok);
}

/// What the generator issues as text reads as an ID that it generated, and the text of a failure is
/// that of an error that it came to.
pub proof fn law_issued_text_is_an_id(
    generator: SnowflakeIdGenerator,
    text: Seq<char>,
    message: Seq<char>,
)
    ensures
        generator.can_issue(Ok(text)) ==> exists|id: i64| #[trigger]
            generator.can_generate(Ok(id)) && int_value(text) == Some(id as int),
        generator.can_issue(Err(message)) ==> exists|e: SnowflakeIdError| #[trigger]
            generator.can_generate(Err(e)) && message == e.shown(),
{
    if generator.can_issue(Ok(text)) {
        let id = choose|id: i64| #[trigger]
            generator.can_generate(Ok(id)) && text == int_text(id as int);
        law_int_text_reads_back(id);
    }
}

// ---- Batches ----

/// The IDs of a batch are the outcomes of its calls, position by position: two of them are the same
/// only if two calls came to the same.
pub proof fn law_batch_hands_out_each_outcome_once(
    count: usize,
    outcomes: Seq<Result<Seq<char>, Seq<char>>>,
    ids: Vec<String>,
    i: int,
    j: int,
)
    requires
        batch_came_of(count, outcomes, Ok(ids)),
        0 <= i < count,
        0 <= j < count,
    ensures
        outcomes.len() == count,
        ids@.len() == count,
        outcomes[i] is Ok,
        outcomes[i]->Ok_0 == ids@[i]@,
        outcomes[i] != outcomes[j] ==> ids@[i]@ != ids@[j]@,
{
    assert(outcomes[i] == Ok::<Seq<char>, Seq<char>>(ids@[i]@));
    assert(outcomes[j] == Ok::<Seq<char>, Seq<char>>(ids@[j]@));
}

/// What a call came to is the text of its ID or the message of its error.
pub proof fn law_outcomes_are_the_texts_of_calls(id: String, e: IdGenError)
    ensures
        issue_of(Ok(id)) == Ok::<Seq<char>, Seq<char>>(id@),
        issue_of(Err(e)) == Err::<Seq<char>, Seq<char>>(e.message@),
{
}

/// A batch fails with the first failure among its calls, and makes no call after it.
pub proof fn law_batch_ends_with_the_first_failure(
    count: usize,
    outcomes: Seq<Result<Seq<char>, Seq<char>>>,
    e: IdGenError,
    i: int,
)
    requires
        batch_came_of(count, outcomes, Err(e)),
        0 <= i < outcomes.len(),
    ensures
        outcomes.len() <= count,
        outcomes[i] is Err ==> i == outcomes.len() - 1 && outcomes[i]->Err_0 == e.message@,
        outcomes[outcomes.len() - 1] is Err,
{
}

/// A batch of a Snowflake generator holds no ID twice, and its IDs increase: each call finds what
/// the call before it left, with any requests of others in between.
pub proof fn law_batch_of_snowflake_ids_increases(
    generator: SnowflakeIdGenerator,
    count: usize,
    outcomes: Seq<Result<Seq<char>, Seq<char>>>,
    ids: Vec<String>,
    numbers: Seq<i64>,
    histories: Seq<Seq<IdRequest>>,
    requests: Seq<IdRequest>,
    i: int,
    j: int,
)
    requires
        generator.node() <= 1023,
        batch_came_of(count, outcomes, Ok(ids)),
        numbers.len() == count,
        histories.len() == count,
        requests.len() == count,
        forall|k: int|
            0 <= k < count ==> outcomes[k] == Ok::<Seq<char>, Seq<char>>(
                int_text(#[trigger] numbers[k] as int),
            ),
        forall|k: int|
            0 <= k < count ==> generator.answers_after(
                #[trigger] histories[k],
                requests[k],
                Ok(numbers[k]),
            ),
        forall|k: int, l: int|
            0 <= k < l < count ==> comes_before(
                #[trigger] histories[k],
                requests[k],
                #[trigger] histories[l],
            ),
        0 <= i < j < count,
    ensures
        numbers[i] < numbers[j],
        ids@[i]@ != ids@[j]@,
        int_value(ids@[i]@) == Some(numbers[i] as int),
        int_value(ids@[j]@) == Some(numbers[j] as int),
{
    assert(generator.answers_after(histories[i], requests[i], Ok(numbers[i])));
    assert(generator.answers_after(histories[j], requests[j], Ok(numbers[j])));
    law_calls_increase(
        generator,
        generator,
        histories[i],
        requests[i],
        numbers[i],
        histories[j],
        requests[j],
        numbers[j],
    );
    law_id_texts_are_distinct(numbers[i], numbers[j]);
    law_int_text_reads_back(numbers[i]);
    law_int_text_reads_back(numbers[j]);
    assert(outcomes[i] == Ok::<Seq<char>, Seq<char>>(ids@[i]@));
    assert(outcomes[j] == Ok::<Seq<char>, Seq<char>>(ids@[j]@));
}

} // verus!
