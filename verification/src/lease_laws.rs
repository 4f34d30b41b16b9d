//! What holds of leases in plain arithmetic: of their deadlines, of renewals, of what they allow.

use crate::clock::{clamped, duration_millis};
use crate::guard::SnowflakeLeaseGuard;
use crate::lease::{terms_after, terms_after_all, LeaseEvent, LeaseTerms};
use crate::snowflake::SnowflakeIdGenerator;
use crate::snowflake_error::SnowflakeIdError;
use crate::state::IdRequest;
use std::time::Duration;
use vstd::prelude::*;

verus! {

/// The end of time of the clocks.
pub open spec fn end_of_time() -> int {
    18_446_744_073_709_551_615
}

/// Whether `deadline` lies `span` milliseconds after `start`, or at the end of time where that
/// lies beyond it.
pub open spec fn lies_after(deadline: u64, start: int, span: int) -> bool {
    &&& start + span <= end_of_time() ==> deadline == start + span
    &&& start + span > end_of_time() ==> deadline == end_of_time()
}

/// A lease that is given out until a time stands; its first deadline is that time, and its second
/// lies as long after the monotonic reading as that time lay ahead of the wall clock. Where it did
/// not lie ahead, the second deadline has come already.
pub proof fn law_grant_sets_both_deadlines(until: u64, wall: u64, monotonic: u64)
    ensures
        ({
            let terms = LeaseTerms::granted(until, wall, monotonic);
            &&& terms.available
            &&& terms.valid_until_millis == until
            &&& until > wall ==> lies_after(
                terms.valid_until_monotonic_millis,
                monotonic as int,
                until - wall,
            )
            &&& until <= wall ==> terms.valid_until_monotonic_millis == monotonic
        }),
{
}

/// What each event does to a lease: a renewal sets both deadlines, to the time given or to the time
/// span given, counted from the readings that it went by; neither changes whether the lease stands.
/// A fence changes that, and nothing else.
pub proof fn law_events_do_what_they_say(
    terms: LeaseTerms,
    until: u64,
    ttl_millis: u64,
    wall: u64,
    monotonic: u64,
)
    ensures
        ({
            let renewed = terms_after(
                terms,
                LeaseEvent::RenewUntil { valid_until_millis: until, wall, monotonic },
            );
            &&& renewed.available == terms.available
            &&& renewed.valid_until_millis == until
            &&& until > wall ==> lies_after(
                renewed.valid_until_monotonic_millis,
                monotonic as int,
                until - wall,
            )
            &&& until <= wall ==> renewed.valid_until_monotonic_millis == monotonic
        }),
        ({
            let renewed = terms_after(terms, LeaseEvent::RenewFor { ttl_millis, wall, monotonic });
            &&& renewed.available == terms.available
            &&& lies_after(renewed.valid_until_millis, wall as int, ttl_millis as int)
            &&& lies_after(
                renewed.valid_until_monotonic_millis,
                monotonic as int,
                ttl_millis as int,
            )
        }),
        ({
            let limited = terms_after(
                terms,
                LeaseEvent::SetMonotonicDeadline { valid_until_monotonic_millis: until },
            );
            &&& limited.available == terms.available
            &&& limited.valid_until_millis == terms.valid_until_millis
            &&& limited.valid_until_monotonic_millis == until
        }),
        ({
            let fenced = terms_after(terms, LeaseEvent::Fence);
            &&& !fenced.available
            &&& fenced.valid_until_millis == terms.valid_until_millis
            &&& fenced.valid_until_monotonic_millis == terms.valid_until_monotonic_millis
        }),
{
}

/// Events act one after the other: none leaves the terms as they are, and one more acts on what
/// those before it made.
pub proof fn law_events_act_in_order(terms: LeaseTerms, events: Seq<LeaseEvent>, event: LeaseEvent)
    ensures
        terms_after_all(terms, Seq::empty()) == terms,
        terms_after_all(terms, events.push(event)) == terms_after(
            terms_after_all(terms, events),
            event,
        ),
{
    assert(events.push(event).drop_last() == events);
}

/// A lease allows an ID as long as it stands and both deadlines lie ahead of their clocks, and not
/// otherwise.
pub proof fn law_lease_allows_until_its_deadlines(terms: LeaseTerms, wall: u64, monotonic: u64)
    ensures
        terms.available && wall < terms.valid_until_millis && monotonic
            < terms.valid_until_monotonic_millis ==> terms.allow(wall, monotonic),
        !terms.available ==> !terms.allow(wall, monotonic),
        wall >= terms.valid_until_millis ==> !terms.allow(wall, monotonic),
        monotonic >= terms.valid_until_monotonic_millis ==> !terms.allow(wall, monotonic),
{
}

/// Of a duration, all whole milliseconds count, down to the last one, as long as there are fewer
/// than 64 bits can hold.
pub proof fn law_durations_count_in_whole_milliseconds(duration: Duration)
    ensures
        duration_millis(duration) <= end_of_time() ==> clamped(duration) == duration_millis(
            duration,
        ),
        duration_millis(duration) > end_of_time() ==> clamped(duration) == end_of_time(),
{
}

/// A guard that was renewed for a duration has both deadlines exactly that many milliseconds after
/// the readings that the renewal went by, or at the end of time where they would lie beyond it.
pub proof fn law_renewal_for_a_duration_adds_its_milliseconds(
    guard: SnowflakeLeaseGuard,
    events: Seq<LeaseEvent>,
    ttl: Duration,
    wall: u64,
    monotonic: u64,
)
    ensures
        ({
            let found = guard.terms_by(
                events.push(LeaseEvent::RenewFor { ttl_millis: clamped(ttl), wall, monotonic }),
            );
            &&& wall + duration_millis(ttl) <= end_of_time() ==> found.valid_until_millis == wall
                + duration_millis(ttl)
            &&& wall + duration_millis(ttl) > end_of_time() ==> found.valid_until_millis
                == end_of_time()
            &&& monotonic + duration_millis(ttl) <= end_of_time()
                ==> found.valid_until_monotonic_millis == monotonic + duration_millis(ttl)
            &&& monotonic + duration_millis(ttl) > end_of_time()
                ==> found.valid_until_monotonic_millis == end_of_time()
        }),
{
    law_durations_count_in_whole_milliseconds(ttl);
    let event = LeaseEvent::RenewFor { ttl_millis: clamped(ttl), wall, monotonic };
    law_events_act_in_order(guard.first_terms(), events, event);
    law_events_do_what_they_say(guard.terms_by(events), 0, clamped(ttl), wall, monotonic);
}

/// A renewal for a longer duration never sets an earlier deadline, and two renewals for durations
/// that lie apart set deadlines that lie as far apart.
pub proof fn law_longer_renewals_last_longer(
    terms: LeaseTerms,
    short: Duration,
    long: Duration,
    wall: u64,
    monotonic: u64,
)
    requires
        duration_millis(short) <= duration_millis(long),
    ensures
        ({
            let a = terms_after(
                terms,
                LeaseEvent::RenewFor { ttl_millis: clamped(short), wall, monotonic },
            );
            let b = terms_after(
                terms,
                LeaseEvent::RenewFor { ttl_millis: clamped(long), wall, monotonic },
            );
            &&& a.valid_until_millis <= b.valid_until_millis
            &&& a.valid_until_monotonic_millis <= b.valid_until_monotonic_millis
            &&& wall + duration_millis(long) <= end_of_time() ==> b.valid_until_millis
                - a.valid_until_millis == duration_millis(long) - duration_millis(short)
        }),
{
    law_events_do_what_they_say(terms, 0, clamped(short), wall, monotonic);
    law_events_do_what_they_say(terms, 0, clamped(long), wall, monotonic);
}

/// Whether an event sets the deadline by the wall clock.
pub open spec fn moves_wall_deadline(event: LeaseEvent) -> bool {
    event is RenewUntil || event is RenewFor
}

/// A lease runs out, however many IDs were made under it: once the wall clock has reached the time
/// that the last renewal until a time named, a generator that looks at the lease answers that it is
/// unavailable, whatever requests came before and whatever happened to the lease since that was no
/// renewal.
pub proof fn law_lease_runs_out(
    guard: SnowflakeLeaseGuard,
    before: Seq<LeaseEvent>,
    until: u64,
    wall_then: u64,
    monotonic_then: u64,
    since: Seq<LeaseEvent>,
    generator: SnowflakeIdGenerator,
    history: Seq<IdRequest>,
    now_millis: u64,
    wall: u64,
    monotonic: u64,
    r: Result<i64, SnowflakeIdError>,
)
    requires
        forall|i: int| 0 <= i < since.len() ==> !moves_wall_deadline(#[trigger] since[i]),
        until <= wall,
        generator.answers_after(
            history,
            (IdRequest {
                permit: Some(
                    guard.terms_by(
                        before.push(
                            LeaseEvent::RenewUntil {
                                valid_until_millis: until,
                                wall: wall_then,
                                monotonic: monotonic_then,
                            },
                        ) + since,
                    ).allow(wall, monotonic),
                ),
                now_millis,
                wall_clock_millis: wall,
            }),
            r,
        ),
    ensures
        r == Err::<i64, SnowflakeIdError>(SnowflakeIdError::LeaseUnavailable),
{
    let renewal = LeaseEvent::RenewUntil {
        valid_until_millis: until,
        wall: wall_then,
        monotonic: monotonic_then,
    };
    lemma_wall_deadline_stays(guard.first_terms(), before.push(renewal), since);
    law_events_act_in_order(guard.first_terms(), before, renewal);
}

/// The same for a lease that was last renewed for a duration: it ends when the wall clock has moved
/// on by all of its milliseconds.
pub proof fn law_lease_for_a_duration_runs_out(
    guard: SnowflakeLeaseGuard,
    before: Seq<LeaseEvent>,
    ttl: Duration,
    wall_then: u64,
    monotonic_then: u64,
    since: Seq<LeaseEvent>,
    generator: SnowflakeIdGenerator,
    history: Seq<IdRequest>,
    now_millis: u64,
    wall: u64,
    monotonic: u64,
    r: Result<i64, SnowflakeIdError>,
)
    requires
        forall|i: int| 0 <= i < since.len() ==> !moves_wall_deadline(#[trigger] since[i]),
        wall_then + duration_millis(ttl) <= wall,
        generator.answers_after(
            history,
            (IdRequest {
                permit: Some(
                    guard.terms_by(
                        before.push(
                            LeaseEvent::RenewFor {
                                ttl_millis: clamped(ttl),
                                wall: wall_then,
                                monotonic: monotonic_then,
                            },
                        ) + since,
                    ).allow(wall, monotonic),
                ),
                now_millis,
                wall_clock_millis: wall,
            }),
            r,
        ),
    ensures
        r == Err::<i64, SnowflakeIdError>(SnowflakeIdError::LeaseUnavailable),
{
    let renewal = LeaseEvent::RenewFor {
        ttl_millis: clamped(ttl),
        wall: wall_then,
        monotonic: monotonic_then,
    };
    lemma_wall_deadline_stays(guard.first_terms(), before.push(renewal), since);
    law_renewal_for_a_duration_adds_its_milliseconds(
        guard,
        before,
        ttl,
        wall_then,
        monotonic_then,
    );
}

/// The same for a guard that was never renewed: the time that it was created with ends it.
pub proof fn law_first_lease_runs_out(
    guard: SnowflakeLeaseGuard,
    since: Seq<LeaseEvent>,
    generator: SnowflakeIdGenerator,
    history: Seq<IdRequest>,
    now_millis: u64,
    wall: u64,
    monotonic: u64,
    r: Result<i64, SnowflakeIdError>,
)
    requires
        forall|i: int| 0 <= i < since.len() ==> !moves_wall_deadline(#[trigger] since[i]),
        guard.first_terms().valid_until_millis <= wall,
        generator.answers_after(
            history,
            (IdRequest {
                permit: Some(guard.terms_by(since).allow(wall, monotonic)),
                now_millis,
                wall_clock_millis: wall,
            }),
            r,
        ),
    ensures
        r == Err::<i64, SnowflakeIdError>(SnowflakeIdError::LeaseUnavailable),
{
    lemma_wall_deadline_stays(guard.first_terms(), Seq::empty(), since);
    assert(Seq::<LeaseEvent>::empty() + since == since);
}

proof fn lemma_wall_deadline_stays(
    terms: LeaseTerms,
    events: Seq<LeaseEvent>,
    since: Seq<LeaseEvent>,
)
    requires
        forall|i: int| 0 <= i < since.len() ==> !moves_wall_deadline(#[trigger] since[i]),
    ensures
        terms_after_all(terms, events + since).valid_until_millis == terms_after_all(
            terms,
            events,
        ).valid_until_millis,
    decreases since.len(),
{
    if since.len() == 0 {
        assert(events + since == events);
    } else {
        lemma_wall_deadline_stays(terms, events, since.drop_last());
        assert((events + since).drop_last() == events + since.drop_last());
        assert(!moves_wall_deadline(since[since.len() - 1]));
    }
}

/// A leased generator makes an ID only under terms that its guard came to: the lease had not been
/// fenced, both deadlines lay ahead of their clocks, and the time asked for lay within 100
/// milliseconds of the wall clock.
pub proof fn law_leased_id_was_allowed(
    generator: SnowflakeIdGenerator,
    guard: SnowflakeLeaseGuard,
    now_millis: u64,
    wall: u64,
    id: i64,
)
    requires
        generator.lease() matches Some(held) && *held == guard,
        generator.can_answer(now_millis, wall, Ok(id)),
    ensures
        now_millis <= wall + 100,
        wall <= now_millis + 100,
        exists|events: Seq<LeaseEvent>, monotonic: u64|
            #![trigger guard.terms_by(events), guard.can_read_clock(monotonic)]
            {
                &&& guard.can_find(events)
                &&& guard.can_read_clock(monotonic)
                &&& guard.terms_by(events).available
                &&& wall < guard.terms_by(events).valid_until_millis
                &&& monotonic < guard.terms_by(events).valid_until_monotonic_millis
            },
{
    let permit = choose|permit: Option<bool>| #[trigger]
        generator.can_permit(wall, permit) && generator.can_answer_request(
            IdRequest { permit, now_millis, wall_clock_millis: wall },
            Ok(id),
        );
    assert(permit == Some(true));
    assert(guard.can_allow(wall, true));
    let (events, monotonic) = choose|events: Seq<LeaseEvent>, monotonic: u64|
        guard.can_find(events) && guard.can_read_clock(monotonic) && true
            == #[trigger] guard.terms_by(events).allow(wall, monotonic);
    assert(guard.terms_by(events).available && guard.can_read_clock(monotonic));
}

/// A generator answers that its lease is unavailable only if it has a guard, and under terms that
/// the guard came to and that did not allow an ID at the wall clock's time.
pub proof fn law_unavailable_lease_was_not_allowed(
    generator: SnowflakeIdGenerator,
    now_millis: u64,
    wall: u64,
)
    requires
        generator.can_answer(now_millis, wall, Err(SnowflakeIdError::LeaseUnavailable)),
    ensures
        generator.lease() is Some,
        ({
            let guard = generator.lease()->0;
            exists|events: Seq<LeaseEvent>, monotonic: u64|
                #![trigger guard.terms_by(events), guard.can_read_clock(monotonic)]
                {
                    &&& guard.can_find(events)
                    &&& guard.can_read_clock(monotonic)
                    &&& !(guard.terms_by(events).available && wall < guard.terms_by(
                        events,
                    ).valid_until_millis && monotonic < guard.terms_by(
                        events,
                    ).valid_until_monotonic_millis)
                }
        }),
{
    let refusal = Err::<i64, SnowflakeIdError>(SnowflakeIdError::LeaseUnavailable);
    let permit = choose|permit: Option<bool>| #[trigger]
        generator.can_permit(wall, permit) && generator.can_answer_request(
            IdRequest { permit, now_millis, wall_clock_millis: wall },
            refusal,
        );
    let guard = generator.lease()->0;
    assert(permit == Some(false));
    assert(guard.can_allow(wall, false));
    let (events, monotonic) = choose|events: Seq<LeaseEvent>, monotonic: u64|
        guard.can_find(events) && guard.can_read_clock(monotonic) && false
            == #[trigger] guard.terms_by(events).allow(wall, monotonic);
    assert(guard.can_find(events) && guard.can_read_clock(monotonic));
    assert(!(guard.terms_by(events).available && wall < guard.terms_by(events).valid_until_millis
        && monotonic < guard.terms_by(events).valid_until_monotonic_millis));
}

} // verus!
