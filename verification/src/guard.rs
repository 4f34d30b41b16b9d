//! The guard over a node lease that its holders share.

use crate::clock::{
    clamped, clamped_millis, is_wall_clock_millis, wall_clock_millis, MonotonicClock,
};
use crate::lease::{terms_after_all, LeaseEvent, LeaseTerms};
use crate::lease_book::all_went_by;
use crate::lease_reader::LeaseReader;
use crate::pen::Pen;
use crate::shared_terms::SharedTerms;
use std::sync::Arc;
use std::time::Duration;
use vstd::prelude::*;

verus! {

/// Safety guard for a database-backed Snowflake node lease.
///
/// The guard is shared: any holder may renew or fence it while generators look at it. The terms
/// that a call finds are the ones that the events so far made of the first terms, and a call that
/// changes them adds its own event.
pub struct SnowflakeLeaseGuard {
    shared: Arc<SharedTerms>,
    reader: LeaseReader,
    pen: Pen,
}

impl SnowflakeLeaseGuard {
    #[verifier::type_invariant]
    spec fn well_formed(&self) -> bool {
        &&& self.reader.terms_shared() == self.shared
        &&& self.shared.obeys(self.pen)
    }

    /// What the guard shows of its lease.
    pub closed spec fn shown(&self) -> LeaseReader {
        self.reader
    }

    /// The terms that the guard was created with.
    pub open spec fn first_terms(&self) -> LeaseTerms {
        self.shown().first_terms()
    }

    /// The guard's own monotonic clock.
    pub open spec fn own_clock(&self) -> MonotonicClock {
        self.shown().own_clock()
    }

    /// Whether the guard's own monotonic clock shows `millis` at some instant.
    pub open spec fn can_read_clock(&self, millis: u64) -> bool {
        self.shown().can_read_clock(millis)
    }

    /// Whether a call can find that these events have happened to the lease.
    pub open spec fn can_find(&self, events: Seq<LeaseEvent>) -> bool {
        self.shown().can_find(events)
    }

    /// The terms that a series of events leads to.
    pub open spec fn terms_by(&self, events: Seq<LeaseEvent>) -> LeaseTerms {
        terms_after_all(self.first_terms(), events)
    }

    /// Whether the guard can answer `r` while the wall clock stands at `now_millis`: on the terms
    /// that the events so far led to, at a time that its own clock shows.
    pub open spec fn can_allow(&self, now_millis: u64, r: bool) -> bool {
        exists|events: Seq<LeaseEvent>, monotonic: u64|
            self.can_find(events) && self.can_read_clock(monotonic) && r
                == #[trigger] self.terms_by(events).allow(now_millis, monotonic)
    }

    /// The lease stood at first, and the renewals that a call can find went by the wall clock and
    /// by the guard's own clock.
    pub proof fn law_found_events_went_by_the_clocks(&self, events: Seq<LeaseEvent>)
        requires
            self.can_find(events),
        ensures
            self.first_terms().available,
            all_went_by(self.own_clock(), events),
    {
        self.shown().law_found_events_went_by_the_clocks(events);
    }

    /// A guard answers as its reader does.
    pub proof fn law_guard_answers_as_its_reader(&self, now_millis: u64, r: bool)
        ensures
            self.shown().can_allow(now_millis, r) == self.can_allow(now_millis, r),
    {
        if self.shown().can_allow(now_millis, r) {
            let (events, monotonic) = choose|events: Seq<LeaseEvent>, monotonic: u64|
                self.shown().can_find(events) && self.shown().can_read_clock(monotonic) && r
                    == #[trigger] self.shown().terms_by(events).allow(now_millis, monotonic);
            assert(r == self.terms_by(events).allow(now_millis, monotonic));
        }
        if self.can_allow(now_millis, r) {
            let (events, monotonic) = choose|events: Seq<LeaseEvent>, monotonic: u64|
                self.can_find(events) && self.can_read_clock(monotonic) && r
                    == #[trigger] self.terms_by(events).allow(now_millis, monotonic);
            assert(r == self.shown().terms_by(events).allow(now_millis, monotonic));
        }
    }

    /// Creates a guard whose lease stands until a time of the wall clock.
    pub fn new(valid_until_millis: u64) -> (r: Self)
        ensures
            exists|wall: u64, monotonic: u64|
                is_wall_clock_millis(wall) && r.can_read_clock(monotonic) && r.first_terms()
                    == #[trigger] LeaseTerms::granted(valid_until_millis, wall, monotonic),
            r.can_find(Seq::empty()),
    {
        let clock = MonotonicClock::start();
        let wall: u64 = wall_clock_millis();
        let monotonic: u64 = clock.millis();
        let first = LeaseTerms::grant(valid_until_millis, wall, monotonic);
        let (terms, pen) = SharedTerms::new(first, clock);
        let shared = Arc::new(terms);
        let reader = LeaseReader::new(shared.clone(), clock);
        let guard = SnowflakeLeaseGuard { shared, reader, pen };
        assert(guard.can_read_clock(monotonic));
        guard
    }

    /// What the guard shows of its lease, for those who look at it and do not change it.
    pub fn reader(&self) -> (r: LeaseReader)
        ensures
            r == self.shown(),
    {
        self.reader.clone()
    }

    /// The monotonic clock that the lease's second deadline is counted by.
    pub fn monotonic_millis(&self) -> (r: u64)
        ensures
            self.can_read_clock(r),
    {
        self.reader.monotonic_millis()
    }

    /// The terms that the guard holds at the moment.
    pub fn terms(&self) -> (r: LeaseTerms)
        ensures
            exists|events: Seq<LeaseEvent>|
                self.can_find(events) && r == #[trigger] self.terms_by(events),
    {
        let r = self.reader.terms();
        proof {
            let events = choose|events: Seq<LeaseEvent>|
                self.shown().can_find(events) && r == #[trigger] self.shown().terms_by(events);
            assert(self.can_find(events) && r == self.terms_by(events));
        }
        r
    }

    /// Extend the locally enforced lease deadline after a successful fenced heartbeat.
    pub fn renew_until(&self, valid_until_millis: u64)
        ensures
            exists|events: Seq<LeaseEvent>, wall: u64, monotonic: u64|
                self.can_find(events) && is_wall_clock_millis(wall) && self.can_read_clock(
                    monotonic,
                ) && #[trigger] self.can_find(
                    events.push(LeaseEvent::RenewUntil { valid_until_millis, wall, monotonic }),
                ),
    {
        proof {
            use_type_invariant(self);
        }
        let wall: u64 = wall_clock_millis();
        let monotonic: u64 = self.monotonic_millis();
        let ghost event = LeaseEvent::RenewUntil { valid_until_millis, wall, monotonic };
        let (mut terms, held) = self.shared.acquire();
        let ghost events = held.events();
        terms.renew_until(valid_until_millis, wall, monotonic);
        assert(events.push(event).drop_last() == events);
        let stroke = self.pen.stroke();
        proof {
            self.shared.law_strokes_obey(self.pen, stroke);
        }
        self.shared.release(held, stroke, Ghost(event), terms);
        assert(self.can_find(events) && self.can_find(events.push(event)));
    }

    /// Extend the local deadline by a duration measured with a monotonic
    /// clock. This cannot be prolonged by system-clock rollback.
    pub fn renew_for(&self, ttl: Duration)
        ensures
            exists|events: Seq<LeaseEvent>, wall: u64, monotonic: u64|
                self.can_find(events) && is_wall_clock_millis(wall) && self.can_read_clock(
                    monotonic,
                ) && #[trigger] self.can_find(
                    events.push(
                        LeaseEvent::RenewFor { ttl_millis: clamped(ttl), wall, monotonic },
                    ),
                ),
    {
        proof {
            use_type_invariant(self);
        }
        let ttl_millis: u64 = clamped_millis(ttl);
        let wall: u64 = wall_clock_millis();
        let monotonic: u64 = self.monotonic_millis();
        let ghost event = LeaseEvent::RenewFor { ttl_millis, wall, monotonic };
        let (mut terms, held) = self.shared.acquire();
        let ghost events = held.events();
        terms.renew_for(ttl_millis, wall, monotonic);
        assert(events.push(event).drop_last() == events);
        let stroke = self.pen.stroke();
        proof {
            self.shared.law_strokes_obey(self.pen, stroke);
        }
        self.shared.release(held, stroke, Ghost(event), terms);
        assert(self.can_find(events) && self.can_find(events.push(event)));
    }

    /// Sets the deadline by the guard's monotonic clock alone.
    pub fn set_monotonic_deadline(&self, valid_until_monotonic_millis: u64)
        ensures
            exists|events: Seq<LeaseEvent>|
                self.can_find(events) && #[trigger] self.can_find(
                    events.push(LeaseEvent::SetMonotonicDeadline { valid_until_monotonic_millis }),
                ),
    {
        proof {
            use_type_invariant(self);
        }
        let ghost event = LeaseEvent::SetMonotonicDeadline { valid_until_monotonic_millis };
        let (mut terms, held) = self.shared.acquire();
        let ghost events = held.events();
        terms.set_monotonic_deadline(valid_until_monotonic_millis);
        assert(events.push(event).drop_last() == events);
        let stroke = self.pen.stroke();
        proof {
            self.shared.law_strokes_obey(self.pen, stroke);
        }
        self.shared.release(held, stroke, Ghost(event), terms);
        assert(self.can_find(events) && self.can_find(events.push(event)));
    }

    /// Permanently fence this generator instance.
    pub fn fence(&self)
        ensures
            exists|events: Seq<LeaseEvent>|
                self.can_find(events) && #[trigger] self.can_find(events.push(LeaseEvent::Fence)),
    {
        proof {
            use_type_invariant(self);
        }
        let (mut terms, held) = self.shared.acquire();
        let ghost events = held.events();
        terms.fence();
        assert(events.push(LeaseEvent::Fence).drop_last() == events);
        let stroke = self.pen.stroke();
        proof {
            self.shared.law_strokes_obey(self.pen, stroke);
        }
        self.shared.release(held, stroke, Ghost(LeaseEvent::Fence), terms);
        assert(self.can_find(events) && self.can_find(events.push(LeaseEvent::Fence)));
    }

    /// Whether the guard has not been fenced.
    pub fn is_available(&self) -> (r: bool)
        ensures
            exists|events: Seq<LeaseEvent>|
                self.can_find(events) && r == (#[trigger] self.terms_by(events)).available,
    {
        let terms = self.terms();
        terms.available
    }

    /// Whether an ID may be made, the wall clock standing at `now_millis`.
    pub fn allows(&self, now_millis: u64) -> (r: bool)
        ensures
            self.can_allow(now_millis, r),
    {
        let r = self.reader.allows(now_millis);
        proof {
            self.law_guard_answers_as_its_reader(now_millis, r);
        }
        r
    }
}

} // verus!
