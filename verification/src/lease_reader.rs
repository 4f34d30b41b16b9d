//! Looking at a node lease, without the means to change it.

use crate::clock::MonotonicClock;
use crate::lease::{terms_after_all, LeaseEvent, LeaseTerms};
use crate::lease_book::all_went_by;
use crate::shared_terms::SharedTerms;
use std::sync::Arc;
use vstd::prelude::*;

verus! {

/// What a guard shows of its lease. It holds no pen, so nothing that has a reader alone can add an
/// event to the lease.
pub struct LeaseReader {
    shared: Arc<SharedTerms>,
    clock: MonotonicClock,
}

impl Clone for LeaseReader {
    fn clone(&self) -> (r: Self)
        ensures
            r == *self,
    {
        proof {
            use_type_invariant(self);
        }
        LeaseReader { shared: self.shared.clone(), clock: self.clock }
    }
}

impl LeaseReader {
    #[verifier::type_invariant]
    spec fn well_formed(&self) -> bool {
        self.shared.clock() == self.clock
    }

    /// The terms that are looked at.
    pub closed spec fn terms_shared(&self) -> Arc<SharedTerms> {
        self.shared
    }

    /// The terms before the first event.
    pub open spec fn first_terms(&self) -> LeaseTerms {
        self.terms_shared().first()
    }

    /// The monotonic clock that the lease's second deadline is counted by.
    pub open spec fn own_clock(&self) -> MonotonicClock {
        self.terms_shared().clock()
    }

    /// Whether that clock shows `millis` at some instant.
    pub open spec fn can_read_clock(&self, millis: u64) -> bool {
        self.own_clock().can_read(millis)
    }

    /// Whether a call can find that these events have happened to the lease.
    pub open spec fn can_find(&self, events: Seq<LeaseEvent>) -> bool {
        self.terms_shared().can_find(events)
    }

    /// The terms that a series of events leads to.
    pub open spec fn terms_by(&self, events: Seq<LeaseEvent>) -> LeaseTerms {
        terms_after_all(self.first_terms(), events)
    }

    /// Whether `r` can be the verdict while the wall clock stands at `now_millis`: on the terms
    /// that the events so far led to, at a time that the monotonic clock shows.
    pub open spec fn can_allow(&self, now_millis: u64, r: bool) -> bool {
        exists|events: Seq<LeaseEvent>, monotonic: u64|
            self.can_find(events) && self.can_read_clock(monotonic) && r
                == #[trigger] self.terms_by(events).allow(now_millis, monotonic)
    }

    /// The lease stood at first, and the renewals that a call can find went by the wall clock and
    /// by the reader's monotonic clock.
    pub proof fn law_found_events_went_by_the_clocks(&self, events: Seq<LeaseEvent>)
        requires
            self.can_find(events),
        ensures
            self.first_terms().available,
            all_went_by(self.own_clock(), events),
    {
        self.terms_shared().law_found_events_went_by_the_clocks(events);
    }

    /// Creates a reader of shared terms, by the clock that their renewals go by.
    pub fn new(shared: Arc<SharedTerms>, clock: MonotonicClock) -> (r: Self)
        requires
            shared.clock() == clock,
        ensures
            r.terms_shared() == shared,
    {
        LeaseReader { shared, clock }
    }

    /// The monotonic clock that the lease's second deadline is counted by.
    pub fn monotonic_millis(&self) -> (r: u64)
        ensures
            self.can_read_clock(r),
    {
        proof {
            use_type_invariant(self);
        }
        self.clock.millis()
    }

    /// The terms of the lease at the moment.
    pub fn terms(&self) -> (r: LeaseTerms)
        ensures
            exists|events: Seq<LeaseEvent>|
                self.can_find(events) && r == #[trigger] self.terms_by(events),
    {
        let (terms, Ghost(events)) = self.shared.look();
        assert(self.can_find(events) && terms == self.terms_by(events));
        terms
    }

    /// Whether an ID may be made, the wall clock standing at `now_millis`.
    pub fn allows(&self, now_millis: u64) -> (r: bool)
        ensures
            self.can_allow(now_millis, r),
    {
        let (terms, Ghost(events)) = self.shared.look();
        let monotonic: u64 = self.monotonic_millis();
        assert(self.can_find(events) && terms == self.terms_by(events));
        terms.allows(now_millis, monotonic)
    }
}

} // verus!
