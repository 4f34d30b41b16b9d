//! The book of a lease: its terms, and the events that led to them.

use crate::clock::{is_wall_clock_millis, MonotonicClock};
use crate::lease::{terms_after_all, LeaseEvent, LeaseTerms};
use crate::pen::{Pen, Seal, Stroke};
use std::sync::Arc;
use vstd::prelude::*;

verus! {

/// Whether the times in an event were read: the one from the wall clock, the other from `clock`.
pub open spec fn went_by(clock: MonotonicClock, event: LeaseEvent) -> bool {
    match event {
        LeaseEvent::RenewUntil { wall, monotonic, .. } => is_wall_clock_millis(wall)
            && clock.can_read(monotonic),
        LeaseEvent::RenewFor { wall, monotonic, .. } => is_wall_clock_millis(wall)
            && clock.can_read(monotonic),
        LeaseEvent::SetMonotonicDeadline { .. } => true,
        LeaseEvent::Fence => true,
    }
}

/// Whether the times in every event of a series were read.
pub open spec fn all_went_by(clock: MonotonicClock, events: Seq<LeaseEvent>) -> bool {
    forall|i: int| 0 <= i < events.len() ==> went_by(clock, #[trigger] events[i])
}

/// The terms of a lease, and the events that made them out of the first terms.
///
/// A book cannot be copied, and no two of them carry the same seal. It can only grow, by one event
/// for each stroke of its pen: whoever does not have the pen can only read.
pub struct LeaseBook {
    terms: LeaseTerms,
    first: Ghost<LeaseTerms>,
    clock: Ghost<MonotonicClock>,
    events: Ghost<Seq<LeaseEvent>>,
    seal: Arc<Seal>,
}

impl LeaseBook {
    /// The terms before the first event.
    pub closed spec fn first(&self) -> LeaseTerms {
        self.first@
    }

    /// The monotonic clock that renewals go by.
    pub closed spec fn clock(&self) -> MonotonicClock {
        self.clock@
    }

    /// The events so far.
    pub closed spec fn events(&self) -> Seq<LeaseEvent> {
        self.events@
    }

    /// Which book this is.
    pub closed spec fn seal(&self) -> Arc<Seal> {
        self.seal
    }

    /// Whether the lease stood at first, the terms are the ones that the events make of the first
    /// terms, and the times in the events were read.
    pub closed spec fn sound(&self) -> bool {
        &&& self.first@.available
        &&& self.terms == terms_after_all(self.first@, self.events@)
        &&& all_went_by(self.clock@, self.events@)
    }

    /// In a sound book, the lease stood at first, and the renewals went by the clocks.
    pub proof fn law_events_went_by_the_clocks(&self)
        requires
            self.sound(),
        ensures
            self.first().available,
            all_went_by(self.clock(), self.events()),
    {
    }

    /// Opens a book, with no event in it, and gives out its pen.
    pub fn open(first: LeaseTerms, clock: MonotonicClock) -> (r: (Self, Pen))
        requires
            first.available,
        ensures
            r.0.sound(),
            r.0.first() == first,
            r.0.clock() == clock,
            r.0.events() == Seq::<LeaseEvent>::empty(),
            r.1.seal() == r.0.seal(),
    {
        let pen = Pen::cut();
        let book = LeaseBook {
            terms: first,
            first: Ghost(first),
            clock: Ghost(clock),
            events: Ghost(Seq::empty()),
            seal: pen.to_seal(),
        };
        (book, pen)
    }

    /// The terms that the events so far led to.
    pub fn terms(&self) -> (r: LeaseTerms)
        requires
            self.sound(),
        ensures
            r == terms_after_all(self.first(), self.events()),
    {
        self.terms
    }

    /// Adds an event, with the terms that it leads to.
    pub fn enter(&mut self, stroke: Stroke, event: Ghost<LeaseEvent>, terms: LeaseTerms)
        requires
            old(self).sound(),
            stroke.seal() == old(self).seal(),
            went_by(old(self).clock(), event@),
            terms == terms_after_all(old(self).first(), old(self).events().push(event@)),
        ensures
            final(self).sound(),
            final(self).first() == old(self).first(),
            final(self).clock() == old(self).clock(),
            final(self).seal() == old(self).seal(),
            final(self).events() == old(self).events().push(event@),
    {
        let ghost before = self.events@;
        let ghost longer = before.push(event@);
        assert(all_went_by(self.clock@, longer)) by {
            assert forall|i: int| 0 <= i < longer.len() implies went_by(
                self.clock@,
                #[trigger] longer[i],
            ) by {
                if i < before.len() {
                    assert(longer[i] == before[i]);
                }
            }
        }
        self.terms = terms;
        self.events = Ghost(longer);
    }
}

} // verus!
