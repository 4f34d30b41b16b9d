//! The terms of a lease that the holders of a guard share, changed by one event at a time.

use crate::clock::MonotonicClock;
use crate::lease::{terms_after_all, LeaseEvent, LeaseTerms};
pub use crate::lease_book::{all_went_by, went_by};
use crate::lease_book::LeaseBook;
use crate::pen::{Pen, Seal, Stroke};
use std::sync::Arc;
use vstd::prelude::*;
use vstd::rwlock::{RwLock, RwLockPredicate, WriteHandle};

verus! {

/// What holds of shared terms whenever nobody is changing them: their book is sound, and it is the
/// very book that was opened for them.
pub struct Recorded {
    pub first: LeaseTerms,
    pub clock: MonotonicClock,
    pub seal: Arc<Seal>,
}

impl RwLockPredicate<LeaseBook> for Recorded {
    open spec fn inv(self, book: LeaseBook) -> bool {
        &&& book.sound()
        &&& book.first() == self.first
        &&& book.clock() == self.clock
        &&& book.seal() == self.seal
    }
}

/// The right to put terms back that were taken out.
pub struct HeldTerms<'a> {
    handle: WriteHandle<'a, LeaseBook, Recorded>,
    book: LeaseBook,
}

impl<'a> HeldTerms<'a> {
    /// The events that led to the terms that were taken out.
    pub closed spec fn events(&self) -> Seq<LeaseEvent> {
        self.book.events()
    }

    /// Which book was taken out.
    pub closed spec fn seal(&self) -> Arc<Seal> {
        self.book.seal()
    }
}

/// The terms of a lease behind a lock, in a book that nothing can take the place of.
///
/// Which events a call finds depends on the calls before it, of every holder, so a contract can say
/// only that they are ones that the book came to. A call that takes the terms out can put back
/// nothing but what one event makes of them, with that event added to the others, and only by a
/// stroke of the book's pen.
pub struct SharedTerms {
    lock: RwLock<LeaseBook, Recorded>,
}

impl SharedTerms {
    /// The terms before the first event.
    pub closed spec fn first(&self) -> LeaseTerms {
        self.lock.pred().first
    }

    /// The monotonic clock that renewals go by.
    pub closed spec fn clock(&self) -> MonotonicClock {
        self.lock.pred().clock
    }

    /// Whether a pen writes in the book of these terms.
    pub closed spec fn obeys(&self, pen: Pen) -> bool {
        pen.seal() == self.lock.pred().seal
    }

    /// Whether a stroke writes in the book of these terms.
    pub closed spec fn takes(&self, stroke: Stroke) -> bool {
        stroke.seal() == self.lock.pred().seal
    }

    /// The strokes of the pen write in the book.
    pub proof fn law_strokes_obey(&self, pen: Pen, stroke: Stroke)
        requires
            self.obeys(pen),
            stroke.seal() == pen.seal(),
        ensures
            self.takes(stroke),
    {
    }

    /// Whether a call can find the terms that a series of events leads to: the book that was opened
    /// for these terms can hold those events. Only the book itself shows it.
    pub closed spec fn can_find(&self, events: Seq<LeaseEvent>) -> bool {
        exists|book: LeaseBook| self.lock.inv(book) && #[trigger] book.events() == events
    }

    /// Whether terms were taken out of here.
    pub closed spec fn lent(&self, held: HeldTerms) -> bool {
        &&& held.handle.rwlock() == self.lock
        &&& self.lock.inv(held.book)
    }

    /// What is taken out is the very book that was opened for these terms, and the pen that changes
    /// them is its pen.
    pub proof fn law_nothing_replaces_the_book(&self, held: HeldTerms, pen: Pen)
        requires
            self.lent(held),
            self.obeys(pen),
        ensures
            held.seal() == pen.seal(),
            self.can_find(held.events()),
    {
    }

    /// The lease stood at first, and the renewals that a call can find went by the clocks.
    pub proof fn law_found_events_went_by_the_clocks(&self, events: Seq<LeaseEvent>)
        requires
            self.can_find(events),
        ensures
            self.first().available,
            all_went_by(self.clock(), events),
    {
        let book = choose|book: LeaseBook|
            self.lock.inv(book) && #[trigger] book.events() == events;
        book.law_events_went_by_the_clocks();
    }

    /// Creates the terms before the first event, and gives out the pen that changes them.
    pub fn new(first: LeaseTerms, clock: MonotonicClock) -> (r: (Self, Pen))
        requires
            first.available,
        ensures
            r.0.first() == first,
            r.0.clock() == clock,
            r.0.can_find(Seq::empty()),
            r.0.obeys(r.1),
    {
        let (book, pen) = LeaseBook::open(first, clock);
        let ghost rule = Recorded { first, clock, seal: book.seal() };
        let ghost start = book;
        let shared = SharedTerms { lock: RwLock::new(book, Ghost(rule)) };
        assert(shared.lock.inv(start) && start.events() == Seq::<LeaseEvent>::empty());
        (shared, pen)
    }

    /// Looks at the terms.
    pub(crate) fn look(&self) -> (r: (LeaseTerms, Ghost<Seq<LeaseEvent>>))
        ensures
            self.can_find(r.1@),
            r.0 == terms_after_all(self.first(), r.1@),
    {
        let handle = self.lock.acquire_read();
        let book = handle.borrow();
        let terms = book.terms();
        let events = Ghost(book.events());
        assert(self.lock.inv(*book));
        handle.release_read();
        (terms, events)
    }

    /// Takes the terms out, for nobody else to look at or change until they are put back.
    pub(crate) fn acquire(&self) -> (r: (LeaseTerms, HeldTerms<'_>))
        ensures
            self.lent(r.1),
            self.can_find(r.1.events()),
            r.0 == terms_after_all(self.first(), r.1.events()),
    {
        let (book, handle) = self.lock.acquire_write();
        (book.terms(), HeldTerms { handle, book })
    }

    /// Puts back what an event made of the terms that were taken out. That the lock opens for the
    /// next call is not claimed: the lock promises nothing of being let go.
    pub(crate) fn release(
        &self,
        held: HeldTerms<'_>,
        stroke: Stroke,
        event: Ghost<LeaseEvent>,
        terms: LeaseTerms,
    )
        requires
            self.lent(held),
            self.takes(stroke),
            went_by(self.clock(), event@),
            terms == terms_after_all(self.first(), held.events().push(event@)),
        ensures
            self.can_find(held.events().push(event@)),
    {
        let HeldTerms { handle, mut book } = held;
        book.enter(stroke, event, terms);
        let ghost after = book;
        assert(self.lock.inv(after) && after.events() == held.events().push(event@));
        handle.release_write(book);
    }
}

} // verus!
