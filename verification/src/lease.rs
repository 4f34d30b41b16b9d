//! The lease that a generator's node ID is held under: its terms, and what can happen to them.

use vstd::prelude::*;

verus! {

/// The terms of a lease at one moment: whether it stands, and until when, by the wall clock and by
/// the monotonic clock.
#[derive(Debug, Clone, Copy, PartialEq, Eq, Structural)]
pub struct LeaseTerms {
    pub available: bool,
    pub valid_until_millis: u64,
    pub valid_until_monotonic_millis: u64,
}

/// The deadline `span` milliseconds after `start`, or the end of time.
pub open spec fn deadline_after(start: u64, span: u64) -> u64 {
    if start + span > u64::MAX {
        u64::MAX
    } else {
        (start + span) as u64
    }
}

/// The time that is left at `now` until `until`, zero where it has passed.
pub open spec fn remaining(until: u64, now: u64) -> u64 {
    if until > now {
        (until - now) as u64
    } else {
        0
    }
}

impl LeaseTerms {
    /// A lease that is given out until a time of the wall clock, the two clocks standing at
    /// `wall` and `monotonic`.
    pub open spec fn granted(valid_until_millis: u64, wall: u64, monotonic: u64) -> LeaseTerms {
        LeaseTerms {
            available: true,
            valid_until_millis,
            valid_until_monotonic_millis: deadline_after(
                monotonic,
                remaining(valid_until_millis, wall),
            ),
        }
    }

    /// These terms, extended until a time of the wall clock.
    pub open spec fn extended_until(
        self,
        valid_until_millis: u64,
        wall: u64,
        monotonic: u64,
    ) -> LeaseTerms {
        LeaseTerms {
            available: self.available,
            ..LeaseTerms::granted(valid_until_millis, wall, monotonic)
        }
    }

    /// These terms, extended for `ttl_millis` from now.
    pub open spec fn extended_for(self, ttl_millis: u64, wall: u64, monotonic: u64) -> LeaseTerms {
        LeaseTerms {
            available: self.available,
            valid_until_millis: deadline_after(wall, ttl_millis),
            valid_until_monotonic_millis: deadline_after(monotonic, ttl_millis),
        }
    }

    /// These terms, with another deadline by the monotonic clock.
    pub open spec fn limited_to(self, valid_until_monotonic_millis: u64) -> LeaseTerms {
        LeaseTerms { valid_until_monotonic_millis, ..self }
    }

    /// These terms, withdrawn.
    pub open spec fn withdrawn(self) -> LeaseTerms {
        LeaseTerms { available: false, ..self }
    }

    /// Whether the terms let an ID be made, the two clocks standing at `wall` and `monotonic`:
    /// the lease must stand and neither deadline may have come.
    pub open spec fn allow(self, wall: u64, monotonic: u64) -> bool {
        self.available && wall < self.valid_until_millis && monotonic
            < self.valid_until_monotonic_millis
    }

    /// Gives out a lease until a time of the wall clock.
    pub fn grant(valid_until_millis: u64, wall: u64, monotonic: u64) -> (r: Self)
        ensures
            r == LeaseTerms::granted(valid_until_millis, wall, monotonic),
    {
        let left: u64 = valid_until_millis.saturating_sub(wall);
        LeaseTerms {
            available: true,
            valid_until_millis,
            valid_until_monotonic_millis: monotonic.saturating_add(left),
        }
    }

    /// Extends the lease until a time of the wall clock.
    pub fn renew_until(&mut self, valid_until_millis: u64, wall: u64, monotonic: u64)
        ensures
            *final(self) == old(self).extended_until(valid_until_millis, wall, monotonic),
    {
        let left: u64 = valid_until_millis.saturating_sub(wall);
        self.valid_until_millis = valid_until_millis;
        self.valid_until_monotonic_millis = monotonic.saturating_add(left);
    }

    /// Extends the lease for `ttl_millis` from now.
    pub fn renew_for(&mut self, ttl_millis: u64, wall: u64, monotonic: u64)
        ensures
            *final(self) == old(self).extended_for(ttl_millis, wall, monotonic),
    {
        self.valid_until_millis = wall.saturating_add(ttl_millis);
        self.valid_until_monotonic_millis = monotonic.saturating_add(ttl_millis);
    }

    /// Sets the deadline by the monotonic clock alone.
    pub fn set_monotonic_deadline(&mut self, valid_until_monotonic_millis: u64)
        ensures
            *final(self) == old(self).limited_to(valid_until_monotonic_millis),
    {
        self.valid_until_monotonic_millis = valid_until_monotonic_millis;
    }

    /// Withdraws the lease.
    pub fn fence(&mut self)
        ensures
            *final(self) == old(self).withdrawn(),
    {
        self.available = false;
    }

    /// Tells whether the terms let an ID be made.
    pub fn allows(&self, wall: u64, monotonic: u64) -> (r: bool)
        ensures
            r == self.allow(wall, monotonic),
    {
        self.available && wall < self.valid_until_millis && monotonic
            < self.valid_until_monotonic_millis
    }
}

/// What can happen to a lease after it was given out. A renewal holds the readings of the two
/// clocks that it went by.
pub enum LeaseEvent {
    RenewUntil { valid_until_millis: u64, wall: u64, monotonic: u64 },
    RenewFor { ttl_millis: u64, wall: u64, monotonic: u64 },
    SetMonotonicDeadline { valid_until_monotonic_millis: u64 },
    Fence,
}

/// The terms after an event.
pub open spec fn terms_after(terms: LeaseTerms, event: LeaseEvent) -> LeaseTerms {
    match event {
        LeaseEvent::RenewUntil { valid_until_millis, wall, monotonic } => terms.extended_until(
            valid_until_millis,
            wall,
            monotonic,
        ),
        LeaseEvent::RenewFor { ttl_millis, wall, monotonic } => terms.extended_for(
            ttl_millis,
            wall,
            monotonic,
        ),
        LeaseEvent::SetMonotonicDeadline { valid_until_monotonic_millis } => terms.limited_to(
            valid_until_monotonic_millis,
        ),
        LeaseEvent::Fence => terms.withdrawn(),
    }
}

/// The terms after a series of events.
pub open spec fn terms_after_all(terms: LeaseTerms, events: Seq<LeaseEvent>) -> LeaseTerms
    decreases events.len(),
{
    if events.len() == 0 {
        terms
    } else {
        terms_after(terms_after_all(terms, events.drop_last()), events.last())
    }
}

} // verus!
