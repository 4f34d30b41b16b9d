//! The ledger of a generator: the state of its IDs, and the requests that led to it.

use crate::pen::{Pen, Seal, Stroke};
use crate::state::{lease_refusal, state_after_all, IdRequest, SnowflakeState};
use std::sync::Arc;
use vstd::prelude::*;

verus! {

/// Whether the lease let every request of a history through.
pub open spec fn all_let_through(history: Seq<IdRequest>) -> bool {
    forall|i: int| 0 <= i < history.len() ==> lease_refusal(#[trigger] history[i]) is None
}

/// A state, and the requests that led to it.
///
/// A ledger cannot be copied, and no two of them carry the same seal: whoever owns one that carries
/// a given seal owns the one that was opened with it. It can only grow, by one request for each
/// stroke of its pen.
pub struct Ledger {
    state: SnowflakeState,
    epoch_millis: u64,
    history: Ghost<Seq<IdRequest>>,
    seal: Arc<Seal>,
}

impl Ledger {
    /// The time from which the IDs count.
    pub closed spec fn epoch(&self) -> u64 {
        self.epoch_millis
    }

    /// The requests so far.
    pub closed spec fn history(&self) -> Seq<IdRequest> {
        self.history@
    }

    /// Which ledger this is.
    pub closed spec fn seal(&self) -> Arc<Seal> {
        self.seal
    }

    /// Whether the state is the one that the history leads to, and the history holds no request
    /// that the lease refused.
    pub closed spec fn sound(&self) -> bool {
        &&& self.state == state_after_all(self.epoch_millis, self.history@)
        &&& all_let_through(self.history@)
    }

    /// The history of a sound ledger holds no request that the lease refused.
    pub proof fn law_requests_were_let_through(&self)
        requires
            self.sound(),
        ensures
            all_let_through(self.history()),
    {
    }

    /// Opens a ledger, with no request in it, and gives out its pen.
    pub fn open(epoch_millis: u64) -> (r: (Self, Pen))
        ensures
            r.0.sound(),
            r.0.epoch() == epoch_millis,
            r.0.history() == Seq::<IdRequest>::empty(),
            r.1.seal() == r.0.seal(),
    {
        let pen = Pen::cut();
        let ledger = Ledger {
            state: SnowflakeState::new(),
            epoch_millis,
            history: Ghost(Seq::empty()),
            seal: pen.to_seal(),
        };
        (ledger, pen)
    }

    /// The state that the requests so far led to.
    pub fn state(&self) -> (r: SnowflakeState)
        requires
            self.sound(),
        ensures
            r == state_after_all(self.epoch(), self.history()),
    {
        self.state
    }

    /// Adds a request, with the state that it leads to.
    pub fn enter(&mut self, stroke: Stroke, request: IdRequest, state: SnowflakeState)
        requires
            old(self).sound(),
            stroke.seal() == old(self).seal(),
            lease_refusal(request) is None,
            state == state_after_all(old(self).epoch(), old(self).history().push(request)),
        ensures
            final(self).sound(),
            final(self).seal() == old(self).seal(),
            final(self).epoch() == old(self).epoch(),
            final(self).history() == old(self).history().push(request),
    {
        let ghost before = self.history@;
        let ghost longer = before.push(request);
        assert(all_let_through(longer)) by {
            assert forall|i: int| 0 <= i < longer.len() implies lease_refusal(
                #[trigger] longer[i],
            ) is None by {
                if i < before.len() {
                    assert(longer[i] == before[i]);
                }
            }
        }
        self.state = state;
        self.history = Ghost(longer);
    }
}

} // verus!
