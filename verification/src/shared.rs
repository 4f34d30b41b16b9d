//! The one state that a generator and its clones work on, one request at a time.

pub use crate::ledger::{all_let_through, Ledger};
use crate::pen::{Pen, Seal, Stroke};
use crate::state::{lease_refusal, state_after_all, IdRequest, SnowflakeState};
use std::sync::Arc;
use vstd::prelude::*;
use vstd::rwlock::{RwLock, RwLockPredicate, WriteHandle};

verus! {

/// What holds of a shared state whenever nobody is working on it: its ledger is sound, and it is
/// the very ledger that was opened for it.
pub struct Reachable {
    pub epoch_millis: u64,
    pub seal: Arc<Seal>,
}

impl RwLockPredicate<Ledger> for Reachable {
    open spec fn inv(self, ledger: Ledger) -> bool {
        &&& ledger.sound()
        &&& ledger.epoch() == self.epoch_millis
        &&& ledger.seal() == self.seal
    }
}

/// The right to put a state back that was taken out.
pub struct HeldState<'a> {
    handle: WriteHandle<'a, Ledger, Reachable>,
    ledger: Ledger,
}

impl<'a> HeldState<'a> {
    /// The requests that led to the state that was taken out.
    pub closed spec fn history(&self) -> Seq<IdRequest> {
        self.ledger.history()
    }

    /// Which ledger was taken out.
    pub closed spec fn seal(&self) -> Arc<Seal> {
        self.ledger.seal()
    }
}

/// A state behind a lock, with its history, in a ledger that nothing can take the place of.
///
/// Which history a request finds depends on the requests before it, of every holder, so a contract
/// can say only that it is one that the ledger came to. A request that takes the state out can put
/// back nothing but what it makes of that state, with itself added to the history, and only by a
/// stroke of the ledger's pen.
pub struct SharedState {
    lock: RwLock<Ledger, Reachable>,
}

impl SharedState {
    /// The time from which the IDs count.
    pub closed spec fn epoch(&self) -> u64 {
        self.lock.pred().epoch_millis
    }

    /// Whether a request can find the state that a history leads to: the ledger that was opened for
    /// this state can hold that history. Only the ledger itself shows it.
    pub closed spec fn can_find(&self, history: Seq<IdRequest>) -> bool {
        exists|ledger: Ledger| self.lock.inv(ledger) && #[trigger] ledger.history() == history
    }

    /// Whether a state was taken out of here.
    pub closed spec fn lent(&self, held: HeldState) -> bool {
        &&& held.handle.rwlock() == self.lock
        &&& self.lock.inv(held.ledger)
    }

    /// Which ledger was opened for this state.
    pub closed spec fn seal(&self) -> Arc<Seal> {
        self.lock.pred().seal
    }

    /// What is taken out is the very ledger that was opened for this state, so that another one,
    /// with a shorter history, cannot stand in its place.
    pub proof fn law_nothing_replaces_the_ledger(&self, held: HeldState)
        requires
            self.lent(held),
        ensures
            held.seal() == self.seal(),
            self.can_find(held.history()),
            all_let_through(held.history()),
    {
        held.ledger.law_requests_were_let_through();
    }

    /// The histories that a request can find hold no request that the lease refused.
    pub proof fn law_found_requests_were_let_through(&self, history: Seq<IdRequest>)
        requires
            self.can_find(history),
        ensures
            all_let_through(history),
    {
        let ledger = choose|ledger: Ledger|
            self.lock.inv(ledger) && #[trigger] ledger.history() == history;
        ledger.law_requests_were_let_through();
    }

    /// Creates the state before the first request, and gives out the pen that changes it.
    pub fn new(epoch_millis: u64) -> (r: (Self, Pen))
        ensures
            r.0.epoch() == epoch_millis,
            r.0.can_find(Seq::empty()),
            r.1.seal() == r.0.seal(),
    {
        let (ledger, pen) = Ledger::open(epoch_millis);
        let ghost rule = Reachable { epoch_millis, seal: ledger.seal() };
        let ghost first = ledger;
        let r = SharedState { lock: RwLock::new(ledger, Ghost(rule)) };
        assert(r.lock.inv(first) && first.history() == Seq::<IdRequest>::empty());
        (r, pen)
    }

    /// Takes the state out, for nobody else to work on until it is put back.
    pub(crate) fn acquire(&self) -> (r: (SnowflakeState, HeldState<'_>))
        ensures
            self.lent(r.1),
            self.can_find(r.1.history()),
            r.0 == state_after_all(self.epoch(), r.1.history()),
    {
        let (ledger, handle) = self.lock.acquire_write();
        (ledger.state(), HeldState { handle, ledger })
    }

    /// Puts back what a request made of the state that was taken out, for the next one to find.
    /// That the lock opens for it is not claimed: the lock promises nothing of being let go.
    pub(crate) fn release(
        &self,
        held: HeldState<'_>,
        stroke: Stroke,
        request: IdRequest,
        state: SnowflakeState,
    )
        requires
            self.lent(held),
            stroke.seal() == self.seal(),
            lease_refusal(request) is None,
            state == state_after_all(self.epoch(), held.history().push(request)),
        ensures
            self.can_find(held.history().push(request)),
    {
        let HeldState { handle, mut ledger } = held;
        ledger.enter(stroke, request, state);
        let ghost after = ledger;
        assert(self.lock.inv(after) && after.history() == held.history().push(request));
        handle.release_write(ledger);
    }
}

} // verus!
