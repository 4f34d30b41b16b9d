//! Calls of `next_id`, counted and kept in order.

use crate::error::IdGenError;
use crate::generator::{issue_of, IdGenerator};
use vstd::prelude::*;

verus! {

/// Whether these are the outcomes of as many calls of `next_id`, one after the other. Only a record
/// that the calls were made under shows it.
pub closed spec fn made_in_order<G: IdGenerator + ?Sized>(
    generator: &G,
    outcomes: Seq<Result<Seq<char>, Seq<char>>>,
) -> bool {
    forall|i: int| 0 <= i < outcomes.len() ==> generator.can_issue(#[trigger] outcomes[i])
}

/// Each outcome of a series of calls is one that the generator can come to.
pub proof fn law_made_outcomes_can_be_issued<G: IdGenerator + ?Sized>(
    generator: &G,
    outcomes: Seq<Result<Seq<char>, Seq<char>>>,
    i: int,
)
    requires
        made_in_order(generator, outcomes),
        0 <= i < outcomes.len(),
    ensures
        generator.can_issue(outcomes[i]),
{
}

/// A record of calls: what each of them came to, in order. It can only grow, by one call at a time,
/// and it holds no IDs that could be handed out again.
pub struct CallRecord {
    outcomes: Ghost<Seq<Result<Seq<char>, Seq<char>>>>,
}

impl CallRecord {
    /// What the calls came to.
    pub closed spec fn outcomes(&self) -> Seq<Result<Seq<char>, Seq<char>>> {
        self.outcomes@
    }

    /// Starts a record, with no call in it.
    pub fn new<G: IdGenerator + ?Sized>(generator: &G) -> (r: Self)
        ensures
            r.outcomes() == Seq::<Result<Seq<char>, Seq<char>>>::empty(),
            made_in_order(generator, r.outcomes()),
    {
        CallRecord { outcomes: Ghost(Seq::empty()) }
    }

    /// Calls `next_id` once, and adds what it came to.
    pub fn call<G: IdGenerator + ?Sized>(&mut self, generator: &G) -> (r: Result<
        String,
        IdGenError,
    >)
        requires
            made_in_order(generator, old(self).outcomes()),
        ensures
            final(self).outcomes() == old(self).outcomes().push(issue_of(r)),
            made_in_order(generator, final(self).outcomes()),
            generator.can_issue(issue_of(r)),
    {
        let ghost before = self.outcomes@;
        let r = generator.next_id();
        let ghost after = before.push(issue_of(r));
        assert forall|i: int| 0 <= i < after.len() implies generator.can_issue(
            #[trigger] after[i],
        ) by {
            if i < before.len() {
                assert(after[i] == before[i]);
            }
        }
        self.outcomes = Ghost(after);
        r
    }
}

} // verus!
