//! What every ID generator offers, and batches of IDs.

use crate::calls::{law_made_outcomes_can_be_issued, made_in_order, CallRecord};
use crate::error::IdGenError;
use vstd::prelude::*;

verus! {

/// What a call for an ID came to: the text of the ID, or of the error.
pub open spec fn issue_of(r: Result<String, IdGenError>) -> Result<Seq<char>, Seq<char>> {
    match r {
        Ok(id) => Ok(id@),
        Err(e) => Err(e.message@),
    }
}

/// A strategy-agnostic trait for generating unique identifiers.
///
/// Both Snowflake and UUID generators implement this trait, allowing
/// callers to swap ID generation strategies.
pub trait IdGenerator: Send + Sync {
    /// Whether a call of `next_id` can come to this.
    spec fn can_issue(&self, outcome: Result<Seq<char>, Seq<char>>) -> bool;

    /// The label, as text.
    spec fn label_text(&self) -> Seq<char>;

    /// Generate a new identifier and return it as a string.
    fn next_id(&self) -> (r: Result<String, IdGenError>)
        ensures
            self.can_issue(issue_of(r)),
    ;

    /// Human-readable label for this generator (e.g. "snowflake", "uuid-v4").
    fn label(&self) -> (r: &str)
        ensures
            r@ == self.label_text(),
    ;
}

/// Adds an ID to a batch, or passes the error on that came in its place.
pub fn add_to_batch(ids: &mut Vec<String>, issued: Result<String, IdGenError>) -> (r: Result<
    (),
    IdGenError,
>)
    ensures
        match issued {
            Ok(id) => r is Ok && final(ids)@ == old(ids)@.push(id),
            Err(e) => r == Err::<(), IdGenError>(e) && final(ids)@ == old(ids)@,
        },
{
    match issued {
        Ok(id) => {
            ids.push(id);
            Ok(())
        },
        Err(e) => Err(e),
    }
}

/// Whether a batch of `count` IDs came to `r` by calls of `next_id` that came to `outcomes`, one
/// call for each ID and none after a failure.
pub open spec fn batch_came_of(
    count: usize,
    outcomes: Seq<Result<Seq<char>, Seq<char>>>,
    r: Result<Vec<String>, IdGenError>,
) -> bool {
    match r {
        Ok(ids) => {
            &&& outcomes.len() == count
            &&& ids@.len() == count
            &&& forall|i: int|
                0 <= i < count ==> outcomes[i] == Ok::<Seq<char>, Seq<char>>(#[trigger] ids@[i]@)
        },
        Err(e) => {
            &&& 0 < outcomes.len() <= count
            &&& outcomes.last() == Err::<Seq<char>, Seq<char>>(e.message@)
            &&& forall|i: int| 0 <= i < outcomes.len() - 1 ==> (#[trigger] outcomes[i]) is Ok
        },
    }
}

/// Generate a batch of unique IDs using the given generator.
///
/// Each ID comes of a call of its own, in order. The first failure ends the batch.
pub fn generate_batch(generator: &dyn IdGenerator, count: usize) -> (r: Result<
    Vec<String>,
    IdGenError,
>)
    ensures
        match r {
            Ok(ids) => ids@.len() == count && forall|i: int|
                0 <= i < count ==> generator.can_issue(Ok(#[trigger] ids@[i]@)),
            Err(e) => count > 0 && generator.can_issue(Err(e.message@)),
        },
        exists|outcomes: Seq<Result<Seq<char>, Seq<char>>>| #[trigger]
            made_in_order(generator, outcomes) && batch_came_of(count, outcomes, r),
{
    let mut record = CallRecord::new(generator);
    let mut ids: Vec<String> = Vec::new();
    for k in 0..count
        invariant
            ids@.len() == k,
            record.outcomes().len() == k,
            made_in_order(generator, record.outcomes()),
            forall|i: int|
                0 <= i < k ==> record.outcomes()[i] == Ok::<Seq<char>, Seq<char>>(
                    #[trigger] ids@[i]@,
                ),
    {
        let issued = record.call(generator);
        match add_to_batch(&mut ids, issued) {
            Ok(_) => {},
            Err(e) => {
                let ghost outcomes = record.outcomes();
                proof {
                    assert forall|i: int| 0 <= i < outcomes.len() - 1 implies (
                    #[trigger] outcomes[i]) is Ok by {
                        assert(outcomes[i] == Ok::<Seq<char>, Seq<char>>(ids@[i]@));
                    }
                    assert(made_in_order(generator, outcomes));
                }
                return Err(e);
            },
        }
    }
    proof {
        let outcomes = record.outcomes();
        assert forall|i: int| 0 <= i < count implies generator.can_issue(
            Ok(#[trigger] ids@[i]@),
        ) by {
            law_made_outcomes_can_be_issued(generator, outcomes, i);
        }
        assert(made_in_order(generator, outcomes));
    }
    Ok(ids)
}

} // verus!
