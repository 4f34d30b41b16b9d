//! The right to write in a ledger or a book.

use std::sync::atomic::AtomicBool;
use std::sync::Arc;
use vstd::prelude::*;

verus! {

/// What tells one ledger or book from another.
pub struct Seal {
    mark: AtomicBool,
}

/// The right to write in whatever carries a seal, as often as one likes.
pub struct Pen {
    seal: Arc<Seal>,
}

/// The right to write in whatever carries a seal, once.
pub struct Stroke {
    seal: Arc<Seal>,
}

impl Clone for Pen {
    fn clone(&self) -> (r: Self)
        ensures
            r == *self,
    {
        Pen { seal: self.seal.clone() }
    }
}

impl Stroke {
    /// The seal that the stroke is good for.
    pub closed spec fn seal(&self) -> Arc<Seal> {
        self.seal
    }
}

impl Pen {
    /// The seal that the pen is good for.
    pub closed spec fn seal(&self) -> Arc<Seal> {
        self.seal
    }

    /// Makes a pen, with a seal of its own.
    pub fn cut() -> Self {
        Pen { seal: Arc::new(Seal { mark: AtomicBool::new(true) }) }
    }

    /// The seal, for what the pen is to write in.
    pub fn to_seal(&self) -> (r: Arc<Seal>)
        ensures
            r == self.seal(),
    {
        self.seal.clone()
    }

    /// The right to write once.
    pub fn stroke(&self) -> (r: Stroke)
        ensures
            r.seal() == self.seal(),
    {
        Stroke { seal: self.seal.clone() }
    }
}

} // verus!
