//! Widget and window identifiers.

use vstd::prelude::*;

verus! {

/// Identifier of a widget or a window. Identifiers are compared by value.
pub type Id = u64;

/// Hands out identifiers in increasing order, starting at zero.
pub struct IdGen {
    next: Id,
}

impl IdGen {
    /// The identifier that the next call of `next` returns.
    pub closed spec fn upcoming(&self) -> Id {
        self.next
    }

    /// A generator that has handed out nothing yet.
    pub fn new() -> (generator: IdGen)
        ensures
            generator.upcoming() == 0,
    {
        IdGen { next: 0 }
    }

    /// Whether every identifier was handed out, so that `next` can give no
    /// further one.
    pub fn is_exhausted(&self) -> (exhausted: bool)
        ensures
            exhausted == (self.upcoming() == u64::MAX),
    {
        self.next == u64::MAX
    }

    /// Hands out the upcoming identifier and moves on by one, so that no
    /// identifier is handed out twice.
    pub fn next(&mut self) -> (id: Id)
        requires
            old(self).upcoming() < u64::MAX,
        ensures
            id == old(self).upcoming(),
            final(self).upcoming() == old(self).upcoming() + 1,
    {
        let id: Id = self.next;
        self.next = self.next + 1;
        id
    }
}

} // verus!
