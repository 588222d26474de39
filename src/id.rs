use vstd::prelude::*;

verus! {

/// Relies on rand::random: a `usize` drawn from the thread-local generator.
/// Nothing is known of the value.
#[verifier::external_body]
fn random_usize() -> (r: usize) {
    rand::random::<usize>()
}

/// A process-wide identifier of an engine resource.
#[derive(Clone, Copy, Debug, PartialEq, Eq, Hash, Structural)]
pub struct Id(pub usize);

impl Id {
    /// A fresh identifier drawn at random from the whole `usize` range.
    pub fn new() -> (r: Id) {
        Id(random_usize())
    }

    /// The identifier with the given value.
    pub fn from(id: usize) -> (r: Id)
        ensures
            r.0 == id,
    {
        Id(id)
    }

    /// Advances to the next identifier of a counting sequence.
    pub fn next(&mut self)
        requires
            old(self).0 < usize::MAX,
        ensures
            final(self).0 == old(self).0 + 1,
    {
        self.0 = self.0 + 1;
    }

    /// The identifier's value.
    pub fn value(&self) -> (r: usize)
        ensures
            r == self.0,
    {
        self.0
    }
}

} // verus!
