//! The binary tagged union of two producers, itself a producer.

use vstd::prelude::*;

use crate::producer::Producer;

verus! {

/// A tagged union over exactly two producer types `I` and `J` that yield the
/// same element type. Exactly one variant is populated, chosen once at
/// construction and never re-tagged; the union is itself a producer and
/// delegates every `next` call, unmodified, to whichever producer it holds.
///
/// More than two branches unify by nesting: a right-leaning chain
/// `MyIter<P0, MyIter<P1, P2>>` and so on, one level per additional branch
/// (see [`crate::unify`]).
pub enum MyIter<I, J> where I: Producer, J: Producer<Item = I::Item> {
    A(I),
    B(J),
}

impl<I, J> Producer for MyIter<I, J> where I: Producer, J: Producer<Item = I::Item> {
    type Item = I::Item;

    /// The union's remaining elements are exactly the active producer's.
    open spec fn remaining(&self) -> Seq<I::Item> {
        match self {
            MyIter::A(it) => it.remaining(),
            MyIter::B(it) => it.remaining(),
        }
    }

    /// Delegates unconditionally to the held producer: no buffering, no
    /// lookahead, no interleaving; exhaustion passes through unchanged.
    fn next(&mut self) -> (r: Option<I::Item>) {
        match self {
            MyIter::A(it) => it.next(),
            MyIter::B(it) => it.next(),
        }
    }
}

} // verus!
