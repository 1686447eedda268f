//! The iterator protocol, and a few elementary producers of it.

use vstd::prelude::*;

verus! {

/// A producer of elements: the iterator protocol. Calling [`Producer::next`]
/// yields the next element, or signals exhaustion with `None`; after
/// exhaustion every further call keeps signalling exhaustion.
///
/// `remaining` is the mathematical model: the sequence of elements the
/// producer will still yield, in order.
pub trait Producer: Sized {
    type Item;

    /// The elements this producer will still yield, in order.
    spec fn remaining(&self) -> Seq<Self::Item>;

    /// Yield the next element, or `None` once exhausted.
    fn next(&mut self) -> (r: Option<Self::Item>)
        ensures
            old(self).remaining().len() == 0 ==> {
                &&& r is None
                &&& final(self).remaining() == old(self).remaining()
            },
            old(self).remaining().len() > 0 ==> {
                &&& r == Some(old(self).remaining()[0])
                &&& final(self).remaining() == old(self).remaining().drop_first()
            },
    ;
}

/// A producer that yields the elements of a `Vec`, front to back.
pub struct VecProducer<T> {
    items: Vec<T>,
}

impl<T> VecProducer<T> {
    pub fn new(items: Vec<T>) -> (r: Self)
        ensures
            r.remaining() == items@,
    {
        VecProducer { items }
    }
}

impl<T> Producer for VecProducer<T> {
    type Item = T;

    closed spec fn remaining(&self) -> Seq<T> {
        self.items@
    }

    fn next(&mut self) -> (r: Option<T>) {
        if self.items.len() == 0 {
            None
        } else {
            let x = self.items.remove(0);
            proof {
                assert(old(self).items@.remove(0) =~= old(self).items@.drop_first());
            }
            Some(x)
        }
    }
}

/// A producer that yields exactly one element.
pub struct OnceProducer<T> {
    item: Option<T>,
}

impl<T> OnceProducer<T> {
    pub fn new(item: T) -> (r: Self)
        ensures
            r.remaining() == seq![item],
    {
        OnceProducer { item: Some(item) }
    }
}

impl<T> Producer for OnceProducer<T> {
    type Item = T;

    closed spec fn remaining(&self) -> Seq<T> {
        match self.item {
            Some(t) => seq![t],
            None => Seq::empty(),
        }
    }

    fn next(&mut self) -> (r: Option<T>) {
        let r = self.item.take();
        proof {
            if old(self).item is Some {
                assert(old(self).remaining().drop_first() =~= final(self).remaining());
            }
        }
        r
    }
}

/// A producer that yields nothing.
pub struct EmptyProducer<T> {
    marker: core::marker::PhantomData<T>,
}

impl<T> EmptyProducer<T> {
    pub fn new() -> (r: Self)
        ensures
            r.remaining() == Seq::<T>::empty(),
    {
        EmptyProducer { marker: core::marker::PhantomData }
    }
}

impl<T> Producer for EmptyProducer<T> {
    type Item = T;

    closed spec fn remaining(&self) -> Seq<T> {
        Seq::empty()
    }

    fn next(&mut self) -> (r: Option<T>) {
        None
    }
}

/// Pull elements from a producer until it signals exhaustion, collecting them
/// in order. The result is exactly the producer's remaining sequence: draining
/// terminates after exactly that many elements, with no extra or missing
/// terminal signal, whatever the producer — in particular through a nested
/// chain of [`crate::sum::MyIter`] unions of any depth.
pub fn drain<P: Producer>(p: P) -> (r: Vec<P::Item>)
    ensures
        r@ == p.remaining(),
{
    let mut q = p;
    let mut out: Vec<P::Item> = Vec::new();
    proof {
        assert(out@ + q.remaining() =~= p.remaining());
    }
    loop
        invariant
            out@ + q.remaining() == p.remaining(),
        ensures
            out@ == p.remaining(),
        decreases q.remaining().len(),
    {
        match q.next() {
            Some(x) => {
                out.push(x);
                proof {
                    assert(out@ + q.remaining() =~= p.remaining());
                }
            },
            None => {
                proof {
                    assert(out@ + q.remaining() =~= out@);
                }
                break;
            },
        }
    }
    out
}

} // verus!
