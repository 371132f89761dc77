//! The staging ring between the tuner reader and the fan-out to listeners:
//! a FIFO of at most `RING_CAPACITY` chunks that drops its oldest chunk when a
//! new one arrives while it is full, so a stalled consumer never blocks the reader.

use vstd::prelude::*;
use std::collections::VecDeque;
use crate::rates::RING_CAPACITY;

verus! {

/// The ring after `x` arrives in a ring holding `s`.
pub open spec fn ring_push<T>(s: Seq<T>, x: T) -> Seq<T> {
    if s.len() >= RING_CAPACITY {
        s.drop_first().push(x)
    } else {
        s.push(x)
    }
}

/// The ring after the chunks `xs` arrive, in order, in a ring holding `s`.
pub open spec fn ring_push_all<T>(s: Seq<T>, xs: Seq<T>) -> Seq<T>
    decreases xs.len(),
{
    if xs.len() == 0 {
        s
    } else {
        ring_push(ring_push_all(s, xs.drop_last()), xs.last())
    }
}

/// The newest `RING_CAPACITY` chunks of `xs`, oldest first.
pub open spec fn newest<T>(xs: Seq<T>) -> Seq<T> {
    if xs.len() > RING_CAPACITY {
        xs.skip(xs.len() - RING_CAPACITY)
    } else {
        xs
    }
}

/// Bounded FIFO of chunks that evicts the oldest when full.
pub struct IqRing<T> {
    deque: VecDeque<T>,
}

impl<T> View for IqRing<T> {
    type V = Seq<T>;

    closed spec fn view(&self) -> Seq<T> {
        self.deque@
    }
}

impl<T> IqRing<T> {
    #[verifier::type_invariant]
    spec fn bounded(self) -> bool {
        self.deque@.len() <= RING_CAPACITY
    }

    /// An empty ring.
    pub fn new() -> (r: Self)
        ensures
            r@ == Seq::<T>::empty(),
    {
        IqRing { deque: VecDeque::with_capacity(RING_CAPACITY) }
    }

    /// Stages a chunk, dropping the oldest one first when the ring is full.
    pub fn push(&mut self, chunk: T)
        ensures
            final(self)@ == ring_push(old(self)@, chunk),
            final(self)@.len() <= RING_CAPACITY,
    {
        proof {
            use_type_invariant(&*self);
        }
        let mut d: VecDeque<T> = VecDeque::new();
        std::mem::swap(&mut d, &mut self.deque);
        if d.len() >= RING_CAPACITY {
            let _ = d.pop_front();
        }
        d.push_back(chunk);
        self.deque = d;
    }

    /// Takes the oldest staged chunk, if any.
    pub fn pop(&mut self) -> (r: Option<T>)
        ensures
            match r {
                Some(x) => old(self)@.len() > 0 && x == old(self)@[0] && final(self)@
                    == old(self)@.drop_first(),
                None => old(self)@.len() == 0 && final(self)@ == old(self)@,
            },
    {
        proof {
            use_type_invariant(&*self);
        }
        let mut d: VecDeque<T> = VecDeque::new();
        std::mem::swap(&mut d, &mut self.deque);
        let r = d.pop_front();
        self.deque = d;
        r
    }

    /// Number of staged chunks.
    pub fn len(&self) -> (r: usize)
        ensures
            r == self@.len(),
            r <= RING_CAPACITY,
    {
        proof {
            use_type_invariant(self);
        }
        self.deque.len()
    }
}

/// Arrival of one chunk keeps the ring equal to the newest chunks seen.
proof fn lemma_push_newest<T>(xs: Seq<T>, x: T)
    ensures
        ring_push(newest(xs), x) =~= newest(xs.push(x)),
{
}

/// Starting empty, after any run of arrivals the ring holds exactly the newest
/// `RING_CAPACITY` chunks, oldest first: nothing newer is ever dropped and the
/// order of arrival is kept.
pub proof fn law_ring_keeps_newest<T>(xs: Seq<T>)
    ensures
        ring_push_all(Seq::<T>::empty(), xs) == newest(xs),
    decreases xs.len(),
{
    if xs.len() == 0 {
        assert(newest(xs) =~= xs);
    } else {
        law_ring_keeps_newest(xs.drop_last());
        lemma_push_newest(xs.drop_last(), xs.last());
        assert(xs.drop_last().push(xs.last()) =~= xs);
    }
}

} // verus!
