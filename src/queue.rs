//! The worker availability queue: identities of workers ready for a job, in
//! the order in which they became ready.
use crate::codec::Frame;
use std::collections::VecDeque;
use vstd::prelude::*;

verus! {

/// A first-in, first-out queue of worker identities.
pub struct WorkerQueue {
    ids: VecDeque<Frame>,
}

impl View for WorkerQueue {
    type V = Seq<Seq<u8>>;

    /// The identities in the queue, the longest waiting first.
    closed spec fn view(&self) -> Seq<Seq<u8>> {
        self.ids@.map_values(|f: Frame| f@)
    }
}

impl WorkerQueue {
    /// An empty queue.
    pub fn new() -> (r: WorkerQueue)
        ensures
            r@ == Seq::<Seq<u8>>::empty(),
    {
        let r = WorkerQueue { ids: VecDeque::new() };
        assert(r@ =~= Seq::<Seq<u8>>::empty());
        r
    }

    /// The number of identities in the queue.
    pub fn len(&self) -> (r: usize)
        ensures
            r == self@.len(),
    {
        self.ids.len()
    }

    /// Whether the queue holds no identity.
    pub fn is_empty(&self) -> (r: bool)
        ensures
            r == (self@.len() == 0),
    {
        self.ids.len() == 0
    }

    /// The worker that has waited longest, if any.
    pub fn front(&self) -> (r: Option<&Frame>)
        ensures
            self@.len() == 0 ==> r is None,
            self@.len() > 0 ==> r is Some && r->0@ == self@[0],
    {
        if self.ids.len() == 0 {
            None
        } else {
            Some(&self.ids[0])
        }
    }

    /// Adds a worker at the back. An identity already present is added again.
    pub fn push(&mut self, worker_id: Frame)
        ensures
            final(self)@ == old(self)@.push(worker_id@),
    {
        self.ids.push_back(worker_id);
        assert(self@ =~= old(self)@.push(worker_id@));
    }

    /// Takes the worker at the front, if there is one.
    pub fn pop(&mut self) -> (r: Option<Frame>)
        ensures
            old(self)@.len() == 0 ==> r is None && final(self)@ == old(self)@,
            old(self)@.len() > 0 ==> r is Some && r->0@ == old(self)@[0] && final(self)@
                == old(self)@.drop_first(),
    {
        let r = self.ids.pop_front();
        assert(self@ =~= if old(self)@.len() == 0 {
            old(self)@
        } else {
            old(self)@.drop_first()
        });
        r
    }
}

} // verus!
