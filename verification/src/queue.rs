//! The bounded first-in first-out queue of scheduled tasks.
use vstd::prelude::*;
use crate::base::{Error, RtoResult};
use crate::errors::COLLECTION_FULL;

verus! {

/// The slot of the `k`-th queued item, counting from `head`, in a ring of `n` slots.
pub open spec fn ring_index(head: int, k: int, n: int) -> int {
    if head + k < n { head + k } else { head + k - n }
}

/// The number of queued items between `head` and `tail` in a ring of `n` slots.
pub open spec fn ring_count(head: int, tail: int, n: int) -> int {
    if tail >= head { tail - head } else { tail + n - head }
}

/// A ring buffer of `n` slots that holds up to `n - 1` items in the order they were pushed.
pub struct TaskQueue<T> {
    slots: Vec<Option<T>>,
    head: usize,
    tail: usize,
}

impl<T> TaskQueue<T> {
    /// The queue is well formed: head and tail lie in the ring and every queued slot is filled.
    pub closed spec fn wf(&self) -> bool {
        let n = self.slots@.len() as int;
        &&& n >= 1
        &&& self.head < n
        &&& self.tail < n
        &&& forall|k: int| 0 <= k < ring_count(self.head as int, self.tail as int, n) ==>
                (#[trigger] self.slots@[ring_index(self.head as int, k, n)]) is Some
    }

    /// The number of slots of the ring.
    pub closed spec fn slot_count(&self) -> nat {
        self.slots@.len()
    }

    /// The queued items, oldest first.
    pub closed spec fn view(&self) -> Seq<T> {
        let n = self.slots@.len() as int;
        Seq::new(
            ring_count(self.head as int, self.tail as int, n) as nat,
            |k: int| self.slots@[ring_index(self.head as int, k, n)].unwrap(),
        )
    }

    /// The largest number of items the queue holds.
    pub open spec fn spec_capacity(&self) -> nat {
        (self.slot_count() - 1) as nat
    }

    /// An empty queue that holds up to `capacity` items.
    pub fn with_capacity(capacity: usize) -> (q: TaskQueue<T>)
        requires
            capacity < usize::MAX,
        ensures
            q.wf(),
            q.spec_capacity() == capacity,
            q.view() == Seq::<T>::empty(),
    {
        Self::new(capacity + 1)
    }

    /// An empty queue of `slots` slots, which holds up to `slots - 1` items.
    pub fn new(slots: usize) -> (q: TaskQueue<T>)
        requires
            slots >= 1,
        ensures
            q.wf(),
            q.slot_count() == slots,
            q.view() == Seq::<T>::empty(),
    {
        let mut v: Vec<Option<T>> = Vec::new();
        let mut i: usize = 0;
        while i < slots
            invariant
                v@.len() == i,
                i <= slots,
            decreases slots - i,
        {
            v.push(None);
            i = i + 1;
        }
        let q = TaskQueue { slots: v, head: 0, tail: 0 };
        assert(q.view() =~= Seq::<T>::empty());
        q
    }

    /// The number of queued items.
    pub fn len(&self) -> (l: usize)
        requires
            self.wf(),
        ensures
            l == self.view().len(),
    {
        if self.tail >= self.head {
            self.tail - self.head
        } else {
            self.slots.len() - self.head + self.tail
        }
    }

    /// Whether no item is queued.
    pub fn is_empty(&self) -> (b: bool)
        requires
            self.wf(),
        ensures
            b == (self.view().len() == 0),
    {
        self.tail == self.head
    }

    /// The largest number of items the queue holds.
    pub fn capacity(&self) -> (c: usize)
        requires
            self.wf(),
        ensures
            c == self.spec_capacity(),
    {
        self.slots.len() - 1
    }

    /// Append `item`; refused with `COLLECTION_FULL`, dropping the item, when the queue is full.
    pub fn push(&mut self, item: T) -> (r: RtoResult<()>)
        requires
            old(self).wf(),
        ensures
            final(self).wf(),
            final(self).slot_count() == old(self).slot_count(),
            (r is Ok) == (old(self).view().len() < old(self).spec_capacity()),
            r is Ok ==> final(self).view() == old(self).view().push(item),
            r matches Err(e) ==> e.code == COLLECTION_FULL && final(self).view() == old(self).view(),
    {
        let n = self.slots.len();
        let new_tail = if self.tail + 1 == n { 0 } else { self.tail + 1 };
        if new_tail == self.head {
            return Err(Error::from_code(COLLECTION_FULL));
        }
        let ghost before = self.view();
        let t = self.tail;
        self.slots.set(t, Some(item));
        self.tail = new_tail;
        proof {
            let ni = n as int;
            let h = self.head as int;
            assert(ring_count(h, t as int, ni) == before.len());
            assert(ring_index(h, before.len() as int, ni) == t);
            assert forall|k: int| 0 <= k < ring_count(h, self.tail as int, ni) implies
                (#[trigger] self.slots@[ring_index(h, k, ni)]) is Some by {
                if k < before.len() {
                    assert(ring_index(h, k, ni) != t);
                }
            }
            assert forall|k: int| 0 <= k < before.len() implies
                #[trigger] self.view()[k] == before[k] by {
                assert(ring_index(h, k, ni) != t);
            }
            assert(self.view() =~= before.push(item));
        }
        Ok(())
    }

    /// Take the oldest item, if any.
    pub fn pop(&mut self) -> (r: Option<T>)
        requires
            old(self).wf(),
        ensures
            final(self).wf(),
            final(self).slot_count() == old(self).slot_count(),
            old(self).view().len() == 0 ==> r is None && final(self).view() == old(self).view(),
            old(self).view().len() > 0 ==> r == Some(old(self).view()[0]) && final(self).view() == old(self).view().drop_first(),
    {
        if self.head == self.tail {
            return None;
        }
        let ghost before = self.view();
        let n = self.slots.len();
        let h = self.head;
        let item = self.slots[h].take();
        self.head = if h + 1 == n { 0 } else { h + 1 };
        proof {
            let ni = n as int;
            assert(before[0] == item.unwrap()) by {
                assert(ring_index(h as int, 0, ni) == h);
            }
            assert forall|k: int| 0 <= k < ring_count(self.head as int, self.tail as int, ni) implies
                (#[trigger] self.slots@[ring_index(self.head as int, k, ni)]) is Some by {
                assert(ring_index(self.head as int, k, ni) == ring_index(h as int, k + 1, ni));
                assert(ring_index(h as int, k + 1, ni) != h);
            }
            assert forall|k: int| 0 <= k < before.len() - 1 implies #[trigger] self.view()[k] == before[k + 1] by {
                assert(ring_index(self.head as int, k, ni) == ring_index(h as int, k + 1, ni));
                assert(ring_index(h as int, k + 1, ni) != h);
            }
            assert(self.view() =~= before.drop_first());
        }
        item
    }

    /// Remove every queued item; returns them, oldest first.
    pub fn clear(&mut self) -> (removed: Vec<T>)
        requires
            old(self).wf(),
        ensures
            final(self).wf(),
            final(self).slot_count() == old(self).slot_count(),
            final(self).view().len() == 0,
            removed@ == old(self).view(),
    {
        let mut removed: Vec<T> = Vec::new();
        let ghost all = self.view();
        while self.head != self.tail
            invariant
                self.wf(),
                self.slot_count() == old(self).slot_count(),
                all == removed@ + self.view(),
            decreases self.view().len(),
        {
            let ghost before = self.view();
            match self.pop() {
                Some(item) => {
                    removed.push(item);
                    assert(all == removed@ + self.view()) by {
                        assert(before =~= seq![item] + before.drop_first());
                        assert(removed@ + self.view() =~= (removed@.drop_last() + seq![item]) + before.drop_first());
                    }
                },
                None => {},
            }
        }
        assert(self.view().len() == 0);
        assert(removed@ =~= all);
        removed
    }
}

/// First in, first out: items come out of the queue in the order they went in, and a queue
/// of `n` slots takes exactly `n - 1` items.
pub proof fn lemma_fifo<T>(queued: Seq<T>, item: T)
    ensures
        queued.push(item).drop_first() == (if queued.len() > 0 { queued.drop_first().push(item) } else { Seq::<T>::empty() }),
        queued.len() > 0 ==> queued.push(item)[0] == queued[0],
        queued.len() == 0 ==> queued.push(item)[0] == item,
{
    if queued.len() > 0 {
        assert(queued.push(item).drop_first() =~= queued.drop_first().push(item));
    } else {
        assert(queued.push(item).drop_first() =~= Seq::<T>::empty());
    }
}

} // verus!
