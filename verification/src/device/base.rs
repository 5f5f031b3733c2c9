//! The bounded circular FIFO shared between an interrupt handler and
//! task-context code.
//!
//! A queue of declared capacity `N` keeps one slot free to tell a full
//! buffer from an empty one, so at most `N - 1` elements are resident at
//! once. The view of a queue is the sequence of resident elements in
//! first-in first-out order. The queue has no intrinsic concurrency
//! protection: the two execution contexts that share one must wrap every
//! operation in the same interrupt-masked critical section.

use vstd::prelude::*;

verus! {

/// A bounded circular FIFO whose capacity is chosen at construction and may
/// be changed later; resizing discards the content.
pub struct DynCycleQueue<T> {
    data: Vec<Option<T>>,
    capacity: usize,
    head: usize,
    tail: usize,
}

impl<T> DynCycleQueue<T> {
    /// The declared capacity; one more than the number of elements the
    /// queue can hold at once.
    pub closed spec fn cap(&self) -> int {
        self.capacity as int
    }

    /// The backing-store index of the `k`-th resident element.
    closed spec fn slot(&self, k: int) -> int {
        if self.head + k < self.capacity {
            self.head + k
        } else {
            self.head + k - self.capacity
        }
    }

    closed spec fn spec_len(&self) -> int {
        if self.tail >= self.head {
            self.tail - self.head
        } else {
            self.tail + self.capacity - self.head
        }
    }

    /// Validity: the backing store matches the declared capacity, both
    /// indices are in range, and every resident slot is occupied.
    pub closed spec fn wf(&self) -> bool {
        &&& self.data@.len() == self.capacity
        &&& 1 <= self.capacity
        &&& self.head < self.capacity
        &&& self.tail < self.capacity
        &&& forall|k: int|
            0 <= k < self.spec_len() ==> (#[trigger] self.data@[self.slot(k)]) is Some
    }

    /// A valid queue holds at most `capacity - 1` elements.
    pub proof fn lemma_len_bound(&self)
        requires
            self.wf(),
        ensures
            0 <= self@.len() <= self.cap() - 1,
    {
    }

    /// A backing store of `n` empty slots.
    fn empty_slots(n: usize) -> (r: Vec<Option<T>>)
        ensures
            r@.len() == n,
            forall|k: int| 0 <= k < n ==> (#[trigger] r@[k]) is None,
    {
        let mut d: Vec<Option<T>> = Vec::new();
        let mut i: usize = 0;
        while i < n
            invariant
                i <= n,
                d@.len() == i,
                forall|k: int| 0 <= k < i ==> (#[trigger] d@[k]) is None,
            decreases n - i,
        {
            d.push(None);
            i = i + 1;
        }
        d
    }

    /// An empty queue of the given capacity; `capacity - 1` slots are
    /// usable.
    pub fn new(capacity: usize) -> (r: DynCycleQueue<T>)
        requires
            capacity >= 1,
        ensures
            r.wf(),
            r@ == Seq::<T>::empty(),
            r.cap() == capacity,
    {
        let r = DynCycleQueue { data: Self::empty_slots(capacity), capacity, head: 0, tail: 0 };
        proof {
            assert(r@ =~= Seq::<T>::empty());
        }
        r
    }

    /// Reallocates to capacity `size` and discards the content; this is not
    /// a data-preserving resize.
    pub fn resize(&mut self, size: usize)
        requires
            size >= 1,
        ensures
            final(self).wf(),
            final(self)@ == Seq::<T>::empty(),
            final(self).cap() == size,
    {
        self.tail = 0;
        self.head = 0;
        self.capacity = size;
        self.data = Self::empty_slots(size);
        proof {
            assert(self@ =~= Seq::<T>::empty());
        }
    }

    /// Resets the queue to empty without touching the backing store.
    pub fn clean(&mut self)
        requires
            old(self).wf(),
        ensures
            final(self).wf(),
            final(self)@ == Seq::<T>::empty(),
            final(self).cap() == old(self).cap(),
    {
        self.tail = 0;
        self.head = 0;
        proof {
            assert(self@ =~= Seq::<T>::empty());
        }
    }

    /// The number of resident elements.
    pub fn length(&self) -> (r: usize)
        requires
            self.wf(),
        ensures
            r == self@.len(),
    {
        if self.tail >= self.head {
            self.tail - self.head
        } else {
            (self.capacity - self.head) + self.tail
        }
    }

    /// How many more elements the queue accepts before it is full.
    pub fn free_len(&self) -> (r: usize)
        requires
            self.wf(),
        ensures
            r == self.cap() - 1 - self@.len(),
    {
        proof {
            self.lemma_len_bound();
        }
        self.capacity - self.length() - 1
    }

    /// True exactly when no element is resident.
    pub fn empty(&self) -> (r: bool)
        requires
            self.wf(),
        ensures
            r == (self@.len() == 0),
    {
        self.head == self.tail
    }

    /// True exactly when `capacity - 1` elements are resident.
    pub fn full(&self) -> (r: bool)
        requires
            self.wf(),
        ensures
            r == (self@.len() == self.cap() - 1),
    {
        let next = if self.tail + 1 == self.capacity {
            0
        } else {
            self.tail + 1
        };
        next == self.head
    }

    /// Removes and returns the oldest element; nothing when the queue is
    /// empty.
    pub fn pop(&mut self) -> (r: Option<T>)
        requires
            old(self).wf(),
        ensures
            final(self).wf(),
            final(self).cap() == old(self).cap(),
            old(self)@.len() == 0 ==> r is None && final(self)@ == old(self)@,
            old(self)@.len() > 0 ==> r == Some(old(self)@[0]) && final(self)@ == old(self)@.drop_first(),
    {
        if self.empty() {
            None
        } else {
            proof {
                self.lemma_len_bound();
                assert(self.data@[self.slot(0)] is Some);
            }
            let val = self.data[self.head].take();
            self.head = if self.head + 1 == self.capacity {
                0
            } else {
                self.head + 1
            };
            proof {
                assert forall|k: int| 0 <= k < self.spec_len() implies (#[trigger] self.data@[self.slot(k)]) is Some by {
                    assert(self.slot(k) == old(self).slot(k + 1));
                }
                assert(self@ =~= old(self)@.drop_first()) by {
                    assert forall|k: int| 0 <= k < self.spec_len() implies self@[k] == old(self)@.drop_first()[k] by {
                        assert(self.slot(k) == old(self).slot(k + 1));
                    }
                }
            }
            Some(val.unwrap())
        }
    }

    /// Inserts at the tail; a full queue rejects the element and hands it
    /// back.
    pub fn push(&mut self, val: T) -> (r: Result<(), T>)
        requires
            old(self).wf(),
        ensures
            final(self).wf(),
            final(self).cap() == old(self).cap(),
            old(self)@.len() == old(self).cap() - 1 ==> r == Err::<(), T>(val) && final(self)@
                == old(self)@,
            old(self)@.len() < old(self).cap() - 1 ==> r == Ok::<(), T>(()) && final(self)@ == old(self)@.push(val),
    {
        proof {
            self.lemma_len_bound();
        }
        if self.full() {
            Err(val)
        } else {
            self.data[self.tail] = Some(val);
            self.tail = if self.tail + 1 == self.capacity {
                0
            } else {
                self.tail + 1
            };
            proof {
                assert(old(self).slot(old(self).spec_len()) == old(self).tail);
                assert(self.spec_len() == old(self).spec_len() + 1);
                assert forall|k: int| 0 <= k < self.spec_len() implies (#[trigger] self.data@[self.slot(k)]) is Some by {
                    assert(self.slot(k) == old(self).slot(k));
                }
                assert(self@ =~= old(self)@.push(val)) by {
                    assert forall|k: int| 0 <= k < self.spec_len() implies self@[k] == old(self)@.push(val)[k] by {
                        assert(self.slot(k) == old(self).slot(k));
                    }
                }
            }
            Ok(())
        }
    }

    /// Inserts at the tail; when the queue is full the oldest element is
    /// evicted first and returned.
    pub fn force_push(&mut self, val: T) -> (r: Option<T>)
        requires
            old(self).wf(),
            old(self).cap() >= 2,
        ensures
            final(self).wf(),
            final(self).cap() == old(self).cap(),
            old(self)@.len() == old(self).cap() - 1 ==> r == Some(old(self)@[0]) && final(self)@
                == old(self)@.drop_first().push(val),
            old(self)@.len() < old(self).cap() - 1 ==> r is None && final(self)@ == old(self)@.push(val),
    {
        proof {
            self.lemma_len_bound();
        }
        if self.full() {
            let evicted = self.pop();
            let _ = self.push(val);
            evicted
        } else {
            let _ = self.push(val);
            None
        }
    }
}

impl<T> View for DynCycleQueue<T> {
    type V = Seq<T>;

    /// The resident elements, oldest first.
    closed spec fn view(&self) -> Seq<T> {
        Seq::new(self.spec_len() as nat, |k: int| self.data@[self.slot(k)]->Some_0)
    }
}


/// A bounded circular FIFO whose capacity `N` is fixed at the type level;
/// `N - 1` slots are usable.
pub struct CycleQueue<T, const N: usize> {
    q: DynCycleQueue<T>,
}

impl<T, const N: usize> CycleQueue<T, N> {
    /// Validity: the backing queue is valid and has the declared capacity.
    pub closed spec fn wf(&self) -> bool {
        self.q.wf() && self.q.cap() == N
    }

    /// An empty queue of capacity `N`.
    pub fn new() -> (r: CycleQueue<T, N>)
        requires
            N >= 1,
        ensures
            r.wf(),
            r@ == Seq::<T>::empty(),
    {
        CycleQueue { q: DynCycleQueue::new(N) }
    }

    /// Resets the queue to empty without touching the backing store.
    pub fn clean(&mut self)
        requires
            old(self).wf(),
        ensures
            final(self).wf(),
            final(self)@ == Seq::<T>::empty(),
    {
        self.q.clean();
    }

    /// The number of resident elements.
    pub fn length(&self) -> (r: usize)
        requires
            self.wf(),
        ensures
            r == self@.len(),
    {
        self.q.length()
    }

    /// How many more elements the queue accepts before it is full.
    pub fn free_len(&self) -> (r: usize)
        requires
            self.wf(),
        ensures
            r == N - 1 - self@.len(),
    {
        self.q.free_len()
    }

    /// True exactly when no element is resident.
    pub fn empty(&self) -> (r: bool)
        requires
            self.wf(),
        ensures
            r == (self@.len() == 0),
    {
        self.q.empty()
    }

    /// True exactly when `N - 1` elements are resident.
    pub fn full(&self) -> (r: bool)
        requires
            self.wf(),
        ensures
            r == (self@.len() == N - 1),
    {
        self.q.full()
    }

    /// Removes and returns the oldest element; nothing when the queue is
    /// empty.
    pub fn pop(&mut self) -> (r: Option<T>)
        requires
            old(self).wf(),
        ensures
            final(self).wf(),
            old(self)@.len() == 0 ==> r is None && final(self)@ == old(self)@,
            old(self)@.len() > 0 ==> r == Some(old(self)@[0]) && final(self)@ == old(self)@.drop_first(),
    {
        self.q.pop()
    }

    /// Inserts at the tail; a full queue rejects the element and hands it
    /// back.
    pub fn push(&mut self, val: T) -> (r: Result<(), T>)
        requires
            old(self).wf(),
        ensures
            final(self).wf(),
            old(self)@.len() == N - 1 ==> r == Err::<(), T>(val) && final(self)@ == old(self)@,
            old(self)@.len() < N - 1 ==> r == Ok::<(), T>(()) && final(self)@ == old(self)@.push(val),
    {
        self.q.push(val)
    }

    /// Inserts at the tail; when the queue is full the oldest element is
    /// evicted first and returned.
    pub fn force_push(&mut self, val: T) -> (r: Option<T>)
        requires
            old(self).wf(),
            N >= 2,
        ensures
            final(self).wf(),
            old(self)@.len() == N - 1 ==> r == Some(old(self)@[0]) && final(self)@ == old(self)@.drop_first().push(val),
            old(self)@.len() < N - 1 ==> r is None && final(self)@ == old(self)@.push(val),
    {
        self.q.force_push(val)
    }
}

impl<T, const N: usize> View for CycleQueue<T, N> {
    type V = Seq<T>;

    /// The resident elements, oldest first.
    closed spec fn view(&self) -> Seq<T> {
        self.q@
    }
}

} // verus!
