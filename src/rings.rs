use vstd::prelude::*;
use crate::error::CoreError;

verus! {

/// What a push does to a ring holding `q` (oldest first) with room for `cap`
/// elements: the new contents and the result handed back.
pub open spec fn spec_push<T>(q: Seq<T>, cap: nat, v: T) -> (Seq<T>, Result<(), CoreError>) {
    if q.len() < cap {
        (q.push(v), Ok(()))
    } else {
        (q, Err(CoreError::RingFull))
    }
}

/// What a pop does to a ring holding `q` (oldest first): the new contents and
/// the result handed back.
pub open spec fn spec_pop<T>(q: Seq<T>) -> (Seq<T>, Result<T, CoreError>) {
    if q.len() > 0 {
        (q.drop_first(), Ok(q[0]))
    } else {
        (q, Err(CoreError::RingEmpty))
    }
}

/// A fixed-capacity FIFO channel between one producer and one consumer.
///
/// The storage is `capacity` slots. The live elements occupy `len` consecutive
/// slots (modulo `capacity`) starting at the read cursor `tail`; the write
/// cursor is `tail + len` reduced modulo `capacity`. Every other slot is empty,
/// so each element is owned by exactly one slot while it is in flight; when the
/// ring is dropped, the elements still resident are released exactly once each.
///
/// Push and pop take the ring by `&mut`: the single-producer / single-consumer
/// discipline is then enforced by the borrow checker instead of by contract.
pub struct SpscRing<T> {
    buffer: Vec<Option<T>>,
    capacity: usize,
    tail: usize,
    len: usize,
}

impl<T> View for SpscRing<T> {
    type V = Seq<T>;

    /// The live elements, oldest first.
    closed spec fn view(&self) -> Seq<T> {
        Seq::new(self.len as nat, |k: int| self.buffer@[self.slot_of(k)]->Some_0)
    }
}

impl<T> SpscRing<T> {
    /// The number of elements the ring can hold.
    pub closed spec fn spec_capacity(&self) -> nat {
        self.capacity as nat
    }

    /// The slot that holds the `k`-th oldest live element (for `k < capacity`).
    closed spec fn slot_of(&self, k: int) -> int {
        if self.tail + k < self.capacity {
            self.tail + k
        } else {
            self.tail + k - self.capacity
        }
    }

    /// Whether slot `i` lies in the live window that starts at `tail`.
    closed spec fn is_live(&self, i: int) -> bool {
        if self.tail + self.len <= self.capacity {
            self.tail <= i < self.tail + self.len
        } else {
            self.tail <= i || i < self.tail + self.len - self.capacity
        }
    }

    /// The ring's invariant: the storage has `capacity` slots, the cursor is a
    /// slot index, and a slot is occupied exactly when it is in the live window.
    pub closed spec fn wf(&self) -> bool {
        &&& self.capacity > 0
        &&& self.buffer@.len() == self.capacity
        &&& self.tail < self.capacity
        &&& self.len <= self.capacity
        &&& forall|i: int|
            0 <= i < self.capacity ==> (#[trigger] self.buffer@[i] is Some <==> self.is_live(i))
    }

    /// Creates an empty ring holding up to `capacity` elements.
    pub fn with_capacity(capacity: usize) -> (r: Self)
        requires
            capacity > 0,
        ensures
            r.wf(),
            r@ == Seq::<T>::empty(),
            r.spec_capacity() == capacity,
    {
        let mut buffer: Vec<Option<T>> = Vec::with_capacity(capacity);
        let mut i: usize = 0;
        while i < capacity
            invariant
                i <= capacity,
                buffer@.len() == i,
                forall|j: int| 0 <= j < i ==> (#[trigger] buffer@[j]) is None,
            decreases capacity - i,
        {
            buffer.push(None);
            i = i + 1;
        }
        let r = SpscRing { buffer, capacity, tail: 0, len: 0 };
        assert(r@ =~= Seq::<T>::empty());
        r
    }

    /// Appends `value` behind the newest element, or reports `RingFull`
    /// (dropping `value` and leaving the ring as it was) when the ring holds
    /// `capacity` elements.
    pub fn push(&mut self, value: T) -> (r: Result<(), CoreError>)
        requires
            old(self).wf(),
        ensures
            final(self).wf(),
            final(self).spec_capacity() == old(self).spec_capacity(),
            (final(self)@, r) == spec_push(old(self)@, old(self).spec_capacity(), value),
    {
        if self.len == self.capacity {
            return Err(CoreError::RingFull);
        }
        let index: usize = if self.len < self.capacity - self.tail {
            self.tail + self.len
        } else {
            self.len - (self.capacity - self.tail)
        };
        let ghost before = *self;
        assert(index == before.slot_of(before.len as int));
        self.buffer.set(index, Some(value));
        self.len = self.len + 1;
        assert forall|i: int| 0 <= i < self.capacity implies (#[trigger] self.buffer@[i] is Some
            <==> self.is_live(i)) by {
            if i != index {
                assert(before.buffer@[i] == self.buffer@[i]);
            }
        }
        assert forall|k: int| 0 <= k < before.len implies self.slot_of(k) == before.slot_of(k)
            && self.slot_of(k) != index by {}
        assert(self@ =~= before@.push(value));
        Ok(())
    }

    /// Removes and returns the oldest element, or reports `RingEmpty`
    /// (leaving the ring as it was) when the ring holds no elements.
    pub fn pop(&mut self) -> (r: Result<T, CoreError>)
        requires
            old(self).wf(),
        ensures
            final(self).wf(),
            final(self).spec_capacity() == old(self).spec_capacity(),
            (final(self)@, r) == spec_pop(old(self)@),
    {
        if self.len == 0 {
            return Err(CoreError::RingEmpty);
        }
        let ghost before = *self;
        let index = self.tail;
        let mut out: Option<T> = None;
        self.buffer.set_and_swap(index, &mut out);
        assert(before.is_live(index as int));
        self.tail = if self.tail + 1 == self.capacity { 0 } else { self.tail + 1 };
        self.len = self.len - 1;
        assert forall|i: int| 0 <= i < self.capacity implies (#[trigger] self.buffer@[i] is Some
            <==> self.is_live(i)) by {
            if i != index {
                assert(before.buffer@[i] == self.buffer@[i]);
            }
        }
        assert forall|k: int| 0 <= k < self.len implies self.slot_of(k) == before.slot_of(k + 1)
            && self.slot_of(k) != index by {}
        assert(self@ =~= before@.drop_first());
        match out {
            Some(value) => Ok(value),
            None => Err(CoreError::RingEmpty),
        }
    }

    /// The number of elements currently held.
    pub fn len(&self) -> (r: usize)
        requires
            self.wf(),
        ensures
            r == self@.len(),
    {
        self.len
    }

    /// Whether the ring holds no elements; exactly when a pop would report
    /// `RingEmpty`.
    pub fn is_empty(&self) -> (r: bool)
        requires
            self.wf(),
        ensures
            r == (self@.len() == 0),
    {
        self.len() == 0
    }

    /// The number of elements the ring can hold, fixed at construction.
    pub fn capacity(&self) -> (r: usize)
        requires
            self.wf(),
        ensures
            r == self.spec_capacity(),
    {
        self.capacity
    }
}

} // verus!
