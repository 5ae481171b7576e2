//! A bounded first-in first-out queue over caller-supplied storage.
//!
//! The queue never allocates after construction. When it is full, `enqueue`
//! drops the new element and reports it by returning `false`; the queued
//! elements are left untouched.
use vstd::prelude::*;

verus! {

pub struct RingBuffer<T> {
    ring: Vec<T>,
    head: usize,
    len: usize,
}

/// The contents after offering `v` to a queue holding `q` with room for `cap`:
/// appended at the back when there is room, dropped otherwise.
pub open spec fn enqueue_spec<T>(q: Seq<T>, cap: nat, v: T) -> Seq<T> {
    if q.len() < cap {
        q.push(v)
    } else {
        q
    }
}

/// The contents after taking one element from the front (none if empty).
pub open spec fn dequeue_spec<T>(q: Seq<T>) -> Seq<T> {
    if q.len() == 0 {
        q
    } else {
        q.drop_first()
    }
}

/// The element that a dequeue on `q` hands out.
pub open spec fn dequeue_value<T>(q: Seq<T>) -> Option<T> {
    if q.len() == 0 {
        None
    } else {
        Some(q[0])
    }
}

/// One operation on a queue, for stating what a run of operations does.
pub enum QueueOp<T> {
    Enqueue(T),
    Dequeue,
}

/// The values that `ops` offers to the queue, in order.
pub open spec fn enqueued<T>(ops: Seq<QueueOp<T>>) -> Seq<T>
    decreases ops.len(),
{
    if ops.len() == 0 {
        Seq::empty()
    } else {
        let rest = enqueued(ops.drop_last());
        match ops.last() {
            QueueOp::Enqueue(v) => rest.push(v),
            QueueOp::Dequeue => rest,
        }
    }
}

/// How many dequeues `ops` holds.
pub open spec fn dequeue_count<T>(ops: Seq<QueueOp<T>>) -> nat
    decreases ops.len(),
{
    if ops.len() == 0 {
        0
    } else {
        let rest = dequeue_count(ops.drop_last());
        match ops.last() {
            QueueOp::Enqueue(_) => rest,
            QueueOp::Dequeue => rest + 1,
        }
    }
}

/// Performs `ops` on a queue holding `q` with room for `cap`, through
/// `enqueue_spec`, `dequeue_spec` and `dequeue_value`: the contents at the
/// end, and the values that the dequeues handed out, in order.
pub open spec fn replay<T>(q: Seq<T>, cap: nat, ops: Seq<QueueOp<T>>) -> (Seq<T>, Seq<T>)
    decreases ops.len(),
{
    if ops.len() == 0 {
        (q, Seq::empty())
    } else {
        let (q2, out) = replay(q, cap, ops.drop_last());
        match ops.last() {
            QueueOp::Enqueue(v) => (enqueue_spec(q2, cap, v), out),
            QueueOp::Dequeue => (
                dequeue_spec(q2),
                match dequeue_value(q2) {
                    Some(x) => out.push(x),
                    None => out,
                },
            ),
        }
    }
}

/// No enqueue of `ops` meets a full queue and no dequeue an empty one, when
/// they start on an empty queue with room for `cap`.
pub open spec fn within_capacity<T>(cap: nat, ops: Seq<QueueOp<T>>) -> bool {
    forall|k: int|
        0 <= k < ops.len() ==> {
            let n = enqueued(#[trigger] ops.take(k)).len() - dequeue_count(ops.take(k));
            &&& ops[k] is Enqueue ==> n < cap
            &&& ops[k] is Dequeue ==> n > 0
        }
}

/// First in, first out: on an empty queue, a run of enqueues and dequeues that
/// never overflows it and never dequeues from it empty hands out the enqueued
/// values in the order they went in, and keeps as many as were enqueued less
/// those dequeued.
pub proof fn lemma_fifo<T>(cap: nat, ops: Seq<QueueOp<T>>)
    requires
        within_capacity(cap, ops),
    ensures
        replay(Seq::empty(), cap, ops).1 =~= enqueued(ops).take(replay(Seq::empty(), cap, ops).1.len() as int),
        replay(Seq::empty(), cap, ops).0.len() == enqueued(ops).len() - dequeue_count(ops),
{
    lemma_replay_splits(cap, ops);
}

proof fn lemma_replay_splits<T>(cap: nat, ops: Seq<QueueOp<T>>)
    requires
        within_capacity(cap, ops),
    ensures
        replay(Seq::empty(), cap, ops).1 + replay(Seq::empty(), cap, ops).0 =~= enqueued(ops),
        replay(Seq::empty(), cap, ops).0.len() == enqueued(ops).len() - dequeue_count(ops),
    decreases ops.len(),
{
    if ops.len() > 0 {
        let prev = ops.drop_last();
        assert forall|k: int| 0 <= k < prev.len() implies {
            let n = enqueued(#[trigger] prev.take(k)).len() - dequeue_count(prev.take(k));
            &&& prev[k] is Enqueue ==> n < cap
            &&& prev[k] is Dequeue ==> n > 0
        } by {
            assert(prev.take(k) =~= ops.take(k));
        }
        lemma_replay_splits(cap, prev);
        assert(ops.take(ops.len() - 1) =~= prev);
        let (q2, out) = replay(Seq::empty(), cap, prev);
        match ops.last() {
            QueueOp::Enqueue(v) => {
                assert(out + q2.push(v) =~= (out + q2).push(v));
            },
            QueueOp::Dequeue => {
                assert(out.push(q2[0]) + q2.drop_first() =~= out + q2);
            },
        }
    }
}

impl<T: Copy> RingBuffer<T> {
    /// The ring position of the `i`-th queued element.
    spec fn slot(&self, i: int) -> int {
        if self.head + i < self.ring.len() {
            self.head + i
        } else {
            self.head + i - self.ring.len()
        }
    }

    pub closed spec fn wf(&self) -> bool {
        &&& self.ring.len() > 0
        &&& self.head < self.ring.len()
        &&& self.len <= self.ring.len()
    }

    /// The queued elements, front first.
    pub closed spec fn view(&self) -> Seq<T> {
        Seq::new(self.len as nat, |i: int| self.ring@[self.slot(i)])
    }

    /// How many elements the queue can hold.
    pub closed spec fn capacity(&self) -> nat {
        self.ring.len() as nat
    }

    /// Makes an empty queue whose capacity is the length of `storage`.
    pub fn new(storage: Vec<T>) -> (r: Self)
        requires
            storage.len() > 0,
        ensures
            r.wf(),
            r@ == Seq::<T>::empty(),
            r.capacity() == storage.len(),
    {
        let r = RingBuffer { ring: storage, head: 0, len: 0 };
        assert(r@ =~= Seq::<T>::empty());
        r
    }

    pub fn get_capacity(&self) -> (r: usize)
        requires
            self.wf(),
        ensures
            r == self.capacity(),
    {
        self.ring.len()
    }

    pub fn len(&self) -> (r: usize)
        requires
            self.wf(),
        ensures
            r == self@.len(),
    {
        self.len
    }

    /// Whether any element is queued.
    pub fn has_elements(&self) -> (r: bool)
        requires
            self.wf(),
        ensures
            r == (self@.len() > 0),
    {
        self.len > 0
    }

    pub fn is_full(&self) -> (r: bool)
        requires
            self.wf(),
        ensures
            r == (self@.len() == self.capacity()),
    {
        self.len == self.ring.len()
    }

    /// Appends `val` at the back. On a full queue nothing changes and the
    /// result is `false`.
    pub fn enqueue(&mut self, val: T) -> (r: bool)
        requires
            old(self).wf(),
        ensures
            final(self).wf(),
            final(self).capacity() == old(self).capacity(),
            r == (old(self)@.len() < old(self).capacity()),
            final(self)@ == enqueue_spec(old(self)@, old(self).capacity(), val),
    {
        if self.len == self.ring.len() {
            return false;
        }
        let cap = self.ring.len();
        let tail = if self.head < cap - self.len {
            self.head + self.len
        } else {
            self.head - (cap - self.len)
        };
        let ghost before = self@;
        self.ring.set(tail, val);
        self.len = self.len + 1;
        assert(self@ =~= before.push(val)) by {
            assert forall|i: int| 0 <= i < before.len() implies self@[i] == before[i] by {
                assert(self.slot(i) != tail);
            }
        }
        true
    }

    /// Removes and returns the front element, or `None` on an empty queue.
    pub fn dequeue(&mut self) -> (r: Option<T>)
        requires
            old(self).wf(),
        ensures
            final(self).wf(),
            final(self).capacity() == old(self).capacity(),
            r == dequeue_value(old(self)@),
            final(self)@ == dequeue_spec(old(self)@),
    {
        if self.len == 0 {
            return None;
        }
        let ghost before = self@;
        let val = self.ring[self.head];
        self.head = if self.head + 1 == self.ring.len() {
            0
        } else {
            self.head + 1
        };
        self.len = self.len - 1;
        assert(self@ =~= before.drop_first());
        Some(val)
    }
}

} // verus!
