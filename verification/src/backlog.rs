//! The backlog: a bounded FIFO buffer of pending notification tasks.
//!
//! Producers append with a non-blocking enqueue that rejects work once the
//! buffer is at capacity (drop-on-overflow backpressure); the single dispatch
//! worker drains it from the front, so tasks leave in the order they entered.

use vstd::prelude::*;

use crate::notification::NotificationTask;
use crate::notification::TaskView;

verus! {

/// Model of one non-blocking enqueue attempt: when the buffer has a free
/// slot the task is appended at the back and the attempt succeeds; at
/// capacity the buffer is unchanged and the attempt fails.
pub open spec fn spec_try_enqueue(q: Seq<TaskView>, capacity: nat, t: TaskView) -> (Seq<
    TaskView,
>, bool) {
    if q.len() < capacity {
        (q.push(t), true)
    } else {
        (q, false)
    }
}

/// Model of one dequeue: the front task leaves; an empty buffer yields
/// nothing and stays empty.
pub open spec fn spec_dequeue(q: Seq<TaskView>) -> (Seq<TaskView>, Option<TaskView>) {
    if q.len() == 0 {
        (q, None)
    } else {
        (q.drop_first(), Some(q.first()))
    }
}

/// The order in which repeated dequeues return the buffered tasks.
pub open spec fn spec_drain(q: Seq<TaskView>) -> Seq<TaskView>
    decreases q.len(),
{
    if q.len() == 0 {
        Seq::empty()
    } else {
        seq![spec_dequeue(q).1.unwrap()] + spec_drain(spec_dequeue(q).0)
    }
}

/// The bounded in-memory buffer between notification producers and the
/// dispatch worker.
#[derive(Debug)]
pub struct Backlog {
    /// Buffered tasks, front (next to leave) first.
    pub tasks: Vec<NotificationTask>,
    /// The fixed number of slots.
    pub capacity: usize,
}

impl View for Backlog {
    type V = Seq<TaskView>;

    open spec fn view(&self) -> Seq<TaskView> {
        self.tasks.deep_view()
    }
}

impl Backlog {
    /// The fixed number of slots this backlog was created with.
    pub open spec fn spec_capacity(&self) -> nat {
        self.capacity as nat
    }

    /// The backlog never holds more tasks than its capacity.
    pub open spec fn wf(&self) -> bool {
        self@.len() <= self.spec_capacity()
    }

    /// Creates an empty backlog with the given fixed capacity.
    pub fn new(capacity: usize) -> (r: Backlog)
        ensures
            r@ == Seq::<TaskView>::empty(),
            r.spec_capacity() == capacity,
            r.wf(),
    {
        Backlog { tasks: Vec::new(), capacity }
    }

    /// Number of tasks currently buffered.
    pub fn len(&self) -> (n: usize)
        ensures
            n == self@.len(),
    {
        self.tasks.len()
    }

    /// The fixed number of slots.
    pub fn capacity(&self) -> (c: usize)
        ensures
            c == self.spec_capacity(),
    {
        self.capacity
    }

    /// Non-blocking enqueue: appends the task at the back when a slot is
    /// free, rejects it when the backlog is at capacity. Never blocks and
    /// never overfills the buffer.
    pub fn try_enqueue(&mut self, task: NotificationTask) -> (ok: bool)
        requires
            old(self).wf(),
        ensures
            final(self).wf(),
            final(self).spec_capacity() == old(self).spec_capacity(),
            (final(self)@, ok) == spec_try_enqueue(
                old(self)@,
                old(self).spec_capacity(),
                task@,
            ),
    {
        if self.tasks.len() < self.capacity {
            self.tasks.push(task);
            proof {
                assert(self@ =~= old(self)@.push(task@));
            }
            true
        } else {
            false
        }
    }

    /// Removes and returns the task at the front, if any.
    pub fn dequeue(&mut self) -> (r: Option<NotificationTask>)
        requires
            old(self).wf(),
        ensures
            final(self).wf(),
            final(self).spec_capacity() == old(self).spec_capacity(),
            (final(self)@, r.deep_view()) == spec_dequeue(old(self)@),
    {
        if self.tasks.len() == 0 {
            None
        } else {
            let task = self.tasks.remove(0);
            proof {
                assert(self@ =~= old(self)@.drop_first());
            }
            Some(task)
        }
    }
}

/// Law: the backlog is first-in first-out. After two tasks are enqueued in
/// order into a backlog with room for both, draining it returns the tasks
/// that were already buffered, in order, then the first new task, then the
/// second.
pub proof fn lemma_fifo_order(q: Seq<TaskView>, capacity: nat, t1: TaskView, t2: TaskView)
    requires
        q.len() + 2 <= capacity,
    ensures
        spec_try_enqueue(q, capacity, t1).1,
        spec_try_enqueue(spec_try_enqueue(q, capacity, t1).0, capacity, t2).1,
        spec_drain(spec_try_enqueue(spec_try_enqueue(q, capacity, t1).0, capacity, t2).0) == q
            + seq![t1, t2],
{
    let q2 = spec_try_enqueue(spec_try_enqueue(q, capacity, t1).0, capacity, t2).0;
    lemma_drain_in_place(q2);
    assert(q2 =~= q + seq![t1, t2]);
}

/// Law: repeated dequeues return exactly the buffered tasks, front to back.
pub proof fn lemma_drain_in_place(q: Seq<TaskView>)
    ensures
        spec_drain(q) == q,
    decreases q.len(),
{
    if q.len() == 0 {
        assert(spec_drain(q) =~= q);
    } else {
        lemma_drain_in_place(q.drop_first());
        assert(spec_drain(q) =~= q);
    }
}

/// Law: an enqueue attempt on a backlog at capacity fails and leaves the
/// buffered tasks unchanged.
pub proof fn lemma_enqueue_at_capacity(q: Seq<TaskView>, capacity: nat, t: TaskView)
    requires
        q.len() == capacity,
    ensures
        spec_try_enqueue(q, capacity, t) == (q, false),
{
}

} // verus!
