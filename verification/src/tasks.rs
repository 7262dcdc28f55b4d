//! The pending-screenshot queue: a FIFO of tasks, each tagged with the frame
//! at which it becomes due. A task is removed only on the tick whose frame
//! number equals its due frame, and at most one task is removed per tick.
//!
//! Pickup is by exact equality with the due frame, deliberately: a task whose
//! due tick passes without being the head that tick — as when two captures
//! are enqueued on the same frame and share a due frame — is never picked up.
//! A loop that enqueues at most one capture per frame and services every
//! frame completes every capture.

use vstd::prelude::*;
use std::collections::VecDeque;

verus! {

/// What servicing the queue at `frame` hands back: the head task exactly when
/// its due frame is `frame`, and nothing otherwise.
pub open spec fn service_result<T>(q: Seq<(u64, T)>, frame: u64) -> Option<T> {
    if q.len() > 0 && q[0].0 == frame {
        Some(q[0].1)
    } else {
        None
    }
}

/// What the queue holds after servicing at `frame`: the tail if the head was
/// due, the whole queue unchanged otherwise.
pub open spec fn service_rest<T>(q: Seq<(u64, T)>, frame: u64) -> Seq<(u64, T)> {
    if q.len() > 0 && q[0].0 == frame {
        q.subrange(1, q.len() as int)
    } else {
        q
    }
}

/// The queue is ordered by due frame, oldest first: because captures are
/// enqueued in frame order with a fixed delay, FIFO order is also due-order.
pub open spec fn due_sorted<T>(q: Seq<(u64, T)>) -> bool {
    forall|i: int, j: int| 0 <= i <= j < q.len() ==> q[i].0 <= q[j].0
}

/// The due-order invariant is kept: enqueuing a task due no earlier than the
/// newest pending one keeps the queue ordered by due frame, and servicing any
/// tick never disturbs the order of what remains.
pub proof fn lemma_due_order_invariant<T>(q: Seq<(u64, T)>, due: u64, task: T, tick: u64)
    requires
        due_sorted(q),
        q.len() > 0 ==> q.last().0 <= due,
    ensures
        due_sorted(q.push((due, task))),
        due_sorted(service_rest(q, tick)),
{
    let pushed = q.push((due, task));
    assert forall|i: int, j: int| 0 <= i <= j < pushed.len() implies pushed[i].0
        <= pushed[j].0 by {
        if j < q.len() {
        } else if i < q.len() {
            assert(q[i].0 <= q[q.len() - 1].0);
        }
    }
    let rest = service_rest(q, tick);
    if q.len() > 0 && q[0].0 == tick {
        assert forall|i: int, j: int| 0 <= i <= j < rest.len() implies rest[i].0 <= rest[j].0 by {
            assert(rest[i] == q[i + 1]);
            assert(rest[j] == q[j + 1]);
        }
    }
}

/// A FIFO queue of in-flight capture tasks, each due at a fixed frame.
pub struct TaskQueue<T> {
    entries: VecDeque<(u64, T)>,
}

impl<T> TaskQueue<T> {
    /// The queue as a sequence of (due frame, task) pairs, oldest first.
    pub closed spec fn view(&self) -> Seq<(u64, T)> {
        self.entries@
    }

    /// An empty queue.
    pub fn new() -> (r: Self)
        ensures
            r@ == Seq::<(u64, T)>::empty(),
    {
        let entries: VecDeque<(u64, T)> = VecDeque::new();
        proof {
            assert(entries@ =~= Seq::<(u64, T)>::empty());
        }
        TaskQueue { entries }
    }

    /// How many tasks are pending.
    pub fn len(&self) -> (r: usize)
        ensures
            r == self@.len(),
    {
        self.entries.len()
    }

    /// Enqueue a capture issued at `frame`: it becomes due exactly `delay`
    /// frames later, behind everything already pending.
    pub fn enqueue(&mut self, frame: u64, delay: u64, task: T)
        requires
            frame + delay <= u64::MAX,
        ensures
            final(self)@ == old(self)@.push(((frame + delay) as u64, task)),
    {
        self.entries.push_back((frame + delay, task));
    }

    /// The due frame of the oldest pending task, if any.
    pub fn front_due(&self) -> (r: Option<u64>)
        ensures
            self@.len() > 0 ==> r == Some(self@[0].0),
            self@.len() == 0 ==> r == None::<u64>,
    {
        if self.entries.len() > 0 {
            Some(self.entries[0].0)
        } else {
            None
        }
    }

    /// One tick's pickup: remove and return the head task exactly when its
    /// due frame equals `frame`; otherwise leave the queue untouched. Never
    /// removes more than one task, and never removes a task early or late.
    pub fn service(&mut self, frame: u64) -> (r: Option<T>)
        ensures
            r == service_result(old(self)@, frame),
            final(self)@ == service_rest(old(self)@, frame),
    {
        let due = self.front_due();
        let head_is_due = match due {
            Some(d) => d == frame,
            None => false,
        };
        if head_is_due {
            let head = self.entries.pop_front();
            match head {
                Some(p) => Some(p.1),
                None => None,
            }
        } else {
            None
        }
    }
}

/// A capture enqueued at frame `frame` with delay `delay` onto an empty queue
/// is due exactly at `frame + delay`: servicing on that tick returns it and
/// empties the queue, and servicing on any other tick returns nothing and
/// changes nothing.
pub proof fn lemma_due_exactly<T>(frame: u64, delay: u64, task: T, tick: u64)
    requires
        frame + delay <= u64::MAX,
    ensures
        ({
            let q = Seq::<(u64, T)>::empty().push(((frame + delay) as u64, task));
            &&& tick == frame + delay ==> service_result(q, tick) == Some(task)
                && service_rest(q, tick) == Seq::<(u64, T)>::empty()
            &&& tick != frame + delay ==> service_result(q, tick) == None::<T>
                && service_rest(q, tick) == q
        }),
{
    let q = Seq::<(u64, T)>::empty().push(((frame + delay) as u64, task));
    if tick == frame + delay {
        assert(q.subrange(1, q.len() as int) =~= Seq::<(u64, T)>::empty());
    }
}

/// Two captures enqueued on consecutive frames with the same delay are
/// serviced in enqueue order, each exactly on its own due frame, and no tick
/// in between removes anything.
pub proof fn lemma_fifo_consecutive<T>(frame: u64, delay: u64, first: T, second: T)
    requires
        frame + 1 + delay <= u64::MAX,
    ensures
        ({
            let q = Seq::<(u64, T)>::empty()
                .push(((frame + delay) as u64, first))
                .push(((frame + 1 + delay) as u64, second));
            let after_first = service_rest(q, (frame + delay) as u64);
            &&& service_result(q, (frame + delay) as u64) == Some(first)
            &&& forall|tick: u64| tick != frame + delay ==> service_result(q, tick) == None::<T>
            &&& service_result(after_first, (frame + 1 + delay) as u64) == Some(second)
            &&& service_rest(after_first, (frame + 1 + delay) as u64)
                == Seq::<(u64, T)>::empty()
        }),
{
    let q = Seq::<(u64, T)>::empty()
        .push(((frame + delay) as u64, first))
        .push(((frame + 1 + delay) as u64, second));
    let after_first = service_rest(q, (frame + delay) as u64);
    assert(after_first =~= Seq::<(u64, T)>::empty().push(((frame + 1 + delay) as u64, second)));
    assert(after_first.subrange(1, after_first.len() as int) =~= Seq::<(u64, T)>::empty());
}

} // verus!
