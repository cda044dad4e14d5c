//! A queue of deletions that take effect only after a fixed delay.
//!
//! Time is a monotonic clock reading in milliseconds, supplied by the caller.

use vstd::prelude::*;

verus! {

/// The deadline of an item scheduled at `now` with the given delay; a sum
/// past the clock's range stays at its largest reading.
pub open spec fn deadline_of(now: u64, delay: u64) -> u64 {
    if now + delay <= u64::MAX {
        (now + delay) as u64
    } else {
        u64::MAX
    }
}

/// The number of entries at the front of `queue` whose deadline is at or
/// before `now`.
pub open spec fn due_len<T>(queue: Seq<(T, u64)>, now: u64) -> nat
    decreases queue.len(),
{
    if queue.len() == 0 || queue[0].1 > now {
        0
    } else {
        1 + due_len(queue.drop_first(), now)
    }
}

/// The items that a drain at `now` hands out, in queue order.
pub open spec fn drained<T>(queue: Seq<(T, u64)>, now: u64) -> Seq<T> {
    queue.take(due_len(queue, now) as int).map_values(|e: (T, u64)| e.0)
}

proof fn due_len_bounded<T>(queue: Seq<(T, u64)>, now: u64)
    ensures
        due_len(queue, now) <= queue.len(),
        forall|i: int| 0 <= i < due_len(queue, now) ==> #[trigger] queue[i].1 <= now,
    decreases queue.len(),
{
    if queue.len() > 0 && queue[0].1 <= now {
        let rest = queue.drop_first();
        due_len_bounded(rest, now);
        assert forall|i: int| 0 <= i < due_len(queue, now) implies #[trigger] queue[i].1 <= now by {
            if i > 0 {
                assert(queue[i] == rest[i - 1]);
            }
        }
    }
}

proof fn due_len_skip<T>(queue: Seq<(T, u64)>, now: u64, i: nat)
    requires
        i <= due_len(queue, now),
    ensures
        due_len(queue, now) == i + due_len(queue.skip(i as int), now),
    decreases i,
{
    due_len_bounded(queue, now);
    if i > 0 {
        let rest = queue.drop_first();
        due_len_skip(rest, now, (i - 1) as nat);
        assert(rest.skip(i - 1) =~= queue.skip(i as int));
    } else {
        assert(queue.skip(0) =~= queue);
    }
}

/// Deletions are handed out in the order they were scheduled, and none
/// before its delay has passed: with `a` scheduled at `t_a`, then the
/// entries `between`, then `b` at a later `t_b`, a drain at any time `now`
/// hands out `b` only after `a`, and hands out each only once `now` has
/// reached its schedule time plus the delay.
pub proof fn delete_order_kept<T>(
    queue: Seq<(T, u64)>,
    a: T,
    t_a: u64,
    between: Seq<(T, u64)>,
    b: T,
    t_b: u64,
    delay: u64,
    now: u64,
)
    requires
        t_a < t_b,
        t_b + delay <= u64::MAX,
    ensures
        ({
            let q = queue.push((a, deadline_of(t_a, delay))) + between + seq![
                (b, deadline_of(t_b, delay)),
            ];
            let out = drained(q, now);
            let n = queue.len() as int;
            let m = n + 1 + between.len();
            &&& out.len() > n ==> out[n] == a && now >= t_a + delay
            &&& out.len() > m ==> out.len() > n && out[n] == a && out[m] == b && now >= t_b + delay
        }),
{
    let q = queue.push((a, deadline_of(t_a, delay))) + between + seq![(b, deadline_of(t_b, delay))];
    let n = queue.len() as int;
    let m = n + 1 + between.len();
    due_len_bounded(q, now);
    let out = drained(q, now);
    assert(q[n] == (a, deadline_of(t_a, delay)));
    assert(q[m] == (b, deadline_of(t_b, delay)));
    if out.len() > n {
        assert(q[n].1 <= now);
        assert(out[n] == q[n].0);
    }
    if out.len() > m {
        assert(q[m].1 <= now);
        assert(out[m] == q[m].0);
    }
}

/// A FIFO queue of `(item, deadline)` pairs, each deadline set a fixed
/// delay after the time the item was scheduled.
pub struct DelayedDelete<T> {
    queue: std::collections::VecDeque<(T, u64)>,
    delay_for: u64,
}

impl<T> DelayedDelete<T> {
    /// The pending entries, front first.
    pub closed spec fn queue(&self) -> Seq<(T, u64)> {
        self.queue@
    }

    /// The delay applied to each scheduled item.
    pub closed spec fn delay(&self) -> u64 {
        self.delay_for
    }

    /// An empty queue with the given delay.
    pub fn new(delay_for: u64) -> (r: DelayedDelete<T>)
        ensures
            r.queue() == Seq::<(T, u64)>::empty(),
            r.delay() == delay_for,
    {
        DelayedDelete { queue: std::collections::VecDeque::new(), delay_for }
    }

    /// Schedules the deletion of `item`, observed at `now`, at the back of
    /// the queue.
    pub fn schedule_delete(&mut self, item: T, now: u64)
        ensures
            final(self).queue() == old(self).queue().push((item, deadline_of(now, old(self).delay()))),
            final(self).delay() == old(self).delay(),
    {
        let deadline = now.saturating_add(self.delay_for);
        self.queue.push_back((item, deadline));
    }

    /// Drops every pending deletion; none of them is handed out.
    pub fn clear(&mut self)
        ensures
            final(self).queue() == Seq::<(T, u64)>::empty(),
            final(self).delay() == old(self).delay(),
    {
        self.queue.clear();
    }

    /// Removes from the front every entry whose deadline is at or before
    /// `now`, and returns their items in queue order, to be deleted.
    pub fn perform(&mut self, now: u64) -> (r: Vec<T>)
        ensures
            r@ == drained(old(self).queue(), now),
            final(self).queue() == old(self).queue().skip(due_len(old(self).queue(), now) as int),
            final(self).delay() == old(self).delay(),
    {
        let ghost q0 = self.queue@;
        proof {
            due_len_bounded(q0, now);
        }
        let mut out: Vec<T> = Vec::new();
        loop
            invariant
                out.len() <= due_len(q0, now),
                due_len(q0, now) <= q0.len(),
                self.queue@ == q0.skip(out.len() as int),
                out@ == q0.take(out.len() as int).map_values(|e: (T, u64)| e.0),
                self.delay_for == old(self).delay_for,
            ensures
                out.len() == due_len(q0, now),
                self.queue@ == q0.skip(out.len() as int),
                out@ == q0.take(out.len() as int).map_values(|e: (T, u64)| e.0),
                self.delay_for == old(self).delay_for,
            decreases self.queue@.len(),
        {
            proof {
                due_len_skip(q0, now, out.len() as nat);
            }
            if self.queue.len() == 0 {
                assert(due_len(self.queue@, now) == 0);
                break;
            }
            if self.queue[0].1 > now {
                assert(due_len(self.queue@, now) == 0);
                break;
            }
            let ghost before = out@;
            match self.queue.pop_front() {
                Some((item, _)) => {
                    out.push(item);
                },
                None => {},
            }
            proof {
                assert(self.queue@ =~= q0.skip(out.len() as int));
                assert(out@ =~= q0.take(out.len() as int).map_values(|e: (T, u64)| e.0));
            }
        }
        out
    }

    /// The deadline of the front entry, if any.
    pub fn next_deadline(&self) -> (r: Option<u64>)
        ensures
            r == if self.queue().len() == 0 {
                None
            } else {
                Some(self.queue()[0].1)
            },
    {
        if self.queue.len() == 0 {
            None
        } else {
            Some(self.queue[0].1)
        }
    }
}

} // verus!
