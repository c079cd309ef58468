//! The per-type waiting queue of task snapshots.
//!
//! The queue is a deque: the producer pushes fresh snapshots (and requeues)
//! at the head, a worker pops from the tail, so snapshots leave in the order
//! they arrived. Cancellation scrubs the queue by removing the first
//! snapshot, scanning from the head, whose id matches.

use crate::store::{lemma_find_absent, lemma_find_first_match, spec_contains_id, spec_index_of_id};
use crate::strutil::str_eq;
use crate::task::Task;
use vstd::prelude::*;

verus! {

/// A queue of snapshots: index 0 is the head (producer side), the last
/// index is the tail (consumer side).
#[derive(Debug)]
pub struct TaskQueue {
    pub items: Vec<Task>,
}

impl TaskQueue {
    pub fn new() -> (q: TaskQueue)
        ensures
            q.items@ == Seq::<Task>::empty(),
    {
        TaskQueue { items: Vec::new() }
    }

    pub fn len(&self) -> (r: usize)
        ensures
            r == self.items@.len(),
    {
        self.items.len()
    }

    /// Push a snapshot at the head.
    pub fn push_front(&mut self, t: Task)
        ensures
            final(self).items@ == old(self).items@.insert(0, t),
    {
        self.items.insert(0, t);
    }

    /// Pop the snapshot at the tail, if any.
    pub fn pop_back(&mut self) -> (r: Option<Task>)
        ensures
            match r {
                Some(t) => old(self).items@.len() > 0 && t == old(self).items@.last()
                    && final(self).items@ == old(self).items@.drop_last(),
                None => old(self).items@.len() == 0 && final(self).items@ == old(self).items@,
            },
    {
        self.items.pop()
    }

    /// Remove the first snapshot (from the head) whose id matches, if any;
    /// returns whether one was removed.
    pub fn remove_first_by_id(&mut self, task_id: &str) -> (r: bool)
        ensures
            r == spec_contains_id(old(self).items@, task_id@),
            r ==> final(self).items@ == old(self).items@.remove(
                spec_index_of_id(old(self).items@, task_id@),
            ),
            !r ==> final(self).items@ == old(self).items@,
    {
        let ghost s0 = self.items@;
        let mut i: usize = 0;
        while i < self.items.len()
            invariant
                i <= self.items.len(),
                self.items@ == s0,
                s0 == old(self).items@,
                forall|j: int| 0 <= j < i ==> s0[j].id@ != task_id@,
            decreases self.items.len() - i,
        {
            if str_eq(self.items[i].id.as_str(), task_id) {
                proof {
                    lemma_find_first_match(s0, i as int, task_id@);
                }
                self.items.remove(i);
                return true;
            }
            i = i + 1;
        }
        proof {
            lemma_find_absent(s0, task_id@);
        }
        false
    }
}

/// First in, first out: if snapshot `a` is enqueued and then snapshot `b`,
/// with no other activity on the queue, the tail-consuming worker meets `a`
/// strictly before `b` — in tail order the queue reads as the old contents,
/// then `a`, then `b`.
pub proof fn lemma_queue_fifo(q: Seq<Task>, a: Task, b: Task)
    ensures
        q.insert(0, a).insert(0, b).reverse() == q.reverse().push(a).push(b),
{
    assert(q.insert(0, a).insert(0, b).reverse() =~= q.reverse().push(a).push(b));
}

} // verus!
