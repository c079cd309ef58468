//! The durable record store, modelled as a collection of task records
//! addressed by task id.

use crate::strutil::str_eq;
use crate::task::{task_like, tasks_like, Task, TaskStatus};
use vstd::prelude::*;

verus! {

/// No two records carry the same id.
pub open spec fn ids_unique(s: Seq<Task>) -> bool {
    forall|i: int, j: int| 0 <= i < j < s.len() ==> s[i].id@ != s[j].id@
}

/// The first record with the given id, if any.
pub open spec fn spec_find(s: Seq<Task>, id: Seq<char>) -> Option<Task>
    decreases s.len(),
{
    if s.len() == 0 {
        None
    } else if s[0].id@ == id {
        Some(s[0])
    } else {
        spec_find(s.drop_first(), id)
    }
}

pub open spec fn spec_contains_id(s: Seq<Task>, id: Seq<char>) -> bool {
    spec_find(s, id) is Some
}

/// Index of the first record with the given id.
pub open spec fn spec_index_of_id(s: Seq<Task>, id: Seq<char>) -> int
    decreases s.len(),
{
    if s.len() == 0 {
        0
    } else if s[0].id@ == id {
        0
    } else {
        1 + spec_index_of_id(s.drop_first(), id)
    }
}

/// If record `i` is the first whose id matches, the lookup finds it.
pub proof fn lemma_find_first_match(s: Seq<Task>, i: int, id: Seq<char>)
    requires
        0 <= i < s.len(),
        s[i].id@ == id,
        forall|j: int| 0 <= j < i ==> s[j].id@ != id,
    ensures
        spec_find(s, id) == Some(s[i]),
        spec_index_of_id(s, id) == i,
    decreases s.len(),
{
    if i == 0 {
    } else {
        assert(forall|j: int| 0 <= j < i - 1 ==> s.drop_first()[j].id@ != id);
        lemma_find_first_match(s.drop_first(), i - 1, id);
    }
}

/// If no record's id matches, the lookup misses.
pub proof fn lemma_find_absent(s: Seq<Task>, id: Seq<char>)
    requires
        forall|j: int| 0 <= j < s.len() ==> s[j].id@ != id,
    ensures
        spec_find(s, id) is None,
    decreases s.len(),
{
    if s.len() == 0 {
    } else {
        assert(forall|j: int| 0 <= j < s.drop_first().len() ==> s.drop_first()[j].id@ != id);
        lemma_find_absent(s.drop_first(), id);
    }
}

/// The lookup finds the first matching record and its index.
pub proof fn lemma_find_props(s: Seq<Task>, id: Seq<char>)
    requires
        spec_contains_id(s, id),
    ensures
        0 <= spec_index_of_id(s, id) < s.len(),
        s[spec_index_of_id(s, id)].id@ == id,
        spec_find(s, id) == Some(s[spec_index_of_id(s, id)]),
        forall|j: int| 0 <= j < spec_index_of_id(s, id) ==> s[j].id@ != id,
    decreases s.len(),
{
    if s.len() == 0 {
    } else if s[0].id@ == id {
    } else {
        lemma_find_props(s.drop_first(), id);
        assert forall|j: int| 0 <= j < spec_index_of_id(s, id) implies s[j].id@ != id by {
            if j > 0 {
                assert(s[j] == s.drop_first()[j - 1]);
            }
        }
    }
}

/// Replacing the first record with an id by a record with the same id
/// changes exactly that id's lookup.
pub proof fn lemma_find_update(s: Seq<Task>, i: int, t: Task, id: Seq<char>)
    requires
        0 <= i < s.len(),
        s[i].id@ == t.id@,
        forall|j: int| 0 <= j < i ==> s[j].id@ != t.id@,
    ensures
        spec_find(s.update(i, t), id) == (if id == t.id@ {
            Some(t)
        } else {
            spec_find(s, id)
        }),
    decreases s.len(),
{
    if s.len() == 0 {
    } else if i == 0 {
        assert(s.update(0, t).drop_first() =~= s.drop_first());
        if id == t.id@ {
        } else {
            assert(s[0].id@ != id);
        }
    } else {
        assert(s.update(i, t).drop_first() =~= s.drop_first().update(i - 1, t));
        assert(forall|j: int| 0 <= j < i - 1 ==> s.drop_first()[j].id@ != t.id@);
        lemma_find_update(s.drop_first(), i - 1, t, id);
    }
}

/// Appending a record with a fresh id adds exactly that id's lookup.
pub proof fn lemma_find_push(s: Seq<Task>, t: Task, id: Seq<char>)
    requires
        spec_find(s, t.id@) is None,
    ensures
        spec_find(s.push(t), id) == (if id == t.id@ {
            Some(t)
        } else {
            spec_find(s, id)
        }),
    decreases s.len(),
{
    if s.len() == 0 {
        assert(s.push(t)[0] == t);
        assert(s.push(t).drop_first() =~= s);
    } else {
        assert(s.push(t)[0] == s[0]);
        assert(s.push(t).drop_first() =~= s.drop_first().push(t));
        lemma_find_push(s.drop_first(), t, id);
    }
}

/// A missed lookup means no record carries the id.
pub proof fn lemma_absent_ids(s: Seq<Task>, id: Seq<char>)
    requires
        spec_find(s, id) is None,
    ensures
        forall|j: int| 0 <= j < s.len() ==> s[j].id@ != id,
    decreases s.len(),
{
    if s.len() == 0 {
    } else {
        lemma_absent_ids(s.drop_first(), id);
        assert forall|j: int| 0 <= j < s.len() implies s[j].id@ != id by {
            if j > 0 {
                assert(s[j] == s.drop_first()[j - 1]);
            }
        }
    }
}

/// Whether a record passes an optional status filter.
pub open spec fn status_matches(t: Task, f: Option<TaskStatus>) -> bool {
    match f {
        None => true,
        Some(st) => t.status == st,
    }
}

/// How many records carry the given status.
pub open spec fn count_status(s: Seq<Task>, st: TaskStatus) -> nat
    decreases s.len(),
{
    if s.len() == 0 {
        0
    } else {
        count_status(s.drop_last(), st) + (if s.last().status == st {
            1nat
        } else {
            0nat
        })
    }
}

/// The records passing the filter, in store order.
pub open spec fn filter_status(s: Seq<Task>, f: Option<TaskStatus>) -> Seq<Task>
    decreases s.len(),
{
    if s.len() == 0 {
        s
    } else if status_matches(s.last(), f) {
        filter_status(s.drop_last(), f).push(s.last())
    } else {
        filter_status(s.drop_last(), f)
    }
}

/// Newest first: `created_at` never increases along the sequence.
pub open spec fn sorted_desc(s: Seq<Task>) -> bool {
    forall|i: int, j: int| 0 <= i < j < s.len() ==> s[i].created_at >= s[j].created_at
}

/// Order tasks newest first (selection sort; ties keep no particular order).
pub fn sort_by_created_desc(v: Vec<Task>) -> (r: Vec<Task>)
    ensures
        r@.to_multiset() == v@.to_multiset(),
        sorted_desc(r@),
        r@.len() == v@.len(),
{
    broadcast use vstd::seq_lib::group_to_multiset_ensures;

    let mut src = v;
    let mut out: Vec<Task> = Vec::new();
    while src.len() > 0
        invariant
            out@.to_multiset().add(src@.to_multiset()) == v@.to_multiset(),
            out@.len() + src@.len() == v@.len(),
            sorted_desc(out@),
            forall|i: int, j: int|
                0 <= i < out@.len() && 0 <= j < src@.len() ==> out@[i].created_at
                    >= src@[j].created_at,
        decreases src.len(),
    {
        let mut m: usize = 0;
        let mut k: usize = 1;
        while k < src.len()
            invariant
                m < src@.len(),
                k <= src@.len(),
                forall|j: int| 0 <= j < k ==> src@[j].created_at <= src@[m as int].created_at,
            decreases src.len() - k,
        {
            if src[k].created_at > src[m].created_at {
                m = k;
            }
            k = k + 1;
        }
        let ghost src0 = src@;
        let ghost out0 = out@;
        let t = src.remove(m);
        out.push(t);
        proof {
            broadcast use vstd::multiset::group_multiset_axioms;

            assert(src0.contains(src0[m as int]));
            vstd::seq_lib::to_multiset_remove(src0, m as int);
            vstd::seq_lib::to_multiset_build(out0, t);
            vstd::seq_lib::to_multiset_contains(src0, t);
            assert(src0.remove(m as int).to_multiset() == src0.to_multiset().remove(t));
            assert(out0.push(t).to_multiset() =~= out0.to_multiset().insert(t));
            assert forall|x: Task|
                out@.to_multiset().add(src@.to_multiset()).count(x) == out0.to_multiset().add(
                    src0.to_multiset(),
                ).count(x) by {
                assert(src0.to_multiset().count(t) > 0);
            }
            assert(out@.to_multiset().add(src@.to_multiset()) =~= out0.to_multiset().add(
                src0.to_multiset(),
            ));
            assert forall|i: int, j: int|
                0 <= i < out@.len() && 0 <= j < src@.len() implies out@[i].created_at
                >= src@[j].created_at by {
                assert(src@[j] == (if j < m as int {
                    src0[j]
                } else {
                    src0[j + 1]
                }));
            }
        }
    }
    out
}

/// The page `[skip, skip + limit)` of a listing, clipped to its length.
/// A non-positive limit yields an empty page.
pub open spec fn page_of(s: Seq<Task>, limit: i64, skip: u64) -> Seq<Task> {
    let start = if skip > s.len() {
        s.len() as int
    } else {
        skip as int
    };
    let lim = if limit <= 0 {
        0int
    } else {
        limit as int
    };
    let end = if start + lim > s.len() {
        s.len() as int
    } else {
        start + lim
    };
    s.subrange(start, end)
}

/// The collection of durable task records.
#[derive(Debug)]
pub struct TaskStore {
    pub tasks: Vec<Task>,
}

impl TaskStore {
    pub fn new() -> (s: TaskStore)
        ensures
            s.tasks@ == Seq::<Task>::empty(),
    {
        TaskStore { tasks: Vec::new() }
    }

    pub fn len(&self) -> (r: usize)
        ensures
            r == self.tasks@.len(),
    {
        self.tasks.len()
    }

    /// Insert a fresh record; the caller guarantees the id is unused.
    pub fn insert_one(&mut self, t: Task)
        requires
            !spec_contains_id(old(self).tasks@, t.id@),
        ensures
            final(self).tasks@ == old(self).tasks@.push(t),
    {
        self.tasks.push(t);
    }

    /// Read the record with the given id, if present, as an equal copy.
    pub fn find_one(&self, task_id: &str) -> (r: Option<Task>)
        ensures
            match r {
                Some(t) => spec_contains_id(self.tasks@, task_id@) && task_like(
                    t,
                    spec_find(self.tasks@, task_id@)->Some_0,
                ),
                None => !spec_contains_id(self.tasks@, task_id@),
            },
    {
        let mut i: usize = 0;
        while i < self.tasks.len()
            invariant
                i <= self.tasks.len(),
                forall|j: int| 0 <= j < i ==> self.tasks@[j].id@ != task_id@,
            decreases self.tasks.len() - i,
        {
            if str_eq(self.tasks[i].id.as_str(), task_id) {
                proof {
                    lemma_find_first_match(self.tasks@, i as int, task_id@);
                }
                return Some(self.tasks[i].duplicate());
            }
            i = i + 1;
        }
        proof {
            lemma_find_absent(self.tasks@, task_id@);
        }
        None
    }

    /// Overwrite the record carrying `t.id` with `t`; a miss changes nothing.
    /// Returns whether a record was written.
    pub fn update_one(&mut self, t: &Task) -> (r: bool)
        ensures
            r == spec_contains_id(old(self).tasks@, t.id@),
            spec_contains_id(old(self).tasks@, t.id@) ==> {
                let i = spec_index_of_id(old(self).tasks@, t.id@);
                &&& final(self).tasks@.len() == old(self).tasks@.len()
                &&& task_like(final(self).tasks@[i], *t)
                &&& forall|j: int|
                    0 <= j < old(self).tasks@.len() && j != i ==> final(self).tasks@[j] == old(
                        self,
                    ).tasks@[j]
            },
            !spec_contains_id(old(self).tasks@, t.id@) ==> final(self).tasks@ == old(self).tasks@,
            ids_unique(old(self).tasks@) ==> ids_unique(final(self).tasks@),
    {
        let ghost s0 = self.tasks@;
        let mut i: usize = 0;
        while i < self.tasks.len()
            invariant
                i <= self.tasks.len(),
                self.tasks@ == s0,
                s0 == old(self).tasks@,
                forall|j: int| 0 <= j < i ==> s0[j].id@ != t.id@,
            decreases self.tasks.len() - i,
        {
            if str_eq(self.tasks[i].id.as_str(), t.id.as_str()) {
                proof {
                    lemma_find_first_match(s0, i as int, t.id@);
                }
                let copy = t.duplicate();
                self.tasks.set(i, copy);
                proof {
                    if ids_unique(s0) {
                        assert forall|a: int, b: int|
                            0 <= a < b < self.tasks@.len() implies self.tasks@[a].id@
                            != self.tasks@[b].id@ by {
                            assert(self.tasks@[a].id@ == s0[a].id@);
                            assert(self.tasks@[b].id@ == s0[b].id@);
                        }
                    }
                }
                return true;
            }
            i = i + 1;
        }
        proof {
            lemma_find_absent(s0, t.id@);
        }
        false
    }

    /// Copies of the records passing the filter, in store order.
    pub fn filter_by_status(&self, f: Option<TaskStatus>) -> (r: Vec<Task>)
        ensures
            tasks_like(r@, filter_status(self.tasks@, f)),
    {
        let mut r: Vec<Task> = Vec::new();
        let mut i: usize = 0;
        while i < self.tasks.len()
            invariant
                i <= self.tasks.len(),
                tasks_like(r@, filter_status(self.tasks@.take(i as int), f)),
            decreases self.tasks.len() - i,
        {
            proof {
                assert(self.tasks@.take(i + 1).drop_last() =~= self.tasks@.take(i as int));
                assert(self.tasks@.take(i + 1).last() == self.tasks@[i as int]);
            }
            let keep = match f {
                None => true,
                Some(st) => self.tasks[i].status == st,
            };
            if keep {
                r.push(self.tasks[i].duplicate());
            }
            i = i + 1;
        }
        proof {
            assert(self.tasks@.take(self.tasks@.len() as int) =~= self.tasks@);
        }
        r
    }

    /// One page of the records passing the filter, newest first.
    pub fn list_page(&self, f: Option<TaskStatus>, limit: i64, skip: u64) -> (r: Vec<Task>)
        ensures
            exists|fv: Seq<Task>, sv: Seq<Task>|
                {
                    &&& tasks_like(fv, filter_status(self.tasks@, f))
                    &&& #[trigger] sv.to_multiset() == #[trigger] fv.to_multiset()
                    &&& sorted_desc(sv)
                    &&& r@ == page_of(sv, limit, skip)
                },
    {
        let fvec = self.filter_by_status(f);
        let ghost fvs = fvec@;
        let mut sorted = sort_by_created_desc(fvec);
        let ghost sv = sorted@;
        let len = sorted.len();
        let start: usize = if skip >= len as u64 {
            len
        } else {
            skip as usize
        };
        let lim: usize = if limit <= 0 {
            0
        } else if (limit as u64) >= (len - start) as u64 {
            len - start
        } else {
            limit as usize
        };
        let end = start + lim;
        sorted.truncate(end);
        let mut k: usize = 0;
        while k < start
            invariant
                k <= start,
                start <= end <= sv.len(),
                sorted@ == sv.subrange(k as int, end as int),
            decreases start - k,
        {
            proof {
                assert(sv.subrange(k as int, end as int).remove(0) =~= sv.subrange(
                    k + 1,
                    end as int,
                ));
            }
            sorted.remove(0);
            k = k + 1;
        }
        proof {
            assert(sorted@ =~= page_of(sv, limit, skip));
            assert(tasks_like(fvs, filter_status(self.tasks@, f)) && sv.to_multiset()
                == fvs.to_multiset() && sorted_desc(sv) && sorted@ == page_of(sv, limit, skip));
        }
        sorted
    }

    /// Count the records with the given status.
    pub fn count_by_status(&self, status: TaskStatus) -> (r: usize)
        ensures
            r == count_status(self.tasks@, status),
    {
        let mut n: usize = 0;
        let mut i: usize = 0;
        while i < self.tasks.len()
            invariant
                i <= self.tasks.len(),
                n <= i,
                n == count_status(self.tasks@.take(i as int), status),
            decreases self.tasks.len() - i,
        {
            proof {
                assert(self.tasks@.take(i + 1).drop_last() =~= self.tasks@.take(i as int));
                assert(self.tasks@.take(i + 1).last() == self.tasks@[i as int]);
            }
            if self.tasks[i].status == status {
                n = n + 1;
            }
            i = i + 1;
        }
        proof {
            assert(self.tasks@.take(self.tasks@.len() as int) =~= self.tasks@);
        }
        n
    }
}

} // verus!
