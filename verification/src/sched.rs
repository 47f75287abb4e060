//! Bounded-concurrency batch bookkeeping, the decision core of the fetch
//! pipeline.  A batch of `total` tasks is admitted through a sliding window:
//! a task may start as soon as fewer than `limit` are in flight, completions
//! may arrive in any order, and the collected outputs come back in the
//! submission order.  The driver that actually runs the tasks only
//! asks this state which index to start next and hands each completion back.

use vstd::prelude::*;

verus! {

/// How many slots of `s` are filled.
pub open spec fn count_filled<R>(s: Seq<Option<R>>) -> nat
    decreases s.len(),
{
    if s.len() == 0 {
        0
    } else {
        count_filled(s.drop_last()) + if s.last() is Some {
            1nat
        } else {
            0nat
        }
    }
}

proof fn lemma_count_filled_update<R>(s: Seq<Option<R>>, i: int, r: R)
    requires
        0 <= i < s.len(),
        s[i] is None,
    ensures
        count_filled(s.update(i, Some(r))) == count_filled(s) + 1,
    decreases s.len(),
{
    let t = s.update(i, Some(r));
    if i == s.len() - 1 {
        assert(t.drop_last() =~= s.drop_last());
    } else {
        assert(t.drop_last() =~= s.drop_last().update(i, Some(r)));
        lemma_count_filled_update(s.drop_last(), i, r);
    }
}

proof fn lemma_count_filled_full<R>(s: Seq<Option<R>>)
    requires
        count_filled(s) == s.len(),
    ensures
        forall|i: int| 0 <= i < s.len() ==> s[i] is Some,
    decreases s.len(),
{
    if s.len() > 0 {
        assert(count_filled(s.drop_last()) <= s.drop_last().len()) by {
            lemma_count_filled_le(s.drop_last());
        }
        lemma_count_filled_full(s.drop_last());
        assert(forall|i: int|
            0 <= i < s.len() - 1 ==> s[i] == s.drop_last()[i] && s.drop_last()[i] is Some);
    }
}

proof fn lemma_count_filled_le<R>(s: Seq<Option<R>>)
    ensures
        count_filled(s) <= s.len(),
    decreases s.len(),
{
    if s.len() > 0 {
        lemma_count_filled_le(s.drop_last());
    }
}

proof fn lemma_count_filled_concat<R>(a: Seq<Option<R>>, b: Seq<Option<R>>)
    ensures
        count_filled(a + b) == count_filled(a) + count_filled(b),
    decreases b.len(),
{
    if b.len() == 0 {
        assert(a + b =~= a);
    } else {
        assert((a + b).drop_last() =~= a + b.drop_last());
        lemma_count_filled_concat(a, b.drop_last());
    }
}

proof fn lemma_count_filled_none<R>(s: Seq<Option<R>>)
    requires
        forall|i: int| 0 <= i < s.len() ==> s[i] is None,
    ensures
        count_filled(s) == 0,
    decreases s.len(),
{
    if s.len() > 0 {
        lemma_count_filled_none(s.drop_last());
    }
}

proof fn lemma_count_filled_hole<R>(s: Seq<Option<R>>, i: int)
    requires
        0 <= i < s.len(),
        s[i] is None,
    ensures
        count_filled(s) < s.len(),
    decreases s.len(),
{
    if i == s.len() - 1 {
        lemma_count_filled_le(s.drop_last());
    } else {
        lemma_count_filled_hole(s.drop_last(), i);
    }
}

/// The bookkeeping of one bounded-concurrency batch over tasks
/// `0 .. total`, collecting one output per task.
pub struct BoundedBatch<R> {
    limit: usize,
    total: usize,
    next: usize,
    completed: usize,
    results: Vec<Option<R>>,
}

impl<R> BoundedBatch<R> {
    /// The admission ceiling: how many tasks may be in flight at once.
    pub closed spec fn spec_limit(&self) -> nat {
        self.limit as nat
    }

    /// How many tasks the batch has.
    pub closed spec fn spec_total(&self) -> nat {
        self.total as nat
    }

    /// How many tasks have been started so far; tasks start in submission
    /// order, so these are exactly the indices below this mark.
    pub closed spec fn spec_started(&self) -> nat {
        self.next as nat
    }

    /// How many tasks have completed so far.
    pub closed spec fn spec_completed(&self) -> nat {
        self.completed as nat
    }

    /// The output slot of task `i`.
    pub closed spec fn spec_result(&self, i: int) -> Option<R> {
        self.results@[i]
    }

    /// How many tasks are in flight: started but not completed.
    pub open spec fn spec_in_flight(&self) -> nat {
        (self.spec_started() - self.spec_completed()) as nat
    }

    /// The batch bookkeeping is coherent, and the admission bound holds:
    /// never more than `limit` tasks in flight.
    pub closed spec fn wf(&self) -> bool {
        &&& self.limit >= 1
        &&& self.results@.len() == self.total as nat
        &&& self.completed <= self.next <= self.total
        &&& self.next - self.completed <= self.limit
        &&& count_filled(self.results@) == self.completed as nat
        &&& forall|i: int| self.next <= i < self.total ==> self.results@[i] is None
    }

    /// The admission bound: in every coherent batch state — and every state
    /// reachable through `new`, `start` and `complete` is one — the number
    /// of tasks in flight never exceeds the ceiling.
    pub proof fn lemma_in_flight_bounded(&self)
        requires
            self.wf(),
        ensures
            self.spec_in_flight() <= self.spec_limit(),
    {
    }

    /// A fresh batch of `total` tasks admitted at most `limit` at a time.
    pub fn new(total: usize, limit: usize) -> (b: BoundedBatch<R>)
        requires
            limit >= 1,
        ensures
            b.wf(),
            b.spec_total() == total,
            b.spec_limit() == limit,
            b.spec_started() == 0,
            b.spec_completed() == 0,
            forall|j: int| 0 <= j < total ==> b.spec_result(j) is None,
    {
        let mut results: Vec<Option<R>> = Vec::new();
        let mut i: usize = 0;
        while i < total
            invariant
                i <= total,
                results@.len() == i,
                count_filled(results@) == 0,
                forall|j: int| 0 <= j < i ==> results@[j] is None,
            decreases total - i,
        {
            let ghost before = results@;
            results.push(None);
            proof {
                assert(results@.drop_last() =~= before);
            }
            i += 1;
        }
        BoundedBatch { limit, total, next: 0, completed: 0, results }
    }

    /// Whether another task may start now: some task is still unstarted and
    /// the window has room.
    pub fn can_start(&self) -> (r: bool)
        requires
            self.wf(),
        ensures
            r == (self.spec_started() < self.spec_total() && self.spec_in_flight()
                < self.spec_limit()),
    {
        self.next < self.total && self.next - self.completed < self.limit
    }

    /// Admit the next task, in submission order.  The number in flight stays
    /// within the ceiling.
    pub fn start(&mut self) -> (i: usize)
        requires
            old(self).wf(),
            old(self).spec_started() < old(self).spec_total(),
            old(self).spec_in_flight() < old(self).spec_limit(),
        ensures
            final(self).wf(),
            i == old(self).spec_started(),
            final(self).spec_started() == old(self).spec_started() + 1,
            final(self).spec_completed() == old(self).spec_completed(),
            final(self).spec_total() == old(self).spec_total(),
            final(self).spec_limit() == old(self).spec_limit(),
            forall|j: int| final(self).spec_result(j) == old(self).spec_result(j),
            final(self).spec_in_flight() <= final(self).spec_limit(),
    {
        let i = self.next;
        self.next = self.next + 1;
        i
    }

    /// Record the completion of task `i`, in whatever order completions
    /// arrive.  The output is stored in the task's own slot.
    pub fn complete(&mut self, i: usize, output: R)
        requires
            old(self).wf(),
            i < old(self).spec_started(),
            old(self).spec_result(i as int) is None,
        ensures
            final(self).wf(),
            final(self).spec_started() == old(self).spec_started(),
            final(self).spec_completed() == old(self).spec_completed() + 1,
            final(self).spec_total() == old(self).spec_total(),
            final(self).spec_limit() == old(self).spec_limit(),
            final(self).spec_result(i as int) == Some(output),
            forall|j: int|
                0 <= j < old(self).spec_total() && j != i ==> final(self).spec_result(j) == old(
                    self,
                ).spec_result(j),
    {
        proof {
            let s = self.results@;
            let started = self.next as int;
            let pre = s.subrange(0, started);
            let post = s.subrange(started, s.len() as int);
            assert(s =~= pre + post);
            lemma_count_filled_concat(pre, post);
            lemma_count_filled_none(post);
            lemma_count_filled_hole(pre, i as int);
            lemma_count_filled_update(self.results@, i as int, output);
        }
        self.results.set(i, Some(output));
        self.completed = self.completed + 1;
    }

    /// Whether every task has started and completed.
    pub fn is_done(&self) -> (r: bool)
        requires
            self.wf(),
        ensures
            r == (self.spec_started() == self.spec_total() && self.spec_completed()
                == self.spec_total()),
    {
        self.next == self.total && self.completed == self.total
    }

    /// Hand the outputs back, one per task, in submission order — whatever
    /// order the completions arrived in.
    pub fn into_results(self) -> (v: Vec<R>)
        requires
            self.wf(),
            self.spec_started() == self.spec_total(),
            self.spec_completed() == self.spec_total(),
        ensures
            v@.len() == self.spec_total(),
            forall|i: int|
                0 <= i < self.spec_total() ==> Some(#[trigger] v@[i]) == self.spec_result(i),
    {
        proof {
            lemma_count_filled_full(self.results@);
        }
        let ghost initial = self.results@;
        let mut results = self.results;
        let mut v: Vec<R> = Vec::new();
        while results.len() > 0
            invariant
                v@.len() + results@.len() == initial.len(),
                forall|i: int| 0 <= i < v@.len() ==> Some(#[trigger] v@[i]) == initial[i],
                forall|i: int|
                    0 <= i < results@.len() ==> results@[i] == initial[v@.len() + i],
                forall|i: int| 0 <= i < initial.len() ==> initial[i] is Some,
            decreases results@.len(),
    {
            let r = results.remove(0);
            match r {
                Some(output) => {
                    v.push(output);
                },
                None => {
                    proof {
                        assert(false);
                    }
                },
            }
        }
        v
    }
}

} // verus!
