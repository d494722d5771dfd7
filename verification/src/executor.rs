//! The cooperative executor.
//!
//! A single-threaded, non-preemptive scheduler over a fixed set of
//! suspendable tasks. `run` sweeps the tasks in index order, resuming each
//! task that has not yet reported completion and marking it done on its
//! `Ready` report, and yields to the kernel after every full sweep — the only
//! points at which pending upcalls are delivered — whether or not the sweep
//! made progress. It returns exactly when every task has reported completion;
//! there is no timeout, no task removal and no fairness beyond the fixed
//! index order.
//!
//! A task declares, through [`Task::pending_polls`], how many resumptions it
//! still answers with `Pending` before reporting completion. That count is
//! what lets every run of the scheduling loop come to an end, and it pins the
//! loop's observable behaviour exactly: a run over a non-empty set performs
//! one sweep more than the largest count among the slots still open at entry,
//! with one non-blocking yield per sweep. The price of that evidence is that
//! a unit of work waiting an unbounded number of rounds for a kernel event is
//! not expressible here.

use vstd::prelude::*;

use crate::boundary::{Event, Syscalls};

verus! {

/// What a resumed task reports: completion, or the wish to be resumed again
/// on a later sweep.
#[derive(Clone, Copy, PartialEq, Eq, Structural, Debug)]
pub enum Poll {
    Ready,
    Pending,
}

/// A suspendable unit of work, driven by the executor's polling loop.
pub trait Task: Sized {
    /// How many more resumptions answer `Pending` before completion is
    /// reported: each poll consumes one, and the poll after the last one
    /// reports `Ready`.
    spec fn pending_polls(&self) -> nat;

    /// Whether the work has reported completion.
    spec fn completed(&self) -> bool;

    /// Resume the task once.
    fn poll(&mut self) -> (r: Poll)
        ensures
            (r is Ready) <==> old(self).pending_polls() == 0,
            r is Pending ==> final(self).pending_polls() + 1 == old(self).pending_polls(),
            r is Ready ==> final(self).completed(),
    ;
}

/// A cooperative checkpoint: a task wrapping one `Yield` pauses there for one
/// sweep without issuing any syscall itself. The first resumption reaches the
/// checkpoint and reports pending; the second one passes it and reports
/// completion.
pub struct Yield {
    ready: bool,
    finished: bool,
}

impl Yield {
    /// Whether the checkpoint has been reached already.
    pub closed spec fn reached(&self) -> bool {
        self.ready
    }

    /// A fresh checkpoint, not yet reached.
    pub fn now() -> (y: Yield)
        ensures
            !y.reached(),
            !y.completed(),
            y.pending_polls() == 1,
    {
        Yield { ready: false, finished: false }
    }
}

impl Task for Yield {
    open spec fn pending_polls(&self) -> nat {
        if self.reached() {
            0
        } else {
            1
        }
    }

    closed spec fn completed(&self) -> bool {
        self.finished
    }

    /// Pending on the poll that reaches the checkpoint, ready on the poll
    /// after it.
    fn poll(&mut self) -> (r: Poll)
        ensures
            (r is Ready) <==> old(self).reached(),
            final(self).reached(),
    {
        if self.ready {
            self.finished = true;
            Poll::Ready
        } else {
            self.ready = true;
            Poll::Pending
        }
    }
}

/// How many of the first `i` slots are marked done.
pub open spec fn done_upto(done: Seq<bool>, i: int) -> nat
    decreases i,
{
    if i <= 0 || i > done.len() {
        0
    } else {
        done_upto(done, i - 1) + (if done[i - 1] {
            1nat
        } else {
            0nat
        })
    }
}

proof fn lemma_done_upto_bound(done: Seq<bool>, i: int)
    requires
        0 <= i,
    ensures
        done_upto(done, i) <= i,
    decreases i,
{
    if 0 < i <= done.len() {
        lemma_done_upto_bound(done, i - 1);
    }
}

proof fn lemma_done_upto_full(done: Seq<bool>, i: int)
    requires
        0 <= i <= done.len(),
        done_upto(done, i) == i,
    ensures
        forall|j: int| 0 <= j < i ==> done[j],
    decreases i,
{
    if i > 0 {
        lemma_done_upto_bound(done, i - 1);
        lemma_done_upto_full(done, i - 1);
    }
}

proof fn lemma_done_upto_agree(d1: Seq<bool>, d2: Seq<bool>, i: int)
    requires
        i <= d1.len(),
        i <= d2.len(),
        forall|x: int| 0 <= x < i ==> #[trigger] d1[x] == d2[x],
    ensures
        done_upto(d1, i) == done_upto(d2, i),
    decreases i,
{
    if i > 0 {
        lemma_done_upto_agree(d1, d2, i - 1);
    }
}

proof fn lemma_done_upto_all(done: Seq<bool>, i: int)
    requires
        0 <= i <= done.len(),
        forall|j: int| 0 <= j < i ==> done[j],
    ensures
        done_upto(done, i) == i,
    decreases i,
{
    if i > 0 {
        lemma_done_upto_all(done, i - 1);
    }
}

/// The largest pending count among the slots from `i` on that are not yet
/// marked done; zero when every one of them is done.
pub open spec fn max_pending<T: Task>(tasks: Seq<T>, done: Seq<bool>, i: int) -> nat
    decreases tasks.len() - i,
{
    if i < 0 || i >= tasks.len() || done.len() != tasks.len() {
        0
    } else {
        let rest = max_pending(tasks, done, i + 1);
        let here: nat = if done[i] {
            0
        } else {
            tasks[i].pending_polls()
        };
        if here > rest {
            here
        } else {
            rest
        }
    }
}

/// How many sweeps — and so how many non-blocking yields — a run over this
/// state performs: none over an empty task set, otherwise one more than the
/// largest pending count among the slots still open (the sweep that collects
/// the last `Ready` report), and a single sweep when nothing is open.
pub open spec fn spec_sweeps<T: Task>(tasks: Seq<T>, done: Seq<bool>) -> nat {
    if tasks.len() == 0 {
        0
    } else {
        1 + max_pending(tasks, done, 0)
    }
}

proof fn lemma_max_pending_ge<T: Task>(tasks: Seq<T>, done: Seq<bool>, i: int, x: int)
    requires
        tasks.len() == done.len(),
        0 <= i <= x < tasks.len(),
        !done[x],
    ensures
        max_pending(tasks, done, i) >= tasks[x].pending_polls(),
    decreases x - i,
{
    if i < x {
        lemma_max_pending_ge(tasks, done, i + 1, x);
    }
}

proof fn lemma_max_pending_le<T: Task>(tasks: Seq<T>, done: Seq<bool>, i: int, s: nat)
    requires
        tasks.len() == done.len(),
        forall|x: int| i <= x < tasks.len() && !done[x] ==> s >= #[trigger] tasks[x].pending_polls(),
    ensures
        s >= max_pending(tasks, done, i),
    decreases tasks.len() - i,
{
    if 0 <= i < tasks.len() {
        lemma_max_pending_le(tasks, done, i + 1, s);
    }
}

/// Where slot `x` of a run stands after `s` full sweeps over an entry state
/// whose slot held task `t0` with done flag `d0`: a slot already done at
/// entry is never touched again; an open slot is polled once per sweep,
/// counting its pending polls down, until the sweep after they are spent
/// collects its `Ready` report and marks it done.
pub open spec fn slot_after<T: Task>(t0: T, d0: bool, t: T, d: bool, s: nat) -> bool {
    if d0 {
        t == t0 && d
    } else if s > t0.pending_polls() {
        d && t.completed()
    } else {
        !d && t.pending_polls() + s == t0.pending_polls()
    }
}

/// The simplest possible scheduler: it keeps sweeping the whole task list,
/// polling every task not yet done, instead of taking sleeping tasks off a
/// run queue.
pub struct Executor<T: Task> {
    tasks: Vec<T>,
    done: Vec<bool>,
}

impl<T: Task> Executor<T> {
    /// One done flag per task, and a done flag only ever covers work that has
    /// reported completion.
    pub closed spec fn wf(&self) -> bool {
        &&& self.done@.len() == self.tasks@.len()
        &&& forall|j: int|
            0 <= j < self.done@.len() && self.done@[j] ==> #[trigger] self.tasks@[j].completed()
    }

    /// The registered tasks, in polling order.
    pub closed spec fn tasks_seq(&self) -> Seq<T> {
        self.tasks@
    }

    /// Which tasks have reported completion.
    pub closed spec fn done_seq(&self) -> Seq<bool> {
        self.done@
    }

    /// Register a fixed set of tasks, none of them done. Tasks are never
    /// added or removed afterwards.
    pub fn new(tasks: Vec<T>) -> (e: Executor<T>)
        ensures
            e.wf(),
            e.tasks_seq() == tasks@,
            e.done_seq().len() == tasks@.len(),
            forall|j: int| 0 <= j < e.done_seq().len() ==> !e.done_seq()[j],
    {
        let n = tasks.len();
        let mut done: Vec<bool> = Vec::new();
        let mut i: usize = 0;
        while i < n
            invariant
                i <= n,
                done@.len() == i,
                forall|j: int| 0 <= j < i ==> !done@[j],
            decreases n - i,
        {
            done.push(false);
            i = i + 1;
        }
        Executor { tasks, done }
    }

    /// Sweep the tasks in index order, polling each task not yet done and
    /// marking it done exactly when it reports completion; yield to the
    /// kernel after every full sweep, whether or not the sweep made progress;
    /// return once every task is done. On return every task has reported
    /// completion, a task done at entry was never resumed, and the kernel saw
    /// nothing from this loop but one yield per sweep — exactly
    /// [`spec_sweeps`] of them.
    #[verifier::loop_isolation(false)]
    pub fn run<K: Syscalls>(&mut self, kernel: &mut K)
        requires
            old(self).wf(),
        ensures
            final(self).wf(),
            final(self).done_seq().len() == old(self).done_seq().len(),
            final(self).tasks_seq().len() == old(self).tasks_seq().len(),
            forall|j: int|
                0 <= j < final(self).done_seq().len() ==> final(self).done_seq()[j],
            forall|j: int|
                0 <= j < final(self).tasks_seq().len()
                    ==> #[trigger] final(self).tasks_seq()[j].completed(),
            forall|j: int|
                0 <= j < old(self).done_seq().len() && old(self).done_seq()[j]
                    ==> #[trigger] final(self).tasks_seq()[j] == old(self).tasks_seq()[j],
            final(kernel).log().len() == old(kernel).log().len() + spec_sweeps(
                old(self).tasks_seq(),
                old(self).done_seq(),
            ),
            final(kernel).log().subrange(0, old(kernel).log().len() as int) == old(kernel).log(),
            forall|j: int|
                old(kernel).log().len() <= j < final(kernel).log().len() ==> final(kernel).log()[j]
                    == Event::Yield,
    {
        let n = self.tasks.len();
        let ghost t0 = self.tasks@;
        let ghost d0 = self.done@;
        let ghost total = spec_sweeps(t0, d0);
        let ghost mut s: nat = 0;
        let mut all_done: usize = 0;
        while all_done != n
            invariant
                self.wf(),
                self.tasks@.len() == n,
                all_done <= n,
                s <= total,
                (all_done == n) <==> (s == total),
                all_done == n ==> forall|j: int| 0 <= j < n ==> self.done@[j],
                forall|x: int|
                    0 <= x < n ==> #[trigger] slot_after(t0[x], d0[x], self.tasks@[x], self.done@[x], s),
                kernel.log().len() == old(kernel).log().len() + s,
                kernel.log().subrange(0, old(kernel).log().len() as int) == old(kernel).log(),
                forall|j: int|
                    old(kernel).log().len() <= j < kernel.log().len() ==> kernel.log()[j]
                        == Event::Yield,
            decreases total - s,
        {
            all_done = 0;
            let mut i: usize = 0;
            while i < n
                invariant
                    i <= n,
                    self.wf(),
                    self.tasks@.len() == n,
                    all_done <= i,
                    all_done == done_upto(self.done@, i as int),
                    forall|x: int|
                        0 <= x < i ==> #[trigger] slot_after(
                            t0[x],
                            d0[x],
                            self.tasks@[x],
                            self.done@[x],
                            (s + 1) as nat,
                        ),
                    forall|x: int|
                        i <= x < n ==> #[trigger] slot_after(
                            t0[x],
                            d0[x],
                            self.tasks@[x],
                            self.done@[x],
                            s,
                        ),
                decreases n - i,
            {
                let ghost pt = self.tasks@;
                let ghost pd = self.done@;
                proof {
                    assert(slot_after(t0[i as int], d0[i as int], pt[i as int], pd[i as int], s));
                }
                if self.done[i] {
                    all_done = all_done + 1;
                } else {
                    let task = &mut self.tasks[i];
                    let r = task.poll();
                    match r {
                        Poll::Ready => {
                            let ghost d_mid = self.done@;
                            self.done[i] = true;
                            all_done = all_done + 1;
                            proof {
                                lemma_done_upto_agree(d_mid, self.done@, i as int);
                            }
                        },
                        Poll::Pending => {},
                    }
                }
                proof {
                    assert(slot_after(
                        t0[i as int],
                        d0[i as int],
                        self.tasks@[i as int],
                        self.done@[i as int],
                        (s + 1) as nat,
                    ));
                    assert forall|x: int| 0 <= x < i implies #[trigger] slot_after(
                        t0[x],
                        d0[x],
                        self.tasks@[x],
                        self.done@[x],
                        (s + 1) as nat,
                    ) by {
                        assert(slot_after(t0[x], d0[x], pt[x], pd[x], (s + 1) as nat));
                        assert(self.tasks@[x] == pt[x]);
                        assert(self.done@[x] == pd[x]);
                    }
                    assert forall|x: int| i < x < n implies #[trigger] slot_after(
                        t0[x],
                        d0[x],
                        self.tasks@[x],
                        self.done@[x],
                        s,
                    ) by {
                        assert(slot_after(t0[x], d0[x], pt[x], pd[x], s));
                        assert(self.tasks@[x] == pt[x]);
                        assert(self.done@[x] == pd[x]);
                    }
                }
                i = i + 1;
            }
            proof {
                lemma_done_upto_bound(self.done@, n as int);
                if all_done == n {
                    lemma_done_upto_full(self.done@, n as int);
                    assert forall|x: int|
                        0 <= x < n && !d0[x] implies s >= #[trigger] t0[x].pending_polls() by {
                        assert(slot_after(t0[x], d0[x], self.tasks@[x], self.done@[x], (s + 1) as nat));
                    }
                    lemma_max_pending_le(t0, d0, 0, s);
                    assert(s + 1 == total);
                } else {
                    assert(exists|x: int| 0 <= x < n && !self.done@[x]) by {
                        if forall|x: int| 0 <= x < n ==> #[trigger] self.done@[x] {
                            lemma_done_upto_all(self.done@, n as int);
                        }
                    }
                    let w = choose|x: int| 0 <= x < n && !self.done@[x];
                    assert(slot_after(t0[w], d0[w], self.tasks@[w], self.done@[w], (s + 1) as nat));
                    lemma_max_pending_ge(t0, d0, 0, w);
                    assert(s + 1 < total);
                }
            }
            kernel.yield_no_wait();
            proof {
                s = s + 1;
                let pre_len = old(kernel).log().len() as int;
                assert(kernel.log().subrange(0, pre_len) =~= old(kernel).log());
            }
        }
        proof {
            assert forall|j: int|
                0 <= j < n && d0[j] implies #[trigger] self.tasks@[j] == t0[j] by {
                assert(slot_after(t0[j], d0[j], self.tasks@[j], self.done@[j], s));
            }
            assert forall|j: int| 0 <= j < n implies #[trigger] self.tasks@[j].completed() by {
                assert(self.done@[j]);
            }
        }
    }
}

} // verus!
