//! Proofs about the model of the dispatcher: that the folds over the task
//! table compute what their direct statements say, and that every operation
//! keeps the state valid.

use vstd::prelude::*;
use crate::model::{
    SchedulerModel, first_ready, goes_before, is_bound_task, is_earliest_due,
    is_first_ready, is_running_level, is_top_running, is_users_ceiling, bound_task,
    earliest_due, running_level, top_running, users_ceiling,
};
use crate::task::Task;

verus! {

/// `running_level` is the greatest priority among the running tasks.
pub proof fn lemma_running_level(tasks: Seq<Task>, n: int)
    requires
        0 <= n <= tasks.len(),
    ensures
        is_running_level(tasks, n, running_level(tasks, n)),
        -1 <= running_level(tasks, n) <= 255,
    decreases n,
{
    if n > 0 {
        lemma_running_level(tasks, n - 1);
        let rest = running_level(tasks, n - 1);
        let t = tasks[n - 1];
        if t.running && t.priority > rest {
            assert(tasks[n - 1].running && tasks[n - 1].priority == running_level(tasks, n));
        } else if rest != -1 {
            let w = choose|i: int| 0 <= i < n - 1 && (#[trigger] tasks[i]).running && tasks[i].priority == rest;
            assert(0 <= w < n && tasks[w].running && tasks[w].priority == running_level(tasks, n));
        }
    }
}

/// Only one number is the greatest priority among the running tasks.
pub proof fn lemma_running_level_is(tasks: Seq<Task>, n: int, l: int)
    requires
        0 <= n <= tasks.len(),
        is_running_level(tasks, n, l),
    ensures
        running_level(tasks, n) == l,
{
    lemma_running_level(tasks, n);
}

/// `first_ready` is the ready task that goes before every other ready one.
pub proof fn lemma_first_ready(tasks: Seq<Task>, n: int)
    requires
        0 <= n <= tasks.len(),
    ensures
        is_first_ready(tasks, n, first_ready(tasks, n)),
    decreases n,
{
    if n > 0 {
        lemma_first_ready(tasks, n - 1);
    }
}

/// Only one task goes before every other ready one.
pub proof fn lemma_first_ready_is(tasks: Seq<Task>, n: int, r: Option<int>)
    requires
        0 <= n <= tasks.len(),
        is_first_ready(tasks, n, r),
    ensures
        first_ready(tasks, n) == r,
{
    lemma_first_ready(tasks, n);
    let q = first_ready(tasks, n);
    match (q, r) {
        (Some(a), Some(b)) => {
            if a != b {
                assert(goes_before(tasks, a, b));
                assert(goes_before(tasks, b, a));
            }
        },
        (Some(a), None) => {
            assert(tasks[a].ready());
        },
        (None, Some(b)) => {
            assert(tasks[b].ready());
        },
        (None, None) => {},
    }
}

/// `top_running` is the running task of the greatest priority, and its
/// priority is the running level.
pub proof fn lemma_top_running(tasks: Seq<Task>, n: int)
    requires
        0 <= n <= tasks.len(),
    ensures
        is_top_running(tasks, n, top_running(tasks, n)),
        match top_running(tasks, n) {
            Some(t) => running_level(tasks, n) == tasks[t].priority,
            None => running_level(tasks, n) == -1,
        },
    decreases n,
{
    if n > 0 {
        lemma_top_running(tasks, n - 1);
        lemma_running_level(tasks, n - 1);
    }
}

/// `earliest_due` is the least due-time in the timer queue.
pub proof fn lemma_earliest_due(tasks: Seq<Task>, n: int)
    requires
        0 <= n <= tasks.len(),
    ensures
        is_earliest_due(tasks, n, earliest_due(tasks, n)),
    decreases n,
{
    if n > 0 {
        lemma_earliest_due(tasks, n - 1);
        let prev = earliest_due(tasks, n - 1);
        match earliest_due(tasks, n) {
            Some(d) => {
                if tasks[n - 1].armed() && tasks[n - 1].arrival() == d {
                    assert(tasks[n - 1].armed() && tasks[n - 1].arrival() == d);
                } else {
                    let w = choose|i: int|
                        0 <= i < n - 1 && (#[trigger] tasks[i]).armed() && tasks[i].arrival()
                            == prev->0;
                    assert(0 <= w < n && tasks[w].armed() && tasks[w].arrival() == d);
                }
            },
            None => {},
        }
    }
}

/// `bound_task` is the first task that is bound to the source.
pub proof fn lemma_bound_task(tasks: Seq<Task>, source: u8, n: int)
    requires
        0 <= n <= tasks.len(),
    ensures
        is_bound_task(tasks, source, n, bound_task(tasks, source, n)),
    decreases n,
{
    if n > 0 {
        lemma_bound_task(tasks, source, n - 1);
    }
}

/// The running level depends on nothing but which tasks run and how urgent
/// they are.
pub proof fn lemma_running_level_same(a: Seq<Task>, b: Seq<Task>, n: int)
    requires
        0 <= n <= a.len(),
        a.len() == b.len(),
        forall|i: int|
            0 <= i < n ==> (#[trigger] a[i]).running == b[i].running && a[i].priority
                == b[i].priority,
    ensures
        running_level(a, n) == running_level(b, n),
    decreases n,
{
    if n > 0 {
        lemma_running_level_same(a, b, n - 1);
    }
}

/// The dispatch step leaves a valid state, whatever was ready before it; the
/// task that it begins then has the processor.
pub proof fn lemma_dispatch(s: SchedulerModel)
    requires
        s.distinct_running(),
    ensures
        s.dispatch().wf(),
        s.dispatch().tasks.len() == s.tasks.len(),
        match s.started() {
            Some(f) => {
                &&& s.has(f)
                &&& s.tasks[f].ready()
                &&& s.dispatch().level() == s.tasks[f].priority
                &&& s.dispatch().current() == Some(f)
            },
            None => s.dispatch() == s,
        },
{
    let n = s.len();
    lemma_first_ready(s.tasks, n);
    lemma_running_level(s.tasks, n);
    match s.started() {
        Some(f) => {
            let t2 = s.tasks.update(f, s.tasks[f].begun());
            let p = s.tasks[f].priority as int;
            assert(t2[f].running && t2[f].priority == p);
            assert(is_running_level(t2, n, p));
            lemma_running_level_is(t2, n, p);
            let s2 = s.dispatch();
            assert(s2.tasks == t2);
            assert(s2.level() == p);
            assert forall|i: int| 0 <= i < t2.len() && (#[trigger] t2[i]).ready() implies t2[i].priority
                <= s2.level() by {
                assert(i != f);
                assert(s.tasks[i].ready());
                assert(goes_before(s.tasks, f, i));
            }
            assert forall|i: int, j: int|
                0 <= i < j < t2.len() && (#[trigger] t2[i]).running && (
                #[trigger] t2[j]).running implies t2[i].priority != t2[j].priority by {
                if i != f {
                    assert(s.tasks[i].running);
                }
                if j != f {
                    assert(s.tasks[j].running);
                }
            }
            lemma_top_running(t2, n);
            let c = top_running(t2, n);
            assert(c is Some);
            if c->0 != f {
                assert(s.tasks[c->0].running);
            }
        },
        None => {
            match s.candidate() {
                Some(c) => {
                    assert forall|i: int|
                        0 <= i < s.tasks.len() && (#[trigger] s.tasks[i]).ready() implies s.tasks[i].priority
                        <= s.level() by {
                        if i != c {
                            assert(goes_before(s.tasks, c, i));
                        }
                    }
                },
                None => {},
            }
        },
    }
}

/// A reading of the clock keeps the state valid.
pub proof fn lemma_advance(s: SchedulerModel, reading: u64)
    requires
        s.wf(),
    ensures
        s.advance(reading).wf(),
        s.advance(reading).tasks == s.tasks,
        s.advance(reading).now >= s.now,
{
}

/// A request to schedule a task keeps the state valid, and begins no task.
pub proof fn lemma_schedule(s: SchedulerModel, task: usize, delay: u64)
    requires
        s.wf(),
    ensures
        s.schedule_after(task, delay).wf(),
        s.schedule_after(task, delay).tasks.len() == s.tasks.len(),
        s.schedule_after(task, delay).level() == s.level(),
{
    let s2 = s.schedule_after(task, delay);
    lemma_running_level_same(s.tasks, s2.tasks, s.len());
    assert forall|i: int| 0 <= i < s2.tasks.len() && (#[trigger] s2.tasks[i]).ready() implies s2.tasks[i].priority
        <= s2.level() by {
        assert(s.tasks[i].ready());
    }
    assert forall|i: int, j: int|
        0 <= i < j < s2.tasks.len() && (#[trigger] s2.tasks[i]).running && (
        #[trigger] s2.tasks[j]).running implies s2.tasks[i].priority != s2.tasks[j].priority by {
        assert(s.tasks[i].running && s.tasks[j].running);
    }
}

/// A tick keeps the state valid.
pub proof fn lemma_tick(s: SchedulerModel)
    requires
        s.wf(),
    ensures
        s.tick().wf(),
        s.tick().tasks.len() == s.tasks.len(),
        s.expire().distinct_running(),
        s.expire().level() == s.level(),
{
    let e = s.expire();
    lemma_running_level_same(s.tasks, e.tasks, s.len());
    assert forall|i: int, j: int|
        0 <= i < j < e.tasks.len() && (#[trigger] e.tasks[i]).running && (
        #[trigger] e.tasks[j]).running implies e.tasks[i].priority != e.tasks[j].priority by {
        assert(s.tasks[i].running && s.tasks[j].running);
    }
    lemma_dispatch(e);
}

/// An interrupt keeps the state valid. The bound task begins at once where its
/// priority is above the level at which the processor works; else no task
/// begins, and the bound task waits.
pub proof fn lemma_interrupt(s: SchedulerModel, source: u8)
    requires
        s.wf(),
    ensures
        s.interrupt(source).wf(),
        s.interrupt(source).tasks.len() == s.tasks.len(),
        match s.bound(source) {
            Some(t) => {
                &&& s.has(t)
                &&& s.tasks[t].source == Some(source)
                &&& s.interrupt(source) == s.arrive(t).dispatch()
                &&& s.arrive(t).started() == if s.tasks[t].priority > s.level() {
                    Some(t)
                } else {
                    None
                }
            },
            None => s.interrupt(source) == s,
        },
{
    let n = s.len();
    lemma_bound_task(s.tasks, source, n);
    match s.bound(source) {
        Some(t) => {
            let a = s.arrive(t);
            lemma_running_level_same(s.tasks, a.tasks, n);
            lemma_running_level(s.tasks, n);
            assert(a.level() == s.level());
            assert forall|i: int, j: int|
                0 <= i < j < a.tasks.len() && (#[trigger] a.tasks[i]).running && (
                #[trigger] a.tasks[j]).running implies a.tasks[i].priority
                != a.tasks[j].priority by {
                assert(s.tasks[i].running && s.tasks[j].running);
            }
            lemma_first_ready(a.tasks, n);
            lemma_dispatch(a);
            if s.tasks[t].priority > s.level() {
                assert(!s.tasks[t].running);
                assert(a.tasks[t].ready());
                let c = a.candidate()->0;
                if c != t {
                    assert(goes_before(a.tasks, c, t));
                    assert(s.tasks[c].ready());
                }
            } else {
                if a.started() is Some {
                    let f = a.started()->0;
                    if f != t {
                        assert(s.tasks[f].ready());
                    }
                }
            }
        },
        None => {},
    }
}

/// The completion of the running task keeps the state valid.
pub proof fn lemma_complete(s: SchedulerModel)
    requires
        s.wf(),
    ensures
        s.complete().wf(),
        s.complete().tasks.len() == s.tasks.len(),
        s.finish().distinct_running(),
{
    let f = s.finish();
    lemma_top_running(s.tasks, s.len());
    assert forall|i: int, j: int|
        0 <= i < j < f.tasks.len() && (#[trigger] f.tasks[i]).running && (
        #[trigger] f.tasks[j]).running implies f.tasks[i].priority != f.tasks[j].priority by {
        assert(s.tasks[i].running && s.tasks[j].running);
    }
    lemma_dispatch(f);
}

/// Taking a lock keeps the state valid, and does not lower the level.
pub proof fn lemma_lock(s: SchedulerModel, ceiling: u8)
    requires
        s.wf(),
    ensures
        s.lock(ceiling).wf(),
        s.lock(ceiling).level() >= s.level(),
        s.lock(ceiling).level() >= ceiling,
{
    let l = s.lock(ceiling);
    assert forall|i: int| 0 <= i < l.tasks.len() && (#[trigger] l.tasks[i]).ready() implies l.tasks[i].priority
        <= l.level() by {
        assert(s.tasks[i].ready());
    }
}

/// Releasing a lock keeps the state valid.
pub proof fn lemma_unlock(s: SchedulerModel, prior: Option<u8>)
    requires
        s.wf(),
    ensures
        s.unlock(prior).wf(),
        s.unlock(prior).tasks.len() == s.tasks.len(),
{
    lemma_dispatch(SchedulerModel { ceiling: prior, ..s });
}

/// In a valid state the dispatch step has nothing to begin.
pub proof fn lemma_served_dispatch(s: SchedulerModel)
    requires
        s.served(),
    ensures
        s.started() is None,
        s.dispatch() == s,
{
    lemma_first_ready(s.tasks, s.len());
}

/// `users_ceiling` is the greatest priority among the listed tasks.
pub proof fn lemma_users_ceiling(tasks: Seq<Task>, users: Seq<usize>, n: int)
    requires
        0 <= n <= users.len(),
    ensures
        is_users_ceiling(tasks, users, n, users_ceiling(tasks, users, n)),
    decreases n,
{
    if n > 0 {
        lemma_users_ceiling(tasks, users, n - 1);
        let rest = users_ceiling(tasks, users, n - 1);
        let c = users_ceiling(tasks, users, n);
        let u = users[n - 1] as int;
        if 0 <= u < tasks.len() && tasks[u].priority > rest {
            assert(0 <= users[n - 1] < tasks.len() && tasks[users[n - 1] as int].priority == c);
        } else if rest != 0 {
            let w = choose|k: int|
                0 <= k < n - 1 && 0 <= (#[trigger] users[k]) < tasks.len()
                    && tasks[users[k] as int].priority == rest;
            assert(0 <= users[w] < tasks.len() && tasks[users[w] as int].priority == c);
        }
    }
}

} // verus!
