//! What holds of the dispatcher in every state and under every event.

use vstd::prelude::*;
use crate::lemmas::{
    lemma_advance, lemma_bound_task, lemma_complete, lemma_first_ready, lemma_first_ready_is,
    lemma_interrupt, lemma_lock, lemma_running_level, lemma_schedule, lemma_tick,
    lemma_top_running, lemma_unlock, lemma_users_ceiling,
};
use crate::model::{
    Event, ScheduleError, SchedulerModel, armed_count, is_first_ready, users_ceiling,
};
use crate::task::{Activation, Task, TaskState};

verus! {

/// Validity is an invariant: every event takes a valid state to a valid
/// state, over the same tasks.
pub proof fn law_validity(s: SchedulerModel, event: Event)
    requires
        s.wf(),
    ensures
        s.step(event).wf(),
        s.step(event).tasks.len() == s.tasks.len(),
{
    match event {
        Event::Clock(reading) => lemma_advance(s, reading),
        Event::Schedule(task, delay) => lemma_schedule(s, task, delay),
        Event::Interrupt(source) => lemma_interrupt(s, source),
        Event::Tick => lemma_tick(s),
        Event::Complete => lemma_complete(s),
        Event::Lock(ceiling) => lemma_lock(s, ceiling),
        Event::Unlock(prior) => lemma_unlock(s, prior),
    }
}

/// The task is ready or running: its run is requested and due, and is not
/// completed yet.
pub open spec fn in_line(s: SchedulerModel, a: int) -> bool {
    s.has(a) && (s.tasks[a].ready() || s.tasks[a].running)
}

/// The event ends the run of task `a`: the task has the processor and
/// returns.
pub open spec fn completes(s: SchedulerModel, event: Event, a: int) -> bool {
    event is Complete && s.current() == Some(a)
}

/// The event replaces the request of the ready task `a` by a later one, so
/// that the run it waited for does not take place.
pub open spec fn withdraws(s: SchedulerModel, event: Event, a: int) -> bool {
    event matches Event::Schedule(task, delay) && task == a && !s.tasks[a].running
}

/// The level covers every running task, the ceiling, and is -1 or above.
proof fn lemma_level(s: SchedulerModel)
    ensures
        forall|i: int|
            0 <= i < s.tasks.len() && (#[trigger] s.tasks[i]).running ==> s.tasks[i].priority
                <= s.level(),
        s.ceiling matches Some(c) ==> c <= s.level(),
        -1 <= s.level() <= 255,
{
    lemma_running_level(s.tasks, s.len());
}

/// The dispatch step does not begin a task while a more urgent one is ready
/// or running.
proof fn lemma_dispatch_order(s: SchedulerModel, a: int, b: int)
    requires
        in_line(s, a),
        s.has(b),
        s.tasks[a].priority > s.tasks[b].priority,
        !s.tasks[b].running,
    ensures
        !s.dispatch().tasks[b].running,
        in_line(s.dispatch(), a),
{
    lemma_level(s);
    lemma_first_ready(s.tasks, s.len());
}

/// Priority ordering, one event at a time. While task `a` is ready or
/// running, no event begins a less urgent task `b`, whatever the order in
/// which the two were requested: `b` can begin only by the very event that
/// ends the run of `a`.
pub proof fn law_priority_order(s: SchedulerModel, a: int, b: int, event: Event)
    requires
        in_line(s, a),
        s.has(b),
        s.tasks[a].priority > s.tasks[b].priority,
        !s.tasks[b].running,
    ensures
        s.step(event).tasks[b].running ==> completes(s, event, a),
{
    match event {
        Event::Clock(_) => {},
        Event::Schedule(_, _) => {},
        Event::Interrupt(source) => {
            match s.bound(source) {
                Some(t) => {
                    lemma_bound_task(s.tasks, source, s.len());
                    lemma_dispatch_order(s.arrive(t), a, b);
                },
                None => {},
            }
        },
        Event::Tick => {
            lemma_dispatch_order(s.expire(), a, b);
        },
        Event::Complete => {
            lemma_top_running(s.tasks, s.len());
            if s.current() != Some(a) {
                lemma_dispatch_order(s.finish(), a, b);
            }
        },
        Event::Lock(_) => {},
        Event::Unlock(prior) => {
            lemma_dispatch_order(SchedulerModel { ceiling: prior, ..s }, a, b);
        },
    }
}

/// A task that is ready or running stays so under every event but the one
/// that ends its run and the one that replaces its request.
pub proof fn law_stays_in_line(s: SchedulerModel, a: int, event: Event)
    requires
        in_line(s, a),
        !completes(s, event, a),
        !withdraws(s, event, a),
    ensures
        in_line(s.step(event), a),
{
    match event {
        Event::Clock(_) => {},
        Event::Schedule(_, _) => {},
        Event::Interrupt(source) => {
            match s.bound(source) {
                Some(t) => {
                    lemma_bound_task(s.tasks, source, s.len());
                    lemma_first_ready(s.arrive(t).tasks, s.len());
                },
                None => {},
            }
        },
        Event::Tick => {
            lemma_first_ready(s.expire().tasks, s.len());
        },
        Event::Complete => {
            lemma_top_running(s.tasks, s.len());
            lemma_first_ready(s.finish().tasks, s.len());
        },
        Event::Lock(_) => {},
        Event::Unlock(prior) => {
            lemma_first_ready(s.tasks, s.len());
        },
    }
}

/// The state after a sequence of events, in their order.
pub open spec fn run(s: SchedulerModel, events: Seq<Event>) -> SchedulerModel
    decreases events.len(),
{
    if events.len() == 0 {
        s
    } else {
        run(s, events.drop_last()).step(events.last())
    }
}

/// Priority ordering, over every interleaving. Let task `a` be ready or
/// running and a less urgent task `b` not have begun. Then after any sequence
/// of events of which none ends the run of `a` or replaces its request, `a`
/// is still ready or running and `b` has still not begun: `b` begins only
/// after `a` has completed.
pub proof fn law_priority_order_always(s: SchedulerModel, a: int, b: int, events: Seq<Event>)
    requires
        in_line(s, a),
        s.has(b),
        s.tasks[a].priority > s.tasks[b].priority,
        !s.tasks[b].running,
        forall|k: int|
            0 <= k < events.len() ==> !completes(
                #[trigger] run(s, events.take(k)),
                events[k],
                a,
            ) && !withdraws(run(s, events.take(k)), events[k], a),
    ensures
        in_line(run(s, events), a),
        run(s, events).has(b),
        run(s, events).tasks[a].priority == s.tasks[a].priority,
        run(s, events).tasks[b].priority == s.tasks[b].priority,
        !run(s, events).tasks[b].running,
    decreases events.len(),
{
    if events.len() > 0 {
        let front = events.drop_last();
        let n = front.len() as int;
        assert forall|k: int| 0 <= k < front.len() implies !completes(
            #[trigger] run(s, front.take(k)),
            front[k],
            a,
        ) && !withdraws(run(s, front.take(k)), front[k], a) by {
            assert(front.take(k) =~= events.take(k));
        }
        law_priority_order_always(s, a, b, front);
        let mid = run(s, front);
        assert(events.take(n) =~= front);
        assert(!completes(run(s, events.take(n)), events[n], a));
        law_priority_order(mid, a, b, events.last());
        law_stays_in_line(mid, a, events.last());
        lemma_step_keeps_priorities(mid, events.last(), a);
        lemma_step_keeps_priorities(mid, events.last(), b);
    }
}

/// No event changes the number of tasks or the priority of a task.
pub proof fn lemma_step_keeps_priorities(s: SchedulerModel, event: Event, t: int)
    requires
        s.has(t),
    ensures
        s.step(event).has(t),
        s.step(event).tasks.len() == s.tasks.len(),
        s.step(event).tasks[t].priority == s.tasks[t].priority,
        s.step(event).tasks[t].source == s.tasks[t].source,
{
    match event {
        Event::Clock(_) => {},
        Event::Schedule(_, _) => {},
        Event::Interrupt(source) => {
            match s.bound(source) {
                Some(b) => {
                    lemma_bound_task(s.tasks, source, s.len());
                    lemma_first_ready(s.arrive(b).tasks, s.len());
                },
                None => {},
            }
        },
        Event::Tick => {
            lemma_first_ready(s.expire().tasks, s.len());
        },
        Event::Complete => {
            lemma_top_running(s.tasks, s.len());
            lemma_first_ready(s.finish().tasks, s.len());
        },
        Event::Lock(_) => {},
        Event::Unlock(prior) => {
            lemma_first_ready(s.tasks, s.len());
        },
    }
}

/// The dispatch step begins no task whose priority is not above the ceiling.
proof fn lemma_dispatch_ceiling(s: SchedulerModel, b: int)
    requires
        s.has(b),
        !s.tasks[b].running,
        s.ceiling matches Some(c) && s.tasks[b].priority <= c,
    ensures
        !s.dispatch().tasks[b].running,
        s.dispatch().ceiling == s.ceiling,
{
    lemma_level(s);
    lemma_first_ready(s.tasks, s.len());
}

/// Lock exclusivity. While a lock is held, no event but its release begins a
/// task whose priority is not above the ceiling: a task that shares the
/// locked state cannot run until the critical section is left, and so cannot
/// see the state half-updated. The ceiling stays at least as high.
pub proof fn law_lock_excludes(s: SchedulerModel, b: int, event: Event)
    requires
        s.has(b),
        !s.tasks[b].running,
        s.ceiling matches Some(c) && s.tasks[b].priority <= c,
        !(event is Unlock),
    ensures
        !s.step(event).tasks[b].running,
        s.step(event).ceiling matches Some(c) && c >= s.ceiling->0,
{
    match event {
        Event::Clock(_) => {},
        Event::Schedule(_, _) => {},
        Event::Interrupt(source) => {
            match s.bound(source) {
                Some(t) => {
                    lemma_bound_task(s.tasks, source, s.len());
                    lemma_dispatch_ceiling(s.arrive(t), b);
                },
                None => {},
            }
        },
        Event::Tick => {
            lemma_dispatch_ceiling(s.expire(), b);
        },
        Event::Complete => {
            lemma_top_running(s.tasks, s.len());
            lemma_dispatch_ceiling(s.finish(), b);
        },
        Event::Lock(_) => {},
        Event::Unlock(_) => {},
    }
}

/// Lock exclusivity for the tasks that share a piece of state. While a lock
/// is held whose ceiling is at least the greatest priority of the sharers, no
/// event but its release begins a sharer: the task in the critical section is
/// the only one of them that runs on.
pub proof fn law_sharers_excluded(s: SchedulerModel, users: Seq<usize>, k: int, event: Event)
    requires
        0 <= k < users.len(),
        s.has(users[k] as int),
        !s.tasks[users[k] as int].running,
        s.ceiling matches Some(c) && c >= users_ceiling(s.tasks, users, users.len() as int),
        !(event is Unlock),
    ensures
        !s.step(event).tasks[users[k] as int].running,
{
    lemma_users_ceiling(s.tasks, users, users.len() as int);
    law_lock_excludes(s, users[k] as int, event);
}

/// A dormant task stays dormant under every event that does not request it:
/// nothing but a request makes a task run.
pub proof fn law_dormant_stays(s: SchedulerModel, t: int, event: Event)
    requires
        s.has(t),
        s.tasks[t].spec_state() == TaskState::Dormant,
        !(event matches Event::Schedule(task, _) && task == t),
        !(event matches Event::Interrupt(source) && s.bound(source) == Some(t)),
    ensures
        s.step(event).tasks[t] == s.tasks[t],
{
    match event {
        Event::Clock(_) => {},
        Event::Schedule(_, _) => {},
        Event::Interrupt(source) => {
            match s.bound(source) {
                Some(b) => {
                    lemma_bound_task(s.tasks, source, s.len());
                    lemma_first_ready(s.arrive(b).tasks, s.len());
                },
                None => {},
            }
        },
        Event::Tick => {
            lemma_first_ready(s.expire().tasks, s.len());
        },
        Event::Complete => {
            lemma_top_running(s.tasks, s.len());
            lemma_first_ready(s.finish().tasks, s.len());
        },
        Event::Lock(_) => {},
        Event::Unlock(_) => {
            lemma_first_ready(s.tasks, s.len());
        },
    }
}

/// A run consumes its request: a task that an event begins has no request
/// left, so that one request gives one run.
pub proof fn law_run_consumes_request(s: SchedulerModel, t: int, event: Event)
    requires
        s.has(t),
        !s.tasks[t].running,
        s.step(event).tasks[t].running,
    ensures
        s.step(event).tasks[t].activation is Absent,
        s.tasks[t].activation is Arrived || event is Tick || event is Interrupt,
{
    match event {
        Event::Clock(_) => {},
        Event::Schedule(_, _) => {},
        Event::Interrupt(source) => {
            match s.bound(source) {
                Some(b) => {
                    lemma_bound_task(s.tasks, source, s.len());
                    lemma_first_ready(s.arrive(b).tasks, s.len());
                },
                None => {},
            }
        },
        Event::Tick => {
            lemma_first_ready(s.expire().tasks, s.len());
        },
        Event::Complete => {
            lemma_top_running(s.tasks, s.len());
            lemma_first_ready(s.finish().tasks, s.len());
        },
        Event::Lock(_) => {},
        Event::Unlock(_) => {
            lemma_first_ready(s.tasks, s.len());
        },
    }
}

/// Task `t` is the only one that is not dormant, and no lock is held.
pub open spec fn lone(s: SchedulerModel, t: int) -> bool {
    &&& s.has(t)
    &&& s.ceiling is None
    &&& forall|i: int|
        0 <= i < s.tasks.len() && i != t ==> !(#[trigger] s.tasks[i]).running
            && s.tasks[i].activation is Absent
}

/// Where no task is armed, the timer queue is empty.
proof fn lemma_none_armed(tasks: Seq<Task>, n: int)
    requires
        0 <= n <= tasks.len(),
        forall|i: int| 0 <= i < n ==> !(#[trigger] tasks[i]).armed(),
    ensures
        armed_count(tasks, n) == 0,
    decreases n,
{
    if n > 0 {
        lemma_none_armed(tasks, n - 1);
    }
}

/// A task that is alone and armed begins at the tick at its due-time, and not
/// at a tick before it.
pub proof fn law_activation_time(s: SchedulerModel, t: int, due: u64, reading: u64)
    requires
        lone(s, t),
        !s.tasks[t].running,
        s.tasks[t].activation == Activation::Armed(due),
    ensures
        s.advance(reading).now < due ==> s.advance(reading).tick().tasks[t] == s.tasks[t],
        s.advance(reading).now >= due ==> s.advance(reading).tick().tasks[t] == s.tasks[t].begun(),
        lone(s.advance(reading).tick(), t),
        s.advance(reading).tick().now == s.advance(reading).now,
        s.advance(reading).tick().capacity == s.capacity,
        s.advance(reading).tick().tasks.len() == s.tasks.len(),
{
    let a = s.advance(reading);
    let e = a.expire();
    let n = s.len();
    lemma_running_level(e.tasks, n);
    lemma_first_ready(e.tasks, n);
    if a.now >= due {
        assert(e.tasks[t].ready());
        assert(is_first_ready(e.tasks, n, Some(t)));
        lemma_first_ready_is(e.tasks, n, Some(t));
        assert(e.level() == -1);
    } else {
        assert(e.tasks[t] == s.tasks[t]);
        assert(is_first_ready(e.tasks, n, None));
        lemma_first_ready_is(e.tasks, n, None);
    }
}

/// Rescheduling a dormant task. A task that is alone and dormant, and is
/// asked to run after `delay`, is armed for `now + delay`. No tick at a
/// reading before that time begins it; the tick at that time, or the first
/// one after it, does. When that run has completed the task is dormant again, and no later
/// tick begins it: the request gives one run.
pub proof fn law_one_activation(
    s: SchedulerModel,
    t: usize,
    delay: u64,
    early: u64,
    late: u64,
    later: u64,
)
    requires
        lone(s, t as int),
        s.tasks[t as int].spec_state() == TaskState::Dormant,
        s.schedule_verdict(t, delay) is Ok,
        s.now <= early < s.now + delay <= late,
    ensures
        s.schedule_after(t, delay).tasks[t as int].activation == Activation::Armed(
            (s.now + delay) as u64,
        ),
        !s.schedule_after(t, delay).advance(early).tick().tasks[t as int].running,
        s.schedule_after(t, delay).advance(late).tick().tasks[t as int].running,
        s.schedule_after(t, delay).advance(late).tick().complete().tasks[t as int].spec_state()
            == TaskState::Dormant,
        s.schedule_after(t, delay).advance(late).tick().complete().advance(
            later,
        ).tick().tasks[t as int].spec_state() == TaskState::Dormant,
{
    let due = (s.now + delay) as u64;
    let a = s.schedule_after(t, delay);
    assert(lone(a, t as int));
    law_activation_time(a, t as int, due, early);
    law_activation_time(a, t as int, due, late);
    let b = a.advance(late).tick();
    let n = s.len();
    lemma_top_running(b.tasks, n);
    assert(b.tasks[t as int].running);
    if b.current() is Some && b.current()->0 != t {
        assert(b.tasks[b.current()->0].running);
    }
    assert(b.current() == Some(t as int));
    let f = b.finish();
    lemma_first_ready(f.tasks, n);
    assert(is_first_ready(f.tasks, n, None));
    lemma_first_ready_is(f.tasks, n, None);
    let c = b.complete();
    assert(c == f);
    law_dormant_stays(c, t as int, Event::Clock(later));
    law_dormant_stays(c.advance(later), t as int, Event::Tick);
}

/// One period of a task that schedules itself again: the clock reaches the
/// due-time, the tick begins the task, the task requests its next run after
/// `delay`, and returns.
pub open spec fn period(s: SchedulerModel, t: usize, delay: u64) -> SchedulerModel {
    match s.tasks[t as int].activation {
        Activation::Armed(due) => s.advance(due).tick().schedule_after(t, delay).complete(),
        _ => s,
    }
}

/// The state after `n` periods.
pub open spec fn periods(s: SchedulerModel, t: usize, delay: u64, n: nat) -> SchedulerModel
    decreases n,
{
    if n == 0 {
        s
    } else {
        period(periods(s, t, delay, (n - 1) as nat), t, delay)
    }
}

/// One period of a task that is alone takes it from armed at `due` to armed at
/// `due + delay`: the run begins at `due`, and the next one is due `delay`
/// later.
pub proof fn law_period(s: SchedulerModel, t: usize, delay: u64, due: u64)
    requires
        lone(s, t as int),
        !s.tasks[t as int].running,
        s.tasks[t as int].activation == Activation::Armed(due),
        s.now <= due,
        s.capacity >= 1,
        due + delay <= u64::MAX,
    ensures
        s.advance(due).tick().tasks[t as int] == s.tasks[t as int].begun(),
        lone(period(s, t, delay), t as int),
        !period(s, t, delay).tasks[t as int].running,
        period(s, t, delay).tasks[t as int].activation == Activation::Armed((due + delay) as u64),
        period(s, t, delay).now == due,
        period(s, t, delay).capacity == s.capacity,
{
    let n = s.len();
    law_activation_time(s, t as int, due, due);
    let s2 = s.advance(due).tick();
    assert(s2.tasks[t as int].running && s2.tasks[t as int].activation is Absent);
    lemma_none_armed(s2.tasks, n);
    let s3 = s2.schedule_after(t, delay);
    assert(s2.schedule_verdict(t, delay) == Ok::<u64, ScheduleError>((due + delay) as u64));
    lemma_top_running(s3.tasks, n);
    assert(s3.tasks[t as int].running);
    if s3.current() is Some && s3.current()->0 != t {
        assert(s2.tasks[s3.current()->0].running);
    }
    assert(s3.current() == Some(t as int));
    let f = s3.finish();
    lemma_first_ready(f.tasks, n);
    assert(is_first_ready(f.tasks, n, None));
    lemma_first_ready_is(f.tasks, n, None);
}

/// Periodic rescheduling. A task that is alone, armed at `due`, and schedules
/// itself again with the same delay in each of its runs, begins its runs at
/// `due`, `due + delay`, `due + 2 * delay` and so on, for as long as the
/// due-times stay in the clock's range: after `n` periods it is armed at
/// `due + n * delay`, and its latest run began one delay before that.
pub proof fn law_periodic(s: SchedulerModel, t: usize, delay: u64, due: u64, n: nat)
    requires
        lone(s, t as int),
        !s.tasks[t as int].running,
        s.tasks[t as int].activation == Activation::Armed(due),
        s.now <= due,
        s.capacity >= 1,
        due + n * delay <= u64::MAX,
    ensures
        lone(periods(s, t, delay, n), t as int),
        !periods(s, t, delay, n).tasks[t as int].running,
        periods(s, t, delay, n).tasks[t as int].activation == Activation::Armed(
            (due + n * delay) as u64,
        ),
        periods(s, t, delay, n).capacity == s.capacity,
        n > 0 ==> periods(s, t, delay, n).now == due + (n - 1) * delay,
        n == 0 ==> periods(s, t, delay, n).now == s.now,
    decreases n,
{
    if n > 0 {
        let m = (n - 1) as nat;
        assert(n * delay == m * delay + delay) by (nonlinear_arith)
            requires
                m == n - 1,
        ;
        assert(m * delay >= 0) by (nonlinear_arith);
        if m > 0 {
            let k = (m - 1) as nat;
            assert(m * delay == k * delay + delay) by (nonlinear_arith)
                requires
                    k == m - 1,
            ;
            assert(k * delay >= 0) by (nonlinear_arith);
        }
        law_periodic(s, t, delay, due, m);
        let p = periods(s, t, delay, m);
        law_period(p, t, delay, (due + m * delay) as u64);
    } else {
        assert(n * delay == 0) by (nonlinear_arith)
            requires
                n == 0,
        ;
    }
}

} // verus!
