//! The dispatcher as a mathematical state machine: the task table, the clock
//! and the priority ceiling, and what each event makes of them.

use vstd::prelude::*;
use crate::task::{Activation, Task, TaskConfig};

verus! {

/// Why a request to schedule a task was turned down.
#[derive(Clone, Copy, Debug, PartialEq, Eq, Structural)]
pub enum ScheduleError {
    /// The task identifier names no task of the table.
    UnknownTask,
    /// The due-time lies beyond the range of the clock.
    ClockRange,
    /// The timer queue holds as many armed tasks as it has room for.
    QueueFull,
}

/// The greatest priority among the running tasks of the first `n` entries,
/// and -1 where none of them runs.
pub open spec fn running_level(tasks: Seq<Task>, n: int) -> int
    decreases n,
{
    if n <= 0 {
        -1
    } else {
        let rest = running_level(tasks, n - 1);
        let t = tasks[n - 1];
        if t.running && t.priority > rest {
            t.priority as int
        } else {
            rest
        }
    }
}

/// The order in which ready tasks are served: the higher priority first; at
/// equal priority the earlier arrival; at equal arrival the lower index.
pub open spec fn goes_before(tasks: Seq<Task>, i: int, j: int) -> bool {
    let a = tasks[i];
    let b = tasks[j];
    a.priority > b.priority || (a.priority == b.priority && (a.arrival() < b.arrival() || (
    a.arrival() == b.arrival() && i < j)))
}

/// The ready task among the first `n` entries that is served first.
pub open spec fn first_ready(tasks: Seq<Task>, n: int) -> Option<int>
    decreases n,
{
    if n <= 0 {
        None
    } else {
        let prev = first_ready(tasks, n - 1);
        if !tasks[n - 1].ready() {
            prev
        } else {
            match prev {
                None => Some(n - 1),
                Some(p) => if goes_before(tasks, n - 1, p) {
                    Some(n - 1)
                } else {
                    Some(p)
                },
            }
        }
    }
}

/// The running task of the greatest priority among the first `n` entries (at
/// equal priority the one of the lower index): the one that has the processor.
pub open spec fn top_running(tasks: Seq<Task>, n: int) -> Option<int>
    decreases n,
{
    if n <= 0 {
        None
    } else {
        let prev = top_running(tasks, n - 1);
        if !tasks[n - 1].running {
            prev
        } else {
            match prev {
                None => Some(n - 1),
                Some(p) => if tasks[n - 1].priority > tasks[p].priority {
                    Some(n - 1)
                } else {
                    Some(p)
                },
            }
        }
    }
}

/// How many of the first `n` entries wait in the timer queue.
pub open spec fn armed_count(tasks: Seq<Task>, n: int) -> nat
    decreases n,
{
    if n <= 0 {
        0
    } else {
        armed_count(tasks, n - 1) + if tasks[n - 1].armed() {
            1nat
        } else {
            0nat
        }
    }
}

/// The earliest due-time among the armed tasks of the first `n` entries.
pub open spec fn earliest_due(tasks: Seq<Task>, n: int) -> Option<u64>
    decreases n,
{
    if n <= 0 {
        None
    } else {
        let prev = earliest_due(tasks, n - 1);
        match tasks[n - 1].activation {
            Activation::Armed(d) => match prev {
                None => Some(d),
                Some(e) => if d < e {
                    Some(d)
                } else {
                    Some(e)
                },
            },
            _ => prev,
        }
    }
}

/// The task of the lowest index among the first `n` entries that is bound to
/// the interrupt source.
pub open spec fn bound_task(tasks: Seq<Task>, source: u8, n: int) -> Option<int>
    decreases n,
{
    if n <= 0 {
        None
    } else {
        match bound_task(tasks, source, n - 1) {
            Some(t) => Some(t),
            None => if tasks[n - 1].source == Some(source) {
                Some(n - 1)
            } else {
                None
            },
        }
    }
}

/// `l` is the greatest priority among the running tasks of the first `n`
/// entries, or -1 where none of them runs.
pub open spec fn is_running_level(tasks: Seq<Task>, n: int, l: int) -> bool {
    &&& forall|i: int| 0 <= i < n && (#[trigger] tasks[i]).running ==> tasks[i].priority <= l
    &&& l == -1 || exists|i: int| 0 <= i < n && (#[trigger] tasks[i]).running && tasks[i].priority == l
}

/// `r` is the ready task among the first `n` entries that goes before every
/// other ready one, or nothing where none of them is ready.
pub open spec fn is_first_ready(tasks: Seq<Task>, n: int, r: Option<int>) -> bool {
    match r {
        Some(f) => {
            &&& 0 <= f < n
            &&& tasks[f].ready()
            &&& forall|i: int|
                0 <= i < n && i != f && (#[trigger] tasks[i]).ready() ==> goes_before(tasks, f, i)
        },
        None => forall|i: int| 0 <= i < n ==> !(#[trigger] tasks[i]).ready(),
    }
}

/// `c` is the running task of the greatest priority among the first `n`
/// entries, and of the lowest index among those, or nothing where none runs.
pub open spec fn is_top_running(tasks: Seq<Task>, n: int, c: Option<int>) -> bool {
    match c {
        Some(t) => {
            &&& 0 <= t < n
            &&& tasks[t].running
            &&& forall|i: int|
                0 <= i < n && (#[trigger] tasks[i]).running ==> tasks[i].priority
                    < tasks[t].priority || (tasks[i].priority == tasks[t].priority && t <= i)
        },
        None => forall|i: int| 0 <= i < n ==> !(#[trigger] tasks[i]).running,
    }
}

/// `e` is the least due-time among the armed tasks of the first `n` entries,
/// or nothing where none of them is armed.
pub open spec fn is_earliest_due(tasks: Seq<Task>, n: int, e: Option<u64>) -> bool {
    match e {
        Some(d) => {
            &&& exists|i: int| 0 <= i < n && (#[trigger] tasks[i]).armed() && tasks[i].arrival() == d
            &&& forall|i: int| 0 <= i < n && (#[trigger] tasks[i]).armed() ==> d <= tasks[i].arrival()
        },
        None => forall|i: int| 0 <= i < n ==> !(#[trigger] tasks[i]).armed(),
    }
}

/// `b` is the task of the lowest index among the first `n` entries that is
/// bound to `source`, or nothing where none of them is.
pub open spec fn is_bound_task(tasks: Seq<Task>, source: u8, n: int, b: Option<int>) -> bool {
    match b {
        Some(t) => {
            &&& 0 <= t < n
            &&& tasks[t].source == Some(source)
            &&& forall|i: int| 0 <= i < t ==> (#[trigger] tasks[i]).source != Some(source)
        },
        None => forall|i: int| 0 <= i < n ==> (#[trigger] tasks[i]).source != Some(source),
    }
}

/// The greatest priority among those of the first `n` listed tasks that the
/// table holds, and 0 where it holds none of them.
pub open spec fn users_ceiling(tasks: Seq<Task>, users: Seq<usize>, n: int) -> u8
    decreases n,
{
    if n <= 0 {
        0
    } else {
        let rest = users_ceiling(tasks, users, n - 1);
        let u = users[n - 1] as int;
        if 0 <= u < tasks.len() && tasks[u].priority > rest {
            tasks[u].priority
        } else {
            rest
        }
    }
}

/// `c` is the greatest priority among those of the first `n` listed tasks
/// that the table holds, or 0 where it holds none of them.
pub open spec fn is_users_ceiling(tasks: Seq<Task>, users: Seq<usize>, n: int, c: u8) -> bool {
    &&& forall|k: int|
        0 <= k < n && 0 <= (#[trigger] users[k]) < tasks.len() ==> tasks[users[k] as int].priority
            <= c
    &&& c == 0 || exists|k: int|
        0 <= k < n && 0 <= (#[trigger] users[k]) < tasks.len() && tasks[users[k] as int].priority
            == c
}

/// The task as a tick at time `now` leaves it: an armed task whose due-time
/// has come is ready, and has arrived at its due-time.
pub open spec fn expired(t: Task, now: u64) -> Task {
    match t.activation {
        Activation::Armed(d) => if d <= now {
            t.requested(Activation::Arrived(d))
        } else {
            t
        },
        _ => t,
    }
}

/// The task as an activation at time `now` leaves it: ready. A task that was
/// ready before keeps its earlier arrival.
pub open spec fn arrived(t: Task, now: u64) -> Task {
    match t.activation {
        Activation::Arrived(_) => t,
        _ => t.requested(Activation::Arrived(now)),
    }
}

/// The state of the dispatcher.
pub struct SchedulerModel {
    /// The static task table; a task's identifier is its index.
    pub tasks: Seq<Task>,
    /// The latest reading of the monotonic clock.
    pub now: u64,
    /// How many tasks the timer queue can hold.
    pub capacity: usize,
    /// The priority ceiling that the held locks impose, if any is held.
    pub ceiling: Option<u8>,
}

impl SchedulerModel {
    /// The number of tasks.
    pub open spec fn len(self) -> int {
        self.tasks.len() as int
    }

    /// Whether `task` names a task of the table.
    pub open spec fn has(self, task: int) -> bool {
        0 <= task < self.tasks.len()
    }

    /// The priority at which the processor works: the greatest of the running
    /// tasks' priorities and the ceiling, and -1 where it is free.
    pub open spec fn level(self) -> int {
        let r = running_level(self.tasks, self.len());
        match self.ceiling {
            Some(c) => if c > r {
                c as int
            } else {
                r
            },
            None => r,
        }
    }

    /// The ready task that is served first, if any task is ready.
    pub open spec fn candidate(self) -> Option<int> {
        first_ready(self.tasks, self.len())
    }

    /// The task that has the processor, if any task runs.
    pub open spec fn current(self) -> Option<int> {
        top_running(self.tasks, self.len())
    }

    /// The task that the dispatcher begins in this state: the ready task that
    /// is served first, where its priority is above the level.
    pub open spec fn started(self) -> Option<int> {
        match self.candidate() {
            Some(i) => if self.tasks[i].priority > self.level() {
                Some(i)
            } else {
                None
            },
            None => None,
        }
    }

    /// The state with another task table.
    pub open spec fn with_tasks(self, tasks: Seq<Task>) -> Self {
        SchedulerModel { tasks: tasks, ..self }
    }

    /// The dispatch step: the task to start, if there is one, begins.
    pub open spec fn dispatch(self) -> Self {
        match self.started() {
            Some(i) => self.with_tasks(self.tasks.update(i, self.tasks[i].begun())),
            None => self,
        }
    }

    /// A reading of the clock: taken where it is not in the past.
    pub open spec fn advance(self, reading: u64) -> Self {
        if reading >= self.now {
            SchedulerModel { now: reading, ..self }
        } else {
            self
        }
    }

    /// The number of tasks that wait in the timer queue.
    pub open spec fn armed(self) -> nat {
        armed_count(self.tasks, self.len())
    }

    /// The answer to a request to run `task` after `delay`: the due-time, or
    /// the reason why the request is turned down.
    pub open spec fn schedule_verdict(self, task: usize, delay: u64) -> Result<u64, ScheduleError> {
        if !self.has(task as int) {
            Err(ScheduleError::UnknownTask)
        } else if self.now + delay > u64::MAX {
            Err(ScheduleError::ClockRange)
        } else if !self.tasks[task as int].armed() && self.armed() >= self.capacity {
            Err(ScheduleError::QueueFull)
        } else {
            Ok((self.now + delay) as u64)
        }
    }

    /// The state after a request to run `task` after `delay`: where the request
    /// is granted the task is armed for its due-time, which replaces any
    /// request that it had; else nothing changes.
    pub open spec fn schedule_after(self, task: usize, delay: u64) -> Self {
        match self.schedule_verdict(task, delay) {
            Ok(due) => self.with_tasks(
                self.tasks.update(
                    task as int,
                    self.tasks[task as int].requested(Activation::Armed(due)),
                ),
            ),
            Err(_) => self,
        }
    }

    /// The state once every armed task whose due-time has come is ready.
    pub open spec fn expire(self) -> Self {
        self.with_tasks(Seq::new(self.tasks.len(), |i: int| expired(self.tasks[i], self.now)))
    }

    /// The state after a tick of the timer.
    pub open spec fn tick(self) -> Self {
        self.expire().dispatch()
    }

    /// The task that is bound to the interrupt source.
    pub open spec fn bound(self, source: u8) -> Option<int> {
        bound_task(self.tasks, source, self.len())
    }

    /// The state in which task `t` is ready, before the dispatch step.
    pub open spec fn arrive(self, t: int) -> Self {
        self.with_tasks(self.tasks.update(t, arrived(self.tasks[t], self.now)))
    }

    /// The state after an interrupt from `source`: the bound task is ready,
    /// and the dispatch step is taken. An unbound source changes nothing.
    pub open spec fn interrupt(self, source: u8) -> Self {
        match self.bound(source) {
            Some(t) => self.arrive(t).dispatch(),
            None => self,
        }
    }

    /// The state once the task that has the processor has returned.
    pub open spec fn finish(self) -> Self {
        match self.current() {
            Some(c) => self.with_tasks(self.tasks.update(c, self.tasks[c].ended())),
            None => self,
        }
    }

    /// The state after the completion of the task that has the processor: it
    /// no longer runs, and the dispatch step is taken.
    pub open spec fn complete(self) -> Self {
        self.finish().dispatch()
    }

    /// The state once a lock with the given ceiling is taken.
    pub open spec fn lock(self, ceiling: u8) -> Self {
        let raised = match self.ceiling {
            Some(c) => if c > ceiling {
                c
            } else {
                ceiling
            },
            None => ceiling,
        };
        SchedulerModel { ceiling: Some(raised), ..self }
    }

    /// The state once a lock is released: the ceiling is what it was before the
    /// lock was taken, and the dispatch step is taken.
    pub open spec fn unlock(self, prior: Option<u8>) -> Self {
        SchedulerModel { ceiling: prior, ..self }.dispatch()
    }

    /// The earliest due-time in the timer queue: the time of the next tick.
    pub open spec fn next_alarm(self) -> Option<u64> {
        earliest_due(self.tasks, self.len())
    }

    /// No task is pending or running: there is no work.
    pub open spec fn idle(self) -> bool {
        forall|i: int| 0 <= i < self.tasks.len() ==> !(#[trigger] self.tasks[i]).running
            && self.tasks[i].activation is Absent
    }

    /// No two running tasks have the same priority: a task is only ever
    /// preempted by a more urgent one.
    pub open spec fn distinct_running(self) -> bool {
        forall|i: int, j: int|
            0 <= i < j < self.tasks.len() && (#[trigger] self.tasks[i]).running && (
            #[trigger] self.tasks[j]).running ==> self.tasks[i].priority != self.tasks[j].priority
    }

    /// No ready task is more urgent than the level at which the processor
    /// works: the dispatcher leaves no task waiting that it could begin.
    pub open spec fn served(self) -> bool {
        forall|i: int|
            0 <= i < self.tasks.len() && (#[trigger] self.tasks[i]).ready()
                ==> self.tasks[i].priority <= self.level()
    }

    /// Validity of a state.
    pub open spec fn wf(self) -> bool {
        self.distinct_running() && self.served()
    }

    /// The state at start: every task dormant, the clock at zero, no lock
    /// held.
    pub open spec fn initial(configs: Seq<TaskConfig>, capacity: usize) -> Self {
        SchedulerModel {
            tasks: Seq::new(configs.len(), |i: int| Task::dormant(configs[i])),
            now: 0,
            capacity: capacity,
            ceiling: None,
        }
    }

    /// The state after an event.
    pub open spec fn step(self, event: Event) -> Self {
        match event {
            Event::Clock(reading) => self.advance(reading),
            Event::Schedule(task, delay) => self.schedule_after(task, delay),
            Event::Interrupt(source) => self.interrupt(source),
            Event::Tick => self.tick(),
            Event::Complete => self.complete(),
            Event::Lock(ceiling) => self.lock(ceiling),
            Event::Unlock(prior) => self.unlock(prior),
        }
    }
}

/// What can happen to the dispatcher: one variant for each of its operations.
pub enum Event {
    /// A reading of the monotonic clock.
    Clock(u64),
    /// A request to run a task after a delay.
    Schedule(usize, u64),
    /// An interrupt from a source.
    Interrupt(u8),
    /// The timer has reached the earliest due-time.
    Tick,
    /// The task that has the processor has returned.
    Complete,
    /// A lock with this ceiling is taken.
    Lock(u8),
    /// A lock is released; the ceiling goes back to this one.
    Unlock(Option<u8>),
}

} // verus!
