//! The dispatcher: maps interrupts and timer expirations onto task
//! activations and decides, by priority, which task has the processor.
//!
//! The dispatcher decides and records; it does not run task bodies. The caller
//! reports each event (a clock reading, an interrupt, a tick, the return of a
//! task) and acts on the answer.

use vstd::prelude::*;
use crate::clock::MonotonicClock;
use crate::lemmas::{
    lemma_advance, lemma_bound_task, lemma_complete, lemma_earliest_due, lemma_first_ready,
    lemma_interrupt, lemma_lock, lemma_running_level, lemma_schedule, lemma_tick,
    lemma_top_running, lemma_unlock, lemma_users_ceiling,
};
use crate::model::{
    ScheduleError, SchedulerModel, armed_count, bound_task, earliest_due, expired, first_ready,
    is_bound_task, is_earliest_due, is_first_ready, is_top_running, is_users_ceiling,
    running_level, top_running, users_ceiling,
};
use crate::task::{Activation, Task, TaskConfig, TaskState};

verus! {

/// A task identifier as a mathematical index.
pub open spec fn as_index(task: Option<usize>) -> Option<int> {
    match task {
        Some(t) => Some(t as int),
        None => None,
    }
}

/// What the dispatcher made of an interrupt.
#[derive(Clone, Copy, Debug, PartialEq, Eq, Structural)]
pub enum Dispatch {
    /// No task is bound to the source: nothing happened.
    Unbound,
    /// The bound task is pending: the processor works at a level that it does
    /// not exceed.
    Deferred(usize),
    /// The bound task has begun, ahead of whatever ran before.
    Started(usize),
}

/// What the dispatcher made of a tick.
#[derive(Clone, Copy, Debug)]
pub struct Tick {
    /// The task that has begun, if one did.
    pub started: Option<usize>,
    /// The due-time for which the timer is to be armed next, if any task is
    /// still armed.
    pub next_alarm: Option<u64>,
}

/// What the dispatcher made of the return of a task.
#[derive(Clone, Copy, Debug)]
pub struct Completion {
    /// The task that has completed, if one ran.
    pub finished: Option<usize>,
    /// The task that has begun in its place, if one did.
    pub started: Option<usize>,
}

/// The token of a critical section: it holds the ceiling that the section
/// works under and the one to go back to, and releasing the lock consumes
/// it.
pub struct CriticalSection {
    prior: Option<u8>,
    ceiling: u8,
}

impl CriticalSection {
    /// The ceiling that was in force before the lock was taken.
    pub closed spec fn prior(&self) -> Option<u8> {
        self.prior
    }

    /// The ceiling that the section works under.
    pub closed spec fn ceiling(&self) -> u8 {
        self.ceiling
    }

    /// The ceiling that the section works under.
    pub fn level(&self) -> (c: u8)
        ensures
            c == self.ceiling(),
    {
        self.ceiling
    }
}

/// The answer that an interrupt from `source` gets in state `s`.
pub open spec fn interrupt_outcome(s: SchedulerModel, source: u8) -> Dispatch {
    match s.bound(source) {
        Some(t) => if s.tasks[t].priority > s.level() {
            Dispatch::Started(t as usize)
        } else {
            Dispatch::Deferred(t as usize)
        },
        None => Dispatch::Unbound,
    }
}

/// The priority dispatcher over a static task table.
pub struct Scheduler {
    tasks: Vec<Task>,
    clock: MonotonicClock,
    capacity: usize,
    ceiling: Option<u8>,
}

impl Scheduler {
    /// The state of the dispatcher.
    pub closed spec fn view(&self) -> SchedulerModel {
        SchedulerModel {
            tasks: self.tasks@,
            now: self.clock@,
            capacity: self.capacity,
            ceiling: self.ceiling,
        }
    }

    /// Validity of the dispatcher's state.
    pub open spec fn wf(&self) -> bool {
        self@.wf()
    }

    /// A dispatcher over the given tasks, all dormant, with a timer queue that
    /// holds up to `capacity` armed tasks. A task's identifier is its place in
    /// `configs`.
    pub fn new(configs: Vec<TaskConfig>, capacity: usize) -> (s: Self)
        ensures
            s@ == SchedulerModel::initial(configs@, capacity),
            s.wf(),
    {
        let mut tasks: Vec<Task> = Vec::new();
        let n: usize = configs.len();
        let mut i: usize = 0;
        while i < n
            invariant
                n == configs.len(),
                i <= n,
                tasks.len() == i,
                forall|k: int| 0 <= k < i ==> tasks[k] == Task::dormant(configs[k]),
            decreases n - i,
        {
            let c: TaskConfig = configs[i];
            tasks.push(
                Task {
                    priority: c.priority,
                    source: c.source,
                    running: false,
                    activation: Activation::Absent,
                },
            );
            i = i + 1;
        }
        let s = Scheduler { tasks, clock: MonotonicClock::new(), capacity, ceiling: None };
        proof {
            assert(s@.tasks =~= SchedulerModel::initial(configs@, capacity).tasks);
            lemma_running_level(s@.tasks, s@.len());
        }
        s
    }

    /// The number of tasks.
    pub fn len(&self) -> (n: usize)
        ensures
            n == self@.tasks.len(),
    {
        self.tasks.len()
    }

    /// The latest reading of the clock.
    pub fn now(&self) -> (t: u64)
        ensures
            t == self@.now,
    {
        self.clock.now()
    }

    /// How many armed tasks the timer queue can hold.
    pub fn capacity(&self) -> (c: usize)
        ensures
            c == self@.capacity,
    {
        self.capacity
    }

    /// The priority ceiling that the held locks impose, if any is held.
    pub fn ceiling(&self) -> (c: Option<u8>)
        ensures
            c == self@.ceiling,
    {
        self.ceiling
    }

    /// The task with the given identifier, if there is one.
    pub fn task(&self, task: usize) -> (t: Option<Task>)
        ensures
            t == if self@.has(task as int) {
                Some(self@.tasks[task as int])
            } else {
                None
            },
    {
        if task < self.tasks.len() {
            Some(self.tasks[task])
        } else {
            None
        }
    }

    /// The life-cycle state of the task with the given identifier.
    pub fn state(&self, task: usize) -> (s: Option<TaskState>)
        ensures
            s == if self@.has(task as int) {
                Some(self@.tasks[task as int].spec_state())
            } else {
                None
            },
    {
        if task < self.tasks.len() {
            Some(self.tasks[task].state())
        } else {
            None
        }
    }

    /// The priority at which the processor works: the greatest of the
    /// running tasks' priorities and the ceiling, and -1 where no task runs
    /// and no lock is held.
    pub fn level(&self) -> (l: i16)
        ensures
            l == self@.level(),
            -1 <= l <= 255,
            forall|i: int|
                0 <= i < self@.tasks.len() && (#[trigger] self@.tasks[i]).running
                    ==> self@.tasks[i].priority <= l,
            self@.ceiling matches Some(c) ==> c <= l,
            l == -1 || self@.ceiling == Some(l as u8) || exists|i: int|
                0 <= i < self@.tasks.len() && (#[trigger] self@.tasks[i]).running
                    && self@.tasks[i].priority == l,
    {
        proof {
            lemma_running_level(self.tasks@, self.tasks@.len() as int);
        }
        let n: usize = self.tasks.len();
        let mut best: i16 = -1;
        let mut i: usize = 0;
        while i < n
            invariant
                n == self.tasks.len(),
                i <= n,
                best == running_level(self.tasks@, i as int),
                -1 <= best <= 255,
            decreases n - i,
        {
            let t: Task = self.tasks[i];
            if t.running && (t.priority as i16) > best {
                best = t.priority as i16;
            }
            i = i + 1;
        }
        match self.ceiling {
            Some(c) => if (c as i16) > best {
                c as i16
            } else {
                best
            },
            None => best,
        }
    }

    /// The ready task that is served first, if any task is ready.
    pub fn candidate(&self) -> (r: Option<usize>)
        ensures
            as_index(r) == self@.candidate(),
            r matches Some(t) ==> self@.has(t as int),
            is_first_ready(self@.tasks, self@.len(), as_index(r)),
    {
        proof {
            lemma_first_ready(self.tasks@, self.tasks@.len() as int);
        }
        let n: usize = self.tasks.len();
        let mut best: Option<usize> = None;
        let mut i: usize = 0;
        while i < n
            invariant
                n == self.tasks.len(),
                i <= n,
                as_index(best) == first_ready(self.tasks@, i as int),
                best matches Some(b) ==> b < i,
            decreases n - i,
        {
            let t: Task = self.tasks[i];
            let is_ready: bool = !t.running && match t.activation {
                Activation::Arrived(_) => true,
                _ => false,
            };
            if is_ready {
                match best {
                    None => {
                        best = Some(i);
                    },
                    Some(b) => {
                        let p: Task = self.tasks[b];
                        if t.priority > p.priority || (t.priority == p.priority && t.arrived_at()
                            < p.arrived_at()) {
                            best = Some(i);
                        }
                    },
                }
            }
            i = i + 1;
        }
        best
    }

    /// The task that has the processor, if any task runs.
    pub fn current(&self) -> (r: Option<usize>)
        ensures
            as_index(r) == self@.current(),
            r matches Some(t) ==> self@.has(t as int) && self@.tasks[t as int].running,
            is_top_running(self@.tasks, self@.len(), as_index(r)),
    {
        let n: usize = self.tasks.len();
        let mut best: Option<usize> = None;
        let mut i: usize = 0;
        while i < n
            invariant
                n == self.tasks.len(),
                i <= n,
                as_index(best) == top_running(self.tasks@, i as int),
                best matches Some(b) ==> b < i,
            decreases n - i,
        {
            let t: Task = self.tasks[i];
            if t.running {
                match best {
                    None => {
                        best = Some(i);
                    },
                    Some(b) => {
                        if t.priority > self.tasks[b].priority {
                            best = Some(i);
                        }
                    },
                }
            }
            i = i + 1;
        }
        proof {
            lemma_top_running(self.tasks@, n as int);
        }
        best
    }
    /// The number of tasks that wait in the timer queue.
    pub fn armed(&self) -> (c: usize)
        ensures
            c == self@.armed(),
    {
        let n: usize = self.tasks.len();
        let mut count: usize = 0;
        let mut i: usize = 0;
        while i < n
            invariant
                n == self.tasks.len(),
                i <= n,
                count == armed_count(self.tasks@, i as int),
                count <= i,
            decreases n - i,
        {
            match self.tasks[i].activation {
                Activation::Armed(_) => {
                    count = count + 1;
                },
                _ => {},
            }
            i = i + 1;
        }
        count
    }

    /// The earliest due-time in the timer queue: the time for which the timer
    /// is to be armed.
    pub fn next_alarm(&self) -> (r: Option<u64>)
        ensures
            r == self@.next_alarm(),
            is_earliest_due(self@.tasks, self@.len(), r),
    {
        proof {
            lemma_earliest_due(self.tasks@, self.tasks@.len() as int);
        }
        let n: usize = self.tasks.len();
        let mut best: Option<u64> = None;
        let mut i: usize = 0;
        while i < n
            invariant
                n == self.tasks.len(),
                i <= n,
                best == earliest_due(self.tasks@, i as int),
            decreases n - i,
        {
            match self.tasks[i].activation {
                Activation::Armed(d) => {
                    match best {
                        None => {
                            best = Some(d);
                        },
                        Some(e) => {
                            if d < e {
                                best = Some(d);
                            }
                        },
                    }
                },
                _ => {},
            }
            i = i + 1;
        }
        best
    }

    /// Whether there is no work: no task is pending or running.
    pub fn is_idle(&self) -> (idle: bool)
        ensures
            idle == self@.idle(),
    {
        let n: usize = self.tasks.len();
        let mut i: usize = 0;
        while i < n
            invariant
                n == self.tasks.len(),
                i <= n,
                forall|k: int| 0 <= k < i ==> !(#[trigger] self.tasks@[k]).running
                    && self.tasks@[k].activation is Absent,
            decreases n - i,
        {
            let t: Task = self.tasks[i];
            let dormant: bool = !t.running && match t.activation {
                Activation::Absent => true,
                _ => false,
            };
            if !dormant {
                return false;
            }
            i = i + 1;
        }
        true
    }

    /// The task that is bound to the interrupt source, if one is.
    pub fn bound(&self, source: u8) -> (r: Option<usize>)
        ensures
            as_index(r) == self@.bound(source),
            r matches Some(t) ==> self@.has(t as int),
            is_bound_task(self@.tasks, source, self@.len(), as_index(r)),
    {
        proof {
            lemma_bound_task(self.tasks@, source, self.tasks@.len() as int);
        }
        let n: usize = self.tasks.len();
        let mut found: Option<usize> = None;
        let mut i: usize = 0;
        while i < n
            invariant
                n == self.tasks.len(),
                i <= n,
                as_index(found) == bound_task(self.tasks@, source, i as int),
                found matches Some(t) ==> t < i,
            decreases n - i,
        {
            let hit: bool = match self.tasks[i].source {
                Some(s) => s == source,
                None => false,
            };
            if hit && found.is_none() {
                found = Some(i);
            }
            i = i + 1;
        }
        found
    }

    /// The priority ceiling for state that the listed tasks share: the
    /// greatest of their priorities. Identifiers that name no task count for
    /// nothing; where none names a task the ceiling is 0.
    pub fn ceiling_of(&self, users: &Vec<usize>) -> (c: u8)
        ensures
            c == users_ceiling(self@.tasks, users@, users@.len() as int),
            is_users_ceiling(self@.tasks, users@, users@.len() as int, c),
    {
        proof {
            lemma_users_ceiling(self.tasks@, users@, users@.len() as int);
        }
        let n: usize = users.len();
        let mut best: u8 = 0;
        let mut i: usize = 0;
        while i < n
            invariant
                n == users.len(),
                i <= n,
                best == users_ceiling(self.tasks@, users@, i as int),
            decreases n - i,
        {
            let u: usize = users[i];
            if u < self.tasks.len() {
                let p: u8 = self.tasks[u].priority;
                if p > best {
                    best = p;
                }
            }
            i = i + 1;
        }
        best
    }

    /// The dispatch step: begins the ready task that is served first, where
    /// its priority is above the level at which the processor works.
    fn dispatch(&mut self) -> (started: Option<usize>)
        ensures
            final(self)@ == old(self)@.dispatch(),
            as_index(started) == old(self)@.started(),
    {
        let level: i16 = self.level();
        match self.candidate() {
            Some(i) => {
                let t: Task = self.tasks[i];
                if (t.priority as i16) > level {
                    self.tasks.set(
                        i,
                        Task {
                            priority: t.priority,
                            source: t.source,
                            running: true,
                            activation: Activation::Absent,
                        },
                    );
                    Some(i)
                } else {
                    None
                }
            },
            None => None,
        }
    }

    /// Takes a reading of the monotonic clock. A reading that lies in the past
    /// is ignored; the result says whether the reading was taken.
    pub fn advance_clock(&mut self, reading: u64) -> (taken: bool)
        requires
            old(self).wf(),
        ensures
            final(self)@ == old(self)@.advance(reading),
            taken == (reading >= old(self)@.now),
            final(self).wf(),
    {
        proof {
            lemma_advance(self@, reading);
        }
        self.clock.advance_to(reading)
    }

    /// Requests that `task` run after `delay` ticks. Where the request is
    /// granted, the task is armed for the due-time `now + delay`, which
    /// replaces any earlier request for it, and the due-time is returned. The
    /// request is turned down, and nothing changes, where the task is
    /// unknown, the due-time is beyond the clock's range, or the task is not
    /// armed yet and the timer queue is full.
    pub fn schedule_after(&mut self, task: usize, delay: u64) -> (r: Result<u64, ScheduleError>)
        requires
            old(self).wf(),
        ensures
            r == old(self)@.schedule_verdict(task, delay),
            final(self)@ == old(self)@.schedule_after(task, delay),
            final(self).wf(),
    {
        proof {
            lemma_schedule(self@, task, delay);
        }
        if task >= self.tasks.len() {
            return Err(ScheduleError::UnknownTask);
        }
        let now: u64 = self.clock.now();
        if delay > u64::MAX - now {
            return Err(ScheduleError::ClockRange);
        }
        let t: Task = self.tasks[task];
        let is_armed: bool = match t.activation {
            Activation::Armed(_) => true,
            _ => false,
        };
        if !is_armed && self.armed() >= self.capacity {
            return Err(ScheduleError::QueueFull);
        }
        let due: u64 = now + delay;
        self.tasks.set(
            task,
            Task {
                priority: t.priority,
                source: t.source,
                running: t.running,
                activation: Activation::Armed(due),
            },
        );
        Ok(due)
    }

    /// Handles an interrupt from `source`, whose pending flag the caller has
    /// cleared. The bound task becomes ready. It begins at once where its
    /// priority is above the level at which the processor works; else it
    /// waits as pending. A source that no task is bound to changes nothing.
    pub fn dispatch_interrupt(&mut self, source: u8) -> (r: Dispatch)
        requires
            old(self).wf(),
        ensures
            r == interrupt_outcome(old(self)@, source),
            final(self)@ == old(self)@.interrupt(source),
            final(self).wf(),
    {
        proof {
            lemma_interrupt(self@, source);
        }
        match self.bound(source) {
            Some(t) => {
                let task: Task = self.tasks[t];
                let now: u64 = self.clock.now();
                let activation: Activation = match task.activation {
                    Activation::Arrived(a) => Activation::Arrived(a),
                    _ => Activation::Arrived(now),
                };
                self.tasks.set(
                    t,
                    Task {
                        priority: task.priority,
                        source: task.source,
                        running: task.running,
                        activation,
                    },
                );
                assert(self@ == old(self)@.arrive(t as int));
                match self.dispatch() {
                    Some(_) => Dispatch::Started(t),
                    None => Dispatch::Deferred(t),
                }
            },
            None => Dispatch::Unbound,
        }
    }

    /// Handles a tick of the timer: every armed task whose due-time has come
    /// is ready, and the ready task that is served first begins where its
    /// priority is above the level at which the processor works. The answer
    /// names that task and the due-time for which the timer is to be armed
    /// next.
    pub fn tick(&mut self) -> (r: Tick)
        requires
            old(self).wf(),
        ensures
            final(self)@ == old(self)@.tick(),
            as_index(r.started) == old(self)@.expire().started(),
            r.next_alarm == final(self)@.next_alarm(),
            final(self).wf(),
    {
        proof {
            lemma_tick(self@);
        }
        let now: u64 = self.clock.now();
        let n: usize = self.tasks.len();
        let mut i: usize = 0;
        while i < n
            invariant
                n == self.tasks.len(),
                n == old(self).tasks.len(),
                i <= n,
                now == old(self).clock@,
                self.clock == old(self).clock,
                self.capacity == old(self).capacity,
                self.ceiling == old(self).ceiling,
                forall|k: int| 0 <= k < i ==> self.tasks@[k] == expired(old(self).tasks@[k], now),
                forall|k: int| i <= k < n ==> self.tasks@[k] == old(self).tasks@[k],
            decreases n - i,
        {
            let t: Task = self.tasks[i];
            match t.activation {
                Activation::Armed(d) => {
                    if d <= now {
                        self.tasks.set(
                            i,
                            Task {
                                priority: t.priority,
                                source: t.source,
                                running: t.running,
                                activation: Activation::Arrived(d),
                            },
                        );
                    }
                },
                _ => {},
            }
            i = i + 1;
        }
        assert(self@.tasks =~= old(self)@.expire().tasks);
        assert(self@ == old(self)@.expire());
        let started: Option<usize> = self.dispatch();
        let next_alarm: Option<u64> = self.next_alarm();
        Tick { started, next_alarm }
    }

    /// Handles the return of the task that has the processor: it no longer
    /// runs (it is pending where it was requested again while it ran, else
    /// dormant), and the ready task that is served first begins where its
    /// priority is above the level that is left. Where no task runs, only
    /// the dispatch step is taken.
    pub fn complete(&mut self) -> (r: Completion)
        requires
            old(self).wf(),
        ensures
            final(self)@ == old(self)@.complete(),
            as_index(r.finished) == old(self)@.current(),
            as_index(r.started) == old(self)@.finish().started(),
            final(self).wf(),
    {
        proof {
            lemma_complete(self@);
        }
        let finished: Option<usize> = self.current();
        match finished {
            Some(c) => {
                let t: Task = self.tasks[c];
                self.tasks.set(
                    c,
                    Task {
                        priority: t.priority,
                        source: t.source,
                        running: false,
                        activation: t.activation,
                    },
                );
            },
            None => {},
        }
        assert(self@ == old(self)@.finish());
        let started: Option<usize> = self.dispatch();
        Completion { finished, started }
    }

    /// Enters a critical section: raises the priority ceiling to `ceiling`
    /// where it is lower, so that no task of that priority or below begins
    /// until the section is left. The token holds the ceiling to go back to.
    pub fn lock(&mut self, ceiling: u8) -> (token: CriticalSection)
        requires
            old(self).wf(),
        ensures
            final(self)@ == old(self)@.lock(ceiling),
            token.prior() == old(self)@.ceiling,
            Some(token.ceiling()) == final(self)@.ceiling,
            token.ceiling() >= ceiling,
            final(self).wf(),
    {
        proof {
            lemma_lock(self@, ceiling);
        }
        let prior: Option<u8> = self.ceiling;
        let raised: u8 = match prior {
            Some(c) => if c > ceiling {
                c
            } else {
                ceiling
            },
            None => ceiling,
        };
        self.ceiling = Some(raised);
        CriticalSection { prior, ceiling: raised }
    }

    /// Leaves a critical section: the ceiling goes back to what the token
    /// holds, and a task that had to wait for the section to end begins. The
    /// answer names that task.
    pub fn unlock(&mut self, token: CriticalSection) -> (started: Option<usize>)
        requires
            old(self).wf(),
        ensures
            final(self)@ == old(self)@.unlock(token.prior()),
            as_index(started) == (SchedulerModel {
                ceiling: token.prior(),
                ..old(self)@
            }).started(),
            final(self).wf(),
    {
        proof {
            lemma_unlock(self@, token.prior());
        }
        self.ceiling = token.prior;
        self.dispatch()
    }
}

} // verus!
