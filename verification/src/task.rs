//! Tasks: the units of deferred and interrupt-driven work.

use vstd::prelude::*;

verus! {

/// Where a task stands in its life cycle.
#[derive(Clone, Copy, Debug, PartialEq, Eq, Structural)]
pub enum TaskState {
    /// Not requested: the task does nothing until it is scheduled again.
    Dormant,
    /// Requested, but not yet begun: waiting for its due-time or for the
    /// processor.
    Pending,
    /// Begun and not yet completed (it may be preempted by a more urgent task).
    Running,
}

/// The outstanding request to run a task, if there is one.
#[derive(Clone, Copy, Debug, PartialEq, Eq, Structural)]
pub enum Activation {
    /// Nothing is requested.
    Absent,
    /// Armed in the timer queue: the task becomes ready at this due-time.
    Armed(u64),
    /// Ready since this time, waiting for the processor.
    Arrived(u64),
}

/// The fixed description of a task, given once when the dispatcher is built.
#[derive(Clone, Copy, Debug)]
pub struct TaskConfig {
    /// Urgency: a higher number is more urgent.
    pub priority: u8,
    /// The interrupt source that activates the task, if it is bound to one.
    pub source: Option<u8>,
}

/// A task of the static task table.
#[derive(Clone, Copy, Debug)]
pub struct Task {
    /// Urgency: a higher number is more urgent.
    pub priority: u8,
    /// The interrupt source that activates the task, if it is bound to one.
    pub source: Option<u8>,
    /// Whether the task has begun and not yet completed.
    pub running: bool,
    /// The outstanding request for the task's next run.
    pub activation: Activation,
}

impl Task {
    /// A dormant task with the given description.
    pub open spec fn dormant(config: TaskConfig) -> Task {
        Task {
            priority: config.priority,
            source: config.source,
            running: false,
            activation: Activation::Absent,
        }
    }

    /// The life-cycle state that the task is in.
    pub open spec fn spec_state(self) -> TaskState {
        if self.running {
            TaskState::Running
        } else if self.activation is Absent {
            TaskState::Dormant
        } else {
            TaskState::Pending
        }
    }

    /// The life-cycle state that the task is in.
    #[verifier::when_used_as_spec(spec_state)]
    pub fn state(self) -> (s: TaskState)
        ensures
            s == self.spec_state(),
    {
        if self.running {
            TaskState::Running
        } else {
            match self.activation {
                Activation::Absent => TaskState::Dormant,
                _ => TaskState::Pending,
            }
        }
    }

    /// Ready: requested, due, and not begun.
    pub open spec fn ready(self) -> bool {
        !self.running && self.activation is Arrived
    }

    /// Waiting in the timer queue.
    pub open spec fn armed(self) -> bool {
        self.activation is Armed
    }

    /// The time that orders ready tasks of equal priority: when the request
    /// arrived (for a timed request, its due-time).
    pub open spec fn arrival(self) -> u64 {
        match self.activation {
            Activation::Arrived(t) => t,
            Activation::Armed(t) => t,
            Activation::Absent => 0,
        }
    }

    /// The time that orders ready tasks of equal priority.
    pub fn arrived_at(self) -> (a: u64)
        ensures
            a == self.arrival(),
    {
        match self.activation {
            Activation::Arrived(a) => a,
            Activation::Armed(a) => a,
            Activation::Absent => 0,
        }
    }

    /// The task as it is once it has begun: running, its request consumed.
    pub open spec fn begun(self) -> Task {
        Task { running: true, activation: Activation::Absent, ..self }
    }

    /// The task as it is once it has completed: no longer running; a request
    /// made while it ran is kept.
    pub open spec fn ended(self) -> Task {
        Task { running: false, ..self }
    }

    /// The task with its request replaced.
    pub open spec fn requested(self, activation: Activation) -> Task {
        Task { activation: activation, ..self }
    }
}

} // verus!
