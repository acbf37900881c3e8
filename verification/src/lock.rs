//! State shared between tasks of different priority, and the critical
//! section that guards it.

use vstd::prelude::*;
use crate::lemmas::lemma_served_dispatch;
use crate::scheduler::{CriticalSection, Scheduler};

verus! {

/// A piece of state that several tasks touch. Every access goes through a
/// critical section under the priority ceiling of the tasks that share it:
/// through [`with_lock`], or with the token of a section that is open.
pub struct Shared<T> {
    value: T,
    ceiling: u8,
}

impl<T: Copy> Shared<T> {
    /// The value of the shared state.
    pub closed spec fn view(&self) -> T {
        self.value
    }

    /// The greatest priority among the tasks that share the state.
    pub closed spec fn ceiling(&self) -> u8 {
        self.ceiling
    }

    /// Shared state with its first value, for tasks of priority up to
    /// `ceiling`.
    pub fn new(value: T, ceiling: u8) -> (shared: Self)
        ensures
            shared@ == value,
            shared.ceiling() == ceiling,
    {
        Shared { value, ceiling }
    }

    /// The ceiling under which the state is accessed.
    pub fn priority_ceiling(&self) -> (c: u8)
        ensures
            c == self.ceiling(),
    {
        self.ceiling
    }

    /// Reads the state inside a critical section. The answer is the value
    /// where the section works under a ceiling that covers the state, and
    /// nothing else.
    pub fn read(&self, section: &CriticalSection) -> (r: Option<T>)
        ensures
            r == if section.ceiling() >= self.ceiling() {
                Some(self@)
            } else {
                None
            },
    {
        if section.level() >= self.ceiling {
            Some(self.value)
        } else {
            None
        }
    }

    /// Writes the state inside a critical section. The value is taken where
    /// the section works under a ceiling that covers the state; else the
    /// state stays as it is. The answer says which.
    pub fn write(&mut self, section: &CriticalSection, value: T) -> (taken: bool)
        ensures
            taken == (section.ceiling() >= old(self).ceiling()),
            final(self)@ == if taken {
                value
            } else {
                old(self)@
            },
            final(self).ceiling() == old(self).ceiling(),
    {
        if section.level() >= self.ceiling {
            self.value = value;
            true
        } else {
            false
        }
    }
}

/// Runs `section` on the shared state inside a critical section. The
/// priority ceiling is raised to that of the state for the duration of the
/// call, so that no task that shares the state can begin, and is back at its
/// former value on return: the dispatcher is left as it was. The state is
/// replaced by what `section` makes of it, in one step; the second part of
/// what `section` returns is handed on.
pub fn with_lock<T: Copy, R, F: FnOnce(T) -> (T, R)>(
    scheduler: &mut Scheduler,
    resource: &mut Shared<T>,
    section: F,
) -> (r: R)
    requires
        old(scheduler).wf(),
        call_requires(section, (old(resource)@,)),
    ensures
        call_ensures(section, (old(resource)@,), (final(resource)@, r)),
        final(resource).ceiling() == old(resource).ceiling(),
        final(scheduler)@ == old(scheduler)@,
        final(scheduler).wf(),
{
    let token: CriticalSection = scheduler.lock(resource.ceiling);
    let (value, r) = section(resource.value);
    resource.value = value;
    proof {
        lemma_served_dispatch(old(scheduler)@);
    }
    scheduler.unlock(token);
    r
}

} // verus!
