use lora_node::lock::{with_lock, Shared};
use lora_node::model::ScheduleError;
use lora_node::scheduler::{Dispatch, Scheduler};
use lora_node::task::{Activation, TaskConfig, TaskState};

fn plain(priority: u8) -> TaskConfig {
    TaskConfig { priority, source: None }
}

fn bound(priority: u8, source: u8) -> TaskConfig {
    TaskConfig { priority, source: Some(source) }
}

#[test]
fn new_dispatcher_is_idle() {
    let s = Scheduler::new(vec![plain(3), bound(5, 7)], 2);
    assert_eq!(s.len(), 2);
    assert_eq!(s.now(), 0);
    assert_eq!(s.capacity(), 2);
    assert_eq!(s.ceiling(), None);
    assert!(s.is_idle());
    assert_eq!(s.current(), None);
    assert_eq!(s.candidate(), None);
    assert_eq!(s.level(), -1);
    assert_eq!(s.next_alarm(), None);
    assert_eq!(s.armed(), 0);
    assert_eq!(s.state(0), Some(TaskState::Dormant));
    assert_eq!(s.state(1), Some(TaskState::Dormant));
    assert_eq!(s.state(2), None);
    assert!(s.task(2).is_none());
    let t = s.task(1).unwrap();
    assert_eq!(t.priority, 5);
    assert_eq!(t.source, Some(7));
    assert!(!t.running);
    assert_eq!(t.activation, Activation::Absent);
    assert_eq!(s.bound(7), Some(1));
    assert_eq!(s.bound(8), None);
}

#[test]
fn delayed_task_runs_at_its_due_time() {
    let mut s = Scheduler::new(vec![plain(3)], 1);
    assert_eq!(s.schedule_after(0, 1000), Ok(1000));
    assert_eq!(s.state(0), Some(TaskState::Pending));
    assert_eq!(s.next_alarm(), Some(1000));
    assert!(!s.is_idle());

    assert!(s.advance_clock(999));
    let early = s.tick();
    assert_eq!(early.started, None);
    assert_eq!(early.next_alarm, Some(1000));
    assert_eq!(s.state(0), Some(TaskState::Pending));
    assert_eq!(s.current(), None);

    assert!(s.advance_clock(1000));
    let due = s.tick();
    assert_eq!(due.started, Some(0));
    assert_eq!(due.next_alarm, None);
    assert_eq!(s.state(0), Some(TaskState::Running));
    assert_eq!(s.current(), Some(0));
    assert_eq!(s.level(), 3);
}

#[test]
fn interrupt_preempts_a_less_urgent_task() {
    let mut s = Scheduler::new(vec![plain(3), bound(5, 7)], 2);
    assert_eq!(s.schedule_after(0, 0), Ok(0));
    assert_eq!(s.tick().started, Some(0));
    assert_eq!(s.current(), Some(0));

    assert_eq!(s.dispatch_interrupt(7), Dispatch::Started(1));
    assert_eq!(s.current(), Some(1));
    assert_eq!(s.state(0), Some(TaskState::Running));
    assert_eq!(s.state(1), Some(TaskState::Running));
    assert_eq!(s.level(), 5);

    let c = s.complete();
    assert_eq!(c.finished, Some(1));
    assert_eq!(c.started, None);
    assert_eq!(s.state(1), Some(TaskState::Dormant));
    assert_eq!(s.current(), Some(0));

    let c = s.complete();
    assert_eq!(c.finished, Some(0));
    assert_eq!(c.started, None);
    assert!(s.is_idle());
}

#[test]
fn two_tasks_update_under_the_lock() {
    let mut s = Scheduler::new(vec![plain(3), bound(5, 7)], 2);
    let mut count: Shared<u32> = Shared::new(0, 5);
    assert_eq!(count.priority_ceiling(), 5);
    assert_eq!(s.schedule_after(0, 0), Ok(0));
    assert_eq!(s.tick().started, Some(0));

    // The less urgent task is inside its critical section when the interrupt
    // of the more urgent one comes.
    let token = s.lock(count.priority_ceiling());
    assert_eq!(s.ceiling(), Some(5));
    assert_eq!(s.level(), 5);
    let before = count.read(&token).unwrap();
    assert_eq!(s.dispatch_interrupt(7), Dispatch::Deferred(1));
    assert_eq!(s.state(1), Some(TaskState::Pending));
    assert_eq!(s.current(), Some(0));
    assert!(count.write(&token, before + 1));
    assert_eq!(s.unlock(token), Some(1));
    assert_eq!(s.ceiling(), None);
    assert_eq!(s.current(), Some(1));

    // The more urgent task runs now, and sees the update of the other whole.
    let seen = with_lock(&mut s, &mut count, |v: u32| (v + 1, v));
    assert_eq!(seen, 1);
    assert_eq!(s.ceiling(), None);
    assert_eq!(s.complete().finished, Some(1));
    assert_eq!(s.current(), Some(0));
    let now = with_lock(&mut s, &mut count, |v: u32| (v, v));
    assert_eq!(now, 2);
}

#[test]
fn section_under_a_lower_ceiling_does_not_reach_the_state() {
    let mut s = Scheduler::new(vec![plain(3), plain(5)], 2);
    let mut count: Shared<u32> = Shared::new(7, 5);
    let low = s.lock(3);
    assert_eq!(low.level(), 3);
    assert_eq!(count.read(&low), None);
    assert!(!count.write(&low, 9));
    let high = s.lock(5);
    assert_eq!(high.level(), 5);
    assert_eq!(count.read(&high), Some(7));
    assert!(count.write(&high, 9));
    assert_eq!(count.read(&high), Some(9));
    assert_eq!(s.unlock(high), None);
    assert_eq!(s.ceiling(), Some(3));
    assert_eq!(s.unlock(low), None);
    assert_eq!(s.ceiling(), None);
}

#[test]
fn toggle_inside_the_lock_is_applied_once_per_call() {
    let mut s = Scheduler::new(vec![plain(3), plain(5)], 2);
    let mut led: Shared<bool> = Shared::new(false, 5);
    let a = with_lock(&mut s, &mut led, |v: bool| (!v, !v));
    let b = with_lock(&mut s, &mut led, |v: bool| (!v, !v));
    assert!(a);
    assert!(!b);
    assert!(s.is_idle());
    assert_eq!(s.ceiling(), None);
}

#[test]
fn more_urgent_task_runs_first_whatever_the_order_of_requests() {
    let mut s = Scheduler::new(vec![plain(3), plain(5)], 2);
    assert_eq!(s.schedule_after(0, 10), Ok(10));
    assert_eq!(s.schedule_after(1, 10), Ok(10));
    s.advance_clock(10);
    assert_eq!(s.tick().started, Some(1));
    assert_eq!(s.state(0), Some(TaskState::Pending));
    assert_eq!(s.candidate(), Some(0));
    assert_eq!(s.tick().started, None);
    let c = s.complete();
    assert_eq!(c.finished, Some(1));
    assert_eq!(c.started, Some(0));

    let mut s = Scheduler::new(vec![plain(5), plain(3)], 2);
    assert_eq!(s.schedule_after(1, 5), Ok(5));
    assert_eq!(s.schedule_after(0, 10), Ok(10));
    s.advance_clock(10);
    assert_eq!(s.tick().started, Some(0));
    let c = s.complete();
    assert_eq!(c.finished, Some(0));
    assert_eq!(c.started, Some(1));
}

#[test]
fn equal_priority_runs_in_arrival_order() {
    let mut s = Scheduler::new(vec![plain(3), plain(3)], 2);
    assert_eq!(s.schedule_after(1, 10), Ok(10));
    assert_eq!(s.schedule_after(0, 20), Ok(20));
    s.advance_clock(25);
    let t = s.tick();
    assert_eq!(t.started, Some(1));
    assert_eq!(t.next_alarm, None);
    assert_eq!(s.task(0).unwrap().activation, Activation::Arrived(20));
    let c = s.complete();
    assert_eq!(c.finished, Some(1));
    assert_eq!(c.started, Some(0));
}

#[test]
fn equal_priority_and_arrival_runs_in_table_order() {
    let mut s = Scheduler::new(vec![plain(3), plain(3)], 2);
    assert_eq!(s.schedule_after(1, 10), Ok(10));
    assert_eq!(s.schedule_after(0, 10), Ok(10));
    s.advance_clock(10);
    assert_eq!(s.tick().started, Some(0));
    assert_eq!(s.complete().started, Some(1));
}

#[test]
fn equal_priority_does_not_preempt() {
    let mut s = Scheduler::new(vec![plain(5), bound(5, 7), bound(4, 8)], 3);
    assert_eq!(s.schedule_after(0, 0), Ok(0));
    assert_eq!(s.tick().started, Some(0));
    assert_eq!(s.dispatch_interrupt(7), Dispatch::Deferred(1));
    assert_eq!(s.dispatch_interrupt(8), Dispatch::Deferred(2));
    assert_eq!(s.current(), Some(0));
    let c = s.complete();
    assert_eq!(c.finished, Some(0));
    assert_eq!(c.started, Some(1));
    let c = s.complete();
    assert_eq!(c.finished, Some(1));
    assert_eq!(c.started, Some(2));
}

#[test]
fn unbound_interrupt_changes_nothing() {
    let mut s = Scheduler::new(vec![bound(5, 7)], 1);
    assert_eq!(s.dispatch_interrupt(9), Dispatch::Unbound);
    assert!(s.is_idle());
}

#[test]
fn interrupt_starts_bound_task_when_processor_is_free() {
    let mut s = Scheduler::new(vec![plain(3), bound(0, 7)], 2);
    s.advance_clock(40);
    assert_eq!(s.dispatch_interrupt(7), Dispatch::Started(1));
    assert_eq!(s.level(), 0);
    assert_eq!(s.task(1).unwrap().activation, Activation::Absent);
}

#[test]
fn interrupt_during_own_run_is_served_after_it() {
    let mut s = Scheduler::new(vec![bound(5, 7)], 1);
    s.advance_clock(12);
    assert_eq!(s.dispatch_interrupt(7), Dispatch::Started(0));
    assert_eq!(s.dispatch_interrupt(7), Dispatch::Deferred(0));
    assert_eq!(s.task(0).unwrap().activation, Activation::Arrived(12));
    s.advance_clock(15);
    assert_eq!(s.dispatch_interrupt(7), Dispatch::Deferred(0));
    assert_eq!(s.task(0).unwrap().activation, Activation::Arrived(12));
    let c = s.complete();
    assert_eq!(c.finished, Some(0));
    assert_eq!(c.started, Some(0));
    let c = s.complete();
    assert_eq!(c.finished, Some(0));
    assert_eq!(c.started, None);
    assert!(s.is_idle());
}

#[test]
fn schedule_errors() {
    let mut s = Scheduler::new(vec![plain(3), plain(4)], 1);
    assert_eq!(s.schedule_after(2, 1), Err(ScheduleError::UnknownTask));
    assert_eq!(s.schedule_after(0, 5), Ok(5));
    assert_eq!(s.armed(), 1);
    assert_eq!(s.schedule_after(1, 5), Err(ScheduleError::QueueFull));
    assert_eq!(s.state(1), Some(TaskState::Dormant));
    assert_eq!(s.schedule_after(0, 9), Ok(9));
    assert_eq!(s.armed(), 1);

    assert!(s.advance_clock(u64::MAX - 5));
    assert_eq!(s.schedule_after(0, 6), Err(ScheduleError::ClockRange));
    assert_eq!(s.task(0).unwrap().activation, Activation::Armed(9));
    assert_eq!(s.schedule_after(0, 5), Ok(u64::MAX));
    assert_eq!(s.schedule_after(7, u64::MAX), Err(ScheduleError::UnknownTask));
}

#[test]
fn queue_without_room_takes_no_request() {
    let mut s = Scheduler::new(vec![plain(3)], 0);
    assert_eq!(s.schedule_after(0, 1), Err(ScheduleError::QueueFull));
    assert!(s.is_idle());
}

#[test]
fn rescheduling_replaces_the_due_time() {
    let mut s = Scheduler::new(vec![plain(3)], 1);
    assert_eq!(s.schedule_after(0, 100), Ok(100));
    assert_eq!(s.schedule_after(0, 300), Ok(300));
    assert_eq!(s.next_alarm(), Some(300));
    s.advance_clock(200);
    assert_eq!(s.tick().started, None);
    s.advance_clock(300);
    assert_eq!(s.tick().started, Some(0));
    assert_eq!(s.tick().started, None);
}

#[test]
fn rescheduling_a_ready_task_puts_it_back_in_the_timer_queue() {
    let mut s = Scheduler::new(vec![plain(3), plain(5)], 2);
    assert_eq!(s.schedule_after(0, 0), Ok(0));
    assert_eq!(s.schedule_after(1, 0), Ok(0));
    assert_eq!(s.tick().started, Some(1));
    assert_eq!(s.task(0).unwrap().activation, Activation::Arrived(0));
    assert_eq!(s.schedule_after(0, 50), Ok(50));
    assert_eq!(s.task(0).unwrap().activation, Activation::Armed(50));
    let c = s.complete();
    assert_eq!(c.finished, Some(1));
    assert_eq!(c.started, None);
    assert_eq!(s.current(), None);
}

#[test]
fn self_rescheduling_gives_a_periodic_sequence() {
    let mut s = Scheduler::new(vec![plain(1)], 1);
    assert_eq!(s.schedule_after(0, 1000), Ok(1000));
    let mut k: u64 = 1;
    while k <= 5 {
        s.advance_clock(k * 1000 - 1);
        assert_eq!(s.tick().started, None);
        s.advance_clock(k * 1000);
        let t = s.tick();
        assert_eq!(t.started, Some(0));
        assert_eq!(s.now(), k * 1000);
        assert_eq!(s.tick().started, None);
        assert_eq!(s.schedule_after(0, 1000), Ok((k + 1) * 1000));
        assert_eq!(s.state(0), Some(TaskState::Running));
        let c = s.complete();
        assert_eq!(c.finished, Some(0));
        assert_eq!(c.started, None);
        assert_eq!(s.state(0), Some(TaskState::Pending));
        assert_eq!(s.next_alarm(), Some((k + 1) * 1000));
        k += 1;
    }
}

#[test]
fn task_that_is_not_rescheduled_does_not_recur() {
    let mut s = Scheduler::new(vec![plain(1)], 1);
    assert_eq!(s.schedule_after(0, 10), Ok(10));
    s.advance_clock(10);
    assert_eq!(s.tick().started, Some(0));
    assert_eq!(s.complete().finished, Some(0));
    s.advance_clock(1_000_000);
    let t = s.tick();
    assert_eq!(t.started, None);
    assert_eq!(t.next_alarm, None);
    assert!(s.is_idle());
}

#[test]
fn tick_reports_the_next_alarm() {
    let mut s = Scheduler::new(vec![plain(1), plain(2), plain(3)], 3);
    assert_eq!(s.schedule_after(0, 30), Ok(30));
    assert_eq!(s.schedule_after(1, 10), Ok(10));
    assert_eq!(s.schedule_after(2, 20), Ok(20));
    assert_eq!(s.next_alarm(), Some(10));
    assert_eq!(s.armed(), 3);
    s.advance_clock(10);
    let t = s.tick();
    assert_eq!(t.started, Some(1));
    assert_eq!(t.next_alarm, Some(20));
    s.advance_clock(20);
    let t = s.tick();
    assert_eq!(t.started, Some(2));
    assert_eq!(t.next_alarm, Some(30));
    assert_eq!(s.armed(), 1);
}

#[test]
fn clock_does_not_run_backwards() {
    let mut s = Scheduler::new(vec![plain(1)], 1);
    assert!(s.advance_clock(100));
    assert!(!s.advance_clock(99));
    assert_eq!(s.now(), 100);
    assert!(s.advance_clock(100));
    assert_eq!(s.schedule_after(0, 5), Ok(105));
}

#[test]
fn complete_without_a_running_task() {
    let mut s = Scheduler::new(vec![plain(1)], 1);
    let c = s.complete();
    assert_eq!(c.finished, None);
    assert_eq!(c.started, None);
}

#[test]
fn nested_locks_restore_the_ceiling_in_turn() {
    let mut s = Scheduler::new(vec![bound(4, 1), bound(6, 2), bound(8, 3)], 3);
    let outer = s.lock(6);
    assert_eq!(s.ceiling(), Some(6));
    let inner = s.lock(4);
    assert_eq!(s.ceiling(), Some(6));
    assert_eq!(s.dispatch_interrupt(2), Dispatch::Deferred(1));
    assert_eq!(s.dispatch_interrupt(3), Dispatch::Started(2));
    assert_eq!(s.complete().started, None);
    assert_eq!(s.unlock(inner), None);
    assert_eq!(s.ceiling(), Some(6));
    assert_eq!(s.unlock(outer), Some(1));
    assert_eq!(s.ceiling(), None);
}

#[test]
fn task_state_follows_the_life_cycle() {
    let mut s = Scheduler::new(vec![bound(2, 4)], 1);
    assert_eq!(s.task(0).unwrap().state(), TaskState::Dormant);
    s.schedule_after(0, 3).unwrap();
    assert_eq!(s.task(0).unwrap().state(), TaskState::Pending);
    s.advance_clock(3);
    s.tick();
    assert_eq!(s.task(0).unwrap().state(), TaskState::Running);
    s.complete();
    assert_eq!(s.task(0).unwrap().state(), TaskState::Dormant);
    assert_eq!(s.task(0).unwrap().arrived_at(), 0);
    s.schedule_after(0, 4).unwrap();
    assert_eq!(s.task(0).unwrap().arrived_at(), 7);
}

#[test]
fn ceiling_is_the_greatest_priority_of_the_sharers() {
    let s = Scheduler::new(vec![plain(3), plain(7), plain(5)], 1);
    assert_eq!(s.ceiling_of(&vec![0, 2]), 5);
    assert_eq!(s.ceiling_of(&vec![2, 0]), 5);
    assert_eq!(s.ceiling_of(&vec![1, 0, 2]), 7);
    assert_eq!(s.ceiling_of(&vec![0]), 3);
    assert_eq!(s.ceiling_of(&vec![]), 0);
    assert_eq!(s.ceiling_of(&vec![9]), 0);
    assert_eq!(s.ceiling_of(&vec![9, 0]), 3);
}
