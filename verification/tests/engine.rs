use deadline_scheduler::command::{Command, ScheduleSpec};
use deadline_scheduler::scheduled_task::ScheduledTask;
use deadline_scheduler::scheduler::Scheduler;

#[test]
fn ids_strictly_increasing() {
    let mut s = Scheduler::new();
    let a = s.once_at(10);
    let b = s.once_at(5);
    let c = s.repeat(0, 20);
    assert_eq!(a, 1);
    assert_eq!(b, 2);
    assert_eq!(c, 3);
    // cancellation and execution never roll the counter back
    s.remove(b);
    let _ = s.pop_due(100);
    let d = s.once_at(7);
    assert_eq!(d, 4);
}

#[test]
fn distinct_deadlines_run_in_deadline_order() {
    let mut s = Scheduler::new();
    let late = s.once_at(30);
    let early = s.once_at(10);
    let middle = s.once_at(20);
    let p1 = s.pop_due(100).expect("first pop");
    let p2 = s.pop_due(100).expect("second pop");
    let p3 = s.pop_due(100).expect("third pop");
    assert_eq!(p1.task_id(), early);
    assert_eq!(p2.task_id(), middle);
    assert_eq!(p3.task_id(), late);
    assert!(s.pop_due(100).is_none());
}

#[test]
fn equal_deadlines_run_in_registration_order() {
    let mut s = Scheduler::new();
    let a = s.once_at(50);
    let b = s.once_at(50);
    let c = s.once_at(50);
    assert_eq!(s.pop_due(50).expect("a").task_id(), a);
    assert_eq!(s.pop_due(50).expect("b").task_id(), b);
    assert_eq!(s.pop_due(50).expect("c").task_id(), c);
}

#[test]
fn nothing_pops_before_its_deadline() {
    let mut s = Scheduler::new();
    s.once_at(100);
    assert!(s.pop_due(99).is_none());
    assert!(s.pop_due(100).is_some());
}

#[test]
fn cancelled_before_drain_never_runs() {
    let mut s = Scheduler::new();
    let id = s.once_after(0, 100);
    s.remove(id);
    assert!(s.pop_due(150).is_none());
    assert_eq!(s.pending_count(), 0);
}

#[test]
fn cancelling_one_task_spares_the_others() {
    let mut s = Scheduler::new();
    let a = s.once_at(10);
    let b = s.once_at(20);
    let c = s.once_at(30);
    s.remove(b);
    assert_eq!(s.pop_due(100).expect("a").task_id(), a);
    assert_eq!(s.pop_due(100).expect("c").task_id(), c);
    assert!(s.pop_due(100).is_none());
}

#[test]
fn remove_fabricated_id_has_no_effect() {
    let mut s = Scheduler::new();
    let id = s.once_at(10);
    s.remove(999);
    assert_eq!(s.pending_count(), 1);
    let t = s.pop_due(10).expect("the real task still runs");
    assert_eq!(t.task_id(), id);
    assert!(s.pop_due(10).is_none());
}

#[test]
fn repeat_fires_three_times_in_sixty_five_ticks() {
    // register repeat(20) at tick 0; by tick 65 it has fired at 20, 40, 60
    let mut s = Scheduler::new();
    let id = s.repeat(0, 20);
    let mut firings: Vec<u64> = Vec::new();
    while let Some(task) = s.pop_due(65) {
        assert_eq!(task.task_id(), id);
        let completion = task.when(); // the callback finishes right at its deadline
        firings.push(task.when());
        if let Some(next) = task.execute(completion) {
            assert!(!s.holds_task(next.task_id()));
            s.reinsert(next);
        }
    }
    assert_eq!(firings, vec![20, 40, 60]);
    // the successor for tick 80 is still pending
    assert_eq!(s.pending_count(), 1);
    assert!(s.pop_due(79).is_none());
}

#[test]
fn repeat_successor_deadline_follows_completion() {
    // drift-permitting: the next deadline is completion + interval
    let t = ScheduledTask::new(3, ScheduleSpec::repeat(20), 0);
    assert_eq!(t.when(), 20);
    let next = t.execute(27).expect("a repeat task yields a successor");
    assert_eq!(next.task_id(), 3);
    assert_eq!(next.when(), 47);
}

#[test]
fn once_task_ends_after_execution() {
    let t = ScheduledTask::new(9, ScheduleSpec::once_at(5), 0);
    assert!(t.execute(5).is_none());
}

#[test]
fn scenario_two_one_shots_run_shortest_first() {
    // once_after(50) then once_after(10): the second runs first
    let mut s = Scheduler::new();
    let cb_a = s.once_after(0, 50);
    let cb_b = s.once_after(0, 10);
    let first = s.pop_due(60).expect("first");
    let second = s.pop_due(60).expect("second");
    assert_eq!(first.task_id(), cb_b);
    assert_eq!(second.task_id(), cb_a);
}

#[test]
fn next_wait_target_reports_earliest_deadline() {
    let mut s = Scheduler::new();
    assert_eq!(s.next_wait_target(), None);
    s.once_at(42);
    assert_eq!(s.next_wait_target(), Some(42));
    s.once_at(7);
    assert_eq!(s.next_wait_target(), Some(7));
}

#[test]
fn next_wait_target_purges_cancelled_minima() {
    let mut s = Scheduler::new();
    let a = s.once_at(5);
    let b = s.once_at(8);
    s.remove(a);
    assert_eq!(s.next_wait_target(), Some(8));
    assert_eq!(s.pending_count(), 1);
    s.remove(b);
    assert_eq!(s.next_wait_target(), None);
    assert_eq!(s.pending_count(), 0);
}

#[test]
fn handle_command_dispatches_add_and_remove() {
    let mut s = Scheduler::new();
    let r = s.handle_command(Command::Add(ScheduleSpec::once_at(30)), 0);
    assert_eq!(r, Some(1));
    let r = s.handle_command(Command::Remove(1), 5);
    assert_eq!(r, None);
    assert!(s.pop_due(30).is_none());
}

#[test]
fn spec_when_computes_next_firing() {
    assert_eq!(ScheduleSpec::once_at(9).when(123), 9);
    assert_eq!(ScheduleSpec::once_after(100, 50).when(0), 150);
    assert_eq!(ScheduleSpec::repeat(20).when(30), 50);
}

#[test]
fn task_accessors_report_fields() {
    let t = ScheduledTask::new(5, ScheduleSpec::once_at(9), 0);
    assert_eq!(t.task_id(), 5);
    assert_eq!(t.when(), 9);
    assert_eq!(t.spec, ScheduleSpec::OnceAt { deadline: 9 });
}
