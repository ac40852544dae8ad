use stm32f7_discovery::task_runtime::{Executor, IdleStream, TaskId};

#[test]
fn executor_runs_tasks_in_wake_order() {
    let mut executor = Executor::new();
    assert_eq!(executor.pop_woken(), None);
    let a = executor.add_task();
    let b = executor.add_task();
    let c = executor.add_task();
    assert_eq!((a, b, c), (TaskId(0), TaskId(1), TaskId(2)));
    // a new task is woken once, in the order of creation
    assert_eq!(executor.pop_woken(), Some(a));
    executor.wake(c);
    assert_eq!(executor.pop_woken(), Some(b));
    assert_eq!(executor.pop_woken(), Some(c));
    assert_eq!(executor.pop_woken(), Some(c));
    assert_eq!(executor.pop_woken(), None);
}

#[test]
fn executor_removes_finished_tasks() {
    let mut executor = Executor::new();
    let a = executor.add_task();
    let b = executor.add_task();
    assert!(executor.contains(a) && executor.contains(b));
    executor.remove_task(a);
    assert!(!executor.contains(a));
    assert!(executor.contains(b));
    // a finished task keeps its place in the wake queue; the identifier is not reused
    assert_eq!(executor.pop_woken(), Some(a));
    let c = executor.add_task();
    assert_eq!(c, TaskId(2));
    assert!(!executor.contains(TaskId(7)));
}

#[test]
fn idle_stream_alternates_starting_with_pending() {
    let mut stream = IdleStream::new();
    let polls: Vec<bool> = (0..5).map(|_| stream.poll_next()).collect();
    assert_eq!(polls, vec![false, true, false, true, false]);
}
