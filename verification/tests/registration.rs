use task_stream::{spawn, stream, Executor, ExecutorError, Task, TaskPayload, TaskPolicy};

#[test]
fn new_executor_is_empty() {
    let mut exec = Executor::new();
    assert_eq!(exec.now(), 0);
    assert_eq!(exec.pending(), 0);
    assert_eq!(exec.ready(), 0);
    assert_eq!(exec.stream().get_task(), None);
    assert_eq!(exec.tick(10).forwarded, 0);
}

#[test]
fn interval_with_async_payload_is_refused_at_registration() {
    let mut exec = Executor::new();
    assert_eq!(
        exec.add_async_task(TaskPolicy::Interval(100), 1),
        Err(ExecutorError::InvalidRegistration)
    );
    assert_eq!(exec.add_async_task(TaskPolicy::Interval(0), 1), Err(ExecutorError::InvalidRegistration));
    assert_eq!(exec.pending(), 0);
    assert_eq!(exec.tick(1000).forwarded, 0);
}

#[test]
fn one_shot_async_payloads_are_accepted() {
    let mut exec = Executor::new();
    assert_eq!(exec.add_async_task(TaskPolicy::Immediate, 1), Ok(()));
    assert_eq!(exec.add_async_task(TaskPolicy::Timeout(10), 2), Ok(()));
    assert_eq!(exec.pending(), 2);
    assert_eq!(exec.tick(10).forwarded, 2);
    assert_eq!(exec.stream().get_task(), Some(TaskPayload::Async(1)));
    assert_eq!(exec.stream().get_task(), Some(TaskPayload::Async(2)));
}

#[test]
fn sync_payloads_are_accepted_under_every_policy() {
    let mut exec = Executor::new();
    exec.add_task(TaskPolicy::Immediate, 1);
    exec.add_task(TaskPolicy::Timeout(1), 2);
    exec.add_task(TaskPolicy::Interval(1), 3);
    assert_eq!(exec.pending(), 3);
}

#[test]
fn spawn_registers_for_the_next_tick() {
    let mut exec = Executor::new();
    exec.spawn(11);
    assert_eq!(exec.pending(), 1);
    assert_eq!(exec.ready(), 0);
    assert_eq!(exec.tick(0).forwarded, 1);
    assert_eq!(exec.stream().get_task(), Some(TaskPayload::Async(11)));
}

#[test]
fn free_functions_act_on_the_given_executor() {
    let mut exec = Executor::new();
    spawn(&mut exec, 21);
    spawn(&mut exec, 22);
    assert_eq!(exec.tick(3).forwarded, 2);
    assert_eq!(stream(&mut exec).get_task(), Some(TaskPayload::Async(21)));
    assert_eq!(stream(&mut exec).get_task(), Some(TaskPayload::Async(22)));
    assert_eq!(stream(&mut exec).get_task(), None);
}

#[test]
fn task_is_due_by_policy() {
    let immediate = Task::new(TaskPolicy::Immediate, TaskPayload::Sync(1), 40);
    assert!(immediate.due(40));
    assert_eq!(immediate.last, 40);

    let timeout = Task::new(TaskPolicy::Timeout(10), TaskPayload::Async(2), 40);
    assert!(!timeout.due(40));
    assert!(!timeout.due(49));
    assert!(timeout.due(50));
    assert!(timeout.due(51));

    let interval = Task::new(TaskPolicy::Interval(10), TaskPayload::Sync(3), 40);
    assert!(!interval.due(49));
    assert!(interval.due(50));
}

#[test]
fn policy_and_payload_kinds() {
    assert!(!TaskPolicy::Immediate.repeats());
    assert!(!TaskPolicy::Timeout(5).repeats());
    assert!(TaskPolicy::Interval(5).repeats());
    assert!(TaskPayload::Sync(8).is_sync());
    assert!(!TaskPayload::Async(8).is_sync());
    assert_eq!(TaskPayload::Sync(8).id(), 8);
    assert_eq!(TaskPayload::Async(9).id(), 9);
}
