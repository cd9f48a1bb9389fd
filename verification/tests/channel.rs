use task_stream::promotion::{count_due, promote};
use task_stream::{ReadyChannel, Task, TaskPayload, TaskPolicy, TASK_LEN};

#[test]
fn channel_is_first_in_first_out() {
    let mut channel = ReadyChannel::new();
    assert_eq!(channel.len(), 0);
    assert_eq!(channel.try_pop(), None);
    assert_eq!(channel.try_push(TaskPayload::Sync(1)), Ok(()));
    assert_eq!(channel.try_push(TaskPayload::Async(2)), Ok(()));
    assert_eq!(channel.try_push(TaskPayload::Sync(3)), Ok(()));
    assert_eq!(channel.len(), 3);
    assert_eq!(channel.free(), TASK_LEN - 3);
    assert_eq!(channel.try_pop(), Some(TaskPayload::Sync(1)));
    assert_eq!(channel.try_pop(), Some(TaskPayload::Async(2)));
    assert_eq!(channel.try_push(TaskPayload::Sync(4)), Ok(()));
    assert_eq!(channel.try_pop(), Some(TaskPayload::Sync(3)));
    assert_eq!(channel.try_pop(), Some(TaskPayload::Sync(4)));
    assert_eq!(channel.try_pop(), None);
    assert_eq!(channel.len(), 0);
}

#[test]
fn channel_takes_exactly_its_capacity() {
    let mut channel = ReadyChannel::new();
    assert_eq!(channel.capacity(), TASK_LEN);
    assert_eq!(TASK_LEN, 64);
    for i in 0..TASK_LEN {
        assert_eq!(channel.try_push(TaskPayload::Sync(i as u64)), Ok(()));
    }
    assert_eq!(channel.len(), TASK_LEN);
    assert_eq!(channel.free(), 0);
    assert_eq!(channel.try_push(TaskPayload::Sync(99)), Err(TaskPayload::Sync(99)));
    assert_eq!(channel.try_push(TaskPayload::Async(98)), Err(TaskPayload::Async(98)));
    assert_eq!(channel.len(), TASK_LEN);
    assert_eq!(channel.try_pop(), Some(TaskPayload::Sync(0)));
    assert_eq!(channel.try_push(TaskPayload::Sync(99)), Ok(()));
    assert_eq!(channel.try_push(TaskPayload::Sync(100)), Err(TaskPayload::Sync(100)));
}

#[test]
fn channel_keeps_its_order_over_many_rounds() {
    let mut channel = ReadyChannel::new();
    let mut next_in: u64 = 0;
    let mut next_out: u64 = 0;
    for round in 0..1000 {
        let burst = 1 + round % 7;
        for _ in 0..burst {
            if channel.try_push(TaskPayload::Sync(next_in)).is_ok() {
                next_in += 1;
            }
        }
        for _ in 0..1 + round % 5 {
            if let Some(item) = channel.try_pop() {
                assert_eq!(item, TaskPayload::Sync(next_out));
                next_out += 1;
            }
        }
        assert_eq!(channel.len() as u64, next_in - next_out);
    }
}

#[test]
fn promote_compacts_the_registry_in_order() {
    let mut tasks = vec![
        Task::new(TaskPolicy::Timeout(5), TaskPayload::Sync(1), 0),
        Task::new(TaskPolicy::Timeout(50), TaskPayload::Sync(2), 0),
        Task::new(TaskPolicy::Interval(10), TaskPayload::Sync(3), 0),
        Task::new(TaskPolicy::Immediate, TaskPayload::Async(4), 0),
        Task::new(TaskPolicy::Interval(30), TaskPayload::Sync(5), 0),
    ];
    let mut channel = ReadyChannel::new();
    assert_eq!(count_due(&tasks, 20), 3);
    assert_eq!(promote(&mut tasks, &mut channel, 20), 3);
    assert_eq!(
        tasks,
        vec![
            Task::new(TaskPolicy::Timeout(50), TaskPayload::Sync(2), 0),
            Task::new(TaskPolicy::Interval(10), TaskPayload::Sync(3), 20),
            Task::new(TaskPolicy::Interval(30), TaskPayload::Sync(5), 0),
        ]
    );
    assert_eq!(channel.try_pop(), Some(TaskPayload::Sync(1)));
    assert_eq!(channel.try_pop(), Some(TaskPayload::Sync(3)));
    assert_eq!(channel.try_pop(), Some(TaskPayload::Async(4)));
    assert_eq!(channel.try_pop(), None);
}

#[test]
fn promote_on_an_empty_registry_does_nothing() {
    let mut tasks: Vec<Task> = Vec::new();
    let mut channel = ReadyChannel::new();
    assert_eq!(count_due(&tasks, 7), 0);
    assert_eq!(promote(&mut tasks, &mut channel, 7), 0);
    assert!(tasks.is_empty());
    assert_eq!(channel.len(), 0);
}
