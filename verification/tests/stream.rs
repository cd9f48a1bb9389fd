use std::sync::{Arc, Mutex};
use std::task::{Wake, Waker};
use task_stream::{Executor, LocalExecutor, Polled, TaskPayload, TaskPolicy, TickReport, WakeCell};

struct Bell {
    rings: Mutex<usize>,
}

impl Wake for Bell {
    fn wake(self: Arc<Self>) {
        *self.rings.lock().unwrap() += 1;
    }
}

fn bell() -> (Arc<Bell>, Waker) {
    let bell = Arc::new(Bell { rings: Mutex::new(0) });
    (bell.clone(), Waker::from(bell))
}

fn rings(bell: &Arc<Bell>) -> usize {
    *bell.rings.lock().unwrap()
}

#[test]
fn wake_cell_signals_the_registered_consumer_once() {
    let (bell, waker) = bell();
    let mut cell = WakeCell::new();
    assert!(!cell.notify());
    cell.register(&waker);
    assert_eq!(rings(&bell), 0);
    assert!(cell.notify());
    assert_eq!(rings(&bell), 1);
    assert!(!cell.notify());
    assert_eq!(rings(&bell), 1);
}

#[test]
fn wake_cell_keeps_the_latest_consumer_only() {
    let (first, first_waker) = bell();
    let (second, second_waker) = bell();
    let mut cell = WakeCell::new();
    cell.register(&first_waker);
    cell.register(&second_waker);
    assert!(cell.notify());
    assert_eq!(rings(&first), 0);
    assert_eq!(rings(&second), 1);
    assert!(!cell.notify());
}

#[test]
fn poll_on_an_empty_channel_parks_until_a_tick_forwards() {
    let (bell, waker) = bell();
    let mut exec = Executor::new();
    exec.add_task(TaskPolicy::Timeout(100), 1);

    assert_eq!(exec.stream().poll_next(&waker), Polled::Pending);
    assert_eq!(rings(&bell), 0);

    // A tick that forwards nothing leaves the consumer waiting.
    assert_eq!(exec.tick(50), TickReport { forwarded: 0, woke: false });
    assert_eq!(rings(&bell), 0);

    assert_eq!(exec.tick(50), TickReport { forwarded: 1, woke: true });
    assert_eq!(rings(&bell), 1);

    // The consumer polls again, gets the item and is signalled to come back.
    assert_eq!(exec.stream().poll_next(&waker), Polled::Ready(TaskPayload::Sync(1)));
    assert_eq!(rings(&bell), 2);
    assert_eq!(exec.stream().poll_next(&waker), Polled::Pending);
    assert_eq!(rings(&bell), 2);
}

#[test]
fn one_tick_gives_one_notification_for_many_payloads() {
    let (bell, waker) = bell();
    let mut exec = Executor::new();
    assert_eq!(exec.stream().poll_next(&waker), Polled::Pending);
    exec.add_task(TaskPolicy::Immediate, 1);
    exec.add_task(TaskPolicy::Immediate, 2);
    exec.add_task(TaskPolicy::Immediate, 3);
    assert_eq!(exec.tick(1), TickReport { forwarded: 3, woke: true });
    assert_eq!(rings(&bell), 1);
    // The waiter was consumed: a later tick has nobody to signal.
    exec.add_task(TaskPolicy::Immediate, 4);
    assert_eq!(exec.tick(1), TickReport { forwarded: 1, woke: false });
    assert_eq!(rings(&bell), 1);
}

#[test]
fn two_pollers_latest_is_woken() {
    let (first, first_waker) = bell();
    let (second, second_waker) = bell();
    let mut exec = Executor::new();
    assert_eq!(exec.stream().poll_next(&first_waker), Polled::Pending);
    assert_eq!(exec.stream().poll_next(&second_waker), Polled::Pending);
    exec.add_task(TaskPolicy::Immediate, 1);
    assert_eq!(exec.tick(0), TickReport { forwarded: 1, woke: true });
    assert_eq!(rings(&first), 0);
    assert_eq!(rings(&second), 1);
}

#[test]
fn poll_drains_back_to_back_while_items_are_ready() {
    let (bell, waker) = bell();
    let mut exec = Executor::new();
    exec.add_task(TaskPolicy::Immediate, 1);
    exec.add_async_task(TaskPolicy::Immediate, 2).unwrap();
    exec.tick(1);
    let mut stream = exec.stream();
    assert_eq!(stream.poll_next(&waker), Polled::Ready(TaskPayload::Sync(1)));
    assert_eq!(stream.poll_next(&waker), Polled::Ready(TaskPayload::Async(2)));
    assert_eq!(rings(&bell), 2);
    assert_eq!(stream.poll_next(&waker), Polled::Pending);
    assert_eq!(rings(&bell), 2);
}

#[test]
fn get_task_does_not_touch_the_waiter() {
    let (bell, waker) = bell();
    let mut exec = Executor::new();
    assert_eq!(exec.stream().poll_next(&waker), Polled::Pending);
    assert_eq!(exec.stream().get_task(), None);
    exec.add_task(TaskPolicy::Immediate, 1);
    assert!(exec.tick(1).woke);
    assert_eq!(exec.stream().get_task(), Some(TaskPayload::Sync(1)));
    assert_eq!(rings(&bell), 1);
}

#[test]
fn local_executor_schedules_like_the_shared_one() {
    let (bell, waker) = bell();
    let mut local: LocalExecutor = Executor::new().into_local();
    local.spawn(1);
    local.add_task(TaskPolicy::Interval(10), 2);
    assert!(local.add_async_task(TaskPolicy::Interval(10), 3).is_err());
    assert!(local.add_async_task(TaskPolicy::Timeout(10), 3).is_ok());

    assert_eq!(local.tick(0), TickReport { forwarded: 1, woke: false });
    let item = local.stream().get_task().unwrap();
    assert_eq!(item.payload(), TaskPayload::Async(1));
    assert!(local.stream().get_task().is_none());

    assert!(matches!(local.stream().poll_next(&waker), Polled::Pending));
    assert_eq!(local.try_tick(10), Ok(TickReport { forwarded: 2, woke: true }));
    assert_eq!(rings(&bell), 1);
    match local.stream().poll_next(&waker) {
        Polled::Ready(item) => assert_eq!(item.payload(), TaskPayload::Sync(2)),
        Polled::Pending => panic!("an item was ready"),
    }
    match local.stream().poll_next(&waker) {
        Polled::Ready(item) => assert_eq!(item.payload(), TaskPayload::Async(3)),
        Polled::Pending => panic!("an item was ready"),
    }
    assert_eq!(rings(&bell), 3);
}

#[test]
fn local_executor_can_be_made_from_an_executor_in_use() {
    let mut exec = Executor::new();
    exec.add_task(TaskPolicy::Timeout(5), 1);
    exec.tick(3);
    let mut local = LocalExecutor::new(exec);
    assert_eq!(local.tick(2).forwarded, 1);
    assert_eq!(local.stream().get_task().unwrap().payload(), TaskPayload::Sync(1));
}
