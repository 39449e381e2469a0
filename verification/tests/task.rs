use futures_task::{EventSet, Task, Unpark, UnparkEvent};
use std::sync::{Arc, Mutex};

/// Records what happens, in order: an insertion as its identifier, a
/// wake-up as `WAKE`.
struct Log {
    entries: Mutex<Vec<usize>>,
}

const WAKE: usize = usize::MAX;

impl Log {
    fn new() -> Arc<Log> {
        Arc::new(Log { entries: Mutex::new(Vec::new()) })
    }

    fn entries(&self) -> Vec<usize> {
        self.entries.lock().unwrap().clone()
    }
}

impl EventSet for Log {
    fn insert(&self, id: usize) {
        self.entries.lock().unwrap().push(id);
    }
}

impl Unpark for Log {
    fn unpark(&self) {
        self.entries.lock().unwrap().push(WAKE);
    }
}

fn handle(log: &Arc<Log>, id: usize) -> Task {
    let waker: Arc<dyn Unpark> = log.clone();
    Task::new(id, waker)
}

fn event(log: &Arc<Log>, id: usize) -> UnparkEvent {
    let set: Arc<dyn EventSet> = log.clone();
    UnparkEvent::new(set, id)
}

#[test]
fn new_handle_has_its_identifier_and_no_events() {
    let log = Log::new();
    let task = handle(&log, 17);
    assert_eq!(task.task_id(), 17);
    assert_eq!(task.event_count(), 0);
}

#[test]
fn unpark_without_events_only_wakes() {
    let log = Log::new();
    handle(&log, 1).unpark();
    assert_eq!(log.entries(), vec![WAKE]);
}

#[test]
fn unpark_can_be_repeated() {
    let log = Log::new();
    let task = handle(&log, 1).with_event(event(&log, 6));
    task.unpark();
    task.unpark();
    task.unpark();
    assert_eq!(log.entries(), vec![6, WAKE, 6, WAKE, 6, WAKE]);
}

#[test]
fn unpark_triggers_events_before_it_wakes() {
    let log = Log::new();
    let task = handle(&log, 1).with_event(event(&log, 10)).with_event(event(&log, 20));
    task.unpark();
    assert_eq!(log.entries(), vec![10, 20, WAKE]);
}

#[test]
fn with_event_leaves_the_handle_alone() {
    let log = Log::new();
    let plain = handle(&log, 3);
    let extended = plain.with_event(event(&log, 5));
    assert_eq!(plain.event_count(), 0);
    assert_eq!(extended.event_count(), 1);
    assert_eq!(extended.task_id(), 3);
    plain.unpark();
    assert_eq!(log.entries(), vec![WAKE]);
    extended.unpark();
    assert_eq!(log.entries(), vec![WAKE, 5, WAKE]);
}

#[test]
fn clone_keeps_identifier_events_and_capability() {
    let log = Log::new();
    let task = handle(&log, 8).with_event(event(&log, 1)).with_event(event(&log, 2));
    let copy = task.clone();
    assert_eq!(copy.task_id(), 8);
    assert_eq!(copy.event_count(), 2);
    copy.unpark();
    assert_eq!(log.entries(), vec![1, 2, WAKE]);
}

#[test]
fn each_clone_triggers_every_event_each_time() {
    let log = Log::new();
    let task = handle(&log, 8).with_event(event(&log, 4));
    let copy = task.clone();
    task.unpark();
    copy.unpark();
    copy.unpark();
    task.unpark();
    assert_eq!(log.entries(), vec![4, WAKE, 4, WAKE, 4, WAKE, 4, WAKE]);
}

#[test]
fn clone_outlives_the_handle_it_was_made_from() {
    let log = Log::new();
    let copy = {
        let task = handle(&log, 2).with_event(event(&log, 9));
        task.clone()
    };
    copy.unpark();
    assert_eq!(log.entries(), vec![9, WAKE]);
}

#[test]
fn handles_share_one_capability() {
    let log = Log::new();
    let waker: Arc<dyn Unpark> = log.clone();
    let before = Arc::strong_count(&waker);
    let task: Task = Task::new(1, waker.clone());
    let copy = task.clone();
    let elsewhere = Log::new();
    let extended = copy.with_event(event(&elsewhere, 3));
    assert_eq!(Arc::strong_count(&waker), before + 3);
    drop(task);
    drop(copy);
    drop(extended);
    assert_eq!(Arc::strong_count(&waker), before);
}

#[test]
fn handle_can_be_sent_to_another_owner() {
    fn take_send<T: Send + 'static>(value: T) -> T {
        value
    }
    let log = Log::new();
    let task = take_send(handle(&log, 1));
    task.unpark();
    assert_eq!(log.entries(), vec![WAKE]);
}
