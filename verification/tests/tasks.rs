//! Task handles: the Pending to Ready to Taken life of one background
//! computation, and the idempotent drain of its result.

use gfaestus::task::TaskHandle;
use gfaestus::task::WorkerPool;

#[test]
fn a_result_is_retrievable_exactly_once() {
    let mut handle: TaskHandle<u64> = TaskHandle::new();
    assert!(handle.is_pending());
    assert_eq!(handle.take(), None);
    handle.on_complete(7);
    assert!(handle.is_ready());
    assert_eq!(handle.take(), Some(7));
    // The second retrieval after the first returns nothing: the same
    // completion can never be processed twice.
    assert_eq!(handle.take(), None);
    assert!(!handle.is_pending());
    assert!(!handle.is_ready());
}

#[test]
fn polling_a_pending_handle_changes_nothing() {
    let mut handle: TaskHandle<&str> = TaskHandle::new();
    assert_eq!(handle.take(), None);
    assert_eq!(handle.take(), None);
    assert!(handle.is_pending());
    handle.on_complete("done");
    assert_eq!(handle.take(), Some("done"));
}

#[test]
fn failures_travel_inside_the_value() {
    let mut handle: TaskHandle<Result<u32, String>> = TaskHandle::new();
    handle.on_complete(Err("parse error".to_string()));
    assert_eq!(handle.take(), Some(Err("parse error".to_string())));
    assert_eq!(handle.take(), None);
}

#[test]
fn pool_counts_outstanding_work_for_shutdown() {
    let mut pool = WorkerPool::new();
    assert!(pool.all_joined());
    pool.task_spawned();
    pool.task_spawned();
    assert!(!pool.all_joined());
    pool.task_finished();
    pool.task_finished();
    assert!(pool.all_joined());
}
