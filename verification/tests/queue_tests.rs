use web_crawler::crawl_core::types::{TaskPriority, TaskStatus};
use web_crawler::queue::task_queue::TaskQueue;

#[test]
fn test_task_queue_creation() {
    let queue = TaskQueue::new(5, 3);
    assert_eq!(queue.max_concurrent_tasks(), 5);
    assert_eq!(queue.pending_count(), 0);
    assert_eq!(queue.in_progress_count(), 0);
}

#[test]
fn test_enqueue_dequeue() {
    let mut queue = TaskQueue::new(10, 3);
    let id = queue.enqueue_task("https://example.com".to_string(), TaskPriority::High);
    assert_eq!(queue.pending_count(), 1);
    let task = queue.dequeue_task_at(1_000).unwrap();
    assert_eq!(task.id, id);
    assert_eq!(task.priority, TaskPriority::High);
    assert_eq!(task.status, TaskStatus::InProgress);
    assert_eq!(queue.pending_count(), 0);
    assert_eq!(queue.in_progress_count(), 1);
}

#[test]
fn higher_priority_is_served_first_then_oldest() {
    let mut queue = TaskQueue::new(10, 3);
    let low = queue.enqueue_task("https://low.example".to_string(), TaskPriority::Low);
    let high = queue.enqueue_task("https://high.example".to_string(), TaskPriority::High);
    let crit = queue.enqueue_task("https://crit.example".to_string(), TaskPriority::Critical);
    assert_eq!(queue.dequeue_task_at(5).unwrap().id, crit);
    assert_eq!(queue.dequeue_task_at(6).unwrap().id, high);
    assert_eq!(queue.dequeue_task_at(7).unwrap().id, low);
    assert!(queue.dequeue_task_at(8).is_none());
}

#[test]
fn test_task_completion() {
    let mut queue = TaskQueue::new(10, 3);
    let id = queue.enqueue_task("https://example.com".to_string(), TaskPriority::Normal);
    let _ = queue.dequeue_task_at(10).unwrap();
    let result = queue.complete_task(&id, Some("body".to_string()), 25).unwrap();
    assert!(result.success);
    assert_eq!(result.task_id, id);
    assert_eq!(result.content, Some("body".to_string()));
    assert_eq!(result.processing_time_ms, 25);
    let stats = queue.get_stats();
    assert_eq!(stats.completed_tasks, 1);
    assert_eq!(stats.in_progress_tasks, 0);
    assert!(queue.complete_task(&id, None, 1).is_none());
}

#[test]
fn test_retry_logic() {
    let mut queue = TaskQueue::new(10, 2);
    let id = queue.enqueue_task("https://example.com".to_string(), TaskPriority::Normal);
    let _ = queue.dequeue_task_at(100).unwrap();
    let result = queue.fail_task_at(&id, "Connection failed".to_string(), 7, 100).unwrap();
    assert!(!result.success);
    assert_eq!(result.error, Some("Connection failed".to_string()));
    let stats = queue.get_stats();
    assert_eq!(stats.retrying_tasks, 1);
    // The first retry waits one second.
    assert_eq!(queue.ready_retry_count_at(1_099), 0);
    assert_eq!(queue.ready_retry_count_at(1_100), 1);
    assert!(!queue.has_work_at(500));
    let again = queue.dequeue_task_at(1_100).unwrap();
    assert_eq!(again.id, id);
    assert_eq!(again.attempt_count, 1);
    // The second failure uses up the retries.
    let _ = queue.fail_task_at(&id, "Connection failed".to_string(), 7, 2_000).unwrap();
    let stats = queue.get_stats();
    assert_eq!(stats.dead_tasks, 1);
    assert_eq!(stats.retrying_tasks, 0);
}

#[test]
fn due_retries_move_back_to_pending() {
    let mut queue = TaskQueue::new(10, 5);
    let a = queue.enqueue_task("https://a.example".to_string(), TaskPriority::Normal);
    let b = queue.enqueue_task("https://b.example".to_string(), TaskPriority::Normal);
    let first = queue.dequeue_task_at(0).unwrap().id;
    let second = queue.dequeue_task_at(0).unwrap().id;
    assert!(first == a && second == b);
    let _ = queue.fail_task_at(&a, "x".to_string(), 1, 0).unwrap();
    let _ = queue.fail_task_at(&b, "y".to_string(), 1, 5_000).unwrap();
    queue.process_retry_queue_at(1_000);
    assert_eq!(queue.pending_count(), 1);
    assert_eq!(queue.get_stats().retrying_tasks, 1);
    assert_eq!(queue.get_stats().pending_tasks, 1);
}

#[test]
fn batch_enqueue_keeps_order_and_counts() {
    let mut queue = TaskQueue::new(2, 3);
    let ids = queue.enqueue_batch(vec![
        ("https://one.example".to_string(), TaskPriority::Normal),
        ("https://two.example".to_string(), TaskPriority::Normal),
    ]);
    assert_eq!(ids.len(), 2);
    assert_ne!(ids[0], ids[1]);
    assert_eq!(queue.get_stats().total_tasks, 2);
    assert_eq!(queue.get_stats().pending_tasks, 2);
}

#[test]
fn history_is_trimmed() {
    let mut queue = TaskQueue::new(2, 3);
    for i in 0..3 {
        let id = queue.enqueue_task(format!("https://{}.example", i), TaskPriority::Normal);
        let _ = queue.dequeue_task_at(0).unwrap();
        let _ = queue.complete_task(&id, None, 0).unwrap();
    }
    queue.cleanup_old_tasks(1);
    assert_eq!(queue.get_stats().completed_tasks, 3);
}

#[test]
fn zombie_tasks_fail_with_timeout() {
    let mut queue = TaskQueue::new(2, 3);
    let id = queue.enqueue_task("https://slow.example".to_string(), TaskPriority::Normal);
    let _ = queue.dequeue_task_at(1_000).unwrap();
    assert!(queue.long_running_tasks_at(2_000, 5_000).is_empty());
    let long = queue.long_running_tasks_at(400_000, 300_000);
    assert_eq!(long, vec![(id.clone(), 399_000)]);
    let results = queue.check_for_zombie_tasks_at(400_000, 300_000);
    assert_eq!(results.len(), 1);
    assert_eq!(
        results[0].error,
        Some("Task timeout - possible network hang or infinite loop".to_string())
    );
    assert_eq!(queue.in_progress_count(), 0);
}

#[test]
fn saved_state_restores_interrupted_tasks_as_pending() {
    let mut queue = TaskQueue::new(2, 3);
    let _ = queue.enqueue_task("https://a.example".to_string(), TaskPriority::Normal);
    let _ = queue.enqueue_task("https://b.example".to_string(), TaskPriority::Normal);
    let _ = queue.dequeue_task_at(0).unwrap();
    let state = queue.get_state();
    assert_eq!(state.pending_tasks.len(), 1);
    assert_eq!(state.in_progress_tasks.len(), 1);
    let mut fresh = TaskQueue::new(2, 3);
    fresh.restore_state(state);
    assert_eq!(fresh.pending_count(), 2);
    assert_eq!(fresh.get_stats().pending_tasks, 2);
    assert_eq!(fresh.get_stats().in_progress_tasks, 0);
}
