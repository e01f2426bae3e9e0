use minits::yield_queue::YieldQueue;

#[test]
fn resume_marks_ready_then_returns() {
    let mut q = YieldQueue::new();
    q.yield_task("a", 100);
    assert_eq!(q.try_resume_task(100), None);
    assert_eq!(q.try_resume_task(100), Some("a"));
    assert_eq!(q.try_resume_task(100), None);
}

#[test]
fn resume_absent_key_does_nothing() {
    let mut q = YieldQueue::new();
    assert_eq!(q.try_resume_task(5), None);
    q.yield_task(1u32, 10);
    assert_eq!(q.try_resume_task(5), None);
    assert_eq!(q.try_resume_task(10), None);
    assert_eq!(q.try_resume_task(10), Some(1));
}

#[test]
fn several_keys_independent() {
    let mut q = YieldQueue::new();
    q.yield_task('a', 1);
    q.yield_task('b', 2);
    q.yield_task('c', 3);
    assert_eq!(q.try_resume_task(1), None);
    assert_eq!(q.try_resume_task(3), None);
    assert_eq!(q.try_resume_task(1), Some('a'));
    assert_eq!(q.try_resume_task(3), Some('c'));
    assert_eq!(q.try_resume_task(2), None);
    assert_eq!(q.try_resume_task(2), Some('b'));
    // The key may be reused once its task was resumed.
    q.yield_task('d', 1);
    assert_eq!(q.try_resume_task(1), None);
    assert_eq!(q.try_resume_task(1), Some('d'));
}
