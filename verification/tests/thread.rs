use minits::thread::Thread;
use std::cell::Cell;

#[test]
fn thread_context_lifecycle() {
    let mut t: Thread<&str, u32, fn(u32)> = Thread::new(Some("Worker thread 0".to_owned()), 1, None);
    assert_eq!(t.index(), 1);
    assert_eq!(t.name_or_unnamed(), "Worker thread 0");
    assert!(!t.has_current_fiber());
    t.set_thread_fiber(100);
    t.set_fiber(7);
    assert!(t.has_current_fiber());
    assert_eq!(*t.current_fiber(), 7);
    t.set_task("task");
    assert_eq!(*t.task(), "task");
    let tf = t.take_task_and_fiber();
    assert_eq!(tf.task, "task");
    assert_eq!(tf.fiber, 7);
    assert!(!t.has_current_fiber());
    t.set_yield_key(42);
    assert_eq!(t.take_yield_key(), Some(42));
    assert_eq!(t.take_yield_key(), None);
    assert_eq!(t.take_thread_fiber(), 100);
}

#[test]
fn free_fiber_marks_current_fiber() {
    let mut t: Thread<u8, u32, fn(u32)> = Thread::new(None, 0, None);
    assert_eq!(t.name_or_unnamed(), "<unnamed>");
    t.set_fiber(3);
    t.free_fiber();
    assert!(!t.has_current_fiber());
    assert_eq!(t.take_fiber_to_free(), Some(3));
    assert_eq!(t.take_fiber_to_free(), None);
    t.set_fiber(4);
    assert_eq!(t.take_fiber(), 4);
    t.set_task(9);
    assert_eq!(t.take_task(), 9);
}

#[test]
fn thread_fini_runs_once_with_index() {
    let seen = Cell::new(0u32);
    let calls = Cell::new(0u32);
    let fini = |index: u32| {
        seen.set(index);
        calls.set(calls.get() + 1);
    };
    let mut t: Thread<(), (), _> = Thread::new(None, 3, Some(fini));
    t.execute_thread_fini();
    t.execute_thread_fini();
    assert_eq!(seen.get(), 3);
    assert_eq!(calls.get(), 1);
}
