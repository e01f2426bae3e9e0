use minits::task::Task;

#[test]
fn task_names_and_closure() {
    let mut t = Task::new(5u32, "closure", false, Some("Task 0".to_owned()), Some("Scope 0".to_owned()));
    assert_eq!(t.task_name(), Some("Task 0"));
    assert_eq!(t.scope_name(), Some("Scope 0"));
    assert_eq!(t.task_name_or_unnamed(), "Task 0");
    assert_eq!(t.scope_name_or_unnamed(), "Scope 0");
    assert_eq!(*t.handle(), 5);
    assert!(!t.main_thread());
    assert!(!t.is_none());
    assert_eq!(t.take_task(), "closure");
    assert!(t.is_none());
    assert_eq!(t.take_task_name(), Some("Task 0".to_owned()));
    assert_eq!(t.task_name(), None);
}

#[test]
fn unnamed_task() {
    let t = Task::new((), 0u8, true, None, None);
    assert!(t.main_thread());
    assert_eq!(t.task_name(), None);
    assert_eq!(t.scope_name(), None);
    assert_eq!(t.task_name_or_unnamed(), "<unnamed>");
    assert_eq!(t.scope_name_or_unnamed(), "<unnamed>");
}
