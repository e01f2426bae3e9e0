use minits::handle::Handle;
use minits::panic::{fmt_panic, PanicPayload, TaskPanicInfo, TaskPanics};

#[test]
fn formats_single_panic() {
    let info = TaskPanicInfo::new(PanicPayload::Message("foo".to_owned()), Some("Task 0".to_owned()), None);
    assert_eq!(info.to_string(), "\ttask `Task 0` (scope `<unnamed>`) panicked: \"foo\"");
    let panics = TaskPanics::new(vec![info]);
    assert_eq!(panics.to_string(), "task `Task 0` (scope `<unnamed>`) panicked: \"foo\"");
}

#[test]
fn formats_nested_panics() {
    let inner = TaskPanics::new(vec![
        TaskPanicInfo::new(PanicPayload::Message("foo".to_owned()), None, Some("Panicking task scope".to_owned())),
        TaskPanicInfo::new(PanicPayload::Other, Some("b".to_owned()), Some("s".to_owned())),
    ]);
    let outer = TaskPanics::new(vec![TaskPanicInfo::new(
        PanicPayload::Panics(inner),
        Some("Nested task".to_owned()),
        Some("My task scope".to_owned()),
    )]);
    assert_eq!(
        outer.to_string(),
        "task `Nested task` (scope `My task scope`) panicked:\n\ttask `<unnamed>` (scope `Panicking task scope`) panicked: \"foo\"\ttask `b` (scope `s`) panicked"
    );
}

#[test]
fn payload_formatting() {
    assert_eq!(fmt_panic(&PanicPayload::Other, 3), "");
    assert_eq!(fmt_panic(&PanicPayload::Message("m".to_owned()), 0), ": \"m\"");
}

#[test]
fn iterating_panics() {
    let panics = TaskPanics::new(vec![
        TaskPanicInfo::new(PanicPayload::Other, Some("a".to_owned()), None),
        TaskPanicInfo::new(PanicPayload::Other, Some("b".to_owned()), None),
    ]);
    let names: Vec<_> = panics.iter().into_iter().map(|p| p.task.clone().unwrap()).collect();
    assert_eq!(names, vec!["a".to_owned(), "b".to_owned()]);
    let mut it = panics.into_iter();
    assert_eq!(it.next().unwrap().task.unwrap(), "a");
    assert_eq!(it.next().unwrap().task.unwrap(), "b");
    assert!(it.next().is_none());
}

#[test]
fn handle_reports_panics_most_recent_first() {
    let mut h = Handle::new();
    assert!(h.take_panics().is_none());
    h.add_panic(PanicPayload::Message("first".to_owned()), Some("t1".to_owned()), Some("s".to_owned()));
    h.add_panic(PanicPayload::Message("second".to_owned()), Some("t2".to_owned()), Some("s".to_owned()));
    let panics = h.take_panics().unwrap();
    let names: Vec<_> = panics.iter().into_iter().map(|p| p.task.clone().unwrap()).collect();
    assert_eq!(names, vec!["t2".to_owned(), "t1".to_owned()]);
    assert!(h.take_panics().is_none());
}
