use minits::handle::{Handle, TaskHandle};
use minits::panic::PanicPayload;

#[test]
fn handle_counts_tasks() {
    let mut h = Handle::new();
    assert!(h.is_complete());
    h.inc();
    h.inc();
    assert!(!h.is_complete());
    assert_eq!(h.load(), 2);
    assert_eq!(h.dec(), 1);
    assert!(!h.is_complete());
    assert_eq!(h.dec(), 0);
    assert!(h.is_complete());
}

#[test]
fn task_handle_counts_tasks() {
    let mut h = TaskHandle::new();
    assert!(h.is_complete());
    for _ in 0..10 {
        h.inc();
    }
    assert_eq!(h.load(), 10);
    for i in (0..10).rev() {
        assert_eq!(h.dec(), i);
    }
    assert!(h.is_complete());
}

#[test]
fn wait_result_reports_panics() {
    let mut h = Handle::new();
    assert!(h.take_result().is_ok());
    h.add_panic(PanicPayload::Message("foo".to_owned()), None, None);
    match h.take_result() {
        Err(panics) => assert_eq!(panics.iter().len(), 1),
        Ok(()) => panic!("expected the panic"),
    }
    assert!(h.take_result().is_ok());
}
