use minits::closure_holder::{closure_storage_size, ClosureHolder, CLOSURE_HOLDER_SIZE};
use std::cell::Cell;

#[test]
fn closure_holder_empty() {
    let mut h: ClosureHolder<fn(&usize)> = ClosureHolder::empty();
    let arg = 7usize;

    assert!(!h.is_some());

    assert!(!h.try_execute(&arg));
}

/// A holder of type-erased closures, so that closures of different types can be stored in turn.
type BoxedHolder = ClosureHolder<Box<dyn FnOnce(&usize)>>;

#[test]
fn basic() {
    // Move closure.
    let x = 7;
    let mut y = 0;

    let mut h: BoxedHolder = ClosureHolder::new(Box::new(move |_arg: &usize| {
        y = x + 24;
        assert_eq!(x, 7);
        assert_eq!(y, 7 + 24);
    }));

    let arg = 7usize;

    assert!(h.is_some());

    h.execute(&arg);

    assert!(!h.is_some());

    assert!(!h.try_execute(&arg));

    assert_eq!(x, 7);
    assert_eq!(y, 0);

    h.store(Box::new(move |_arg: &usize| {
        y = x + 9;
        assert_eq!(x, 7);
        assert_eq!(y, 7 + 9);
    }));

    assert!(h.is_some());

    h.execute(&arg);

    assert!(!h.is_some());

    assert!(!h.try_execute(&arg));

    assert_eq!(x, 7);
    assert_eq!(y, 0);

    // Static closure.
    static HELLO: &'static str = "Hello";
    static FORTY_TWO: usize = 42;

    let mut g: BoxedHolder = ClosureHolder::new(Box::new(|_arg: &usize| {
        println!("{} {}", HELLO, FORTY_TWO);
    }));

    assert!(g.is_some());

    g.execute(&arg);

    assert!(!g.is_some());

    assert!(!g.try_execute(&arg));

    g.store(Box::new(|_arg: &usize| {
        println!("{} {}", "Hello", 42);
    }));

    assert!(g.is_some());

    g.execute(&arg);

    assert!(!g.is_some());

    assert!(!g.try_execute(&arg));
}

#[test]
fn storage_overflow() {
    let large_capture = [0u8; CLOSURE_HOLDER_SIZE];

    let _h = ClosureHolder::new(move |_arg: &usize| println!("{}", large_capture.len()));
}

#[test]
fn storage_size_is_holder_size_less_a_pointer() {
    assert_eq!(
        closure_storage_size(),
        CLOSURE_HOLDER_SIZE - std::mem::size_of::<fn()>()
    );
}

#[test]
fn executes_once_with_argument() {
    let seen = Cell::new(0usize);
    let mut h = ClosureHolder::new(|arg: &usize| seen.set(*arg + 24));

    assert!(h.is_some());
    h.execute(&7);
    assert_eq!(seen.get(), 31);
    assert!(!h.is_some());

    assert!(!h.try_execute(&9));
    assert_eq!(seen.get(), 31);
}

#[test]
fn store_into_emptied_holder() {
    let seen = Cell::new(0usize);
    let mut h = ClosureHolder::empty();
    h.store(|arg: &usize| seen.set(*arg * 2));
    assert!(h.is_some());
    assert!(h.try_execute(&21));
    assert_eq!(seen.get(), 42);
    assert!(!h.is_some());
}

#[test]
fn large_closure_executes() {
    let large_capture = [3u8; CLOSURE_HOLDER_SIZE];
    let seen = Cell::new(0usize);
    let mut h = ClosureHolder::new(move |arg: &usize| {
        seen.set(large_capture.iter().map(|b| *b as usize).sum::<usize>() + *arg)
    });
    assert!(h.try_execute(&1));
}
