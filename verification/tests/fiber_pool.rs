use minits::fiber_pool::{FiberPool, GetFiber};

#[test]
fn fibers_handed_out_last_first() {
    let mut p = FiberPool::new();
    p.initialize(vec!["Worker fiber 0", "Worker fiber 1"]);
    assert_eq!(p.get_fiber(false), GetFiber::Fiber("Worker fiber 1"));
    assert_eq!(p.get_fiber(false), GetFiber::Fiber("Worker fiber 0"));
    assert_eq!(p.get_fiber(false), GetFiber::Nothing);
    assert_eq!(p.get_fiber(true), GetFiber::Wait);
}

#[test]
fn freeing_wakes_a_waiter() {
    let mut p = FiberPool::new();
    p.initialize(vec![1u8]);
    assert_eq!(p.get_fiber(true), GetFiber::Fiber(1));
    p.inc_num_waiters();
    assert!(p.free_fiber(1));
    p.dec_num_waiters();
    assert_eq!(p.get_fiber(true), GetFiber::Fiber(1));
    assert!(!p.free_fiber(1));
}
