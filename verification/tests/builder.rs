use minits::builder::{TaskSystemBuilder, TaskSystemParams, SCHEDULER_STACK_SIZE};
use minits::profiler::Profiler;
use std::sync::atomic::{AtomicU32, Ordering};
use std::sync::Arc;

type Builder = TaskSystemBuilder<fn(u32), fn(u32)>;

struct CountingProfiler(Arc<AtomicU32>);

impl Profiler for CountingProfiler {
    fn init_thread(&self, _thread_name: &str) {
        self.0.fetch_add(1, Ordering::SeqCst);
    }
    fn begin_scope(&self, _name: Option<&str>) {}
    fn end_scope(&self) {}
}

#[test]
fn default_builder_for_cores() {
    let b = Builder::new(4);
    assert_eq!(b.get_num_worker_threads(), 3);
    assert_eq!(b.get_num_fibers(), 16);
    assert!(b.get_allow_inline_tasks());
    assert_eq!(b.get_fiber_stack_size(), 1024 * 1024);

    // At least one core is assumed.
    let b = Builder::new(0);
    assert_eq!(b.get_num_worker_threads(), 0);
    assert_eq!(b.get_num_fibers(), 4);
}

#[test]
fn setters_and_build_params() {
    let b = Builder::new(8)
        .num_worker_threads(3)
        .num_fibers(32)
        .allow_inline_tasks(true)
        .fiber_stack_size(1024 * 1024);
    assert_eq!(
        b.build_params(),
        TaskSystemParams {
            num_worker_threads: 3,
            num_threads: 4,
            num_fibers: 32,
            fiber_stack_size: 1024 * 1024,
            worker_stack_size: 1024 * 1024,
            allow_inline_tasks: true,
        }
    );

    let b = b.allow_inline_tasks(false);
    assert_eq!(b.build_params().worker_stack_size, SCHEDULER_STACK_SIZE);

    // No fibers: no pool, tasks run on the worker thread stacks.
    let b = b.num_fibers(0);
    let p = b.build_params();
    assert_eq!(p.num_fibers, 0);
    assert_eq!(p.worker_stack_size, 1024 * 1024);
}

#[test]
fn callbacks_and_profiler_are_kept() {
    let inits = Arc::new(AtomicU32::new(0));
    let inits_clone = inits.clone();
    let calls = Arc::new(AtomicU32::new(0));
    let b = Builder::new(2)
        .num_worker_threads(3)
        .thread_init(move |index: u32| {
            assert!((1..=3).contains(&index));
            inits_clone.fetch_add(1, Ordering::SeqCst);
        })
        .thread_fini(|_index: u32| {})
        .profiler(Box::new(CountingProfiler(calls.clone())));
    let (params, init, fini, profiler) = b.into_parts();
    assert_eq!(params.num_worker_threads, 3);
    let init = init.unwrap();
    for i in 1..=params.num_worker_threads {
        init(i);
    }
    fini.unwrap()(1);
    assert_eq!(inits.load(Ordering::SeqCst), 3);
    profiler.unwrap().init_thread("Main thread");
    assert_eq!(calls.load(Ordering::SeqCst), 1);
}

#[test]
fn later_profiler_replaces_earlier_one() {
    let first = Arc::new(AtomicU32::new(0));
    let second = Arc::new(AtomicU32::new(0));
    let b = Builder::new(1)
        .profiler(Box::new(CountingProfiler(first.clone())))
        .profiler(Box::new(CountingProfiler(second.clone())));
    let (_, _, _, profiler) = b.into_parts();
    profiler.unwrap().init_thread("Main thread");
    assert_eq!(first.load(Ordering::SeqCst), 0);
    assert_eq!(second.load(Ordering::SeqCst), 1);
}
