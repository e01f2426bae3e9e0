use minits::scheduler::{
    switch_to_fiber, switch_to_resumed_task, FiberToSwitchTo, GetFiberToSwitchTo, ReturnedFiberWakeUp,
    Scheduler, YieldStep,
};
use minits::task::Task;
use minits::task_queue::{GetTask, NewOrResumedTask, WakeUp};
use minits::thread::Thread;

type T = Task<&'static str, u32>;
type Th = Thread<T, &'static str, fn(u32)>;

fn task(name: &'static str, main_thread: bool) -> T {
    Task::new(0, name, main_thread, Some(name.to_owned()), None)
}

#[test]
fn yielded_task_resumed_after_both_events() {
    let mut s: Scheduler<&'static str, u32, &'static str> = Scheduler::new(true);
    s.init_fiber_pool(vec!["fiber 0", "fiber 1"]);

    // A worker thread runs task "a" on fiber "main".
    let mut t: Th = Thread::new(None, 1, None);
    t.set_fiber("main");
    t.set_task(task("a", false));

    // It waits for a dependency: gets a free fiber to switch to.
    let fiber = match s.try_get_fiber_to_switch_to(false) {
        GetFiberToSwitchTo::Fiber(f) => f,
        _ => panic!("expected a free fiber"),
    };
    assert!(matches!(fiber, FiberToSwitchTo::Free("fiber 1")));

    // The dependency is incomplete: the task yields.
    assert!(!s.try_yield_current_task(&mut t, false, 77));
    switch_to_fiber(&mut t, fiber);
    assert_eq!(*t.current_fiber(), "fiber 1");

    // The dependency completes first: only marks the task ready.
    assert_eq!(s.finish_task(true, 77, false), WakeUp::Nobody);
    assert!(s.task_queue.try_get_resumed_task(true).is_none());

    // The new fiber cleans up after the yielded one: now the task is resumed.
    let (wake_pool, wake_up) = s.cleanup_previous_fiber(&mut t, false);
    assert!(!wake_pool);
    assert_eq!(wake_up, WakeUp::MainThread);
    let resumed = s.task_queue.try_get_resumed_task(false).expect("resumed task");
    assert_eq!(resumed.fiber, "main");
    assert_eq!(resumed.task.task_name(), Some("a"));
}

#[test]
fn complete_dependency_does_not_yield() {
    let mut s: Scheduler<&'static str, u32, &'static str> = Scheduler::new(true);
    s.init_fiber_pool(vec!["fiber 0"]);
    let mut t: Th = Thread::new(None, 0, None);
    t.set_fiber("main");
    t.set_task(task("main", true));
    let fiber = match s.try_get_fiber_to_switch_to(true) {
        GetFiberToSwitchTo::Fiber(f) => f,
        _ => panic!("expected a free fiber"),
    };
    assert!(s.try_yield_current_task(&mut t, true, 5));
    assert_eq!(s.return_fiber_to_switch_to(fiber, true), ReturnedFiberWakeUp::FiberPool(false));
    assert!(t.has_current_fiber());
    // The fiber is back in the pool.
    assert!(matches!(
        s.try_get_fiber_to_switch_to(true),
        GetFiberToSwitchTo::Fiber(FiberToSwitchTo::Free("fiber 0"))
    ));
}

#[test]
fn yield_steps() {
    // Fibers used, pool exhausted, inline tasks allowed.
    let mut s: Scheduler<&'static str, u32, &'static str> = Scheduler::new(true);
    s.init_fiber_pool(vec!["fiber 0"]);
    assert!(matches!(s.yield_step(true, false), YieldStep::SwitchTo(FiberToSwitchTo::Free("fiber 0"))));
    assert!(matches!(s.yield_step(true, false), YieldStep::Spin));
    s.add_new_task(task("b", false), false);
    match s.yield_step(true, false) {
        YieldStep::ExecuteInline(t) => assert_eq!(t.task_name(), Some("b")),
        _ => panic!("expected inline execution"),
    }

    // Inline tasks not allowed: wait for a fiber.
    let mut s: Scheduler<&'static str, u32, &'static str> = Scheduler::new(false);
    s.init_fiber_pool(vec!["fiber 0"]);
    assert!(matches!(s.yield_step(true, true), YieldStep::SwitchTo(FiberToSwitchTo::Free(_))));
    assert!(matches!(s.yield_step(true, true), YieldStep::Wait));

    // No fibers at all: execute tasks inline, waiting for them.
    let mut s: Scheduler<&'static str, u32, &'static str> = Scheduler::new(true);
    assert!(matches!(s.yield_step(false, true), YieldStep::Wait));
    s.add_new_task(task("c", true), true);
    assert!(matches!(s.yield_step(false, true), YieldStep::ExecuteInline(_)));
}

#[test]
fn scheduler_picks_up_resumed_task() {
    let mut s: Scheduler<&'static str, u32, &'static str> = Scheduler::new(true);
    s.init_fiber_pool(vec!["fiber 0"]);
    let mut t: Th = Thread::new(None, 2, None);
    t.set_fiber("scheduler fiber");
    s.task_queue.add_resumed_task(
        minits::thread::TaskAndFiber { task: task("d", false), fiber: "d fiber" },
        false,
        false,
    );
    match s.task_queue.get_task(false, true) {
        GetTask::Task(NewOrResumedTask::Resumed(tf)) => switch_to_resumed_task(&mut t, tf),
        _ => panic!("expected a resumed task"),
    }
    assert_eq!(*t.current_fiber(), "d fiber");
    assert_eq!(t.task().task_name(), Some("d"));
    // The scheduler fiber is freed by the resumed one.
    let (wake_pool, _) = s.cleanup_previous_fiber(&mut t, false);
    assert!(!wake_pool);
    assert!(matches!(
        s.try_get_fiber_to_switch_to(false),
        GetFiberToSwitchTo::Fiber(FiberToSwitchTo::Free("scheduler fiber"))
    ));
}

#[test]
fn finish_without_fibers_resumes_nothing() {
    let mut s: Scheduler<&'static str, u32, &'static str> = Scheduler::new(true);
    assert_eq!(s.finish_task(true, 1, true), WakeUp::Nobody);
}
