//! The task system's scheduling decisions: which fiber a yielding task switches to, when a
//! yielded task is resumed, and what is left for the next fiber to clean up.
//!
//! The [`Scheduler`] holds the shared scheduling state (task queues, yield queue, fiber pool)
//! that the task system keeps behind a lock; each thread passes in its own [`Thread`] state.
//! Switching fibers, executing task closures and waking threads up is done by the caller,
//! as the returned values direct.

use vstd::prelude::*;
use crate::fiber_pool::{FiberPool, FiberPoolView, GetFiber};
use crate::task::Task;
use crate::task_queue::{
    spec_queue_add_task, spec_queue_get_task, GetTask, LockedTaskQueueView, NewOrResumedTask,
    TaskQueue, TaskQueueView, WakeUp,
};
use crate::thread::{TaskAndFiber, Thread, ThreadView};
use crate::yield_queue::{
    lemma_yield_then_resume_twice, spec_try_resume_task, spec_yield_task, yield_queue_wf, YieldKey,
    YieldQueue, YieldQueueView,
};

verus! {

/// A yielded task of the task system, with its fiber.
pub type YieldedTask<C, H, F> = TaskAndFiber<Task<C, H>, F>;

/// The fiber a yielding thread switches to.
pub enum FiberToSwitchTo<C, H, F> {
    /// A previously yielded, now resumed task and its fiber.
    Resumed(YieldedTask<C, H, F>),
    /// A free worker fiber from the fiber pool.
    Free(F),
}

/// What looking for a fiber to switch to resulted in.
pub enum GetFiberToSwitchTo<C, H, F> {
    /// A resumed task or a free fiber to switch to.
    Fiber(FiberToSwitchTo<C, H, F>),
    /// Neither (inline task execution is allowed).
    Nothing,
    /// Neither; the caller must wait for a free fiber and try again
    /// (inline task execution is not allowed).
    Wait,
}

/// Whom the caller must wake up after returning a fiber it did not switch to.
#[derive(Debug, Clone, Copy, PartialEq, Eq)]
pub enum ReturnedFiberWakeUp {
    /// A thread waiting on the task queues, as [`WakeUp`] says.
    TaskQueue(WakeUp),
    /// A thread waiting for a free fiber, if `true`.
    FiberPool(bool),
}

/// The next step of a thread that waits for a dependency (a task handle or an IO operation)
/// to complete.
pub enum YieldStep<C, H, F> {
    /// Yield the current task and switch to this fiber, unless the dependency completed.
    SwitchTo(FiberToSwitchTo<C, H, F>),
    /// Execute this new task inline, then check the dependency again.
    ExecuteInline(Task<C, H>),
    /// Wait (for a free fiber if the thread runs a fiber, else for a task), then try again.
    Wait,
    /// Nothing to do right now: let other threads run, then try again.
    Spin,
}

/// The mathematical content of a [`Scheduler`].
pub struct SchedulerView<C, H, F> {
    pub task_queue: TaskQueueView<Task<C, H>, YieldedTask<C, H, F>>,
    pub yield_queue: YieldQueueView<YieldedTask<C, H, F>>,
    pub fiber_pool: FiberPoolView<F>,
    pub use_fiber_pool: bool,
    pub allow_inline_tasks: bool,
}

/// The shared scheduling state of the task system.
pub struct Scheduler<C, H, F> {
    /// New and resumed tasks ready to run.
    pub task_queue: TaskQueue<Task<C, H>, YieldedTask<C, H, F>>,
    /// Yielded tasks waiting for their dependency.
    pub yield_queue: YieldQueue<YieldedTask<C, H, F>>,
    /// Free worker fibers.
    pub fiber_pool: FiberPool<F>,
    /// `true` if the fiber pool was initialized with fibers: tasks run on fibers and yield.
    pub use_fiber_pool: bool,
    /// `true` if tasks may run inline on the thread stacks when no fiber is available.
    pub allow_inline_tasks: bool,
}

impl<C, H, F> View for Scheduler<C, H, F> {
    type V = SchedulerView<C, H, F>;

    open spec fn view(&self) -> SchedulerView<C, H, F> {
        SchedulerView {
            task_queue: self.task_queue@,
            yield_queue: self.yield_queue@,
            fiber_pool: self.fiber_pool@,
            use_fiber_pool: self.use_fiber_pool,
            allow_inline_tasks: self.allow_inline_tasks,
        }
    }
}

/// The scheduler after trying to resume the task yielded with `key`, and whom to wake up:
/// a task found ready is removed from the yield queue and added to the resumed tasks.
pub open spec fn spec_sched_try_resume_task<C, H, F>(
    v: SchedulerView<C, H, F>,
    key: YieldKey,
    main_thread: bool,
) -> (SchedulerView<C, H, F>, WakeUp) {
    let (yq, task) = spec_try_resume_task(v.yield_queue, key);
    match task {
        Some(tf) => {
            let (tq, wake_up) = spec_queue_add_task(
                v.task_queue, NewOrResumedTask::Resumed(tf), tf.task@.main_thread, main_thread);
            (SchedulerView { task_queue: tq, yield_queue: yq, ..v }, wake_up)
        },
        None => (SchedulerView { yield_queue: yq, ..v }, WakeUp::Nobody),
    }
}

/// The scheduler after a yielding thread looks for a fiber to switch to, and the result:
/// a resumed task first (for the "main" thread, from its own queue first), else a free fiber.
/// Finding neither, the caller waits for a free fiber unless inline task execution is allowed.
pub open spec fn spec_try_get_fiber_to_switch_to<C, H, F>(
    v: SchedulerView<C, H, F>,
    main_thread: bool,
) -> (SchedulerView<C, H, F>, GetFiberToSwitchTo<C, H, F>) {
    let tq = v.task_queue;
    if main_thread && tq.main_queue.resumed.len() > 0 {
        (
            SchedulerView {
                task_queue: TaskQueueView {
                    main_queue: LockedTaskQueueView { resumed: tq.main_queue.resumed.drop_first(), ..tq.main_queue },
                    ..tq
                },
                ..v
            },
            GetFiberToSwitchTo::Fiber(FiberToSwitchTo::Resumed(tq.main_queue.resumed[0])),
        )
    } else if tq.worker_queue.resumed.len() > 0 {
        (
            SchedulerView {
                task_queue: TaskQueueView {
                    worker_queue: LockedTaskQueueView { resumed: tq.worker_queue.resumed.drop_first(), ..tq.worker_queue },
                    ..tq
                },
                ..v
            },
            GetFiberToSwitchTo::Fiber(FiberToSwitchTo::Resumed(tq.worker_queue.resumed[0])),
        )
    } else if v.fiber_pool.pool.len() > 0 {
        (
            SchedulerView { fiber_pool: FiberPoolView { pool: v.fiber_pool.pool.drop_last(), ..v.fiber_pool }, ..v },
            GetFiberToSwitchTo::Fiber(FiberToSwitchTo::Free(v.fiber_pool.pool.last())),
        )
    } else {
        (v, if v.allow_inline_tasks { GetFiberToSwitchTo::Nothing } else { GetFiberToSwitchTo::Wait })
    }
}

/// The scheduler after a thread waiting for a dependency takes its next step, and the step;
/// the thread runs a fiber (`has_fiber`) or not.
///
/// With a fiber: switch to a resumed task or a free fiber; failing that, wait for a free fiber
/// if inline execution is not allowed; else execute a new task inline, else spin.
/// Without a fiber: execute new tasks inline, waiting for them.
pub open spec fn spec_yield_step<C, H, F>(
    v: SchedulerView<C, H, F>,
    has_fiber: bool,
    main_thread: bool,
) -> (SchedulerView<C, H, F>, YieldStep<C, H, F>) {
    if has_fiber {
        let (v1, got) = spec_try_get_fiber_to_switch_to(v, main_thread);
        match got {
            GetFiberToSwitchTo::Fiber(f) => (v1, YieldStep::SwitchTo(f)),
            GetFiberToSwitchTo::Wait => (v1, YieldStep::Wait),
            GetFiberToSwitchTo::Nothing => {
                let (tq, r) = spec_queue_get_task(v1.task_queue, main_thread, false);
                (
                    SchedulerView { task_queue: tq, ..v1 },
                    match r {
                        GetTask::Task(NewOrResumedTask::New(t)) => YieldStep::ExecuteInline(t),
                        GetTask::Task(NewOrResumedTask::Resumed(tf)) => YieldStep::SwitchTo(FiberToSwitchTo::Resumed(tf)),
                        _ => YieldStep::Spin,
                    },
                )
            },
        }
    } else {
        let (tq, r) = spec_queue_get_task(v.task_queue, main_thread, true);
        (
            SchedulerView { task_queue: tq, ..v },
            match r {
                GetTask::Task(NewOrResumedTask::New(t)) => YieldStep::ExecuteInline(t),
                GetTask::Task(NewOrResumedTask::Resumed(tf)) => YieldStep::SwitchTo(FiberToSwitchTo::Resumed(tf)),
                _ => YieldStep::Wait,
            },
        )
    }
}

impl<C, H, F> Scheduler<C, H, F> {
    /// The scheduling state is well formed: its yield queue is.
    pub open spec fn wf(&self) -> bool {
        self.yield_queue.wf()
    }

    /// Creates the scheduling state of a task system which does not use fibers (yet).
    pub fn new(allow_inline_tasks: bool) -> (s: Self)
        ensures
            s.wf(),
            s@.task_queue.main_queue == (LockedTaskQueueView::<Task<C, H>, YieldedTask<C, H, F>> {
                new: seq![], resumed: seq![], num_waiters: 0, exit: false }),
            s@.task_queue.worker_queue == (LockedTaskQueueView::<Task<C, H>, YieldedTask<C, H, F>> {
                new: seq![], resumed: seq![], num_waiters: 0, exit: false }),
            s@.yield_queue.tasks.len() == 0,
            s@.fiber_pool.pool.len() == 0,
            s@.fiber_pool.num_waiters == 0,
            !s@.use_fiber_pool,
            s@.allow_inline_tasks == allow_inline_tasks,
    {
        Scheduler {
            task_queue: TaskQueue::new(),
            yield_queue: YieldQueue::new(),
            fiber_pool: FiberPool::new(),
            use_fiber_pool: false,
            allow_inline_tasks,
        }
    }

    /// Fills the empty fiber pool with the (at least one) newly allocated `fibers`;
    /// from now on tasks run on fibers.
    pub fn init_fiber_pool(&mut self, fibers: Vec<F>)
        requires
            old(self).wf(),
            old(self)@.fiber_pool.pool.len() == 0,
            fibers@.len() > 0,
        ensures
            final(self).wf(),
            final(self)@ == (SchedulerView {
                fiber_pool: FiberPoolView { pool: fibers@, ..old(self)@.fiber_pool },
                use_fiber_pool: true,
                ..old(self)@
            }),
    {
        self.fiber_pool.initialize(fibers);
        self.use_fiber_pool = true;
    }

    /// Adds a newly submitted task; `main_thread` is `true` if called from the "main" thread.
    pub fn add_new_task(&mut self, task: Task<C, H>, main_thread: bool) -> (wake_up: WakeUp)
        requires
            old(self).wf(),
        ensures
            final(self).wf(),
            (final(self)@.task_queue, wake_up) == spec_queue_add_task(
                old(self)@.task_queue, NewOrResumedTask::New(task), task@.main_thread, main_thread),
            final(self)@ == (SchedulerView { task_queue: final(self)@.task_queue, ..old(self)@ }),
    {
        let task_main_thread: bool = task.main_thread();
        self.task_queue.add_new_task(task, task_main_thread, main_thread)
    }

    /// Makes `Ready` the task yielded with `key`; if it already is, moves it from the
    /// yield queue to the resumed tasks.
    pub fn try_resume_task(&mut self, key: YieldKey, main_thread: bool) -> (wake_up: WakeUp)
        requires
            old(self).wf(),
        ensures
            final(self).wf(),
            (final(self)@, wake_up) == spec_sched_try_resume_task(old(self)@, key, main_thread),
    {
        match self.yield_queue.try_resume_task(key) {
            Some(task) => {
                let task_main_thread: bool = task.task.main_thread();
                self.task_queue.add_resumed_task(task, task_main_thread, main_thread)
            },
            None => WakeUp::Nobody,
        }
    }

    /// Called after a task finished and its handle was decremented; `finished` is `true` if
    /// it was the handle's last task, `key` is the handle's yield key.
    /// A task waiting for the handle is then resumed (or made ready to be resumed).
    pub fn finish_task(&mut self, finished: bool, key: YieldKey, main_thread: bool) -> (wake_up: WakeUp)
        requires
            old(self).wf(),
        ensures
            final(self).wf(),
            finished && old(self)@.use_fiber_pool ==>
                (final(self)@, wake_up) == spec_sched_try_resume_task(old(self)@, key, main_thread),
            !(finished && old(self)@.use_fiber_pool) ==> final(self)@ == old(self)@ && wake_up == WakeUp::Nobody,
    {
        if finished && self.use_fiber_pool {
            self.try_resume_task(key, main_thread)
        } else {
            WakeUp::Nobody
        }
    }

    /// Looks for a fiber for a yielding thread to switch to; see [`spec_try_get_fiber_to_switch_to`].
    pub fn try_get_fiber_to_switch_to(&mut self, main_thread: bool) -> (res: GetFiberToSwitchTo<C, H, F>)
        requires
            old(self).wf(),
        ensures
            final(self).wf(),
            (final(self)@, res) == spec_try_get_fiber_to_switch_to(old(self)@, main_thread),
    {
        if let Some(task) = self.task_queue.try_get_resumed_task(main_thread) {
            return GetFiberToSwitchTo::Fiber(FiberToSwitchTo::Resumed(task));
        }
        let wait: bool = !self.allow_inline_tasks;
        match self.fiber_pool.get_fiber(wait) {
            GetFiber::Fiber(fiber) => GetFiberToSwitchTo::Fiber(FiberToSwitchTo::Free(fiber)),
            GetFiber::Nothing => GetFiberToSwitchTo::Nothing,
            GetFiber::Wait => GetFiberToSwitchTo::Wait,
        }
    }

    /// Returns `true` if the yield dependency is complete (`is_complete`, checked by the caller
    /// under the same lock) and there's no need to yield the current task.
    /// Otherwise takes the thread's current task and fiber, adds them to the yield queue with
    /// `yield_key` (`NotReady`), records the key in the thread, and returns `false`.
    pub fn try_yield_current_task<CB>(
        &mut self,
        thread: &mut Thread<Task<C, H>, F, CB>,
        is_complete: bool,
        yield_key: YieldKey,
    ) -> (complete: bool)
        requires
            old(self).wf(),
            old(thread)@.task.is_some(),
            old(thread)@.fiber.is_some(),
            old(thread)@.yield_key.is_none(),
            !old(self)@.yield_queue.keys.contains(yield_key),
        ensures
            final(self).wf(),
            complete == is_complete,
            is_complete ==> final(self)@ == old(self)@ && final(thread)@ == old(thread)@,
            !is_complete ==> {
                &&& final(self)@ == (SchedulerView {
                    yield_queue: spec_yield_task(old(self)@.yield_queue,
                        TaskAndFiber { task: old(thread)@.task.unwrap(), fiber: old(thread)@.fiber.unwrap() },
                        yield_key),
                    ..old(self)@
                })
                &&& final(thread)@ == (ThreadView { task: None, fiber: None, yield_key: Some(yield_key), ..old(thread)@ })
            },
    {
        if is_complete {
            true
        } else {
            let task = thread.take_task_and_fiber();
            self.yield_queue.yield_task(task, yield_key);
            thread.set_yield_key(yield_key);
            false
        }
    }

    /// Returns a resumed task or free fiber the thread ended up not switching to:
    /// the task back to the resumed tasks, the fiber back to the pool.
    pub fn return_fiber_to_switch_to(&mut self, fiber: FiberToSwitchTo<C, H, F>, main_thread: bool) -> (wake_up: ReturnedFiberWakeUp)
        requires
            old(self).wf(),
        ensures
            final(self).wf(),
            match fiber {
                FiberToSwitchTo::Resumed(tf) => {
                    let (tq, w) = spec_queue_add_task(old(self)@.task_queue, NewOrResumedTask::Resumed(tf), tf.task@.main_thread, main_thread);
                    &&& final(self)@ == (SchedulerView { task_queue: tq, ..old(self)@ })
                    &&& wake_up == ReturnedFiberWakeUp::TaskQueue(w)
                },
                FiberToSwitchTo::Free(f) => {
                    &&& final(self)@ == (SchedulerView {
                        fiber_pool: FiberPoolView { pool: old(self)@.fiber_pool.pool.push(f), ..old(self)@.fiber_pool },
                        ..old(self)@
                    })
                    &&& wake_up == ReturnedFiberWakeUp::FiberPool(old(self)@.fiber_pool.num_waiters > 0)
                },
            },
    {
        match fiber {
            FiberToSwitchTo::Resumed(task) => {
                let task_main_thread: bool = task.task.main_thread();
                ReturnedFiberWakeUp::TaskQueue(self.task_queue.add_resumed_task(task, task_main_thread, main_thread))
            },
            FiberToSwitchTo::Free(fiber) => ReturnedFiberWakeUp::FiberPool(self.fiber_pool.free_fiber(fiber)),
        }
    }

    /// Run by a thread at the start of a fiber it switched to: frees the fiber the thread ran
    /// before, if it was marked to be freed, and tries to resume the task that fiber yielded,
    /// if it yielded.
    ///
    /// Returns whether a thread waiting for a free fiber must be woken up, and whom to wake up
    /// on the task queues.
    pub fn cleanup_previous_fiber<CB>(
        &mut self,
        thread: &mut Thread<Task<C, H>, F, CB>,
        main_thread: bool,
    ) -> (wake_up: (bool, WakeUp))
        requires
            old(self).wf(),
        ensures
            final(self).wf(),
            final(thread)@ == (ThreadView { fiber_to_free: None, yield_key: None, ..old(thread)@ }),
            ({
                let v1 = match old(thread)@.fiber_to_free {
                    Some(f) => SchedulerView {
                        fiber_pool: FiberPoolView { pool: old(self)@.fiber_pool.pool.push(f), ..old(self)@.fiber_pool },
                        ..old(self)@
                    },
                    None => old(self)@,
                };
                &&& wake_up.0 == (old(thread)@.fiber_to_free.is_some() && old(self)@.fiber_pool.num_waiters > 0)
                &&& match old(thread)@.yield_key {
                    Some(key) => (final(self)@, wake_up.1) == spec_sched_try_resume_task(v1, key, main_thread),
                    None => final(self)@ == v1 && wake_up.1 == WakeUp::Nobody,
                }
            }),
    {
        let mut wake_pool: bool = false;
        if let Some(fiber_to_free) = thread.take_fiber_to_free() {
            wake_pool = self.fiber_pool.free_fiber(fiber_to_free);
        }
        let mut wake_up: WakeUp = WakeUp::Nobody;
        if let Some(yield_key) = thread.take_yield_key() {
            wake_up = self.try_resume_task(yield_key, main_thread);
        }
        (wake_pool, wake_up)
    }

    /// The next step of a thread waiting for a dependency; see [`spec_yield_step`].
    pub fn yield_step(&mut self, has_fiber: bool, main_thread: bool) -> (step: YieldStep<C, H, F>)
        requires
            old(self).wf(),
        ensures
            final(self).wf(),
            (final(self)@, step) == spec_yield_step(old(self)@, has_fiber, main_thread),
    {
        if has_fiber {
            match self.try_get_fiber_to_switch_to(main_thread) {
                GetFiberToSwitchTo::Fiber(fiber) => YieldStep::SwitchTo(fiber),
                GetFiberToSwitchTo::Wait => YieldStep::Wait,
                GetFiberToSwitchTo::Nothing => match self.task_queue.get_task(main_thread, false) {
                    GetTask::Task(NewOrResumedTask::New(task)) => YieldStep::ExecuteInline(task),
                    GetTask::Task(NewOrResumedTask::Resumed(task)) => YieldStep::SwitchTo(FiberToSwitchTo::Resumed(task)),
                    _ => YieldStep::Spin,
                },
            }
        } else {
            match self.task_queue.get_task(main_thread, true) {
                GetTask::Task(NewOrResumedTask::New(task)) => YieldStep::ExecuteInline(task),
                GetTask::Task(NewOrResumedTask::Resumed(task)) => YieldStep::SwitchTo(FiberToSwitchTo::Resumed(task)),
                _ => YieldStep::Wait,
            }
        }
    }
}

/// Prepares the thread to switch to `fiber`: a resumed task becomes the thread's current task
/// and its fiber the current fiber; a free fiber becomes the current fiber.
pub fn switch_to_fiber<C, H, F, CB>(thread: &mut Thread<Task<C, H>, F, CB>, fiber: FiberToSwitchTo<C, H, F>)
    requires
        old(thread)@.fiber.is_none(),
        fiber is Resumed ==> old(thread)@.task.is_none(),
    ensures
        match fiber {
            FiberToSwitchTo::Resumed(tf) => final(thread)@ == (ThreadView {
                task: Some(tf.task), fiber: Some(tf.fiber), ..old(thread)@ }),
            FiberToSwitchTo::Free(f) => final(thread)@ == (ThreadView { fiber: Some(f), ..old(thread)@ }),
        },
{
    match fiber {
        FiberToSwitchTo::Resumed(task) => {
            thread.set_task(task.task);
            thread.set_fiber(task.fiber);
        },
        FiberToSwitchTo::Free(fiber) => {
            thread.set_fiber(fiber);
        },
    }
}

/// Prepares the thread, which runs the scheduler on a fiber, to switch to a resumed task:
/// the current fiber is marked to be freed (by the resumed fiber), the resumed task and its
/// fiber become the thread's current ones.
pub fn switch_to_resumed_task<C, H, F, CB>(thread: &mut Thread<Task<C, H>, F, CB>, task: YieldedTask<C, H, F>)
    requires
        old(thread)@.fiber.is_some(),
        old(thread)@.fiber_to_free.is_none(),
        old(thread)@.task.is_none(),
    ensures
        final(thread)@ == (ThreadView {
            fiber: Some(task.fiber),
            task: Some(task.task),
            fiber_to_free: old(thread)@.fiber,
            ..old(thread)@
        }),
{
    thread.free_fiber();
    thread.set_fiber(task.fiber);
    thread.set_task(task.task);
}

/// A task which yields while its dependency is incomplete is resumed exactly once, by the
/// second of the two attempts to resume it, in whichever order they come: the one made when
/// the yielding thread has switched away (cleanup of the previous fiber) and the one made when
/// the dependency completes. The first only marks it ready; the second moves it from the
/// yield queue to the resumed tasks.
pub proof fn lemma_yielded_task_resumed_once<C, H, F>(
    v: SchedulerView<C, H, F>,
    tf: YieldedTask<C, H, F>,
    key: YieldKey,
    main_first: bool,
    main_second: bool,
)
    requires
        yield_queue_wf(v.yield_queue),
        !v.yield_queue.keys.contains(key),
    ensures
        ({
            let v1 = SchedulerView { yield_queue: spec_yield_task(v.yield_queue, tf, key), ..v };
            let (v2, w1) = spec_sched_try_resume_task(v1, key, main_first);
            let (v3, w2) = spec_sched_try_resume_task(v2, key, main_second);
            let (tq, w) = spec_queue_add_task(v.task_queue, NewOrResumedTask::Resumed(tf), tf.task@.main_thread, main_second);
            &&& v2.task_queue == v.task_queue
            &&& w1 == WakeUp::Nobody
            &&& v3.yield_queue == v.yield_queue
            &&& v3.task_queue == tq
            &&& w2 == w
        }),
{
    lemma_yield_then_resume_twice(v.yield_queue, tf, key);
}

/// No task in the worker queue may only run in the "main" thread.
pub open spec fn worker_queue_has_no_main_tasks<C, H, F>(
    tq: TaskQueueView<Task<C, H>, YieldedTask<C, H, F>>,
) -> bool {
    &&& forall|i: int| 0 <= i < tq.worker_queue.new.len() ==> !(#[trigger] tq.worker_queue.new[i])@.main_thread
    &&& forall|i: int| 0 <= i < tq.worker_queue.resumed.len() ==> !(#[trigger] tq.worker_queue.resumed[i]).task@.main_thread
}

/// A worker thread looking for a fiber to switch to never touches the "main" thread queue:
/// a resumed task it gets is the oldest resumed task of the worker queue (so, while the worker
/// queue holds no "main" thread task, never a "main" thread task); with no resumed worker task
/// it gets the last free fiber, if any.
pub proof fn lemma_worker_fiber_to_switch_to<C, H, F>(v: SchedulerView<C, H, F>)
    ensures
        ({
            let (v1, r) = spec_try_get_fiber_to_switch_to(v, false);
            &&& v1.task_queue.main_queue == v.task_queue.main_queue
            &&& r matches GetFiberToSwitchTo::Fiber(FiberToSwitchTo::Resumed(tf)) ==> {
                &&& v.task_queue.worker_queue.resumed.len() > 0
                &&& tf == v.task_queue.worker_queue.resumed[0]
                &&& worker_queue_has_no_main_tasks(v.task_queue) ==> !tf.task@.main_thread
            }
            &&& (v.task_queue.worker_queue.resumed.len() == 0 && v.fiber_pool.pool.len() > 0) ==>
                r == GetFiberToSwitchTo::<C, H, F>::Fiber(FiberToSwitchTo::Free(v.fiber_pool.pool.last()))
            &&& r matches GetFiberToSwitchTo::Fiber(FiberToSwitchTo::Resumed(_)) ==> v1.fiber_pool == v.fiber_pool
            &&& !(r is Fiber) ==> {
                &&& v.task_queue.worker_queue.resumed.len() == 0
                &&& v.fiber_pool.pool.len() == 0
                &&& v1 == v
                &&& (r is Nothing <==> v.allow_inline_tasks)
            }
        }),
{
    if worker_queue_has_no_main_tasks(v.task_queue) && v.task_queue.worker_queue.resumed.len() > 0 {
        assert(!v.task_queue.worker_queue.resumed[0].task@.main_thread);
    }
}

/// The "main" thread looking for a fiber to switch to prefers its own resumed tasks, oldest
/// first, leaving the worker queue alone while it has one; otherwise it takes the oldest
/// resumed worker task, leaving its own queue alone; then the last free fiber. Finding none of
/// them, nothing changes, and it waits for a free fiber unless inline tasks are allowed.
pub proof fn lemma_main_fiber_to_switch_to<C, H, F>(v: SchedulerView<C, H, F>)
    ensures
        ({
            let (v1, r) = spec_try_get_fiber_to_switch_to(v, true);
            let mq = v.task_queue.main_queue;
            let wq = v.task_queue.worker_queue;
            &&& mq.resumed.len() > 0 ==> {
                &&& r == GetFiberToSwitchTo::<C, H, F>::Fiber(FiberToSwitchTo::Resumed(mq.resumed[0]))
                &&& v1.task_queue.worker_queue == wq
                &&& v1.fiber_pool == v.fiber_pool
            }
            &&& mq.resumed.len() == 0 ==> v1.task_queue.main_queue == mq
            &&& (mq.resumed.len() == 0 && wq.resumed.len() > 0) ==>
                r == GetFiberToSwitchTo::<C, H, F>::Fiber(FiberToSwitchTo::Resumed(wq.resumed[0]))
            &&& (mq.resumed.len() == 0 && wq.resumed.len() == 0 && v.fiber_pool.pool.len() > 0) ==>
                r == GetFiberToSwitchTo::<C, H, F>::Fiber(FiberToSwitchTo::Free(v.fiber_pool.pool.last()))
            &&& !(r is Fiber) ==> {
                &&& mq.resumed.len() == 0
                &&& wq.resumed.len() == 0
                &&& v.fiber_pool.pool.len() == 0
                &&& v1 == v
                &&& (r is Nothing <==> v.allow_inline_tasks)
            }
        }),
{
}

/// A waiting worker thread's next step never touches the "main" thread queue: a task it runs
/// inline is the oldest new task of the worker queue, a resumed task it switches to the oldest
/// resumed task of the worker queue (so, while the worker queue holds no "main" thread task,
/// never a "main" thread task). Without a fiber and with an empty worker queue, it waits.
pub proof fn lemma_worker_yield_step<C, H, F>(v: SchedulerView<C, H, F>, has_fiber: bool)
    ensures
        ({
            let (v1, step) = spec_yield_step(v, has_fiber, false);
            let wq = v.task_queue.worker_queue;
            &&& v1.task_queue.main_queue == v.task_queue.main_queue
            &&& step matches YieldStep::ExecuteInline(t) ==> {
                &&& wq.new.len() > 0
                &&& t == wq.new[0]
                &&& worker_queue_has_no_main_tasks(v.task_queue) ==> !t@.main_thread
            }
            &&& step matches YieldStep::SwitchTo(FiberToSwitchTo::Resumed(tf)) ==> {
                &&& wq.resumed.len() > 0
                &&& tf == wq.resumed[0]
                &&& worker_queue_has_no_main_tasks(v.task_queue) ==> !tf.task@.main_thread
            }
            &&& (!has_fiber && wq.new.len() == 0 && wq.resumed.len() == 0) ==> step is Wait
        }),
{
    let wq = v.task_queue.worker_queue;
    if worker_queue_has_no_main_tasks(v.task_queue) {
        if wq.new.len() > 0 {
            assert(!wq.new[0]@.main_thread);
        }
        if wq.resumed.len() > 0 {
            assert(!wq.resumed[0].task@.main_thread);
        }
    }
}

/// The next step of a thread waiting for a dependency. With a fiber, it switches to the
/// resumed task or free fiber it finds, if any. Without one, the "main" thread takes from its
/// own queue first, resumed tasks before new ones and oldest first, then from the worker
/// queue in the same order; finding no task at all, it waits.
pub proof fn lemma_yield_step_order<C, H, F>(v: SchedulerView<C, H, F>, main_thread: bool)
    ensures
        ({
            let (_, got) = spec_try_get_fiber_to_switch_to(v, main_thread);
            let (_, step) = spec_yield_step(v, true, main_thread);
            got matches GetFiberToSwitchTo::Fiber(f) ==> step == YieldStep::SwitchTo(f)
        }),
        ({
            let (v1, step) = spec_yield_step(v, false, true);
            let mq = v.task_queue.main_queue;
            let wq = v.task_queue.worker_queue;
            &&& mq.resumed.len() > 0 ==> step == YieldStep::<C, H, F>::SwitchTo(FiberToSwitchTo::Resumed(mq.resumed[0]))
            &&& (mq.resumed.len() == 0 && mq.new.len() > 0) ==> step == YieldStep::<C, H, F>::ExecuteInline(mq.new[0])
            &&& (mq.resumed.len() == 0 && mq.new.len() == 0 && wq.resumed.len() > 0) ==>
                step == YieldStep::<C, H, F>::SwitchTo(FiberToSwitchTo::Resumed(wq.resumed[0]))
            &&& (mq.resumed.len() == 0 && mq.new.len() == 0 && wq.resumed.len() == 0 && wq.new.len() > 0) ==>
                step == YieldStep::<C, H, F>::ExecuteInline(wq.new[0])
            &&& (mq.resumed.len() == 0 && mq.new.len() == 0 && wq.resumed.len() == 0 && wq.new.len() == 0) ==>
                step is Wait && v1 == v
        }),
{
}

/// The worker queue never receives a "main" thread task: the scheduler routes every task it
/// adds by the task's own flag, and only ever removes tasks otherwise, so adding a new task,
/// resuming a yielded task, returning a fiber, looking for a fiber to switch to and taking a
/// yield step all keep the worker queue free of "main" thread tasks. An empty scheduler
/// starts so.
pub proof fn lemma_worker_queue_keeps_no_main_tasks<C, H, F>(
    v: SchedulerView<C, H, F>,
    task: Task<C, H>,
    fiber: FiberToSwitchTo<C, H, F>,
    key: YieldKey,
    has_fiber: bool,
    main_thread: bool,
)
    requires
        worker_queue_has_no_main_tasks(v.task_queue),
    ensures
        worker_queue_has_no_main_tasks(
            spec_queue_add_task(v.task_queue, NewOrResumedTask::New(task), task@.main_thread, main_thread).0),
        worker_queue_has_no_main_tasks(spec_sched_try_resume_task(v, key, main_thread).0.task_queue),
        match fiber {
            FiberToSwitchTo::Resumed(tf) => worker_queue_has_no_main_tasks(
                spec_queue_add_task(v.task_queue, NewOrResumedTask::Resumed(tf), tf.task@.main_thread, main_thread).0),
            FiberToSwitchTo::Free(_) => true,
        },
        worker_queue_has_no_main_tasks(spec_try_get_fiber_to_switch_to(v, main_thread).0.task_queue),
        worker_queue_has_no_main_tasks(spec_yield_step(v, has_fiber, main_thread).0.task_queue),
        v.task_queue.worker_queue.new.len() == 0 && v.task_queue.worker_queue.resumed.len() == 0 ==>
            worker_queue_has_no_main_tasks(v.task_queue),
{
    let wq = v.task_queue.worker_queue;
    if wq.new.len() > 0 {
        assert forall|i: int| 0 <= i < wq.new.drop_first().len() implies !(#[trigger] wq.new.drop_first()[i])@.main_thread by {
            assert(wq.new.drop_first()[i] == wq.new[i + 1]);
        }
    }
    if wq.resumed.len() > 0 {
        assert forall|i: int| 0 <= i < wq.resumed.drop_first().len() implies !(#[trigger] wq.resumed.drop_first()[i]).task@.main_thread by {
            assert(wq.resumed.drop_first()[i] == wq.resumed[i + 1]);
        }
    }
    assert forall|i: int| 0 <= i < wq.new.push(task).len() && !task@.main_thread implies !(#[trigger] wq.new.push(task)[i])@.main_thread by {
        if i < wq.new.len() {
            assert(wq.new.push(task)[i] == wq.new[i]);
        }
    }
    let (yq, r) = spec_try_resume_task(v.yield_queue, key);
    if let Some(tf) = r {
        assert forall|i: int| 0 <= i < wq.resumed.push(tf).len() && !tf.task@.main_thread implies !(#[trigger] wq.resumed.push(tf)[i]).task@.main_thread by {
            if i < wq.resumed.len() {
                assert(wq.resumed.push(tf)[i] == wq.resumed[i]);
            }
        }
    }
    if let FiberToSwitchTo::Resumed(tf) = fiber {
        assert forall|i: int| 0 <= i < wq.resumed.push(tf).len() && !tf.task@.main_thread implies !(#[trigger] wq.resumed.push(tf)[i]).task@.main_thread by {
            if i < wq.resumed.len() {
                assert(wq.resumed.push(tf)[i] == wq.resumed[i]);
            }
        }
    }
}

} // verus!
