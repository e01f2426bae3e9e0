//! The task system parameters: their defaults, the builder that sets them, and what the
//! task system is built with.

use vstd::prelude::*;
use crate::profiler::TaskSystemProfiler;

verus! {

/// Stack size in bytes of the worker threads when they don't run tasks.
pub const SCHEDULER_STACK_SIZE: usize = 65536;

/// Default fiber stack size in bytes (1 Mb).
pub const DEFAULT_FIBER_STACK_SIZE: usize = 1048576;

/// Default number of fibers per physical core.
pub const FIBERS_PER_CORE: u32 = 4;

/// The mathematical content of a [`TaskSystemBuilder`].
pub struct TaskSystemBuilderView {
    pub num_worker_threads: u32,
    pub num_fibers: u32,
    pub allow_inline_tasks: bool,
    pub fiber_stack_size: usize,
}

/// A closure to be called in the context of each worker thread spawned by the task system,
/// once before any tasks are executed by it, or once after the last task is executed by it;
/// it is passed the worker thread index in range `1 ..= num_worker_threads`.
pub trait ThreadInitFiniCallback: Fn(u32) + Send + Sync + 'static {}

impl<F: Fn(u32) + Send + Sync + 'static> ThreadInitFiniCallback for F {}

/// Builder object used to configure the task system parameters; `I` and `F` are the types of
/// the worker thread initialization and finalization callbacks, `P` the type of the profiler
/// (any [`Profiler`](crate::profiler::Profiler) object by default).
pub struct TaskSystemBuilder<I, F, P: ?Sized = TaskSystemProfiler> {
    num_worker_threads: u32,
    num_fibers: u32,
    allow_inline_tasks: bool,
    fiber_stack_size: usize,
    thread_init: Option<I>,
    thread_fini: Option<F>,
    profiler: Option<Box<P>>,
}

impl<I, F, P: ?Sized> View for TaskSystemBuilder<I, F, P> {
    type V = TaskSystemBuilderView;

    closed spec fn view(&self) -> TaskSystemBuilderView {
        TaskSystemBuilderView {
            num_worker_threads: self.num_worker_threads,
            num_fibers: self.num_fibers,
            allow_inline_tasks: self.allow_inline_tasks,
            fiber_stack_size: self.fiber_stack_size,
        }
    }
}

/// The default parameters on a machine with `num_physical_cores` physical cores (at least one
/// is assumed): a worker thread per physical core less one, 4 fibers per core,
/// inline tasks allowed, 1 Mb of stack per fiber.
pub open spec fn default_builder(num_physical_cores: u32) -> TaskSystemBuilderView {
    let cores: int = if num_physical_cores < 1 { 1 } else { num_physical_cores as int };
    TaskSystemBuilderView {
        num_worker_threads: (cores - 1) as u32,
        num_fibers: (cores * 4) as u32,
        allow_inline_tasks: true,
        fiber_stack_size: 1048576,
    }
}

/// What a task system is built with.
#[derive(Debug, Clone, Copy, PartialEq, Eq)]
pub struct TaskSystemParams {
    /// Number of worker threads spawned.
    pub num_worker_threads: u32,
    /// Number of threads that synchronize at startup: the worker threads and the "main" thread.
    pub num_threads: u32,
    /// Number of fibers allocated in the pool (`0` - fibers are not used).
    pub num_fibers: u32,
    /// Stack size of the fibers.
    pub fiber_stack_size: usize,
    /// Stack size of the worker threads.
    pub worker_stack_size: usize,
    /// `true` if tasks may run inline on the thread stacks.
    pub allow_inline_tasks: bool,
}

/// The parameters a builder builds a task system with: exactly the requested number of fibers
/// (the worker threads' scheduler fibers come out of that count); worker threads get the fiber
/// stack size if tasks may run on their stacks (no fibers, or inline tasks allowed), else a
/// small scheduler stack.
pub open spec fn spec_build_params(b: TaskSystemBuilderView) -> TaskSystemParams {
    TaskSystemParams {
        num_worker_threads: b.num_worker_threads,
        num_threads: (b.num_worker_threads + 1) as u32,
        num_fibers: b.num_fibers,
        fiber_stack_size: b.fiber_stack_size,
        worker_stack_size: if b.num_fibers == 0 || b.allow_inline_tasks {
            b.fiber_stack_size
        } else {
            SCHEDULER_STACK_SIZE
        },
        allow_inline_tasks: b.allow_inline_tasks,
    }
}

impl<I, F, P: ?Sized> TaskSystemBuilder<I, F, P> {
    /// The worker thread initialization callback, if set.
    pub closed spec fn spec_thread_init(&self) -> Option<I> {
        self.thread_init
    }

    /// The worker thread finalization callback, if set.
    pub closed spec fn spec_thread_fini(&self) -> Option<F> {
        self.thread_fini
    }

    /// The profiler, if set.
    pub closed spec fn spec_profiler(&self) -> Option<Box<P>> {
        self.profiler
    }

    /// Creates a new builder with the default settings for a machine with
    /// `num_physical_cores` physical cores (see [`default_builder`]),
    /// no thread callbacks and no profiler.
    pub fn new(num_physical_cores: u32) -> (b: Self)
        requires
            num_physical_cores <= u32::MAX / 4,
        ensures
            b@ == default_builder(num_physical_cores),
            b.spec_thread_init().is_none(),
            b.spec_thread_fini().is_none(),
            b.spec_profiler().is_none(),
    {
        let cores: u32 = if num_physical_cores < 1 { 1 } else { num_physical_cores };
        TaskSystemBuilder {
            num_worker_threads: cores - 1,
            num_fibers: cores * FIBERS_PER_CORE,
            allow_inline_tasks: true,
            fiber_stack_size: DEFAULT_FIBER_STACK_SIZE,
            thread_init: None,
            thread_fini: None,
            profiler: None,
        }
    }

    /// Sets the closure to be called in each worker thread before any tasks are executed by it.
    pub fn thread_init<I2: ThreadInitFiniCallback>(self, thread_init: I2) -> (b: TaskSystemBuilder<I2, F, P>)
        ensures
            b@ == self@,
            b.spec_thread_init() == Some(thread_init),
            b.spec_thread_fini() == self.spec_thread_fini(),
            b.spec_profiler() == self.spec_profiler(),
    {
        TaskSystemBuilder {
            num_worker_threads: self.num_worker_threads,
            num_fibers: self.num_fibers,
            allow_inline_tasks: self.allow_inline_tasks,
            fiber_stack_size: self.fiber_stack_size,
            thread_init: Some(thread_init),
            thread_fini: self.thread_fini,
            profiler: self.profiler,
        }
    }

    /// Sets the closure to be called in each worker thread before the thread exits
    /// on task system shutdown.
    pub fn thread_fini<F2: ThreadInitFiniCallback>(self, thread_fini: F2) -> (b: TaskSystemBuilder<I, F2, P>)
        ensures
            b@ == self@,
            b.spec_thread_init() == self.spec_thread_init(),
            b.spec_thread_fini() == Some(thread_fini),
            b.spec_profiler() == self.spec_profiler(),
    {
        TaskSystemBuilder {
            num_worker_threads: self.num_worker_threads,
            num_fibers: self.num_fibers,
            allow_inline_tasks: self.allow_inline_tasks,
            fiber_stack_size: self.fiber_stack_size,
            thread_init: self.thread_init,
            thread_fini: Some(thread_fini),
            profiler: self.profiler,
        }
    }

    /// Sets the profiler to be used by the task system.
    pub fn profiler(self, profiler: Box<P>) -> (b: Self)
        ensures
            b@ == self@,
            b.spec_thread_init() == self.spec_thread_init(),
            b.spec_thread_fini() == self.spec_thread_fini(),
            b.spec_profiler() == Some(profiler),
    {
        let mut b = self;
        b.profiler = Some(profiler);
        b
    }

    /// Takes the builder apart: its parameters (see [`build_params`](#method.build_params)),
    /// thread callbacks and profiler, to build the task system with.
    pub fn into_parts(self) -> (parts: (TaskSystemParams, Option<I>, Option<F>, Option<Box<P>>))
        requires
            self@.num_worker_threads < u32::MAX,
        ensures
            parts.0 == spec_build_params(self@),
            parts.1 == self.spec_thread_init(),
            parts.2 == self.spec_thread_fini(),
            parts.3 == self.spec_profiler(),
    {
        let params = self.build_params();
        (params, self.thread_init, self.thread_fini, self.profiler)
    }

    /// Sets the number of additional worker threads the task system will spawn
    /// (`0` - none; the "main" thread executes all tasks).
    pub fn num_worker_threads(self, num_worker_threads: u32) -> (b: Self)
        ensures
            b@ == (TaskSystemBuilderView { num_worker_threads, ..self@ }),
            b.spec_thread_init() == self.spec_thread_init(),
            b.spec_thread_fini() == self.spec_thread_fini(),
            b.spec_profiler() == self.spec_profiler(),
    {
        TaskSystemBuilder { num_worker_threads, ..self }
    }

    /// Sets the number of worker fibers the task system will allocate in the pool
    /// (`0` - fibers are not used, tasks run on the thread stacks).
    pub fn num_fibers(self, num_fibers: u32) -> (b: Self)
        ensures
            b@ == (TaskSystemBuilderView { num_fibers, ..self@ }),
            b.spec_thread_init() == self.spec_thread_init(),
            b.spec_thread_fini() == self.spec_thread_fini(),
            b.spec_profiler() == self.spec_profiler(),
    {
        TaskSystemBuilder { num_fibers, ..self }
    }

    /// If `true`, tasks run inline on the thread stacks when no resumed / free fiber is
    /// available; if `false`, always in fibers, waiting for a free one if necessary.
    pub fn allow_inline_tasks(self, allow_inline_tasks: bool) -> (b: Self)
        ensures
            b@ == (TaskSystemBuilderView { allow_inline_tasks, ..self@ }),
            b.spec_thread_init() == self.spec_thread_init(),
            b.spec_thread_fini() == self.spec_thread_fini(),
            b.spec_profiler() == self.spec_profiler(),
    {
        TaskSystemBuilder { allow_inline_tasks, ..self }
    }

    /// Sets the worker fiber stack size in bytes.
    pub fn fiber_stack_size(self, fiber_stack_size: usize) -> (b: Self)
        ensures
            b@ == (TaskSystemBuilderView { fiber_stack_size, ..self@ }),
            b.spec_thread_init() == self.spec_thread_init(),
            b.spec_thread_fini() == self.spec_thread_fini(),
            b.spec_profiler() == self.spec_profiler(),
    {
        TaskSystemBuilder { fiber_stack_size, ..self }
    }

    /// Returns the number of worker threads.
    pub fn get_num_worker_threads(&self) -> (n: u32)
        ensures
            n == self@.num_worker_threads,
    {
        self.num_worker_threads
    }

    /// Returns the number of fibers.
    pub fn get_num_fibers(&self) -> (n: u32)
        ensures
            n == self@.num_fibers,
    {
        self.num_fibers
    }

    /// Returns the fiber stack size.
    pub fn get_fiber_stack_size(&self) -> (n: usize)
        ensures
            n == self@.fiber_stack_size,
    {
        self.fiber_stack_size
    }

    /// Returns whether inline task execution is allowed.
    pub fn get_allow_inline_tasks(&self) -> (b: bool)
        ensures
            b == self@.allow_inline_tasks,
    {
        self.allow_inline_tasks
    }

    /// Returns the parameters the task system is built with; see [`spec_build_params`].
    pub fn build_params(&self) -> (p: TaskSystemParams)
        requires
            self@.num_worker_threads < u32::MAX,
        ensures
            p == spec_build_params(self@),
    {
        let num_worker_threads: u32 = self.num_worker_threads;
        let num_fibers: u32 = self.num_fibers;
        let need_large_worker_thread_stack: bool = self.num_fibers == 0 || self.allow_inline_tasks;
        let worker_stack_size: usize = if need_large_worker_thread_stack {
            self.fiber_stack_size
        } else {
            SCHEDULER_STACK_SIZE
        };
        TaskSystemParams {
            num_worker_threads,
            num_threads: num_worker_threads + 1,
            num_fibers,
            fiber_stack_size: self.fiber_stack_size,
            worker_stack_size,
            allow_inline_tasks: self.allow_inline_tasks,
        }
    }
}

/// The fiber pool holds exactly the number of fibers the builder asked for. With none, no pool
/// is allocated and every task runs on the "main" and worker thread stacks, whatever
/// `allow_inline_tasks` says: the worker threads get the full fiber stack size.
pub proof fn lemma_num_fibers(b: TaskSystemBuilderView)
    ensures
        spec_build_params(b).num_fibers == b.num_fibers,
        b.num_fibers == 0 ==> spec_build_params(b).worker_stack_size == b.fiber_stack_size,
{
}

/// The built parameters keep every setting of the builder: the worker thread count (with the
/// "main" thread, one more thread synchronizes at startup), the fiber count, the fiber stack
/// size and whether inline tasks are allowed, whatever the other settings are. Only the worker
/// threads' stack size depends on them: the fiber stack size where tasks may run on the worker
/// threads' stacks (no fibers, or inline tasks allowed), the small scheduler stack otherwise.
pub proof fn lemma_build_params_keep_settings(b: TaskSystemBuilderView)
    requires
        b.num_worker_threads < u32::MAX,
    ensures
        spec_build_params(b).num_worker_threads == b.num_worker_threads,
        spec_build_params(b).num_threads == b.num_worker_threads + 1,
        spec_build_params(b).num_fibers == b.num_fibers,
        spec_build_params(b).fiber_stack_size == b.fiber_stack_size,
        spec_build_params(b).allow_inline_tasks == b.allow_inline_tasks,
        (b.num_fibers == 0 || b.allow_inline_tasks) ==> spec_build_params(b).worker_stack_size == b.fiber_stack_size,
        (b.num_fibers > 0 && !b.allow_inline_tasks) ==> spec_build_params(b).worker_stack_size == SCHEDULER_STACK_SIZE,
{
}

} // verus!
