//! The task queues: new and resumed tasks ready to run, for the "main" thread and for the
//! worker threads, and the decisions of adding, picking up and waiting for tasks.
//!
//! Each queue here is the state that the task system keeps behind a lock; blocking on it
//! and waking threads up is done by the caller, as the returned values direct.

use vstd::prelude::*;
use std::collections::VecDeque;

verus! {

/// A task ready for execution, returned from the task queue.
#[derive(Debug, PartialEq, Eq)]
pub enum NewOrResumedTask<N, R> {
    /// A newly added task, not yet ran.
    New(N),
    /// A resumed task, previously already ran and yielded.
    Resumed(R),
}

/// The mathematical content of a [`LockedTaskQueue`].
pub struct LockedTaskQueueView<N, R> {
    /// New tasks, oldest first.
    pub new: Seq<N>,
    /// Resumed tasks, oldest first.
    pub resumed: Seq<R>,
    /// Number of threads blocked waiting for a task to be added to this queue.
    pub num_waiters: u32,
    /// Set when the task system shuts down and the threads waiting on this queue must exit.
    pub exit: bool,
}

/// A single thread type's ("main" or worker) task queue.
pub struct LockedTaskQueue<N, R> {
    new: VecDeque<N>,
    resumed: VecDeque<R>,
    num_waiters: u32,
    exit: bool,
}

impl<N, R> View for LockedTaskQueue<N, R> {
    type V = LockedTaskQueueView<N, R>;

    closed spec fn view(&self) -> LockedTaskQueueView<N, R> {
        LockedTaskQueueView {
            new: self.new@,
            resumed: self.resumed@,
            num_waiters: self.num_waiters,
            exit: self.exit,
        }
    }
}

/// The queue after `task` is added at the back of its kind's sequence.
pub open spec fn spec_add_task<N, R>(v: LockedTaskQueueView<N, R>, task: NewOrResumedTask<N, R>) -> LockedTaskQueueView<N, R> {
    match task {
        NewOrResumedTask::New(t) => LockedTaskQueueView { new: v.new.push(t), ..v },
        NewOrResumedTask::Resumed(t) => LockedTaskQueueView { resumed: v.resumed.push(t), ..v },
    }
}

/// The queue after popping a task, and the task: the oldest resumed task if any,
/// else the oldest new task if any, else none.
pub open spec fn spec_try_get_task<N, R>(v: LockedTaskQueueView<N, R>) -> (LockedTaskQueueView<N, R>, Option<NewOrResumedTask<N, R>>) {
    if v.resumed.len() > 0 {
        (LockedTaskQueueView { resumed: v.resumed.drop_first(), ..v }, Some(NewOrResumedTask::Resumed(v.resumed[0])))
    } else if v.new.len() > 0 {
        (LockedTaskQueueView { new: v.new.drop_first(), ..v }, Some(NewOrResumedTask::New(v.new[0])))
    } else {
        (v, None)
    }
}

/// The queue after popping a resumed task, and the task: the oldest resumed task, if any.
pub open spec fn spec_try_get_resumed_task<N, R>(v: LockedTaskQueueView<N, R>) -> (LockedTaskQueueView<N, R>, Option<R>) {
    if v.resumed.len() > 0 {
        (LockedTaskQueueView { resumed: v.resumed.drop_first(), ..v }, Some(v.resumed[0]))
    } else {
        (v, None)
    }
}

impl<N, R> LockedTaskQueue<N, R> {
    /// Creates an empty queue with no waiters.
    pub fn new() -> (q: Self)
        ensures
            q@ == (LockedTaskQueueView::<N, R> { new: seq![], resumed: seq![], num_waiters: 0, exit: false }),
    {
        LockedTaskQueue { new: VecDeque::new(), resumed: VecDeque::new(), num_waiters: 0, exit: false }
    }

    /// Called before a thread blocks waiting on this queue.
    pub fn inc_num_waiters(&mut self)
        requires
            old(self)@.num_waiters < u32::MAX,
        ensures
            final(self)@ == (LockedTaskQueueView { num_waiters: (old(self)@.num_waiters + 1) as u32, ..old(self)@ }),
    {
        self.num_waiters = self.num_waiters + 1;
    }

    /// Called after a thread stopped waiting on this queue.
    pub fn dec_num_waiters(&mut self)
        requires
            old(self)@.num_waiters > 0,
        ensures
            final(self)@ == (LockedTaskQueueView { num_waiters: (old(self)@.num_waiters - 1) as u32, ..old(self)@ }),
    {
        self.num_waiters = self.num_waiters - 1;
    }

    /// Adds a new or resumed task to the queue.
    ///
    /// Returns `true` if a thread blocked waiting on this queue must be woken up
    /// (there is one), `false` otherwise.
    pub fn add_task(&mut self, task: NewOrResumedTask<N, R>) -> (wake_up: bool)
        ensures
            final(self)@ == spec_add_task(old(self)@, task),
            wake_up == (old(self)@.num_waiters > 0),
    {
        match task {
            NewOrResumedTask::New(task) => {
                self.new.push_back(task);
            },
            NewOrResumedTask::Resumed(task) => {
                self.resumed.push_back(task);
            },
        }
        self.num_waiters > 0
    }

    /// Tries to pop a resumed task.
    pub fn try_get_resumed_task(&mut self) -> (task: Option<R>)
        ensures
            (final(self)@, task) == spec_try_get_resumed_task(old(self)@),
    {
        self.resumed.pop_front()
    }

    /// Tries to pop a resumed task; failing that tries to pop a new task.
    pub fn try_get_task(&mut self) -> (task: Option<NewOrResumedTask<N, R>>)
        ensures
            (final(self)@, task) == spec_try_get_task(old(self)@),
    {
        match self.resumed.pop_front() {
            Some(task) => Some(NewOrResumedTask::Resumed(task)),
            None => match self.new.pop_front() {
                Some(task) => Some(NewOrResumedTask::New(task)),
                None => None,
            },
        }
    }

    /// Signals the threads waiting on this queue to exit.
    ///
    /// Returns `true` if no thread is waiting any more, `false` if threads must be
    /// woken up again.
    pub fn signal_exit(&mut self) -> (done: bool)
        ensures
            final(self)@ == (LockedTaskQueueView { exit: true, ..old(self)@ }),
            done == (old(self)@.num_waiters == 0),
    {
        self.exit = true;
        self.num_waiters == 0
    }

    /// Returns `true` once the threads waiting on this queue were signaled to exit.
    pub fn exit(&self) -> (exit: bool)
        ensures
            exit == self@.exit,
    {
        self.exit
    }
}

/// Which thread(s) the caller must wake up after adding a task.
#[derive(Debug, Clone, Copy, PartialEq, Eq)]
pub enum WakeUp {
    /// Nobody.
    Nobody,
    /// One thread waiting on the "main" thread queue.
    MainThread,
    /// One thread waiting on the worker thread queue.
    WorkerThread,
}

/// What getting a task from the task queue resulted in.
#[derive(Debug, PartialEq, Eq)]
pub enum GetTask<N, R> {
    /// A task was popped.
    Task(NewOrResumedTask<N, R>),
    /// No task, and the caller must not wait (or, for a worker thread, must exit).
    Nothing,
    /// No task; the caller must wait on its queue and try again.
    Wait,
}

/// The mathematical content of a [`TaskQueue`].
pub struct TaskQueueView<N, R> {
    pub main_queue: LockedTaskQueueView<N, R>,
    pub worker_queue: LockedTaskQueueView<N, R>,
}

/// The task system's task queues: one for "main" thread tasks, one for all other tasks.
pub struct TaskQueue<N, R> {
    main_queue: LockedTaskQueue<N, R>,
    worker_queue: LockedTaskQueue<N, R>,
}

impl<N, R> View for TaskQueue<N, R> {
    type V = TaskQueueView<N, R>;

    closed spec fn view(&self) -> TaskQueueView<N, R> {
        TaskQueueView { main_queue: self.main_queue@, worker_queue: self.worker_queue@ }
    }
}

/// The queues after adding `task` and whom to wake up.
///
/// A "main" thread task goes to the "main" thread queue, waking up the main thread if it
/// waits. Any other task goes to the worker queue, waking up one waiting worker thread;
/// if none was waiting and the caller is not the "main" thread, the "main" thread is woken up
/// to help out.
pub open spec fn spec_queue_add_task<N, R>(
    v: TaskQueueView<N, R>,
    task: NewOrResumedTask<N, R>,
    task_main_thread: bool,
    main_thread: bool,
) -> (TaskQueueView<N, R>, WakeUp) {
    if task_main_thread {
        (
            TaskQueueView { main_queue: spec_add_task(v.main_queue, task), ..v },
            if v.main_queue.num_waiters > 0 { WakeUp::MainThread } else { WakeUp::Nobody },
        )
    } else {
        (
            TaskQueueView { worker_queue: spec_add_task(v.worker_queue, task), ..v },
            if v.worker_queue.num_waiters > 0 {
                WakeUp::WorkerThread
            } else if !main_thread {
                WakeUp::MainThread
            } else {
                WakeUp::Nobody
            },
        )
    }
}

/// The queues after the "main" (`main_thread`) or a worker thread tries to get a task,
/// and the result.
///
/// The "main" thread takes from its own queue first, then from the worker queue.
/// A worker thread takes from the worker queue only, and gets nothing once signaled to exit.
/// Finding no task, the caller waits if `wait`.
pub open spec fn spec_queue_get_task<N, R>(v: TaskQueueView<N, R>, main_thread: bool, wait: bool) -> (TaskQueueView<N, R>, GetTask<N, R>) {
    if main_thread {
        let (m, t) = spec_try_get_task(v.main_queue);
        match t {
            Some(t) => (TaskQueueView { main_queue: m, ..v }, GetTask::Task(t)),
            None => {
                let (w, t) = spec_try_get_task(v.worker_queue);
                match t {
                    Some(t) => (TaskQueueView { worker_queue: w, ..v }, GetTask::Task(t)),
                    None => (v, if wait { GetTask::Wait } else { GetTask::Nothing }),
                }
            },
        }
    } else if v.worker_queue.exit {
        (v, GetTask::Nothing)
    } else {
        let (w, t) = spec_try_get_task(v.worker_queue);
        match t {
            Some(t) => (TaskQueueView { worker_queue: w, ..v }, GetTask::Task(t)),
            None => (v, if wait { GetTask::Wait } else { GetTask::Nothing }),
        }
    }
}

impl<N, R> TaskQueue<N, R> {
    /// Creates empty task queues.
    pub fn new() -> (q: Self)
        ensures
            q@.main_queue == (LockedTaskQueueView::<N, R> { new: seq![], resumed: seq![], num_waiters: 0, exit: false }),
            q@.worker_queue == (LockedTaskQueueView::<N, R> { new: seq![], resumed: seq![], num_waiters: 0, exit: false }),
    {
        TaskQueue { main_queue: LockedTaskQueue::new(), worker_queue: LockedTaskQueue::new() }
    }

    /// Adds a new or resumed task; `task_main_thread` is `true` if the task may only run in the
    /// "main" thread, `main_thread` is `true` if this is called from the "main" thread.
    ///
    /// Returns whom the caller must wake up.
    pub fn add_task(&mut self, task: NewOrResumedTask<N, R>, task_main_thread: bool, main_thread: bool) -> (wake_up: WakeUp)
        ensures
            (final(self)@, wake_up) == spec_queue_add_task(old(self)@, task, task_main_thread, main_thread),
    {
        if task_main_thread {
            if self.main_queue.add_task(task) {
                WakeUp::MainThread
            } else {
                WakeUp::Nobody
            }
        } else {
            let woken_up: bool = self.worker_queue.add_task(task);
            if woken_up {
                WakeUp::WorkerThread
            } else if !main_thread {
                WakeUp::MainThread
            } else {
                WakeUp::Nobody
            }
        }
    }

    /// Adds a new task; see [`add_task`](#method.add_task).
    pub fn add_new_task(&mut self, task: N, task_main_thread: bool, main_thread: bool) -> (wake_up: WakeUp)
        ensures
            (final(self)@, wake_up) == spec_queue_add_task(old(self)@, NewOrResumedTask::New(task), task_main_thread, main_thread),
    {
        self.add_task(NewOrResumedTask::New(task), task_main_thread, main_thread)
    }

    /// Adds a resumed task; see [`add_task`](#method.add_task).
    pub fn add_resumed_task(&mut self, task: R, task_main_thread: bool, main_thread: bool) -> (wake_up: WakeUp)
        ensures
            (final(self)@, wake_up) == spec_queue_add_task(old(self)@, NewOrResumedTask::Resumed(task), task_main_thread, main_thread),
    {
        self.add_task(NewOrResumedTask::Resumed(task), task_main_thread, main_thread)
    }

    /// Tries to get a resumed task: from the "main" thread queue first if `main_thread`,
    /// then from the worker queue.
    pub fn try_get_resumed_task(&mut self, main_thread: bool) -> (task: Option<R>)
        ensures
            main_thread && old(self)@.main_queue.resumed.len() > 0 ==> {
                &&& task == Some(old(self)@.main_queue.resumed[0])
                &&& final(self)@ == (TaskQueueView { main_queue: spec_try_get_resumed_task(old(self)@.main_queue).0, ..old(self)@ })
            },
            !(main_thread && old(self)@.main_queue.resumed.len() > 0) ==> {
                &&& (final(self)@.worker_queue, task) == spec_try_get_resumed_task(old(self)@.worker_queue)
                &&& final(self)@.main_queue == old(self)@.main_queue
            },
    {
        if main_thread {
            if let Some(task) = self.main_queue.try_get_resumed_task() {
                return Some(task);
            }
        }
        self.worker_queue.try_get_resumed_task()
    }

    /// Tries to get a new or resumed task for the "main" (`main_thread`) or a worker thread;
    /// see [`spec_queue_get_task`].
    pub fn get_task(&mut self, main_thread: bool, wait: bool) -> (res: GetTask<N, R>)
        ensures
            (final(self)@, res) == spec_queue_get_task(old(self)@, main_thread, wait),
    {
        if main_thread {
            if let Some(task) = self.main_queue.try_get_task() {
                return GetTask::Task(task);
            }
            if let Some(task) = self.worker_queue.try_get_task() {
                return GetTask::Task(task);
            }
        } else {
            if self.worker_queue.exit() {
                return GetTask::Nothing;
            }
            if let Some(task) = self.worker_queue.try_get_task() {
                return GetTask::Task(task);
            }
        }
        if wait {
            GetTask::Wait
        } else {
            GetTask::Nothing
        }
    }

    /// Returns the number of threads waiting on the "main" thread queue (`main_thread`)
    /// or on the worker queue.
    pub fn num_waiters(&self, main_thread: bool) -> (n: u32)
        ensures
            n == (if main_thread { self@.main_queue.num_waiters } else { self@.worker_queue.num_waiters }),
    {
        if main_thread {
            self.main_queue.num_waiters
        } else {
            self.worker_queue.num_waiters
        }
    }

    /// Called before the "main" (`main_thread`) or a worker thread blocks waiting for a task.
    pub fn inc_num_waiters(&mut self, main_thread: bool)
        requires
            main_thread ==> old(self)@.main_queue.num_waiters < u32::MAX,
            !main_thread ==> old(self)@.worker_queue.num_waiters < u32::MAX,
        ensures
            main_thread ==> final(self)@ == (TaskQueueView {
                main_queue: LockedTaskQueueView { num_waiters: (old(self)@.main_queue.num_waiters + 1) as u32, ..old(self)@.main_queue },
                ..old(self)@
            }),
            !main_thread ==> final(self)@ == (TaskQueueView {
                worker_queue: LockedTaskQueueView { num_waiters: (old(self)@.worker_queue.num_waiters + 1) as u32, ..old(self)@.worker_queue },
                ..old(self)@
            }),
    {
        if main_thread {
            self.main_queue.inc_num_waiters();
        } else {
            self.worker_queue.inc_num_waiters();
        }
    }

    /// Called after the "main" (`main_thread`) or a worker thread stopped waiting for a task.
    pub fn dec_num_waiters(&mut self, main_thread: bool)
        requires
            main_thread ==> old(self)@.main_queue.num_waiters > 0,
            !main_thread ==> old(self)@.worker_queue.num_waiters > 0,
        ensures
            main_thread ==> final(self)@ == (TaskQueueView {
                main_queue: LockedTaskQueueView { num_waiters: (old(self)@.main_queue.num_waiters - 1) as u32, ..old(self)@.main_queue },
                ..old(self)@
            }),
            !main_thread ==> final(self)@ == (TaskQueueView {
                worker_queue: LockedTaskQueueView { num_waiters: (old(self)@.worker_queue.num_waiters - 1) as u32, ..old(self)@.worker_queue },
                ..old(self)@
            }),
    {
        if main_thread {
            self.main_queue.dec_num_waiters();
        } else {
            self.worker_queue.dec_num_waiters();
        }
    }

    /// Signals the worker threads to exit on task system shutdown.
    ///
    /// Returns `true` if no worker thread is waiting any more, `false` if they must be woken
    /// up (and this called) again.
    pub fn wake_up_workers(&mut self) -> (done: bool)
        ensures
            final(self)@ == (TaskQueueView {
                worker_queue: LockedTaskQueueView { exit: true, ..old(self)@.worker_queue },
                ..old(self)@
            }),
            done == (old(self)@.worker_queue.num_waiters == 0),
    {
        self.worker_queue.signal_exit()
    }
}

/// A task that may only run in the "main" thread stays queued for it: it is added to the
/// "main" thread queue, leaving the worker queue as it was, and a worker thread getting a task
/// never changes the "main" thread queue, whatever the state of the queues; what a worker thread
/// gets comes from the worker queue.
pub proof fn lemma_main_thread_task_stays_for_main<N, R>(
    v: TaskQueueView<N, R>,
    task: N,
    main_thread: bool,
    w: TaskQueueView<N, R>,
    wait: bool,
)
    ensures
        ({
            let (v1, _) = spec_queue_add_task(v, NewOrResumedTask::New(task), true, main_thread);
            &&& v1.main_queue.new.last() == task
            &&& v1.worker_queue == v.worker_queue
        }),
        ({
            let (w1, r) = spec_queue_get_task(w, false, wait);
            &&& w1.main_queue == w.main_queue
            &&& r matches GetTask::Task(t) ==> Some(t) == spec_try_get_task(w.worker_queue).1
        }),
{
}

/// Tasks of a queue are picked up in the order they were added, resumed tasks before new ones:
/// a task added behind a pending task of its own kind (or, for a new task, behind any pending
/// task) does not change which task is picked up next; it stays queued behind the rest.
pub proof fn lemma_fifo<N, R>(v: LockedTaskQueueView<N, R>, task: NewOrResumedTask<N, R>)
    requires
        match task {
            NewOrResumedTask::New(_) => v.new.len() > 0 || v.resumed.len() > 0,
            NewOrResumedTask::Resumed(_) => v.resumed.len() > 0,
        },
    ensures
        ({
            let (v1, t) = spec_try_get_task(v);
            spec_try_get_task(spec_add_task(v, task)) == (spec_add_task(v1, task), t)
        }),
{
    let (v1, t) = spec_try_get_task(v);
    match task {
        NewOrResumedTask::New(x) => {
            if v.resumed.len() == 0 {
                assert(v.new.push(x).drop_first() =~= v.new.drop_first().push(x));
            }
        },
        NewOrResumedTask::Resumed(x) => {
            assert(v.resumed.push(x).drop_first() =~= v.resumed.drop_first().push(x));
        },
    }
}

/// Where an added task goes and whom it wakes up. A task that may only run in the "main"
/// thread joins the "main" thread queue, leaving the worker queue alone, and wakes up the
/// "main" thread exactly if it waits, never a worker. Any other task joins the worker queue,
/// leaving the "main" thread queue alone; a waiting worker is woken up for it, whichever thread
/// adds it, and only when no worker waits is the "main" thread woken up - if another thread
/// added it - to help out.
pub proof fn lemma_add_task_wake_up<N, R>(
    v: TaskQueueView<N, R>,
    task: NewOrResumedTask<N, R>,
    task_main_thread: bool,
    main_thread: bool,
)
    ensures
        ({
            let (v1, w) = spec_queue_add_task(v, task, task_main_thread, main_thread);
            &&& task_main_thread ==> {
                &&& v1.worker_queue == v.worker_queue
                &&& v1.main_queue.num_waiters == v.main_queue.num_waiters
                &&& v1.main_queue.new.len() + v1.main_queue.resumed.len()
                    == v.main_queue.new.len() + v.main_queue.resumed.len() + 1
                &&& w != WakeUp::WorkerThread
                &&& (w == WakeUp::MainThread <==> v.main_queue.num_waiters > 0)
            }
            &&& !task_main_thread ==> {
                &&& v1.main_queue == v.main_queue
                &&& v1.worker_queue.num_waiters == v.worker_queue.num_waiters
                &&& v1.worker_queue.new.len() + v1.worker_queue.resumed.len()
                    == v.worker_queue.new.len() + v.worker_queue.resumed.len() + 1
                &&& v.worker_queue.num_waiters > 0 ==> w == WakeUp::WorkerThread
                &&& v.worker_queue.num_waiters == 0 ==> (w == WakeUp::MainThread <==> !main_thread)
                &&& w != WakeUp::Nobody || (main_thread && v.worker_queue.num_waiters == 0)
            }
            &&& match task {
                NewOrResumedTask::New(t) => (if task_main_thread { v1.main_queue } else { v1.worker_queue }).new.last() == t,
                NewOrResumedTask::Resumed(t) => (if task_main_thread { v1.main_queue } else { v1.worker_queue }).resumed.last() == t,
            }
        }),
{
}

} // verus!
