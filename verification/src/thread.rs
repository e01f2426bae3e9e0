//! Per-thread task system state: the thread's current task and fiber, and what the previous
//! fiber ran by the thread left to be done (a fiber to free, a yield key to resume).

use vstd::prelude::*;
use crate::yield_queue::YieldKey;

verus! {

/// A yielded task together with the fiber it runs on.
#[derive(Debug, PartialEq, Eq)]
pub struct TaskAndFiber<T, F> {
    pub task: T,
    pub fiber: F,
}

/// The mathematical content of a [`Thread`].
pub struct ThreadView<T, F, C> {
    pub index: u32,
    pub name: Option<String>,
    pub thread_fiber: Option<F>,
    pub fini: Option<C>,
    pub fiber: Option<F>,
    pub task: Option<T>,
    pub fiber_to_free: Option<F>,
    pub yield_key: Option<YieldKey>,
}

/// Per-thread task system state, generic over the task type `T`, the fiber type `F`
/// and the thread finalizer callback type `C`.
pub struct Thread<T, F, C> {
    /// "Main" thread - `0`; worker threads - `1 ..= num_worker_threads`.
    index: u32,
    /// Thread name for logging / debugging.
    name: Option<String>,
    /// The fiber the thread was converted to, switched back to before the thread exits.
    thread_fiber: Option<F>,
    /// Worker thread finalizer callback, ran when the worker thread is about to exit.
    fini: Option<C>,
    /// Current fiber ran by the thread, set before the switch.
    fiber: Option<F>,
    /// Current task ran by the thread.
    task: Option<T>,
    /// Previous fiber ran by the thread, to be returned to the fiber pool.
    fiber_to_free: Option<F>,
    /// Yield key of the previous fiber ran by the thread, now yielded.
    yield_key: Option<YieldKey>,
}

impl<T, F, C> View for Thread<T, F, C> {
    type V = ThreadView<T, F, C>;

    closed spec fn view(&self) -> ThreadView<T, F, C> {
        ThreadView {
            index: self.index,
            name: self.name,
            thread_fiber: self.thread_fiber,
            fini: self.fini,
            fiber: self.fiber,
            task: self.task,
            fiber_to_free: self.fiber_to_free,
            yield_key: self.yield_key,
        }
    }
}

/// The text of an optional name, `"<unnamed>"` for none.
pub open spec fn name_or_unnamed_spec(name: Option<String>) -> Seq<char> {
    match name {
        Some(n) => n@,
        None => "<unnamed>"@,
    }
}

impl<T, F, C> Thread<T, F, C> {
    /// Creates the state of the thread with `index`, with no fiber, task or pending cleanup.
    pub fn new(name: Option<String>, index: u32, fini: Option<C>) -> (t: Self)
        ensures
            t@ == (ThreadView::<T, F, C> {
                index,
                name,
                thread_fiber: None,
                fini,
                fiber: None,
                task: None,
                fiber_to_free: None,
                yield_key: None,
            }),
    {
        Thread {
            index,
            name,
            thread_fiber: None,
            fini,
            fiber: None,
            task: None,
            fiber_to_free: None,
            yield_key: None,
        }
    }

    /// Returns the index of the thread: `0` for the "main" thread,
    /// `1 ..= num_worker_threads` for the worker threads.
    pub fn index(&self) -> (index: u32)
        ensures
            index == self@.index,
    {
        self.index
    }

    /// Returns the thread's name, or `"<unnamed>"`.
    pub fn name_or_unnamed(&self) -> (name: &str)
        ensures
            name@ == name_or_unnamed_spec(self@.name),
    {
        match &self.name {
            Some(name) => name.as_str(),
            None => "<unnamed>",
        }
    }

    /// Sets the fiber the thread was converted to; it may be set only once.
    pub fn set_thread_fiber(&mut self, fiber: F)
        requires
            old(self)@.thread_fiber.is_none(),
        ensures
            final(self)@ == (ThreadView { thread_fiber: Some(fiber), ..old(self)@ }),
    {
        self.thread_fiber = Some(fiber);
    }

    /// Takes the fiber the thread was converted to, to switch back to it on shutdown.
    pub fn take_thread_fiber(&mut self) -> (fiber: F)
        requires
            old(self)@.thread_fiber.is_some(),
        ensures
            fiber == old(self)@.thread_fiber.unwrap(),
            final(self)@ == (ThreadView { thread_fiber: None, ..old(self)@ }),
    {
        self.thread_fiber.take().unwrap()
    }

    /// Returns `true` if the thread runs a fiber.
    pub fn has_current_fiber(&self) -> (b: bool)
        ensures
            b == self@.fiber.is_some(),
    {
        self.fiber.is_some()
    }

    /// Sets the thread's current fiber, before switching to it; it may not be set already.
    pub fn set_fiber(&mut self, fiber: F)
        requires
            old(self)@.fiber.is_none(),
        ensures
            final(self)@ == (ThreadView { fiber: Some(fiber), ..old(self)@ }),
    {
        self.fiber = Some(fiber);
    }

    /// Returns the thread's current fiber, to switch to it.
    pub fn current_fiber(&self) -> (fiber: &F)
        requires
            self@.fiber.is_some(),
        ensures
            *fiber == self@.fiber.unwrap(),
    {
        self.fiber.as_ref().unwrap()
    }

    /// Takes the thread's current fiber.
    pub fn take_fiber(&mut self) -> (fiber: F)
        requires
            old(self)@.fiber.is_some(),
        ensures
            fiber == old(self)@.fiber.unwrap(),
            final(self)@ == (ThreadView { fiber: None, ..old(self)@ }),
    {
        self.fiber.take().unwrap()
    }

    /// Sets the thread's current task, before executing it; it may not be set already.
    pub fn set_task(&mut self, task: T)
        requires
            old(self)@.task.is_none(),
        ensures
            final(self)@ == (ThreadView { task: Some(task), ..old(self)@ }),
    {
        self.task = Some(task);
    }

    /// Returns `true` if the thread has a current task.
    pub fn has_task(&self) -> (b: bool)
        ensures
            b == self@.task.is_some(),
    {
        self.task.is_some()
    }

    /// Returns the thread's current task.
    pub fn task(&self) -> (task: &T)
        requires
            self@.task.is_some(),
        ensures
            *task == self@.task.unwrap(),
    {
        self.task.as_ref().unwrap()
    }

    /// Takes the thread's current task.
    pub fn take_task(&mut self) -> (task: T)
        requires
            old(self)@.task.is_some(),
        ensures
            task == old(self)@.task.unwrap(),
            final(self)@ == (ThreadView { task: None, ..old(self)@ }),
    {
        self.task.take().unwrap()
    }

    /// Takes the thread's current task and fiber, to yield them.
    pub fn take_task_and_fiber(&mut self) -> (tf: TaskAndFiber<T, F>)
        requires
            old(self)@.task.is_some(),
            old(self)@.fiber.is_some(),
        ensures
            tf.task == old(self)@.task.unwrap(),
            tf.fiber == old(self)@.fiber.unwrap(),
            final(self)@ == (ThreadView { task: None, fiber: None, ..old(self)@ }),
    {
        let task = self.task.take().unwrap();
        let fiber = self.fiber.take().unwrap();
        TaskAndFiber { task, fiber }
    }

    /// Marks the current fiber to be returned to the fiber pool by the next fiber
    /// ran by this thread.
    pub fn free_fiber(&mut self)
        requires
            old(self)@.fiber.is_some(),
            old(self)@.fiber_to_free.is_none(),
        ensures
            final(self)@ == (ThreadView { fiber: None, fiber_to_free: old(self)@.fiber, ..old(self)@ }),
    {
        let fiber = self.fiber.take().unwrap();
        self.fiber_to_free = Some(fiber);
    }

    /// Takes the fiber to return to the fiber pool, if any.
    pub fn take_fiber_to_free(&mut self) -> (fiber: Option<F>)
        ensures
            fiber == old(self)@.fiber_to_free,
            final(self)@ == (ThreadView { fiber_to_free: None, ..old(self)@ }),
    {
        self.fiber_to_free.take()
    }

    /// Records that the previous fiber yielded with `yield_key`; it may not be set already.
    pub fn set_yield_key(&mut self, yield_key: YieldKey)
        requires
            old(self)@.yield_key.is_none(),
        ensures
            final(self)@ == (ThreadView { yield_key: Some(yield_key), ..old(self)@ }),
    {
        self.yield_key = Some(yield_key);
    }

    /// Takes the yield key of the previous, yielded fiber, if any.
    pub fn take_yield_key(&mut self) -> (yield_key: Option<YieldKey>)
        ensures
            yield_key == old(self)@.yield_key,
            final(self)@ == (ThreadView { yield_key: None, ..old(self)@ }),
    {
        self.yield_key.take()
    }
}

impl<T, F, C: Fn(u32)> Thread<T, F, C> {
    /// Runs the thread finalizer, if any, once, passing it the thread index.
    pub fn execute_thread_fini(&mut self)
        requires
            old(self)@.fini matches Some(fini) ==> fini.requires((old(self)@.index,)),
        ensures
            final(self)@ == (ThreadView { fini: None, ..old(self)@ }),
            old(self)@.fini matches Some(fini) ==> fini.ensures((old(self)@.index,), ()),
    {
        if let Some(fini) = self.fini.take() {
            fini(self.index);
        }
    }
}

} // verus!
