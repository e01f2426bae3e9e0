//! The pool of free worker fibers.
//!
//! The pool here is the state that the task system keeps behind a lock; blocking on it
//! and waking threads up is done by the caller, as the returned values direct.

use vstd::prelude::*;

verus! {

/// The mathematical content of a [`FiberPool`].
pub struct FiberPoolView<F> {
    /// The free fibers; the last one is handed out first.
    pub pool: Seq<F>,
    /// Number of threads blocked waiting for a free fiber.
    pub num_waiters: u32,
}

/// A free fiber pool.
pub struct FiberPool<F> {
    pool: Vec<F>,
    num_waiters: u32,
}

impl<F> View for FiberPool<F> {
    type V = FiberPoolView<F>;

    closed spec fn view(&self) -> FiberPoolView<F> {
        FiberPoolView { pool: self.pool@, num_waiters: self.num_waiters }
    }
}

/// What asking the pool for a free fiber resulted in.
#[derive(Debug, PartialEq, Eq)]
pub enum GetFiber<F> {
    /// A free fiber, now owned by the caller.
    Fiber(F),
    /// No free fiber, and the caller does not wait.
    Nothing,
    /// No free fiber; the caller must wait for one to be freed and try again.
    Wait,
}

/// The pool after a fiber is asked for, and the result: the last free fiber if any; otherwise
/// the pool is unchanged and the caller waits if `wait`.
pub open spec fn spec_get_fiber<F>(v: FiberPoolView<F>, wait: bool) -> (FiberPoolView<F>, GetFiber<F>) {
    if v.pool.len() > 0 {
        (FiberPoolView { pool: v.pool.drop_last(), ..v }, GetFiber::Fiber(v.pool.last()))
    } else {
        (v, if wait { GetFiber::Wait } else { GetFiber::Nothing })
    }
}

/// The pool after `fiber` is returned to it.
pub open spec fn spec_free_fiber<F>(v: FiberPoolView<F>, fiber: F) -> FiberPoolView<F> {
    FiberPoolView { pool: v.pool.push(fiber), ..v }
}

impl<F> FiberPool<F> {
    /// Creates an empty fiber pool.
    pub fn new() -> (p: Self)
        ensures
            p@.pool.len() == 0,
            p@.num_waiters == 0,
    {
        FiberPool { pool: Vec::new(), num_waiters: 0 }
    }

    /// Fills the empty pool with the newly allocated (at least one) `fibers`,
    /// in their order: the last one is handed out first.
    pub fn initialize(&mut self, fibers: Vec<F>)
        requires
            old(self)@.pool.len() == 0,
            fibers@.len() > 0,
        ensures
            final(self)@ == (FiberPoolView { pool: fibers@, ..old(self)@ }),
    {
        self.pool = fibers;
    }

    /// Tries to get a free fiber from the pool.
    ///
    /// If the pool is empty and `wait` is `true`, the caller must wait for a fiber
    /// to be freed and try again.
    pub fn get_fiber(&mut self, wait: bool) -> (res: GetFiber<F>)
        ensures
            (final(self)@, res) == spec_get_fiber(old(self)@, wait),
    {
        match self.pool.pop() {
            Some(fiber) => GetFiber::Fiber(fiber),
            None => if wait { GetFiber::Wait } else { GetFiber::Nothing },
        }
    }

    /// Returns a now-free fiber to the pool.
    ///
    /// Returns `true` if a thread waiting for a free fiber must be woken up (there is one).
    pub fn free_fiber(&mut self, fiber: F) -> (wake_up: bool)
        ensures
            final(self)@ == spec_free_fiber(old(self)@, fiber),
            wake_up == (old(self)@.num_waiters > 0),
    {
        self.pool.push(fiber);
        self.num_waiters > 0
    }

    /// Called before a thread blocks waiting for a free fiber.
    pub fn inc_num_waiters(&mut self)
        requires
            old(self)@.num_waiters < u32::MAX,
        ensures
            final(self)@ == (FiberPoolView { num_waiters: (old(self)@.num_waiters + 1) as u32, ..old(self)@ }),
    {
        self.num_waiters = self.num_waiters + 1;
    }

    /// Called after a thread stopped waiting for a free fiber.
    pub fn dec_num_waiters(&mut self)
        requires
            old(self)@.num_waiters > 0,
        ensures
            final(self)@ == (FiberPoolView { num_waiters: (old(self)@.num_waiters - 1) as u32, ..old(self)@ }),
    {
        self.num_waiters = self.num_waiters - 1;
    }
}

/// The pool neither creates nor loses fibers: a fiber handed out leaves one fewer in the pool,
/// and freeing it again restores the pool exactly; asking an empty pool changes nothing.
pub proof fn lemma_fiber_round_trip<F>(v: FiberPoolView<F>, wait: bool)
    ensures
        ({
            let (v1, r) = spec_get_fiber(v, wait);
            match r {
                GetFiber::Fiber(f) => v1.pool.len() == v.pool.len() - 1 && spec_free_fiber(v1, f) == v,
                _ => v1 == v && v.pool.len() == 0,
            }
        }),
{
    if v.pool.len() > 0 {
        assert(v.pool.drop_last().push(v.pool.last()) =~= v.pool);
    }
}

} // verus!
