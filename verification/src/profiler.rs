//! The interface of a profiler the task system reports to.

use vstd::prelude::*;

verus! {

/// A profiler which the task system reports thread startup and begin / end of task
/// and wait scopes to.
pub trait Profiler: Send + Sync {
    /// Called once in each thread of the task system, with its name.
    fn init_thread(&self, thread_name: &str);

    /// Called when a (named) scope begins.
    fn begin_scope(&self, name: Option<&str>);

    /// Called when the most recently begun scope ends.
    fn end_scope(&self);
}

/// The profiler object type the task system uses.
pub type TaskSystemProfiler = dyn Profiler;

} // verus!
