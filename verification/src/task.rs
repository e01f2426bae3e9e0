//! A single task's context / state, associated with it throughout its lifetime
//! in the task system.

use vstd::prelude::*;
use crate::thread::name_or_unnamed_spec;

verus! {

/// The mathematical content of a [`Task`].
pub struct TaskView<C, H> {
    pub closure: Option<C>,
    pub handle: H,
    pub main_thread: bool,
    pub task_name: Option<String>,
    pub scope_name: Option<String>,
}

/// A task: its closure `C` (until it is taken out to be executed), the handle `H` of the scope
/// it belongs to, whether it may only run in the "main" thread, and its task and scope names.
pub struct Task<C, H> {
    closure: Option<C>,
    handle: H,
    main_thread: bool,
    task_name: Option<String>,
    scope_name: Option<String>,
}

impl<C, H> View for Task<C, H> {
    type V = TaskView<C, H>;

    closed spec fn view(&self) -> TaskView<C, H> {
        TaskView {
            closure: self.closure,
            handle: self.handle,
            main_thread: self.main_thread,
            task_name: self.task_name,
            scope_name: self.scope_name,
        }
    }
}

/// The text of an optional name, if any.
pub open spec fn opt_name_view(name: Option<String>) -> Option<Seq<char>> {
    match name {
        Some(n) => Some(n@),
        None => None,
    }
}

/// The text of an optional borrowed name, if any.
pub open spec fn opt_str_view(name: Option<&str>) -> Option<Seq<char>> {
    match name {
        Some(n) => Some(n@),
        None => None,
    }
}

impl<C, H> Task<C, H> {
    /// Creates a task for the closure `f`, associated with the scope handle `handle`.
    pub fn new(handle: H, f: C, main_thread: bool, task_name: Option<String>, scope_name: Option<String>) -> (t: Self)
        ensures
            t@ == (TaskView { closure: Some(f), handle, main_thread, task_name, scope_name }),
    {
        Task { closure: Some(f), handle, main_thread, task_name, scope_name }
    }

    /// Takes the task closure out of the task context, to be executed.
    pub fn take_task(&mut self) -> (f: C)
        requires
            old(self)@.closure.is_some(),
        ensures
            f == old(self)@.closure.unwrap(),
            final(self)@ == (TaskView { closure: None, ..old(self)@ }),
    {
        self.closure.take().unwrap()
    }

    /// Returns `true` once the task closure was taken out.
    pub fn is_none(&self) -> (b: bool)
        ensures
            b == self@.closure.is_none(),
    {
        self.closure.is_none()
    }

    /// Returns `true` if the task may only run in the "main" thread.
    pub fn main_thread(&self) -> (b: bool)
        ensures
            b == self@.main_thread,
    {
        self.main_thread
    }

    /// Returns the handle of the scope the task belongs to.
    pub fn handle(&self) -> (h: &H)
        ensures
            *h == self@.handle,
    {
        &self.handle
    }

    /// Returns the task's name, if any.
    pub fn task_name(&self) -> (name: Option<&str>)
        ensures
            opt_str_view(name) == opt_name_view(self@.task_name),
    {
        match &self.task_name {
            Some(name) => Some(name.as_str()),
            None => None,
        }
    }

    /// Takes the task's name, if any.
    pub fn take_task_name(&mut self) -> (name: Option<String>)
        ensures
            name == old(self)@.task_name,
            final(self)@ == (TaskView { task_name: None, ..old(self)@ }),
    {
        self.task_name.take()
    }

    /// Returns the name of the task's scope, if any.
    pub fn scope_name(&self) -> (name: Option<&str>)
        ensures
            opt_str_view(name) == opt_name_view(self@.scope_name),
    {
        match &self.scope_name {
            Some(name) => Some(name.as_str()),
            None => None,
        }
    }

    /// Returns the task's name, or `"<unnamed>"`.
    pub fn task_name_or_unnamed(&self) -> (name: &str)
        ensures
            name@ == name_or_unnamed_spec(self@.task_name),
    {
        match &self.task_name {
            Some(name) => name.as_str(),
            None => "<unnamed>",
        }
    }

    /// Returns the name of the task's scope, or `"<unnamed>"`.
    pub fn scope_name_or_unnamed(&self) -> (name: &str)
        ensures
            name@ == name_or_unnamed_spec(self@.scope_name),
    {
        match &self.scope_name {
            Some(name) => name.as_str(),
            None => "<unnamed>",
        }
    }
}

} // verus!
