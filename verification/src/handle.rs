//! Handles through which a scope tracks the completion of its tasks and collects their panics.

use vstd::prelude::*;
use crate::linked_list::AtomicLinkedList;
use crate::panic::{PanicPayload, TaskPanicInfo, TaskPanics};

verus! {

/// The mathematical content of a [`Handle`].
pub struct HandleView {
    /// Number of unfinished tasks associated with the handle.
    pub count: usize,
    /// The panics of the handle's tasks, most recent first.
    pub panics: Seq<TaskPanicInfo>,
}

/// Provides means to check / wait for the completion of the tasks associated with a scope,
/// and to report any panics which happened in them or their children tasks.
pub struct Handle {
    // Task completion counter.
    handle: usize,
    // The panics of all tasks associated with the scope which owns this handle.
    panic: AtomicLinkedList<TaskPanicInfo>,
}

impl View for Handle {
    type V = HandleView;

    closed spec fn view(&self) -> HandleView {
        HandleView { count: self.handle, panics: self.panic@ }
    }
}

impl Handle {
    /// Creates a new handle with no tasks associated with it.
    /// Waiting for it returns immediately.
    pub fn new() -> (h: Handle)
        ensures
            h@ == (HandleView { count: 0, panics: seq![] }),
    {
        Handle { handle: 0, panic: AtomicLinkedList::new() }
    }

    /// Increments the number of unfinished tasks associated with the handle.
    pub fn inc(&mut self)
        requires
            old(self)@.count < usize::MAX,
        ensures
            final(self)@ == spec_handle_inc(old(self)@),
    {
        self.handle = self.handle + 1;
    }

    /// Decrements the number of unfinished tasks associated with the handle.
    /// Returns the decremented count.
    pub fn dec(&mut self) -> (count: usize)
        requires
            old(self)@.count > 0,
        ensures
            count == old(self)@.count - 1,
            final(self)@ == spec_handle_dec(old(self)@),
    {
        self.handle = self.handle - 1;
        self.handle
    }

    /// Returns `true` if all tasks associated with this handle have finished
    /// and the counter value is `0`.
    pub fn is_complete(&self) -> (b: bool)
        ensures
            b == (self@.count == 0),
    {
        self.handle == 0
    }

    /// Returns the number of unfinished tasks associated with the handle.
    pub fn load(&self) -> (count: usize)
        ensures
            count == self@.count,
    {
        self.handle
    }

    /// Adds a panic of a task associated with the handle, at the head of the panic list.
    pub fn add_panic(&mut self, panic: PanicPayload, task: Option<String>, scope: Option<String>)
        ensures
            final(self)@ == spec_handle_add_panic(old(self)@, TaskPanicInfo { panic, task, scope }),
    {
        self.panic.push(TaskPanicInfo::new(panic, task, scope));
    }

    /// Takes all panics off the handle, most recent first (`None` if there are none),
    /// leaving none.
    pub fn take_panics(&mut self) -> (panics: Option<TaskPanics>)
        ensures
            final(self)@ == (HandleView { panics: seq![], ..old(self)@ }),
            old(self)@.panics.len() == 0 ==> panics.is_none(),
            old(self)@.panics.len() > 0 ==> (panics matches Some(p) && p@ == old(self)@.panics),
    {
        match self.panic.take() {
            None => None,
            Some(list) => {
                let ghost all = list@;
                let mut it = list.into_iter();
                let mut v: Vec<TaskPanicInfo> = Vec::new();
                loop
                    invariant
                        v@ + it@ == all,
                    ensures
                        v@ == all,
                    decreases it@.len(),
                {
                    let ghost before = it@;
                    match it.next() {
                        Some(info) => {
                            v.push(info);
                            proof {
                                assert(v@ + it@ =~= all);
                            }
                        },
                        None => {
                            proof {
                                assert(v@ =~= all);
                            }
                            break;
                        },
                    }
                }
                proof {
                    assert(v@ =~= all);
                }
                Some(TaskPanics::new(v))
            },
        }
    }

    /// The outcome of waiting for the handle's tasks, once they are complete: all their panics,
    /// most recent first, if any task panicked (the panics are taken); success otherwise.
    pub fn take_result(&mut self) -> (r: Result<(), TaskPanics>)
        ensures
            final(self)@ == (HandleView { panics: seq![], ..old(self)@ }),
            r is Ok <==> old(self)@.panics.len() == 0,
            r matches Err(p) ==> p@ == old(self)@.panics,
    {
        match self.take_panics() {
            Some(panics) => Err(panics),
            None => Ok(()),
        }
    }
}

/// The handle after the panic `info` of one of its tasks is added.
pub open spec fn spec_handle_add_panic(v: HandleView, info: TaskPanicInfo) -> HandleView {
    HandleView { panics: seq![info] + v.panics, ..v }
}

/// The handle after the panics `infos` of its tasks are added, in order.
pub open spec fn spec_handle_add_panics(v: HandleView, infos: Seq<TaskPanicInfo>) -> HandleView
    decreases infos.len(),
{
    if infos.len() == 0 {
        v
    } else {
        spec_handle_add_panic(spec_handle_add_panics(v, infos.drop_last()), infos.last())
    }
}

/// Every panic added to a handle is reported when its panics are taken, most recent first:
/// after the panics `infos` are added in order, the handle holds `infos` reversed, ahead of
/// the panics it held before; its task count is unchanged.
pub proof fn lemma_panics_reported(v: HandleView, infos: Seq<TaskPanicInfo>)
    ensures
        spec_handle_add_panics(v, infos).panics == infos.reverse() + v.panics,
        spec_handle_add_panics(v, infos).count == v.count,
    decreases infos.len(),
{
    if infos.len() > 0 {
        let prev = infos.drop_last();
        lemma_panics_reported(v, prev);
        assert(infos.reverse() =~= seq![infos.last()] + prev.reverse());
        assert(spec_handle_add_panics(v, infos).panics =~= seq![infos.last()] + (prev.reverse() + v.panics));
    } else {
        assert(infos.reverse() =~= Seq::<TaskPanicInfo>::empty());
        assert(infos.reverse() + v.panics =~= v.panics);
    }
}

/// The handle after one more task is associated with it.
pub open spec fn spec_handle_inc(v: HandleView) -> HandleView {
    HandleView { count: (v.count + 1) as usize, ..v }
}

/// The handle after one of its tasks finished.
pub open spec fn spec_handle_dec(v: HandleView) -> HandleView {
    HandleView { count: (v.count - 1) as usize, ..v }
}

/// The handle after `n` tasks are associated with it.
pub open spec fn spec_handle_incs(v: HandleView, n: nat) -> HandleView
    decreases n,
{
    if n == 0 { v } else { spec_handle_inc(spec_handle_incs(v, (n - 1) as nat)) }
}

/// The handle after `n` of its tasks finished.
pub open spec fn spec_handle_decs(v: HandleView, n: nat) -> HandleView
    decreases n,
{
    if n == 0 { v } else { spec_handle_dec(spec_handle_decs(v, (n - 1) as nat)) }
}

/// A handle completes once every task associated with it has finished: starting from a
/// complete handle, `n` tasks make it incomplete and it is complete again once all `n`
/// finished, not before.
pub proof fn lemma_handle_completes(v: HandleView, n: nat, k: nat)
    requires
        v.count == 0,
        n <= usize::MAX,
        k <= n,
    ensures
        spec_handle_incs(v, n).count == n,
        spec_handle_decs(spec_handle_incs(v, n), k).count == n - k,
        spec_handle_decs(spec_handle_incs(v, n), k).count == 0 <==> k == n,
        spec_handle_decs(spec_handle_incs(v, n), k).panics == v.panics,
    decreases n + k,
{
    if k > 0 {
        lemma_handle_completes(v, n, (k - 1) as nat);
    } else if n > 0 {
        lemma_handle_completes(v, (n - 1) as nat, 0);
    }
}

/// Used by the task system to provide means for calling code to wait for task completion.
/// Multiple tasks may be associated with one `TaskHandle`.
pub struct TaskHandle(usize);

impl View for TaskHandle {
    type V = usize;

    /// Number of unfinished tasks associated with the handle.
    closed spec fn view(&self) -> usize {
        self.0
    }
}

impl TaskHandle {
    /// Creates a new handle with no tasks associated with it.
    pub fn new() -> (h: TaskHandle)
        ensures
            h@ == 0,
    {
        TaskHandle(0)
    }

    /// Increments the number of unfinished tasks associated with the handle.
    pub fn inc(&mut self)
        requires
            old(self)@ < usize::MAX,
        ensures
            final(self)@ == old(self)@ + 1,
    {
        self.0 = self.0 + 1;
    }

    /// Decrements the number of unfinished tasks associated with the handle.
    /// Returns the decremented count.
    pub fn dec(&mut self) -> (count: usize)
        requires
            old(self)@ > 0,
        ensures
            count == old(self)@ - 1,
            final(self)@ == count,
    {
        self.0 = self.0 - 1;
        self.0
    }

    /// Returns `true` if all tasks associated with this handle have finished.
    pub fn is_complete(&self) -> (b: bool)
        ensures
            b == (self@ == 0),
    {
        self.0 == 0
    }

    /// Returns the number of unfinished tasks associated with the handle.
    pub fn load(&self) -> (count: usize)
        ensures
            count == self@,
    {
        self.0
    }
}

} // verus!
