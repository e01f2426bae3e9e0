//! The queue of yielded tasks: tasks (with their fibers) that wait for a dependency,
//! keyed by the dependency they wait for.

use vstd::prelude::*;

verus! {

/// Unique identifier of a yield operation (in the task system, the address of the
/// waited-on handle or IO operation).
pub type YieldKey = usize;

/// The state of a yielded task.
#[derive(Debug, Clone, Copy, PartialEq, Eq)]
pub enum YieldStatus {
    /// Pushed to the yield queue, but the yielding thread still runs its fiber:
    /// it may not be switched to yet.
    NotReady,
    /// May be picked up and switched to.
    Ready,
}

/// The mathematical content of a [`YieldQueue`]: three sequences of equal length,
/// entry `i` being the task `tasks[i]`, yielded with key `keys[i]`, in status `statuses[i]`.
pub struct YieldQueueView<T> {
    pub tasks: Seq<T>,
    pub keys: Seq<YieldKey>,
    pub statuses: Seq<YieldStatus>,
}

/// Contains yielded tasks, their yield keys and statuses.
pub struct YieldQueue<T> {
    tasks: Vec<T>,
    keys: Vec<YieldKey>,
    statuses: Vec<YieldStatus>,
}

impl<T> View for YieldQueue<T> {
    type V = YieldQueueView<T>;

    closed spec fn view(&self) -> YieldQueueView<T> {
        YieldQueueView { tasks: self.tasks@, keys: self.keys@, statuses: self.statuses@ }
    }
}

/// The three sequences have equal length and no key occurs twice.
pub open spec fn yield_queue_wf<T>(v: YieldQueueView<T>) -> bool {
    &&& v.tasks.len() == v.keys.len()
    &&& v.keys.len() == v.statuses.len()
    &&& v.keys.no_duplicates()
}

/// The index of the entry yielded with `key` (meaningful only if `v.keys` contains it).
pub open spec fn key_index<T>(v: YieldQueueView<T>, key: YieldKey) -> int {
    choose|i: int| 0 <= i < v.keys.len() && v.keys[i] == key
}

/// `s` with its element `i` replaced by its last element, and the last element dropped.
pub open spec fn swap_removed<A>(s: Seq<A>, i: int) -> Seq<A> {
    s.update(i, s.last()).drop_last()
}

/// The queue after `task` is yielded with `key`: a new entry at the end, `NotReady`.
pub open spec fn spec_yield_task<T>(v: YieldQueueView<T>, task: T, key: YieldKey) -> YieldQueueView<T> {
    YieldQueueView {
        tasks: v.tasks.push(task),
        keys: v.keys.push(key),
        statuses: v.statuses.push(YieldStatus::NotReady),
    }
}

/// The queue after an attempt to resume the task yielded with `key`, and the task resumed:
/// no entry with `key` - nothing changes, no task;
/// a `NotReady` entry - it becomes `Ready`, no task;
/// a `Ready` entry - it is removed (the last entry takes its place) and its task returned.
pub open spec fn spec_try_resume_task<T>(v: YieldQueueView<T>, key: YieldKey) -> (YieldQueueView<T>, Option<T>) {
    if !v.keys.contains(key) {
        (v, None)
    } else {
        let i = key_index(v, key);
        match v.statuses[i] {
            YieldStatus::NotReady => (
                YieldQueueView { statuses: v.statuses.update(i, YieldStatus::Ready), ..v },
                None,
            ),
            YieldStatus::Ready => (
                YieldQueueView {
                    tasks: swap_removed(v.tasks, i),
                    keys: swap_removed(v.keys, i),
                    statuses: swap_removed(v.statuses, i),
                },
                Some(v.tasks[i]),
            ),
        }
    }
}

impl<T> YieldQueue<T> {
    /// The queue is well formed: see [`yield_queue_wf`].
    pub open spec fn wf(&self) -> bool {
        yield_queue_wf(self@)
    }

    /// Creates an empty yield queue.
    pub fn new() -> (q: Self)
        ensures
            q.wf(),
            q@.tasks.len() == 0,
    {
        YieldQueue { tasks: Vec::new(), keys: Vec::new(), statuses: Vec::new() }
    }

    /// Adds a yielded task with the `yield_key`, with the `NotReady` status.
    ///
    /// No task may already be yielded with the same key.
    pub fn yield_task(&mut self, task: T, yield_key: YieldKey)
        requires
            old(self).wf(),
            !old(self)@.keys.contains(yield_key),
        ensures
            final(self).wf(),
            final(self)@ == spec_yield_task(old(self)@, task, yield_key),
    {
        self.tasks.push(task);
        self.keys.push(yield_key);
        self.statuses.push(YieldStatus::NotReady);
        proof {
            let ks = self.keys@;
            assert forall|i: int, j: int| 0 <= i < ks.len() && 0 <= j < ks.len() && i != j
                implies ks[i] != ks[j] by {
                if i == ks.len() - 1 {
                    assert(old(self)@.keys.contains(ks[j]) ==> ks[j] != yield_key);
                    assert(old(self)@.keys[j] == ks[j]);
                } else if j == ks.len() - 1 {
                    assert(old(self)@.keys[i] == ks[i]);
                } else {
                    assert(old(self)@.keys[i] == ks[i]);
                    assert(old(self)@.keys[j] == ks[j]);
                }
            }
        }
    }

    /// Tries to resume a `Ready` task with the `yield_key` (removing and returning it),
    /// or marks a `NotReady` task with the `yield_key` as now `Ready`.
    pub fn try_resume_task(&mut self, yield_key: YieldKey) -> (task: Option<T>)
        requires
            old(self).wf(),
        ensures
            final(self).wf(),
            (final(self)@, task) == spec_try_resume_task(old(self)@, yield_key),
    {
        let len: usize = self.keys.len();
        let mut idx: usize = 0;
        while idx < len
            invariant
                len == self.keys@.len(),
                idx <= len,
                forall|j: int| 0 <= j < idx ==> self.keys@[j] != yield_key,
            ensures
                idx <= len,
                idx < len ==> self.keys@[idx as int] == yield_key,
                forall|j: int| 0 <= j < idx ==> self.keys@[j] != yield_key,
            decreases len - idx,
        {
            if self.keys[idx] == yield_key {
                break;
            }
            idx = idx + 1;
        }
        if idx == len {
            proof {
                assert(!self@.keys.contains(yield_key));
            }
            return None;
        }
        proof {
            let v = self@;
            assert(v.keys[idx as int] == yield_key);
            assert(v.keys.contains(yield_key));
            let i = key_index(v, yield_key);
            assert(v.keys[i] == yield_key);
            assert(i == idx as int);
        }
        let ghost v0 = self@;
        match self.statuses[idx] {
            YieldStatus::NotReady => {
                self.statuses.set(idx, YieldStatus::Ready);
                None
            },
            YieldStatus::Ready => {
                let task = self.tasks.swap_remove(idx);
                self.keys.swap_remove(idx);
                self.statuses.swap_remove(idx);
                proof {
                    let ks = self.keys@;
                    let ok = v0.keys;
                    assert forall|a: int, b: int| 0 <= a < ks.len() && 0 <= b < ks.len() && a != b
                        implies ks[a] != ks[b] by {
                        let ia = if a == idx as int { ok.len() - 1 } else { a };
                        let ib = if b == idx as int { ok.len() - 1 } else { b };
                        assert(ks[a] == ok[ia]);
                        assert(ks[b] == ok[ib]);
                    }
                }
                Some(task)
            },
        }
    }
}

/// The two-phase resume protocol: once a task is yielded with a fresh key, the first attempt
/// to resume it only marks it ready, the second returns it and leaves the queue as it was
/// before the yield.
pub proof fn lemma_yield_then_resume_twice<T>(v: YieldQueueView<T>, task: T, key: YieldKey)
    requires
        yield_queue_wf(v),
        !v.keys.contains(key),
    ensures
        ({
            let v1 = spec_yield_task(v, task, key);
            let (v2, r1) = spec_try_resume_task(v1, key);
            let (v3, r2) = spec_try_resume_task(v2, key);
            &&& r1.is_none()
            &&& r2 == Some(task)
            &&& v3 == v
        }),
{
    let v1 = spec_yield_task(v, task, key);
    let n = v.keys.len() as int;
    assert(v1.keys[n] == key);
    assert(v1.keys.contains(key));
    let i1 = key_index(v1, key);
    assert(v1.keys.no_duplicates()) by {
        assert forall|a: int, b: int| 0 <= a < v1.keys.len() && 0 <= b < v1.keys.len() && a != b
            implies v1.keys[a] != v1.keys[b] by {
            if a == n {
                assert(v.keys.contains(v1.keys[b]) ==> v1.keys[b] != key);
                assert(v.keys[b] == v1.keys[b]);
            } else if b == n {
                assert(v.keys.contains(v1.keys[a]));
            }
        }
    }
    assert(i1 == n);
    let (v2, r1) = spec_try_resume_task(v1, key);
    assert(v2.keys == v1.keys);
    assert(v2.keys.contains(key));
    let i2 = key_index(v2, key);
    assert(i2 == n);
    let (v3, r2) = spec_try_resume_task(v2, key);
    assert(v3.tasks =~= v.tasks);
    assert(v3.keys =~= v.keys);
    assert(v3.statuses =~= v.statuses);
}

/// Resuming with a key no task was yielded with changes nothing and resumes nothing.
pub proof fn lemma_resume_absent_key<T>(v: YieldQueueView<T>, key: YieldKey)
    requires
        !v.keys.contains(key),
    ensures
        spec_try_resume_task(v, key) == (v, Option::<T>::None),
{
}

/// The task and status of the entry yielded with `key`, if any.
pub open spec fn entry<T>(v: YieldQueueView<T>, key: YieldKey) -> Option<(T, YieldStatus)> {
    if v.keys.contains(key) {
        let i = key_index(v, key);
        Some((v.tasks[i], v.statuses[i]))
    } else {
        None
    }
}

/// In a well-formed queue, the entry at index `i` is the one its key finds.
proof fn lemma_key_index<T>(v: YieldQueueView<T>, key: YieldKey, i: int)
    requires
        yield_queue_wf(v),
        0 <= i < v.keys.len(),
        v.keys[i] == key,
    ensures
        v.keys.contains(key),
        key_index(v, key) == i,
{
    assert(v.keys.contains(key));
    let j = key_index(v, key);
    assert(0 <= j < v.keys.len() && v.keys[j] == key);
}

/// Yielding a task with a fresh key adds its entry, `NotReady`, and leaves the entries of all
/// other keys as they were.
pub proof fn lemma_yield_task_entries<T>(v: YieldQueueView<T>, task: T, key: YieldKey)
    requires
        yield_queue_wf(v),
        !v.keys.contains(key),
    ensures
        yield_queue_wf(spec_yield_task(v, task, key)),
        entry(spec_yield_task(v, task, key), key) == Some((task, YieldStatus::NotReady)),
        forall|other: YieldKey| other != key ==> #[trigger] entry(spec_yield_task(v, task, key), other) == entry(v, other),
{
    let v1 = spec_yield_task(v, task, key);
    let n = v.keys.len() as int;
    assert forall|a: int, b: int| 0 <= a < v1.keys.len() && 0 <= b < v1.keys.len() && a != b
        implies v1.keys[a] != v1.keys[b] by {
        if a == n {
            assert(v.keys.contains(v1.keys[b]) ==> v1.keys[b] != key);
            assert(v.keys[b] == v1.keys[b]);
        } else if b == n {
            assert(v.keys.contains(v1.keys[a]));
        }
    }
    lemma_key_index(v1, key, n);
    assert forall|other: YieldKey| other != key implies #[trigger] entry(v1, other) == entry(v, other) by {
        if v.keys.contains(other) {
            let i = key_index(v, other);
            assert(v1.keys[i] == other);
            lemma_key_index(v1, other, i);
        } else {
            if v1.keys.contains(other) {
                let j = choose|j: int| 0 <= j < v1.keys.len() && v1.keys[j] == other;
                assert(j != n);
                assert(v.keys[j] == other);
            }
        }
    }
}

/// Resuming with `key` leaves the entries of all other keys as they were. Of the entry with
/// `key`: none - nothing changes and nothing is resumed; `NotReady` - it becomes `Ready` and
/// nothing is resumed; `Ready` - it is removed and its task resumed.
pub proof fn lemma_try_resume_task_entries<T>(v: YieldQueueView<T>, key: YieldKey)
    requires
        yield_queue_wf(v),
    ensures
        ({
            let (v1, r) = spec_try_resume_task(v, key);
            &&& yield_queue_wf(v1)
            &&& forall|other: YieldKey| other != key ==> #[trigger] entry(v1, other) == entry(v, other)
            &&& match entry(v, key) {
                None => r.is_none() && v1 == v,
                Some((t, YieldStatus::NotReady)) => r.is_none() && entry(v1, key) == Some((t, YieldStatus::Ready)),
                Some((t, YieldStatus::Ready)) => r == Some(t) && entry(v1, key).is_none(),
            }
        }),
{
    let (v1, r) = spec_try_resume_task(v, key);
    if !v.keys.contains(key) {
        return;
    }
    let k = key_index(v, key);
    let n = v.keys.len() - 1;
    match v.statuses[k] {
        YieldStatus::NotReady => {
            assert(v1.keys == v.keys);
            lemma_key_index(v1, key, k);
            assert forall|other: YieldKey| other != key implies #[trigger] entry(v1, other) == entry(v, other) by {
                if v.keys.contains(other) {
                    let i = key_index(v, other);
                    lemma_key_index(v1, other, i);
                }
            }
        },
        YieldStatus::Ready => {
            assert forall|a: int, b: int| 0 <= a < v1.keys.len() && 0 <= b < v1.keys.len() && a != b
                implies v1.keys[a] != v1.keys[b] by {
                let ia = if a == k { n } else { a };
                let ib = if b == k { n } else { b };
                assert(v1.keys[a] == v.keys[ia]);
                assert(v1.keys[b] == v.keys[ib]);
            }
            assert(!v1.keys.contains(key)) by {
                if v1.keys.contains(key) {
                    let j = choose|j: int| 0 <= j < v1.keys.len() && v1.keys[j] == key;
                    let ij = if j == k { n } else { j };
                    assert(v1.keys[j] == v.keys[ij]);
                }
            }
            assert forall|other: YieldKey| other != key implies #[trigger] entry(v1, other) == entry(v, other) by {
                if v.keys.contains(other) {
                    let i = key_index(v, other);
                    let i1 = if i == n { k } else { i };
                    assert(v1.keys[i1] == other);
                    lemma_key_index(v1, other, i1);
                } else if v1.keys.contains(other) {
                    let j = choose|j: int| 0 <= j < v1.keys.len() && v1.keys[j] == other;
                    let ij = if j == k { n } else { j };
                    assert(v1.keys[j] == v.keys[ij]);
                }
            }
        },
    }
}

} // verus!
