//! Parallel-for support: how a task range is divided into chunks
//! and in which order the chunks are forked off or executed.

use vstd::prelude::*;
use core::ops::Range;

verus! {

/// A range of task indices executed in parallel.
pub type TaskRange = Range<u32>;

/// Number of indices in `r` (negative when `r` is reversed).
pub open spec fn range_size(r: TaskRange) -> int {
    r.end - r.start
}

/// The range `start..end`.
pub open spec fn mk_range(start: int, end: int) -> TaskRange {
    Range { start: start as u32, end: end as u32 }
}

/// Left half of `r`, together with the chunks assigned to it.
pub open spec fn split_left(r: TaskRange, num_chunks: u32) -> (TaskRange, u32) {
    (mk_range(r.start as int, r.start + range_size(r) / 2), num_chunks / 2)
}

/// Right half of `r`, together with the chunks assigned to it.
pub open spec fn split_right(r: TaskRange, num_chunks: u32) -> (TaskRange, u32) {
    (mk_range(r.start + range_size(r) / 2, r.end as int), (num_chunks - num_chunks / 2) as u32)
}

/// The chunks `r` is finally executed in when it is distributed over `num_chunks` chunks:
/// the range is halved recursively, the chunk count halved with it (the right half gets the
/// odd chunk), until a range holds a single index or a single chunk.
pub open spec fn range_chunks(r: TaskRange, num_chunks: u32) -> Seq<TaskRange>
    decreases range_size(r),
{
    if range_size(r) <= 0 {
        seq![]
    } else if range_size(r) == 1 || num_chunks == 1 {
        seq![r]
    } else {
        let (l, nl) = split_left(r, num_chunks);
        let (rr, nr) = split_right(r, num_chunks);
        range_chunks(l, nl) + range_chunks(rr, nr)
    }
}

/// Splits the non-empty `range` in half, and `num_chunks > 1` between the two halves.
///
/// Returns the left half with its chunk count and the right half with its chunk count.
pub fn split_range(range: TaskRange, num_chunks: u32) -> (res: ((TaskRange, u32), (TaskRange, u32)))
    requires
        num_chunks > 1,
        range_size(range) >= 2,
    ensures
        res.0 == split_left(range, num_chunks),
        res.1 == split_right(range, num_chunks),
        res.0.1 >= 1,
        res.1.1 >= 1,
        range_size(res.0.0) >= 1,
        range_size(res.1.0) >= 1,
{
    let num_chunks_l: u32 = num_chunks / 2;
    let num_chunks_r: u32 = num_chunks - num_chunks_l;
    let range_size: u32 = range.end - range.start;
    let mid: u32 = range.start + range_size / 2;
    ((range.start..mid, num_chunks_l), (mid..range.end, num_chunks_r))
}

/// One step taken by a thread that forks a task range.
#[derive(Debug, PartialEq, Eq)]
pub enum ForkStep {
    /// Execute the chunk, either inline in the forking thread (`inline`)
    /// or in a newly submitted task.
    Execute { range: TaskRange, inline: bool },
    /// Submit a task which forks `range` further over `num_chunks` chunks,
    /// executing its last chunk inline.
    Fork { range: TaskRange, num_chunks: u32 },
}

/// The steps a thread takes to fork `r` over `num_chunks` chunks:
/// at each level the left half is handed to another task (as a chunk to execute, or as a
/// range to fork further), while the right half is subdivided in place; the last chunk is
/// executed inline if `inline`, else in a task of its own.
pub open spec fn fork_steps(r: TaskRange, num_chunks: u32, inline: bool) -> Seq<ForkStep>
    decreases range_size(r),
{
    if range_size(r) <= 0 {
        seq![]
    } else if range_size(r) == 1 || num_chunks == 1 {
        seq![ForkStep::Execute { range: r, inline }]
    } else {
        let (l, nl) = split_left(r, num_chunks);
        let (rr, nr) = split_right(r, num_chunks);
        let left = if nl == 1 {
            ForkStep::Execute { range: l, inline: false }
        } else {
            ForkStep::Fork { range: l, num_chunks: nl }
        };
        let rest = if nr == 1 {
            seq![ForkStep::Execute { range: rr, inline }]
        } else {
            fork_steps(rr, nr, inline)
        };
        seq![left] + rest
    }
}

/// Computes the steps a thread takes to fork the task range `range` over `num_chunks` chunks.
///
/// `num_chunks` must be at most the range size, and at least `1` unless the range holds
/// a single index (an empty range takes no steps).
pub fn fork_task_range(range: TaskRange, num_chunks: u32, inline: bool) -> (steps: Vec<ForkStep>)
    requires
        range_size(range) > 0 ==> num_chunks <= range_size(range),
        range_size(range) > 1 ==> num_chunks >= 1,
    ensures
        steps@ == fork_steps(range, num_chunks, inline),
{
    let mut steps: Vec<ForkStep> = Vec::new();
    if range.end <= range.start {
        return steps;
    }
    let mut cur: TaskRange = range.start..range.end;
    let mut n: u32 = num_chunks;
    let ghost r0 = range;
    assert(cur == r0);
    loop
        invariant
            r0 == range,
            range_size(cur) >= 1,
            n <= range_size(cur),
            range_size(cur) > 1 ==> n >= 1,
            steps@ + fork_steps(cur, n, inline) == fork_steps(r0, num_chunks, inline),
        decreases range_size(cur),
    {
        let size: u32 = cur.end - cur.start;
        if size == 1 || n == 1 {
            let step = ForkStep::Execute { range: cur.start..cur.end, inline };
            let ghost before = steps@;
            proof {
                assert(fork_steps(cur, n, inline) =~= seq![step]);
            }
            steps.push(step);
            proof {
                assert(steps@ =~= before + fork_steps(cur, n, inline));
            }
            return steps;
        }
        let ghost old_steps = steps@;
        let ghost old_cur = cur;
        let ((range_l, num_chunks_l), (range_r, num_chunks_r)) = split_range(cur.start..cur.end, n);
        if num_chunks_l == 1 {
            steps.push(ForkStep::Execute { range: range_l, inline: false });
        } else {
            steps.push(ForkStep::Fork { range: range_l, num_chunks: num_chunks_l });
        }
        if num_chunks_r == 1 {
            let step = ForkStep::Execute { range: range_r, inline };
            steps.push(step);
            proof {
                assert(steps@ =~= old_steps + fork_steps(old_cur, n, inline));
            }
            return steps;
        }
        proof {
            assert(steps@ + fork_steps(range_r, num_chunks_r, inline)
                =~= old_steps + fork_steps(old_cur, n, inline));
        }
        cur = range_r;
        n = num_chunks_r;
    }
}

/// `chunks` are non-empty ranges which, in order, cover `start..end` without gaps or overlaps.
pub open spec fn is_partition(chunks: Seq<TaskRange>, start: int, end: int) -> bool {
    &&& chunks.len() > 0
    &&& chunks[0].start == start
    &&& chunks.last().end == end
    &&& forall|i: int| 0 <= i < chunks.len() ==> #[trigger] chunks[i].start < chunks[i].end
    &&& forall|i: int| 0 <= i < chunks.len() - 1 ==> #[trigger] chunks[i].end == chunks[i + 1].start
}

proof fn lemma_partition_concat(a: Seq<TaskRange>, b: Seq<TaskRange>, start: int, mid: int, end: int)
    requires
        is_partition(a, start, mid),
        is_partition(b, mid, end),
    ensures
        is_partition(a + b, start, end),
        (a + b).len() == a.len() + b.len(),
{
    let c = a + b;
    assert forall|i: int| 0 <= i < c.len() implies #[trigger] c[i].start < c[i].end by {
        if i < a.len() {
            assert(c[i] == a[i]);
        } else {
            assert(c[i] == b[i - a.len()]);
        }
    }
    assert forall|i: int| 0 <= i < c.len() - 1 implies #[trigger] c[i].end == c[i + 1].start by {
        if i < a.len() - 1 {
            assert(c[i] == a[i]);
            assert(c[i + 1] == a[i + 1]);
        } else if i == a.len() - 1 {
            assert(c[i] == a.last());
            assert(c[i + 1] == b[0]);
        } else {
            assert(c[i] == b[i - a.len()]);
            assert(c[i + 1] == b[i - a.len() + 1]);
        }
    }
    assert(c.last() == b.last());
}

/// A non-empty range distributed over `num_chunks` chunks, `1 <= num_chunks <= size`,
/// is executed as exactly `num_chunks` non-empty chunks which cover the range in order,
/// without gaps or overlaps.
pub proof fn lemma_range_chunks_partition(r: TaskRange, num_chunks: u32)
    requires
        1 <= num_chunks <= range_size(r),
    ensures
        range_chunks(r, num_chunks).len() == num_chunks,
        is_partition(range_chunks(r, num_chunks), r.start as int, r.end as int),
    decreases range_size(r),
{
    if range_size(r) == 1 || num_chunks == 1 {
        let c = range_chunks(r, num_chunks);
        assert(c =~= seq![r]);
    } else {
        let (l, nl) = split_left(r, num_chunks);
        let (rr, nr) = split_right(r, num_chunks);
        assert(range_size(l) == range_size(r) / 2);
        assert(range_size(rr) == range_size(r) - range_size(r) / 2);
        lemma_range_chunks_partition(l, nl);
        lemma_range_chunks_partition(rr, nr);
        lemma_partition_concat(range_chunks(l, nl), range_chunks(rr, nr),
            r.start as int, r.start + range_size(r) / 2, r.end as int);
    }
}

/// The chunks a single fork step finally executes.
pub open spec fn step_chunks(step: ForkStep) -> Seq<TaskRange> {
    match step {
        ForkStep::Execute { range, inline } => seq![range],
        ForkStep::Fork { range, num_chunks } => range_chunks(range, num_chunks),
    }
}

/// The chunks a sequence of fork steps finally executes, in order.
pub open spec fn steps_chunks(steps: Seq<ForkStep>) -> Seq<TaskRange>
    decreases steps.len(),
{
    if steps.len() == 0 {
        seq![]
    } else {
        step_chunks(steps[0]) + steps_chunks(steps.drop_first())
    }
}

/// Forking a task range executes exactly the chunks of `range_chunks`:
/// the chunks executed directly, together with those of the forked sub-ranges,
/// are the range's chunks in order. Only the last step runs inline, and only if `inline`.
pub proof fn lemma_fork_steps_chunks(r: TaskRange, num_chunks: u32, inline: bool)
    requires
        1 <= num_chunks <= range_size(r),
    ensures
        steps_chunks(fork_steps(r, num_chunks, inline)) == range_chunks(r, num_chunks),
        fork_steps(r, num_chunks, inline).len() >= 1,
        fork_steps(r, num_chunks, inline).last() matches ForkStep::Execute { range, inline: i } && i == inline,
        forall|k: int| 0 <= k < fork_steps(r, num_chunks, inline).len() - 1 ==>
            !(#[trigger] fork_steps(r, num_chunks, inline)[k] matches ForkStep::Execute { range, inline: true }),
    decreases range_size(r),
{
    let steps = fork_steps(r, num_chunks, inline);
    if range_size(r) == 1 || num_chunks == 1 {
        assert(steps.drop_first() =~= seq![]);
        assert(steps_chunks(steps.drop_first()) =~= Seq::<TaskRange>::empty());
        assert(steps_chunks(steps) =~= range_chunks(r, num_chunks));
    } else {
        let (l, nl) = split_left(r, num_chunks);
        let (rr, nr) = split_right(r, num_chunks);
        let left = steps[0];
        let rest = steps.drop_first();
        if nr == 1 {
            assert(rest =~= seq![ForkStep::Execute { range: rr, inline }]);
            assert(rest.drop_first() =~= seq![]);
            assert(steps_chunks(rest.drop_first()) =~= Seq::<TaskRange>::empty());
            assert(range_size(rr) >= 1);
            assert(range_chunks(rr, nr) =~= seq![rr]);
            assert(steps_chunks(rest) =~= seq![rr]);
        } else {
            assert(rest =~= fork_steps(rr, nr, inline));
            lemma_fork_steps_chunks(rr, nr, inline);
        }
        if nl == 1 {
            assert(range_chunks(l, nl) =~= seq![l]);
        }
        assert(step_chunks(left) == range_chunks(l, nl));
        assert(steps_chunks(steps) =~= range_chunks(r, num_chunks));
        assert forall|k: int| 0 <= k < steps.len() - 1 implies
            !(#[trigger] steps[k] matches ForkStep::Execute { range, inline: true }) by {
            if k > 0 {
                assert(steps[k] == rest[k - 1]);
            }
        }
    }
}

/// The number of chunks a non-empty task range is distributed over:
/// `multiplier` chunks per thread (the worker threads and the "main" thread),
/// but no more chunks than indices.
pub open spec fn num_range_chunks(num_worker_threads: int, multiplier: int, r: TaskRange) -> int {
    let by_threads = (num_worker_threads + 1) * multiplier;
    if by_threads < range_size(r) { by_threads } else { range_size(r) }
}

/// Computes the steps the submitting thread takes to run the task range `range`
/// over a task system with `num_worker_threads` worker threads, `multiplier` chunks per thread.
///
/// An empty range takes no steps; otherwise the range is forked over
/// `num_range_chunks` chunks, none of them executed inline.
pub fn submit_range(num_worker_threads: usize, range: TaskRange, multiplier: u32) -> (steps: Vec<ForkStep>)
    requires
        num_worker_threads < u32::MAX,
        (num_worker_threads + 1) * multiplier <= u32::MAX,
        range_size(range) > 1 ==> multiplier >= 1,
    ensures
        range_size(range) <= 0 ==> steps@.len() == 0,
        range_size(range) > 0 ==> steps@ == fork_steps(
            range, num_range_chunks(num_worker_threads as int, multiplier as int, range) as u32, false),
{
    if range.end <= range.start {
        return Vec::new();
    }
    let range_size: u32 = range.end - range.start;
    let num_threads: u32 = (num_worker_threads + 1) as u32;
    proof {
        assert(num_threads * multiplier <= u32::MAX) by (nonlinear_arith)
            requires num_threads == num_worker_threads + 1,
                (num_worker_threads + 1) * multiplier <= u32::MAX;
        assert(multiplier >= 1 ==> num_threads * multiplier >= 1) by (nonlinear_arith)
            requires num_threads >= 1;
    }
    let by_threads: u32 = num_threads * multiplier;
    let num_chunks: u32 = if by_threads < range_size { by_threads } else { range_size };
    fork_task_range(range, num_chunks, false)
}

/// Parallel-for: a non-empty task range submitted to a task system with `num_worker_threads`
/// worker threads, `multiplier >= 1` chunks per thread, is executed as exactly
/// `num_range_chunks` non-empty chunks which cover the range in order, without gaps or overlaps.
pub proof fn lemma_submit_range_partition(num_worker_threads: int, multiplier: int, r: TaskRange)
    requires
        range_size(r) > 0,
        num_worker_threads >= 0,
        multiplier >= 1,
        (num_worker_threads + 1) * multiplier <= u32::MAX,
    ensures
        ({
            let n = num_range_chunks(num_worker_threads, multiplier, r);
            &&& 1 <= n <= range_size(r)
            &&& steps_chunks(fork_steps(r, n as u32, false)) == range_chunks(r, n as u32)
            &&& range_chunks(r, n as u32).len() == n
            &&& is_partition(range_chunks(r, n as u32), r.start as int, r.end as int)
        }),
{
    assert((num_worker_threads + 1) * multiplier >= 1) by (nonlinear_arith)
        requires num_worker_threads >= 0, multiplier >= 1;
    let n = num_range_chunks(num_worker_threads, multiplier, r);
    lemma_fork_steps_chunks(r, n as u32, false);
    lemma_range_chunks_partition(r, n as u32);
}

} // verus!
