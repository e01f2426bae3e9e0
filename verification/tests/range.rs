use minits::range::{fork_task_range, split_range, submit_range, ForkStep, TaskRange};

/// Runs the fork steps the way the task system does, collecting the executed chunks in order.
fn collect(range: TaskRange, num_chunks: u32, inline: bool, out: &mut Vec<TaskRange>) {
    for step in fork_task_range(range, num_chunks, inline) {
        match step {
            ForkStep::Execute { range, .. } => out.push(range),
            ForkStep::Fork { range, num_chunks } => collect(range, num_chunks, true, out),
        }
    }
}

fn check_partition(range: TaskRange, num_chunks: u32) {
    let mut chunks = Vec::new();
    collect(range.clone(), num_chunks, false, &mut chunks);
    assert_eq!(chunks.len() as u32, num_chunks);
    assert_eq!(chunks[0].start, range.start);
    assert_eq!(chunks.last().unwrap().end, range.end);
    for c in &chunks {
        assert!(c.start < c.end);
    }
    for w in chunks.windows(2) {
        assert_eq!(w[0].end, w[1].start);
    }
}

#[test]
fn split_range_halves() {
    assert_eq!(split_range(0..5, 3), ((0..2, 1), (2..5, 2)));
    assert_eq!(split_range(10..12, 2), ((10..11, 1), (11..12, 1)));
    assert_eq!(split_range(0..32, 4), ((0..16, 2), (16..32, 2)));
}

#[test]
fn fork_steps_of_readme_range() {
    assert_eq!(
        fork_task_range(0..32, 4, false),
        vec![
            ForkStep::Fork { range: 0..16, num_chunks: 2 },
            ForkStep::Execute { range: 16..24, inline: false },
            ForkStep::Execute { range: 24..32, inline: false },
        ]
    );
    assert_eq!(
        fork_task_range(0..16, 2, true),
        vec![
            ForkStep::Execute { range: 0..8, inline: false },
            ForkStep::Execute { range: 8..16, inline: true },
        ]
    );
}

#[test]
fn fork_trivial_ranges() {
    assert_eq!(fork_task_range(5..5, 1, true), vec![]);
    assert_eq!(fork_task_range(5..3, 1, true), vec![]);
    assert_eq!(fork_task_range(5..6, 1, true), vec![ForkStep::Execute { range: 5..6, inline: true }]);
    assert_eq!(fork_task_range(5..6, 0, false), vec![ForkStep::Execute { range: 5..6, inline: false }]);
    assert_eq!(fork_task_range(0..100, 1, false), vec![ForkStep::Execute { range: 0..100, inline: false }]);
}

#[test]
fn fork_odd_chunks() {
    assert_eq!(
        fork_task_range(0..10, 3, true),
        vec![
            ForkStep::Execute { range: 0..5, inline: false },
            ForkStep::Execute { range: 5..7, inline: false },
            ForkStep::Execute { range: 7..10, inline: true },
        ]
    );
}

#[test]
fn chunks_partition_the_range() {
    for size in 1..40u32 {
        for n in 1..=size {
            check_partition(3..3 + size, n);
        }
    }
    check_partition(1..64 * 1024, 4);
    check_partition(0..1000, 7);
}

#[test]
fn submit_range_chunk_count() {
    // 3 worker threads and the "main" thread, one chunk each.
    assert_eq!(submit_range(3, 0..32, 1), fork_task_range(0..32, 4, false));
    // No more chunks than indices.
    assert_eq!(
        submit_range(3, 0..2, 4),
        vec![
            ForkStep::Execute { range: 0..1, inline: false },
            ForkStep::Execute { range: 1..2, inline: false },
        ]
    );
    // Single-threaded: one chunk.
    assert_eq!(submit_range(0, 1..64 * 1024, 1), vec![ForkStep::Execute { range: 1..64 * 1024, inline: false }]);
    // Empty range: nothing.
    assert_eq!(submit_range(3, 7..7, 1), vec![]);
}

#[test]
fn task_range_plan_sum() {
    let range = 1..64 * 1024;
    let sum_serial = range.clone().fold(0u32, |sum, val| sum + val);
    for workers in [0usize, 3, 7] {
        for multiplier in [1u32, 2, 64] {
            let mut chunks = Vec::new();
            for step in submit_range(workers, range.clone(), multiplier) {
                match step {
                    ForkStep::Execute { range, .. } => chunks.push(range),
                    ForkStep::Fork { range, num_chunks } => collect(range, num_chunks, true, &mut chunks),
                }
            }
            assert_eq!(chunks.len() as u32, (workers as u32 + 1) * multiplier);
            let sum_parallel = chunks.into_iter().map(|r| r.fold(0u32, |s, v| s + v)).sum::<u32>();
            assert_eq!(sum_serial, sum_parallel);
        }
    }
}
