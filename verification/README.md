# minits

A minimalistic task (job) system. Tasks are closures added to the system through a
`Scope`, which waits for them (and reports their panics) before it goes out of scope;
task ranges (parallel-for) are split in half recursively over the system's threads.

- `src/` is the verified core (Verus): the task queues and who picks up what, the yield
  queue and the two-phase protocol that resumes a waiting task, the fiber pool, the per-thread
  state, the division of task ranges into chunks, scope handles and panic reports, the
  builder parameters, and the arithmetic of file IO requests. Laws that span several calls
  are stated as public proof functions (`lemma_*`) in the modules they concern (`range`,
  `yield_queue`, `task_queue`, `scheduler`, `fiber_pool`, `handle`, `linked_list`,
  `singleton`, `builder`); the other modules state what they do in their functions'
  contracts alone.
- `app/` runs that core: worker threads, blocking and waking them, executing task closures,
  scopes, the global task system, and the OS queries (core count, file IO).
- `tests/` exercises the core on concrete values.

Fibers, graph tasks, the Remotery profiler and asynchronous IO completion rest on crates
that are not available to this build. So `app/` runs every task on the worker-thread
stacks (the scheduler's fiber decisions in `src/` are verified and tested, but `app/` does
not call them), a pending file read or write blocks its thread instead of yielding the
task, and there are no graph tasks or Remotery profiler. The scheduling state is shared
between threads behind a single lock in `app/`; `src/` models each structure sequentially.
