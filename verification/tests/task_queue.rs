use minits::task_queue::{GetTask, LockedTaskQueue, NewOrResumedTask, TaskQueue, WakeUp};

#[test]
fn locked_queue_resumed_first_then_fifo() {
    let mut q: LockedTaskQueue<u32, char> = LockedTaskQueue::new();
    assert!(!q.add_task(NewOrResumedTask::New(1)));
    assert!(!q.add_task(NewOrResumedTask::New(2)));
    assert!(!q.add_task(NewOrResumedTask::Resumed('r')));
    assert_eq!(q.try_get_task(), Some(NewOrResumedTask::Resumed('r')));
    assert_eq!(q.try_get_task(), Some(NewOrResumedTask::New(1)));
    assert_eq!(q.try_get_task(), Some(NewOrResumedTask::New(2)));
    assert_eq!(q.try_get_task(), None);
    assert_eq!(q.try_get_resumed_task(), None);
}

#[test]
fn locked_queue_waiters_wake_up() {
    let mut q: LockedTaskQueue<u32, ()> = LockedTaskQueue::new();
    q.inc_num_waiters();
    assert!(q.add_task(NewOrResumedTask::New(1)));
    q.dec_num_waiters();
    assert!(!q.add_task(NewOrResumedTask::New(2)));
    q.inc_num_waiters();
    assert!(!q.signal_exit());
    assert!(q.exit());
    q.dec_num_waiters();
    assert!(q.signal_exit());
}

#[test]
fn main_thread_tasks_go_to_main_queue() {
    let mut q: TaskQueue<u32, u32> = TaskQueue::new();
    assert_eq!(q.add_new_task(1, true, false), WakeUp::Nobody);
    // A worker thread never picks up a "main" thread task.
    assert_eq!(q.get_task(false, false), GetTask::Nothing);
    assert_eq!(q.get_task(false, true), GetTask::Wait);
    assert_eq!(q.get_task(true, false), GetTask::Task(NewOrResumedTask::New(1)));
}

#[test]
fn main_thread_takes_worker_tasks_too() {
    let mut q: TaskQueue<u32, u32> = TaskQueue::new();
    q.add_new_task(1, false, true);
    q.add_new_task(2, true, true);
    assert_eq!(q.get_task(true, true), GetTask::Task(NewOrResumedTask::New(2)));
    assert_eq!(q.get_task(true, true), GetTask::Task(NewOrResumedTask::New(1)));
    assert_eq!(q.get_task(true, true), GetTask::Wait);
    assert_eq!(q.get_task(true, false), GetTask::Nothing);
}

#[test]
fn wake_up_decisions() {
    let mut q: TaskQueue<u32, u32> = TaskQueue::new();
    // No waiting worker: a worker thread adding a task wakes up the "main" thread to help.
    assert_eq!(q.add_new_task(1, false, false), WakeUp::MainThread);
    // ... but the "main" thread adding it wakes nobody.
    assert_eq!(q.add_new_task(2, false, true), WakeUp::Nobody);
    q.inc_num_waiters(false);
    assert_eq!(q.add_new_task(3, false, true), WakeUp::WorkerThread);
    q.dec_num_waiters(false);
    q.inc_num_waiters(true);
    assert_eq!(q.add_resumed_task(4, true, false), WakeUp::MainThread);
    q.dec_num_waiters(true);
    assert_eq!(q.try_get_resumed_task(false), None);
    assert_eq!(q.try_get_resumed_task(true), Some(4));
}

#[test]
fn workers_exit_on_shutdown() {
    let mut q: TaskQueue<u32, u32> = TaskQueue::new();
    q.add_new_task(1, false, true);
    q.inc_num_waiters(false);
    assert!(!q.wake_up_workers());
    q.dec_num_waiters(false);
    assert!(q.wake_up_workers());
    assert_eq!(q.get_task(false, true), GetTask::Nothing);
    // The "main" thread still gets the remaining task.
    assert_eq!(q.get_task(true, true), GetTask::Task(NewOrResumedTask::New(1)));
}
