//! A task (job) system core: the scheduling data structures and decisions,
//! verified with Verus.

pub mod range;
pub mod yield_queue;
pub mod task_queue;
pub mod fiber_pool;
pub mod thread;
pub mod task;
pub mod scheduler;
pub mod linked_list;
pub mod panic;
pub mod handle;
pub mod singleton;
pub mod builder;
pub mod closure_holder;
pub mod reference_holder;
pub mod profiler;
pub mod num_cores;
pub mod io;

pub use builder::{TaskSystemBuilder, ThreadInitFiniCallback};
pub use handle::{Handle, TaskHandle};
pub use panic::{PanicPayload, TaskPanicInfo, TaskPanics, TaskPanicsIntoIter};
pub use profiler::{Profiler, TaskSystemProfiler};
pub use range::TaskRange;
pub use singleton::Singleton;
