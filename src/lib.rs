//! Shared-memory segments, typed placement inside them, and synchronization
//! primitives that work across processes.
//!
//! - [`segment`]: the allocation header of a segment, bump placement of values
//!   after it, and the size and alignment checks of overlaying a value.
//! - [`options`]: how a segment is opened or created, and its name.
//! - [`sync`]: a binary semaphore and a spinlock that live in shared memory.
//! - [`queue`]: a fixed-capacity circular queue whose slots live in a segment.
//! - [`error`]: what these report when something goes wrong.

pub mod error;
pub mod options;
pub mod queue;
pub mod segment;
pub mod sync;

pub use error::{Error, ErrorKind};
pub use options::OpenOptions;
pub use queue::{QueueError, QueueState, SharedQueue};
pub use segment::Header;
pub use sync::{BinarySemaphore, Spinlock};
