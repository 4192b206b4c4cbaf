//! A library for spawning child processes from a multithreaded program
//! without touching allocator or runtime state between fork and exec.
//!
//! Everything the child needs is staged in a dedicated arena (`lowlevel`)
//! before forking; the fork itself follows a fixed protocol that masks
//! signals and reports completion over a close-on-exec pipe; exited
//! children are reaped and their statuses fanned out to waiters
//! (`signal_fd`). Used arenas are recycled through a concurrent pool
//! (`stacks_queue`).

/// Typed errno results and the fixed errno-to-message table.
pub mod error;
/// The arena allocator and the fork protocol's decision core.
pub mod lowlevel;
/// Exit statuses of reaped children and their delivery to waiters.
pub mod signal_fd;
/// A concurrent pool recycling reserved stacks across spawn attempts.
pub mod stacks_queue;
/// Data for the syscall layer, and the rules of the executable search.
pub mod syscall;
/// Small helpers shared by callers of the library.
pub mod utility;

pub use error::SyscallError;
pub use error::toResult;
pub use lowlevel::{Stack, StackBox, StackObjectAllocator};
pub use signal_fd::ExitInfo;
pub use utility::{expect, unwrap};
