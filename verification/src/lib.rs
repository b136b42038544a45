//! Core of a small x86 operating-system kernel: the boot-to-kernel handoff
//! contract, the memory subsystem (physical-frame allocator, page-table
//! construction, page-fault recording, early bump heap), a periodic timer,
//! and a preemptive round-robin scheduler with software-saved register
//! context.
//!
//! The architecture trampolines that actually program the CPU (control
//! registers, descriptor tables, port I/O) are out of scope; this crate
//! defines and verifies the data they consume and the decisions they carry
//! out.

pub mod allocator;
pub mod boot;
pub mod descriptors;
pub mod frame_allocator;
pub mod ipc;
pub mod memory;
pub mod page_fault;
pub mod paging;
pub mod scheduler;
pub mod syscall;
pub mod timer;
