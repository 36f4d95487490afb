//! Host-side control library for microVM and LibOS instances: configuration
//! validation, guest memory layout, the control-socket protocol and its
//! HyperAlloc scheduler, virtio-blk queue handling and related helpers.
use vstd::prelude::*;

pub mod allocator;
pub mod block;
pub mod bootparams;
pub mod cli;
pub mod command;
pub mod config;
pub mod console;
pub mod elf_load;
pub mod control;
pub mod control_poll;
pub mod control_report;
pub mod control_step;
pub mod hyperalloc;
pub mod initrd;
pub mod legacy;
pub mod ioctl_code;
pub mod memory;
pub mod pagecache;
pub mod proxy;
pub mod regs;
pub mod report;
pub mod resource;
pub mod scf;
pub mod shared_pages;
pub mod scheduler;
pub mod scheduler_report;
pub mod text;
pub mod utils;
pub mod vfio;
