//! Interrupt-driven cooperative task scheduling for a small x86-64 kernel.
//!
//! The hardware-facing parts (port I/O, descriptor tables, the `hlt`
//! instruction) live outside this library; what is kept here are the rules
//! that decide what those parts do, each stated and proved.

mod queue;
pub mod task;
pub mod executor;
pub mod keyboard;
pub mod pic;
pub mod syscall;
pub mod idt;
pub mod time;
pub mod cmos;
pub mod clock;
pub mod fs;
pub mod ata;
pub mod allocator;
pub mod keypress;
