//! Core of a cooperative microcontroller kernel: the pending interrupt queue
//! and its dispatcher, process loading and isolation, the syscall driver
//! multiplexer with per-process state, and the byte-to-page storage bridge.
pub mod ring_buffer;
pub mod chip;
pub mod return_code;
pub mod nonvolatile_to_pages;
pub mod process;
pub mod container;
pub mod driver;
pub mod sched;
pub mod signbus;
