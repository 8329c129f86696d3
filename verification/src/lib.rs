//! Stack traces from the chain of saved frame pointers.
//!
//! Every function compiled with frame pointers leaves a two-word record on
//! the stack: the caller's frame pointer, and above it the address at which
//! the caller resumes. Following those records from the innermost frame
//! outwards yields the active call stack without any unwind tables, which is
//! what a sampling profiler or a crash handler needs inside a signal handler.
//!
//! This crate holds the decisions of such a tracer and proves them. It never
//! touches memory, registers or the kernel itself: each decision is a total
//! function on plain values, and the caller carries out what the function
//! asks for (visit an address, read a word, issue a system call) and reports
//! back what happened. Nothing here allocates, blocks or takes a lock.
//!
//! * [`registers`] decodes a saved machine context into the program counter
//!   and the frame pointer, for each supported platform.
//! * [`probe`] decides from the outcome of two system calls on a private
//!   pipe whether an address can be read without faulting.
//! * [`memory`] orders the probe and the read of one machine word.
//! * [`walker`] is the walk itself, one step at a time.
//! * [`unwinding`] states what a walk driven to its end produces on a given
//!   memory, and proves it.

pub mod memory;
pub mod probe;
pub mod registers;
pub mod unwinding;
pub mod walker;

pub use memory::load;
pub use probe::can_access;
pub use walker::{trace, trace_from_ucontext};
