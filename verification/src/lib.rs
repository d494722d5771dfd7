//! Userland runtime for kernel-mediated inter-process communication on a
//! memory-isolated embedded operating system.
//!
//! Processes talk to each other only through the kernel's register-based
//! syscall boundary: a process lends buffers (allow), registers callback
//! bindings (subscribe), and issues commands; the kernel answers each call
//! with a raw four-register reply and later re-enters the process through a
//! registered upcall. This crate provides the process-side machinery that
//! makes that boundary safe to use: decoding of raw replies, scoped guards
//! that revoke every grant and subscription they own, a cooperative executor
//! that drives checkpointed tasks while yielding to the kernel, and the IPC
//! service protocol (discovery, notification, buffer sharing) built on top.
//!
//! The raw syscall invocation itself is the kernel's half of the contract and
//! stands behind the [`boundary::Syscalls`] trait; [`mock::MockKernel`] is a
//! verified recording implementation of it for exercising the runtime.

pub mod abi;
pub mod boundary;
pub mod executor;
pub mod guard;
pub mod ipc;
pub mod mock;
