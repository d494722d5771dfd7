//! The syscall boundary.
//!
//! The raw four-register syscall invocation is the kernel's half of the
//! contract and is out of this crate's hands: it is consumed through the
//! [`Syscalls`] trait. A kernel may answer a call with any reply at all — no
//! method here promises success — but every implementation must account for
//! each call it was handed in its ghost log, in order. Everything this crate
//! proves about grants, subscriptions and the IPC protocol is stated over
//! that log.

use vstd::prelude::*;

use crate::abi::Reply;

verus! {

/// Which visibility an allow syscall lends the kernel over a buffer.
#[derive(Clone, Copy, PartialEq, Eq, Structural, Debug)]
pub enum AllowClass {
    ReadOnly,
    ReadWrite,
}

/// A callback binding handed to a subscribe syscall: the trampoline word and
/// the opaque data word, exactly as they cross the register boundary. The
/// all-zero binding is the ABI's unsubscribe encoding.
#[derive(Clone, Copy, PartialEq, Eq, Structural, Debug)]
pub struct CallbackBinding {
    pub upcall: u32,
    pub data: u32,
}

impl CallbackBinding {
    /// Whether this is the null binding, the unsubscribe encoding.
    pub open spec fn is_null(self) -> bool {
        self.upcall == 0 && self.data == 0
    }

    /// The null binding: unsubscribes whatever is registered at a slot.
    pub fn null() -> (b: CallbackBinding)
        ensures
            b.is_null(),
    {
        CallbackBinding { upcall: 0, data: 0 }
    }
}

/// One completed syscall, as the kernel saw and answered it.
pub enum Event {
    Command { driver: u32, cmd: u32, arg0: u32, arg1: u32, reply: Reply },
    Allow { class: AllowClass, driver: u32, slot: u32, data: Seq<u8>, reply: Reply },
    Subscribe { driver: u32, slot: u32, binding: CallbackBinding, reply: Reply },
    Yield,
}

/// The syscall boundary. Each method issues one syscall and hands back the
/// kernel's raw reply; nothing is promised of the reply itself, only that the
/// call is accounted for at the end of the log.
pub trait Syscalls: Sized {
    /// Every syscall issued so far, in order, with its reply.
    spec fn log(&self) -> Seq<Event>;

    /// Issue a command syscall to a driver.
    fn command(&mut self, driver: u32, cmd: u32, arg0: u32, arg1: u32) -> (r: Reply)
        ensures
            final(self).log() == old(self).log().push(
                Event::Command { driver, cmd, arg0, arg1, reply: r },
            ),
    ;

    /// Lend the kernel visibility of `data` at (driver, slot); an empty
    /// buffer is the ABI's revoke encoding.
    fn allow(&mut self, class: AllowClass, driver: u32, slot: u32, data: &[u8]) -> (r: Reply)
        ensures
            final(self).log() == old(self).log().push(
                Event::Allow { class, driver, slot, data: data@, reply: r },
            ),
    ;

    /// Register a callback binding at (driver, slot); the null binding
    /// unsubscribes the slot.
    fn subscribe(&mut self, driver: u32, slot: u32, binding: CallbackBinding) -> (r: Reply)
        ensures
            final(self).log() == old(self).log().push(
                Event::Subscribe { driver, slot, binding, reply: r },
            ),
    ;

    /// Yield to the kernel scheduler without blocking: the point at which
    /// pending upcalls are delivered.
    fn yield_no_wait(&mut self)
        ensures
            final(self).log() == old(self).log().push(Event::Yield),
    ;
}

} // verus!
