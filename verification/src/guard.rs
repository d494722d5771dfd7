//! Scoped grants and subscriptions.
//!
//! A buffer lent to the kernel, or a callback bound to an event slot, must be
//! taken back before the memory behind it can be reused. Each successful
//! acquisition here hands back a guard value whose sole duty is reversing the
//! grant exactly once: releasing consumes the guard and issues the ABI's
//! revoke encoding (a zero-length grant, or the null binding) to the very
//! same slot, so a released guard cannot revoke a second time. The revoke's
//! own reply is deliberately ignored — there is no recovery from a failed
//! revoke, and the kernel always honors the revoke encodings.

use vstd::prelude::*;

use crate::abi::{spec_decode, decode, Decoded, Fault};
use crate::boundary::{AllowClass, CallbackBinding, Event, Syscalls};

verus! {

/// Scoped ownership of one kernel-visible buffer grant at (driver, slot).
pub struct Share {
    class: AllowClass,
    driver: u32,
    slot: u32,
}

impl Share {
    /// The grant color this guard was acquired with.
    pub closed spec fn class(&self) -> AllowClass {
        self.class
    }

    /// The driver the grant was issued to.
    pub closed spec fn driver(&self) -> u32 {
        self.driver
    }

    /// The buffer slot the grant occupies.
    pub closed spec fn slot(&self) -> u32 {
        self.slot
    }

    /// Lend the kernel visibility of `data` at (driver, slot). On success the
    /// returned guard owns the duty of revoking the grant; on failure no
    /// grant exists and no guard is produced. Exactly one allow syscall is
    /// issued either way.
    pub fn new<K: Syscalls>(
        kernel: &mut K,
        class: AllowClass,
        driver: u32,
        slot: u32,
        data: &[u8],
    ) -> (r: Result<Share, Fault>)
        ensures
            final(kernel).log().len() == old(kernel).log().len() + 1,
            final(kernel).log().drop_last() == old(kernel).log(),
            (final(kernel).log().last() matches Event::Allow {
                class: c,
                driver: d,
                slot: s,
                data: dd,
                reply: rep,
            } && c == class && d == driver && s == slot && dd == data@ && (match r {
                Ok(g) => (spec_decode(rep) is Success) && g.class() == class && g.driver()
                    == driver && g.slot() == slot,
                Err(Fault::Kernel(e)) => spec_decode(rep) == Decoded::Failure(e),
                Err(Fault::Protocol) => spec_decode(rep) is Violation,
            })),
    {
        let reply = kernel.allow(class, driver, slot, data);
        proof {
            assert(final(kernel).log().drop_last() =~= old(kernel).log());
        }
        match decode(reply) {
            Decoded::Success(_) => Ok(Share { class, driver, slot }),
            Decoded::Failure(e) => Err(Fault::Kernel(e)),
            Decoded::Violation => Err(Fault::Protocol),
        }
    }

    /// Revoke the grant: issue one zero-length allow to the same (driver,
    /// slot), with the same color. Consuming the guard makes a second revoke
    /// for this grant inexpressible. The revoke's reply is ignored.
    pub fn release<K: Syscalls>(self, kernel: &mut K)
        ensures
            final(kernel).log().len() == old(kernel).log().len() + 1,
            final(kernel).log().drop_last() == old(kernel).log(),
            (final(kernel).log().last() matches Event::Allow {
                class: c,
                driver: d,
                slot: s,
                data: dd,
                reply: _,
            } && c == self.class() && d == self.driver() && s == self.slot() && dd.len() == 0),
    {
        let empty: Vec<u8> = Vec::new();
        let _ = kernel.allow(self.class, self.driver, self.slot, empty.as_slice());
        proof {
            assert(final(kernel).log().drop_last() =~= old(kernel).log());
        }
    }
}

/// Scoped ownership of one kernel-visible callback registration at
/// (driver, slot).
pub struct SubscribeUpcall {
    driver: u32,
    slot: u32,
}

impl SubscribeUpcall {
    /// The driver the binding was registered with.
    pub closed spec fn driver(&self) -> u32 {
        self.driver
    }

    /// The event slot the binding occupies.
    pub closed spec fn slot(&self) -> u32 {
        self.slot
    }

    /// Register a live callback binding at (driver, slot). On success the
    /// returned guard owns the duty of unsubscribing it; on failure nothing
    /// is registered. Exactly one subscribe syscall is issued either way.
    /// The binding's referent must stay live and in place until release.
    pub fn new<K: Syscalls>(
        kernel: &mut K,
        driver: u32,
        slot: u32,
        binding: CallbackBinding,
    ) -> (r: Result<SubscribeUpcall, Fault>)
        requires
            binding.upcall != 0,
        ensures
            final(kernel).log().len() == old(kernel).log().len() + 1,
            final(kernel).log().drop_last() == old(kernel).log(),
            (final(kernel).log().last() matches Event::Subscribe {
                driver: d,
                slot: s,
                binding: b,
                reply: rep,
            } && d == driver && s == slot && b == binding && (match r {
                Ok(g) => (spec_decode(rep) is Success) && g.driver() == driver && g.slot()
                    == slot,
                Err(Fault::Kernel(e)) => spec_decode(rep) == Decoded::Failure(e),
                Err(Fault::Protocol) => spec_decode(rep) is Violation,
            })),
    {
        let reply = kernel.subscribe(driver, slot, binding);
        proof {
            assert(final(kernel).log().drop_last() =~= old(kernel).log());
        }
        match decode(reply) {
            Decoded::Success(_) => Ok(SubscribeUpcall { driver, slot }),
            Decoded::Failure(e) => Err(Fault::Kernel(e)),
            Decoded::Violation => Err(Fault::Protocol),
        }
    }

    /// Unsubscribe: issue one null-binding subscribe to the same (driver,
    /// slot). Consuming the guard makes a second unsubscribe for this
    /// registration inexpressible. The reply is ignored.
    pub fn release<K: Syscalls>(self, kernel: &mut K)
        ensures
            final(kernel).log().len() == old(kernel).log().len() + 1,
            final(kernel).log().drop_last() == old(kernel).log(),
            (final(kernel).log().last() matches Event::Subscribe {
                driver: d,
                slot: s,
                binding: b,
                reply: _,
            } && d == self.driver() && s == self.slot() && b.is_null()),
    {
        let _ = kernel.subscribe(self.driver, self.slot, CallbackBinding::null());
        proof {
            assert(final(kernel).log().drop_last() =~= old(kernel).log());
        }
    }
}

} // verus!
