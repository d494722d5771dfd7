//! The IPC service protocol.
//!
//! Service discovery by package name, per-process notification callbacks,
//! cross-process notification, and buffer sharing. These operations sit
//! directly on the raw syscalls rather than on the scoped guards, because the
//! kernel multiplexes IPC by *service identity* — a peer process's id is the
//! subscribe or allow slot — not by a static slot number. Two of them,
//! [`Ipc::register`] and [`Ipc::share`], deliberately break the scoped-guard
//! discipline used elsewhere: a service's callback and a shared buffer must
//! outlive any use by the peer, a lifetime this layer cannot bound, so
//! nothing is auto-revoked and the caller carries the lifetime contract.
//!
//! Per service relationship the protocol only moves forward — unknown, then
//! discovered (identity in hand), then registered (inbound callback bound),
//! then sharing (buffer granted) — each transition one explicit call below;
//! the kernel recognizes no implicit teardown short of process exit.

use vstd::prelude::*;

use crate::abi::{spec_decode, decode, spec_unit_result, unit_result, Decoded, Fault, Reply,
    SuccessValues};
use crate::boundary::{AllowClass, CallbackBinding, Event, Syscalls};
use crate::guard::Share;

verus! {

/// The fixed driver identity of the IPC driver.
pub const IPC_DRIVER: u32 = 0x10000;

/// Command opcode: probe for the driver's presence.
pub const COMMAND_EXISTS: u32 = 0;

/// Command opcode: discover a service by the name lent at the search slot.
pub const COMMAND_DISCOVER: u32 = 1;

/// Command opcode: notify the service with the given identity.
pub const COMMAND_NOTIFY_SERVICE: u32 = 2;

/// Command opcode: notify the client with the given identity.
pub const COMMAND_NOTIFY_CLIENT: u32 = 3;

/// Read-only allow slot holding the name a discovery searches for.
pub const ALLOW_SEARCH: u32 = 0;

/// The capability a process exposes to inbound IPC notifications. The
/// kernel-facing trampoline reconstructs the registered callback object from
/// the binding's opaque word and delivers the peer's identity and a view of
/// the peer-shared buffer (empty if none) to this method. The object must
/// stay live and unmoved for the whole registration. The buffer the kernel
/// shares is itself writable; it is delivered read-only here, since a
/// contract cannot carry a mutable byte view, and a callback that writes back
/// into the shared buffer does so through the platform layer's trampoline.
pub trait IpcCallback {
    /// Handle one notification from peer `pid`.
    fn call(&mut self, pid: u32, data: &[u8]);
}

/// The compile-time buffer-allow policy: consumed by the platform layer that
/// performs real syscalls, never implemented by this runtime.
pub trait Config {}

/// What a discovery surfaces for the reply of its discover command: the
/// discovered service identity on a one-value success, the kernel's error on
/// the documented failure shape, and a protocol fault on any shape the
/// discovery exchange does not document.
pub open spec fn spec_discover_result(rep: Reply) -> Result<u32, Fault> {
    match spec_decode(rep) {
        Decoded::Success(SuccessValues::U32(v)) => Ok(v),
        Decoded::Success(_) => Err(Fault::Protocol),
        Decoded::Failure(e) => Err(Fault::Kernel(e)),
        Decoded::Violation => Err(Fault::Protocol),
    }
}

fn discover_result(rep: Reply) -> (r: Result<u32, Fault>)
    ensures
        r == spec_discover_result(rep),
{
    match decode(rep) {
        Decoded::Success(SuccessValues::U32(v)) => Ok(v),
        Decoded::Success(_) => Err(Fault::Protocol),
        Decoded::Failure(e) => Err(Fault::Kernel(e)),
        Decoded::Violation => Err(Fault::Protocol),
    }
}

/// What the kernel saw during a discovery that started against `pre` and left
/// `post`: first the name lent read-only at the search slot; then, exactly
/// when that grant was established, the discover command whose reply decides
/// the result, and the grant's revocation before returning — regardless of
/// the command's outcome. When the grant failed, nothing further was issued
/// and the failure is surfaced unchanged.
pub open spec fn discover_events(
    pre: Seq<Event>,
    post: Seq<Event>,
    name: Seq<u8>,
    r: Result<u32, Fault>,
) -> bool {
    let i = pre.len() as int;
    &&& post.len() > i
    &&& post.subrange(0, i) == pre
    &&& match post[i] {
        Event::Allow { class, driver, slot, data, reply } => {
            &&& class == AllowClass::ReadOnly
            &&& driver == IPC_DRIVER
            &&& slot == ALLOW_SEARCH
            &&& data == name
            &&& if spec_decode(reply) is Success {
                post.len() == i + 3 && discover_followup(post, i, r)
            } else {
                post.len() == i + 1 && r == (match spec_decode(reply) {
                    Decoded::Failure(e) => Err::<u32, Fault>(Fault::Kernel(e)),
                    _ => Err::<u32, Fault>(Fault::Protocol),
                })
            }
        },
        _ => false,
    }
}

/// The two events that follow an established search grant: the discover
/// command, then the zero-length revoke of the search slot.
pub open spec fn discover_followup(post: Seq<Event>, i: int, r: Result<u32, Fault>) -> bool {
    &&& match post[i + 1] {
        Event::Command { driver, cmd, arg0, arg1, reply } => {
            &&& driver == IPC_DRIVER
            &&& cmd == COMMAND_DISCOVER
            &&& arg0 == 0
            &&& arg1 == 0
            &&& r == spec_discover_result(reply)
        },
        _ => false,
    }
    &&& match post[i + 2] {
        Event::Allow { class, driver, slot, data, .. } => {
            &&& class == AllowClass::ReadOnly
            &&& driver == IPC_DRIVER
            &&& slot == ALLOW_SEARCH
            &&& data.len() == 0
        },
        _ => false,
    }
}

/// The IPC service protocol's operations.
pub struct Ipc;

impl Ipc {
    /// Probe for the presence of the IPC driver via the zero-argument exists
    /// command. Never errors: any reply short of a documented success just
    /// means the driver is not there.
    pub fn driver_exists<K: Syscalls>(kernel: &mut K) -> (r: bool)
        ensures
            final(kernel).log().len() == old(kernel).log().len() + 1,
            final(kernel).log().drop_last() == old(kernel).log(),
            (final(kernel).log().last() matches Event::Command {
                driver,
                cmd,
                arg0,
                arg1,
                reply,
            } && driver == IPC_DRIVER && cmd == COMMAND_EXISTS && arg0 == 0 && arg1 == 0 && (r
                <==> spec_decode(reply) is Success)),
    {
        let reply = kernel.command(IPC_DRIVER, COMMAND_EXISTS, 0, 0);
        proof {
            assert(final(kernel).log().drop_last() =~= old(kernel).log());
        }
        match decode(reply) {
            Decoded::Success(_) => true,
            _ => false,
        }
    }

    /// Discover a service by its package name: lend the name's bytes
    /// read-only to the kernel at the search slot, issue the discover
    /// command, and release the grant before returning, whatever the
    /// outcome. On success the command's value is the service's identity.
    pub fn discover<K: Syscalls>(kernel: &mut K, name: &[u8]) -> (r: Result<u32, Fault>)
        ensures
            discover_events(old(kernel).log(), final(kernel).log(), name@, r),
    {
        let ghost pre = kernel.log();
        match Share::new(kernel, AllowClass::ReadOnly, IPC_DRIVER, ALLOW_SEARCH, name) {
            Err(f) => {
                proof {
                    assert(final(kernel).log().subrange(0, pre.len() as int) =~= pre);
                    assert(final(kernel).log()[pre.len() as int] == final(kernel).log().last());
                }
                Err(f)
            },
            Ok(guard) => {
                let ghost log1 = kernel.log();
                let rep = kernel.command(IPC_DRIVER, COMMAND_DISCOVER, 0, 0);
                let ghost log2 = kernel.log();
                let res = discover_result(rep);
                guard.release(kernel);
                proof {
                    let i = pre.len() as int;
                    let post = kernel.log();
                    assert(post.drop_last() == log2);
                    assert(post.len() == i + 3);
                    assert forall|x: int| 0 <= x < i + 2 implies post[x] == log2[x] by {
                        assert(post.drop_last()[x] == post[x]);
                    }
                    assert forall|x: int| 0 <= x < i implies post[x] == pre[x] by {
                        assert(log2[x] == log1[x]);
                        assert(log1.drop_last()[x] == log1[x]);
                    }
                    assert(post.subrange(0, i) =~= pre);
                    assert(post[i] == log1[i]);
                    assert(log1[i] == log1.last());
                    assert(post[i + 1] == log2[i + 1]);
                    assert(log2[i + 1] == log2.last());
                    assert(post[i + 2] == post.last());
                }
                res
            },
        }
    }

    /// Register a callback binding for inbound notifications addressed to
    /// this process as the service with identity `svc_id`: one subscribe
    /// syscall with the service identity as the slot. Deliberately not
    /// scoped: the binding stays registered, and its referent must stay live,
    /// for as long as the service exists.
    pub fn register<K: Syscalls>(kernel: &mut K, svc_id: u32, binding: CallbackBinding) -> (r:
        Result<(), Fault>)
        requires
            binding.upcall != 0,
        ensures
            final(kernel).log().len() == old(kernel).log().len() + 1,
            final(kernel).log().drop_last() == old(kernel).log(),
            (final(kernel).log().last() matches Event::Subscribe { driver, slot, binding: b, reply }
                && driver == IPC_DRIVER && slot == svc_id && b == binding && r == spec_unit_result(
                reply,
            )),
    {
        let reply = kernel.subscribe(IPC_DRIVER, svc_id, binding);
        proof {
            assert(final(kernel).log().drop_last() =~= old(kernel).log());
        }
        unit_result(reply)
    }

    /// Notify the service `svc_id`: one command syscall whose decoded result
    /// is surfaced unchanged.
    pub fn notify_service<K: Syscalls>(kernel: &mut K, svc_id: u32) -> (r: Result<(), Fault>)
        ensures
            final(kernel).log().len() == old(kernel).log().len() + 1,
            final(kernel).log().drop_last() == old(kernel).log(),
            (final(kernel).log().last() matches Event::Command { driver, cmd, arg0, arg1, reply }
                && driver == IPC_DRIVER && cmd == COMMAND_NOTIFY_SERVICE && arg0 == svc_id && arg1
                == 0 && r == spec_unit_result(reply)),
    {
        let reply = kernel.command(IPC_DRIVER, COMMAND_NOTIFY_SERVICE, svc_id, 0);
        proof {
            assert(final(kernel).log().drop_last() =~= old(kernel).log());
        }
        unit_result(reply)
    }

    /// Notify the client `svc_id`: one command syscall whose decoded result
    /// is surfaced unchanged.
    pub fn notify_client<K: Syscalls>(kernel: &mut K, svc_id: u32) -> (r: Result<(), Fault>)
        ensures
            final(kernel).log().len() == old(kernel).log().len() + 1,
            final(kernel).log().drop_last() == old(kernel).log(),
            (final(kernel).log().last() matches Event::Command { driver, cmd, arg0, arg1, reply }
                && driver == IPC_DRIVER && cmd == COMMAND_NOTIFY_CLIENT && arg0 == svc_id && arg1
                == 0 && r == spec_unit_result(reply)),
    {
        let reply = kernel.command(IPC_DRIVER, COMMAND_NOTIFY_CLIENT, svc_id, 0);
        proof {
            assert(final(kernel).log().drop_last() =~= old(kernel).log());
        }
        unit_result(reply)
    }

    /// Share a buffer read-write with the process `svc_id`: one allow syscall
    /// with the service identity as the slot, its decoded result surfaced
    /// unchanged. Deliberately not scoped: the grant stays, and the buffer
    /// must stay valid, for as long as the peer may read it.
    pub fn share<K: Syscalls>(kernel: &mut K, svc_id: u32, data: &[u8]) -> (r: Result<(), Fault>)
        ensures
            final(kernel).log().len() == old(kernel).log().len() + 1,
            final(kernel).log().drop_last() == old(kernel).log(),
            (final(kernel).log().last() matches Event::Allow {
                class,
                driver,
                slot,
                data: dd,
                reply,
            } && class == AllowClass::ReadWrite && driver == IPC_DRIVER && slot == svc_id && dd
                == data@ && r == spec_unit_result(reply)),
    {
        let reply = kernel.allow(AllowClass::ReadWrite, IPC_DRIVER, svc_id, data);
        proof {
            assert(final(kernel).log().drop_last() =~= old(kernel).log());
        }
        unit_result(reply)
    }
}

} // verus!
