//! Tests for the scoped grant and subscription guards, against a recording
//! mock kernel.

use ipc_runtime::abi::{ErrorCode, Fault, Reply};
use ipc_runtime::boundary::{AllowClass, CallbackBinding, Syscalls};
use ipc_runtime::guard::{Share, SubscribeUpcall};
use ipc_runtime::mock::{Call, MockKernel};

#[test]
fn acquire_then_release_revokes_exactly_once() {
    let mut k = MockKernel::new();
    let buf = [1u8, 2, 3];
    let guard = Share::new(&mut k, AllowClass::ReadWrite, 5, 2, &buf).unwrap();
    guard.release(&mut k);
    // exactly one grant and one revoke, nothing else
    assert_eq!(k.call_count(), 2);
    match &k.calls[0] {
        Call::Allow {
            class: AllowClass::ReadWrite,
            driver: 5,
            slot: 2,
            data,
            ..
        } => assert_eq!(data.as_slice(), &[1, 2, 3]),
        other => panic!("unexpected first call: {:?}", other),
    }
    match &k.calls[1] {
        Call::Allow {
            class: AllowClass::ReadWrite,
            driver: 5,
            slot: 2,
            data,
            ..
        } => assert_eq!(data.len(), 0),
        other => panic!("unexpected second call: {:?}", other),
    }
}

#[test]
fn failed_acquire_leaves_no_grant_and_no_guard() {
    let mut k = MockKernel::with_replies(vec![Reply::failure(ErrorCode::NoMem)]);
    let buf = [9u8];
    let r = Share::new(&mut k, AllowClass::ReadOnly, 5, 2, &buf);
    assert_eq!(r.err(), Some(Fault::Kernel(ErrorCode::NoMem)));
    // only the failed allow was issued; nothing to revoke
    assert_eq!(k.call_count(), 1);
}

#[test]
fn undocumented_allow_reply_is_a_protocol_fault() {
    let mut k = MockKernel::with_replies(vec![Reply {
        r0: 1,
        r1: 7,
        r2: 0,
        r3: 0,
    }]);
    let buf = [9u8];
    let r = Share::new(&mut k, AllowClass::ReadOnly, 5, 2, &buf);
    assert_eq!(r.err(), Some(Fault::Protocol));
}

#[test]
fn empty_buffer_grant_is_the_revoke_encoding() {
    // a zero-length grant is legal but indistinguishable from "not shared"
    let mut k = MockKernel::new();
    let buf: [u8; 0] = [];
    let guard = Share::new(&mut k, AllowClass::ReadOnly, 5, 2, &buf).unwrap();
    guard.release(&mut k);
    assert_eq!(k.call_count(), 2);
    for call in &k.calls {
        match call {
            Call::Allow { data, .. } => assert_eq!(data.len(), 0),
            other => panic!("unexpected call: {:?}", other),
        }
    }
}

#[test]
fn subscribe_then_release_unsubscribes_exactly_once() {
    let mut k = MockKernel::new();
    let binding = CallbackBinding {
        upcall: 0xABC,
        data: 0xDEF,
    };
    let sub = SubscribeUpcall::new(&mut k, 7, 4, binding).unwrap();
    sub.release(&mut k);
    assert_eq!(k.call_count(), 2);
    match &k.calls[0] {
        Call::Subscribe {
            driver: 7,
            slot: 4,
            binding: b,
            ..
        } => assert_eq!(*b, binding),
        other => panic!("unexpected first call: {:?}", other),
    }
    match &k.calls[1] {
        Call::Subscribe {
            driver: 7,
            slot: 4,
            binding: b,
            ..
        } => {
            // the null binding: the unsubscribe encoding
            assert_eq!(b.upcall, 0);
            assert_eq!(b.data, 0);
        }
        other => panic!("unexpected second call: {:?}", other),
    }
}

#[test]
fn failed_subscribe_leaves_no_registration() {
    let mut k = MockKernel::with_replies(vec![Reply::failure(ErrorCode::Busy)]);
    let binding = CallbackBinding {
        upcall: 0xABC,
        data: 0,
    };
    let r = SubscribeUpcall::new(&mut k, 7, 4, binding);
    assert_eq!(r.err(), Some(Fault::Kernel(ErrorCode::Busy)));
    assert_eq!(k.call_count(), 1);
}

#[test]
fn guard_revoke_ignores_the_kernels_answer() {
    // even a failing revoke reply leaves the guard released and nothing reissued
    let mut k = MockKernel::with_replies(vec![
        Reply::success_2_u32(0, 0),
        Reply::failure(ErrorCode::Fail),
    ]);
    let buf = [1u8];
    let guard = Share::new(&mut k, AllowClass::ReadWrite, 5, 2, &buf).unwrap();
    guard.release(&mut k);
    assert_eq!(k.call_count(), 2);
}

#[test]
fn mock_kernel_log_matches_the_syscalls_issued() {
    let mut k = MockKernel::new();
    let _ = k.command(1, 2, 3, 4);
    k.yield_no_wait();
    assert_eq!(k.call_count(), 2);
    assert!(matches!(
        k.calls[0],
        Call::Command {
            driver: 1,
            cmd: 2,
            arg0: 3,
            arg1: 4,
            ..
        }
    ));
    assert!(matches!(k.calls[1], Call::Yield));
}
