//! Tests for the IPC service protocol against a recording mock kernel.

use ipc_runtime::abi::{ErrorCode, Fault, Reply};
use ipc_runtime::boundary::{AllowClass, CallbackBinding};
use ipc_runtime::ipc::{
    Ipc, ALLOW_SEARCH, COMMAND_DISCOVER, COMMAND_EXISTS, COMMAND_NOTIFY_CLIENT,
    COMMAND_NOTIFY_SERVICE, IPC_DRIVER,
};
use ipc_runtime::mock::{Call, MockKernel};

#[test]
fn driver_exists_probes_with_one_command() {
    let mut k = MockKernel::new();
    assert!(Ipc::driver_exists(&mut k));
    assert_eq!(k.call_count(), 1);
    assert!(matches!(
        k.calls[0],
        Call::Command {
            driver: IPC_DRIVER,
            cmd: COMMAND_EXISTS,
            arg0: 0,
            arg1: 0,
            ..
        }
    ));
}

#[test]
fn driver_exists_is_false_without_the_driver() {
    let mut k = MockKernel::with_replies(vec![Reply::failure(ErrorCode::NoDevice)]);
    assert!(!Ipc::driver_exists(&mut k));
}

#[test]
fn discover_returns_the_service_identity() {
    // allow succeeds, the discover command answers with value 7
    let mut k = MockKernel::with_replies(vec![Reply::success_2_u32(0, 0), Reply::success_u32(7)]);
    let r = Ipc::discover(&mut k, b"shell");
    assert_eq!(r, Ok(7));
    // the name is lent, the command issued, the grant revoked — in that order
    assert_eq!(k.call_count(), 3);
    match &k.calls[0] {
        Call::Allow {
            class: AllowClass::ReadOnly,
            driver: IPC_DRIVER,
            slot: ALLOW_SEARCH,
            data,
            ..
        } => assert_eq!(data.as_slice(), b"shell"),
        other => panic!("unexpected first call: {:?}", other),
    }
    assert!(matches!(
        k.calls[1],
        Call::Command {
            driver: IPC_DRIVER,
            cmd: COMMAND_DISCOVER,
            arg0: 0,
            arg1: 0,
            ..
        }
    ));
    match &k.calls[2] {
        Call::Allow {
            class: AllowClass::ReadOnly,
            driver: IPC_DRIVER,
            slot: ALLOW_SEARCH,
            data,
            ..
        } => assert_eq!(data.len(), 0),
        other => panic!("unexpected third call: {:?}", other),
    }
}

#[test]
fn discover_surfaces_the_kernels_error() {
    let mut k = MockKernel::with_replies(vec![
        Reply::success_2_u32(0, 0),
        Reply::failure(ErrorCode::NoDevice),
    ]);
    let r = Ipc::discover(&mut k, b"shell");
    assert_eq!(r, Err(Fault::Kernel(ErrorCode::NoDevice)));
    // the search grant is released regardless of the outcome
    assert_eq!(k.call_count(), 3);
    match &k.calls[2] {
        Call::Allow { data, .. } => assert_eq!(data.len(), 0),
        other => panic!("unexpected third call: {:?}", other),
    }
}

#[test]
fn discover_stops_when_the_name_cannot_be_lent() {
    let mut k = MockKernel::with_replies(vec![Reply::failure(ErrorCode::NoMem)]);
    let r = Ipc::discover(&mut k, b"shell");
    assert_eq!(r, Err(Fault::Kernel(ErrorCode::NoMem)));
    // no grant was established, so no command and no revoke
    assert_eq!(k.call_count(), 1);
}

#[test]
fn register_issues_one_subscribe_at_the_service_slot() {
    let mut k = MockKernel::new();
    let binding = CallbackBinding {
        upcall: 0x1000,
        data: 0x2000,
    };
    assert_eq!(Ipc::register(&mut k, 9, binding), Ok(()));
    // deliberately long-lived: exactly one call, no unsubscribe follows
    assert_eq!(k.call_count(), 1);
    match &k.calls[0] {
        Call::Subscribe {
            driver: IPC_DRIVER,
            slot: 9,
            binding: b,
            ..
        } => assert_eq!(*b, binding),
        other => panic!("unexpected call: {:?}", other),
    }
}

#[test]
fn notify_service_maps_to_one_command() {
    let mut k = MockKernel::new();
    assert_eq!(Ipc::notify_service(&mut k, 3), Ok(()));
    assert_eq!(k.call_count(), 1);
    assert!(matches!(
        k.calls[0],
        Call::Command {
            driver: IPC_DRIVER,
            cmd: COMMAND_NOTIFY_SERVICE,
            arg0: 3,
            arg1: 0,
            ..
        }
    ));
}

#[test]
fn notify_client_maps_to_one_command() {
    let mut k = MockKernel::new();
    assert_eq!(Ipc::notify_client(&mut k, 4), Ok(()));
    assert_eq!(k.call_count(), 1);
    assert!(matches!(
        k.calls[0],
        Call::Command {
            driver: IPC_DRIVER,
            cmd: COMMAND_NOTIFY_CLIENT,
            arg0: 4,
            arg1: 0,
            ..
        }
    ));
}

#[test]
fn notify_surfaces_the_decoded_result_unchanged() {
    let mut k = MockKernel::with_replies(vec![Reply::failure(ErrorCode::Busy)]);
    assert_eq!(
        Ipc::notify_service(&mut k, 3),
        Err(Fault::Kernel(ErrorCode::Busy))
    );
}

#[test]
fn share_issues_one_read_write_allow_at_the_service_slot() {
    let mut k = MockKernel::new();
    let buf = [7u8, 8, 9];
    assert_eq!(Ipc::share(&mut k, 6, &buf), Ok(()));
    // deliberately long-lived: exactly one call, never auto-revoked
    assert_eq!(k.call_count(), 1);
    match &k.calls[0] {
        Call::Allow {
            class: AllowClass::ReadWrite,
            driver: IPC_DRIVER,
            slot: 6,
            data,
            ..
        } => assert_eq!(data.as_slice(), &[7, 8, 9]),
        other => panic!("unexpected call: {:?}", other),
    }
}

#[test]
fn failing_share_surfaces_exactly_that_error() {
    let mut k = MockKernel::with_replies(vec![Reply::failure(ErrorCode::Size)]);
    let buf = [7u8];
    assert_eq!(
        Ipc::share(&mut k, 6, &buf),
        Err(Fault::Kernel(ErrorCode::Size))
    );
}

#[test]
fn undocumented_reply_shapes_are_protocol_faults() {
    // a one-register failure shape must never be coerced into an error code
    let mut k = MockKernel::with_replies(vec![Reply {
        r0: 1,
        r1: 11,
        r2: 0,
        r3: 0,
    }]);
    assert_eq!(Ipc::notify_service(&mut k, 3), Err(Fault::Protocol));
}
