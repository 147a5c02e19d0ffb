use pgtuna::errors::{IoKind, SocketError};
use pgtuna::server::{
    exchange_after_read, exchange_after_write, handle_request, plan_start, response_payload,
    BindOutcome, StartAction, SOCKET_MODE,
};

#[test]
fn response_is_the_fixed_literal() {
    assert_eq!(response_payload(), b"work_mem = 64MB".to_vec());
}

#[test]
fn empty_request_gets_the_fixed_response() {
    let resp = handle_request(b"").expect("empty input is valid text");
    assert_eq!(resp, b"work_mem = 64MB".to_vec());
}

#[test]
fn any_request_text_gets_the_fixed_response() {
    let requests: [&[u8]; 4] = [
        b"x",
        b"SELECT 1;",
        b"how much memory should each sort get?",
        &[0xc2, 0xa2, 0xe2, 0x82, 0xac],
    ];
    for req in requests {
        let resp = handle_request(req).expect("valid text must be answered");
        assert_eq!(resp, b"work_mem = 64MB".to_vec());
    }
}

#[test]
fn sequential_connections_get_the_same_response() {
    // Several independent connections handled one after the other, without
    // restart, all draw the identical fixed response.
    let first = handle_request(b"first client").expect("first connection");
    let second = handle_request(b"second client").expect("second connection");
    let third = handle_request(b"").expect("third connection");
    assert_eq!(first, b"work_mem = 64MB".to_vec());
    assert_eq!(second, first);
    assert_eq!(third, first);
}

#[test]
fn invalid_encoding_is_rejected() {
    assert_eq!(handle_request(&[0xff]), Err(SocketError::InvalidEncoding));
    assert_eq!(
        handle_request(&[0x68, 0x69, 0x80]),
        Err(SocketError::InvalidEncoding)
    );
}

#[test]
fn failed_read_is_fatal_with_its_cause() {
    let r = exchange_after_read(Err(IoKind::Other));
    assert_eq!(r, Err(SocketError::ReadFailed { cause: IoKind::Other }));
}

#[test]
fn completed_read_is_answered() {
    let r = exchange_after_read(Ok(b"any request".to_vec()));
    assert_eq!(r, Ok(b"work_mem = 64MB".to_vec()));
    let r = exchange_after_read(Ok(vec![0xff]));
    assert_eq!(r, Err(SocketError::InvalidEncoding));
}

#[test]
fn failed_write_is_fatal_with_its_cause() {
    let r = exchange_after_write(Err(IoKind::PermissionDenied));
    assert_eq!(
        r,
        Err(SocketError::WriteFailed { cause: IoKind::PermissionDenied })
    );
    assert_eq!(exchange_after_write(Ok(15)), Ok(()));
}

#[test]
fn bound_endpoint_enters_the_accept_loop() {
    assert_eq!(plan_start(BindOutcome::Bound), StartAction::Accept);
}

#[test]
fn occupied_path_fails_before_any_accept() {
    // A path already occupied by an incompatible object makes the bind fail;
    // the start decision is an abort, so no accept is ever reached.
    let action = plan_start(BindOutcome::Failed { cause: IoKind::AddrInUse });
    assert_eq!(action, StartAction::Abort { cause: IoKind::AddrInUse });
    let action = plan_start(BindOutcome::Failed { cause: IoKind::PermissionDenied });
    assert_eq!(action, StartAction::Abort { cause: IoKind::PermissionDenied });
}

#[test]
fn socket_mode_is_owner_only() {
    assert_eq!(SOCKET_MODE, 0o700);
}
