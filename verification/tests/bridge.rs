use std::cell::{Cell, RefCell};

use javy_plugin_kubewarden::bridge::host_call_with;
use javy_plugin_kubewarden::error::BridgeError;
use javy_plugin_kubewarden::request::{status_is_success, HostCallRequest};

type Seen = RefCell<Vec<(Vec<u8>, Vec<u8>, Vec<u8>, Vec<u8>)>>;

fn record(seen: &Seen, binding: &[u8], namespace: &[u8], operation: &[u8], payload: &[u8]) {
    seen.borrow_mut().push((
        binding.to_vec(),
        namespace.to_vec(),
        operation.to_vec(),
        payload.to_vec(),
    ));
}

#[test]
fn status_zero_is_success() {
    assert!(status_is_success(0));
}

#[test]
fn every_nonzero_status_is_failure() {
    for status in [1u32, 2, 3, 255, 256, 65_535, 0x8000_0000, u32::MAX - 1, u32::MAX] {
        assert!(!status_is_success(status), "status {status}");
    }
}

#[test]
fn request_holds_the_utf8_bytes_of_each_identifier() {
    let payload = [1u8, 2, 3];
    let request = HostCallRequest::new("http", "default", "get", Some(&payload)).unwrap();
    assert_eq!(request.binding, b"http");
    assert_eq!(request.namespace, b"default");
    assert_eq!(request.operation, b"get");
    assert_eq!(request.payload, &[1u8, 2, 3]);
}

#[test]
fn request_adds_no_terminator_and_cuts_nothing() {
    let payload = [0u8, 0, 7, 0];
    let request = HostCallRequest::new("a\0b", "", "operation", Some(&payload)).unwrap();
    assert_eq!(request.binding, &[b'a', 0, b'b']);
    assert_eq!(request.binding.len(), 3);
    assert_eq!(request.namespace.len(), 0);
    assert_eq!(request.operation.len(), 9);
    assert_eq!(request.payload, &[0u8, 0, 7, 0]);
}

#[test]
fn request_encodes_non_ascii_identifiers_as_utf8() {
    let payload: [u8; 0] = [];
    let request =
        HostCallRequest::new("h\u{00e9}", "\u{4e16}", "\u{1f600}", Some(&payload)).unwrap();
    assert_eq!(request.binding, &[0x68, 0xc3, 0xa9]);
    assert_eq!(request.namespace, &[0xe4, 0xb8, 0x96]);
    assert_eq!(request.operation, &[0xf0, 0x9f, 0x98, 0x80]);
    assert!(request.payload.is_empty());
}

#[test]
fn request_borrows_the_payload_where_it_lies() {
    let payload = vec![9u8; 64];
    let request = HostCallRequest::new("kubewarden", "oci", "verify", Some(&payload)).unwrap();
    assert_eq!(request.payload.as_ptr(), payload.as_ptr());
    assert_eq!(request.payload.len(), 64);
}

#[test]
fn request_without_payload_is_an_invalid_payload() {
    let outcome = HostCallRequest::new("http", "default", "get", None);
    assert!(matches!(outcome, Err(BridgeError::InvalidPayload)));
}

#[test]
fn dispatch_hands_the_spans_over_in_order() {
    let seen: Seen = RefCell::new(Vec::new());
    let payload = [4u8, 5];
    let request = HostCallRequest::new("first", "second", "third", Some(&payload)).unwrap();
    let host = |binding: &[u8], namespace: &[u8], operation: &[u8], message: &[u8]| {
        record(&seen, binding, namespace, operation, message);
        41u32
    };
    assert_eq!(request.dispatch(&host), 41);
    assert_eq!(
        seen.borrow().as_slice(),
        &[(b"first".to_vec(), b"second".to_vec(), b"third".to_vec(), vec![4u8, 5])]
    );
}

#[test]
fn host_call_returns_true_when_the_host_answers_zero() {
    let host = |_: &[u8], _: &[u8], _: &[u8], _: &[u8]| 0u32;
    assert_eq!(host_call_with("http", "default", "get", Some(&[1, 2, 3]), &host), Ok(true));
}

#[test]
fn host_call_returns_false_for_every_nonzero_answer() {
    for status in [1u32, 2, 0xff, 0x1_0000, u32::MAX] {
        let host = move |_: &[u8], _: &[u8], _: &[u8], _: &[u8]| status;
        assert_eq!(
            host_call_with("http", "default", "get", Some(&[1, 2, 3]), &host),
            Ok(false),
            "status {status}"
        );
    }
}

#[test]
fn host_call_reaches_the_host_once_with_exact_bytes() {
    let seen: Seen = RefCell::new(Vec::new());
    let host = |binding: &[u8], namespace: &[u8], operation: &[u8], message: &[u8]| {
        record(&seen, binding, namespace, operation, message);
        0u32
    };
    let payload: Vec<u8> = (0..=255u8).collect();
    assert_eq!(host_call_with("kubernetes", "", "list_resources", Some(&payload), &host), Ok(true));
    let seen = seen.borrow();
    assert_eq!(seen.len(), 1);
    assert_eq!(seen[0].0, b"kubernetes");
    assert_eq!(seen[0].1, b"");
    assert_eq!(seen[0].2, b"list_resources");
    assert_eq!(seen[0].3, payload);
}

#[test]
fn host_call_without_payload_fails_and_never_reaches_the_host() {
    let invocations = Cell::new(0u32);
    let host = |_: &[u8], _: &[u8], _: &[u8], _: &[u8]| {
        invocations.set(invocations.get() + 1);
        0u32
    };
    assert_eq!(
        host_call_with("http", "default", "get", None, &host),
        Err(BridgeError::InvalidPayload)
    );
    assert_eq!(invocations.get(), 0);
}

#[test]
fn host_call_accepts_empty_identifiers_and_empty_payload() {
    let seen: Seen = RefCell::new(Vec::new());
    let host = |binding: &[u8], namespace: &[u8], operation: &[u8], message: &[u8]| {
        record(&seen, binding, namespace, operation, message);
        0u32
    };
    assert_eq!(host_call_with("", "", "", Some(&[]), &host), Ok(true));
    assert_eq!(seen.borrow().as_slice(), &[(vec![], vec![], vec![], vec![])]);
}

#[test]
fn host_that_knows_only_http_accepts_http_and_refuses_ftp() {
    let seen: Seen = RefCell::new(Vec::new());
    let host = |binding: &[u8], namespace: &[u8], operation: &[u8], message: &[u8]| {
        record(&seen, binding, namespace, operation, message);
        if binding == b"http" {
            0u32
        } else {
            1u32
        }
    };
    assert_eq!(host_call_with("http", "default", "get", Some(&[1, 2, 3]), &host), Ok(true));
    assert_eq!(
        seen.borrow().last().unwrap(),
        &(b"http".to_vec(), b"default".to_vec(), b"get".to_vec(), vec![1u8, 2, 3])
    );
    assert_eq!(host_call_with("ftp", "default", "get", Some(&[]), &host), Ok(false));
    assert_eq!(seen.borrow().len(), 2);
}
