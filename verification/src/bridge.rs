//! The host-call bridge: from the script's arguments to the host and back.

use vstd::prelude::*;
use javy_plugin_api::javy::quickjs::{Error, Value};
use crate::engine::{as_array_buffer, as_bytes, as_object, unknown_error};
use crate::error::BridgeError;
use crate::request::{host_accepts, host_answers, is_success, request_for, status_is_success};
use crate::request::{HostCallRequest, RequestBytes};

verus! {

/// Forwards one request to the host and tells whether the host accepted it.
///
/// `payload` is what the message of the script resolved to. Without it the call fails with
/// [`BridgeError::InvalidPayload`], and since nothing is asked of `host` in that case, the
/// host is not reached. Otherwise the host receives the UTF-8 bytes of the three
/// identifiers and the payload as it is, and the call returns `true` exactly when the host
/// answers with status zero.
pub fn host_call_with<H: Fn(&[u8], &[u8], &[u8], &[u8]) -> u32>(
    binding: &str,
    namespace: &str,
    operation: &str,
    payload: Option<&[u8]>,
    host: &H,
) -> (res: Result<bool, BridgeError>)
    requires
        payload matches Some(message) ==> host_accepts(
            host,
            request_for(binding@, namespace@, operation@, message@),
        ),
    ensures
        match payload {
            Some(message) => res matches Ok(ok) && exists|status: u32|
                #[trigger] host_answers(
                    host,
                    request_for(binding@, namespace@, operation@, message@),
                    status,
                ) && ok == is_success(status),
            None => res matches Err(error) && error == BridgeError::InvalidPayload,
        },
{
    match HostCallRequest::new(binding, namespace, operation, payload) {
        Err(error) => Err(error),
        Ok(request) => {
            let status: u32 = request.dispatch(host);
            assert(host_answers(host, request@, status));
            Ok(status_is_success(status))
        },
    }
}

/// With a host that has one answer to a request, the outcome of the call is settled by
/// that answer: `true` for status zero, `false` for every other status.
pub proof fn lemma_status_settles_outcome<H: Fn(&[u8], &[u8], &[u8], &[u8]) -> u32>(
    host: &H,
    request: RequestBytes,
    status: u32,
    ok: bool,
)
    requires
        forall|other: u32| #[trigger] host_answers(host, request, other) ==> other == status,
        exists|given: u32| #[trigger] host_answers(host, request, given) && ok == is_success(given),
    ensures
        ok == (status == 0),
{
}

/// Resolves the message of the script to the bytes behind it: the message must be an
/// object, the object a binary buffer, and the buffer must still have its backing store.
fn resolve_payload<'a, 'js>(message: &'a Value<'js>) -> (payload: Option<&'a [u8]>) {
    match as_object(message) {
        None => None,
        Some(object) => match as_array_buffer(object) {
            None => None,
            Some(buffer) => as_bytes(buffer),
        },
    }
}

/// Forwards one request of the script to the host: resolves `message` to its bytes and
/// goes on as [`host_call_with`] does.
///
/// What the message resolves to is the engine's to say. Whatever it says, a failure is
/// [`BridgeError::InvalidPayload`], and a result is what the host answered to the three
/// identifiers and some payload.
pub fn host_call<H: Fn(&[u8], &[u8], &[u8], &[u8]) -> u32>(
    binding: &str,
    namespace: &str,
    operation: &str,
    message: &Value<'_>,
    host: &H,
) -> (res: Result<bool, BridgeError>)
    requires
        forall|payload: Seq<u8>| #[trigger]
            host_accepts(host, request_for(binding@, namespace@, operation@, payload)),
    ensures
        match res {
            Ok(ok) => exists|payload: Seq<u8>, status: u32|
                #[trigger] host_answers(
                    host,
                    request_for(binding@, namespace@, operation@, payload),
                    status,
                ) && ok == is_success(status),
            Err(error) => error == BridgeError::InvalidPayload,
        },
{
    let payload = resolve_payload(message);
    host_call_with(binding, namespace, operation, payload, host)
}

/// The host call as the script sees it: the result of [`host_call`], with the failure
/// raised as an error of the engine.
pub(crate) fn script_host_call<H: Fn(&[u8], &[u8], &[u8], &[u8]) -> u32>(
    binding: &str,
    namespace: &str,
    operation: &str,
    message: &Value<'_>,
    host: &H,
) -> (res: Result<bool, Error>)
    requires
        forall|payload: Seq<u8>| #[trigger]
            host_accepts(host, request_for(binding@, namespace@, operation@, payload)),
    ensures
        res matches Ok(ok) ==> exists|payload: Seq<u8>, status: u32|
            #[trigger] host_answers(
                host,
                request_for(binding@, namespace@, operation@, payload),
                status,
            ) && ok == is_success(status),
{
    raise_failure(host_call(binding, namespace, operation, message, host))
}

/// Turns the outcome of a host call into what the script sees: a result goes through as
/// it is, and a failure of the bridge is raised as the engine's error that names no cause.
fn raise_failure(outcome: Result<bool, BridgeError>) -> (res: Result<bool, Error>)
    ensures
        match outcome {
            Ok(ok) => res matches Ok(given) && given == ok,
            Err(_) => res is Err,
        },
{
    match outcome {
        Ok(ok) => Ok(ok),
        Err(_) => Err(unknown_error()),
    }
}

} // verus!
