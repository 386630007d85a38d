//! The request a host call carries, and what a host makes of it.

use vstd::prelude::*;
use vstd::utf8::{decode_utf8, encode_utf8, encode_utf8_decode_utf8, encode_utf8_valid_utf8, valid_utf8};
use crate::error::BridgeError;

verus! {

/// The bytes of one request, in the order in which the host receives them.
pub struct RequestBytes {
    pub binding: Seq<u8>,
    pub namespace: Seq<u8>,
    pub operation: Seq<u8>,
    pub payload: Seq<u8>,
}

/// The request that three identifiers and a payload stand for: each identifier by its
/// UTF-8 encoding, the payload byte for byte.
pub open spec fn request_for(
    binding: Seq<char>,
    namespace: Seq<char>,
    operation: Seq<char>,
    payload: Seq<u8>,
) -> RequestBytes {
    RequestBytes {
        binding: encode_utf8(binding),
        namespace: encode_utf8(namespace),
        operation: encode_utf8(operation),
        payload,
    }
}

/// What the host receives can be read back without loss: each identifier span is valid
/// UTF-8 that decodes to the identifier it was made from, with nothing cut off and nothing
/// appended, and the payload span is the payload.
pub proof fn lemma_request_round_trip(
    binding: Seq<char>,
    namespace: Seq<char>,
    operation: Seq<char>,
    payload: Seq<u8>,
)
    ensures
        ({
            let request = request_for(binding, namespace, operation, payload);
            &&& valid_utf8(request.binding) && decode_utf8(request.binding) == binding
            &&& valid_utf8(request.namespace) && decode_utf8(request.namespace) == namespace
            &&& valid_utf8(request.operation) && decode_utf8(request.operation) == operation
            &&& request.payload == payload
        }),
{
    encode_utf8_valid_utf8(binding);
    encode_utf8_valid_utf8(namespace);
    encode_utf8_valid_utf8(operation);
    encode_utf8_decode_utf8(binding);
    encode_utf8_decode_utf8(namespace);
    encode_utf8_decode_utf8(operation);
}

/// A request whose four spans stay borrowed from the caller while the host works on them.
#[derive(Clone, Copy, Debug)]
pub struct HostCallRequest<'a> {
    pub binding: &'a [u8],
    pub namespace: &'a [u8],
    pub operation: &'a [u8],
    pub payload: &'a [u8],
}

impl<'a> View for HostCallRequest<'a> {
    type V = RequestBytes;

    open spec fn view(&self) -> RequestBytes {
        RequestBytes {
            binding: self.binding@,
            namespace: self.namespace@,
            operation: self.operation@,
            payload: self.payload@,
        }
    }
}

/// Whether `host` may be handed `request`, in whatever memory its bytes lie.
pub open spec fn host_accepts<H: Fn(&[u8], &[u8], &[u8], &[u8]) -> u32>(
    host: &H,
    request: RequestBytes,
) -> bool {
    forall|binding: &[u8], namespace: &[u8], operation: &[u8], payload: &[u8]|
        binding@ == request.binding && namespace@ == request.namespace && operation@
            == request.operation && payload@ == request.payload ==> #[trigger] call_requires(
            *host,
            (binding, namespace, operation, payload),
        )
}

/// Whether `status` is an answer of `host` to exactly the bytes of `request`.
pub open spec fn host_answers<H: Fn(&[u8], &[u8], &[u8], &[u8]) -> u32>(
    host: &H,
    request: RequestBytes,
    status: u32,
) -> bool {
    exists|binding: &[u8], namespace: &[u8], operation: &[u8], payload: &[u8]|
        binding@ == request.binding && namespace@ == request.namespace && operation@
            == request.operation && payload@ == request.payload && #[trigger] call_ensures(
            *host,
            (binding, namespace, operation, payload),
            status,
        )
}

impl<'a> HostCallRequest<'a> {
    /// Frames a request from the three identifiers and the resolved payload. Without a
    /// payload there is no request: the call fails with [`BridgeError::InvalidPayload`].
    pub fn new(
        binding: &'a str,
        namespace: &'a str,
        operation: &'a str,
        payload: Option<&'a [u8]>,
    ) -> (res: Result<HostCallRequest<'a>, BridgeError>)
        ensures
            match payload {
                Some(message) => res matches Ok(request) && request@ == request_for(
                    binding@,
                    namespace@,
                    operation@,
                    message@,
                ) && request.payload == message,
                None => res matches Err(error) && error == BridgeError::InvalidPayload,
            },
    {
        match payload {
            None => Err(BridgeError::InvalidPayload),
            Some(message) => Ok(
                HostCallRequest {
                    binding: binding.as_bytes(),
                    namespace: namespace.as_bytes(),
                    operation: operation.as_bytes(),
                    payload: message,
                },
            ),
        }
    }

    /// Hands the four spans to the host, binding first and payload last, and returns the
    /// status the host answered with.
    pub fn dispatch<H: Fn(&[u8], &[u8], &[u8], &[u8]) -> u32>(&self, host: &H) -> (status: u32)
        requires
            call_requires(*host, (self.binding, self.namespace, self.operation, self.payload)),
        ensures
            call_ensures(
                *host,
                (self.binding, self.namespace, self.operation, self.payload),
                status,
            ),
    {
        let status: u32 = host(self.binding, self.namespace, self.operation, self.payload);
        status
    }
}

/// What a status code tells the script: zero is success, every other value is a failure
/// the host reported.
pub open spec fn is_success(status: u32) -> bool {
    status == 0
}

/// Turns the status the host answered with into the boolean the script receives.
pub fn status_is_success(status: u32) -> (ok: bool)
    ensures
        ok == is_success(status),
{
    status == 0
}

} // verus!
