//! What has to happen before any script runs: the engine is configured, and the two
//! globals are installed.

use vstd::prelude::*;
use javy_plugin_api::Config;
use javy_plugin_api::javy::quickjs::Ctx;
use crate::engine::{default_config, enabled_features, set_stream_io, set_text_encoding};
use crate::engine::{set_argument_accessor, set_host_call};
use crate::error::BridgeError;

verus! {

/// A feature of the engine that the bridge depends on.
#[derive(Clone, Copy, Debug, PartialEq, Eq, Structural)]
pub enum EngineFeature {
    /// The text encoder and decoder of the script.
    TextEncoding,
    /// Buffered stream I/O.
    StreamIo,
}

/// The name under which the script finds the argument accessor.
pub const POLICY_ACTION: &'static str = "policyAction";

/// The name under which the script finds the host call.
pub const HOST_CALL: &'static str = "__hostCall";

/// The configuration of the engine: text encoding and buffered stream I/O are both on, so
/// that the buffers a script builds are laid out as the bridge expects.
pub fn config() -> (config: Config)
    ensures
        enabled_features(config) == set![EngineFeature::TextEncoding, EngineFeature::StreamIo],
{
    let mut config = default_config();
    set_text_encoding(&mut config, true);
    set_stream_io(&mut config, true);
    config
}

/// Installs the two globals into an entered context: the argument accessor under
/// [`POLICY_ACTION`], fed by `arguments` each time the script asks, and the host call under
/// [`HOST_CALL`], answered by `host`. Where the engine refuses one of them the call fails
/// with [`BridgeError::HostBoundary`].
pub fn install_globals<A, H>(ctx: &Ctx<'_>, arguments: A, host: H) -> (res: Result<
    (),
    BridgeError,
>) where
    A: Fn() -> Vec<String> + 'static,
    H: Fn(&[u8], &[u8], &[u8], &[u8]) -> u32 + 'static,

    requires
        call_requires(arguments, ()),
        forall|binding: &[u8], namespace: &[u8], operation: &[u8], payload: &[u8]|
            call_requires(host, (binding, namespace, operation, payload)),
    ensures
        res matches Err(error) ==> error == BridgeError::HostBoundary,
{
    match boundary_outcome(set_argument_accessor(ctx, POLICY_ACTION, arguments)) {
        Err(error) => Err(error),
        Ok(_) => boundary_outcome(set_host_call(ctx, HOST_CALL, host)),
    }
}

/// What the engine's answer to a new global means to the bridge: the global was taken, or
/// the bridge has failed at the host boundary.
fn boundary_outcome(answer: Result<(), javy_plugin_api::javy::quickjs::Error>) -> (res: Result<
    (),
    BridgeError,
>)
    ensures
        match answer {
            Ok(_) => res is Ok,
            Err(_) => res matches Err(error) && error == BridgeError::HostBoundary,
        },
{
    match answer {
        Ok(_) => Ok(()),
        Err(_) => Err(BridgeError::HostBoundary),
    }
}

} // verus!
