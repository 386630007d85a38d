//! The scripting engine, as far as the bridge touches it. Nothing in this file is proved:
//! each item states what the engine's own code does.

use vstd::prelude::*;
use javy_plugin_api::Config;
use javy_plugin_api::javy::quickjs::{ArrayBuffer, Ctx, Error, Object, Value};
use javy_plugin_api::javy::quickjs::prelude::Func;
use crate::arguments::script_policy_action;
use crate::bootstrap::EngineFeature;
use crate::bridge::script_host_call;

verus! {

/// The configuration a runtime is built from.
#[verifier::external_type_specification]
#[verifier::external_body]
pub struct ExConfig(Config);

/// The context of a running engine, entered.
#[verifier::external_type_specification]
#[verifier::external_body]
pub struct ExCtx<'js>(Ctx<'js>);

/// Any value of the script.
#[verifier::external_type_specification]
#[verifier::external_body]
pub struct ExValue<'js>(Value<'js>);

/// A value of the script that is an object.
#[verifier::external_type_specification]
#[verifier::external_body]
pub struct ExObject<'js>(Object<'js>);

/// An object of the script that is a binary buffer.
#[verifier::external_type_specification]
#[verifier::external_body]
pub struct ExArrayBuffer<'js>(ArrayBuffer<'js>);

/// The error the engine raises into the script.
#[verifier::external_type_specification]
#[verifier::external_body]
pub struct ExError(Error);

/// Of the features that the bridge depends on, those that `config` has switched on: a
/// runtime built from it offers the script these and none of the others.
pub uninterp spec fn enabled_features(config: Config) -> Set<EngineFeature>;

/// `Config::default`: the configuration the engine starts from. It offers neither text
/// encoding nor stream I/O.
#[verifier::external_body]
pub(crate) fn default_config() -> (config: Config)
    ensures
        enabled_features(config) == Set::<EngineFeature>::empty(),
{
    Config::default()
}

/// `Config::text_encoding`: switches text encoding on or off and leaves every other
/// feature as it was.
#[verifier::external_body]
pub(crate) fn set_text_encoding(config: &mut Config, enable: bool)
    ensures
        enabled_features(*final(config)) == if enable {
            enabled_features(*old(config)).insert(EngineFeature::TextEncoding)
        } else {
            enabled_features(*old(config)).remove(EngineFeature::TextEncoding)
        },
{
    config.text_encoding(enable);
}

/// `Config::javy_stream_io`: switches stream I/O on or off and leaves every other feature
/// as it was.
#[verifier::external_body]
pub(crate) fn set_stream_io(config: &mut Config, enable: bool)
    ensures
        enabled_features(*final(config)) == if enable {
            enabled_features(*old(config)).insert(EngineFeature::StreamIo)
        } else {
            enabled_features(*old(config)).remove(EngineFeature::StreamIo)
        },
{
    config.javy_stream_io(enable);
}

/// `Value::as_object`: the value as an object, if the script made it one. Nothing is
/// claimed of the answer.
#[verifier::external_body]
pub(crate) fn as_object<'a, 'js>(value: &'a Value<'js>) -> (object: Option<&'a Object<'js>>) {
    value.as_object()
}

/// `Object::as_array_buffer`: the object as a binary buffer, if it is one. Nothing is
/// claimed of the answer.
#[verifier::external_body]
pub(crate) fn as_array_buffer<'a, 'js>(object: &'a Object<'js>) -> (buffer: Option<
    &'a ArrayBuffer<'a>,
>) {
    object.as_array_buffer()
}

/// `ArrayBuffer::as_bytes`: the bytes behind the buffer, unless the script has detached
/// them. Nothing is claimed of the answer.
#[verifier::external_body]
pub(crate) fn as_bytes<'a, 'js>(buffer: &'a ArrayBuffer<'js>) -> (bytes: Option<&'a [u8]>) {
    buffer.as_bytes()
}

/// `Error::Unknown`: the error of the engine that names no cause. Raised from a function
/// of the script it reaches the script as an exception.
#[verifier::external_body]
pub(crate) fn unknown_error() -> (error: Error) {
    Error::Unknown
}

/// `Ctx::globals`, `Object::set` and `Func::from`: asks the engine to put, under `name`
/// among the globals of the context, a function without parameters that asks `arguments`
/// for the argument vector and hands out its startup argument. Nothing is claimed of the
/// engine's answer.
#[verifier::external_body]
pub(crate) fn set_argument_accessor<A: Fn() -> Vec<String> + 'static>(
    ctx: &Ctx<'_>,
    name: &str,
    arguments: A,
) -> (installed: Result<(), Error>)
    requires
        call_requires(arguments, ()),
{
    ctx.globals().set(name, Func::from(move || script_policy_action(&arguments)))
}

/// `Ctx::globals`, `Object::set` and `Func::from`: asks the engine to put, under `name`
/// among the globals of the context, a function of three strings and a value that
/// forwards them to `host`. Nothing is claimed of the engine's answer.
#[verifier::external_body]
pub(crate) fn set_host_call<H: Fn(&[u8], &[u8], &[u8], &[u8]) -> u32 + 'static>(
    ctx: &Ctx<'_>,
    name: &str,
    host: H,
) -> (installed: Result<(), Error>)
    requires
        forall|binding: &[u8], namespace: &[u8], operation: &[u8], payload: &[u8]|
            call_requires(host, (binding, namespace, operation, payload)),
{
    ctx.globals().set(
        name,
        Func::from(
            move |binding: String, namespace: String, operation: String, message: Value|
                script_host_call(&binding, &namespace, &operation, &message, &host),
        ),
    )
}

} // verus!
