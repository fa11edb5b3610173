//! The resource that tells the telemetry backend which process is speaking.
//!
//! It is merged from three layers, each of which may overwrite the keys of
//! the one before: what the SDK provides by default, what the environment
//! says, and what the telemetry library says of itself.

use opentelemetry_sdk::resource::{
    EnvResourceDetector, ResourceDetector, SdkProvidedResourceDetector, TelemetryResourceDetector,
};
use opentelemetry_sdk::Resource;
use std::time::Duration;
use vstd::prelude::*;

verus! {

/// Seconds that a detector may take. Zero tells it not to block.
pub const DETECT_TIMEOUT_SECS: u64 = 0;

/// Key of the service's name.
pub const SERVICE_NAME: &'static str = "service.name";

/// Key of the telemetry library's name.
pub const TELEMETRY_SDK_NAME: &'static str = "telemetry.sdk.name";

/// Key of the telemetry library's language.
pub const TELEMETRY_SDK_LANGUAGE: &'static str = "telemetry.sdk.language";

/// Key of the telemetry library's version.
pub const TELEMETRY_SDK_VERSION: &'static str = "telemetry.sdk.version";

/// `opentelemetry_sdk::Resource`. Nothing is seen inside it; what it holds goes
/// by the name `resource_attributes`.
#[verifier::external_type_specification]
#[verifier::external_body]
pub struct ExResource(opentelemetry_sdk::Resource);

/// The attributes of a resource: each key with its value, the value standing
/// as the text that it is displayed as.
pub uninterp spec fn resource_attributes(resource: Resource) -> Map<Seq<char>, Seq<char>>;

/// `SdkProvidedResourceDetector::detect`: a resource whose only key is
/// `service.name`. Its value comes from the environment and is not claimed.
#[verifier::external_body]
fn detect_sdk_provided(timeout_secs: u64) -> (resource: Resource)
    ensures
        resource_attributes(resource).dom() == set![SERVICE_NAME@],
{
    SdkProvidedResourceDetector.detect(Duration::from_secs(timeout_secs))
}

/// `EnvResourceDetector::detect`: whatever the environment holds, which may
/// be nothing. Nothing is claimed of it.
#[verifier::external_body]
fn detect_env(timeout_secs: u64) -> Resource {
    EnvResourceDetector::new().detect(Duration::from_secs(timeout_secs))
}

/// `TelemetryResourceDetector::detect`: a resource with the three keys of
/// the telemetry library, whose name is `opentelemetry` and whose language
/// is `rust`. The version is that of the library and is not claimed.
#[verifier::external_body]
fn detect_telemetry(timeout_secs: u64) -> (resource: Resource)
    ensures
        resource_attributes(resource).dom() == set![
            TELEMETRY_SDK_NAME@,
            TELEMETRY_SDK_LANGUAGE@,
            TELEMETRY_SDK_VERSION@,
        ],
        resource_attributes(resource)[TELEMETRY_SDK_NAME@] == "opentelemetry"@,
        resource_attributes(resource)[TELEMETRY_SDK_LANGUAGE@] == "rust"@,
{
    TelemetryResourceDetector.detect(Duration::from_secs(timeout_secs))
}

/// `Resource::merge`: the attributes of both, those of `second` winning
/// where a key is in both.
#[verifier::external_body]
fn merge(first: &Resource, second: &Resource) -> (merged: Resource)
    ensures
        resource_attributes(merged) == resource_attributes(*first).union_prefer_right(
            resource_attributes(*second),
        ),
{
    first.merge(second)
}

/// The attributes of three layers merged in order.
pub open spec fn layered(
    sdk: Map<Seq<char>, Seq<char>>,
    env: Map<Seq<char>, Seq<char>>,
    telemetry: Map<Seq<char>, Seq<char>>,
) -> Map<Seq<char>, Seq<char>> {
    sdk.union_prefer_right(env).union_prefer_right(telemetry)
}

/// Merges the three layers: first what the SDK provides, then the
/// environment, then the telemetry library's own description.
pub fn merge_layers(sdk: &Resource, env: &Resource, telemetry: &Resource) -> (merged: Resource)
    ensures
        resource_attributes(merged) == layered(
            resource_attributes(*sdk),
            resource_attributes(*env),
            resource_attributes(*telemetry),
        ),
{
    let lower = merge(sdk, env);
    merge(&lower, telemetry)
}

/// Builds the resource of this process. Whatever the environment holds, the
/// resource names the service, and it describes the telemetry library as the
/// library itself does: the environment cannot overwrite that.
pub fn build_resource() -> (resource: Resource)
    ensures
        resource_attributes(resource).contains_key(SERVICE_NAME@),
        resource_attributes(resource).contains_key(TELEMETRY_SDK_VERSION@),
        resource_attributes(resource).contains_key(TELEMETRY_SDK_NAME@),
        resource_attributes(resource)[TELEMETRY_SDK_NAME@] == "opentelemetry"@,
        resource_attributes(resource).contains_key(TELEMETRY_SDK_LANGUAGE@),
        resource_attributes(resource)[TELEMETRY_SDK_LANGUAGE@] == "rust"@,
{
    let sdk = detect_sdk_provided(DETECT_TIMEOUT_SECS);
    let env = detect_env(DETECT_TIMEOUT_SECS);
    let telemetry = detect_telemetry(DETECT_TIMEOUT_SECS);
    let resource = merge_layers(&sdk, &env, &telemetry);
    proof {
        lemma_later_layer_wins(
            resource_attributes(sdk),
            resource_attributes(env),
            resource_attributes(telemetry),
            SERVICE_NAME@,
        );
        lemma_later_layer_wins(
            resource_attributes(sdk),
            resource_attributes(env),
            resource_attributes(telemetry),
            TELEMETRY_SDK_NAME@,
        );
        lemma_later_layer_wins(
            resource_attributes(sdk),
            resource_attributes(env),
            resource_attributes(telemetry),
            TELEMETRY_SDK_LANGUAGE@,
        );
        lemma_later_layer_wins(
            resource_attributes(sdk),
            resource_attributes(env),
            resource_attributes(telemetry),
            TELEMETRY_SDK_VERSION@,
        );
    }
    resource
}

/// On a key that several layers hold, the latest layer wins; a key that no
/// layer holds is not in the result.
pub proof fn lemma_later_layer_wins(
    sdk: Map<Seq<char>, Seq<char>>,
    env: Map<Seq<char>, Seq<char>>,
    telemetry: Map<Seq<char>, Seq<char>>,
    key: Seq<char>,
)
    ensures
        layered(sdk, env, telemetry).contains_key(key) <==> sdk.contains_key(key)
            || env.contains_key(key) || telemetry.contains_key(key),
        telemetry.contains_key(key) ==> layered(sdk, env, telemetry)[key] == telemetry[key],
        !telemetry.contains_key(key) && env.contains_key(key) ==> layered(sdk, env, telemetry)[key]
            == env[key],
        !telemetry.contains_key(key) && !env.contains_key(key) && sdk.contains_key(key) ==> layered(
            sdk,
            env,
            telemetry,
        )[key] == sdk[key],
{
}

} // verus!
