//! How spans and metrics leave the process.
//!
//! The transport is configured once; the exporter configurations of the two
//! pipelines are derived from it.

use opentelemetry_otlp::{TonicExporterBuilder, WithExportConfig};
use tonic::transport::ClientTlsConfig;
use vstd::prelude::*;

verus! {

/// `opentelemetry_otlp::TonicExporterBuilder`. Nothing is seen inside it;
/// `builder_endpoint` and `builder_trusts_native_roots` name what it holds.
#[verifier::external_type_specification]
#[verifier::external_body]
pub struct ExTonicExporterBuilder(opentelemetry_otlp::TonicExporterBuilder);

/// `tonic::transport::ClientTlsConfig`, of which only the trust in the system's roots is named.
#[verifier::external_type_specification]
#[verifier::external_body]
pub struct ExClientTlsConfig(tonic::transport::ClientTlsConfig);

/// The endpoint that an exporter builder holds. The empty text means that
/// none was set, which leaves the endpoint to the environment.
pub uninterp spec fn builder_endpoint(builder: TonicExporterBuilder) -> Seq<char>;

/// Whether an exporter builder holds a TLS configuration that trusts the
/// roots of the system's trust store. A builder without a TLS configuration
/// does not.
pub uninterp spec fn builder_trusts_native_roots(builder: TonicExporterBuilder) -> bool;

/// Whether a TLS configuration trusts the roots of the system's trust
/// store.
pub uninterp spec fn tls_trusts_native_roots(tls: ClientTlsConfig) -> bool;

/// The endpoint that a transport asks for, as an exporter builder holds it:
/// the text itself, or the empty text where the transport names none.
pub open spec fn configured_endpoint(transport: TransportView) -> Seq<char> {
    match transport.endpoint {
        Some(text) => text,
        None => Seq::empty(),
    }
}

/// Whether a transport asks for the roots of the system's trust store. It
/// is the only policy there is: a bundle of one's own cannot be configured.
pub open spec fn wants_native_roots(transport: TransportView) -> bool {
    transport.trust_roots == TrustRoots::Native
}

/// The wire protocol of the export.
#[derive(Debug, Clone, Copy, PartialEq, Eq, Structural)]
pub enum Protocol {
    /// OTLP over gRPC.
    Grpc,
}

/// Which certificate authorities the export trusts.
#[derive(Debug, Clone, Copy, PartialEq, Eq, Structural)]
pub enum TrustRoots {
    /// The trust store of the system.
    Native,
}

/// The pipeline that an exporter serves.
#[derive(Debug, Clone, Copy, PartialEq, Eq, Structural)]
pub enum Signal {
    Traces,
    Metrics,
}

/// The settings that both exporters share.
#[derive(Debug, Clone, PartialEq, Eq)]
pub struct Transport {
    /// Where the collector listens; `None` leaves it to the environment.
    pub endpoint: Option<String>,
    pub protocol: Protocol,
    pub trust_roots: TrustRoots,
}

/// A `Transport` as plain values.
pub struct TransportView {
    pub endpoint: Option<Seq<char>>,
    pub protocol: Protocol,
    pub trust_roots: TrustRoots,
}

impl View for Transport {
    type V = TransportView;

    open spec fn view(&self) -> TransportView {
        TransportView {
            endpoint: match self.endpoint {
                Some(text) => Some(text@),
                None => None,
            },
            protocol: self.protocol,
            trust_roots: self.trust_roots,
        }
    }
}

/// The configuration of the exporter of one pipeline.
#[derive(Debug, Clone, PartialEq, Eq)]
pub struct ExporterConfig {
    pub signal: Signal,
    pub transport: Transport,
    /// Seconds between two exports; `None` keeps the pipeline's default.
    pub interval_secs: Option<u64>,
}

/// An `ExporterConfig` as plain values.
pub struct ExporterConfigView {
    pub signal: Signal,
    pub transport: TransportView,
    pub interval_secs: Option<u64>,
}

impl View for ExporterConfig {
    type V = ExporterConfigView;

    open spec fn view(&self) -> ExporterConfigView {
        ExporterConfigView {
            signal: self.signal,
            transport: self.transport@,
            interval_secs: self.interval_secs,
        }
    }
}

impl Transport {
    /// gRPC with the system's trust roots, to the endpoint that the
    /// environment names.
    pub fn native_tls() -> (transport: Transport)
        ensures
            transport@ == (TransportView {
                endpoint: None,
                protocol: Protocol::Grpc,
                trust_roots: TrustRoots::Native,
            }),
    {
        Transport { endpoint: None, protocol: Protocol::Grpc, trust_roots: TrustRoots::Native }
    }

    /// A copy of these settings.
    pub fn duplicate(&self) -> (copy: Transport)
        ensures
            copy@ == self@,
    {
        let endpoint = match &self.endpoint {
            Some(text) => Some(text.clone()),
            None => None,
        };
        Transport { endpoint, protocol: self.protocol, trust_roots: self.trust_roots }
    }
}

/// Derives the two exporter configurations, first that of the trace
/// pipeline, then that of the metrics pipeline. Both carry the same
/// transport and keep their pipeline's default interval.
pub fn exporter_configs(transport: &Transport) -> (pair: (ExporterConfig, ExporterConfig))
    ensures
        pair.0@ == (ExporterConfigView {
            signal: Signal::Traces,
            transport: transport@,
            interval_secs: None,
        }),
        pair.1@ == (ExporterConfigView {
            signal: Signal::Metrics,
            transport: transport@,
            interval_secs: None,
        }),
{
    let traces = ExporterConfig {
        signal: Signal::Traces,
        transport: transport.duplicate(),
        interval_secs: None,
    };
    let metrics = ExporterConfig {
        signal: Signal::Metrics,
        transport: transport.duplicate(),
        interval_secs: None,
    };
    (traces, metrics)
}

/// Turns a configuration into the builder of a gRPC exporter: the builder
/// holds the endpoint that the transport asks for, and a TLS configuration
/// that trusts the system's roots.
pub fn tonic_exporter(config: &ExporterConfig) -> (builder: TonicExporterBuilder)
    ensures
        builder_endpoint(builder) == configured_endpoint(config@.transport),
        builder_trusts_native_roots(builder) == wants_native_roots(config@.transport),
        builder_trusts_native_roots(builder),
{
    let builder = match config.transport.protocol {
        Protocol::Grpc => new_tonic_exporter(),
    };
    let builder = match config.transport.trust_roots {
        TrustRoots::Native => with_tls_config(builder, native_roots_tls()),
    };
    match &config.transport.endpoint {
        Some(endpoint) => with_endpoint(builder, endpoint.as_str()),
        None => builder,
    }
}

/// `opentelemetry_otlp::new_exporter` followed by `tonic`: a gRPC exporter
/// builder with the crate's defaults, which are an empty endpoint and no TLS
/// configuration.
#[verifier::external_body]
fn new_tonic_exporter() -> (builder: TonicExporterBuilder)
    ensures
        builder_endpoint(builder) == Seq::<char>::empty(),
        !builder_trusts_native_roots(builder),
{
    opentelemetry_otlp::new_exporter().tonic()
}

/// `ClientTlsConfig::new` followed by `with_native_roots`: a TLS
/// configuration that trusts the system's roots.
#[verifier::external_body]
fn native_roots_tls() -> (tls: ClientTlsConfig)
    ensures
        tls_trusts_native_roots(tls),
{
    ClientTlsConfig::new().with_native_roots()
}

/// `TonicExporterBuilder::with_tls_config`: the builder with this TLS
/// configuration in place of the one it had, and the endpoint it had.
#[verifier::external_body]
fn with_tls_config(builder: TonicExporterBuilder, tls: ClientTlsConfig) -> (configured:
    TonicExporterBuilder)
    ensures
        builder_endpoint(configured) == builder_endpoint(builder),
        builder_trusts_native_roots(configured) == tls_trusts_native_roots(tls),
{
    builder.with_tls_config(tls)
}

/// `WithExportConfig::with_endpoint`: the builder with this endpoint in
/// place of the one it had, and the TLS configuration it had.
#[verifier::external_body]
fn with_endpoint(builder: TonicExporterBuilder, endpoint: &str) -> (configured:
    TonicExporterBuilder)
    ensures
        builder_endpoint(configured) == endpoint@,
        builder_trusts_native_roots(configured) == builder_trusts_native_roots(builder),
{
    builder.with_endpoint(endpoint)
}

} // verus!
