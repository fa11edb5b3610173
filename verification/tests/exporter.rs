use fibonacci_server::exporter::{
    exporter_configs, tonic_exporter, ExporterConfig, Protocol, Signal, Transport, TrustRoots,
};

#[test]
fn default_transport() {
    let transport = Transport::native_tls();
    assert_eq!(
        transport,
        Transport { endpoint: None, protocol: Protocol::Grpc, trust_roots: TrustRoots::Native }
    );
}

#[test]
fn both_exporters_share_the_transport() {
    let transport = Transport {
        endpoint: Some(String::from("https://collector.example:4317")),
        protocol: Protocol::Grpc,
        trust_roots: TrustRoots::Native,
    };
    let (traces, metrics) = exporter_configs(&transport);
    assert_eq!(
        traces,
        ExporterConfig { signal: Signal::Traces, transport: transport.clone(), interval_secs: None }
    );
    assert_eq!(
        metrics,
        ExporterConfig {
            signal: Signal::Metrics,
            transport: transport.clone(),
            interval_secs: None
        }
    );
    assert_eq!(traces.transport, metrics.transport);
}

#[test]
fn duplicate_is_equal() {
    let transport = Transport {
        endpoint: Some(String::from("https://collector.example:4317")),
        protocol: Protocol::Grpc,
        trust_roots: TrustRoots::Native,
    };
    assert_eq!(transport.duplicate(), transport);
    assert_eq!(Transport::native_tls().duplicate(), Transport::native_tls());
}

#[test]
fn builder_carries_tls_and_endpoint() {
    let transport = Transport {
        endpoint: Some(String::from("https://collector.example:4317")),
        protocol: Protocol::Grpc,
        trust_roots: TrustRoots::Native,
    };
    let (traces, _) = exporter_configs(&transport);
    let shown = format!("{:?}", tonic_exporter(&traces));
    assert!(shown.contains("endpoint: \"https://collector.example:4317\""), "{}", shown);
    assert!(shown.contains("tls_config: Some"), "{}", shown);
    assert!(shown.contains("with_native_roots: true"), "{}", shown);
}

#[test]
fn builder_without_endpoint_keeps_the_default() {
    let (_, metrics) = exporter_configs(&Transport::native_tls());
    let shown = format!("{:?}", tonic_exporter(&metrics));
    assert!(!shown.contains("collector.example"), "{}", shown);
    assert!(shown.contains("endpoint: \"\""), "{}", shown);
    assert!(shown.contains("tls_config: Some"), "{}", shown);
    assert!(shown.contains("with_native_roots: true"), "{}", shown);
}

#[test]
fn both_builders_hold_the_same_settings() {
    let transport = Transport {
        endpoint: Some(String::from("https://collector.example:4317")),
        protocol: Protocol::Grpc,
        trust_roots: TrustRoots::Native,
    };
    let (traces, metrics) = exporter_configs(&transport);
    assert_eq!(
        format!("{:?}", tonic_exporter(&traces)),
        format!("{:?}", tonic_exporter(&metrics))
    );
}
