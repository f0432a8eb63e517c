use octoproxy::addr::SocketAddr;
use octoproxy::client::backends::{
    default_h2_file_config, default_max_retries, default_quic_file_config, default_retry_timeout,
    domain_host, parse_domain, Backend, BackendError, ClientFiles, DomainError, FileBackendConfig,
    H2FileConfig, MixClient, QuicCongestionFactory, RetryStep, TransferError, TransferOutcome,
};
use octoproxy::metric::{BackendProtocol, BackendStatus, Duration};
use octoproxy::tls::TlsError;
use octoproxy::uri::Uri;

fn client_files() -> ClientFiles {
    let cert = rcgen::generate_simple_self_signed(vec!["localhost".to_string()]).unwrap();
    let pem = cert.serialize_pem().unwrap().into_bytes();
    ClientFiles {
        cacert: Some(Ok(pem.clone())),
        client_cert: Ok(pem),
        client_key: Ok(cert.serialize_private_key_pem().into_bytes()),
    }
}

fn file_config(address: &str, protocol: BackendProtocol) -> FileBackendConfig {
    FileBackendConfig {
        status: None,
        address: address.to_owned(),
        retry_timeout: 1,
        max_retries: 0,
        cacert: Some("ca.crt".to_owned()),
        client_key: "client.key".to_owned(),
        client_cert: "client.crt".to_owned(),
        http2: H2FileConfig {
            keep_alive_interval: 1,
            keep_alive_timeout: 1,
            keep_alive_while_idle: true,
        },
        quic: default_quic_file_config(),
        protocol,
    }
}

fn new_test_backend() -> Result<Backend, BackendError> {
    Backend::new(
        "test0".to_owned(),
        file_config("localhost:8443", BackendProtocol::HTTP2),
        &client_files(),
    )
}

fn uri_error(text: &str) -> String {
    text.parse::<http::Uri>().err().unwrap().to_string()
}

fn peer() -> SocketAddr {
    SocketAddr::V4 { ip: 9, port: 9 }
}

#[test]
fn test_new_backend() {
    assert!(new_test_backend().is_ok());
}

#[test]
fn test_status() {
    let mut backend = new_test_backend().ok().unwrap();
    assert_eq!(backend.get_status(), BackendStatus::Normal);
    backend.set_status(BackendStatus::Closed);
    assert_eq!(backend.get_status(), BackendStatus::Closed);
    backend.set_status(BackendStatus::ForceClosed);
    assert_eq!(backend.get_status(), BackendStatus::ForceClosed);
}

#[test]
fn test_parse_domain() {
    let want = match rustls::ServerName::try_from("example.com").unwrap() {
        rustls::ServerName::DnsName(name) => name.as_ref().to_string(),
        _ => unreachable!(),
    };
    let res = parse_domain("example.com:80");
    assert_eq!(res.ok().unwrap().name, want);

    let res = parse_domain("example.com");
    assert_eq!(res.ok().unwrap().name, want);

    let res = parse_domain("");
    assert!(res.is_err());
}

#[test]
fn domains_are_shown_as_rustls_shows_them() {
    let name = parse_domain("example.com:80").ok().unwrap();
    assert_eq!(name.debug, "DnsName(\"example.com\")");
    let name = parse_domain("127.0.0.1:443").ok().unwrap();
    assert_eq!(name.name, "127.0.0.1");
    assert_eq!(name.debug, "IpAddress(127.0.0.1)");
}

#[test]
fn wrong_addresses_are_told_apart() {
    for address in ["", "a b"] {
        let cause = uri_error(&format!("http://{}", address));
        assert_eq!(
            parse_domain(address).err(),
            Some(DomainError::Authority(cause))
        );
    }
    let cause = "invalid dns name".to_owned();
    assert_eq!(
        parse_domain("-bad-").err(),
        Some(DomainError::ServerName(cause.clone()))
    );
    assert_eq!(
        DomainError::Authority("why".to_owned()).message("a b"),
        "cannot parse authority, got wrong address: a b"
    );
    assert_eq!(
        DomainError::Authority("why".to_owned()).messages("a b"),
        vec!["cannot parse authority, got wrong address: a b", "why"]
    );
    assert_eq!(
        DomainError::Host.message("x"),
        "cannot parse host, got wrong address: x"
    );
    assert_eq!(
        DomainError::ServerName(cause).messages("-bad-"),
        vec![
            "cannot parse server name, got wrong address: -bad-",
            "invalid dns name"
        ]
    );
    let no_host = Uri {
        scheme: None,
        authority: None,
        host: None,
        path_and_query: Some("/".to_owned()),
        text: "/".to_owned(),
    };
    assert_eq!(domain_host(Ok(no_host)).err(), Some(DomainError::Host));
    assert_eq!(
        domain_host(Err("why".to_owned())).err(),
        Some(DomainError::Authority("why".to_owned()))
    );
}

#[test]
fn an_h2_backend_is_set_up_as_configured() {
    let backend = new_test_backend().ok().unwrap();
    match backend.get_client() {
        MixClient::H2(setup) => {
            assert!(setup.tls.get_config().alpn_protocols.is_empty());
            assert_eq!(setup.remote_address, "localhost:8443");
            assert_eq!(setup.remote_uri.authority.as_deref(), Some("localhost:8443"));
            assert_eq!(setup.domain.name, "localhost");
            assert_eq!(setup.connect_time, Duration { secs: 5, nanos: 0 });
            assert!(setup.keep_alive.keep_alive_while_idle);
        }
        MixClient::Quic(_) => unreachable!(),
    }
    let metric = backend.get_metric().unwrap();
    assert_eq!(metric.backend_name, "test0");
    assert_eq!(metric.address, "localhost:8443");
    assert_eq!(metric.domain, "DnsName(\"localhost\")");
    assert_eq!(backend.get_backend_name(), "test0");
    assert_eq!(backend.get_retry_timeout(), 1);
    assert_eq!(backend.get_max_retries(), 0);
}

#[test]
fn a_quic_backend_is_set_up_as_configured() {
    let mut config = file_config("localhost:8443", BackendProtocol::Quic);
    config.quic.max_idle_timeout = Some(30);
    config.quic.keep_alive_interval = Some(0);
    config.quic.congestion = QuicCongestionFactory::Bbr;
    config.status = Some(BackendStatus::ForceClosed);
    let backend = Backend::new("q".to_owned(), config, &client_files())
        .ok()
        .unwrap();
    assert_eq!(backend.get_status(), BackendStatus::ForceClosed);
    match backend.get_client() {
        MixClient::Quic(setup) => {
            assert_eq!(setup.limits.stream_receive_window, 1_250_000);
            assert_eq!(setup.limits.send_window, 10_000_000);
            assert_eq!(setup.limits.initial_rtt_millis, 300);
            assert_eq!(setup.limits.datagram_receive_buffer_size, 1_250_000);
            assert_eq!(setup.limits.congestion, QuicCongestionFactory::Bbr);
            assert_eq!(setup.limits.max_idle_timeout, Some(30));
            assert_eq!(setup.limits.keep_alive_interval, None);
            assert_eq!(setup.server_name, "localhost");
            assert_eq!(setup.remote_address, "localhost:8443");
            assert!(setup.use_0rtt);
            assert!(!setup.ipv4_only);
            let config = format!("{:?}", setup.config.get_config());
            for part in [
                "max_idle_timeout: Some(30000)",
                "stream_receive_window: 1250000,",
                "send_window: 10000000",
                "initial_rtt: 300ms",
                "keep_alive_interval: None",
                "datagram_receive_buffer_size: Some(1250000)",
            ] {
                assert!(config.contains(part), "{} in {}", part, config);
            }
        }
        MixClient::H2(_) => unreachable!(),
    }
}

#[test]
fn quic_ranges_are_checked() {
    let mut quic = default_quic_file_config();
    assert!(quic.check_range());
    quic.max_stream_bandwidth = u32::MAX;
    quic.expected_rtt = 125;
    assert!(quic.check_range());
    assert_eq!(
        quic.init_quic_transport_config().stream_receive_window,
        536_870_875
    );
    quic.expected_rtt = 126;
    assert!(!quic.check_range());
    quic.max_stream_bandwidth = 999;
    quic.expected_rtt = 1_431_655_765;
    assert!(quic.check_range());
    assert_eq!(
        quic.init_quic_transport_config().initial_rtt_millis,
        u32::MAX as u64
    );
    quic.expected_rtt = 1_431_655_766;
    assert!(!quic.check_range());
}

#[test]
fn errors_of_a_backend_name_their_cause() {
    let fail = |config: FileBackendConfig, files: &ClientFiles| {
        Backend::new("b".to_owned(), config, files).err().unwrap()
    };
    let h2 = |address| file_config(address, BackendProtocol::HTTP2);

    let e = fail(h2(""), &client_files());
    assert!(matches!(e, BackendError::Domain(DomainError::Authority(_), _)));
    assert_eq!(e.message(), "Could not build client from backend file");
    assert_eq!(
        e.causes(),
        vec![
            "cannot parse authority, got wrong address: ".to_owned(),
            uri_error("http://")
        ]
    );
    assert_eq!(
        BackendError::Domain(DomainError::Host, "x".to_owned()).causes(),
        vec!["cannot parse host, got wrong address: x"]
    );
    let e = fail(h2("a b"), &client_files());
    assert_eq!(
        e.causes(),
        vec![
            "cannot parse authority, got wrong address: a b".to_owned(),
            uri_error("http://a b")
        ]
    );

    let mut files = client_files();
    files.client_key = Err("gone".to_owned());
    let e = fail(h2("localhost:1"), &files);
    assert!(matches!(e, BackendError::Tls(TlsError::OpenKey(_))));
    assert_eq!(
        e.causes(),
        vec![
            "Could not build tls config from backend file config",
            "cannot open private key file",
            "gone"
        ]
    );

    let e = fail(h2("localhost/path"), &client_files());
    assert!(matches!(e, BackendError::RemoteUri(_)));
    assert_eq!(
        e.causes(),
        vec![
            "Could not parse remote address into uri".to_owned(),
            uri_error("localhost/path")
        ]
    );

    let mut config = file_config("localhost:1", BackendProtocol::Quic);
    config.quic.max_idle_timeout = Some(4_611_686_018_427_388);
    let e = fail(config, &client_files());
    assert!(matches!(e, BackendError::IdleTimeout));
    assert_eq!(e.causes(), vec!["value too large for varint encoding"]);

    let mut config = file_config("localhost:1", BackendProtocol::Quic);
    config.quic.max_idle_timeout = Some(4_611_686_018_427_387);
    assert!(Backend::new("b".to_owned(), config, &client_files()).is_ok());
}

#[test]
fn defaults_of_a_backend() {
    assert_eq!(default_retry_timeout(), 10);
    assert_eq!(default_max_retries(), 10);
    let h2 = default_h2_file_config();
    assert_eq!((h2.keep_alive_interval, h2.keep_alive_timeout), (10, 20));
    assert!(!h2.keep_alive_while_idle);
    let quic = default_quic_file_config();
    assert_eq!(quic.expected_rtt, 100);
    assert_eq!(quic.max_stream_bandwidth, 12_500_000);
    assert_eq!(quic.congestion, QuicCongestionFactory::Cubic);
}

#[test]
fn a_retry_brings_a_backend_back() {
    let mut backend = new_test_backend().ok().unwrap();
    assert_eq!(backend.begin_retry(), RetryStep::Break);

    backend.connect_failed();
    assert_eq!(backend.get_status(), BackendStatus::Closed);
    assert_eq!(backend.begin_retry(), RetryStep::Connect);
    assert_eq!(backend.begin_retry(), RetryStep::Break);
    assert_eq!(backend.end_retry(false), RetryStep::Continue);
    assert_eq!(backend.get_status(), BackendStatus::Closed);
    assert_eq!(backend.begin_retry(), RetryStep::Connect);
    assert_eq!(backend.end_retry(true), RetryStep::Break);
    assert_eq!(backend.get_status(), BackendStatus::Normal);
}

#[test]
fn what_was_closed_by_hand_stays_closed() {
    let mut backend = new_test_backend().ok().unwrap();
    assert!(!backend.switch_status());
    assert_eq!(backend.get_status(), BackendStatus::ForceClosed);
    backend.connect_failed();
    assert_eq!(backend.get_status(), BackendStatus::ForceClosed);
    assert_eq!(backend.begin_retry(), RetryStep::Break);
    assert_eq!(backend.end_retry(true), RetryStep::Break);
    assert_eq!(backend.get_status(), BackendStatus::ForceClosed);

    assert!(backend.switch_status());
    assert_eq!(backend.get_status(), BackendStatus::Unknown);
    assert_eq!(backend.begin_retry(), RetryStep::Connect);
    assert_eq!(backend.end_retry(true), RetryStep::Break);
    assert_eq!(backend.get_status(), BackendStatus::Normal);
}

#[test]
fn a_transfer_is_recorded_or_fails() {
    let mut backend = new_test_backend().ok().unwrap();
    let time = Duration { secs: 0, nanos: 5 };
    backend.begin_transfer(peer());
    backend.begin_transfer(peer());
    let r = backend.transfer(TransferOutcome::Done(3, 4, time), time, peer());
    assert!(r.is_ok());

    let r = backend.transfer(TransferOutcome::Cancelled, time, peer());
    let e = r.err().unwrap();
    assert!(matches!(e, TransferError::Cancelled));
    assert_eq!(e.message(), "tunnel is cancelled");
    let r = backend.transfer(TransferOutcome::Failed("reset".to_owned()), time, peer());
    assert_eq!(r.err().unwrap().message(), "fail to transfer: reset");
    backend.add_failures(peer());

    let m = backend.get_metric().unwrap().metric;
    assert_eq!((m.incoming_bytes, m.outgoing_bytes), (3, 4));
    assert_eq!((m.active_connections, m.failures), (0, 1));
    assert_eq!(m.active_peers.len(), 0);
}

#[test]
fn switching_the_protocol_starts_over() {
    let mut backend = new_test_backend().ok().unwrap();
    backend.begin_transfer(peer());
    assert!(backend.switch_protocol(&client_files()).is_ok());
    assert!(matches!(backend.get_client(), MixClient::Quic(_)));
    let m = backend.get_metric().unwrap().metric;
    assert!(matches!(m.protocol, BackendProtocol::Quic));
    assert_eq!(m.active_connections, 0);
    assert!(matches!(
        backend.get_config().protocol,
        BackendProtocol::Quic
    ));

    let mut missing = client_files();
    missing.client_cert = Err("gone".to_owned());
    assert!(backend.switch_protocol(&missing).is_err());
    assert!(matches!(
        backend.get_config().protocol,
        BackendProtocol::HTTP2
    ));
    assert!(matches!(backend.get_client(), MixClient::Quic(_)));
    let m = backend.get_metric().unwrap().metric;
    assert!(matches!(m.protocol, BackendProtocol::Quic));
}

#[test]
fn a_backend_takes_the_client_that_was_set_up() {
    let config = || file_config("localhost:8080", BackendProtocol::HTTP2);
    let built = config().build_client(&client_files());
    let backend = Backend::with_client("b".to_owned(), config(), built)
        .ok()
        .unwrap();
    assert_eq!(backend.get_backend_name(), "b");
    assert_eq!(backend.get_status(), BackendStatus::Normal);
    assert!(matches!(backend.get_client(), MixClient::H2(_)));

    let refused = Err(BackendError::IdleTimeout);
    let e = Backend::with_client("b".to_owned(), config(), refused)
        .err()
        .unwrap();
    assert!(matches!(e, BackendError::IdleTimeout));
}

#[test]
fn a_backend_goes_over_to_the_client_that_was_set_up() {
    let mut backend = new_test_backend().ok().unwrap();
    backend.begin_transfer(peer());
    backend.cancel();
    let e = backend
        .switch_to(Err(BackendError::IdleTimeout))
        .err()
        .unwrap();
    assert!(matches!(e, BackendError::IdleTimeout));
    let m = backend.get_metric().unwrap().metric;
    assert_eq!(m.active_connections, 1);

    let config = file_config("localhost:8080", BackendProtocol::Quic);
    assert!(backend
        .switch_to(config.build_client(&client_files()))
        .is_ok());
    assert!(matches!(backend.get_client(), MixClient::Quic(_)));
    let m = backend.get_metric().unwrap().metric;
    assert_eq!((m.active_connections, m.failures), (0, 0));
    assert!(matches!(m.protocol, BackendProtocol::HTTP2));
}

#[test]
fn switching_the_protocol_twice_comes_back() {
    let mut backend = new_test_backend().ok().unwrap();
    for quic in [true, false] {
        assert!(backend.switch_protocol(&client_files()).is_ok());
        assert_eq!(matches!(backend.get_client(), MixClient::Quic(_)), quic);
    }
    let m = backend.get_metric().unwrap().metric;
    assert!(matches!(m.protocol, BackendProtocol::HTTP2));
}
