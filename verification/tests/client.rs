use octoproxy::addr::SocketAddr;
use octoproxy::client::backends::{
    default_h2_file_config, default_quic_file_config, Backend, BackendError, ClientFiles,
    FileBackendConfig, TransferError, TransferOutcome,
};
use octoproxy::client::balance::Balance;
use octoproxy::client::config::{
    AvailableBackend, Cmd, Config, ConfigError, ConfigStart, FileConfig, Loaded, RuleFile,
};
use octoproxy::client::control::{
    backend_metric_switcher, protocol_answer, socket_step, ControlAction, SocketMessage,
    SocketStep,
};
use octoproxy::client::peer::PeerInfo;
use octoproxy::client::proxy::{
    handle_connection, incoming_connection, retry_forever, takes_event, IncomingConnection,
    RetryAction, RetryEvent, RetryPlan, TunnelAction, TunnelEvent,
};
use octoproxy::client::rules::HostRuleSection;
use octoproxy::config::LogLevel;
use octoproxy::metric::{
    BackendProtocol, BackendStatus, Duration, MetricApiReq, MetricApiResp,
};

fn client_files() -> ClientFiles {
    let cert = rcgen::generate_simple_self_signed(vec!["localhost".to_string()]).unwrap();
    let pem = cert.serialize_pem().unwrap().into_bytes();
    ClientFiles {
        cacert: Some(Ok(pem.clone())),
        client_cert: Ok(pem),
        client_key: Ok(cert.serialize_private_key_pem().into_bytes()),
    }
}

fn no_files() -> ClientFiles {
    ClientFiles {
        cacert: None,
        client_cert: Err("no file".to_owned()),
        client_key: Err("no file".to_owned()),
    }
}

fn file_backend(address: &str, max_retries: u32) -> FileBackendConfig {
    FileBackendConfig {
        status: None,
        protocol: BackendProtocol::HTTP2,
        address: address.to_owned(),
        retry_timeout: 1,
        max_retries,
        cacert: Some("assets/certs/ca.crt".to_owned()),
        client_key: "assets/certs/client.key".to_owned(),
        client_cert: "assets/certs/client.crt".to_owned(),
        http2: default_h2_file_config(),
        quic: default_quic_file_config(),
    }
}

fn loaded(names: &[&str], balance: Balance) -> Loaded {
    Loaded {
        file: FileConfig {
            listen_address: "127.0.0.1:1229".to_owned(),
            log_level: "debug".to_owned(),
            balance,
            host_rule: None,
            metric_address: "8404".to_owned(),
            backends: names
                .iter()
                .map(|name| (name.to_string(), file_backend("localhost:8080", 3)))
                .collect(),
        },
        rules: RuleFile::NotGiven,
        files: names.iter().map(|_| client_files()).collect(),
        log_env: None,
    }
}

fn cmd(listen: Option<&str>) -> Cmd {
    Cmd {
        listen_address: listen.map(|s| s.to_owned()),
        config: "assets/testconfig/simple_client.toml".to_owned(),
    }
}

fn config(names: &[&str], balance: Balance) -> Config {
    Config::new(cmd(None), loaded(names, balance)).ok().unwrap()
}

fn eg_addr() -> SocketAddr {
    SocketAddr::V4 {
        ip: 0x7f00_0001,
        port: 8080,
    }
}

fn peer(host: &str) -> PeerInfo {
    PeerInfo::new(host.to_owned(), eg_addr())
}

fn empty_host_peer_info() -> PeerInfo {
    peer("")
}

#[test]
fn test_new_config() {
    let config = cmd(Some("8080"))
        .run(Ok(loaded(&["local"], Balance::RoundRobin)))
        .ok()
        .unwrap();

    assert_eq!(
        config.listen_address.port(),
        8080,
        "config listen address is wrong"
    );
    assert_eq!(config.backends.len(), 1, "config backend len is wrong");
    assert_eq!(config.log_level, LogLevel::Debug, "config log is wrong");
}

#[test]
fn a_configuration_takes_the_file_where_the_command_line_is_silent() {
    let mut input = loaded(&["a"], Balance::Frist);
    input.log_env = Some("trace".to_owned());
    let config = Config::new(cmd(None), input).ok().unwrap();
    assert_eq!(config.listen_address.port(), 1229);
    assert_eq!(config.metric_address.port(), 8404);
    assert_eq!(config.log_level, LogLevel::Trace);
    assert_eq!(config.proxy_uri.authority.as_deref(), Some("127.0.0.1:1229"));
    assert_eq!(config.proxy_uri.scheme.as_deref(), Some("http"));
    assert!(config.host_rule.is_none());
}

#[test]
fn wrong_configurations_are_told_apart() {
    let fail = |opts: Cmd, input: Loaded| Config::new(opts, input).err().unwrap();
    let good = || loaded(&["a"], Balance::Random);

    let e = fail(cmd(Some("nowhere")), good());
    assert!(matches!(e, ConfigError::ListenAddress));
    assert_eq!(e.message(), "Could not parse proxy listen address");

    let mut input = good();
    input.file.metric_address = "".to_owned();
    let e = fail(cmd(None), input);
    assert!(matches!(e, ConfigError::MetricAddress));
    assert_eq!(e.message(), "Could not parse metric listen address");

    assert_eq!(
        ConfigError::ProxyUri("why".to_owned()).message(),
        "Could not parse proxy listen address"
    );

    let mut input = good();
    input.rules = RuleFile::CannotOpen("why".to_owned());
    let e = fail(cmd(None), input);
    assert!(matches!(e, ConfigError::OpenRules(_)));
    assert_eq!(e.message(), "Failed to open host rewrite file");

    let mut input = good();
    input.rules = RuleFile::Invalid("why".to_owned());
    let e = fail(cmd(None), input);
    assert!(matches!(e, ConfigError::ParseRules(_)));
    assert_eq!(e.message(), "Failed to parse host rewrite config");

    let mut input = good();
    input.files[0].client_key = Err("gone".to_owned());
    let e = fail(cmd(None), input);
    assert!(matches!(e, ConfigError::Backend(BackendError::Tls(_))));
    assert_eq!(e.message(), "Could not setup backends");
}

#[test]
fn test_available_backends() {
    let mut config = config(&["first_backend"], Balance::RoundRobin);

    let mut second_backend = Backend::new(
        "second_backend".to_owned(),
        file_backend("localhost:8080", 3),
        &client_files(),
    )
    .ok()
    .unwrap();

    // make the second backend down
    second_backend.set_status(BackendStatus::Closed);
    config.backends.push(second_backend);
    let costs = vec![0, 0];

    let res = config.available_backends(&costs);
    assert_eq!(res.len(), 1, "incorrect config available backends len");
    let next_backend = config.next_available_backend(&empty_host_peer_info(), &costs);
    let next_backend = match next_backend {
        AvailableBackend::GotBackend(b) => b,
        _ => unreachable!("Should not be other value"),
    };
    assert_eq!(
        config.backends[next_backend].get_backend_name(),
        "first_backend",
        "should be a backend here"
    );

    // make the first backend down
    config.backends[0].set_status(BackendStatus::Closed);

    let res = config.available_backends(&costs);
    assert_eq!(res.len(), 0, "should be no backend");
    let next_backend = config.next_available_backend(&empty_host_peer_info(), &costs);

    assert!(
        matches!(next_backend, AvailableBackend::NoBackend),
        "should be no backend"
    );
}

#[test]
fn test_retry_forever_max_retries() {
    let max_retries = 2;
    let mut backend = Backend::new(
        "backend1".to_owned(),
        file_backend("127.0.0.1:0", max_retries),
        &client_files(),
    )
    .ok()
    .unwrap();
    backend.set_status(BackendStatus::Unknown);

    let mut retries = 0;
    let mut plan = RetryPlan::new(backend.get_max_retries());
    let mut event = RetryEvent::Started;
    loop {
        event = match retry_forever(&mut backend, &mut plan, event) {
            RetryAction::Wait => RetryEvent::Due,
            RetryAction::Connect => {
                retries += 1;
                RetryEvent::Tried(false)
            }
            RetryAction::Stop => break,
        };
    }
    assert_eq!(max_retries, retries, "max_retries is wrong");
}

#[test]
fn retries_end_with_the_first_that_goes_well_or_by_hand() {
    let down = || {
        let mut config = config(&["a"], Balance::Frist);
        let mut backend = config.backends.remove(0);
        backend.connect_failed();
        backend
    };
    let mut plan = RetryPlan::new(3);
    let mut backend = down();
    let mut step = |backend: &mut Backend, event| retry_forever(backend, &mut plan, event);
    assert_eq!(step(&mut backend, RetryEvent::Started), RetryAction::Wait);
    assert_eq!(step(&mut backend, RetryEvent::Due), RetryAction::Connect);
    assert_eq!(step(&mut backend, RetryEvent::Tried(false)), RetryAction::Wait);
    assert_eq!(step(&mut backend, RetryEvent::Due), RetryAction::Connect);
    assert_eq!(step(&mut backend, RetryEvent::Tried(true)), RetryAction::Stop);
    assert_eq!(backend.get_status(), BackendStatus::Normal);
    assert_eq!(step(&mut backend, RetryEvent::Due), RetryAction::Stop);

    let mut backend = down();
    let mut plan = RetryPlan::new(3);
    let mut step = |backend: &mut Backend, event| retry_forever(backend, &mut plan, event);
    assert_eq!(step(&mut backend, RetryEvent::Started), RetryAction::Wait);
    assert_eq!(step(&mut backend, RetryEvent::Due), RetryAction::Connect);
    backend.switch_status();
    assert_eq!(step(&mut backend, RetryEvent::Tried(true)), RetryAction::Stop);
    assert_eq!(backend.get_status(), BackendStatus::ForceClosed);
}

#[test]
fn events_are_taken_in_only_where_the_counters_stay_in_range() {
    let mut config = config(&["a"], Balance::Frist);
    let p = peer("h:1");
    let time = Duration { secs: 0, nanos: 1 };
    let ended = |id| TunnelEvent::Ended(id, time, TransferOutcome::Cancelled);
    assert!(takes_event(&config, &p, &TunnelEvent::Started));
    assert!(takes_event(&config, &p, &TunnelEvent::ConnectFailed(0)));
    assert!(!takes_event(&config, &p, &TunnelEvent::ConnectFailed(1)));
    assert!(takes_event(&config, &p, &TunnelEvent::Connected(0)));
    assert!(!takes_event(&config, &p, &TunnelEvent::Connected(1)));
    assert!(!takes_event(&config, &p, &ended(0)));
    assert!(!takes_event(&config, &p, &ended(1)));
    config.backends[0].begin_transfer(eg_addr());
    assert!(takes_event(&config, &p, &ended(0)));
}

#[test]
fn no_limit_of_retries_is_a_very_high_one() {
    let mut plan = RetryPlan::new(0);
    for _ in 0..1000 {
        assert!(plan.tick());
    }
    let mut plan = RetryPlan::new(1);
    assert!(plan.tick());
    assert!(!plan.tick());
    assert!(!plan.tick());
}

#[test]
fn load_balancing_goes_over_the_backends_that_are_up() {
    let mut config = config(&["a", "b", "c"], Balance::RoundRobin);
    config.backends[1].set_status(BackendStatus::Unknown);
    let costs = vec![30, 10, 20];
    let up = config.available_backends(&costs);
    let ids: Vec<usize> = up.iter().map(|b| b.id).collect();
    let loads: Vec<u64> = up.iter().map(|b| b.cost).collect();
    assert_eq!(ids, vec![0, 2]);
    assert_eq!(loads, vec![30, 20]);
    let picks: Vec<AvailableBackend> = (0..3)
        .map(|_| config.next_available_backend(&peer("x"), &costs))
        .collect();
    assert_eq!(
        picks,
        vec![
            AvailableBackend::GotBackend(0),
            AvailableBackend::GotBackend(2),
            AvailableBackend::GotBackend(0)
        ]
    );
}

#[test]
fn the_least_loaded_backend_that_is_up_is_picked() {
    let mut config = config(&["a", "b", "c"], Balance::LeastLoadedTime);
    config.backends[1].set_status(BackendStatus::Closed);
    let r = config.next_available_backend(&peer("x"), &vec![30, 10, 20]);
    assert_eq!(r, AvailableBackend::GotBackend(2));
}

fn with_rules(names: &[&str]) -> Config {
    let section = |rewrite: Option<&str>, backend: Option<&str>, direct| HostRuleSection {
        rewrite: rewrite.map(|s| s.to_owned()),
        backend: backend.map(|s| s.to_owned()),
        direct,
    };
    let mut input = loaded(names, Balance::Frist);
    input.rules = RuleFile::Sections(vec![
        ("routed".to_owned(), section(None, Some("b"), false)),
        ("lost".to_owned(), section(None, Some("nobody"), false)),
        ("near".to_owned(), section(None, None, true)),
        ("old".to_owned(), section(Some("new"), None, false)),
        ("silent".to_owned(), section(None, None, false)),
    ]);
    Config::new(cmd(None), input).ok().unwrap()
}

#[test]
fn rules_go_before_load_balancing() {
    let mut config = with_rules(&["a", "b"]);
    let costs = vec![0, 0];
    let mut go = |host: &str, config: &mut Config| {
        let mut p = peer(host);
        config.find_rule_for_peer(&mut p);
        config.next_available_backend(&p, &costs)
    };
    assert_eq!(
        go("routed:80", &mut config),
        AvailableBackend::GotBackend(1)
    );
    assert_eq!(go("lost:80", &mut config), AvailableBackend::Block);
    assert_eq!(go("near:80", &mut config), AvailableBackend::Direct);
    assert_eq!(go("old:80", &mut config), AvailableBackend::GotBackend(0));
    assert_eq!(
        go("silent:80", &mut config),
        AvailableBackend::GotBackend(0)
    );
    config.backends[1].set_status(BackendStatus::Closed);
    assert_eq!(go("routed:80", &mut config), AvailableBackend::Block);
}

#[test]
fn requests_are_sorted() {
    match incoming_connection(None, true, eg_addr()) {
        IncomingConnection::Refused(status, text) => {
            assert_eq!(status, 400);
            assert_eq!(text, "CONNECT must be to a socket address");
        }
        _ => unreachable!(),
    }
    match incoming_connection(Some("a:1".to_owned()), true, eg_addr()) {
        IncomingConnection::ConnectMethod(p) => assert_eq!(p.get_host(), "a:1"),
        _ => unreachable!(),
    }
    match incoming_connection(Some("a:1".to_owned()), false, eg_addr()) {
        IncomingConnection::NonConnectMethod(p) => assert_eq!(p.get_addr(), eg_addr()),
        _ => unreachable!(),
    }
}

#[test]
fn a_tunnel_tries_backend_after_backend() {
    let mut config = with_rules(&["a", "b"]);
    let costs = vec![0, 0];
    let mut p = peer("old:8443");
    let (action, retry) = handle_connection(&mut config, &mut p, &costs, TunnelEvent::Started);
    assert_eq!(retry, None);
    match action {
        TunnelAction::Connect(0, head) => assert_eq!(head.as_str(), "new:8443"),
        _ => unreachable!(),
    }
    let (action, retry) =
        handle_connection(&mut config, &mut p, &costs, TunnelEvent::ConnectFailed(0));
    assert_eq!(retry, Some(0));
    assert!(matches!(action, TunnelAction::Connect(1, _)));
    assert_eq!(config.backends[0].get_status(), BackendStatus::Closed);

    let (action, retry) =
        handle_connection(&mut config, &mut p, &costs, TunnelEvent::Connected(1));
    assert_eq!(retry, None);
    assert!(matches!(action, TunnelAction::Transfer(1)));
    let m = config.backends[1].get_metric().unwrap().metric;
    assert_eq!(m.active_connections, 1);
    assert_eq!(m.active_peers.count(eg_addr()), 1);

    let time = Duration { secs: 1, nanos: 0 };
    let ended = TunnelEvent::Ended(1, time, TransferOutcome::Done(10, 20, time));
    let (action, retry) = handle_connection(&mut config, &mut p, &costs, ended);
    assert_eq!(retry, None);
    assert!(matches!(action, TunnelAction::Finish));
    let m = config.backends[1].get_metric().unwrap().metric;
    assert_eq!(m.active_connections, 0);
    assert_eq!((m.total_incoming_bytes, m.total_outgoing_bytes), (10, 20));

    let (action, retry) =
        handle_connection(&mut config, &mut p, &costs, TunnelEvent::ConnectFailed(1));
    assert_eq!(retry, Some(1));
    assert!(matches!(action, TunnelAction::Finish));
}

#[test]
fn a_tunnel_that_fails_is_counted() {
    let mut config = config(&["a"], Balance::Frist);
    let costs = vec![0];
    let mut p = peer("h:1");
    let time = Duration { secs: 0, nanos: 1 };
    for outcome in [
        TransferOutcome::Cancelled,
        TransferOutcome::Failed("broken".to_owned()),
    ] {
        handle_connection(&mut config, &mut p, &costs, TunnelEvent::Connected(0));
        let ended = TunnelEvent::Ended(0, time, outcome);
        match handle_connection(&mut config, &mut p, &costs, ended).0 {
            TunnelAction::Fail(TransferError::Cancelled) => {}
            TunnelAction::Fail(TransferError::Failed(message)) => assert_eq!(message, "broken"),
            _ => unreachable!(),
        }
    }
    let m = config.backends[0].get_metric().unwrap().metric;
    assert_eq!((m.failures, m.active_connections), (2, 0));
    assert_eq!(m.active_peers.len(), 0);
}

#[test]
fn a_direct_host_needs_no_backend() {
    let mut config = with_rules(&["a", "b"]);
    let mut p = peer("near");
    let (action, _) = handle_connection(&mut config, &mut p, &vec![0, 0], TunnelEvent::Started);
    match action {
        TunnelAction::ConnectDirect(head) => assert_eq!(head.as_str(), "near:80"),
        _ => unreachable!(),
    }
    let mut p = peer("lost");
    let (action, _) = handle_connection(&mut config, &mut p, &vec![0, 0], TunnelEvent::Started);
    assert!(matches!(action, TunnelAction::Finish));
}

#[test]
fn the_metric_service_shows_all_backends() {
    let mut config = config(&["a", "b"], Balance::Frist);
    let (resp, action) =
        backend_metric_switcher(MetricApiReq::AllBackends, &mut config, &no_files());
    assert!(matches!(action, ControlAction::Nothing));
    match resp {
        MetricApiResp::AllBackends { items } => {
            let names: Vec<&str> = items.iter().map(|b| b.backend_name.as_str()).collect();
            assert_eq!(names, vec!["a", "b"]);
        }
        _ => unreachable!(),
    }
}

#[test]
fn the_operator_switches_a_backend() {
    let mut config = config(&["a", "b"], Balance::Frist);
    let req = MetricApiReq::SwitchBackendStatus { backend_id: 1 };
    let (resp, action) = backend_metric_switcher(req, &mut config, &no_files());
    assert!(matches!(resp, MetricApiResp::SwitchBackendStatus));
    assert_eq!(action, ControlAction::Cut(1));
    assert_eq!(config.backends[1].get_status(), BackendStatus::ForceClosed);
    assert_eq!(config.backends[0].get_status(), BackendStatus::Normal);

    let (_, action) = backend_metric_switcher(req, &mut config, &no_files());
    assert_eq!(action, ControlAction::Retry(1));
    assert_eq!(config.backends[1].get_status(), BackendStatus::Unknown);
}

#[test]
fn the_operator_resets_a_backend() {
    let mut config = config(&["a"], Balance::Frist);
    config.backends[0].begin_transfer(eg_addr());
    let req = MetricApiReq::ResetBackend { backend_id: 0 };
    let (resp, action) = backend_metric_switcher(req, &mut config, &no_files());
    assert!(matches!(resp, MetricApiResp::ResetBackend));
    assert_eq!(action, ControlAction::ResetClient(0));
    let m = config.backends[0].get_metric().unwrap().metric;
    assert_eq!(m.active_connections, 0);
}

#[test]
fn the_operator_switches_the_protocol() {
    let mut config = config(&["a"], Balance::Frist);
    let req = MetricApiReq::SwitchBackendProtocol { backend_id: 0 };
    let (resp, action) = backend_metric_switcher(req, &mut config, &client_files());
    assert!(matches!(resp, MetricApiResp::SwitchBackendProtocol));
    assert_eq!(action, ControlAction::NewClient(0));
    let m = config.backends[0].get_metric().unwrap().metric;
    assert!(matches!(m.protocol, BackendProtocol::Quic));

    let (resp, action) = backend_metric_switcher(req, &mut config, &no_files());
    match resp {
        MetricApiResp::Error { msg } => {
            assert_eq!(msg, "Could not build client from backend file")
        }
        _ => unreachable!(),
    }
    assert_eq!(action, ControlAction::Cut(0));
}

#[test]
fn requests_about_no_backend_are_refused() {
    let mut config = config(&["a"], Balance::Frist);
    for req in [
        MetricApiReq::SwitchBackendStatus { backend_id: 1 },
        MetricApiReq::ResetBackend { backend_id: 9 },
        MetricApiReq::SwitchBackendProtocol {
            backend_id: usize::MAX,
        },
    ] {
        let (resp, action) = backend_metric_switcher(req, &mut config, &no_files());
        match resp {
            MetricApiResp::Error { msg } => assert_eq!(msg, "no suck backends"),
            _ => unreachable!(),
        }
        assert_eq!(action, ControlAction::Nothing);
    }
}

#[test]
fn only_binary_messages_are_requests() {
    assert_eq!(socket_step(SocketMessage::Binary), SocketStep::Answer);
    assert_eq!(socket_step(SocketMessage::Text), SocketStep::Skip);
    assert_eq!(socket_step(SocketMessage::Ping), SocketStep::Skip);
    assert_eq!(socket_step(SocketMessage::Pong), SocketStep::Skip);
    assert_eq!(socket_step(SocketMessage::Close), SocketStep::Stop);
}

#[test]
fn a_client_that_cannot_begin_says_why_from_the_outside_in() {
    let fail = |opts: Cmd, input| opts.run(input).err().unwrap();
    let good = || loaded(&["a", "b"], Balance::Random);

    assert_eq!(
        fail(cmd(None), Err(vec!["Failed to read file".to_owned()])),
        vec![
            "Could not init config",
            "Could not load config file",
            "Failed to read file"
        ]
    );
    assert_eq!(
        fail(cmd(Some("nowhere")), Ok(good())),
        vec![
            "Could not init config",
            "Could not parse proxy listen address",
            "cannot parse listen address into socket address"
        ]
    );
    let mut input = good();
    input.file.metric_address = "x".to_owned();
    assert_eq!(
        fail(cmd(None), Ok(input)),
        vec![
            "Could not init config",
            "Could not parse metric listen address",
            "cannot parse listen address into socket address"
        ]
    );
    let mut input = good();
    input.rules = RuleFile::CannotOpen("gone".to_owned());
    assert_eq!(
        fail(cmd(None), Ok(input)),
        vec![
            "Could not init config",
            "Failed to open host rewrite file",
            "gone"
        ]
    );
    let mut input = good();
    input.rules = RuleFile::Invalid("TOML parse error".to_owned());
    assert_eq!(
        fail(cmd(None), Ok(input)),
        vec![
            "Could not init config",
            "Failed to parse host rewrite config",
            "Failed to parse host rule toml",
            "TOML parse error"
        ]
    );
    let mut input = good();
    input.file.backends[1].1.address = "a b".to_owned();
    assert_eq!(
        fail(cmd(None), Ok(input)),
        vec![
            "Could not init config",
            "Could not setup backends",
            "Fail to initialize backend",
            "Could not build client from backend file",
            "cannot parse authority, got wrong address: a b",
            "invalid uri character"
        ]
    );
    assert_eq!(
        ConfigError::ProxyUri("why".to_owned()).messages(),
        vec![
            "Could not init config",
            "Could not parse proxy listen address",
            "why"
        ]
    );
}

#[test]
fn a_configuration_takes_the_backends_that_were_set_up() {
    let start = || {
        let input = loaded(&["a", "b"], Balance::Frist);
        ConfigStart::new(cmd(Some("81")), &input.file, input.rules, input.log_env)
            .ok()
            .unwrap()
    };
    let config = Config::with_backends(start(), Ok(vec![])).ok().unwrap();
    assert_eq!(config.listen_address.port(), 81);
    assert_eq!(config.metric_address.port(), 8404);
    assert!(config.backends.is_empty());
    let e = Config::with_backends(start(), Err(BackendError::IdleTimeout))
        .err()
        .unwrap();
    assert!(matches!(e, ConfigError::Backend(BackendError::IdleTimeout)));
}

#[test]
fn a_request_for_the_other_protocol_is_answered() {
    let (resp, action) = protocol_answer(4, true, Ok(()));
    assert!(matches!(resp, MetricApiResp::SwitchBackendProtocol));
    assert_eq!(action, ControlAction::NewClient(4));
    for (known, expected) in [(true, ControlAction::Cut(4)), (false, ControlAction::Nothing)] {
        let (resp, action) = protocol_answer(4, known, Err("no".to_owned()));
        match resp {
            MetricApiResp::Error { msg } => assert_eq!(msg, "no"),
            _ => unreachable!(),
        }
        assert_eq!(action, expected);
    }
}
