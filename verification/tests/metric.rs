use octoproxy::addr::SocketAddr;
use octoproxy::client::metric::{Metric, MetricOp};
use octoproxy::metric::{
    ActivePeers, BackendProtocol, BackendStatus, Duration, MetricData,
};

fn mock_addr() -> SocketAddr {
    SocketAddr::V4 {
        ip: 0x7f00_0001,
        port: 8080,
    }
}

fn other_addr() -> SocketAddr {
    SocketAddr::V6 {
        ip: 1,
        port: 9090,
        flowinfo: 0,
        scope_id: 0,
    }
}

fn new_metric() -> Metric {
    Metric::new(
        "test_backend",
        "localhost:8080",
        "example.com",
        BackendStatus::Normal,
        BackendProtocol::HTTP2,
    )
}

#[test]
fn test_new_metric() {
    let mut metric = new_metric();

    for _ in 0..10 {
        metric.incr_connection(mock_addr());
    }

    for _ in 0..3 {
        metric.add_failures(mock_addr());
    }

    let res = metric.get().unwrap();
    // 10(active connections) - 3(failures) = 7
    assert_eq!(
        res.metric.active_connections, 7,
        "incorrect active_connections count"
    );
    assert_eq!(res.metric.failures, 3, "incorrect failures count");
    assert_eq!(
        res.metric.active_peers.len(),
        1,
        "incorrect active peers count"
    );

    metric.reset();

    let res = metric.get().unwrap();
    assert_eq!(
        res.metric.active_connections, 0,
        "incorrect failures count after reset"
    );
    assert_eq!(
        res.metric.failures, 0,
        "incorrect failures count after reset"
    );
    assert_eq!(
        res.metric.active_peers.len(),
        0,
        "incorrect active peers count"
    );
}

#[test]
fn a_metric_shows_its_names() {
    let res = new_metric().get().unwrap();
    assert_eq!(res.backend_name, "test_backend");
    assert_eq!(res.address, "localhost:8080");
    assert_eq!(res.domain, "example.com");
    assert!(matches!(res.metric.status, BackendStatus::Normal));
    assert!(matches!(res.metric.protocol, BackendProtocol::HTTP2));
}

#[test]
fn a_summary_ends_a_connection_and_grows_the_totals() {
    let mut metric = new_metric();
    metric.incr_connection(mock_addr());
    metric.incr_connection(other_addr());
    let connection = Duration {
        secs: 1,
        nanos: 2_500_000,
    };
    let transmission = Duration { secs: 7, nanos: 0 };
    metric.summary(connection, transmission, 100, 2000, mock_addr());
    let res = metric.get().unwrap().metric;
    assert_eq!(res.active_connections, 1);
    assert_eq!(res.active_peers.count(mock_addr()), 0);
    assert_eq!(res.active_peers.count(other_addr()), 1);
    assert_eq!(res.connection_time, connection);
    assert_eq!(res.connection_time.as_millis(), 1002);
    assert_eq!(res.transmission_time, transmission);
    assert_eq!((res.incoming_bytes, res.outgoing_bytes), (100, 2000));

    metric.summary(connection, transmission, 1, 2, other_addr());
    let res = metric.get().unwrap().metric;
    assert_eq!((res.incoming_bytes, res.outgoing_bytes), (1, 2));
    assert_eq!(
        (res.total_incoming_bytes, res.total_outgoing_bytes),
        (101, 2002)
    );
    assert_eq!(res.active_peers.len(), 0);
}

#[test]
fn totals_stop_growing_at_their_limit() {
    let mut data = MetricData::default();
    let zero = Duration::zero();
    data.absorb(&MetricOp::Summary(zero, zero, u64::MAX, 1));
    data.absorb(&MetricOp::Summary(zero, zero, 5, 1));
    assert_eq!(data.total_incoming_bytes, u64::MAX);
    assert_eq!(data.incoming_bytes, 5);
    assert_eq!(data.total_outgoing_bytes, 2);
}

#[test]
fn operations_out_of_range_are_told_apart() {
    let data = MetricData::default();
    assert!(!data.accepts_op(&MetricOp::DecrActiveConnection));
    assert!(data.accepts_op(&MetricOp::IncrActiveConnection));
    let mut full = MetricData::default();
    full.active_connections = u32::MAX;
    full.failures = u32::MAX;
    assert!(!full.accepts_op(&MetricOp::IncrActiveConnection));
    assert!(!full.accepts_op(&MetricOp::AddFailures));
    assert!(full.accepts_op(&MetricOp::Reset));
}

#[test]
fn peers_are_counted_one_by_one() {
    let mut peers = ActivePeers::new();
    peers.add_peer(mock_addr());
    peers.add_peer(other_addr());
    peers.add_peer(mock_addr());
    assert_eq!(peers.len(), 2);
    assert_eq!(peers.count(mock_addr()), 2);
    peers.remove_peer(mock_addr());
    assert_eq!(peers.count(mock_addr()), 1);
    peers.remove_peer(mock_addr());
    assert_eq!(peers.count(mock_addr()), 0);
    peers.remove_peer(mock_addr());
    assert_eq!(peers.entries(), &vec![(other_addr(), 1)]);
}

#[test]
fn a_failure_leaves_status_and_protocol() {
    let mut metric = new_metric();
    metric.set_status(BackendStatus::Unknown);
    metric.set_protocol(BackendProtocol::Quic);
    metric.incr_connection(mock_addr());
    metric.add_failures(mock_addr());
    metric.reset();
    let res = metric.get().unwrap().metric;
    assert!(matches!(res.status, BackendStatus::Unknown));
    assert!(matches!(res.protocol, BackendProtocol::Quic));
    assert!(matches!(metric.get_status(), BackendStatus::Unknown));
}

#[test]
fn names_fill_their_columns() {
    assert_eq!(BackendStatus::Normal.text(), "NORMAL      ");
    assert_eq!(BackendStatus::ForceClosed.text(), "FORCECLOSED ");
    assert_eq!(BackendStatus::Closed.text(), "CLOSED      ");
    assert_eq!(BackendStatus::Unknown.text(), "UNKNOWN     ");
    assert_eq!(BackendProtocol::HTTP2.text(), "http2       ");
    assert_eq!(BackendProtocol::Quic.text(), "quic        ");
    assert_eq!(BackendProtocol::Quic.other(), BackendProtocol::HTTP2);
    assert_eq!(BackendProtocol::HTTP2.other(), BackendProtocol::Quic);
}

#[test]
fn counters_follow_the_calls_since_the_last_reset() {
    let mut metric = new_metric();
    let time = Duration { secs: 0, nanos: 1 };
    let shown = |metric: &Metric| {
        let m = metric.get().unwrap().metric;
        let sum: u32 = m.active_peers.entries().iter().map(|(_, n)| n).sum();
        assert_eq!(sum, m.active_connections);
        (
            m.active_connections,
            m.active_peers.count(mock_addr()),
            m.active_peers.count(other_addr()),
            m.failures,
        )
    };
    metric.incr_connection(mock_addr());
    metric.incr_connection(other_addr());
    metric.incr_connection(mock_addr());
    assert_eq!(shown(&metric), (3, 2, 1, 0));
    metric.add_failures(other_addr());
    assert_eq!(shown(&metric), (2, 2, 0, 1));
    assert_eq!(metric.get().unwrap().metric.active_peers.len(), 1);
    metric.set_status(BackendStatus::Closed);
    metric.summary(time, time, 1, 2, mock_addr());
    assert_eq!(shown(&metric), (1, 1, 0, 1));
    metric.reset();
    assert_eq!(shown(&metric), (0, 0, 0, 0));
    metric.incr_connection(other_addr());
    metric.add_failures(other_addr());
    metric.incr_connection(mock_addr());
    assert_eq!(shown(&metric), (1, 1, 0, 1));
}
