use octoproxy::addr::SocketAddr;
use octoproxy::client::connector::{
    connect_error, open_step, tcp_error, Client, ClientState, DialStep, OpenEvent, OpenStep,
    QuicConnConfig, StreamError, StreamStep, TcpOutcome, ANSWER_SIZE,
};
use octoproxy::handshake::{handshake_step, HandshakeEvent, HandshakeStep};
use octoproxy::metric::BackendProtocol;
use octoproxy::server::proxy::STREAM_ACCEPTED;

#[test]
fn a_client_connects_once_and_reuses_the_connection() {
    let mut client: Client<u32> = Client::new();
    assert!(matches!(client.get_state(), ClientState::NotConnected));
    assert!(matches!(client.new_stream_step(false), StreamStep::Connect));
    client.dial_done(Some(7));
    assert!(matches!(client.get_state(), ClientState::Connected(7)));
    assert!(matches!(client.new_stream_step(false), StreamStep::Open));
    assert!(matches!(client.get_state(), ClientState::Connected(7)));
}

#[test]
fn a_connection_that_ended_is_made_again() {
    let mut client: Client<u32> = Client::new();
    client.dial_done(Some(7));
    assert!(matches!(client.new_stream_step(true), StreamStep::Connect));
    assert!(matches!(client.get_state(), ClientState::NotConnected));
    client.dial_done(Some(8));
    assert!(matches!(client.get_state(), ClientState::Connected(8)));
}

#[test]
fn a_failure_poisons_until_a_reset() {
    let mut client: Client<u32> = Client::new();
    client.dial_done(None);
    assert!(matches!(client.get_state(), ClientState::Poisoned));
    for finished in [false, true, false] {
        assert!(matches!(
            client.new_stream_step(finished),
            StreamStep::Refuse
        ));
        assert!(matches!(client.get_state(), ClientState::Poisoned));
    }
    assert_eq!(StreamError::Poisoned.message(), "connection is poisoned");
    assert_eq!(client.reset_client(), None);
    assert!(matches!(client.new_stream_step(false), StreamStep::Connect));
    client.dial_done(Some(1));
    assert_eq!(client.reset_client(), Some(1));
    assert_eq!(client.reset_client(), None);
    assert!(matches!(client.get_state(), ClientState::NotConnected));
}

#[test]
fn errors_of_streams() {
    assert_eq!(
        StreamError::Cancelled.message(),
        "try_connect is cancelled"
    );
    assert_eq!(StreamError::Failed("x".to_owned()).message(), "x");
    assert_eq!(connect_error(None), "could not resolve to any address");
    assert_eq!(connect_error(Some("refused".to_owned())), "refused");
    assert_eq!(tcp_error(&TcpOutcome::Connected), None);
    assert_eq!(
        tcp_error(&TcpOutcome::Failed("e".to_owned())).unwrap(),
        "Fail to connect remote: e"
    );
    assert_eq!(
        tcp_error(&TcpOutcome::TimedOut("t".to_owned())).unwrap(),
        "connect remote timeout: t"
    );
}

#[test]
fn addresses_are_tried_from_their_own_family() {
    let v4 = SocketAddr::V4 { ip: 5, port: 443 };
    let v6 = SocketAddr::V6 {
        ip: 6,
        port: 443,
        flowinfo: 0,
        scope_id: 0,
    };
    let any4 = SocketAddr::V4 { ip: 0, port: 0 };
    let any6 = SocketAddr::V6 {
        ip: 0,
        port: 0,
        flowinfo: 0,
        scope_id: 0,
    };
    let both = QuicConnConfig::new(false);
    assert_eq!(
        both.connect_addrs(&vec![v6, v4]),
        vec![(v6, any6), (v4, any4)]
    );
    let mut only4 = QuicConnConfig::new(true);
    assert_eq!(only4.connect_addrs(&vec![v6, v4, v6]), vec![(v4, any4)]);
    assert_eq!(only4.connect_addrs(&vec![v6]), vec![]);
    assert_eq!(only4.last_addrs(), None);
    assert_eq!(only4.known_addrs(), None);
    assert!(matches!(
        only4.dial_step(&vec![(v4, any4)], 1, Some(Ok(()))),
        DialStep::Connected
    ));
    assert_eq!(only4.last_addrs(), Some((v4, any4)));
    assert_eq!(only4.known_addrs(), Some(vec![(v4, any4)]));
}

#[test]
fn the_first_address_that_takes_it_is_used() {
    let local = SocketAddr::V4 { ip: 0, port: 0 };
    let addrs: Vec<(SocketAddr, SocketAddr)> = (1..4)
        .map(|ip| (SocketAddr::V4 { ip, port: 443 }, local))
        .collect();
    let mut config = QuicConnConfig::new(false);
    let failure = |text: &str| Some(Err(text.to_owned()));
    match config.dial_step(&addrs, 0, None) {
        DialStep::Try(remote, from) => assert_eq!((remote, from), addrs[0]),
        _ => unreachable!(),
    }
    match config.dial_step(&addrs, 1, failure("first")) {
        DialStep::Try(remote, from) => assert_eq!((remote, from), addrs[1]),
        _ => unreachable!(),
    }
    assert_eq!(config.last_addrs(), None);
    match config.dial_step(&addrs, 3, failure("third")) {
        DialStep::Fail(message) => assert_eq!(message, "third"),
        _ => unreachable!(),
    }
    match config.dial_step(&vec![], 0, None) {
        DialStep::Fail(message) => assert_eq!(message, "could not resolve to any address"),
        _ => unreachable!(),
    }
    assert!(matches!(
        config.dial_step(&addrs, 2, Some(Ok(()))),
        DialStep::Connected
    ));
    assert_eq!(config.last_addrs(), Some(addrs[1]));
}

#[test]
fn a_connection_begins_step_by_step() {
    let step = handshake_step;
    assert_eq!(step(true, HandshakeEvent::Begun), HandshakeStep::TryZeroRtt);
    assert_eq!(step(false, HandshakeEvent::Begun), HandshakeStep::Await);
    assert_eq!(step(true, HandshakeEvent::ZeroRtt(true)), HandshakeStep::Use);
    assert_eq!(step(true, HandshakeEvent::ZeroRtt(false)), HandshakeStep::Await);
    assert_eq!(step(false, HandshakeEvent::Done(true)), HandshakeStep::Use);
    assert_eq!(step(false, HandshakeEvent::Done(false)), HandshakeStep::GiveUp);
}

#[test]
fn a_stream_opens_step_by_step() {
    let quic = BackendProtocol::Quic;
    let http2 = BackendProtocol::HTTP2;
    assert!(matches!(open_step(quic, true, OpenEvent::Asked), OpenStep::OpenStream));
    assert!(matches!(open_step(quic, false, OpenEvent::Asked), OpenStep::Alive));
    assert!(matches!(open_step(http2, false, OpenEvent::Asked), OpenStep::OpenStream));
    assert!(matches!(open_step(http2, false, OpenEvent::Opened), OpenStep::Alive));
    assert!(matches!(open_step(http2, true, OpenEvent::Opened), OpenStep::SendHead));
    assert!(matches!(open_step(quic, true, OpenEvent::Opened), OpenStep::SendHead));
    assert!(matches!(open_step(http2, true, OpenEvent::HeadSent), OpenStep::Ready));
    assert!(matches!(open_step(quic, true, OpenEvent::HeadSent), OpenStep::AwaitAnswer));
    assert!(matches!(open_step(quic, true, OpenEvent::Answered), OpenStep::Ready));
    let message = |step: OpenStep| match step {
        OpenStep::Fail(message) => message,
        _ => unreachable!(),
    };
    let lost = || "lost".to_owned();
    assert_eq!(
        message(open_step(quic, true, OpenEvent::OpenFailed(lost()))),
        "failed to open stream: lost"
    );
    assert_eq!(
        message(open_step(http2, true, OpenEvent::OpenFailed(lost()))),
        "failed to upgrade CONNECT request: lost"
    );
    assert_eq!(message(open_step(quic, true, OpenEvent::Failed(lost()))), "lost");
    assert_eq!(STREAM_ACCEPTED.len(), ANSWER_SIZE);
}

/// Asks a client for a stream, with a backend that is there or not.
fn new_stream(
    client: &mut Client<u32>,
    finished: bool,
    backend_is_there: bool,
) -> Result<u32, StreamError> {
    match client.new_stream_step(finished) {
        StreamStep::Refuse => Err(StreamError::Poisoned),
        StreamStep::Open => Ok(0),
        StreamStep::Connect if backend_is_there => {
            client.dial_done(Some(0));
            Ok(0)
        }
        StreamStep::Connect => {
            client.dial_done(None);
            Err(StreamError::Failed("refused".to_owned()))
        }
    }
}

#[test]
fn test_h2_client() {
    let mut client = Client::new();

    // the client is not connected
    assert!(matches!(client.get_state(), ClientState::NotConnected));

    // make the client connected
    assert!(new_stream(&mut client, false, true).is_ok());
    assert!(matches!(client.get_state(), ClientState::Connected(_)));

    // close server now, then the client would be poisoned
    let res = new_stream(&mut client, true, false);
    assert!(matches!(client.get_state(), ClientState::Poisoned));
    assert!(res.is_err());

    // bring the server back, try connect again, would return Poisoned
    let res = new_stream(&mut client, false, true);
    assert_eq!(res.err().unwrap().message(), "connection is poisoned");
    assert!(matches!(client.get_state(), ClientState::Poisoned));

    // reset client, the connection is back
    client.reset_client();
    assert!(new_stream(&mut client, false, true).is_ok());
    assert!(matches!(client.get_state(), ClientState::Connected(_)));
}

#[test]
fn test_quic_client() {
    let mut client = Client::new();

    // the client is not connected
    assert!(matches!(client.get_state(), ClientState::NotConnected));

    // make the client connected
    assert!(new_stream(&mut client, false, true).is_ok());
    assert!(matches!(client.get_state(), ClientState::Connected(_)));

    // close server now: the connection has not ended yet, so the client would NOT be
    // poisoned
    let res = new_stream(&mut client, false, false);
    assert!(matches!(client.get_state(), ClientState::Connected(_)));
    assert!(res.is_ok());
}
