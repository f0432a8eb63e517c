//! A backend: how it is set up and what happens to it.

use core::time::Duration as Span;
use quinn::congestion::{BbrConfig, CubicConfig};
use std::sync::Arc;
use vstd::prelude::*;
use crate::addr::SocketAddr;
use crate::client::metric::{
    connection_begun, connection_ended, reset_done, transmission_noted, Metric,
};
use crate::metric::{
    fresh_metric, BackendMetric, BackendProtocol, BackendStatus, Duration, MetricView,
};
use crate::text::{followed_by, texts};
use crate::tls::{
    blobs, build_tls_client_config, client_files_error, client_tls_fits, content, content_slice,
    key_may_be_refused, key_refused, load_certs, load_private_key, private_key_of, tls_key,
    ClientTls, ClientTlsView, FileView, TlsError, TlsErrorView, QUIC_ALPN,
};
use crate::uri::{parse_uri, uri_from_text, Uri, UriView};

verus! {

/// How a QUIC connection reacts to congestion.
#[derive(Clone, Copy, PartialEq, Eq, Structural, Debug)]
pub enum QuicCongestionFactory {
    Cubic,
    Bbr,
}

impl Default for QuicCongestionFactory {
    fn default() -> (r: Self)
        ensures
            r is Cubic,
    {
        QuicCongestionFactory::Cubic
    }
}

/// What a configuration file says of QUIC: times in seconds, the round trip time
/// in milliseconds, the bandwidth in bytes per second.
#[derive(Clone, Copy, PartialEq, Eq, Structural, Debug)]
pub struct QuicFileConfig {
    pub max_idle_timeout: Option<u64>,
    pub keep_alive_interval: Option<u64>,
    pub ipv4_only: Option<bool>,
    pub use_0rtt: Option<bool>,
    pub expected_rtt: u32,
    pub max_stream_bandwidth: u32,
    pub congestion: QuicCongestionFactory,
}

/// QUIC as it is set up where a configuration file says nothing of it.
pub fn default_quic_file_config() -> (r: QuicFileConfig)
    ensures
        r == (QuicFileConfig {
            max_idle_timeout: None,
            keep_alive_interval: None,
            ipv4_only: None,
            use_0rtt: None,
            expected_rtt: 100,
            max_stream_bandwidth: 12_500_000,
            congestion: QuicCongestionFactory::Cubic,
        }),
        r.in_range(),
{
    let r = QuicFileConfig {
        max_idle_timeout: None,
        keep_alive_interval: None,
        ipv4_only: None,
        use_0rtt: None,
        expected_rtt: 100,
        max_stream_bandwidth: 12_500_000,
        congestion: QuicCongestionFactory::default(),
    };
    assert(r.window() == 1_250_000) by (nonlinear_arith)
        requires
            r.window() == r.max_stream_bandwidth as int / 1000 * r.expected_rtt,
            r.max_stream_bandwidth == 12_500_000,
            r.expected_rtt == 100,
    ;
    r
}

/// The limits of a QUIC connection.
#[derive(Clone, Copy, PartialEq, Eq, Structural, Debug)]
pub struct TransportParams {
    pub stream_receive_window: u32,
    pub send_window: u64,
    pub initial_rtt_millis: u64,
    pub datagram_receive_buffer_size: usize,
    pub congestion: QuicCongestionFactory,
    /// In seconds.
    pub max_idle_timeout: Option<u64>,
    /// In seconds.
    pub keep_alive_interval: Option<u64>,
}

/// A number of seconds that is not zero.
pub open spec fn nonzero(secs: Option<u64>) -> Option<u64> {
    if secs == Some(0u64) {
        None
    } else {
        secs
    }
}

fn drop_zero(secs: Option<u64>) -> (r: Option<u64>)
    ensures
        r == nonzero(secs),
{
    match secs {
        Some(x) => if x == 0 {
            None
        } else {
            Some(x)
        },
        None => None,
    }
}

/// Whether QUIC can hold an idle time of so many seconds, which takes a number of
/// milliseconds below two to the power of 62.
pub open spec fn idle_timeout_fits(secs: u64) -> bool {
    secs * 1000 < 0x4000_0000_0000_0000
}

#[verifier::external_type_specification]
#[verifier::external_body]
pub struct ExTransportConfig(quinn::TransportConfig);

#[verifier::external_type_specification]
#[verifier::external_body]
pub struct ExQuicClientConfig(quinn::ClientConfig);

/// The limits of a QUIC connection, as quinn holds them.
pub struct QuicTransport {
    transport: quinn::TransportConfig,
    made_of: Ghost<TransportParams>,
}

impl QuicTransport {
    /// The limits that it was made of.
    pub closed spec fn holds(&self) -> TransportParams {
        self.made_of@
    }
}

/// Calls the setters of `quinn::TransportConfig` on its default, one for each limit,
/// and notes the limits. `quinn::IdleTimeout::try_from` alone can refuse: an idle
/// time fits exactly where its milliseconds are below two to the power of 62.
#[verifier::external_body]
fn transport_config(params: TransportParams) -> (r: Option<QuicTransport>)
    ensures
        match r {
            Some(transport) => transport.holds() == params && (params.max_idle_timeout matches Some(
                secs,
            ) ==> idle_timeout_fits(secs)),
            None => params.max_idle_timeout matches Some(secs) && !idle_timeout_fits(secs),
        },
{
    let mut transport = quinn::TransportConfig::default();
    transport.stream_receive_window(params.stream_receive_window.into());
    transport.send_window(params.send_window);
    transport.initial_rtt(Span::from_millis(params.initial_rtt_millis));
    transport.datagram_receive_buffer_size(Some(params.datagram_receive_buffer_size));
    match params.congestion {
        QuicCongestionFactory::Bbr => transport.congestion_controller_factory(Arc::new(BbrConfig::default())),
        QuicCongestionFactory::Cubic => transport.congestion_controller_factory(Arc::new(CubicConfig::default())),
    };
    let idle = params.max_idle_timeout.map(|s| quinn::IdleTimeout::try_from(Span::from_secs(s)));
    transport.max_idle_timeout(idle.transpose().ok()?);
    transport.keep_alive_interval(params.keep_alive_interval.map(Span::from_secs));
    Some(QuicTransport { transport, made_of: Ghost(params) })
}

/// What a QUIC client's configuration was made of: its TLS configuration, the limits
/// of its connections, whether it sends early data, and the protocol that it
/// negotiates.
pub struct QuicClientView {
    pub tls: ClientTlsView,
    pub transport: TransportParams,
    pub early_data: bool,
    pub alpn: [u8; 2],
}

/// A QUIC client's configuration.
pub struct QuicClientConfig {
    client_config: quinn::ClientConfig,
    made_of: Ghost<QuicClientView>,
}

impl QuicClientConfig {
    /// What it was made of.
    pub closed spec fn holds(&self) -> QuicClientView {
        self.made_of@
    }

    /// The configuration itself.
    pub closed spec fn config(&self) -> quinn::ClientConfig {
        self.client_config
    }

    /// The configuration itself.
    pub fn get_config(&self) -> (r: &quinn::ClientConfig)
        ensures
            *r == self.config(),
    {
        &self.client_config
    }
}

/// Calls `quinn::ClientConfig::new` with a copy of a TLS configuration, into which
/// early data and the protocol are put, and its `transport_config`, and notes what
/// the configuration was made of.
#[verifier::external_body]
fn quic_client_config(
    tls: &ClientTls,
    transport: QuicTransport,
    early_data: bool,
    alpn: [u8; 2],
) -> (r: QuicClientConfig)
    ensures
        r.holds() == (QuicClientView {
            tls: tls.holds(),
            transport: transport.holds(),
            early_data,
            alpn,
        }),
{
    let ghost made_of = QuicClientView {
        tls: tls.holds(), transport: transport.holds(), early_data, alpn,
    };
    let mut config = tls.get_config().clone();
    config.enable_early_data = early_data;
    config.alpn_protocols = vec![alpn.to_vec()];
    let mut client_config = quinn::ClientConfig::new(Arc::new(config));
    client_config.transport_config(Arc::new(transport.transport));
    QuicClientConfig { client_config, made_of: Ghost(made_of) }
}

impl QuicFileConfig {
    /// The receive window of a stream: what comes in within a round trip.
    pub open spec fn window(&self) -> int {
        self.max_stream_bandwidth as int / 1000 * self.expected_rtt
    }

    /// The windows and the initial round trip time fit 32 bits.
    pub open spec fn in_range(&self) -> bool {
        8 * self.window() <= u32::MAX && 3 * self.expected_rtt <= u32::MAX
    }

    /// The limits of the connection.
    pub open spec fn transport(&self) -> TransportParams {
        TransportParams {
            stream_receive_window: self.window() as u32,
            send_window: (8 * self.window()) as u64,
            initial_rtt_millis: (3 * self.expected_rtt) as u64,
            datagram_receive_buffer_size: self.window() as usize,
            congestion: self.congestion,
            max_idle_timeout: nonzero(self.max_idle_timeout),
            keep_alive_interval: nonzero(self.keep_alive_interval),
        }
    }

    /// Whether the windows and the initial round trip time fit 32 bits.
    pub fn check_range(&self) -> (r: bool)
        ensures
            r == self.in_range(),
    {
        let per_milli: u64 = (self.max_stream_bandwidth / 1000) as u64;
        assert(per_milli * self.expected_rtt <= 4_294_967 * 4_294_967_295) by (nonlinear_arith)
            requires
                per_milli <= 4_294_967,
                self.expected_rtt <= 4_294_967_295,
        ;
        let window: u64 = per_milli * (self.expected_rtt as u64);
        window <= 536_870_911 && self.expected_rtt <= 1_431_655_765
    }

    /// The limits of the connection. The initial round trip time is three times
    /// the expected one.
    pub fn init_quic_transport_config(&self) -> (r: TransportParams)
        requires
            self.in_range(),
        ensures
            r == self.transport(),
    {
        proof {
            assert(self.window() >= 0) by (nonlinear_arith)
                requires
                    self.window() == self.max_stream_bandwidth as int / 1000 * self.expected_rtt,
                    self.max_stream_bandwidth >= 0,
                    self.expected_rtt >= 0,
            ;
        }
        let stream_rwnd: u32 = self.max_stream_bandwidth / 1000 * self.expected_rtt;
        TransportParams {
            stream_receive_window: stream_rwnd,
            send_window: (8 * stream_rwnd) as u64,
            initial_rtt_millis: (self.expected_rtt * 3) as u64,
            datagram_receive_buffer_size: stream_rwnd as usize,
            congestion: self.congestion,
            max_idle_timeout: drop_zero(self.max_idle_timeout),
            keep_alive_interval: drop_zero(self.keep_alive_interval),
        }
    }

    /// A QUIC client with a TLS configuration, for a server name and an address.
    pub fn new_builder(&self, tls: &ClientTls, domain: &ServerName, address: &str) -> (r: Result<
        QuicSetup,
        BackendError,
    >)
        requires
            self.in_range(),
        ensures
            match r {
                Ok(setup) => quic_setup(*self, tls.holds(), domain@, address@) == Ok::<
                    QuicSetupView,
                    BackendErrorView,
                >(setup@),
                Err(e) => quic_setup(*self, tls.holds(), domain@, address@) == Err::<
                    QuicSetupView,
                    BackendErrorView,
                >(e@),
            },
    {
        let limits: TransportParams = self.init_quic_transport_config();
        let transport = match transport_config(limits) {
            Some(transport) => transport,
            None => {
                return Err(BackendError::IdleTimeout);
            },
        };
        let use_0rtt: bool = match self.use_0rtt {
            Some(b) => b,
            None => true,
        };
        let ipv4_only: bool = match self.ipv4_only {
            Some(b) => b,
            None => false,
        };
        Ok(
            QuicSetup {
                config: quic_client_config(tls, transport, true, QUIC_ALPN),
                limits,
                server_name: domain.name.clone(),
                remote_address: address.to_owned(),
                ipv4_only,
                use_0rtt,
            },
        )
    }
}

/// A QUIC client, ready to connect.
pub struct QuicSetup {
    pub config: QuicClientConfig,
    /// The limits in the configuration, as plain numbers.
    pub limits: TransportParams,
    pub server_name: String,
    pub remote_address: String,
    pub ipv4_only: bool,
    pub use_0rtt: bool,
}

/// A QUIC client, as mathematical values.
pub struct QuicSetupView {
    pub config: QuicClientView,
    pub limits: TransportParams,
    pub server_name: Seq<char>,
    pub remote_address: Seq<char>,
    pub ipv4_only: bool,
    pub use_0rtt: bool,
}

impl QuicSetup {
    /// The client as mathematical values.
    pub open spec fn view(&self) -> QuicSetupView {
        QuicSetupView {
            config: self.config.holds(),
            limits: self.limits,
            server_name: self.server_name@,
            remote_address: self.remote_address@,
            ipv4_only: self.ipv4_only,
            use_0rtt: self.use_0rtt,
        }
    }
}

/// The QUIC client that a configuration gives: with 0-RTT and with IPv6 unless it
/// says otherwise.
pub open spec fn quic_setup(
    config: QuicFileConfig,
    tls: ClientTlsView,
    domain: ServerNameView,
    address: Seq<char>,
) -> Result<QuicSetupView, BackendErrorView> {
    let idle = nonzero(config.max_idle_timeout);
    if idle is Some && !idle_timeout_fits(idle->0) {
        Err(BackendErrorView::IdleTimeout)
    } else {
        Ok(
            QuicSetupView {
                config: QuicClientView {
                    tls,
                    transport: config.transport(),
                    early_data: true,
                    alpn: QUIC_ALPN,
                },
                limits: config.transport(),
                server_name: domain.name,
                remote_address: address,
                ipv4_only: config.ipv4_only == Some(true),
                use_0rtt: config.use_0rtt != Some(false),
            },
        )
    }
}

/// What a configuration file says of HTTP/2: how often a connection is pinged,
/// how long a ping may take, and whether it is pinged without open streams. Times
/// are in seconds.
#[derive(Clone, Copy, PartialEq, Eq, Structural, Debug)]
pub struct H2FileConfig {
    pub keep_alive_interval: u64,
    pub keep_alive_timeout: u64,
    pub keep_alive_while_idle: bool,
}

/// HTTP/2 as it is set up where a configuration file says nothing of it.
pub fn default_h2_file_config() -> (r: H2FileConfig)
    ensures
        r == (H2FileConfig {
            keep_alive_interval: 10,
            keep_alive_timeout: 20,
            keep_alive_while_idle: false,
        }),
{
    H2FileConfig { keep_alive_interval: 10, keep_alive_timeout: 20, keep_alive_while_idle: false }
}

/// An HTTP/2 client, ready to connect.
pub struct H2Setup {
    pub tls: ClientTls,
    pub keep_alive: H2FileConfig,
    pub remote_address: String,
    pub remote_uri: Uri,
    pub domain: ServerName,
    pub connect_time: Duration,
}

/// An HTTP/2 client, as mathematical values.
pub struct H2SetupView {
    pub tls: ClientTlsView,
    pub keep_alive: H2FileConfig,
    pub remote_address: Seq<char>,
    pub remote_uri: UriView,
    pub domain: ServerNameView,
    pub connect_time: Duration,
}

impl H2Setup {
    /// The client as mathematical values.
    pub open spec fn view(&self) -> H2SetupView {
        H2SetupView {
            tls: self.tls.holds(),
            keep_alive: self.keep_alive,
            remote_address: self.remote_address@,
            remote_uri: self.remote_uri@,
            domain: self.domain@,
            connect_time: self.connect_time,
        }
    }
}

/// The HTTP/2 client that a configuration gives, for an address that is a URI.
/// It may take five seconds to connect.
pub open spec fn h2_setup(
    config: H2FileConfig,
    tls: ClientTlsView,
    domain: ServerNameView,
    address: Seq<char>,
    remote_uri: Result<UriView, Seq<char>>,
) -> Result<H2SetupView, BackendErrorView> {
    match remote_uri {
        Err(cause) => Err(BackendErrorView::RemoteUri(cause)),
        Ok(remote_uri) => Ok(
            H2SetupView {
                tls,
                keep_alive: config,
                remote_address: address,
                remote_uri,
                domain,
                connect_time: Duration { secs: 5, nanos: 0 },
            },
        ),
    }
}

/// The parts of a URI that may not be one.
pub open spec fn uri_view(uri: Result<Uri, String>) -> Result<UriView, Seq<char>> {
    match uri {
        Ok(uri) => Ok(uri@),
        Err(cause) => Err(cause@),
    }
}

impl H2FileConfig {
    /// An HTTP/2 client with a TLS configuration, for a server name and an address,
    /// given the URI that the address is.
    pub fn with_uri(
        &self,
        tls: ClientTls,
        domain: &ServerName,
        address: &str,
        remote_uri: Result<Uri, String>,
    ) -> (r: Result<H2Setup, BackendError>)
        ensures
            match r {
                Ok(setup) => h2_setup(*self, tls.holds(), domain@, address@, uri_view(remote_uri)) == Ok::<
                    H2SetupView,
                    BackendErrorView,
                >(setup@),
                Err(e) => h2_setup(*self, tls.holds(), domain@, address@, uri_view(remote_uri)) == Err::<
                    H2SetupView,
                    BackendErrorView,
                >(e@),
            },
    {
        match remote_uri {
            Err(cause) => Err(BackendError::RemoteUri(cause)),
            Ok(remote_uri) => Ok(
                H2Setup {
                    tls,
                    keep_alive: *self,
                    remote_address: address.to_owned(),
                    remote_uri,
                    domain: domain.copy(),
                    connect_time: Duration { secs: 5, nanos: 0 },
                },
            ),
        }
    }

    /// An HTTP/2 client with a TLS configuration, for a server name and an address.
    pub fn new_builder(&self, tls: ClientTls, domain: &ServerName, address: &str) -> (r: Result<
        H2Setup,
        BackendError,
    >)
        ensures
            match r {
                Ok(setup) => h2_setup(*self, tls.holds(), domain@, address@, uri_from_text(address@)) == Ok::<
                    H2SetupView,
                    BackendErrorView,
                >(setup@),
                Err(e) => h2_setup(*self, tls.holds(), domain@, address@, uri_from_text(address@)) == Err::<
                    H2SetupView,
                    BackendErrorView,
                >(e@),
            },
    {
        self.with_uri(tls, domain, address, parse_uri(address))
    }
}

/// How many seconds pass between two attempts to reach a backend again.
pub fn default_retry_timeout() -> (r: u64)
    ensures
        r == 10,
{
    10
}

/// How many attempts are made to reach a backend again.
pub fn default_max_retries() -> (r: u32)
    ensures
        r == 10,
{
    10
}

/// A name that TLS can verify a server by: the name itself, and how rustls shows
/// it.
pub struct ServerName {
    pub name: String,
    pub debug: String,
}

/// A server name, as mathematical values.
pub struct ServerNameView {
    pub name: Seq<char>,
    pub debug: Seq<char>,
}

impl ServerName {
    /// The name as mathematical values.
    pub open spec fn view(&self) -> ServerNameView {
        ServerNameView { name: self.name@, debug: self.debug@ }
    }

    /// The same name once more.
    pub fn copy(&self) -> (r: Self)
        ensures
            r@ == self@,
    {
        ServerName { name: self.name.clone(), debug: self.debug.clone() }
    }
}

/// The server name that a text is to rustls, or the message of its error.
pub uninterp spec fn server_name_from_text(text: Seq<char>) -> Result<ServerNameView, Seq<char>>;

/// Calls `rustls::ServerName::try_from` and takes the name, a DNS name or an IP
/// address, and its `Debug` text. What comes out depends on the text alone.
#[verifier::external_body]
fn parse_server_name(text: &str) -> (r: Result<ServerName, String>)
    ensures
        match r {
            Ok(name) => server_name_from_text(text@) == Ok::<ServerNameView, Seq<char>>(name@),
            Err(message) => server_name_from_text(text@) == Err::<ServerNameView, Seq<char>>(
                message@,
            ),
        },
{
    let parsed = rustls::ServerName::try_from(text).map_err(|e| e.to_string())?;
    let debug = format!("{:?}", parsed);
    match parsed {
        rustls::ServerName::DnsName(name) => Ok(
            ServerName { name: name.as_ref().to_string(), debug },
        ),
        rustls::ServerName::IpAddress(addr) => Ok(ServerName { name: addr.to_string(), debug }),
        _ => Err(debug),
    }
}

/// Which part of an address is wrong, and why if something else says so.
#[derive(Clone, PartialEq, Eq, Debug)]
pub enum DomainError {
    Authority(String),
    Host,
    ServerName(String),
}

/// Which part of an address is wrong, as mathematical values.
pub enum DomainErrorView {
    Authority(Seq<char>),
    Host,
    ServerName(Seq<char>),
}

impl DomainErrorView {
    /// What the error says before the address.
    pub open spec fn text(self) -> Seq<char> {
        match self {
            DomainErrorView::Authority(_) => "cannot parse authority, got wrong address: "@,
            DomainErrorView::Host => "cannot parse host, got wrong address: "@,
            DomainErrorView::ServerName(_) => "cannot parse server name, got wrong address: "@,
        }
    }

    /// The messages of the error for an address, from the outside in.
    pub open spec fn messages(self, address: Seq<char>) -> Seq<Seq<char>> {
        seq![self.text() + address] + match self {
            DomainErrorView::Authority(cause) => seq![cause],
            DomainErrorView::Host => seq![],
            DomainErrorView::ServerName(cause) => seq![cause],
        }
    }
}

impl DomainError {
    /// The error as mathematical values.
    pub open spec fn view(&self) -> DomainErrorView {
        match self {
            DomainError::Authority(cause) => DomainErrorView::Authority(cause@),
            DomainError::Host => DomainErrorView::Host,
            DomainError::ServerName(cause) => DomainErrorView::ServerName(cause@),
        }
    }

    /// The messages of the error for an address, from the outside in.
    pub fn messages(&self, address: &str) -> (r: Vec<String>)
        ensures
            texts(r@) == self@.messages(address@),
    {
        let mut r: Vec<String> = Vec::new();
        r.push(self.message(address));
        match self {
            DomainError::Authority(cause) | DomainError::ServerName(cause) => {
                r.push(cause.clone());
            },
            DomainError::Host => {},
        }
        assert(texts(r@) =~= self@.messages(address@));
        r
    }

    /// What the error says of an address.
    pub fn message(&self, address: &str) -> (r: String)
        ensures
            r@ == self@.text() + address@,
    {
        match self {
            DomainError::Authority(_) => followed_by(
                "cannot parse authority, got wrong address: ",
                address,
            ),
            DomainError::Host => followed_by("cannot parse host, got wrong address: ", address),
            DomainError::ServerName(_) => followed_by(
                "cannot parse server name, got wrong address: ",
                address,
            ),
        }
    }
}

/// The host of an address, given the URI that it makes behind `http://`.
pub open spec fn host_in(uri: Result<UriView, Seq<char>>) -> Result<Seq<char>, DomainErrorView> {
    match uri {
        Err(cause) => Err(DomainErrorView::Authority(cause)),
        Ok(uri) => match uri.host {
            None => Err(DomainErrorView::Host),
            Some(host) => Ok(host),
        },
    }
}

/// The server name of an address.
pub open spec fn domain_of(address: Seq<char>) -> Result<ServerNameView, DomainErrorView> {
    match host_in(uri_from_text("http://"@ + address)) {
        Err(e) => Err(e),
        Ok(host) => match server_name_from_text(host) {
            Err(cause) => Err(DomainErrorView::ServerName(cause)),
            Ok(name) => Ok(name),
        },
    }
}

/// The host of an address, given the URI that it makes behind `http://`.
pub fn domain_host(uri: Result<Uri, String>) -> (r: Result<String, DomainError>)
    ensures
        match r {
            Ok(host) => host_in(uri_view(uri)) == Ok::<Seq<char>, DomainErrorView>(host@),
            Err(e) => host_in(uri_view(uri)) == Err::<Seq<char>, DomainErrorView>(e@),
        },
{
    match uri {
        Err(cause) => Err(DomainError::Authority(cause)),
        Ok(uri) => match uri.host {
            None => Err(DomainError::Host),
            Some(host) => Ok(host),
        },
    }
}

/// The server name of an address: its host, without the port.
pub fn parse_domain(address: &str) -> (r: Result<ServerName, DomainError>)
    ensures
        match r {
            Ok(name) => domain_of(address@) == Ok::<ServerNameView, DomainErrorView>(name@),
            Err(e) => domain_of(address@) == Err::<ServerNameView, DomainErrorView>(e@),
        },
{
    let uri = parse_uri(followed_by("http://", address).as_str());
    match domain_host(uri) {
        Err(e) => Err(e),
        Ok(host) => match parse_server_name(host.as_str()) {
            Err(cause) => Err(DomainError::ServerName(cause)),
            Ok(name) => Ok(name),
        },
    }
}

/// Why a backend could not be set up.
pub enum BackendError {
    /// No server name can be made out in this address.
    Domain(DomainError, String),
    Tls(TlsError),
    IdleTimeout,
    /// The address is no URI, for this reason.
    RemoteUri(String),
}

/// Why a backend could not be set up, as mathematical values.
pub enum BackendErrorView {
    Domain(DomainErrorView, Seq<char>),
    Tls(TlsErrorView),
    IdleTimeout,
    RemoteUri(Seq<char>),
}

impl BackendErrorView {
    /// What lies behind the error, from the outside in.
    pub open spec fn causes(self) -> Seq<Seq<char>> {
        match self {
            BackendErrorView::Domain(e, address) => e.messages(address),
            BackendErrorView::Tls(e) => seq![
                "Could not build tls config from backend file config"@,
            ] + e.messages(),
            BackendErrorView::IdleTimeout => seq!["value too large for varint encoding"@],
            BackendErrorView::RemoteUri(cause) => seq![
                "Could not parse remote address into uri"@,
                cause,
            ],
        }
    }
}

impl BackendError {
    /// The error as mathematical values.
    pub open spec fn view(&self) -> BackendErrorView {
        match self {
            BackendError::Domain(e, address) => BackendErrorView::Domain(e@, address@),
            BackendError::Tls(e) => BackendErrorView::Tls(e@),
            BackendError::IdleTimeout => BackendErrorView::IdleTimeout,
            BackendError::RemoteUri(cause) => BackendErrorView::RemoteUri(cause@),
        }
    }

    /// What the error says.
    pub fn message(&self) -> (r: String)
        ensures
            r@ == "Could not build client from backend file"@,
    {
        "Could not build client from backend file".to_owned()
    }

    /// What lies behind the error, from the outside in.
    pub fn causes(&self) -> (r: Vec<String>)
        ensures
            texts(r@) == self@.causes(),
    {
        let mut r: Vec<String> = Vec::new();
        match self {
            BackendError::Domain(e, address) => {
                r = e.messages(address.as_str());
            },
            BackendError::Tls(e) => {
                r.push("Could not build tls config from backend file config".to_owned());
                let mut causes = e.messages();
                r.append(&mut causes);
            },
            BackendError::IdleTimeout => {
                r.push("value too large for varint encoding".to_owned());
            },
            BackendError::RemoteUri(cause) => {
                r.push("Could not parse remote address into uri".to_owned());
                r.push(cause.clone());
            },
        }
        assert(texts(r@) =~= self@.causes());
        r
    }
}

/// What a configuration file says of one backend.
pub struct FileBackendConfig {
    pub status: Option<BackendStatus>,
    pub protocol: BackendProtocol,
    pub address: String,
    pub retry_timeout: u64,
    pub max_retries: u32,
    pub cacert: Option<String>,
    pub client_key: String,
    pub client_cert: String,
    pub http2: H2FileConfig,
    pub quic: QuicFileConfig,
}

/// The contents of the files that a backend names, or why they could not be opened.
pub struct ClientFiles {
    pub cacert: Option<Result<Vec<u8>, String>>,
    pub client_cert: Result<Vec<u8>, String>,
    pub client_key: Result<Vec<u8>, String>,
}

impl ClientFiles {
    /// The error that the files give, if any.
    pub open spec fn error(&self) -> Option<TlsErrorView> {
        client_files_error(self.ca(), content(self.client_cert), content(self.client_key))
    }

    /// The content of the CA file, if one is given.
    pub open spec fn ca(&self) -> Option<FileView> {
        match self.cacert {
            Some(file) => Some(content(file)),
            None => None,
        }
    }

    /// A TLS configuration is made of what the files hold.
    pub open spec fn give(&self, tls: ClientTlsView) -> bool {
        client_tls_fits(self.ca(), content(self.client_cert), content(self.client_key), tls)
    }

    /// The key in the files is one that rustls takes.
    pub open spec fn have_key(&self) -> bool {
        private_key_of(content(self.client_key)) matches Ok(key) && tls_key(key) is Some
    }

    /// The TLS configuration that the files give.
    pub fn build_tls_client_config(&self) -> (r: Result<ClientTls, TlsError>)
        ensures
            match self.error() {
                Some(error) => r matches Err(e) && e@ == error,
                None => match r {
                    Ok(tls) => self.give(tls.holds()),
                    Err(e) => e@ == TlsErrorView::Rustls(key_refused()) && key_may_be_refused(
                        content(self.client_key),
                    ),
                },
            },
    {
        let cacert = match &self.cacert {
            Some(file) => Some(content_slice(file)),
            None => None,
        };
        build_tls_client_config(
            cacert,
            content_slice(&self.client_cert),
            content_slice(&self.client_key),
        )
    }
}

/// A client of either protocol.
pub enum MixClient {
    H2(H2Setup),
    Quic(QuicSetup),
}

/// A client of either protocol, as mathematical values.
pub enum MixClientView {
    H2(H2SetupView),
    Quic(QuicSetupView),
}

impl MixClientView {
    /// What the TLS configuration of the client was made of.
    pub open spec fn tls(self) -> ClientTlsView {
        match self {
            MixClientView::H2(setup) => setup.tls,
            MixClientView::Quic(setup) => setup.config.tls,
        }
    }
}

impl MixClient {
    /// The client as mathematical values.
    pub open spec fn view(&self) -> MixClientView {
        match self {
            MixClient::H2(setup) => MixClientView::H2(setup@),
            MixClient::Quic(setup) => MixClientView::Quic(setup@),
        }
    }
}

/// The client that a configuration gives with a TLS configuration, for a server name.
pub open spec fn mix_setup(
    config: FileBackendConfig,
    tls: ClientTlsView,
    domain: ServerNameView,
) -> Result<MixClientView, BackendErrorView> {
    match config.protocol {
        BackendProtocol::HTTP2 => match h2_setup(
            config.http2,
            tls,
            domain,
            config.address@,
            uri_from_text(config.address@),
        ) {
            Ok(setup) => Ok(MixClientView::H2(setup)),
            Err(e) => Err(e),
        },
        BackendProtocol::Quic => match quic_setup(config.quic, tls, domain, config.address@) {
            Ok(setup) => Ok(MixClientView::Quic(setup)),
            Err(e) => Err(e),
        },
    }
}

/// The error that a configuration gives once there is a TLS configuration, if any.
pub open spec fn setup_error(config: FileBackendConfig) -> Option<BackendErrorView> {
    match config.protocol {
        BackendProtocol::HTTP2 => match uri_from_text(config.address@) {
            Err(cause) => Some(BackendErrorView::RemoteUri(cause)),
            Ok(_) => None,
        },
        BackendProtocol::Quic => {
            let idle = nonzero(config.quic.max_idle_timeout);
            if idle is Some && !idle_timeout_fits(idle->0) {
                Some(BackendErrorView::IdleTimeout)
            } else {
                None
            }
        },
    }
}

/// A client is the one that a configuration asks for, with the TLS configuration
/// that its files give.
pub open spec fn client_of(
    config: FileBackendConfig,
    files: ClientFiles,
    client: MixClient,
) -> bool {
    &&& domain_of(config.address@) matches Ok(domain) && mix_setup(config, client@.tls(), domain)
        == Ok::<MixClientView, BackendErrorView>(client@)
    &&& files.give(client@.tls())
}

/// Whether `r` is what setting a client up can come to, for a configuration and
/// the files that it names. Where the files are in order, rustls may still refuse
/// the key, but not one of RSA or Ed25519.
pub open spec fn client_built(
    config: FileBackendConfig,
    files: ClientFiles,
    r: Result<(MixClient, String), BackendError>,
) -> bool {
    match domain_of(config.address@) {
        Err(error) => r matches Err(e) && e@ == BackendErrorView::Domain(error, config.address@),
        Ok(domain) => match files.error() {
            Some(error) => r matches Err(e) && e@ == BackendErrorView::Tls(error),
            None => match r {
                Ok((client, text)) => text@ == domain.debug && client_of(config, files, client),
                Err(e) => {
                    ||| setup_error(config) == Some(e@) && files.have_key()
                    ||| e@ == BackendErrorView::Tls(TlsErrorView::Rustls(key_refused()))
                        && key_may_be_refused(content(files.client_key))
                },
            },
        },
    }
}

/// A client can be set up, whatever random numbers can be had: its address and its
/// files are in order, its key is of RSA or Ed25519, and the configuration of its
/// protocol is good.
pub open spec fn can_be_set_up(config: FileBackendConfig, files: ClientFiles) -> bool {
    &&& domain_of(config.address@) is Ok
    &&& files.error() is None
    &&& !key_may_be_refused(content(files.client_key))
    &&& setup_error(config) is None
}

/// A client that can be set up is set up.
pub proof fn law_good_client_is_built(
    config: FileBackendConfig,
    files: ClientFiles,
    r: Result<(MixClient, String), BackendError>,
)
    requires
        can_be_set_up(config, files),
        client_built(config, files, r),
    ensures
        r is Ok,
{
}

impl FileBackendConfig {
    /// The protocol that is in use is within its range.
    pub open spec fn in_range(&self) -> bool {
        self.protocol is Quic ==> self.quic.in_range()
    }

    /// A client for a server name, given the TLS configuration.
    pub fn with_tls(&self, domain: &ServerName, tls: Result<ClientTls, TlsError>) -> (r: Result<
        (MixClient, String),
        BackendError,
    >)
        requires
            self.in_range(),
        ensures
            match tls {
                Err(error) => r matches Err(e) && e@ == BackendErrorView::Tls(error@),
                Ok(config) => match r {
                    Ok((client, text)) => text@ == domain.debug@ && mix_setup(
                        *self,
                        config.holds(),
                        domain@,
                    ) == Ok::<MixClientView, BackendErrorView>(client@),
                    Err(e) => mix_setup(*self, config.holds(), domain@) == Err::<
                        MixClientView,
                        BackendErrorView,
                    >(e@),
                },
            },
    {
        let tls = match tls {
            Ok(tls) => tls,
            Err(e) => {
                return Err(BackendError::Tls(e));
            },
        };
        let address = self.address.as_str();
        let client = match self.protocol {
            BackendProtocol::HTTP2 => match self.http2.new_builder(tls, domain, address) {
                Ok(setup) => MixClient::H2(setup),
                Err(e) => {
                    return Err(e);
                },
            },
            BackendProtocol::Quic => match self.quic.new_builder(&tls, domain, address) {
                Ok(setup) => MixClient::Quic(setup),
                Err(e) => {
                    return Err(e);
                },
            },
        };
        Ok((client, domain.debug.clone()))
    }

    /// A client, and the name of its server.
    pub fn build_client(&self, files: &ClientFiles) -> (r: Result<
        (MixClient, String),
        BackendError,
    >)
        requires
            self.in_range(),
        ensures
            client_built(*self, *files, r),
            can_be_set_up(*self, *files) ==> r is Ok,
    {
        match parse_domain(self.address.as_str()) {
            Err(e) => Err(BackendError::Domain(e, self.address.clone())),
            Ok(domain) => self.with_tls(&domain, files.build_tls_client_config()),
        }
    }
}

/// What happens to a backend that bears on its status.
#[derive(Clone, Copy, PartialEq, Eq, Structural, Debug)]
pub enum BackendEvent {
    /// No stream could be had for a request.
    ConnectFailed,
    /// An attempt to reach the backend again has ended, well or not.
    Retried(bool),
    /// The operator switched it on or off.
    Switched,
}

/// The status of a backend after an event. What the operator has closed, only the
/// operator opens.
pub open spec fn status_after(status: BackendStatus, event: BackendEvent) -> BackendStatus {
    match event {
        BackendEvent::ConnectFailed => if status is ForceClosed {
            status
        } else {
            BackendStatus::Closed
        },
        BackendEvent::Retried(good) => if status is ForceClosed {
            status
        } else if good {
            BackendStatus::Normal
        } else {
            BackendStatus::Closed
        },
        BackendEvent::Switched => if status is ForceClosed {
            BackendStatus::Unknown
        } else {
            BackendStatus::ForceClosed
        },
    }
}

/// How an attempt to reach a backend again goes on.
#[derive(Clone, Copy, PartialEq, Eq, Structural, Debug)]
pub enum RetryStep {
    /// No attempt is due, now or later.
    Break,
    /// The client is to be reset and a connection tried.
    Connect,
    /// Another attempt is due at the next interval.
    Continue,
}

/// How a transfer between a peer and a backend ended.
pub enum TransferOutcome {
    Cancelled,
    Failed(String),
    /// The bytes that came from the peer, the bytes that came from the backend,
    /// and the time that it took.
    Done(u64, u64, Duration),
}

/// Why a transfer did not come to its end.
pub enum TransferError {
    Cancelled,
    Failed(String),
}

impl TransferError {
    /// What the error says.
    pub fn message(&self) -> (r: String)
        ensures
            r@ == match self {
                TransferError::Cancelled => "tunnel is cancelled"@,
                TransferError::Failed(message) => "fail to transfer: "@ + message@,
            },
    {
        match self {
            TransferError::Cancelled => "tunnel is cancelled".to_owned(),
            TransferError::Failed(message) => followed_by("fail to transfer: ", message.as_str()),
        }
    }
}

/// A backend.
pub struct Backend {
    retry_timeout: u64,
    max_retries: u32,
    metric: Metric,
    client: MixClient,
    retrying: bool,
    cancelled: bool,
    file_backend_config: FileBackendConfig,
}

impl Backend {
    /// Nothing of the metrics waits to be published.
    pub closed spec fn wf(&self) -> bool {
        self.metric.settled()
    }

    /// The counters.
    pub closed spec fn data(&self) -> MetricView {
        self.metric.data()
    }

    /// The metrics.
    pub closed spec fn metrics(&self) -> Metric {
        self.metric
    }

    /// The name.
    pub closed spec fn name(&self) -> Seq<char> {
        self.metric.name()
    }

    /// The status.
    pub open spec fn status(&self) -> BackendStatus {
        self.data().status
    }

    /// Whether an attempt to reach it again is under way.
    pub closed spec fn is_retrying(&self) -> bool {
        self.retrying
    }

    /// Whether its streams are cancelled.
    pub closed spec fn is_cancelled(&self) -> bool {
        self.cancelled
    }

    /// What the configuration file says of it, with the protocol that is in use.
    pub closed spec fn config(&self) -> FileBackendConfig {
        self.file_backend_config
    }

    /// The client.
    pub closed spec fn mix_client(&self) -> MixClient {
        self.client
    }

    /// The seconds between two attempts to reach it again.
    pub closed spec fn retry_secs(&self) -> u64 {
        self.retry_timeout
    }

    /// The number of attempts to reach it again, where zero stands for no limit.
    pub closed spec fn retry_limit(&self) -> u32 {
        self.max_retries
    }

    /// The names, the intervals, the configuration and the client are those of
    /// `other`.
    pub open spec fn same_setup(&self, other: &Backend) -> bool {
        &&& self.metrics().same_names(&other.metrics())
        &&& self.retry_secs() == other.retry_secs()
        &&& self.retry_limit() == other.retry_limit()
        &&& self.config() == other.config()
        &&& self.mix_client() == other.mix_client()
    }

    /// Only the counters may differ from those of `other`.
    pub open spec fn same_but_data(&self, other: &Backend) -> bool {
        &&& self.same_setup(other)
        &&& self.is_retrying() == other.is_retrying()
        &&& self.is_cancelled() == other.is_cancelled()
    }

    /// The backend is as it was set up, by its name, its part of the configuration
    /// file and its own files.
    pub open spec fn is_new(
        &self,
        name: Seq<char>,
        config: FileBackendConfig,
        files: ClientFiles,
    ) -> bool {
        &&& client_of(config, files, self.mix_client())
        &&& domain_of(config.address@) matches Ok(domain) && self.starts_as(
            name,
            config,
            self.mix_client(),
            domain.debug,
        )
    }

    /// The backend is as it starts, by its name, its part of the configuration file,
    /// its client and the name of its server.
    pub open spec fn starts_as(
        &self,
        name: Seq<char>,
        config: FileBackendConfig,
        client: MixClient,
        domain: Seq<char>,
    ) -> bool {
        &&& self.wf()
        &&& self.mix_client() == client
        &&& self.metrics().domain() == domain
        &&& self.name() == name
        &&& self.metrics().address() == config.address@
        &&& self.config() == config
        &&& self.retry_secs() == config.retry_timeout
        &&& self.retry_limit() == config.max_retries
        &&& !self.is_retrying()
        &&& !self.is_cancelled()
        &&& self.data() == (MetricView {
            status: match config.status {
                Some(status) => status,
                None => BackendStatus::Normal,
            },
            protocol: config.protocol,
            ..fresh_metric()
        })
    }

    /// Sets a backend up. Unless its file says otherwise it is taken to be up.
    pub fn new(
        backend_name: String,
        file_backend_config: FileBackendConfig,
        files: &ClientFiles,
    ) -> (r: Result<Self, BackendError>)
        requires
            file_backend_config.in_range(),
        ensures
            match r {
                Ok(backend) => backend.is_new(backend_name@, file_backend_config, *files),
                Err(e) => client_built(file_backend_config, *files, Err(e)),
            },
            can_be_set_up(file_backend_config, *files) ==> r is Ok,
    {
        let built = file_backend_config.build_client(files);
        Backend::with_client(backend_name, file_backend_config, built)
    }

    /// A backend with a client and the name of its server, given what came of setting
    /// these up. Unless its file says otherwise it is taken to be up.
    pub fn with_client(
        backend_name: String,
        file_backend_config: FileBackendConfig,
        built: Result<(MixClient, String), BackendError>,
    ) -> (r: Result<Self, BackendError>)
        ensures
            match built {
                Ok((client, domain)) => r matches Ok(backend) && backend.starts_as(
                    backend_name@,
                    file_backend_config,
                    client,
                    domain@,
                ),
                Err(e) => r == Err::<Backend, BackendError>(e),
            },
    {
        let (client, domain) = match built {
            Ok(built) => built,
            Err(e) => {
                return Err(e);
            },
        };
        let status: BackendStatus = match file_backend_config.status {
            Some(status) => status,
            None => BackendStatus::Normal,
        };
        let metric = Metric::new(
            backend_name.as_str(),
            file_backend_config.address.as_str(),
            domain.as_str(),
            status,
            file_backend_config.protocol,
        );
        Ok(
            Backend {
                retry_timeout: file_backend_config.retry_timeout,
                max_retries: file_backend_config.max_retries,
                metric,
                client,
                retrying: false,
                cancelled: false,
                file_backend_config,
            },
        )
    }

    /// Goes over to the other protocol, which stays chosen even where its client
    /// cannot be set up. The new client starts without connections.
    pub fn switch_protocol(&mut self, files: &ClientFiles) -> (r: Result<(), BackendError>)
        requires
            old(self).wf(),
            old(self).config().protocol is HTTP2 ==> old(self).config().quic.in_range(),
        ensures
            final(self).wf(),
            final(self).config() == (FileBackendConfig {
                protocol: old(self).config().protocol.spec_other(),
                ..old(self).config()
            }),
            final(self).metrics().same_names(&old(self).metrics()),
            final(self).retry_secs() == old(self).retry_secs(),
            final(self).retry_limit() == old(self).retry_limit(),
            match r {
                Ok(_) => {
                    &&& client_of(final(self).config(), *files, final(self).mix_client())
                    &&& !final(self).is_cancelled()
                    &&& !final(self).is_retrying()
                    &&& final(self).data() == reset_done(
                        MetricView {
                            protocol: old(self).config().protocol.spec_other(),
                            ..old(self).data()
                        },
                    )
                },
                Err(e) => {
                    &&& client_built(final(self).config(), *files, Err(e))
                    &&& final(self).mix_client() == old(self).mix_client()
                    &&& final(self).is_cancelled() == old(self).is_cancelled()
                    &&& final(self).is_retrying() == old(self).is_retrying()
                    &&& final(self).data() == old(self).data()
                },
            },
            can_be_set_up(final(self).config(), *files) ==> r is Ok,
    {
        self.file_backend_config.protocol = self.file_backend_config.protocol.other();
        let built = self.file_backend_config.build_client(files);
        self.switch_to(built)
    }

    /// Goes over to a client of the protocol that is chosen, given what came of
    /// setting it up. The new client starts without connections. Where there is
    /// none, the old one stays.
    pub fn switch_to(&mut self, built: Result<(MixClient, String), BackendError>) -> (r: Result<
        (),
        BackendError,
    >)
        requires
            old(self).wf(),
        ensures
            final(self).wf(),
            match built {
                Ok((client, _)) => {
                    &&& r is Ok
                    &&& final(self).mix_client() == client
                    &&& final(self).config() == old(self).config()
                    &&& final(self).metrics().same_names(&old(self).metrics())
                    &&& final(self).retry_secs() == old(self).retry_secs()
                    &&& final(self).retry_limit() == old(self).retry_limit()
                    &&& !final(self).is_cancelled()
                    &&& !final(self).is_retrying()
                    &&& final(self).data() == reset_done(
                        MetricView { protocol: old(self).config().protocol, ..old(self).data() },
                    )
                },
                Err(e) => r == Err::<(), BackendError>(e) && *final(self) == *old(self),
            },
    {
        match built {
            Ok((client, _)) => {
                self.client = client;
            },
            Err(e) => {
                return Err(e);
            },
        }
        self.renew_cancellation_token();
        self.metric.set_protocol(self.file_backend_config.protocol);
        self.reset_metric();
        Ok(())
    }

    /// The counters start again, as they do when the client is reset.
    pub fn reset_metric(&mut self)
        requires
            old(self).wf(),
        ensures
            final(self).wf(),
            final(self).same_but_data(old(self)),
            final(self).data() == reset_done(old(self).data()),
    {
        self.metric.reset();
    }

    /// Gives the backend a status.
    pub fn set_status(&mut self, status: BackendStatus)
        requires
            old(self).wf(),
        ensures
            final(self).wf(),
            final(self).same_but_data(old(self)),
            final(self).data() == (MetricView { status, ..old(self).data() }),
    {
        self.metric.set_status(status);
    }

    /// Notes that no stream could be had for a request.
    pub fn connect_failed(&mut self)
        requires
            old(self).wf(),
        ensures
            final(self).wf(),
            final(self).same_but_data(old(self)),
            final(self).data() == (MetricView {
                status: status_after(old(self).status(), BackendEvent::ConnectFailed),
                ..old(self).data()
            }),
    {
        match self.get_status() {
            BackendStatus::ForceClosed => {},
            BackendStatus::Normal | BackendStatus::Closed | BackendStatus::Unknown => {
                self.set_status(BackendStatus::Closed);
            },
        }
    }

    /// Begins an attempt to reach the backend again, unless it is up, closed by
    /// the operator, or such an attempt is under way.
    pub fn begin_retry(&mut self) -> (r: RetryStep)
        requires
            old(self).wf(),
        ensures
            final(self).wf(),
            final(self).same_setup(old(self)),
            final(self).is_cancelled() == old(self).is_cancelled(),
            final(self).data() == old(self).data(),
            if (old(self).status() is Closed || old(self).status() is Unknown) && !old(self).is_retrying() {
                r == RetryStep::Connect && final(self).is_retrying()
            } else {
                r == RetryStep::Break && final(self).is_retrying() == old(self).is_retrying()
            },
    {
        match self.get_status() {
            BackendStatus::Normal => RetryStep::Break,
            BackendStatus::ForceClosed => RetryStep::Break,
            BackendStatus::Closed | BackendStatus::Unknown => {
                if self.retrying {
                    return RetryStep::Break;
                }
                self.retrying = true;
                RetryStep::Connect
            },
        }
    }

    /// Ends an attempt to reach the backend again. Another one is due only where
    /// this one failed and the operator has not closed the backend meanwhile.
    pub fn end_retry(&mut self, good: bool) -> (r: RetryStep)
        requires
            old(self).wf(),
        ensures
            final(self).wf(),
            final(self).same_setup(old(self)),
            final(self).is_cancelled() == old(self).is_cancelled(),
            !final(self).is_retrying(),
            final(self).data() == (MetricView {
                status: status_after(old(self).status(), BackendEvent::Retried(good)),
                ..old(self).data()
            }),
            r == if good || old(self).status() is ForceClosed {
                RetryStep::Break
            } else {
                RetryStep::Continue
            },
    {
        self.retrying = false;
        match self.get_status() {
            BackendStatus::ForceClosed => RetryStep::Break,
            BackendStatus::Normal | BackendStatus::Closed | BackendStatus::Unknown => {
                if good {
                    self.set_status(BackendStatus::Normal);
                    RetryStep::Break
                } else {
                    self.set_status(BackendStatus::Closed);
                    RetryStep::Continue
                }
            },
        }
    }

    /// Switches the backend on or off by hand: cancels its streams, and where it
    /// was off lets new ones begin. Says whether it is to be reached again.
    pub fn switch_status(&mut self) -> (r: bool)
        requires
            old(self).wf(),
        ensures
            final(self).wf(),
            final(self).same_setup(old(self)),
            final(self).data() == (MetricView {
                status: status_after(old(self).status(), BackendEvent::Switched),
                ..old(self).data()
            }),
            r == (old(self).status() is ForceClosed),
            final(self).is_cancelled() == !r,
            final(self).is_retrying() == (!r && old(self).is_retrying()),
    {
        self.cancel();
        match self.get_status() {
            BackendStatus::ForceClosed => {
                self.set_status(BackendStatus::Unknown);
                self.renew_cancellation_token();
                true
            },
            BackendStatus::Normal | BackendStatus::Closed | BackendStatus::Unknown => {
                self.set_status(BackendStatus::ForceClosed);
                false
            },
        }
    }

    /// Starts over: cancels the streams, forgets the counters, and lets new
    /// streams begin.
    pub fn reset(&mut self)
        requires
            old(self).wf(),
        ensures
            final(self).wf(),
            final(self).same_setup(old(self)),
            final(self).data() == reset_done(old(self).data()),
            !final(self).is_cancelled(),
            !final(self).is_retrying(),
    {
        self.cancel();
        self.reset_metric();
        self.renew_cancellation_token();
    }

    /// A connection of a peer begins.
    pub fn begin_transfer(&mut self, peer: SocketAddr)
        requires
            old(self).wf(),
            old(self).data().active_connections < u32::MAX,
            old(self).data().active_peers.count(peer) < u32::MAX,
        ensures
            final(self).wf(),
            final(self).same_but_data(old(self)),
            final(self).data() == connection_begun(old(self).data(), peer),
    {
        self.metric.incr_connection(peer);
    }

    /// Notes how a transfer ended. Only one that came to its end is recorded
    /// here.
    pub fn transfer(
        &mut self,
        outcome: TransferOutcome,
        connection_time: Duration,
        peer: SocketAddr,
    ) -> (r: Result<(), TransferError>)
        requires
            old(self).wf(),
            outcome is Done ==> old(self).data().active_connections > 0,
        ensures
            final(self).wf(),
            final(self).same_but_data(old(self)),
            match outcome {
                TransferOutcome::Cancelled => r == Err::<(), TransferError>(
                    TransferError::Cancelled,
                ) && final(self).data() == old(self).data(),
                TransferOutcome::Failed(message) => r == Err::<(), TransferError>(
                    TransferError::Failed(message),
                ) && final(self).data() == old(self).data(),
                TransferOutcome::Done(from_client, from_server, time) => {
                    &&& r is Ok
                    &&& final(self).data() == transmission_noted(
                        connection_ended(old(self).data(), peer),
                        connection_time,
                        time,
                        from_client,
                        from_server,
                    )
                },
            },
    {
        match outcome {
            TransferOutcome::Cancelled => Err(TransferError::Cancelled),
            TransferOutcome::Failed(message) => Err(TransferError::Failed(message)),
            TransferOutcome::Done(from_client, from_server, transmission_time) => {
                self.metric.summary(
                    connection_time,
                    transmission_time,
                    from_client,
                    from_server,
                    peer,
                );
                Ok(())
            },
        }
    }

    /// Counts a transfer that did not come to its end.
    pub fn add_failures(&mut self, peer: SocketAddr)
        requires
            old(self).wf(),
            old(self).data().active_connections > 0,
            old(self).data().failures < u32::MAX,
        ensures
            final(self).wf(),
            final(self).same_but_data(old(self)),
            final(self).data() == (MetricView {
                failures: old(self).data().failures + 1,
                ..connection_ended(old(self).data(), peer)
            }),
    {
        self.metric.add_failures(peer);
    }

    /// The status.
    pub fn get_status(&self) -> (r: BackendStatus)
        ensures
            r == self.status(),
    {
        self.metric.get_status()
    }

    /// The name.
    pub fn get_backend_name(&self) -> (r: &str)
        ensures
            r@ == self.name(),
    {
        self.metric.get_backend_name()
    }

    /// The names and the counters.
    pub fn get_metric(&self) -> (r: Option<BackendMetric>)
        ensures
            match r {
                Some(m) => {
                    &&& m.backend_name@ == self.name()
                    &&& m.address@ == self.metrics().address()
                    &&& m.domain@ == self.metrics().domain()
                    &&& m.metric@ == self.data()
                },
                None => false,
            },
    {
        self.metric.get()
    }

    /// The client.
    pub fn get_client(&self) -> (r: &MixClient)
        ensures
            *r == self.mix_client(),
    {
        &self.client
    }

    /// What the configuration file says of it, with the protocol that is in use.
    pub fn get_config(&self) -> (r: &FileBackendConfig)
        ensures
            *r == self.config(),
    {
        &self.file_backend_config
    }

    /// The seconds between two attempts to reach it again.
    pub fn get_retry_timeout(&self) -> (r: u64)
        ensures
            r == self.retry_secs(),
    {
        self.retry_timeout
    }

    /// The number of attempts to reach it again, where zero stands for no limit.
    pub fn get_max_retries(&self) -> (r: u32)
        ensures
            r == self.retry_limit(),
    {
        self.max_retries
    }

    /// Cancels the streams.
    pub fn cancel(&mut self)
        requires
            old(self).wf(),
        ensures
            final(self).wf(),
            final(self).same_setup(old(self)),
            final(self).data() == old(self).data(),
            final(self).is_cancelled(),
            final(self).is_retrying() == old(self).is_retrying(),
    {
        self.cancelled = true;
    }

    /// Lets new streams begin, and a new attempt to reach the backend again.
    pub fn renew_cancellation_token(&mut self)
        requires
            old(self).wf(),
        ensures
            final(self).wf(),
            final(self).same_setup(old(self)),
            final(self).data() == old(self).data(),
            !final(self).is_cancelled(),
            !final(self).is_retrying(),
    {
        self.cancelled = false;
        self.retrying = false;
    }
}

/// Only a good attempt to reach a backend again turns it to normal from any other
/// status, and it does so unless the operator has closed the backend.
pub proof fn law_only_a_retry_brings_a_backend_up(status: BackendStatus, event: BackendEvent)
    ensures
        !(status is Normal) && status_after(status, event) is Normal ==> event
            == BackendEvent::Retried(true),
        status_after(status, BackendEvent::Retried(true)) is Normal <==> !(status is ForceClosed),
{
}

/// The status after events in turn.
pub open spec fn status_after_all(status: BackendStatus, events: Seq<BackendEvent>) -> BackendStatus
    decreases events.len(),
{
    if events.len() == 0 {
        status
    } else {
        status_after(status_after_all(status, events.drop_last()), events.last())
    }
}

/// A backend that the operator has closed stays closed, whatever happens, until
/// the operator switches it again.
pub proof fn law_force_closed_stays(events: Seq<BackendEvent>)
    requires
        forall|i: int| 0 <= i < events.len() ==> !(#[trigger] events[i] is Switched),
    ensures
        status_after_all(BackendStatus::ForceClosed, events) is ForceClosed,
    decreases events.len(),
{
    if events.len() > 0 {
        assert forall|i: int| 0 <= i < events.drop_last().len() implies !(
        #[trigger] events.drop_last()[i] is Switched) by {
            assert(events.drop_last()[i] == events[i]);
        }
        assert(!(events[events.len() - 1] is Switched));
        law_force_closed_stays(events.drop_last());
    }
}

/// Switching a backend off and on again makes it one that is to be reached, and
/// the first good attempt brings it up.
pub proof fn law_switched_twice_comes_back(status: BackendStatus)
    requires
        !(status is ForceClosed),
    ensures
        status_after_all(
            status,
            seq![BackendEvent::Switched, BackendEvent::Switched, BackendEvent::Retried(true)],
        ) is Normal,
{
    let events = seq![BackendEvent::Switched, BackendEvent::Switched, BackendEvent::Retried(true)];
    assert(events.drop_last() =~= seq![BackendEvent::Switched, BackendEvent::Switched]);
    assert(events.drop_last().drop_last() =~= seq![BackendEvent::Switched]);
    assert(events.drop_last().drop_last().drop_last() =~= Seq::empty());
    reveal_with_fuel(status_after_all, 4);
}

/// The times of a QUIC connection are those of the file: for every number of seconds that
/// is not zero the keep-alive interval and the idle time are exactly that number, and there
/// is none only where the file says zero or nothing. Neither bears on the other.
pub proof fn law_times_are_those_of_the_file(
    config: QuicFileConfig,
    secs: u64,
    params: TransportParams,
    other: QuicFileConfig,
    second: TransportParams,
)
    requires
        call_ensures(QuicFileConfig::init_quic_transport_config, (&config,), params),
        call_ensures(QuicFileConfig::init_quic_transport_config, (&other,), second),
    ensures
        secs != 0 && config.keep_alive_interval == Some(secs) <==> params.keep_alive_interval
            == Some(secs),
        params.keep_alive_interval is None <==> config.keep_alive_interval is None
            || config.keep_alive_interval == Some(0u64),
        secs != 0 && config.max_idle_timeout == Some(secs) <==> params.max_idle_timeout == Some(
            secs,
        ),
        params.max_idle_timeout is None <==> config.max_idle_timeout is None
            || config.max_idle_timeout == Some(0u64),
        config.keep_alive_interval == other.keep_alive_interval ==> params.keep_alive_interval
            == second.keep_alive_interval,
        config.max_idle_timeout == other.max_idle_timeout ==> params.max_idle_timeout
            == second.max_idle_timeout,
        params.congestion == config.congestion,
{
}

/// A stream may hold as many bytes as come in within the expected round trip, a connection
/// eight times as many, and a round trip may take three times as long at first. All of them
/// are in range exactly where they fit 32 bits.
pub proof fn law_windows_hold_a_round_trip(
    config: QuicFileConfig,
    params: TransportParams,
    fits: bool,
)
    requires
        call_ensures(QuicFileConfig::check_range, (&config,), fits),
        call_ensures(QuicFileConfig::init_quic_transport_config, (&config,), params),
    ensures
        fits <==> 8 * (config.max_stream_bandwidth as int / 1000 * config.expected_rtt as int)
            <= 0xffff_ffff && 3 * config.expected_rtt <= 0xffff_ffff,
        fits ==> {
            &&& params.stream_receive_window == config.max_stream_bandwidth as int / 1000
                * config.expected_rtt as int
            &&& params.send_window == 8 * params.stream_receive_window
            &&& params.initial_rtt_millis == 3 * config.expected_rtt
            &&& params.datagram_receive_buffer_size == params.stream_receive_window
        },
{
    assert(config.max_stream_bandwidth as int / 1000 * config.expected_rtt as int >= 0)
        by (nonlinear_arith)
        requires
            config.max_stream_bandwidth >= 0,
            config.expected_rtt >= 0,
    ;
}

/// A QUIC client goes to the address and under the name that it was given, with the TLS
/// configuration that it was given. It uses early data and `h3`, 0-RTT unless that is ruled
/// out, IPv6 unless only IPv4 is wanted, and the limits that it holds are those that it
/// shows. It is refused exactly for an idle time whose milliseconds QUIC cannot hold.
pub proof fn law_quic_client_as_configured(
    config: QuicFileConfig,
    tls: &ClientTls,
    domain: &ServerName,
    address: &str,
    params: TransportParams,
    r: Result<QuicSetup, BackendError>,
)
    requires
        call_ensures(QuicFileConfig::new_builder, (&config, tls, domain, address), r),
        call_ensures(QuicFileConfig::init_quic_transport_config, (&config,), params),
    ensures
        r matches Ok(setup) ==> {
            &&& setup.limits == params
            &&& setup.config.holds().transport == params
            &&& setup.config.holds().tls == tls.holds()
            &&& setup.config.holds().early_data
            &&& setup.config.holds().alpn[0] == 'h' as u8
            &&& setup.config.holds().alpn[1] == '3' as u8
            &&& setup.server_name@ == domain.name@
            &&& setup.remote_address@ == address@
            &&& setup.ipv4_only <==> config.ipv4_only == Some(true)
            &&& setup.use_0rtt <==> config.use_0rtt != Some(false)
        },
        r is Err <==> (config.max_idle_timeout matches Some(secs) && secs * 1000
            >= 0x4000_0000_0000_0000),
        r matches Err(e) ==> e is IdleTimeout,
{
}

/// An HTTP/2 client goes to the address and under the name that it was given, with the TLS
/// configuration that it was given, is pinged as the file says, and may take five seconds to
/// connect. It is refused exactly where the address is no URI.
pub proof fn law_h2_client_as_configured(
    config: H2FileConfig,
    tls: ClientTls,
    domain: &ServerName,
    address: &str,
    r: Result<H2Setup, BackendError>,
)
    requires
        call_ensures(H2FileConfig::new_builder, (&config, tls, domain, address), r),
    ensures
        r matches Ok(setup) ==> {
            &&& setup.keep_alive.keep_alive_interval == config.keep_alive_interval
            &&& setup.keep_alive.keep_alive_timeout == config.keep_alive_timeout
            &&& setup.keep_alive.keep_alive_while_idle == config.keep_alive_while_idle
            &&& setup.tls.holds() == tls.holds()
            &&& setup.domain.name@ == domain.name@
            &&& setup.domain.debug@ == domain.debug@
            &&& setup.remote_address@ == address@
            &&& uri_from_text(address@) == Ok::<UriView, Seq<char>>(setup.remote_uri@)
            &&& setup.connect_time.secs == 5
            &&& setup.connect_time.nanos == 0
        },
        r is Ok <==> uri_from_text(address@) is Ok,
        r matches Err(e) ==> (e matches BackendError::RemoteUri(cause) && uri_from_text(address@)
            == Err::<UriView, Seq<char>>(cause@)),
{
}

/// The client of a backend speaks the protocol that the file asks for, by what the file says
/// of that protocol, and goes to the address in the file. What the file says of the other
/// protocol has no part in it.
pub proof fn law_client_of_the_protocol(
    config: FileBackendConfig,
    domain: &ServerName,
    tls: ClientTls,
    client: MixClient,
    text: String,
    params: TransportParams,
)
    requires
        call_ensures(
            FileBackendConfig::with_tls,
            (&config, domain, Ok::<ClientTls, TlsError>(tls)),
            Ok::<(MixClient, String), BackendError>((client, text)),
        ),
        call_ensures(QuicFileConfig::init_quic_transport_config, (&config.quic,), params),
    ensures
        text@ == domain.debug@,
        client is H2 <==> config.protocol is HTTP2,
        client is Quic <==> config.protocol is Quic,
        client matches MixClient::H2(setup) ==> {
            &&& setup.tls.holds() == tls.holds()
            &&& setup.remote_address@ == config.address@
            &&& setup.domain.name@ == domain.name@
            &&& setup.keep_alive == config.http2
        },
        client matches MixClient::Quic(setup) ==> {
            &&& setup.config.holds().tls == tls.holds()
            &&& setup.remote_address@ == config.address@
            &&& setup.server_name@ == domain.name@
            &&& setup.limits == params
            &&& setup.config.holds().transport == params
        },
{
}

/// The server name of an address is that of the host of the URI that the address makes, so
/// that a port or a path makes no difference. Of what can be wrong, the first thing is
/// complained of.
pub proof fn law_domain_is_the_host(
    address: &str,
    r: Result<ServerName, DomainError>,
    text: Seq<char>,
)
    requires
        call_ensures(parse_domain, (address,), r),
        text == seq!['h', 't', 't', 'p', ':', '/', '/'] + address@,
    ensures
        r matches Ok(name) ==> (uri_from_text(text) matches Ok(uri) && (uri.host matches Some(host)
            && server_name_from_text(host) == Ok::<ServerNameView, Seq<char>>(name@))),
        r matches Err(DomainError::Authority(cause)) ==> uri_from_text(text) == Err::<
            UriView,
            Seq<char>,
        >(cause@),
        r matches Err(DomainError::Host) ==> (uri_from_text(text) matches Ok(uri) && uri.host
            is None),
        r matches Err(DomainError::ServerName(cause)) ==> (uri_from_text(text) matches Ok(uri) && (
        uri.host matches Some(host) && server_name_from_text(host) == Err::<
            ServerNameView,
            Seq<char>,
        >(cause@))),
{
    reveal_strlit("http://");
    assert("http://"@ =~= seq!['h', 't', 't', 'p', ':', '/', '/']);
}

/// A backend that is set up has the client that was built for it and what the file says of
/// it. It starts with the status in the file, or up where the file has none, and with
/// nothing counted.
pub proof fn law_new_backend(
    name: String,
    config: FileBackendConfig,
    client: MixClient,
    domain: String,
    r: Result<Backend, BackendError>,
)
    requires
        call_ensures(
            Backend::with_client,
            (name, config, Ok::<(MixClient, String), BackendError>((client, domain))),
            r,
        ),
    ensures
        r matches Ok(backend) && {
            &&& backend.wf()
            &&& backend.name() == name@
            &&& backend.metrics().address() == config.address@
            &&& backend.metrics().domain() == domain@
            &&& backend.mix_client() == client
            &&& backend.config() == config
            &&& backend.retry_secs() == config.retry_timeout
            &&& backend.retry_limit() == config.max_retries
            &&& !backend.is_retrying()
            &&& !backend.is_cancelled()
            &&& config.status matches Some(status) ==> backend.data().status == status
            &&& config.status is None ==> backend.data().status is Normal
            &&& backend.data().protocol == config.protocol
            &&& backend.data().active_connections == 0
            &&& backend.data().failures == 0
            &&& backend.data().incoming_bytes == 0
            &&& backend.data().outgoing_bytes == 0
            &&& backend.data().total_incoming_bytes == 0
            &&& backend.data().total_outgoing_bytes == 0
            &&& backend.data().connection_time.secs == 0
            &&& backend.data().transmission_time.secs == 0
        },
{
}

/// A backend that gave no stream is down, unless the operator has closed it, in which case it
/// stays closed. Nothing else of it changes.
pub proof fn law_no_stream_takes_a_backend_down(backend: &mut Backend)
    requires
        call_ensures(Backend::connect_failed, (backend,), ()),
    ensures
        old(backend).data().status is ForceClosed ==> final(backend).data() == old(backend).data(),
        !(old(backend).data().status is ForceClosed) ==> final(backend).data() == (MetricView {
            status: BackendStatus::Closed,
            ..old(backend).data()
        }),
        final(backend).is_retrying() == old(backend).is_retrying(),
        final(backend).is_cancelled() == old(backend).is_cancelled(),
        final(backend).mix_client() == old(backend).mix_client(),
        final(backend).config() == old(backend).config(),
        final(backend).name() == old(backend).name(),
{
    assert(final(backend).data() =~= old(backend).data() || !(old(backend).data().status is ForceClosed));
}

/// Of two attempts to reach a backend again that begin one after the other, only the first is
/// made, until it ends. One that went well brings the backend up and ends the attempts, one
/// that failed leaves it down with more to come, and what the operator has closed meanwhile
/// stays closed and is not tried again.
pub proof fn law_one_attempt_at_a_time(
    first: &mut Backend,
    second: &mut Backend,
    third: &mut Backend,
    good: bool,
    x: RetryStep,
    y: RetryStep,
    z: RetryStep,
)
    requires
        call_ensures(Backend::begin_retry, (first,), x),
        *old(second) == *final(first),
        call_ensures(Backend::begin_retry, (second,), y),
        call_ensures(Backend::end_retry, (third, good), z),
    ensures
        x == RetryStep::Connect <==> !old(first).is_retrying() && (old(first).data().status is Closed
            || old(first).data().status is Unknown),
        x != RetryStep::Continue,
        y == RetryStep::Break,
        final(first).data() == old(first).data(),
        final(second).data() == old(first).data(),
        x == RetryStep::Connect ==> final(first).is_retrying(),
        !final(third).is_retrying(),
        final(third).data() == (MetricView {
            status: final(third).data().status,
            ..old(third).data()
        }),
        old(third).data().status is ForceClosed ==> final(third).data().status is ForceClosed && z
            == RetryStep::Break,
        !(old(third).data().status is ForceClosed) && good ==> final(third).data().status is Normal
            && z == RetryStep::Break,
        !(old(third).data().status is ForceClosed) && !good ==> final(third).data().status is Closed
            && z == RetryStep::Continue,
{
}

/// The operator closes a backend that is not closed, whatever its status is, and cuts its
/// streams. Switched again, it is unknown whether it is up, its streams may begin again, and
/// it is to be reached again. No counter changes.
pub proof fn law_switching_a_backend(first: &mut Backend, second: &mut Backend, x: bool, y: bool)
    requires
        call_ensures(Backend::switch_status, (first,), x),
        *old(second) == *final(first),
        call_ensures(Backend::switch_status, (second,), y),
        !(old(first).data().status is ForceClosed),
    ensures
        final(first).data().status is ForceClosed,
        final(first).is_cancelled(),
        !x,
        final(second).data().status is Unknown,
        !final(second).is_cancelled(),
        !final(second).is_retrying(),
        y,
        final(second).data() == (MetricView {
            status: BackendStatus::Unknown,
            ..old(first).data()
        }),
        final(second).mix_client() == old(first).mix_client(),
        final(second).config() == old(first).config(),
        final(second).name() == old(first).name(),
{
}

/// Starting a backend over forgets its connections, its peers and its failures and nothing
/// else, and lets streams begin again.
pub proof fn law_starting_over(backend: &mut Backend, peer: SocketAddr)
    requires
        call_ensures(Backend::reset, (backend,), ()),
    ensures
        ({
            let before = old(backend).data();
            let after = final(backend).data();
            &&& after.active_connections == 0
            &&& after.failures == 0
            &&& after.active_peers.count(peer) == 0
            &&& after.status == before.status
            &&& after.protocol == before.protocol
            &&& after.connection_time == before.connection_time
            &&& after.transmission_time == before.transmission_time
            &&& after.incoming_bytes == before.incoming_bytes
            &&& after.outgoing_bytes == before.outgoing_bytes
            &&& after.total_incoming_bytes == before.total_incoming_bytes
            &&& after.total_outgoing_bytes == before.total_outgoing_bytes
        }),
        !final(backend).is_cancelled(),
        !final(backend).is_retrying(),
        final(backend).mix_client() == old(backend).mix_client(),
        final(backend).config() == old(backend).config(),
        final(backend).name() == old(backend).name(),
{
}

/// A transfer that came to its end leaves the times and the bytes of that transfer, each in
/// its own place, and one connection of its peer fewer. One that did not is no news to the
/// counters until the failure is counted.
pub proof fn law_transfer_is_noted(
    backend: &mut Backend,
    outcome: TransferOutcome,
    connection_time: Duration,
    peer: SocketAddr,
    r: Result<(), TransferError>,
)
    requires
        call_ensures(Backend::transfer, (backend, outcome, connection_time, peer), r),
        outcome is Done ==> old(backend).data().active_connections > 0,
    ensures
        r is Ok <==> outcome is Done,
        outcome matches TransferOutcome::Done(up, down, time) ==> {
            let before = old(backend).data();
            let after = final(backend).data();
            &&& after.connection_time == connection_time
            &&& after.transmission_time == time
            &&& after.incoming_bytes == up
            &&& after.outgoing_bytes == down
            &&& before.total_incoming_bytes + up <= u64::MAX ==> after.total_incoming_bytes
                == before.total_incoming_bytes + up
            &&& before.total_outgoing_bytes + down <= u64::MAX ==> after.total_outgoing_bytes
                == before.total_outgoing_bytes + down
            &&& after.active_connections + 1 == before.active_connections
            &&& after.active_peers == before.active_peers.remove(peer)
            &&& after.failures == before.failures
            &&& after.status == before.status
            &&& after.protocol == before.protocol
        },
        !(outcome is Done) ==> final(backend).data() == old(backend).data(),
        outcome is Cancelled ==> (r matches Err(e) && e is Cancelled),
        outcome matches TransferOutcome::Failed(message) ==> (r matches Err(TransferError::Failed(
            said,
        )) && said@ == message@),
{
}

/// A backend that goes over to its other protocol has a client of that protocol and starts
/// over. Where that client cannot be set up the old one and the counters stay, and the other
/// protocol is chosen all the same. Going over twice chooses the first protocol again.
pub proof fn law_going_over_to_the_other_protocol(
    first: &mut Backend,
    second: &mut Backend,
    files: &ClientFiles,
    x: Result<(), BackendError>,
    y: Result<(), BackendError>,
)
    requires
        call_ensures(Backend::switch_protocol, (first, files), x),
        *old(second) == *final(first),
        call_ensures(Backend::switch_protocol, (second, files), y),
    ensures
        final(first).config().protocol != old(first).config().protocol,
        final(second).config() == old(first).config(),
        x is Ok ==> {
            let before = old(first).data();
            let after = final(first).data();
            &&& after.protocol == final(first).config().protocol
            &&& after.active_connections == 0
            &&& after.failures == 0
            &&& after.status == before.status
            &&& after.total_incoming_bytes == before.total_incoming_bytes
            &&& after.total_outgoing_bytes == before.total_outgoing_bytes
            &&& final(first).mix_client() is H2 <==> old(first).config().protocol is Quic
            &&& final(first).mix_client() is Quic <==> old(first).config().protocol is HTTP2
            &&& !final(first).is_cancelled()
        },
        x is Err ==> final(first).data() == old(first).data() && final(first).mix_client() == old(first).mix_client(),
        final(first).name() == old(first).name(),
        final(first).retry_secs() == old(first).retry_secs(),
        final(first).retry_limit() == old(first).retry_limit(),
{
}

/// A backend gives back what it was set up with: the intervals and the limit of its file, its
/// own name, its client, its status, and metrics under its names.
pub proof fn law_backend_gives_back_what_it_holds(
    name: String,
    config: FileBackendConfig,
    client: MixClient,
    domain: String,
    backend: Backend,
    secs: u64,
    limit: u32,
    status: BackendStatus,
    got_name: &str,
    got_client: &MixClient,
    got_config: &FileBackendConfig,
    metric: Option<BackendMetric>,
)
    requires
        call_ensures(
            Backend::with_client,
            (name, config, Ok::<(MixClient, String), BackendError>((client, domain))),
            Ok::<Backend, BackendError>(backend),
        ),
        call_ensures(Backend::get_retry_timeout, (&backend,), secs),
        call_ensures(Backend::get_max_retries, (&backend,), limit),
        call_ensures(Backend::get_status, (&backend,), status),
        call_ensures(Backend::get_backend_name, (&backend,), got_name),
        call_ensures(Backend::get_client, (&backend,), got_client),
        call_ensures(Backend::get_config, (&backend,), got_config),
        call_ensures(Backend::get_metric, (&backend,), metric),
    ensures
        secs == config.retry_timeout,
        limit == config.max_retries,
        config.status matches Some(said) ==> status == said,
        config.status is None ==> status is Normal,
        got_name@ == name@,
        *got_client == client,
        *got_config == config,
        metric matches Some(m) && m.backend_name@ == name@ && m.address@ == config.address@
            && m.domain@ == domain@ && m.metric.status == status && m.metric.protocol
            == config.protocol,
{
    let m = metric->0.metric;
    assert(m@.status == backend.data().status);
    assert(m@.protocol == backend.data().protocol);
}

/// A client is built of the address in the file and of the files: its server name is that of
/// the address, it speaks the protocol that the file asks for, goes to the address, shows the
/// certificates and holds the key of its files. An address without a server name is what is
/// complained of first.
pub proof fn law_client_is_built_of_its_file(
    config: FileBackendConfig,
    files: &ClientFiles,
    r: Result<(MixClient, String), BackendError>,
    address: &str,
    domain: Result<ServerName, DomainError>,
    cert: Result<&[u8], &str>,
    key: Result<&[u8], &str>,
    certs: Result<Vec<Vec<u8>>, TlsError>,
    der: Result<Vec<u8>, TlsError>,
    params: TransportParams,
    i: int,
)
    requires
        call_ensures(FileBackendConfig::build_client, (&config, files), r),
        address@ == config.address@,
        call_ensures(parse_domain, (address,), domain),
        call_ensures(content_slice, (&files.client_cert,), cert),
        call_ensures(content_slice, (&files.client_key,), key),
        call_ensures(load_certs, (cert,), certs),
        call_ensures(load_private_key, (key,), der),
        call_ensures(QuicFileConfig::init_quic_transport_config, (&config.quic,), params),
    ensures
        domain is Err ==> (r matches Err(BackendError::Domain(_, said)) && said@ == config.address@),
        domain is Ok ==> !(r matches Err(BackendError::Domain(_, _))),
        certs is Err || der is Err ==> r is Err,
        r matches Ok((client, text)) ==> {
            &&& domain matches Ok(name) && text@ == name.debug@
            &&& client is H2 <==> config.protocol is HTTP2
            &&& certs matches Ok(shown) && client@.tls().certs.len() == shown@.len() && (0 <= i
                < shown@.len() ==> client@.tls().certs[i] == shown@[i]@)
            &&& der matches Ok(found) && client@.tls().key == found@
            &&& client matches MixClient::H2(setup) ==> setup.remote_address@ == config.address@
                && setup.keep_alive == config.http2 && domain->Ok_0.name@ == setup.domain.name@
            &&& client matches MixClient::Quic(setup) ==> setup.remote_address@ == config.address@
                && setup.limits == params && domain->Ok_0.name@ == setup.server_name@
        },
{
    if let Ok(shown) = certs {
        if 0 <= i < shown@.len() {
            assert(blobs(shown@)[i] == shown@[i]@);
        }
    }
}

/// A backend that is set up has its name, its part of the file and a client of its protocol,
/// and where the client cannot be set up there is no backend.
pub proof fn law_backend_is_set_up(
    name: String,
    config: FileBackendConfig,
    files: &ClientFiles,
    r: Result<Backend, BackendError>,
    address: &str,
    domain: Result<ServerName, DomainError>,
)
    requires
        call_ensures(Backend::new, (name, config, files), r),
        address@ == config.address@,
        call_ensures(parse_domain, (address,), domain),
    ensures
        domain is Err ==> r is Err,
        r matches Ok(backend) ==> {
            &&& backend.name() == name@
            &&& backend.config() == config
            &&& backend.metrics().address() == config.address@
            &&& domain matches Ok(server) && backend.metrics().domain() == server.debug@
            &&& backend.mix_client() is H2 <==> config.protocol is HTTP2
            &&& config.status matches Some(status) ==> backend.data().status == status
            &&& config.status is None ==> backend.data().status is Normal
            &&& backend.data().active_connections == 0
            &&& backend.data().protocol == config.protocol
            &&& !backend.is_cancelled()
            &&& !backend.is_retrying()
            &&& backend.retry_secs() == config.retry_timeout
            &&& backend.retry_limit() == config.max_retries
        },
{
}

/// A backend takes the client that was built for it and starts over, and keeps the one that it
/// has where none could be built.
pub proof fn law_new_client_takes_over(
    backend: &mut Backend,
    client: MixClient,
    text: String,
    r: Result<(), BackendError>,
    kept: &mut Backend,
    error: BackendError,
    s: Result<(), BackendError>,
)
    requires
        call_ensures(
            Backend::switch_to,
            (backend, Ok::<(MixClient, String), BackendError>((client, text))),
            r,
        ),
        call_ensures(
            Backend::switch_to,
            (kept, Err::<(MixClient, String), BackendError>(error)),
            s,
        ),
    ensures
        r is Ok,
        final(backend).mix_client() == client,
        final(backend).data().protocol == old(backend).config().protocol,
        final(backend).data().active_connections == 0,
        final(backend).data().failures == 0,
        final(backend).data().status == old(backend).data().status,
        final(backend).data().total_incoming_bytes == old(backend).data().total_incoming_bytes,
        !final(backend).is_cancelled(),
        s is Err,
        *final(kept) == *old(kept),
{
}

/// The messages behind an error name what is wrong: the address without a server name, and the
/// cause last where something else says why.
pub proof fn law_causes_of_a_backend_error(
    address: String,
    cause: String,
    domain: Vec<String>,
    remote: Vec<String>,
    tls_error: TlsError,
    tls: Vec<String>,
    said: Vec<String>,
    i: int,
)
    requires
        call_ensures(
            BackendError::causes,
            (&BackendError::Domain(DomainError::Authority(cause), address),),
            domain,
        ),
        call_ensures(BackendError::causes, (&BackendError::RemoteUri(cause),), remote),
        call_ensures(BackendError::causes, (&BackendError::Tls(tls_error),), tls),
        call_ensures(TlsError::messages, (&tls_error,), said),
    ensures
        domain@.len() == 2,
        domain@[0]@.len() > address@.len(),
        domain@[0]@.skip(domain@[0]@.len() - address@.len()) == address@,
        domain@[1]@ == cause@,
        remote@.len() == 2,
        remote@[1]@ == cause@,
        tls@.len() == said@.len() + 1,
        0 <= i < said@.len() ==> tls@[i + 1]@ == said@[i]@,
{
    reveal_strlit("cannot parse authority, got wrong address: ");
    let all = texts(domain@);
    assert(all.len() == domain@.len());
    assert(all[0] == domain@[0]@);
    assert(all[1] == domain@[1]@);
    assert(domain@[0]@.skip(domain@[0]@.len() - address@.len()) =~= address@);
    assert(texts(remote@).len() == remote@.len());
    assert(texts(remote@).len() == 2);
    assert(texts(remote@)[1] == remote@[1]@);
    assert(texts(tls@).len() == tls@.len());
    assert(texts(said@).len() == said@.len());
    if 0 <= i < said@.len() {
        assert(texts(said@)[i] == said@[i]@);
        assert(texts(tls@)[i + 1] == tls@[i + 1]@);
    }
}

} // verus!
