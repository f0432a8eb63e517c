//! The configuration of a server.

use vstd::prelude::*;
use crate::addr::{socket_addr_from_text, SocketAddr};
use crate::config::{
    level_from_text, listen_address, parse_log_level_str, parse_socket_address, AddressError,
    LogLevel,
};
use crate::text::{copy_text, text_view, texts};
use crate::tls::{
    build_tls_server_config, content, content_slice, key_may_be_refused, no_ticketer,
    server_files_error, server_refused, server_tls_fits, FileView, NeverProducesTickets, ServerTls,
    ServerTlsView, TlsError, TlsErrorView, QUIC_ALPN,
};

verus! {

/// The command line of a server.
pub struct Cmd {
    /// Where to listen, in place of what the file says.
    pub listen_address: Option<String>,
    /// The certificates of trusted clients, in place of what the file says.
    pub auth: Option<String>,
    /// The path of the configuration file.
    pub config: String,
}

/// The command line of a server that stands alone.
pub struct Opts {
    /// Where to listen, in place of what the file says.
    pub listen_address: Option<String>,
    /// The certificates of trusted clients, in place of what the file says.
    pub auth: Option<String>,
    /// The path of the configuration file.
    pub config: String,
}

impl Opts {
    /// The same as a command.
    pub fn into_cmd(self) -> (r: Cmd)
        ensures
            r.listen_address == self.listen_address,
            r.auth == self.auth,
            r.config == self.config,
    {
        Cmd { listen_address: self.listen_address, auth: self.auth, config: self.config }
    }
}

/// What a configuration file says.
pub struct FileConfig {
    pub log_level: String,
    pub listen_address: String,
    /// The path of the server's key.
    pub auth_key: String,
    /// The path of the server's certificate.
    pub auth_cert: String,
    /// The path of the certificates of trusted clients.
    pub client_ca: Option<String>,
    pub max_concurrent_tasks: usize,
    pub quic: Option<bool>,
    pub use_0rtt: Option<bool>,
}

/// How many connections are served at once where a file does not say.
pub fn default_max_concurrent_tasks() -> (r: usize)
    ensures
        r == 32,
{
    32
}

/// The path of the certificates of trusted clients: the command line goes before
/// the file.
pub open spec fn client_ca_of(opts: Cmd, file: FileConfig) -> Option<Seq<char>> {
    match opts.auth {
        Some(path) => Some(path@),
        None => text_view(file.client_ca),
    }
}

/// The path of the certificates of trusted clients.
pub fn client_ca_path(opts: &Cmd, file: &FileConfig) -> (r: Option<String>)
    ensures
        text_view(r) == client_ca_of(*opts, *file),
{
    match &opts.auth {
        Some(path) => Some(path.clone()),
        None => copy_text(&file.client_ca),
    }
}

/// The contents of the files of a server, or why they could not be opened. No file of
/// trusted clients lets everyone in.
pub struct ServerFiles {
    pub cert: Result<Vec<u8>, String>,
    pub key: Result<Vec<u8>, String>,
    pub client_ca: Option<Result<Vec<u8>, String>>,
}

impl ServerFiles {
    /// The error that the files give, if any.
    pub open spec fn error(&self) -> Option<TlsErrorView> {
        server_files_error(content(self.cert), content(self.key), self.ca())
    }

    /// The content of the file of trusted clients, if one is given.
    pub open spec fn ca(&self) -> Option<FileView> {
        match self.client_ca {
            Some(file) => Some(content(file)),
            None => None,
        }
    }
}

#[verifier::external_type_specification]
#[verifier::external_body]
pub struct ExQuicServerConfig(quinn::ServerConfig);

/// What a server's QUIC configuration was made of: its TLS configuration but for
/// tickets, of which it hands out none, how much early data it takes, and the
/// protocol that it negotiates.
pub struct QuicConfigView {
    pub tls: ServerTlsView,
    pub max_early_data_size: u32,
    pub alpn: [u8; 2],
}

/// QUIC as a server offers it.
pub struct QuicConfig {
    server_config: quinn::ServerConfig,
    made_of: Ghost<QuicConfigView>,
}

impl QuicConfig {
    /// What it was made of.
    pub closed spec fn holds(&self) -> QuicConfigView {
        self.made_of@
    }

    /// The configuration itself.
    pub closed spec fn config(&self) -> quinn::ServerConfig {
        self.server_config
    }

    /// The configuration itself.
    pub fn get_config(&self) -> (r: &quinn::ServerConfig)
        ensures
            *r == self.config(),
    {
        &self.server_config
    }
}

/// Calls `quinn::ServerConfig::with_crypto` with a copy of a TLS configuration
/// that takes early data up to a size, hands out no tickets and negotiates one
/// protocol, and notes what the configuration was made of.
#[verifier::external_body]
fn quic_server_config(tls: &ServerTls, max_early_data_size: u32, alpn: [u8; 2]) -> (r: QuicConfig)
    ensures
        r.holds() == (QuicConfigView {
            tls: ServerTlsView { tickets: false, ..tls.holds() },
            max_early_data_size,
            alpn,
        }),
{
    let mut config = tls.get_config().clone();
    config.max_early_data_size = max_early_data_size;
    config.ticketer = std::sync::Arc::new(NeverProducesTickets {});
    config.alpn_protocols = vec![alpn.to_vec()];
    let server_config = quinn::ServerConfig::with_crypto(std::sync::Arc::new(config));
    let ghost without_tickets = ServerTlsView { tickets: false, ..tls.holds() };
    let ghost made_of = QuicConfigView { tls: without_tickets, max_early_data_size, alpn };
    QuicConfig { server_config, made_of: Ghost(made_of) }
}

/// Why a server could not be configured.
pub enum ServerConfigError {
    ListenAddress(AddressError),
    Tls(TlsError),
}

/// Why a server could not be configured, as mathematical values.
pub enum ServerConfigErrorView {
    ListenAddress,
    Tls(TlsErrorView),
}

impl ServerConfigErrorView {
    /// What the error says.
    pub open spec fn text(self) -> Seq<char> {
        match self {
            ServerConfigErrorView::ListenAddress =>
                "cannot parse listen address into socket address"@,
            ServerConfigErrorView::Tls(e) => e.text(),
        }
    }

    /// The messages of the error, from the outside in.
    pub open spec fn messages(self) -> Seq<Seq<char>> {
        match self {
            ServerConfigErrorView::ListenAddress => seq![self.text()],
            ServerConfigErrorView::Tls(e) => e.messages(),
        }
    }
}

/// The messages of a server that could not begin, from the outside in.
pub open spec fn init_messages(cause: Seq<Seq<char>>) -> Seq<Seq<char>> {
    seq!["Could not init config"@] + cause
}

/// The messages of a server that could not begin, from the outside in, given those of
/// the cause.
pub fn init_failure(cause: Vec<String>) -> (r: Vec<String>)
    ensures
        texts(r@) == init_messages(texts(cause@)),
{
    let mut r: Vec<String> = Vec::new();
    r.push("Could not init config".to_owned());
    let mut rest = cause;
    r.append(&mut rest);
    assert(texts(r@) =~= init_messages(texts(cause@)));
    r
}

impl ServerConfigError {
    /// The error as mathematical values.
    pub open spec fn view(&self) -> ServerConfigErrorView {
        match self {
            ServerConfigError::ListenAddress(_) => ServerConfigErrorView::ListenAddress,
            ServerConfigError::Tls(e) => ServerConfigErrorView::Tls(e@),
        }
    }

    /// The messages of the error, from the outside in.
    pub fn messages(&self) -> (r: Vec<String>)
        ensures
            texts(r@) == self@.messages(),
    {
        match self {
            ServerConfigError::ListenAddress(e) => {
                let mut r: Vec<String> = Vec::new();
                r.push(e.message());
                assert(texts(r@) =~= self@.messages());
                r
            },
            ServerConfigError::Tls(e) => e.messages(),
        }
    }

    /// What the error says.
    pub fn message(&self) -> (r: String)
        ensures
            r@ == self@.text(),
    {
        match self {
            ServerConfigError::ListenAddress(e) => e.message(),
            ServerConfigError::Tls(e) => e.message(),
        }
    }
}

/// The configuration of a server.
pub struct Config {
    pub log_level: LogLevel,
    pub listen_address: SocketAddr,
    pub max_concurrent_tasks: usize,
    pub tls: ServerTls,
    pub quic_config: Option<QuicConfig>,
    pub use_0rtt: bool,
}

/// The address to listen on: the command line goes before the file.
pub open spec fn server_address(opts: Cmd, file: FileConfig) -> Option<SocketAddr> {
    let text = match opts.listen_address {
        Some(address) => address@,
        None => file.listen_address@,
    };
    listen_address(socket_addr_from_text(text), text)
}

/// The configuration of a server is what its file and the environment ask for, with
/// this address and this TLS configuration.
pub open spec fn configured(
    listen_address: SocketAddr,
    file: FileConfig,
    log_env: Option<String>,
    tls: ServerTlsView,
    config: Config,
) -> bool {
    &&& config.listen_address == listen_address
    &&& config.max_concurrent_tasks == file.max_concurrent_tasks
    &&& config.tls.holds() == tls
    &&& match config.quic_config {
        Some(quic) => file.quic == Some(true) && quic.holds() == (QuicConfigView {
            tls: ServerTlsView { tickets: false, ..tls },
            max_early_data_size: u32::MAX,
            alpn: QUIC_ALPN,
        }),
        None => file.quic != Some(true),
    }
    &&& config.use_0rtt == (file.use_0rtt != Some(false))
    &&& config.log_level == match level_from_text(
        match log_env {
            Some(value) => value@,
            None => file.log_level@,
        },
    ) {
        Some(level) => level,
        None => LogLevel::Error,
    }
}

/// Whether `r` is what configuring a server can come to. Where the address and the
/// files are in order, rustls may still refuse the key, but not one of RSA or
/// Ed25519, or be unable to make a ticketer.
pub open spec fn server_built(
    opts: Cmd,
    file: FileConfig,
    files: ServerFiles,
    log_env: Option<String>,
    r: Result<Config, ServerConfigError>,
) -> bool {
    match server_address(opts, file) {
        None => r matches Err(e) && e@ is ListenAddress,
        Some(address) => match files.error() {
            Some(error) => r matches Err(e) && e@ == ServerConfigErrorView::Tls(error),
            None => match r {
                Ok(config) => {
                    &&& configured(address, file, log_env, config.tls.holds(), config)
                    &&& server_tls_fits(
                        content(files.cert),
                        content(files.key),
                        files.ca(),
                        config.tls.holds(),
                    )
                },
                Err(e) => e@ matches ServerConfigErrorView::Tls(TlsErrorView::Rustls(message))
                    && server_refused(content(files.key), message),
            },
        },
    }
}

impl Config {
    /// Configures a server. The command line goes before the file, and the
    /// environment for the log level. QUIC is offered only where the file asks for
    /// it, and then with 0-RTT unless the file forbids that.
    pub fn new(
        opts: Cmd,
        file: FileConfig,
        files: &ServerFiles,
        log_env: Option<String>,
    ) -> (r: Result<Self, ServerConfigError>)
        ensures
            server_built(opts, file, *files, log_env, r),
    {
        let listen: &str = match &opts.listen_address {
            Some(address) => address.as_str(),
            None => file.listen_address.as_str(),
        };
        let listen_address: SocketAddr = match parse_socket_address(listen) {
            Ok(address) => address,
            Err(e) => {
                return Err(ServerConfigError::ListenAddress(e));
            },
        };
        let client_ca = match &files.client_ca {
            Some(file) => Some(content_slice(file)),
            None => None,
        };
        let tls = build_tls_server_config(
            content_slice(&files.cert),
            content_slice(&files.key),
            client_ca,
        );
        Config::with_tls(listen_address, file, log_env, tls)
    }

    /// The configuration of a server that listens on an address, given what came of
    /// its TLS configuration.
    pub fn with_tls(
        listen_address: SocketAddr,
        file: FileConfig,
        log_env: Option<String>,
        tls: Result<ServerTls, TlsError>,
    ) -> (r: Result<Self, ServerConfigError>)
        ensures
            match tls {
                Ok(tls) => r matches Ok(config) && config.tls == tls && configured(
                    listen_address,
                    file,
                    log_env,
                    tls.holds(),
                    config,
                ),
                Err(e) => r == Err::<Config, ServerConfigError>(ServerConfigError::Tls(e)),
            },
    {
        let log_level = parse_log_level_str(file.log_level.as_str(), log_env);
        let tls = match tls {
            Ok(tls) => tls,
            Err(e) => {
                return Err(ServerConfigError::Tls(e));
            },
        };
        let use_0rtt: bool = match file.use_0rtt {
            Some(b) => b,
            None => true,
        };
        let quic_config = match file.quic {
            Some(true) => Some(quic_server_config(&tls, u32::MAX, QUIC_ALPN)),
            Some(false) => None,
            None => None,
        };
        Ok(
            Config {
                log_level,
                listen_address,
                max_concurrent_tasks: file.max_concurrent_tasks,
                tls,
                quic_config,
                use_0rtt,
            },
        )
    }
}

impl Cmd {
    /// Configures the server that the command line asks for, given its file and the
    /// files that this names, or the messages where the file could not be loaded. An
    /// error is given as its messages, from the outside in.
    pub fn run(
        self,
        loaded: Result<(FileConfig, ServerFiles), Vec<String>>,
        log_env: Option<String>,
    ) -> (r: Result<Config, Vec<String>>)
        ensures
            match loaded {
                Err(cause) => r matches Err(messages) && texts(messages@) == init_messages(
                    texts(cause@),
                ),
                Ok((file, files)) => match r {
                    Ok(config) => server_built(self, file, files, log_env, Ok(config)),
                    Err(messages) => exists|e: ServerConfigError|
                        server_built(self, file, files, log_env, Err(e)) && texts(messages@)
                            == init_messages((#[trigger] e.view()).messages()),
                },
            },
    {
        match loaded {
            Err(cause) => Err(init_failure(cause)),
            Ok((file, files)) => match Config::new(self, file, &files, log_env) {
                Ok(config) => Ok(config),
                Err(e) => Err(init_failure(e.messages())),
            },
        }
    }
}

/// A server whose address and files are in order, with a key of RSA or Ed25519, is
/// configured, unless rustls can make no ticketer.
pub proof fn law_good_configuration(
    opts: Cmd,
    file: FileConfig,
    files: ServerFiles,
    log_env: Option<String>,
    r: Result<Config, ServerConfigError>,
)
    requires
        server_address(opts, file) is Some,
        files.error() is None,
        !key_may_be_refused(content(files.key)),
        server_built(opts, file, files, log_env, r),
    ensures
        match r {
            Ok(_) => true,
            Err(e) => e@ matches ServerConfigErrorView::Tls(TlsErrorView::Rustls(message))
                && no_ticketer(message),
        },
{
}

/// What the command line says of the address and of the trusted clients holds,
/// whatever the file says.
pub proof fn law_command_line_wins(opts: Cmd, file: FileConfig, other: FileConfig)
    ensures
        opts.listen_address is Some ==> server_address(opts, file) == server_address(opts, other),
        opts.auth is Some ==> client_ca_of(opts, file) == client_ca_of(opts, other),
{
}

/// A server is configured as it was asked to be: it listens where the command line says, or
/// the file where that says nothing, serves as many connections at once as the file says,
/// logs by the environment or the file, and uses 0-RTT unless the file rules that out.
pub proof fn law_server_as_asked(
    opts: Cmd,
    file: FileConfig,
    files: &ServerFiles,
    log_env: Option<String>,
    r: Result<Config, ServerConfigError>,
    listen: &str,
    parsed: Result<SocketAddr, AddressError>,
    level_text: &str,
    level: LogLevel,
)
    requires
        call_ensures(Config::new, (opts, file, files, log_env), r),
        opts.listen_address matches Some(text) ==> listen@ == text@,
        opts.listen_address is None ==> listen@ == file.listen_address@,
        call_ensures(parse_socket_address, (listen,), parsed),
        level_text@ == file.log_level@,
        call_ensures(parse_log_level_str, (level_text, log_env), level),
    ensures
        r matches Ok(config) ==> {
            &&& parsed == Ok::<SocketAddr, AddressError>(config.listen_address)
            &&& config.log_level == level
            &&& config.max_concurrent_tasks == file.max_concurrent_tasks
            &&& file.use_0rtt matches Some(wanted) ==> config.use_0rtt == wanted
            &&& file.use_0rtt is None ==> config.use_0rtt
        },
        parsed is Err ==> (r matches Err(e) && e is ListenAddress),
        r matches Err(ServerConfigError::ListenAddress(_)) ==> parsed is Err,
{
}

/// QUIC is offered exactly where the file asks for it: with the certificates, the key and the
/// trusted clients of the server, with early data of any size, `h3` and no tickets.
pub proof fn law_quic_where_asked_for(
    opts: Cmd,
    file: FileConfig,
    files: &ServerFiles,
    log_env: Option<String>,
    config: Config,
)
    requires
        call_ensures(
            Config::new,
            (opts, file, files, log_env),
            Ok::<Config, ServerConfigError>(config),
        ),
    ensures
        config.quic_config is Some <==> file.quic == Some(true),
        config.quic_config matches Some(quic) ==> {
            &&& quic.holds().max_early_data_size == 0xffff_ffff
            &&& quic.holds().alpn[0] == 'h' as u8
            &&& quic.holds().alpn[1] == '3' as u8
            &&& !quic.holds().tls.tickets
            &&& quic.holds().tls.certs == config.tls.holds().certs
            &&& quic.holds().tls.key == config.tls.holds().key
            &&& quic.holds().tls.client_roots == config.tls.holds().client_roots
        },
        config.tls.holds().tickets,
        config.tls.holds().client_roots is Some <==> files.client_ca is Some,
{
}

/// A server uses the TLS configuration that was made for it, and is not configured where that
/// could not be made, for the same reason.
pub proof fn law_server_with_its_tls(
    address: SocketAddr,
    file: FileConfig,
    log_env: Option<String>,
    tls: Result<ServerTls, TlsError>,
    r: Result<Config, ServerConfigError>,
)
    requires
        call_ensures(Config::with_tls, (address, file, log_env, tls), r),
    ensures
        r is Ok <==> tls is Ok,
        r matches Ok(config) ==> tls == Ok::<ServerTls, TlsError>(config.tls)
            && config.listen_address == address && config.max_concurrent_tasks
            == file.max_concurrent_tasks,
        tls matches Err(error) ==> (r matches Err(ServerConfigError::Tls(e)) && e == error),
{
}

/// The path of the trusted clients is what the command line says, and else what the file says,
/// and none only where neither says anything.
pub proof fn law_path_of_the_trusted_clients(opts: &Cmd, file: &FileConfig, r: Option<String>)
    requires
        call_ensures(client_ca_path, (opts, file), r),
    ensures
        opts.auth matches Some(path) ==> (r matches Some(found) && found@ == path@),
        opts.auth is None ==> (file.client_ca matches Some(path) ==> (r matches Some(found)
            && found@ == path@)),
        r is None <==> opts.auth is None && file.client_ca is None,
{
}

/// A server that stands alone is the same as one that is asked for by a command.
pub proof fn law_server_that_stands_alone(opts: Opts, cmd: Cmd)
    requires
        call_ensures(Opts::into_cmd, (opts,), cmd),
    ensures
        cmd.listen_address == opts.listen_address,
        cmd.auth == opts.auth,
        cmd.config == opts.config,
{
}

/// A server that could not begin says so first, and then what the cause says, in its order.
pub proof fn law_messages_of_a_server(cause: Vec<String>, r: Vec<String>, i: int)
    requires
        call_ensures(init_failure, (cause,), r),
    ensures
        r@.len() == cause@.len() + 1,
        0 <= i < cause@.len() ==> r@[i + 1]@ == cause@[i]@,
{
    let all = texts(r@);
    assert(all.len() == r@.len());
    assert(texts(cause@).len() == cause@.len());
    if 0 <= i < cause@.len() {
        assert(texts(cause@)[i] == cause@[i]@);
        assert(all[i + 1] == r@[i + 1]@);
    }
}

/// The messages of a server's error are what the error says, and those of its TLS configuration
/// where that is what failed.
pub proof fn law_messages_of_a_server_error(
    error: TlsError,
    list: Vec<String>,
    behind: Vec<String>,
    i: int,
)
    requires
        call_ensures(ServerConfigError::messages, (&ServerConfigError::Tls(error),), list),
        call_ensures(TlsError::messages, (&error,), behind),
    ensures
        list@.len() == behind@.len(),
        0 <= i < behind@.len() ==> list@[i]@ == behind@[i]@,
{
    assert(texts(list@).len() == list@.len());
    assert(texts(behind@).len() == behind@.len());
    if 0 <= i < behind@.len() {
        assert(texts(behind@)[i] == behind@[i]@);
        assert(texts(list@)[i] == list@[i]@);
    }
}

/// The command line configures a server as its configuration does, or says why not.
pub proof fn law_command_configures_a_server(
    opts: Cmd,
    file: FileConfig,
    files: ServerFiles,
    log_env: Option<String>,
    r: Result<Config, Vec<String>>,
    listen: &str,
    parsed: Result<SocketAddr, AddressError>,
)
    requires
        call_ensures(
            Cmd::run,
            (opts, Ok::<(FileConfig, ServerFiles), Vec<String>>((file, files)), log_env),
            r,
        ),
        opts.listen_address matches Some(text) ==> listen@ == text@,
        opts.listen_address is None ==> listen@ == file.listen_address@,
        call_ensures(parse_socket_address, (listen,), parsed),
    ensures
        parsed is Err ==> r is Err,
        r matches Ok(config) ==> {
            &&& parsed == Ok::<SocketAddr, AddressError>(config.listen_address)
            &&& config.max_concurrent_tasks == file.max_concurrent_tasks
            &&& config.quic_config is Some <==> file.quic == Some(true)
            &&& config.use_0rtt <==> file.use_0rtt != Some(false)
        },
{
}

} // verus!
