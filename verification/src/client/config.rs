//! The configuration of a client and the choice of a backend.

use vstd::prelude::*;
use crate::addr::{format_socket, socket_addr_from_text, socket_addr_text, SocketAddr};
use crate::client::backends::{
    can_be_set_up, client_built, client_of, Backend, BackendError, BackendErrorView, ClientFiles,
    FileBackendConfig,
};
use crate::client::balance::{
    balanced, is_least_loaded, populate_load_balance, ring_lookup, set_up, Balance, Balancer,
    ConfigBackend,
};
use crate::client::peer::{
    backend_under_rule, lemma_hostname, BackendRuleView, PeerBackendRule, PeerInfo,
};
use crate::client::rules::{
    looked_up, rules_of, HostRuleSection, HostRuler, RulesView, SectionView,
};
use crate::config::{
    level_from_text, listen_address, parse_log_level_str, parse_socket_address, AddressError,
    LogLevel,
};
use crate::metric::BackendStatus;
use crate::text::{followed_by, same_text, texts};
use crate::uri::{parse_uri, uri_from_text, Uri, UriView};

verus! {

/// The command line of a client.
pub struct Cmd {
    /// Where to listen for requests, in place of what the file says.
    pub listen_address: Option<String>,
    /// The path of the configuration file.
    pub config: String,
}

/// What a configuration file says.
pub struct FileConfig {
    pub listen_address: String,
    pub log_level: String,
    pub balance: Balance,
    pub host_rule: Option<String>,
    /// Where to listen for the metric service.
    pub metric_address: String,
    pub backends: Vec<(String, FileBackendConfig)>,
}

/// What became of the file of host rules.
pub enum RuleFile {
    /// The configuration names none.
    NotGiven,
    /// It could not be opened, for this reason.
    CannotOpen(String),
    /// It is no file of host rules, for this reason.
    Invalid(String),
    Sections(Vec<(String, HostRuleSection)>),
}

/// What was read for a configuration: the file itself, the host rules, the files
/// of each backend, and the variable of the environment for the log level.
pub struct Loaded {
    pub file: FileConfig,
    pub rules: RuleFile,
    pub files: Vec<ClientFiles>,
    pub log_env: Option<String>,
}

impl Loaded {
    /// There are files for each backend, and each backend is within the range of
    /// its protocol.
    pub open spec fn wf(&self) -> bool {
        &&& self.files@.len() == self.file.backends@.len()
        &&& forall|i: int|
            0 <= i < self.file.backends@.len() ==> (#[trigger] self.file.backends@[i]).1.in_range()
    }
}

/// Why a client could not be configured.
pub enum ConfigError {
    ListenAddress,
    MetricAddress,
    /// The listen address makes no URI, for this reason.
    ProxyUri(String),
    OpenRules(String),
    ParseRules(String),
    Backend(BackendError),
}

/// Why a client could not be configured, as mathematical values.
pub enum ConfigErrorView {
    ListenAddress,
    MetricAddress,
    ProxyUri(Seq<char>),
    OpenRules(Seq<char>),
    ParseRules(Seq<char>),
    Backend(BackendErrorView),
}

impl ConfigErrorView {
    /// What the error says.
    pub open spec fn text(self) -> Seq<char> {
        match self {
            ConfigErrorView::ListenAddress => "Could not parse proxy listen address"@,
            ConfigErrorView::MetricAddress => "Could not parse metric listen address"@,
            ConfigErrorView::ProxyUri(_) => "Could not parse proxy listen address"@,
            ConfigErrorView::OpenRules(_) => "Failed to open host rewrite file"@,
            ConfigErrorView::ParseRules(_) => "Failed to parse host rewrite config"@,
            ConfigErrorView::Backend(_) => "Could not setup backends"@,
        }
    }
}

impl ConfigError {
    /// The error as mathematical values.
    pub open spec fn view(&self) -> ConfigErrorView {
        match self {
            ConfigError::ListenAddress => ConfigErrorView::ListenAddress,
            ConfigError::MetricAddress => ConfigErrorView::MetricAddress,
            ConfigError::ProxyUri(cause) => ConfigErrorView::ProxyUri(cause@),
            ConfigError::OpenRules(cause) => ConfigErrorView::OpenRules(cause@),
            ConfigError::ParseRules(cause) => ConfigErrorView::ParseRules(cause@),
            ConfigError::Backend(e) => ConfigErrorView::Backend(e@),
        }
    }

    /// The messages of the error, from the outside in.
    pub fn messages(&self) -> (r: Vec<String>)
        ensures
            texts(r@) == config_messages(self@),
    {
        let mut r: Vec<String> = Vec::new();
        r.push("Could not init config".to_owned());
        r.push(self.message());
        match self {
            ConfigError::ListenAddress | ConfigError::MetricAddress => {
                r.push("cannot parse listen address into socket address".to_owned());
            },
            ConfigError::ProxyUri(cause) | ConfigError::OpenRules(cause) => {
                r.push(cause.clone());
            },
            ConfigError::ParseRules(cause) => {
                r.push("Failed to parse host rule toml".to_owned());
                r.push(cause.clone());
            },
            ConfigError::Backend(e) => {
                r.push("Fail to initialize backend".to_owned());
                r.push(e.message());
                let mut causes = e.causes();
                r.append(&mut causes);
            },
        }
        assert(texts(r@) =~= config_messages(self@));
        r
    }

    /// What the error says.
    pub fn message(&self) -> (r: String)
        ensures
            r@ == self@.text(),
    {
        match self {
            ConfigError::ListenAddress => "Could not parse proxy listen address".to_owned(),
            ConfigError::MetricAddress => "Could not parse metric listen address".to_owned(),
            ConfigError::ProxyUri(_) => "Could not parse proxy listen address".to_owned(),
            ConfigError::OpenRules(_) => "Failed to open host rewrite file".to_owned(),
            ConfigError::ParseRules(_) => "Failed to parse host rewrite config".to_owned(),
            ConfigError::Backend(_) => "Could not setup backends".to_owned(),
        }
    }
}

/// The messages of an error, from the outside in, with that of the client that could
/// not begin before all others.
pub open spec fn config_messages(error: ConfigErrorView) -> Seq<Seq<char>> {
    seq!["Could not init config"@, error.text()] + match error {
        ConfigErrorView::ListenAddress => seq!["cannot parse listen address into socket address"@],
        ConfigErrorView::MetricAddress => seq!["cannot parse listen address into socket address"@],
        ConfigErrorView::ProxyUri(cause) => seq![cause],
        ConfigErrorView::OpenRules(cause) => seq![cause],
        ConfigErrorView::ParseRules(cause) => seq!["Failed to parse host rule toml"@, cause],
        ConfigErrorView::Backend(e) => seq![
            "Fail to initialize backend"@,
            "Could not build client from backend file"@,
        ] + e.causes(),
    }
}

/// The messages where the configuration file could not be loaded, from the outside in.
pub open spec fn load_messages(cause: Seq<Seq<char>>) -> Seq<Seq<char>> {
    seq!["Could not init config"@, "Could not load config file"@] + cause
}

/// The messages of a client that could not begin as its configuration file could not
/// be loaded.
pub fn load_failure(cause: Vec<String>) -> (r: Vec<String>)
    ensures
        texts(r@) == load_messages(texts(cause@)),
{
    let mut r: Vec<String> = Vec::new();
    r.push("Could not init config".to_owned());
    r.push("Could not load config file".to_owned());
    let mut rest = cause;
    r.append(&mut rest);
    assert(texts(r@) =~= load_messages(texts(cause@)));
    r
}

/// The configuration of a client.
pub struct Config {
    pub listen_address: SocketAddr,
    pub metric_address: SocketAddr,
    pub log_level: LogLevel,
    pub balance: Balancer,
    pub backends: Vec<Backend>,
    pub host_rule: Option<HostRuler>,
    /// The proxy itself, to which requests other than for a tunnel are handed on.
    pub proxy_uri: Uri,
}

/// Where a request goes.
#[derive(Clone, Copy, PartialEq, Eq, Structural, Debug)]
pub enum AvailableBackend {
    /// To the host itself.
    Direct,
    /// Nowhere, by a rule.
    Block,
    /// Nowhere, as no backend is up.
    NoBackend,
    /// To the backend at this place.
    GotBackend(usize),
}

/// The text of the listen address: the command line goes before the file.
pub open spec fn listen_text(opts: Cmd, file: FileConfig) -> Seq<char> {
    match opts.listen_address {
        Some(address) => address@,
        None => file.listen_address@,
    }
}

/// The address that a text is, or the local address of the port that it is.
pub open spec fn address_of(text: Seq<char>) -> Option<SocketAddr> {
    listen_address(socket_addr_from_text(text), text)
}

/// The URI of a proxy that listens on an address.
pub open spec fn proxy_uri_of(addr: SocketAddr) -> Result<UriView, Seq<char>> {
    uri_from_text("http://"@ + socket_addr_text(addr))
}

/// The error that a configuration gives before its backends are set up, if any.
pub open spec fn early_error(opts: Cmd, file: FileConfig, rules: RuleFile) -> Option<
    ConfigErrorView,
> {
    match address_of(listen_text(opts, file)) {
        None => Some(ConfigErrorView::ListenAddress),
        Some(listen) => if address_of(file.metric_address@) is None {
            Some(ConfigErrorView::MetricAddress)
        } else {
            match (proxy_uri_of(listen), rules) {
                (Err(cause), _) => Some(ConfigErrorView::ProxyUri(cause)),
                (_, RuleFile::CannotOpen(cause)) => Some(ConfigErrorView::OpenRules(cause@)),
                (_, RuleFile::Invalid(cause)) => Some(ConfigErrorView::ParseRules(cause@)),
                _ => None,
            }
        },
    }
}

/// The rules that a file of host rules gives.
pub open spec fn rules_in(rules: RuleFile) -> Map<Seq<char>, SectionView> {
    match rules {
        RuleFile::Sections(sections) => rules_of(sections@),
        _ => Map::empty(),
    }
}

/// The rules in use, none where there is no ruler.
pub open spec fn ruler_map(ruler: Option<HostRuler>) -> Map<Seq<char>, SectionView> {
    match ruler {
        Some(ruler) => ruler@,
        None => Map::empty(),
    }
}

/// The backends are those that the file names, in its order, as it and their own
/// files configure them.
pub open spec fn backends_match(
    backends: Seq<Backend>,
    configs: Seq<(String, FileBackendConfig)>,
    files: Seq<ClientFiles>,
) -> bool {
    &&& backends.len() == configs.len()
    &&& forall|i: int|
        0 <= i < backends.len() ==> (#[trigger] backends[i]).is_new(
            configs[i].0@,
            configs[i].1,
            files[i],
        )
}

/// The backend at `i` gives this error with its files, and those before it could be
/// set up.
pub open spec fn fails_at(
    configs: Seq<(String, FileBackendConfig)>,
    files: Seq<ClientFiles>,
    error: BackendError,
    i: int,
) -> bool {
    &&& 0 <= i < configs.len()
    &&& client_built(configs[i].1, files[i], Err(error))
    &&& exists|before: Seq<Backend>| #[trigger] backends_match(before, configs.take(i), files)
}

/// The first backend that cannot be set up gives this error.
pub open spec fn backend_error(
    configs: Seq<(String, FileBackendConfig)>,
    files: Seq<ClientFiles>,
    error: BackendError,
) -> bool {
    exists|i: int| #[trigger] fails_at(configs, files, error, i)
}

/// Every backend can be set up, with its files.
pub open spec fn all_can_be_set_up(
    configs: Seq<(String, FileBackendConfig)>,
    files: Seq<ClientFiles>,
) -> bool {
    forall|i: int| 0 <= i < configs.len() ==> #[trigger] can_be_set_up(configs[i].1, files[i])
}

/// Sets the backends up, each with its files.
pub fn populate_backends(
    configs: Vec<(String, FileBackendConfig)>,
    files: &Vec<ClientFiles>,
) -> (r: Result<Vec<Backend>, BackendError>)
    requires
        files@.len() == configs@.len(),
        forall|i: int| 0 <= i < configs@.len() ==> (#[trigger] configs@[i]).1.in_range(),
    ensures
        match r {
            Ok(backends) => backends_match(backends@, configs@, files@),
            Err(e) => backend_error(configs@, files@, e),
        },
        all_can_be_set_up(configs@, files@) ==> r is Ok,
{
    let ghost all = configs@;
    let mut backends: Vec<Backend> = Vec::new();
    let mut rest = configs;
    let mut i: usize = 0;
    while i < files.len()
        invariant
            i <= all.len(),
            files@.len() == all.len(),
            all == configs@,
            rest@ == all.skip(i as int),
            forall|k: int| 0 <= k < all.len() ==> (#[trigger] all[k]).1.in_range(),
            backends_match(backends@, all.take(i as int), files@),
        decreases all.len() - i,
    {
        assert(rest@[0] == all[i as int]);
        let (name, config) = rest.remove(0);
        match Backend::new(name, config, &files[i]) {
            Ok(backend) => {
                backends.push(backend);
            },
            Err(e) => {
                assert(fails_at(all, files@, e, i as int));
                return Err(e);
            },
        }
        assert(rest@ =~= all.skip(i + 1));
        proof {
            let before = all.take(i as int);
            let after = all.take(i + 1);
            assert forall|k: int| 0 <= k < backends@.len() implies (
            #[trigger] backends@[k]).is_new(after[k].0@, after[k].1, files@[k]) by {
                if k < i {
                    assert(after[k] == before[k]);
                }
            }
        }
        i = i + 1;
    }
    assert(all.take(i as int) =~= all);
    Ok(backends)
}

/// The backends that are up, in order, each with its place and its load.
pub open spec fn available(backends: Seq<Backend>, costs: Seq<u64>) -> Seq<ConfigBackend>
    decreases backends.len(),
{
    if backends.len() == 0 {
        Seq::empty()
    } else {
        let front = available(backends.drop_last(), costs);
        let id = backends.len() - 1;
        if backends.last().status() is Normal {
            front.push(ConfigBackend { id: id as usize, cost: costs[id] })
        } else {
            front
        }
    }
}

/// The place of the first backend of a name.
pub open spec fn named(backends: Seq<Backend>, name: Seq<char>, from: int) -> Option<int>
    decreases backends.len() - from,
{
    if from >= backends.len() {
        None
    } else if backends[from].name() == name {
        Some(from)
    } else {
        named(backends, name, from + 1)
    }
}

/// Where the host goes for which a rule names a backend: to that backend if it is
/// up, and else nowhere.
pub open spec fn routed(backends: Seq<Backend>, name: Seq<char>) -> AvailableBackend {
    match named(backends, name, 0) {
        Some(i) => if backends[i].status() is Normal {
            AvailableBackend::GotBackend(i as usize)
        } else {
            AvailableBackend::Block
        },
        None => AvailableBackend::Block,
    }
}

/// Whether a host with these rules goes to `r`, and the choice leaves `after`. A
/// rule goes before the load balancing algorithm, which is asked only where it
/// has a choice, and nothing but the algorithm changes.
pub open spec fn chosen(
    before: Config,
    after: Config,
    rule: RulesView,
    host: Seq<char>,
    costs: Seq<u64>,
    r: AvailableBackend,
) -> bool {
    &&& after == (Config { balance: after.balance, ..before })
    &&& match backend_under_rule(rule) {
        BackendRuleView::Direct => r == AvailableBackend::Direct && after.balance
            == before.balance,
        BackendRuleView::GotBackend(name) => r == routed(before.backends@, name) && after.balance
            == before.balance,
        BackendRuleView::NoRule => {
            let items = available(before.backends@, costs);
            if items.len() == 0 {
                r == AvailableBackend::NoBackend && after.balance == before.balance
            } else if items.len() == 1 {
                r == AvailableBackend::GotBackend(items[0].id) && after.balance == before.balance
            } else {
                exists|item: Option<ConfigBackend>|
                    #[trigger] balanced(before.balance, after.balance, items, host, item) && r
                        == match item {
                        Some(c) => AvailableBackend::GotBackend(c.id),
                        None => AvailableBackend::NoBackend,
                    }
            }
        },
    }
}

/// The backends to choose among are those that are up, each with its place and its load.
pub proof fn lemma_available(backends: Seq<Backend>, costs: Seq<u64>)
    requires
        backends.len() <= usize::MAX,
    ensures
        forall|k: int|
            #![trigger available(backends, costs)[k]]
            0 <= k < available(backends, costs).len() ==> {
                let c = available(backends, costs)[k];
                c.id < backends.len() && backends[c.id as int].status() is Normal && c.cost
                    == costs[c.id as int]
            },
        forall|k: int|
            0 <= k < backends.len() && (#[trigger] backends[k]).status() is Normal ==> available(
                backends,
                costs,
            ).contains(ConfigBackend { id: k as usize, cost: costs[k] }),
    decreases backends.len(),
{
    if backends.len() > 0 {
        let front = backends.drop_last();
        lemma_available(front, costs);
        let all = available(backends, costs);
        let before = available(front, costs);
        assert forall|k: int| #![trigger all[k]] 0 <= k < all.len() implies {
            let c = all[k];
            c.id < backends.len() && backends[c.id as int].status() is Normal && c.cost
                == costs[c.id as int]
        } by {
            if k < before.len() {
                assert(all[k] == before[k]);
                assert(front[before[k].id as int] == backends[before[k].id as int]);
            }
        }
        assert forall|k: int|
            0 <= k < backends.len() && (#[trigger] backends[k]).status() is Normal implies all.contains(
            ConfigBackend { id: k as usize, cost: costs[k] },
        ) by {
            let c = ConfigBackend { id: k as usize, cost: costs[k] };
            if k < front.len() {
                assert(front[k] == backends[k]);
                let j = choose|j: int| 0 <= j < before.len() && before[j] == c;
                assert(all[j] == c);
            } else {
                assert(all[all.len() - 1] == c);
            }
        }
    }
}

/// The configuration of a client before its backends are set up.
pub struct ConfigStart {
    pub listen_address: SocketAddr,
    pub metric_address: SocketAddr,
    pub log_level: LogLevel,
    pub balance: Balancer,
    pub host_rule: Option<HostRuler>,
    pub proxy_uri: Uri,
}

/// The configuration before the backends is what the command line, the file, the
/// rules and the environment ask for.
pub open spec fn started(
    opts: Cmd,
    file: FileConfig,
    rules: RuleFile,
    log_env: Option<String>,
    start: ConfigStart,
) -> bool {
    &&& address_of(listen_text(opts, file)) == Some(start.listen_address)
    &&& address_of(file.metric_address@) == Some(start.metric_address)
    &&& start.log_level == match level_from_text(
        match log_env {
            Some(value) => value@,
            None => file.log_level@,
        },
    ) {
        Some(level) => level,
        None => LogLevel::Error,
    }
    &&& proxy_uri_of(start.listen_address) == Ok::<UriView, Seq<char>>(start.proxy_uri@)
    &&& ruler_map(start.host_rule) == rules_in(rules)
    &&& set_up(file.balance, file.backends@.len() as usize, start.balance)
}

impl ConfigStart {
    /// Configures a client but for its backends. The command line goes before the
    /// file for the listen address, and the environment for the log level.
    pub fn new(
        opts: Cmd,
        file: &FileConfig,
        rules: RuleFile,
        log_env: Option<String>,
    ) -> (r: Result<Self, ConfigError>)
        ensures
            match early_error(opts, *file, rules) {
                Some(error) => r matches Err(e) && e@ == error,
                None => r matches Ok(start) && started(opts, *file, rules, log_env, start),
            },
    {
        let listen: &str = match &opts.listen_address {
            Some(address) => address.as_str(),
            None => file.listen_address.as_str(),
        };
        let listen_address: SocketAddr = match parse_socket_address(listen) {
            Ok(addr) => addr,
            Err(_) => {
                return Err(ConfigError::ListenAddress);
            },
        };
        let metric_address: SocketAddr = match parse_socket_address(file.metric_address.as_str()) {
            Ok(addr) => addr,
            Err(_) => {
                return Err(ConfigError::MetricAddress);
            },
        };
        let log_level = parse_log_level_str(file.log_level.as_str(), log_env);
        let uri_text = followed_by("http://", format_socket(listen_address).as_str());
        let proxy_uri = match parse_uri(uri_text.as_str()) {
            Ok(uri) => uri,
            Err(cause) => {
                return Err(ConfigError::ProxyUri(cause));
            },
        };
        let host_rule = match rules {
            RuleFile::NotGiven => None,
            RuleFile::CannotOpen(cause) => {
                return Err(ConfigError::OpenRules(cause));
            },
            RuleFile::Invalid(cause) => {
                return Err(ConfigError::ParseRules(cause));
            },
            RuleFile::Sections(sections) => HostRuler::new(sections),
        };
        let balance = populate_load_balance(file.balance, file.backends.len());
        Ok(
            ConfigStart {
                listen_address,
                metric_address,
                log_level,
                balance,
                host_rule,
                proxy_uri,
            },
        )
    }
}

/// Whether `r` is what configuring a client can come to. Setting the backends up
/// may still fail, for instance where rustls refuses a key.
pub open spec fn config_built(opts: Cmd, loaded: Loaded, r: Result<Config, ConfigError>) -> bool {
    match early_error(opts, loaded.file, loaded.rules) {
        Some(error) => r matches Err(e) && e@ == error,
        None => match r {
            Ok(config) => {
                &&& config.wf()
                &&& started(
                    opts,
                    loaded.file,
                    loaded.rules,
                    loaded.log_env,
                    ConfigStart {
                        listen_address: config.listen_address,
                        metric_address: config.metric_address,
                        log_level: config.log_level,
                        balance: config.balance,
                        host_rule: config.host_rule,
                        proxy_uri: config.proxy_uri,
                    },
                )
                &&& backends_match(config.backends@, loaded.file.backends@, loaded.files@)
            },
            Err(e) => e matches ConfigError::Backend(error) && backend_error(
                loaded.file.backends@,
                loaded.files@,
                error,
            ),
        },
    }
}

/// A client whose addresses and rules are in order and whose backends can be set up
/// is configured.
pub proof fn law_good_configuration(opts: Cmd, loaded: Loaded, r: Result<Config, ConfigError>)
    requires
        early_error(opts, loaded.file, loaded.rules) is None,
        all_can_be_set_up(loaded.file.backends@, loaded.files@),
        config_built(opts, loaded, r),
    ensures
        r is Ok,
{
    if let Err(e) = r {
        let error = e->Backend_0;
        let i = choose|i: int|
            #[trigger] fails_at(loaded.file.backends@, loaded.files@, error, i);
        assert(can_be_set_up(loaded.file.backends@[i].1, loaded.files@[i]));
    }
}

/// What is known of the rules for a host once the configuration was asked.
pub open spec fn rule_for(config: Config, hostname: Seq<char>, known: RulesView) -> RulesView {
    match config.host_rule {
        Some(ruler) => looked_up(ruler@, hostname, known),
        None => known,
    }
}

impl Config {
    /// Every backend is in order.
    pub open spec fn wf(&self) -> bool {
        forall|i: int| 0 <= i < self.backends@.len() ==> (#[trigger] self.backends@[i]).wf()
    }

    /// Configures a client. The command line goes before the file for the listen
    /// address, and the environment for the log level.
    pub fn new(opts: Cmd, loaded: Loaded) -> (r: Result<Self, ConfigError>)
        requires
            loaded.wf(),
        ensures
            config_built(opts, loaded, r),
            early_error(opts, loaded.file, loaded.rules) is None && all_can_be_set_up(
                loaded.file.backends@,
                loaded.files@,
            ) ==> r is Ok,
    {
        let start = match ConfigStart::new(opts, &loaded.file, loaded.rules, loaded.log_env) {
            Ok(start) => start,
            Err(e) => {
                return Err(e);
            },
        };
        Config::with_backends(start, populate_backends(loaded.file.backends, &loaded.files))
    }

    /// The configuration of a client, given what came of setting its backends up.
    pub fn with_backends(start: ConfigStart, built: Result<Vec<Backend>, BackendError>) -> (r: Result<
        Self,
        ConfigError,
    >)
        ensures
            match built {
                Ok(backends) => r == Ok::<Config, ConfigError>(
                    Config {
                        listen_address: start.listen_address,
                        metric_address: start.metric_address,
                        log_level: start.log_level,
                        balance: start.balance,
                        backends,
                        host_rule: start.host_rule,
                        proxy_uri: start.proxy_uri,
                    },
                ),
                Err(e) => r == Err::<Config, ConfigError>(ConfigError::Backend(e)),
            },
    {
        match built {
            Ok(backends) => Ok(
                Config {
                    listen_address: start.listen_address,
                    metric_address: start.metric_address,
                    log_level: start.log_level,
                    balance: start.balance,
                    backends,
                    host_rule: start.host_rule,
                    proxy_uri: start.proxy_uri,
                },
            ),
            Err(e) => Err(ConfigError::Backend(e)),
        }
    }

    /// The backends that are up, in order.
    pub fn available_backends(&self, costs: &Vec<u64>) -> (r: Vec<ConfigBackend>)
        requires
            costs@.len() == self.backends@.len(),
        ensures
            r@ == available(self.backends@, costs@),
    {
        let mut r: Vec<ConfigBackend> = Vec::new();
        let mut i: usize = 0;
        assert(self.backends@.take(0) =~= Seq::empty());
        while i < self.backends.len()
            invariant
                i <= self.backends@.len(),
                costs@.len() == self.backends@.len(),
                r@ == available(self.backends@.take(i as int), costs@),
            decreases self.backends@.len() - i,
        {
            assert(self.backends@.take(i + 1).drop_last() =~= self.backends@.take(i as int));
            assert(self.backends@.take(i + 1).last() == self.backends@[i as int]);
            if let BackendStatus::Normal = self.backends[i].get_status() {
                r.push(ConfigBackend { id: i, cost: costs[i] });
            }
            i = i + 1;
        }
        assert(self.backends@.take(i as int) =~= self.backends@);
        r
    }

    /// The place of the first backend of a name.
    fn find_by_name(&self, name: &str) -> (r: Option<usize>)
        ensures
            match r {
                Some(i) => i < self.backends@.len() && named(self.backends@, name@, 0) == Some(
                    i as int,
                ),
                None => named(self.backends@, name@, 0) is None,
            },
    {
        let mut i: usize = 0;
        while i < self.backends.len()
            invariant
                i <= self.backends@.len(),
                named(self.backends@, name@, 0) == named(self.backends@, name@, i as int),
            decreases self.backends@.len() - i,
        {
            if same_text(self.backends[i].get_backend_name(), name) {
                return Some(i);
            }
            i = i + 1;
        }
        None
    }

    /// Where a request of a peer goes. A rule for its host decides first: the
    /// request goes there directly, or to the backend that the rule names if that
    /// is up, and else nowhere. Without a rule the load balancing algorithm picks
    /// among the backends that are up.
    pub fn next_available_backend(&mut self, peer: &PeerInfo, costs: &Vec<u64>) -> (r:
        AvailableBackend)
        requires
            old(self).wf(),
            costs@.len() == old(self).backends@.len(),
        ensures
            final(self).wf(),
            chosen(*old(self), *final(self), peer.rule(), peer.host(), costs@, r),
            r matches AvailableBackend::GotBackend(i) ==> i < old(self).backends@.len()
                && old(self).backends@[i as int].status() is Normal,
    {
        match peer.get_backend_name_by_rule() {
            PeerBackendRule::NoRule => {},
            PeerBackendRule::GotBackend(name) => {
                if let Some(i) = self.find_by_name(name) {
                    if let BackendStatus::Normal = self.backends[i].get_status() {
                        return AvailableBackend::GotBackend(i);
                    }
                }
                return AvailableBackend::Block;
            },
            PeerBackendRule::Direct => {
                return AvailableBackend::Direct;
            },
        }
        let items = self.available_backends(costs);
        let total: usize = self.backends.len();
        proof {
            assert(total == self.backends@.len());
            lemma_available(self.backends@, costs@);
        }
        if items.len() == 0 {
            return AvailableBackend::NoBackend;
        }
        if items.len() == 1 {
            return AvailableBackend::GotBackend(items[0].id);
        }
        let item = self.balance.next_available_backend(items.as_slice(), peer);
        match item {
            Some(c) => AvailableBackend::GotBackend(c.id),
            None => AvailableBackend::NoBackend,
        }
    }

    /// Looks the rule for the host of a peer up, where there are rules.
    pub fn find_rule_for_peer(&self, peer: &mut PeerInfo)
        requires
            old(peer).wf(),
        ensures
            final(peer).wf(),
            final(peer).same_peer(old(peer)),
            final(peer).rule() == rule_for(*self, old(peer).hostname(), old(peer).rule()),
    {
        if let Some(ruler) = &self.host_rule {
            ruler.find_rule(peer);
        }
    }
}

impl Cmd {
    /// Configures the client that the command line asks for, given what was read or
    /// the messages where the configuration file could not be loaded. An error is
    /// given as its messages, from the outside in.
    pub fn run(self, loaded: Result<Loaded, Vec<String>>) -> (r: Result<Config, Vec<String>>)
        requires
            loaded matches Ok(loaded) ==> loaded.wf(),
        ensures
            match loaded {
                Err(cause) => r matches Err(messages) && texts(messages@) == load_messages(
                    texts(cause@),
                ),
                Ok(loaded) => match r {
                    Ok(config) => config_built(self, loaded, Ok(config)),
                    Err(messages) => exists|e: ConfigError|
                        config_built(self, loaded, Err(e)) && texts(messages@)
                            == config_messages(#[trigger] e.view()),
                },
            },
            loaded matches Ok(loaded) ==> early_error(self, loaded.file, loaded.rules) is None
                && all_can_be_set_up(loaded.file.backends@, loaded.files@) ==> r is Ok,
    {
        match loaded {
            Err(cause) => Err(load_failure(cause)),
            Ok(loaded) => match Config::new(self, loaded) {
                Ok(config) => Ok(config),
                Err(e) => Err(e.messages()),
            },
        }
    }
}

/// How many backends are up.
pub open spec fn up_count(backends: Seq<Backend>) -> nat
    decreases backends.len(),
{
    if backends.len() == 0 {
        0
    } else {
        up_count(backends.drop_last()) + if backends.last().status() is Normal {
            1nat
        } else {
            0
        }
    }
}

/// One backend that goes from up to any other status makes one backend fewer that
/// is up. So a request that tries backend after backend, each of which fails,
/// comes to an end unless others come up meanwhile.
pub proof fn law_a_failure_leaves_fewer(before: Seq<Backend>, after: Seq<Backend>, k: int)
    requires
        0 <= k < before.len(),
        after.len() == before.len(),
        forall|i: int| 0 <= i < before.len() && i != k ==> after[i] == before[i],
        before[k].status() is Normal,
        !(after[k].status() is Normal),
    ensures
        up_count(after) == up_count(before) - 1,
    decreases before.len(),
{
    if k == before.len() - 1 {
        assert(after.drop_last() =~= before.drop_last());
    } else {
        assert(after.last() == before.last());
        law_a_failure_leaves_fewer(before.drop_last(), after.drop_last(), k);
    }
}

/// A host for which a rule names a backend never goes to another one.
pub proof fn law_routed_to_its_backend(backends: Seq<Backend>, name: Seq<char>)
    requires
        backends.len() <= usize::MAX,
    ensures
        match routed(backends, name) {
            AvailableBackend::GotBackend(i) => i < backends.len() && backends[i as int].name()
                == name && backends[i as int].status() is Normal,
            AvailableBackend::Block => true,
            _ => false,
        },
{
    lemma_named(backends, name, 0);
}

proof fn lemma_named(backends: Seq<Backend>, name: Seq<char>, from: int)
    requires
        0 <= from,
    ensures
        named(backends, name, from) matches Some(i) ==> from <= i < backends.len()
            && backends[i].name() == name,
    decreases backends.len() - from,
{
    if from < backends.len() && backends[from].name() != name {
        lemma_named(backends, name, from + 1);
    }
}

/// What the command line says of the address to listen on holds, whatever the file
/// says.
pub proof fn law_command_line_wins(opts: Cmd, file: FileConfig, other: FileConfig)
    requires
        opts.listen_address is Some,
    ensures
        listen_text(opts, file) == listen_text(opts, other),
{
}

/// The addresses are what the texts for them are, each its own: where to listen is what the
/// command line says, or the file where it says nothing, and where the metrics are is what
/// the file says. The level is that of the environment or the file, and the algorithm is the
/// one in the file. A text that is no address stops the client.
pub proof fn law_started_as_asked(
    opts: Cmd,
    file: &FileConfig,
    rules: RuleFile,
    log_env: Option<String>,
    r: Result<ConfigStart, ConfigError>,
    listen: &str,
    metric: &str,
    level_text: &str,
    listen_parsed: Result<SocketAddr, AddressError>,
    metric_parsed: Result<SocketAddr, AddressError>,
    level: LogLevel,
)
    requires
        call_ensures(ConfigStart::new, (opts, file, rules, log_env), r),
        opts.listen_address matches Some(text) ==> listen@ == text@,
        opts.listen_address is None ==> listen@ == file.listen_address@,
        metric@ == file.metric_address@,
        level_text@ == file.log_level@,
        call_ensures(parse_socket_address, (listen,), listen_parsed),
        call_ensures(parse_socket_address, (metric,), metric_parsed),
        call_ensures(parse_log_level_str, (level_text, log_env), level),
    ensures
        r matches Ok(start) ==> {
            &&& listen_parsed == Ok::<SocketAddr, AddressError>(start.listen_address)
            &&& metric_parsed == Ok::<SocketAddr, AddressError>(start.metric_address)
            &&& start.log_level == level
            &&& file.balance is RoundRobin <==> start.balance is RoundRobin
            &&& file.balance is Random <==> start.balance is Random
            &&& file.balance is LeastLoadedTime <==> start.balance is LeastLoadedTime
            &&& file.balance is UriHash <==> start.balance is UriHash
            &&& file.balance is Frist <==> start.balance is Frist
            &&& uri_from_text(
                seq!['h', 't', 't', 'p', ':', '/', '/'] + socket_addr_text(start.listen_address),
            ) == Ok::<UriView, Seq<char>>(start.proxy_uri@)
        },
        listen_parsed is Err ==> (r matches Err(e) && e is ListenAddress),
        listen_parsed is Ok && metric_parsed is Err ==> (r matches Err(e) && e is MetricAddress),
        r matches Err(ConfigError::OpenRules(cause)) ==> (rules matches RuleFile::CannotOpen(said)
            && said@ == cause@),
        r matches Err(ConfigError::ParseRules(cause)) ==> (rules matches RuleFile::Invalid(said)
            && said@ == cause@),
        rules is CannotOpen || rules is Invalid ==> r is Err,
{
    reveal_strlit("http://");
    assert("http://"@ =~= seq!['h', 't', 't', 'p', ':', '/', '/']);
}

/// A client has the backends that its file names, in that order, each by its own name, its own
/// part of the file and its own files, and the rest as it was started.
pub proof fn law_client_has_its_backends(
    opts: Cmd,
    loaded: Loaded,
    config: Config,
    i: int,
    metric: &str,
    metric_parsed: Result<SocketAddr, AddressError>,
    listen: &str,
    listen_parsed: Result<SocketAddr, AddressError>,
)
    requires
        call_ensures(Config::new, (opts, loaded), Ok::<Config, ConfigError>(config)),
        opts.listen_address matches Some(text) ==> listen@ == text@,
        opts.listen_address is None ==> listen@ == loaded.file.listen_address@,
        metric@ == loaded.file.metric_address@,
        call_ensures(parse_socket_address, (metric,), metric_parsed),
        call_ensures(parse_socket_address, (listen,), listen_parsed),
    ensures
        config.backends@.len() == loaded.file.backends@.len(),
        0 <= i < config.backends@.len() ==> {
            let backend = config.backends@[i];
            let said = loaded.file.backends@[i];
            &&& backend.name() == said.0@
            &&& backend.config() == said.1
            &&& backend.metrics().address() == said.1.address@
            &&& backend.retry_secs() == said.1.retry_timeout
            &&& backend.retry_limit() == said.1.max_retries
            &&& said.1.status matches Some(status) ==> backend.data().status == status
            &&& said.1.status is None ==> backend.data().status is Normal
            &&& backend.data().protocol == said.1.protocol
            &&& backend.data().active_connections == 0
            &&& backend.data().failures == 0
            &&& backend.mix_client() is H2 <==> said.1.protocol is HTTP2
            &&& loaded.files@[i].give(backend.mix_client()@.tls())
        },
        listen_parsed == Ok::<SocketAddr, AddressError>(config.listen_address),
        metric_parsed == Ok::<SocketAddr, AddressError>(config.metric_address),
        loaded.file.balance is RoundRobin <==> config.balance is RoundRobin,
        loaded.file.balance is UriHash <==> config.balance is UriHash,
        loaded.file.balance is LeastLoadedTime <==> config.balance is LeastLoadedTime,
        loaded.file.balance is Random <==> config.balance is Random,
{
}

/// The backends to choose among are exactly those that are up, in their order, each with its
/// own place and its own load.
pub proof fn law_backends_that_are_up(
    config: &Config,
    costs: &Vec<u64>,
    items: Vec<ConfigBackend>,
    i: int,
    j: int,
    k: int,
)
    requires
        call_ensures(Config::available_backends, (config, costs), items),
        config.backends@.len() <= usize::MAX,
    ensures
        0 <= i < items@.len() ==> items@[i].id < config.backends@.len()
            && config.backends@[items@[i].id as int].data().status is Normal && items@[i].cost
            == costs@[items@[i].id as int],
        0 <= i < j < items@.len() ==> items@[i].id < items@[j].id,
        0 <= k < config.backends@.len() && config.backends@[k].data().status is Normal ==> exists|
            n: int,
        |
            0 <= n < items@.len() && #[trigger] items@[n] == (ConfigBackend {
                id: k as usize,
                cost: costs@[k],
            }),
{
    lemma_available(config.backends@, costs@);
    if 0 <= i < j < items@.len() {
        lemma_available_in_order(config.backends@, costs@, i, j);
    }
    if 0 <= k < config.backends@.len() && config.backends@[k].data().status is Normal {
        assert(config.backends@[k].status() is Normal);
        assert(items@.contains(ConfigBackend { id: k as usize, cost: costs@[k] }));
    }
}

proof fn lemma_available_in_order(backends: Seq<Backend>, costs: Seq<u64>, i: int, j: int)
    requires
        backends.len() <= usize::MAX,
        0 <= i < j < available(backends, costs).len(),
    ensures
        available(backends, costs)[i].id < available(backends, costs)[j].id,
    decreases backends.len(),
{
    if backends.len() > 0 {
        let front = available(backends.drop_last(), costs);
        lemma_available(backends.drop_last(), costs);
        if j < front.len() {
            lemma_available_in_order(backends.drop_last(), costs, i, j);
        } else {
            assert(available(backends, costs)[i] == front[i]);
        }
    }
}

/// Where a request goes goes by its rule first: to the host itself where the rule says so,
/// whatever backend it names, and else to the first backend of the name in the rule if that is
/// up, and nowhere if it is not or if there is none. The algorithm is then not asked.
pub proof fn law_rule_goes_first(
    config: &mut Config,
    peer: &PeerInfo,
    costs: &Vec<u64>,
    r: AvailableBackend,
    section: SectionView,
    wanted: Seq<char>,
    k: int,
)
    requires
        call_ensures(Config::next_available_backend, (config, peer, costs), r),
        peer.rule() == RulesView::GotRule(section),
        old(config).backends@.len() <= usize::MAX,
    ensures
        section.direct <==> r is Direct,
        !section.direct && section.backend == Some(wanted) ==> {
            &&& r is Block || r is GotBackend
            &&& r matches AvailableBackend::GotBackend(i) ==> old(config).backends@[i as int].name() == wanted
            &&& 0 <= k < old(config).backends@.len() && old(config).backends@[k].name() == wanted
                && (forall|j: int|
                0 <= j < k ==> (#[trigger] old(config).backends@[j]).name() != wanted) ==> r == (
            if old(config).backends@[k].data().status is Normal {
                AvailableBackend::GotBackend(k as usize)
            } else {
                AvailableBackend::Block
            })
            &&& (forall|j: int|
                0 <= j < old(config).backends@.len() ==> (#[trigger] old(config).backends@[j]).name() != wanted) ==> r is Block
        },
        section.direct || section.backend is Some ==> *final(config) == *old(config),
        *final(config) == (Config { balance: final(config).balance, ..*old(config) }),
{
    let backends = old(config).backends@;
    if section.backend == Some(wanted) {
        lemma_named(backends, wanted, 0);
        lemma_first_named(backends, wanted, 0);
    }
}

proof fn lemma_first_named(backends: Seq<Backend>, name: Seq<char>, from: int)
    requires
        0 <= from,
    ensures
        match named(backends, name, from) {
            Some(i) => forall|j: int| from <= j < i ==> (#[trigger] backends[j]).name() != name,
            None => forall|j: int|
                from <= j < backends.len() ==> (#[trigger] backends[j]).name() != name,
        },
    decreases backends.len() - from,
{
    if from < backends.len() && backends[from].name() != name {
        lemma_first_named(backends, name, from + 1);
    }
}

/// Without a rule on its backend a request goes to a backend that is up: to the only one
/// where there is one, and to none only where none is up, but that picking in turn may come to
/// a place past those that are left. Picking by load takes none with a higher load than
/// another, picking the first takes the first that is up.
pub proof fn law_request_goes_to_a_backend_that_is_up(
    config: &mut Config,
    peer: &PeerInfo,
    costs: &Vec<u64>,
    r: AvailableBackend,
    k: int,
)
    requires
        call_ensures(Config::next_available_backend, (config, peer, costs), r),
        peer.rule() matches RulesView::GotRule(section) ==> !section.direct && section.backend
            is None,
        old(config).backends@.len() <= usize::MAX,
        0 <= k < old(config).backends@.len(),
    ensures
        r is GotBackend || r is NoBackend,
        r matches AvailableBackend::GotBackend(i) ==> i < old(config).backends@.len() && old(config).backends@[i as int].data().status is Normal,
        (forall|j: int|
            0 <= j < old(config).backends@.len() ==> !((#[trigger] old(config).backends@[j]).data().status is Normal)) ==> r is NoBackend,
        old(config).backends@[k].data().status is Normal && (forall|j: int|
            0 <= j < old(config).backends@.len() && j != k ==> !((#[trigger] old(config).backends@[j]).data().status is Normal)) ==> r == AvailableBackend::GotBackend(
            k as usize,
        ) && *final(config) == *old(config),
        old(config).backends@[k].data().status is Normal && !(old(config).balance is RoundRobin)
            ==> r is GotBackend,
        old(config).balance is LeastLoadedTime && old(config).backends@[k].data().status is Normal
            ==> (r matches AvailableBackend::GotBackend(i) && costs@[i as int] <= costs@[k]),
        old(config).balance is Frist && old(config).backends@[k].data().status is Normal ==> (r
            matches AvailableBackend::GotBackend(i) && i <= k),
{
    let backends = old(config).backends@;
    let items = available(backends, costs@);
    lemma_available(backends, costs@);
    if items.len() > 0 {
        assert(backends[items[0].id as int].status() is Normal);
    }
    if backends[k].data().status is Normal {
        assert(backends[k].status() is Normal);
        let n = choose|n: int|
            0 <= n < items.len() && items[n] == (ConfigBackend { id: k as usize, cost: costs@[k] });
        if n > 0 {
            lemma_available_in_order(backends, costs@, 0, n);
        }
        if items.len() > 1 {
            assert(backends[items[1].id as int].status() is Normal);
            lemma_available_in_order(backends, costs@, 0, 1);
            let item = choose|item: Option<ConfigBackend>|
                #[trigger] balanced(
                    old(config).balance,
                    final(config).balance,
                    items,
                    peer.host(),
                    item,
                ) && r == match item {
                    Some(c) => AvailableBackend::GotBackend(c.id),
                    None => AvailableBackend::NoBackend,
                };
            if old(config).balance is LeastLoadedTime {
                let m = choose|m: int| #[trigger] is_least_loaded(items, m) && item->0 == items[m];
                assert(items[m].cost <= items[n].cost);
            }
        }
    }
}

/// Picking by the host among backends that are all up takes the backend that the ring has for
/// the host, so that two hosts with different nodes go to different backends.
pub proof fn law_host_goes_to_the_backend_of_its_node(
    config: &mut Config,
    peer: &PeerInfo,
    costs: &Vec<u64>,
    r: AvailableBackend,
    node: usize,
)
    requires
        call_ensures(Config::next_available_backend, (config, peer, costs), r),
        !(peer.rule() is GotRule),
        old(config).balance is UriHash,
        1 < old(config).backends@.len() <= usize::MAX,
        node < old(config).backends@.len(),
        forall|j: int|
            0 <= j < old(config).backends@.len() ==> (#[trigger] old(config).backends@[j]).data().status is Normal,
    ensures
        ring_lookup(old(config).balance->UriHash_0.points(), peer.host()) == Some(node) ==> r
            == AvailableBackend::GotBackend(node),
{
    let backends = old(config).backends@;
    lemma_all_available(backends, costs@);
}

proof fn lemma_all_available(backends: Seq<Backend>, costs: Seq<u64>)
    requires
        backends.len() <= usize::MAX,
        forall|j: int|
            0 <= j < backends.len() ==> (#[trigger] backends[j]).data().status is Normal,
    ensures
        available(backends, costs).len() == backends.len(),
        forall|j: int|
            0 <= j < backends.len() ==> #[trigger] available(backends, costs)[j] == (
            ConfigBackend { id: j as usize, cost: costs[j] }),
    decreases backends.len(),
{
    if backends.len() > 0 {
        let front = backends.drop_last();
        assert forall|j: int| 0 <= j < front.len() implies (
        #[trigger] front[j]).data().status is Normal by {
            assert(front[j] == backends[j]);
        }
        assert(backends[backends.len() - 1].data().status is Normal);
        lemma_all_available(front, costs);
    }
}

/// A peer gets the rule that the configuration has for the name of its host, none where that
/// has none, and what it knew where the configuration has no rules at all.
pub proof fn law_rule_of_the_configuration(
    config: &Config,
    peer: &mut PeerInfo,
    name: Seq<char>,
    port: Seq<char>,
)
    requires
        call_ensures(Config::find_rule_for_peer, (config, peer), ()),
        old(peer).host() == name + seq![':'] + port,
        forall|j: int| 0 <= j < port.len() ==> port[j] != ':',
        old(peer).rule() is Unknown,
    ensures
        final(peer).host() == old(peer).host(),
        final(peer).addr() == old(peer).addr(),
        config.host_rule is None ==> final(peer).rule() is Unknown,
        config.host_rule matches Some(ruler) ==> final(peer).rule() == (if ruler@.contains_key(
            name,
        ) {
            RulesView::GotRule(ruler@[name])
        } else {
            RulesView::NoRule
        }),
{
    lemma_hostname(old(peer).host(), name, port);
}

/// A client has what it was started with and the backends that were set up for it, and is not
/// configured where they could not be, for the same reason.
pub proof fn law_client_with_its_backends(
    start: ConfigStart,
    built: Result<Vec<Backend>, BackendError>,
    r: Result<Config, ConfigError>,
)
    requires
        call_ensures(Config::with_backends, (start, built), r),
    ensures
        r is Ok <==> built is Ok,
        r matches Ok(config) ==> {
            &&& built == Ok::<Vec<Backend>, BackendError>(config.backends)
            &&& config.listen_address == start.listen_address
            &&& config.metric_address == start.metric_address
            &&& config.log_level == start.log_level
            &&& config.balance == start.balance
            &&& config.host_rule == start.host_rule
            &&& config.proxy_uri == start.proxy_uri
        },
        built matches Err(error) ==> (r matches Err(ConfigError::Backend(e)) && e == error),
{
}

/// Backends are set up in the order of the file, each by its own name and part of the file.
pub proof fn law_backends_in_the_order_of_the_file(
    configs: Vec<(String, FileBackendConfig)>,
    files: &Vec<ClientFiles>,
    backends: Vec<Backend>,
    i: int,
)
    requires
        call_ensures(
            populate_backends,
            (configs, files),
            Ok::<Vec<Backend>, BackendError>(backends),
        ),
        0 <= i < configs@.len(),
    ensures
        backends@.len() == configs@.len(),
        backends@[i].name() == configs@[i].0@,
        backends@[i].config() == configs@[i].1,
        backends@[i].mix_client() is H2 <==> configs@[i].1.protocol is HTTP2,
        files@[i].give(backends@[i].mix_client()@.tls()),
{
}

/// The messages of an error begin with that of the client and go on with what the error says.
/// A cause comes last, and where backends could not be set up all that lies behind it does, in
/// its order.
pub proof fn law_messages_of_a_client(
    error: ConfigError,
    list: Vec<String>,
    said: String,
    cause: String,
    inner: BackendError,
    behind: Vec<String>,
    i: int,
)
    requires
        call_ensures(ConfigError::messages, (&error,), list),
        call_ensures(ConfigError::message, (&error,), said),
        call_ensures(BackendError::causes, (&inner,), behind),
    ensures
        list@.len() >= 3,
        list@[1]@ == said@,
        error == ConfigError::ProxyUri(cause) || error == ConfigError::OpenRules(cause) || error
            == ConfigError::ParseRules(cause) ==> list@.last()@ == cause@,
        error == ConfigError::Backend(inner) ==> list@.len() == behind@.len() + 4 && (0 <= i
            < behind@.len() ==> list@[i + 4]@ == behind@[i]@),
{
    let all = texts(list@);
    assert(all.len() == list@.len());
    assert(all == config_messages(error@));
    assert(all[1] == list@[1]@);
    assert(all.last() == list@.last()@);
    if error == ConfigError::Backend(inner) {
        assert(texts(behind@).len() == behind@.len());
        if 0 <= i < behind@.len() {
            assert(texts(behind@)[i] == behind@[i]@);
            assert(all[i + 4] == list@[i + 4]@);
        }
    }
}

/// A client whose file could not be loaded says so, and then what the cause says, in its order.
pub proof fn law_messages_of_a_load(cause: Vec<String>, r: Vec<String>, i: int)
    requires
        call_ensures(load_failure, (cause,), r),
    ensures
        r@.len() == cause@.len() + 2,
        0 <= i < cause@.len() ==> r@[i + 2]@ == cause@[i]@,
{
    let all = texts(r@);
    assert(all.len() == r@.len());
    assert(texts(cause@).len() == cause@.len());
    if 0 <= i < cause@.len() {
        assert(texts(cause@)[i] == cause@[i]@);
        assert(all[i + 2] == r@[i + 2]@);
    }
}

/// The command line configures a client as its configuration does, or says why not.
pub proof fn law_command_configures_a_client(
    opts: Cmd,
    loaded: Loaded,
    r: Result<Config, Vec<String>>,
    listen: &str,
    parsed: Result<SocketAddr, AddressError>,
)
    requires
        call_ensures(Cmd::run, (opts, Ok::<Loaded, Vec<String>>(loaded)), r),
        opts.listen_address matches Some(text) ==> listen@ == text@,
        opts.listen_address is None ==> listen@ == loaded.file.listen_address@,
        call_ensures(parse_socket_address, (listen,), parsed),
    ensures
        parsed is Err ==> r is Err,
        r matches Ok(config) ==> {
            &&& parsed == Ok::<SocketAddr, AddressError>(config.listen_address)
            &&& config.backends@.len() == loaded.file.backends@.len()
        },
        r matches Err(messages) ==> messages@.len() >= 3,
{
    if let Err(messages) = r {
        let e = choose|e: ConfigError|
            config_built(opts, loaded, Err(e)) && texts(messages@) == config_messages(
                #[trigger] e.view(),
            );
        assert(texts(messages@).len() == messages@.len());
    }
}

/// Picking in turn among backends that are all up, two requests go to backends that are
/// neighbours, the first after the last, whoever asks.
pub proof fn law_requests_go_in_turn(
    first: &mut Config,
    second: &mut Config,
    peer: &PeerInfo,
    other: &PeerInfo,
    costs: &Vec<u64>,
    other_costs: &Vec<u64>,
    x: AvailableBackend,
    y: AvailableBackend,
    place: usize,
)
    requires
        call_ensures(Config::next_available_backend, (first, peer, costs), x),
        *old(second) == *final(first),
        call_ensures(Config::next_available_backend, (second, other, other_costs), y),
        !(peer.rule() is GotRule),
        !(other.rule() is GotRule),
        old(first).balance is RoundRobin,
        old(first).balance->RoundRobin_0.index() == place,
        place < old(first).backends@.len() <= usize::MAX,
        1 < old(first).backends@.len(),
        forall|j: int|
            0 <= j < old(first).backends@.len() ==> (#[trigger] old(first).backends@[j]).data().status is Normal,
    ensures
        x == AvailableBackend::GotBackend(place),
        place + 1 < old(first).backends@.len() ==> y == AvailableBackend::GotBackend(
            (place + 1) as usize,
        ),
        place + 1 == old(first).backends@.len() ==> y == AvailableBackend::GotBackend(0),
{
    let backends = old(first).backends@;
    lemma_all_available(backends, costs@);
    lemma_all_available(backends, other_costs@);
    if place + 1 < backends.len() {
        vstd::arithmetic::div_mod::lemma_small_mod((place + 1) as nat, backends.len());
    } else {
        vstd::arithmetic::div_mod::lemma_mod_self_0(backends.len() as int);
    }
}

} // verus!
