//! The peer of a connection and the host that it asks for.

use vstd::prelude::*;
use vstd::string::StrSliceExecFns;
use vstd::utf8::{encode_utf8, encode_utf8_decode_utf8, encode_utf8_valid_utf8};
use crate::addr::SocketAddr;
use crate::client::rules::{HostRules, RulesView, SectionView};
use crate::proxy::{
    buffer, bytes_mut_content, lemma_encode_concat, put_slice, put_u8, ConnectHeadBuf,
};
use crate::text::{lemma_rfind, rfind, rfind_char};

verus! {

/// The port of a host that names none.
pub const DEFAULT_PORT: &'static str = "80";

/// Where the port begins in a host.
#[derive(Clone, Copy, PartialEq, Eq, Structural, Hash, Debug)]
pub enum HostPortIndex {
    /// There is none, and the default port is meant.
    Default,
    /// After the colon at this character.
    NonDafault(usize),
}

impl HostPortIndex {
    /// Looks for the last colon of a host.
    pub fn new(host: &str) -> (r: Self)
        ensures
            match r {
                HostPortIndex::NonDafault(i) => rfind(host@, ':') == Some(i as int),
                HostPortIndex::Default => rfind(host@, ':') is None,
            },
    {
        match rfind_char(host, ':') {
            Some(i) => HostPortIndex::NonDafault(i),
            None => HostPortIndex::Default,
        }
    }
}

/// A host without its port: what stands before its last colon.
pub open spec fn hostname_of(host: Seq<char>) -> Seq<char> {
    match rfind(host, ':') {
        Some(i) => host.take(i),
        None => host,
    }
}

/// The port of a host: what stands after its last colon, or the default port.
pub open spec fn port_of(host: Seq<char>) -> Seq<char> {
    match rfind(host, ':') {
        Some(i) => host.skip(i + 1),
        None => "80"@,
    }
}

/// A host with its port filled in.
pub open spec fn valid_host(host: Seq<char>) -> Seq<char> {
    match rfind(host, ':') {
        Some(_) => host,
        None => host + seq![':'] + "80"@,
    }
}

/// A host under another name, with the port that it had.
pub open spec fn rewritten_host(host: Seq<char>, name: Seq<char>) -> Seq<char> {
    name + seq![':'] + port_of(host)
}

/// The host to connect to under a rule.
pub open spec fn host_under_rule(host: Seq<char>, rule: RulesView) -> Seq<char> {
    match rule {
        RulesView::GotRule(section) => match section.rewrite {
            Some(name) => rewritten_host(host, name),
            None => valid_host(host),
        },
        _ => valid_host(host),
    }
}

/// What a rule says of the backend.
pub enum PeerBackendRule<'a> {
    NoRule,
    Direct,
    GotBackend(&'a str),
}

/// What a rule says of the backend, as mathematical values.
pub enum BackendRuleView {
    NoRule,
    Direct,
    GotBackend(Seq<char>),
}

impl<'a> PeerBackendRule<'a> {
    /// The rule as mathematical values.
    pub open spec fn view(&self) -> BackendRuleView {
        match self {
            PeerBackendRule::NoRule => BackendRuleView::NoRule,
            PeerBackendRule::Direct => BackendRuleView::Direct,
            PeerBackendRule::GotBackend(name) => BackendRuleView::GotBackend(name@),
        }
    }
}

/// What the rules for a host say of the backend: directness goes before a named
/// backend.
pub open spec fn backend_under_rule(rule: RulesView) -> BackendRuleView {
    match rule {
        RulesView::GotRule(section) => if section.direct {
            BackendRuleView::Direct
        } else {
            match section.backend {
                Some(name) => BackendRuleView::GotBackend(name),
                None => BackendRuleView::NoRule,
            }
        },
        _ => BackendRuleView::NoRule,
    }
}

/// A peer, the host that it asks for and what is known of the rules for it.
pub struct PeerInfo {
    host: String,
    addr: SocketAddr,
    port_index: HostPortIndex,
    rule: HostRules,
}

impl PeerInfo {
    /// The host that the peer asks for.
    pub closed spec fn host(&self) -> Seq<char> {
        self.host@
    }

    /// The address of the peer.
    pub closed spec fn addr(&self) -> SocketAddr {
        self.addr
    }

    /// What is known of the rules for the host.
    pub closed spec fn rule(&self) -> RulesView {
        self.rule@
    }

    /// The host without its port.
    pub open spec fn hostname(&self) -> Seq<char> {
        hostname_of(self.host())
    }

    /// The same peer asks for the same host.
    pub open spec fn same_peer(&self, other: &PeerInfo) -> bool {
        self.host() == other.host() && self.addr() == other.addr()
    }

    /// The port is where the index says.
    pub closed spec fn wf(&self) -> bool {
        match self.port_index {
            HostPortIndex::NonDafault(i) => rfind(self.host@, ':') == Some(i as int),
            HostPortIndex::Default => rfind(self.host@, ':') is None,
        }
    }

    /// A peer that nobody looked rules up for.
    pub fn new(host: String, addr: SocketAddr) -> (r: Self)
        ensures
            r.wf(),
            r.host() == host@,
            r.addr() == addr,
            r.rule() is Unknown,
    {
        let port_index = HostPortIndex::new(host.as_str());
        PeerInfo { host, addr, port_index, rule: HostRules::Unknown }
    }

    /// The host that the peer asks for, as it came.
    pub fn get_host(&self) -> (r: &str)
        ensures
            r@ == self.host(),
    {
        self.host.as_str()
    }

    /// The host without its port: of `example.com:80` it is `example.com`.
    pub fn get_hostname(&self) -> (r: &str)
        requires
            self.wf(),
        ensures
            r@ == hostname_of(self.host()),
    {
        proof {
            lemma_rfind(self.host@, ':');
        }
        match self.port_index {
            HostPortIndex::NonDafault(i) => {
                let r = self.host.as_str().substring_char(0, i);
                assert(r@ =~= self.host@.take(i as int));
                r
            },
            HostPortIndex::Default => self.host.as_str(),
        }
    }

    /// The port of the host, or the default port.
    pub fn get_port_str(&self) -> (r: &str)
        requires
            self.wf(),
        ensures
            r@ == port_of(self.host()),
    {
        proof {
            lemma_rfind(self.host@, ':');
        }
        match self.port_index {
            HostPortIndex::NonDafault(i) => {
                let host = self.host.as_str();
                let end: usize = host.unicode_len();
                let r = host.substring_char(i + 1, end);
                assert(r@ =~= self.host@.skip(i + 1));
                r
            },
            HostPortIndex::Default => DEFAULT_PORT,
        }
    }

    /// The head that opens a tunnel to the host, with its port filled in.
    pub fn get_valid_host(&self) -> (r: ConnectHeadBuf)
        requires
            self.wf(),
        ensures
            r.wf(),
            r.host() == valid_host(self.host()),
    {
        match self.port_index {
            HostPortIndex::NonDafault(_) => ConnectHeadBuf::new(self.host.as_str()),
            HostPortIndex::Default => with_port(self.host.as_str(), self.get_port_str()),
        }
    }

    /// The address of the peer.
    pub fn get_addr(&self) -> (r: SocketAddr)
        ensures
            r == self.addr(),
    {
        self.addr
    }

    /// Notes what is known of the rules for the host.
    pub fn set_rule(&mut self, rule: HostRules)
        requires
            old(self).wf(),
        ensures
            final(self).wf(),
            final(self).same_peer(old(self)),
            final(self).rule() == rule@,
    {
        self.rule = rule;
    }

    /// What is known of the rules for the host.
    pub fn get_rule(&self) -> (r: &HostRules)
        ensures
            r@ == self.rule(),
    {
        &self.rule
    }

    /// The head that opens a tunnel to the host, under the name that its rule
    /// gives it.
    pub fn get_host_by_rule(&self) -> (r: ConnectHeadBuf)
        requires
            self.wf(),
        ensures
            r.wf(),
            r.host() == host_under_rule(self.host(), self.rule()),
    {
        if let HostRules::GotRule(section) = &self.rule {
            if let Some(name) = &section.rewrite {
                return with_port(name.as_str(), self.get_port_str());
            }
        }
        self.get_valid_host()
    }

    /// What the rules for the host say of the backend.
    pub fn get_backend_name_by_rule(&self) -> (r: PeerBackendRule<'_>)
        ensures
            r@ == backend_under_rule(self.rule()),
    {
        match &self.rule {
            HostRules::Unknown => PeerBackendRule::NoRule,
            HostRules::NoRule => PeerBackendRule::NoRule,
            HostRules::GotRule(section) => {
                if section.direct {
                    PeerBackendRule::Direct
                } else {
                    match &section.backend {
                        Some(name) => PeerBackendRule::GotBackend(name.as_str()),
                        None => PeerBackendRule::NoRule,
                    }
                }
            },
        }
    }
}

/// The head for a name and a port.
fn with_port(name: &str, port: &str) -> (r: ConnectHeadBuf)
    ensures
        r.wf(),
        r.host() == name@ + seq![':'] + port@,
{
    let mut buf = buffer();
    put_slice(&mut buf, name.as_bytes());
    put_u8(&mut buf, 58);
    put_slice(&mut buf, port.as_bytes());
    let ghost host = name@ + seq![':'] + port@;
    proof {
        assert(encode_utf8(seq![':']) =~= seq![58u8]) by {
            vstd::utf8::is_ascii_chars_encode_utf8(seq![':']);
        }
        lemma_encode_concat(name@, seq![':']);
        lemma_encode_concat(name@ + seq![':'], port@);
        assert(bytes_mut_content(buf) =~= encode_utf8(host));
        encode_utf8_valid_utf8(host);
        encode_utf8_decode_utf8(host);
    }
    ConnectHeadBuf::from_buffer(buf)
}

proof fn lemma_colon_before_port(name: Seq<char>, port: Seq<char>)
    requires
        forall|j: int| 0 <= j < port.len() ==> port[j] != ':',
    ensures
        rfind(name + seq![':'] + port, ':') == Some(name.len() as int),
{
    let host = name + seq![':'] + port;
    lemma_rfind(host, ':');
    assert(host[name.len() as int] == ':');
    assert forall|j: int| name.len() < j < host.len() implies host[j] != ':' by {
        assert(host[j] == port[j - name.len() - 1]);
    }
}

proof fn lemma_port_has_no_colon(host: Seq<char>)
    ensures
        forall|j: int| 0 <= j < port_of(host).len() ==> port_of(host)[j] != ':',
{
    lemma_rfind(host, ':');
    reveal_strlit("80");
}

/// A host with its port filled in is its name, a colon and its port, and filling
/// the port in changes neither.
pub proof fn law_valid_host_has_a_port(host: Seq<char>)
    ensures
        valid_host(host) == hostname_of(host) + seq![':'] + port_of(host),
        hostname_of(valid_host(host)) == hostname_of(host),
        port_of(valid_host(host)) == port_of(host),
        valid_host(valid_host(host)) == valid_host(host),
{
    lemma_rfind(host, ':');
    lemma_port_has_no_colon(host);
    assert(valid_host(host) =~= hostname_of(host) + seq![':'] + port_of(host));
    lemma_colon_before_port(hostname_of(host), port_of(host));
    assert(valid_host(host).take(hostname_of(host).len() as int) =~= hostname_of(host));
    assert(valid_host(host).skip(hostname_of(host).len() as int + 1) =~= port_of(host));
}

/// A rewritten host has the new name and keeps its port.
pub proof fn law_rewriting_keeps_the_port(host: Seq<char>, name: Seq<char>)
    ensures
        hostname_of(rewritten_host(host, name)) == name,
        port_of(rewritten_host(host, name)) == port_of(host),
{
    lemma_port_has_no_colon(host);
    lemma_colon_before_port(name, port_of(host));
    assert(rewritten_host(host, name).take(name.len() as int) =~= name);
    assert(rewritten_host(host, name).skip(name.len() as int + 1) =~= port_of(host));
}

/// The name of a host, with a port or without.
pub proof fn lemma_hostname(host: Seq<char>, name: Seq<char>, port: Seq<char>)
    requires
        host == name + seq![':'] + port || host == name,
        forall|j: int| 0 <= j < port.len() ==> port[j] != ':',
        host == name ==> forall|j: int| 0 <= j < name.len() ==> name[j] != ':',
    ensures
        hostname_of(host) == name,
{
    if host == name {
        lemma_rfind(host, ':');
    } else {
        lemma_colon_before_port(name, port);
        assert(host.take(name.len() as int) =~= name);
    }
}

/// A host with a port has its port already.
pub proof fn lemma_valid_host(host: Seq<char>, name: Seq<char>, port: Seq<char>)
    requires
        host == name + seq![':'] + port,
        forall|j: int| 0 <= j < port.len() ==> port[j] != ':',
    ensures
        valid_host(host) == host,
{
    lemma_colon_before_port(name, port);
}

/// A host with a port, under a rule.
pub proof fn lemma_host_under_rule(
    host: Seq<char>,
    name: Seq<char>,
    port: Seq<char>,
    section: SectionView,
)
    requires
        host == name + seq![':'] + port,
        forall|j: int| 0 <= j < port.len() ==> port[j] != ':',
    ensures
        host_under_rule(host, RulesView::GotRule(section)) == (match section.rewrite {
            Some(new_name) => new_name,
            None => name,
        }) + seq![':'] + port,
{
    lemma_colon_before_port(name, port);
    assert(host.skip(name.len() as int + 1) =~= port);
}

/// The head that opens a tunnel names the host that the rule asks for, whatever the rule
/// says of the backend: the new name where the rule has one and else the name that was
/// asked for, with the port that was asked for.
pub proof fn law_head_by_rule(
    peer: PeerInfo,
    head: ConnectHeadBuf,
    name: Seq<char>,
    port: Seq<char>,
    section: SectionView,
)
    requires
        call_ensures(PeerInfo::get_host_by_rule, (&peer,), head),
        peer.host() == name + seq![':'] + port,
        forall|j: int| 0 <= j < port.len() ==> port[j] != ':',
    ensures
        head.wf(),
        peer.rule() == RulesView::GotRule(section) ==> head.host() == (match section.rewrite {
            Some(new_name) => new_name,
            None => name,
        }) + seq![':'] + port,
        !(peer.rule() is GotRule) ==> head.host() == name + seq![':'] + port,
{
    lemma_host_under_rule(peer.host(), name, port, section);
    lemma_colon_before_port(name, port);
}

/// The head for a host without a port names port 80, under the new name where the rule has
/// one and else under the name that was asked for.
pub proof fn law_head_by_rule_without_a_port(
    peer: PeerInfo,
    head: ConnectHeadBuf,
    section: SectionView,
)
    requires
        call_ensures(PeerInfo::get_host_by_rule, (&peer,), head),
        forall|j: int| 0 <= j < peer.host().len() ==> peer.host()[j] != ':',
    ensures
        peer.rule() == RulesView::GotRule(section) ==> head.host() == (match section.rewrite {
            Some(new_name) => new_name,
            None => peer.host(),
        }) + seq![':', '8', '0'],
        !(peer.rule() is GotRule) ==> head.host() == peer.host() + seq![':', '8', '0'],
{
    lemma_rfind(peer.host(), ':');
    reveal_strlit("80");
}

/// The name and the port of a host are what stands before and after its last colon, and the
/// head without a rule is the host with its port. A host without a colon is all name, and
/// its port is 80.
pub proof fn law_name_and_port(
    peer: PeerInfo,
    hostname: &str,
    port_str: &str,
    head: ConnectHeadBuf,
    name: Seq<char>,
    port: Seq<char>,
)
    requires
        call_ensures(PeerInfo::get_hostname, (&peer,), hostname),
        call_ensures(PeerInfo::get_port_str, (&peer,), port_str),
        call_ensures(PeerInfo::get_valid_host, (&peer,), head),
        forall|j: int| 0 <= j < port.len() ==> port[j] != ':',
    ensures
        peer.host() == name + seq![':'] + port ==> hostname@ == name && port_str@ == port
            && head.host() == peer.host(),
        peer.host() == port ==> hostname@ == port && port_str@ == seq!['8', '0'] && head.host()
            == port + seq![':', '8', '0'],
{
    if peer.host() == name + seq![':'] + port {
        lemma_colon_before_port(name, port);
        assert(peer.host().skip(name.len() as int + 1) =~= port);
        assert(peer.host().take(name.len() as int) =~= name);
    }
    if peer.host() == port {
        lemma_rfind(port, ':');
        reveal_strlit("80");
    }
}

/// The rules decide on the backend by its name and by directness alone, and directness goes
/// first: what is said of the name of the host has no part in it, and without a rule nothing
/// is decided.
pub proof fn law_backend_by_rule(
    peer: PeerInfo,
    rule: PeerBackendRule<'_>,
    section: SectionView,
)
    requires
        call_ensures(PeerInfo::get_backend_name_by_rule, (&peer,), rule),
    ensures
        rule is Direct <==> (peer.rule() matches RulesView::GotRule(s) && s.direct),
        rule is GotBackend <==> (peer.rule() matches RulesView::GotRule(s) && !s.direct
            && s.backend is Some),
        peer.rule() == RulesView::GotRule(section) ==> (rule matches PeerBackendRule::GotBackend(
            name,
        ) ==> section.backend == Some(name@)),
{
}

/// What a peer was made of is what it gives back, and a rule that was noted for it is the rule
/// that it has, with everything else as it was.
pub proof fn law_peer_gives_back_what_it_holds(
    host: String,
    addr: SocketAddr,
    peer: PeerInfo,
    with_rule: &mut PeerInfo,
    rule: HostRules,
    after: &PeerInfo,
    got_host: &str,
    got_addr: SocketAddr,
    got_rule: &HostRules,
)
    requires
        call_ensures(PeerInfo::new, (host, addr), peer),
        *old(with_rule) == peer,
        call_ensures(PeerInfo::set_rule, (with_rule, rule), ()),
        *after == *final(with_rule),
        call_ensures(PeerInfo::get_host, (after,), got_host),
        call_ensures(PeerInfo::get_addr, (after,), got_addr),
        call_ensures(PeerInfo::get_rule, (after,), got_rule),
    ensures
        peer.wf(),
        peer.rule() is Unknown,
        after.wf(),
        got_host@ == host@,
        got_addr == addr,
        rule is Unknown <==> got_rule is Unknown,
        rule is NoRule <==> got_rule is NoRule,
        rule matches HostRules::GotRule(section) ==> (*got_rule matches HostRules::GotRule(found)
            && found.direct == section.direct && (section.rewrite is Some <==> found.rewrite
            is Some) && (section.backend is Some <==> found.backend is Some) && (
        section.rewrite matches Some(name) ==> found.rewrite->0@ == name@) && (
        section.backend matches Some(name) ==> found.backend->0@ == name@)),
{
    if let HostRules::GotRule(section) = rule {
        let found = got_rule->GotRule_0;
        assert(found@ == section@);
        assert(found@.rewrite == section@.rewrite);
        assert(found@.backend == section@.backend);
    }
}

/// The port of a host begins after its last colon, and a host without a colon has none.
pub proof fn law_where_the_port_begins(
    host: &str,
    index: HostPortIndex,
    name: Seq<char>,
    port: Seq<char>,
)
    requires
        call_ensures(HostPortIndex::new, (host,), index),
        forall|j: int| 0 <= j < port.len() ==> port[j] != ':',
    ensures
        host@ == name + seq![':'] + port ==> (index matches HostPortIndex::NonDafault(i) && i
            == name.len()),
        host@ == port ==> index is Default,
{
    if host@ == name + seq![':'] + port {
        lemma_colon_before_port(name, port);
    }
    lemma_rfind(host@, ':');
}

} // verus!
