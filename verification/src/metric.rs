//! What is known of a backend: its status, its protocol and its counters.

use vstd::multiset::Multiset;
use vstd::prelude::*;
use crate::addr::SocketAddr;
use crate::text::{pad_right, padded};

verus! {

broadcast use vstd::multiset::group_multiset_axioms;

/// A span of time: whole seconds and nanoseconds.
#[derive(Clone, Copy, PartialEq, Eq, Structural, Debug)]
pub struct Duration {
    pub secs: u64,
    pub nanos: u32,
}

impl Duration {
    /// The whole milliseconds of a span.
    pub open spec fn millis(self) -> nat {
        (self.secs * 1000 + self.nanos / 1_000_000) as nat
    }

    /// No time at all.
    pub fn zero() -> (r: Duration)
        ensures
            r == (Duration { secs: 0, nanos: 0 }),
    {
        Duration { secs: 0, nanos: 0 }
    }

    /// The whole milliseconds of a span.
    pub fn as_millis(&self) -> (r: u128)
        ensures
            r == self.millis(),
    {
        self.secs as u128 * 1000 + (self.nanos / 1_000_000) as u128
    }
}

/// Whether a backend can be used.
#[derive(Clone, Copy, PartialEq, Eq, Structural, Debug)]
pub enum BackendStatus {
    Normal,
    /// Left for `Normal` once a connection succeeds.
    Closed,
    Unknown,
    /// Set by hand, and never left but by hand.
    ForceClosed,
}

/// How a backend is reached.
#[derive(Clone, Copy, PartialEq, Eq, Structural, Debug)]
pub enum BackendProtocol {
    HTTP2,
    Quic,
}

impl Default for BackendStatus {
    fn default() -> (r: Self)
        ensures
            r == BackendStatus::Normal,
    {
        BackendStatus::Normal
    }
}

impl Default for BackendProtocol {
    fn default() -> (r: Self)
        ensures
            r == BackendProtocol::Quic,
    {
        BackendProtocol::Quic
    }
}

impl BackendStatus {
    /// The name of a status.
    pub open spec fn name(self) -> Seq<char> {
        match self {
            BackendStatus::Normal => "NORMAL"@,
            BackendStatus::Closed => "CLOSED"@,
            BackendStatus::Unknown => "UNKNOWN"@,
            BackendStatus::ForceClosed => "FORCECLOSED"@,
        }
    }

    /// The name of a status, in a column of twelve characters.
    pub fn text(&self) -> (r: String)
        ensures
            r@ == padded(self.name(), 12),
    {
        let s: &str = match self {
            BackendStatus::Normal => "NORMAL",
            BackendStatus::Closed => "CLOSED",
            BackendStatus::Unknown => "UNKNOWN",
            BackendStatus::ForceClosed => "FORCECLOSED",
        };
        pad_right(s, 12)
    }
}

impl BackendProtocol {
    /// The name of a protocol.
    pub open spec fn name(self) -> Seq<char> {
        match self {
            BackendProtocol::HTTP2 => "http2"@,
            BackendProtocol::Quic => "quic"@,
        }
    }

    /// The name of a protocol, in a column of twelve characters.
    pub fn text(&self) -> (r: String)
        ensures
            r@ == padded(self.name(), 12),
    {
        let s: &str = match self {
            BackendProtocol::HTTP2 => "http2",
            BackendProtocol::Quic => "quic",
        };
        pad_right(s, 12)
    }

    /// The other protocol.
    pub open spec fn spec_other(self) -> BackendProtocol {
        match self {
            BackendProtocol::HTTP2 => BackendProtocol::Quic,
            BackendProtocol::Quic => BackendProtocol::HTTP2,
        }
    }

    /// The other protocol.
    pub fn other(&self) -> (r: BackendProtocol)
        ensures
            r == self.spec_other(),
    {
        match self {
            BackendProtocol::HTTP2 => BackendProtocol::Quic,
            BackendProtocol::Quic => BackendProtocol::HTTP2,
        }
    }
}

/// Whether `items` has an entry for `peer`.
pub open spec fn has_peer(items: Seq<(SocketAddr, u32)>, peer: SocketAddr) -> bool {
    exists|i: int| 0 <= i < items.len() && (#[trigger] items[i]).0 == peer
}

/// The counters of `items` by peer.
pub open spec fn peer_counts(items: Seq<(SocketAddr, u32)>) -> Map<SocketAddr, nat> {
    Map::new(
        |peer: SocketAddr| has_peer(items, peer),
        |peer: SocketAddr|
            {
                let i = choose|i: int| 0 <= i < items.len() && (#[trigger] items[i]).0 == peer;
                items[i].1 as nat
            },
    )
}

/// No peer has two entries, and each entry counts something.
pub open spec fn peers_wf(items: Seq<(SocketAddr, u32)>) -> bool {
    &&& forall|i: int, j: int|
        0 <= i < j < items.len() ==> (#[trigger] items[i]).0 != (#[trigger] items[j]).0
    &&& forall|i: int| 0 <= i < items.len() ==> (#[trigger] items[i]).1 > 0
}

proof fn lemma_peer_counts(items: Seq<(SocketAddr, u32)>)
    requires
        peers_wf(items),
    ensures
        forall|i: int|
            #![trigger items[i]]
            0 <= i < items.len() ==> Multiset::from_map(peer_counts(items)).count(items[i].0)
                == items[i].1,
        forall|peer: SocketAddr|
            !has_peer(items, peer) ==> (#[trigger] Multiset::from_map(peer_counts(items)).count(
                peer,
            )) == 0,
{
    let counts = peer_counts(items);
    let keys = items.map_values(|e: (SocketAddr, u32)| e.0);
    assert(counts.dom() =~= keys.to_set()) by {
        assert forall|peer: SocketAddr| counts.dom().contains(peer) implies keys.to_set().contains(
            peer,
        ) by {
            let i = choose|i: int| 0 <= i < items.len() && (#[trigger] items[i]).0 == peer;
            assert(keys[i] == peer);
        }
        assert forall|peer: SocketAddr| keys.to_set().contains(peer) implies counts.dom().contains(
            peer,
        ) by {
            let i = choose|i: int| 0 <= i < keys.len() && keys[i] == peer;
            assert(items[i].0 == peer);
        }
    }
    vstd::seq_lib::seq_to_set_is_finite(keys);
    assert forall|i: int| #![trigger items[i]] 0 <= i < items.len() implies Multiset::from_map(
        counts,
    ).count(items[i].0) == items[i].1 by {
        assert(has_peer(items, items[i].0));
        let k = choose|k: int| 0 <= k < items.len() && (#[trigger] items[k]).0 == items[i].0;
        assert(k == i);
    }
}

/// How many connections each peer holds.
pub struct ActivePeers {
    items: Vec<(SocketAddr, u32)>,
}

impl ActivePeers {
    /// One element for each connection, by its peer.
    pub closed spec fn view(&self) -> Multiset<SocketAddr> {
        Multiset::from_map(peer_counts(self.items@))
    }

    /// The entries, one for each peer.
    pub closed spec fn entries_seq(&self) -> Seq<(SocketAddr, u32)> {
        self.items@
    }

    #[verifier::type_invariant]
    spec fn wf(self) -> bool {
        peers_wf(self.items@)
    }

    /// No peers.
    pub fn new() -> (r: Self)
        ensures
            r@ == Multiset::<SocketAddr>::empty(),
    {
        let r = ActivePeers { items: Vec::new() };
        proof {
            lemma_peer_counts(r.items@);
            assert forall|p: SocketAddr| r@.count(p) == 0 by {
                assert(!has_peer(r.items@, p));
            }
            assert(r@ =~= Multiset::empty());
        }
        r
    }

    fn position(&self, peer: SocketAddr) -> (r: Option<usize>)
        ensures
            match r {
                Some(i) => i < self.items@.len() && self.items@[i as int].0 == peer,
                None => !has_peer(self.items@, peer),
            },
    {
        let mut i: usize = 0;
        while i < self.items.len()
            invariant
                i <= self.items@.len(),
                forall|j: int| 0 <= j < i ==> (#[trigger] self.items@[j]).0 != peer,
            decreases self.items@.len() - i,
        {
            if self.items[i].0 == peer {
                return Some(i);
            }
            i = i + 1;
        }
        None
    }

    /// How many connections a peer holds.
    pub fn count(&self, peer: SocketAddr) -> (r: u32)
        ensures
            r == self@.count(peer),
    {
        proof {
            use_type_invariant(&*self);
            lemma_peer_counts(self.items@);
        }
        match self.position(peer) {
            Some(i) => self.items[i].1,
            None => 0,
        }
    }

    /// How many different peers hold connections.
    pub fn len(&self) -> (r: usize)
        ensures
            r == self@.dom().len(),
    {
        proof {
            use_type_invariant(self);
            lemma_peer_counts(self.items@);
            let keys = self.items@.map_values(|e: (SocketAddr, u32)| e.0);
            assert(keys.no_duplicates()) by {
                assert forall|i: int, j: int|
                    0 <= i < keys.len() && 0 <= j < keys.len() && i != j implies keys[i]
                    != keys[j] by {
                    assert(keys[i] == self.items@[i].0);
                    assert(keys[j] == self.items@[j].0);
                    if i < j {
                    } else {
                        assert(self.items@[j].0 != self.items@[i].0);
                    }
                }
            }
            keys.unique_seq_to_set();
            assert(self@.dom() =~= keys.to_set()) by {
                assert forall|p: SocketAddr| self@.dom().contains(p) implies keys.to_set().contains(
                    p,
                ) by {
                    assert(has_peer(self.items@, p));
                    let i = choose|i: int|
                        0 <= i < self.items@.len() && (#[trigger] self.items@[i]).0 == p;
                    assert(keys[i] == p);
                }
                assert forall|p: SocketAddr| keys.to_set().contains(p) implies self@.dom().contains(
                    p,
                ) by {
                    let i = choose|i: int| 0 <= i < keys.len() && keys[i] == p;
                    assert(self.items@[i].0 == p);
                }
            }
        }
        self.items.len()
    }

    /// The peers with their counters.
    pub fn entries(&self) -> (r: &Vec<(SocketAddr, u32)>)
        ensures
            r@ == self.entries_seq(),
            forall|i: int, j: int|
                0 <= i < j < r@.len() ==> (#[trigger] r@[i]).0 != (#[trigger] r@[j]).0,
            forall|i: int|
                0 <= i < r@.len() ==> (#[trigger] r@[i]).1 > 0 && self@.count(r@[i].0) == r@[i].1,
            forall|peer: SocketAddr|
                #[trigger]
                self@.count(peer) > 0 ==> has_peer(r@, peer),
    {
        proof {
            use_type_invariant(&*self);
            lemma_peer_counts(self.items@);
        }
        &self.items
    }

    /// Counts one more connection of a peer.
    pub fn add_peer(&mut self, peer: SocketAddr)
        requires
            old(self)@.count(peer) < u32::MAX,
        ensures
            final(self)@ == old(self)@.insert(peer),
    {
        proof {
            use_type_invariant(&*self);
            lemma_peer_counts(self.items@);
        }
        let ghost before = self.items@;
        let position = self.position(peer);
        let mut items: Vec<(SocketAddr, u32)> = Vec::new();
        std::mem::swap(&mut items, &mut self.items);
        match position {
            Some(i) => {
                let n: u32 = items[i].1;
                items.set(i, (peer, n + 1));
                proof {
                    lemma_peer_counts(items@);
                    assert forall|p: SocketAddr|
                        Multiset::from_map(peer_counts(items@)).count(p)
                            == old(self)@.insert(peer).count(p) by {
                        if has_peer(before, p) {
                            let k = choose|k: int|
                                0 <= k < before.len() && (#[trigger] before[k]).0 == p;
                            assert(items@[k].0 == p);
                        } else {
                            assert(!has_peer(items@, p)) by {
                                if has_peer(items@, p) {
                                    let k = choose|k: int|
                                        0 <= k < items@.len() && (#[trigger] items@[k]).0
                                            == p;
                                    assert(before[k].0 == p);
                                }
                            }
                        }
                    }
                }
            },
            None => {
                items.push((peer, 1));
                proof {
                    assert forall|a: int, b: int| 0 <= a < b < items@.len() implies (
                    #[trigger] items@[a]).0 != (#[trigger] items@[b]).0 by {
                        if b == before.len() {
                            assert(before[a].0 != peer);
                        }
                    }
                    lemma_peer_counts(items@);
                    assert forall|p: SocketAddr|
                        Multiset::from_map(peer_counts(items@)).count(p)
                            == old(self)@.insert(peer).count(p) by {
                        if has_peer(before, p) {
                            let k = choose|k: int|
                                0 <= k < before.len() && (#[trigger] before[k]).0 == p;
                            assert(items@[k].0 == p);
                        } else if p == peer {
                            assert(items@[before.len() as int].0 == p);
                        } else {
                            assert(!has_peer(items@, p)) by {
                                if has_peer(items@, p) {
                                    let k = choose|k: int|
                                        0 <= k < items@.len() && (#[trigger] items@[k]).0
                                            == p;
                                    assert(before[k].0 == p);
                                }
                            }
                        }
                    }
                }
            },
        }
        assert(Multiset::from_map(peer_counts(items@)) =~= old(self)@.insert(peer));
        self.items = items;
    }

    /// Counts one connection of a peer less; a peer without connections is left
    /// out.
    pub fn remove_peer(&mut self, peer: SocketAddr)
        ensures
            final(self)@ == old(self)@.remove(peer),
    {
        proof {
            use_type_invariant(&*self);
            lemma_peer_counts(self.items@);
        }
        let ghost before = self.items@;
        let position = self.position(peer);
        let mut items: Vec<(SocketAddr, u32)> = Vec::new();
        std::mem::swap(&mut items, &mut self.items);
        if let Some(i) = position {
            let n: u32 = items[i].1;
            if n == 1 {
                items.remove(i);
                proof {
                    assert(items@ == before.remove(i as int));
                    assert forall|a: int, b: int| 0 <= a < b < items@.len() implies (
                    #[trigger] items@[a]).0 != (#[trigger] items@[b]).0 by {
                        let a2 = if a < i { a } else { a + 1 };
                        let b2 = if b < i { b } else { b + 1 };
                        assert(before[a2].0 != before[b2].0);
                    }
                    assert forall|a: int| 0 <= a < items@.len() implies (
                    #[trigger] items@[a]).1 > 0 by {
                        let a2 = if a < i { a } else { a + 1 };
                        assert(before[a2].1 > 0);
                    }
                    lemma_peer_counts(items@);
                    assert forall|p: SocketAddr|
                        Multiset::from_map(peer_counts(items@)).count(p)
                            == old(self)@.remove(peer).count(p) by {
                        if p == peer {
                            assert(!has_peer(items@, p)) by {
                                if has_peer(items@, p) {
                                    let k = choose|k: int|
                                        0 <= k < items@.len() && (#[trigger] items@[k]).0
                                            == p;
                                    let k2 = if k < i { k } else { k + 1 };
                                    assert(before[k2].0 == p);
                                }
                            }
                        } else if has_peer(before, p) {
                            let k = choose|k: int|
                                0 <= k < before.len() && (#[trigger] before[k]).0 == p;
                            let k2 = if k < i { k } else { k - 1 };
                            assert(items@[k2].0 == p);
                        } else {
                            assert(!has_peer(items@, p)) by {
                                if has_peer(items@, p) {
                                    let k = choose|k: int|
                                        0 <= k < items@.len() && (#[trigger] items@[k]).0
                                            == p;
                                    let k2 = if k < i { k } else { k + 1 };
                                    assert(before[k2].0 == p);
                                }
                            }
                        }
                    }
                }
            } else {
                items.set(i, (peer, n - 1));
                proof {
                    lemma_peer_counts(items@);
                    assert forall|p: SocketAddr|
                        Multiset::from_map(peer_counts(items@)).count(p)
                            == old(self)@.remove(peer).count(p) by {
                        if has_peer(before, p) {
                            let k = choose|k: int|
                                0 <= k < before.len() && (#[trigger] before[k]).0 == p;
                            assert(items@[k].0 == p);
                        } else {
                            assert(!has_peer(items@, p)) by {
                                if has_peer(items@, p) {
                                    let k = choose|k: int|
                                        0 <= k < items@.len() && (#[trigger] items@[k]).0
                                            == p;
                                    assert(before[k].0 == p);
                                }
                            }
                        }
                    }
                }
            }
        }
        assert(Multiset::from_map(peer_counts(items@)) =~= old(self)@.remove(peer));
        self.items = items;
    }

    /// The same peers once more.
    pub fn copy(&self) -> (r: Self)
        ensures
            r@ == self@,
            r.entries_seq() == self.entries_seq(),
    {
        proof {
            use_type_invariant(self);
        }
        let mut items: Vec<(SocketAddr, u32)> = Vec::new();
        let mut i: usize = 0;
        while i < self.items.len()
            invariant
                i <= self.items@.len(),
                items@ == self.items@.take(i as int),
            decreases self.items@.len() - i,
        {
            items.push(self.items[i]);
            i = i + 1;
        }
        assert(items@ =~= self.items@);
        ActivePeers { items }
    }
}

/// The counters of a backend.
pub struct MetricData {
    pub active_connections: u32,
    pub protocol: BackendProtocol,
    pub active_peers: ActivePeers,
    pub status: BackendStatus,
    pub connection_time: Duration,
    pub transmission_time: Duration,
    pub incoming_bytes: u64,
    pub outgoing_bytes: u64,
    pub total_incoming_bytes: u64,
    pub total_outgoing_bytes: u64,
    pub failures: u32,
}

/// The counters of a backend as mathematical values.
#[verifier::ext_equal]
pub struct MetricView {
    pub active_connections: nat,
    pub protocol: BackendProtocol,
    pub active_peers: Multiset<SocketAddr>,
    pub status: BackendStatus,
    pub connection_time: Duration,
    pub transmission_time: Duration,
    pub incoming_bytes: nat,
    pub outgoing_bytes: nat,
    pub total_incoming_bytes: nat,
    pub total_outgoing_bytes: nat,
    pub failures: nat,
}

/// The counters of a backend that nothing has happened to yet.
pub open spec fn fresh_metric() -> MetricView {
    MetricView {
        active_connections: 0,
        protocol: BackendProtocol::Quic,
        active_peers: Multiset::empty(),
        status: BackendStatus::Normal,
        connection_time: Duration { secs: 0, nanos: 0 },
        transmission_time: Duration { secs: 0, nanos: 0 },
        incoming_bytes: 0,
        outgoing_bytes: 0,
        total_incoming_bytes: 0,
        total_outgoing_bytes: 0,
        failures: 0,
    }
}

impl MetricData {
    /// The counters as mathematical values.
    pub open spec fn view(&self) -> MetricView {
        MetricView {
            active_connections: self.active_connections as nat,
            protocol: self.protocol,
            active_peers: self.active_peers@,
            status: self.status,
            connection_time: self.connection_time,
            transmission_time: self.transmission_time,
            incoming_bytes: self.incoming_bytes as nat,
            outgoing_bytes: self.outgoing_bytes as nat,
            total_incoming_bytes: self.total_incoming_bytes as nat,
            total_outgoing_bytes: self.total_outgoing_bytes as nat,
            failures: self.failures as nat,
        }
    }

    /// The same counters once more.
    pub fn copy(&self) -> (r: Self)
        ensures
            r@ == self@,
    {
        MetricData {
            active_connections: self.active_connections,
            protocol: self.protocol,
            active_peers: self.active_peers.copy(),
            status: self.status,
            connection_time: self.connection_time,
            transmission_time: self.transmission_time,
            incoming_bytes: self.incoming_bytes,
            outgoing_bytes: self.outgoing_bytes,
            total_incoming_bytes: self.total_incoming_bytes,
            total_outgoing_bytes: self.total_outgoing_bytes,
            failures: self.failures,
        }
    }
}

impl Default for MetricData {
    fn default() -> (r: Self)
        ensures
            r@ == fresh_metric(),
    {
        MetricData {
            active_connections: 0,
            protocol: BackendProtocol::Quic,
            active_peers: ActivePeers::new(),
            status: BackendStatus::Normal,
            connection_time: Duration::zero(),
            transmission_time: Duration::zero(),
            incoming_bytes: 0,
            outgoing_bytes: 0,
            total_incoming_bytes: 0,
            total_outgoing_bytes: 0,
            failures: 0,
        }
    }
}

/// A backend by its name and addresses, with its counters.
pub struct BackendMetric {
    pub backend_name: String,
    pub domain: String,
    pub address: String,
    pub metric: MetricData,
}

/// What a client of the metric service asks for.
#[derive(Clone, Copy, PartialEq, Eq, Structural, Debug)]
pub enum MetricApiReq {
    SwitchBackendStatus { backend_id: usize },
    SwitchBackendProtocol { backend_id: usize },
    ResetBackend { backend_id: usize },
    AllBackends,
}

/// What the metric service answers.
pub enum MetricApiResp {
    SwitchBackendStatus,
    SwitchBackendProtocol,
    ResetBackend,
    AllBackends { items: Vec<BackendMetric> },
    Error { msg: String },
}

/// Switching the protocol twice gives the first one back.
pub proof fn law_protocol_switch_is_an_involution(protocol: BackendProtocol)
    ensures
        protocol.spec_other() != protocol,
        protocol.spec_other().spec_other() == protocol,
{
}

/// The milliseconds of a span are those of its seconds and those in its nanoseconds: a span
/// that is a second longer has a thousand more, and a fraction of a millisecond does not count.
pub proof fn law_milliseconds_of_a_span(span: Duration, longer: Duration, x: u128, y: u128)
    requires
        call_ensures(Duration::as_millis, (&span,), x),
        call_ensures(Duration::as_millis, (&longer,), y),
        longer.secs == span.secs + 1,
        longer.nanos == span.nanos,
    ensures
        y == x + 1000,
        span.secs == 0 ==> x * 1_000_000 <= span.nanos < (x + 1) * 1_000_000,
{
}

/// The text of a status is its name, filled up to twelve characters, and two statuses have two
/// texts. So it is with protocols.
pub proof fn law_texts_are_told_apart(
    a: BackendStatus,
    b: BackendStatus,
    x: String,
    y: String,
    p: BackendProtocol,
    q: BackendProtocol,
    z: String,
    w: String,
)
    requires
        call_ensures(BackendStatus::text, (&a,), x),
        call_ensures(BackendStatus::text, (&b,), y),
        call_ensures(BackendProtocol::text, (&p,), z),
        call_ensures(BackendProtocol::text, (&q,), w),
    ensures
        x@.len() == 12,
        z@.len() == 12,
        x@ == y@ ==> a == b,
        z@ == w@ ==> p == q,
        a is Normal ==> x@.take(6) == seq!['N', 'O', 'R', 'M', 'A', 'L'],
        a is Closed ==> x@.take(6) == seq!['C', 'L', 'O', 'S', 'E', 'D'],
        a is Unknown ==> x@.take(7) == seq!['U', 'N', 'K', 'N', 'O', 'W', 'N'],
        p is Quic ==> z@.take(4) == seq!['q', 'u', 'i', 'c'],
        p is HTTP2 ==> z@.take(5) == seq!['h', 't', 't', 'p', '2'],
{
    reveal_strlit("NORMAL");
    reveal_strlit("CLOSED");
    reveal_strlit("UNKNOWN");
    reveal_strlit("FORCECLOSED");
    reveal_strlit("http2");
    reveal_strlit("quic");
    assert(x@[0] != y@[0] || a == b);
    assert(z@[0] != w@[0] || p == q);
}

/// The protocol that a switch gives is the other one.
pub proof fn law_other_protocol(p: BackendProtocol, q: BackendProtocol)
    requires
        call_ensures(BackendProtocol::other, (&p,), q),
    ensures
        p is HTTP2 <==> q is Quic,
        p != q,
{
}

/// A connection more of a peer is counted for that peer alone, a connection fewer takes it
/// back, and what is not counted cannot be taken back. A copy counts the same.
pub proof fn law_peers_are_counted_one_by_one(
    added: &mut ActivePeers,
    removed: &mut ActivePeers,
    peer: SocketAddr,
    other: SocketAddr,
    copied: ActivePeers,
    whole: &ActivePeers,
    n: u32,
)
    requires
        call_ensures(ActivePeers::add_peer, (added, peer), ()),
        call_ensures(ActivePeers::remove_peer, (removed, peer), ()),
        call_ensures(ActivePeers::copy, (whole,), copied),
        call_ensures(ActivePeers::count, (&copied, peer), n),
    ensures
        final(added)@.count(peer) == old(added)@.count(peer) + 1,
        other != peer ==> final(added)@.count(other) == old(added)@.count(other),
        old(removed)@.count(peer) > 0 ==> final(removed)@.count(peer) + 1 == old(removed)@.count(
            peer,
        ),
        old(removed)@.count(peer) == 0 ==> final(removed)@.count(peer) == 0,
        other != peer ==> final(removed)@.count(other) == old(removed)@.count(other),
        n == whole@.count(peer),
{
}

/// A copy of counters has each of them.
pub proof fn law_copy_of_counters(data: &MetricData, copied: MetricData)
    requires
        call_ensures(MetricData::copy, (data,), copied),
    ensures
        copied.active_connections == data.active_connections,
        copied.protocol == data.protocol,
        copied.active_peers@ == data.active_peers@,
        copied.status == data.status,
        copied.connection_time == data.connection_time,
        copied.transmission_time == data.transmission_time,
        copied.incoming_bytes == data.incoming_bytes,
        copied.outgoing_bytes == data.outgoing_bytes,
        copied.total_incoming_bytes == data.total_incoming_bytes,
        copied.total_outgoing_bytes == data.total_outgoing_bytes,
        copied.failures == data.failures,
{
    let a = data@;
    let b = copied@;
    assert(a.active_connections == b.active_connections);
    assert(a.incoming_bytes == b.incoming_bytes);
    assert(a.outgoing_bytes == b.outgoing_bytes);
    assert(a.total_incoming_bytes == b.total_incoming_bytes);
    assert(a.total_outgoing_bytes == b.total_outgoing_bytes);
    assert(a.failures == b.failures);
    assert(a.protocol == b.protocol);
    assert(a.active_peers == b.active_peers);
    assert(a.status == b.status);
    assert(a.connection_time == b.connection_time);
    assert(a.transmission_time == b.transmission_time);
}

/// The entries have each peer that holds connections once, with how many it holds, and nobody
/// else, and there are as many as peers.
pub proof fn law_entry_for_each_peer(
    peers: &ActivePeers,
    entries: &Vec<(SocketAddr, u32)>,
    peer: SocketAddr,
    i: int,
    j: int,
)
    requires
        call_ensures(ActivePeers::entries, (peers,), entries),
    ensures
        0 <= i < entries@.len() ==> entries@[i].1 > 0 && peers@.count(entries@[i].0)
            == entries@[i].1,
        0 <= i < j < entries@.len() ==> entries@[i].0 != entries@[j].0,
        peers@.count(peer) > 0 ==> exists|k: int|
            0 <= k < entries@.len() && (#[trigger] entries@[k]).0 == peer,
{
    if 0 <= i < j < entries@.len() {
        assert(entries@[i].0 != entries@[j].0);
    }
    if peers@.count(peer) > 0 {
        assert(has_peer(entries@, peer));
    }
}

/// How many peers hold connections grows by one with the first connection of a peer and not
/// with any further one.
pub proof fn law_number_of_peers(
    before: &ActivePeers,
    adding: &mut ActivePeers,
    after: &ActivePeers,
    peer: SocketAddr,
    x: usize,
    y: usize,
)
    requires
        *old(adding) == *before,
        call_ensures(ActivePeers::add_peer, (adding, peer), ()),
        *after == *final(adding),
        call_ensures(ActivePeers::len, (before,), x),
        call_ensures(ActivePeers::len, (after,), y),
        before@.dom().finite(),
    ensures
        y == x + (if before@.count(peer) == 0 {
            1int
        } else {
            0
        }),
{
    assert(after@.dom() =~= before@.dom().insert(peer));
    if before@.count(peer) > 0 {
        assert(before@.dom().insert(peer) =~= before@.dom());
    }
}

} // verus!
