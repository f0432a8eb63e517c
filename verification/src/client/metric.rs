//! The metrics of one backend, kept in two copies by `left_right`.

use vstd::multiset::Multiset;
use vstd::prelude::*;
use crate::addr::SocketAddr;
use crate::metric::{
    fresh_metric, ActivePeers, BackendMetric, BackendProtocol, BackendStatus, Duration, MetricData,
    MetricView,
};

verus! {

broadcast use vstd::multiset::group_multiset_axioms;

/// One change of the counters.
#[derive(Clone, Copy, PartialEq, Eq, Structural, Debug)]
pub enum MetricOp {
    AddPeer(SocketAddr),
    SubPeer(SocketAddr),
    IncrActiveConnection,
    DecrActiveConnection,
    ChangeStatus(BackendStatus),
    ChangeProtocol(BackendProtocol),
    /// The time to connect, the time of the transmission, the bytes that came in
    /// and the bytes that went out.
    Summary(Duration, Duration, u64, u64),
    Reset,
    AddFailures,
}

/// Whether an operation stays within the range of the counters.
pub open spec fn accepts(m: MetricView, op: MetricOp) -> bool {
    match op {
        MetricOp::AddPeer(peer) => m.active_peers.count(peer) < u32::MAX,
        MetricOp::IncrActiveConnection => m.active_connections < u32::MAX,
        MetricOp::DecrActiveConnection => m.active_connections > 0,
        MetricOp::AddFailures => m.failures < u32::MAX,
        _ => true,
    }
}

/// A total with `n` bytes more, or as it was where that is out of range.
pub open spec fn grown_total(total: nat, n: u64) -> nat {
    if total + n <= u64::MAX {
        total + n as nat
    } else {
        total
    }
}

/// The counters after an operation.
pub open spec fn absorbed(m: MetricView, op: MetricOp) -> MetricView {
    match op {
        MetricOp::AddPeer(peer) => MetricView { active_peers: m.active_peers.insert(peer), ..m },
        MetricOp::SubPeer(peer) => MetricView { active_peers: m.active_peers.remove(peer), ..m },
        MetricOp::IncrActiveConnection => MetricView {
            active_connections: m.active_connections + 1,
            ..m
        },
        MetricOp::DecrActiveConnection => MetricView {
            active_connections: (m.active_connections - 1) as nat,
            ..m
        },
        MetricOp::ChangeStatus(status) => MetricView { status, ..m },
        MetricOp::ChangeProtocol(protocol) => MetricView { protocol, ..m },
        MetricOp::Summary(connection_time, transmission_time, incoming, outgoing) => MetricView {
            connection_time,
            transmission_time,
            incoming_bytes: incoming as nat,
            outgoing_bytes: outgoing as nat,
            total_incoming_bytes: grown_total(m.total_incoming_bytes, incoming),
            total_outgoing_bytes: grown_total(m.total_outgoing_bytes, outgoing),
            ..m
        },
        MetricOp::Reset => MetricView {
            failures: 0,
            active_connections: 0,
            active_peers: Multiset::empty(),
            ..m
        },
        MetricOp::AddFailures => MetricView { failures: m.failures + 1, ..m },
    }
}

/// The counters after operations in turn.
pub open spec fn absorbed_all(m: MetricView, ops: Seq<MetricOp>) -> MetricView
    decreases ops.len(),
{
    if ops.len() == 0 {
        m
    } else {
        absorbed(absorbed_all(m, ops.drop_last()), ops.last())
    }
}

/// Whether operations in turn stay within the range of the counters.
pub open spec fn accepts_all(m: MetricView, ops: Seq<MetricOp>) -> bool
    decreases ops.len(),
{
    ops.len() == 0 || (accepts_all(m, ops.drop_last()) && accepts(
        absorbed_all(m, ops.drop_last()),
        ops.last(),
    ))
}

impl MetricData {
    /// Whether an operation stays within the range of the counters.
    pub fn accepts_op(&self, op: &MetricOp) -> (r: bool)
        ensures
            r == accepts(self@, *op),
    {
        match op {
            MetricOp::AddPeer(peer) => self.active_peers.count(*peer) < u32::MAX,
            MetricOp::IncrActiveConnection => self.active_connections < u32::MAX,
            MetricOp::DecrActiveConnection => self.active_connections > 0,
            MetricOp::AddFailures => self.failures < u32::MAX,
            _ => true,
        }
    }

    /// Applies an operation.
    pub fn absorb(&mut self, op: &MetricOp)
        requires
            accepts(old(self)@, *op),
        ensures
            final(self)@ == absorbed(old(self)@, *op),
    {
        match *op {
            MetricOp::IncrActiveConnection => {
                self.active_connections = self.active_connections + 1;
            },
            MetricOp::DecrActiveConnection => {
                self.active_connections = self.active_connections - 1;
            },
            MetricOp::Summary(connection_time, transmission_time, incoming, outgoing) => {
                self.connection_time = connection_time;
                self.transmission_time = transmission_time;
                self.incoming_bytes = incoming;
                self.outgoing_bytes = outgoing;
                if let Some(n) = self.total_incoming_bytes.checked_add(incoming) {
                    self.total_incoming_bytes = n;
                }
                if let Some(n) = self.total_outgoing_bytes.checked_add(outgoing) {
                    self.total_outgoing_bytes = n;
                }
            },
            MetricOp::AddFailures => {
                self.failures = self.failures + 1;
            },
            MetricOp::Reset => {
                self.failures = 0;
                self.active_connections = 0;
                self.active_peers = ActivePeers::new();
            },
            MetricOp::AddPeer(peer) => {
                self.active_peers.add_peer(peer);
            },
            MetricOp::SubPeer(peer) => {
                self.active_peers.remove_peer(peer);
            },
            MetricOp::ChangeStatus(status) => {
                self.status = status;
            },
            MetricOp::ChangeProtocol(protocol) => {
                self.protocol = protocol;
            },
        }
        assert(self@ =~= absorbed(old(self)@, *op));
    }
}

/// How `left_right` applies an operation to one copy of the counters, and how it
/// brings the second copy up to the first. Only operations that the counters
/// accept are ever published; any other would leave them as they are.
impl left_right::Absorb<MetricOp> for MetricData {
    fn absorb_first(&mut self, operation: &mut MetricOp, _other: &Self)
        ensures
            final(self)@ == if accepts(old(self)@, *old(operation)) {
                absorbed(old(self)@, *old(operation))
            } else {
                old(self)@
            },
    {
        if self.accepts_op(operation) {
            self.absorb(operation);
        }
    }

    fn sync_with(&mut self, first: &Self)
        ensures
            final(self)@ == first@,
    {
        *self = first.copy();
    }
}

/// The counters in the two copies of `left_right`: readers see what was last
/// published, operations that were appended since then wait.
#[verifier::external_body]
pub struct MetricStore {
    handle: left_right::WriteHandle<MetricData, MetricOp>,
}

/// The counters that a reader of the store sees.
pub uninterp spec fn store_published(store: MetricStore) -> MetricView;

/// The operations that were appended and not yet published, in order.
pub uninterp spec fn store_pending(store: MetricStore) -> Seq<MetricOp>;

/// Calls `left_right::new`: two copies of the default counters, with nothing
/// appended.
#[verifier::external_body]
fn store_new() -> (r: MetricStore)
    ensures
        store_published(r) == fresh_metric(),
        store_pending(r) == Seq::<MetricOp>::empty(),
{
    let (handle, _) = left_right::new();
    MetricStore { handle }
}

/// Calls `WriteHandle::append`: the operation waits behind the others, and
/// readers see no change.
#[verifier::external_body]
fn store_append(store: &mut MetricStore, op: MetricOp)
    ensures
        store_published(*final(store)) == store_published(*old(store)),
        store_pending(*final(store)) == store_pending(*old(store)).push(op),
{
    store.handle.append(op);
}

/// Calls `WriteHandle::publish`: readers see the effect of every operation that
/// waited, in order, as `Absorb::absorb_first` of the counters applies them.
#[verifier::external_body]
fn store_publish(store: &mut MetricStore)
    requires
        accepts_all(store_published(*old(store)), store_pending(*old(store))),
    ensures
        store_published(*final(store)) == absorbed_all(
            store_published(*old(store)),
            store_pending(*old(store)),
        ),
        store_pending(*final(store)) == Seq::<MetricOp>::empty(),
{
    store.handle.publish();
}

/// Calls `ReadHandle::enter` through the write handle, which is there as long as
/// the store is, and copies what the reader sees.
#[verifier::external_body]
fn store_read(store: &MetricStore) -> (r: Option<MetricData>)
    ensures
        r is Some,
        r->0@ == store_published(*store),
{
    store.handle.enter().map(|data| data.copy())
}

proof fn lemma_one_op(m: MetricView, a: MetricOp)
    ensures
        absorbed_all(m, Seq::empty().push(a)) == absorbed(m, a),
        accepts_all(m, Seq::empty().push(a)) == accepts(m, a),
{
    let ops = Seq::<MetricOp>::empty().push(a);
    assert(ops.drop_last() =~= Seq::empty());
    assert(absorbed_all(m, ops.drop_last()) == m);
    assert(accepts_all(m, ops.drop_last()));
}

proof fn lemma_two_ops(m: MetricView, a: MetricOp, b: MetricOp)
    ensures
        absorbed_all(m, Seq::empty().push(a).push(b)) == absorbed(absorbed(m, a), b),
        accepts_all(m, Seq::empty().push(a).push(b)) == (accepts(m, a) && accepts(
            absorbed(m, a),
            b,
        )),
{
    let ops = Seq::<MetricOp>::empty().push(a).push(b);
    assert(ops.drop_last() =~= Seq::empty().push(a));
    lemma_one_op(m, a);
}

proof fn lemma_three_ops(m: MetricView, a: MetricOp, b: MetricOp, c: MetricOp)
    ensures
        absorbed_all(m, Seq::empty().push(a).push(b).push(c)) == absorbed(
            absorbed(absorbed(m, a), b),
            c,
        ),
        accepts_all(m, Seq::empty().push(a).push(b).push(c)) == (accepts(m, a) && accepts(
            absorbed(m, a),
            b,
        ) && accepts(absorbed(absorbed(m, a), b), c)),
{
    let ops = Seq::<MetricOp>::empty().push(a).push(b).push(c);
    assert(ops.drop_last() =~= Seq::empty().push(a).push(b));
    lemma_two_ops(m, a, b);
}

/// The counters once a connection of `peer` has begun.
pub open spec fn connection_begun(m: MetricView, peer: SocketAddr) -> MetricView {
    MetricView {
        active_connections: m.active_connections + 1,
        active_peers: m.active_peers.insert(peer),
        ..m
    }
}

/// The counters once a connection of `peer` has ended.
pub open spec fn connection_ended(m: MetricView, peer: SocketAddr) -> MetricView {
    MetricView {
        active_connections: (m.active_connections - 1) as nat,
        active_peers: m.active_peers.remove(peer),
        ..m
    }
}

/// The counters with the figures of the last transmission.
pub open spec fn transmission_noted(
    m: MetricView,
    connection_time: Duration,
    transmission_time: Duration,
    incoming: u64,
    outgoing: u64,
) -> MetricView {
    MetricView {
        connection_time,
        transmission_time,
        incoming_bytes: incoming as nat,
        outgoing_bytes: outgoing as nat,
        total_incoming_bytes: grown_total(m.total_incoming_bytes, incoming),
        total_outgoing_bytes: grown_total(m.total_outgoing_bytes, outgoing),
        ..m
    }
}

/// The counters after a reset: no connections, no peers, no failures.
pub open spec fn reset_done(m: MetricView) -> MetricView {
    MetricView { failures: 0, active_connections: 0, active_peers: Multiset::empty(), ..m }
}

/// Writes to the counters of one backend, each event with one publication.
pub struct MetricWriter {
    store: MetricStore,
}

impl MetricWriter {
    /// The counters that readers see.
    pub closed spec fn data(&self) -> MetricView {
        store_published(self.store)
    }

    /// Nothing waits to be published.
    pub closed spec fn settled(&self) -> bool {
        store_pending(self.store) == Seq::<MetricOp>::empty()
    }

    /// A writer to fresh counters.
    pub fn new() -> (r: Self)
        ensures
            r.settled(),
            r.data() == fresh_metric(),
    {
        MetricWriter { store: store_new() }
    }

    /// The counters that readers see.
    pub fn read(&self) -> (r: Option<MetricData>)
        ensures
            r matches Some(data) && data@ == self.data(),
    {
        store_read(&self.store)
    }

    /// A connection of `peer` begins.
    pub fn incr_connection(&mut self, peer: SocketAddr)
        requires
            old(self).settled(),
            old(self).data().active_connections < u32::MAX,
            old(self).data().active_peers.count(peer) < u32::MAX,
        ensures
            final(self).settled(),
            final(self).data() == connection_begun(old(self).data(), peer),
    {
        proof {
            lemma_two_ops(
                self.data(),
                MetricOp::IncrActiveConnection,
                MetricOp::AddPeer(peer),
            );
        }
        store_append(&mut self.store, MetricOp::IncrActiveConnection);
        store_append(&mut self.store, MetricOp::AddPeer(peer));
        store_publish(&mut self.store);
    }

    /// The backend is reached by another protocol.
    pub fn set_protocol(&mut self, protocol: BackendProtocol)
        requires
            old(self).settled(),
        ensures
            final(self).settled(),
            final(self).data() == (MetricView { protocol, ..old(self).data() }),
    {
        proof {
            lemma_one_op(self.data(), MetricOp::ChangeProtocol(protocol));
        }
        store_append(&mut self.store, MetricOp::ChangeProtocol(protocol));
        store_publish(&mut self.store);
    }

    /// The backend has another status.
    pub fn set_status(&mut self, status: BackendStatus)
        requires
            old(self).settled(),
        ensures
            final(self).settled(),
            final(self).data() == (MetricView { status, ..old(self).data() }),
    {
        proof {
            lemma_one_op(self.data(), MetricOp::ChangeStatus(status));
        }
        store_append(&mut self.store, MetricOp::ChangeStatus(status));
        store_publish(&mut self.store);
    }

    /// The counters start again.
    pub fn reset(&mut self)
        requires
            old(self).settled(),
        ensures
            final(self).settled(),
            final(self).data() == reset_done(old(self).data()),
    {
        proof {
            lemma_one_op(self.data(), MetricOp::Reset);
        }
        store_append(&mut self.store, MetricOp::Reset);
        store_publish(&mut self.store);
    }

    /// A connection of `peer` ends after a transmission.
    pub fn summary(
        &mut self,
        connection_time: Duration,
        transmission_time: Duration,
        incoming_bytes: u64,
        outgoing_bytes: u64,
        peer: SocketAddr,
    )
        requires
            old(self).settled(),
            old(self).data().active_connections > 0,
        ensures
            final(self).settled(),
            final(self).data() == transmission_noted(
                connection_ended(old(self).data(), peer),
                connection_time,
                transmission_time,
                incoming_bytes,
                outgoing_bytes,
            ),
    {
        let figures = MetricOp::Summary(
            connection_time,
            transmission_time,
            incoming_bytes,
            outgoing_bytes,
        );
        proof {
            lemma_three_ops(
                self.data(),
                MetricOp::DecrActiveConnection,
                MetricOp::SubPeer(peer),
                figures,
            );
        }
        store_append(&mut self.store, MetricOp::DecrActiveConnection);
        store_append(&mut self.store, MetricOp::SubPeer(peer));
        store_append(&mut self.store, figures);
        store_publish(&mut self.store);
    }

    /// A connection of `peer` ends by a failure.
    pub fn add_failures(&mut self, peer: SocketAddr)
        requires
            old(self).settled(),
            old(self).data().active_connections > 0,
            old(self).data().failures < u32::MAX,
        ensures
            final(self).settled(),
            final(self).data() == (MetricView {
                failures: old(self).data().failures + 1,
                ..connection_ended(old(self).data(), peer)
            }),
    {
        proof {
            lemma_three_ops(
                self.data(),
                MetricOp::AddFailures,
                MetricOp::SubPeer(peer),
                MetricOp::DecrActiveConnection,
            );
        }
        store_append(&mut self.store, MetricOp::AddFailures);
        store_append(&mut self.store, MetricOp::SubPeer(peer));
        store_append(&mut self.store, MetricOp::DecrActiveConnection);
        store_publish(&mut self.store);
    }
}

/// The metrics of one backend: its names, which stay, and its counters.
pub struct Metric {
    backend_name: String,
    backend_address: String,
    domain: String,
    writer: MetricWriter,
}

impl Metric {
    /// The counters.
    pub closed spec fn data(&self) -> MetricView {
        self.writer.data()
    }

    /// The name of the backend.
    pub closed spec fn name(&self) -> Seq<char> {
        self.backend_name@
    }

    /// The address of the backend.
    pub closed spec fn address(&self) -> Seq<char> {
        self.backend_address@
    }

    /// The domain of the backend.
    pub closed spec fn domain(&self) -> Seq<char> {
        self.domain@
    }

    /// Nothing waits to be published.
    pub closed spec fn settled(&self) -> bool {
        self.writer.settled()
    }

    /// The names are those of `other`.
    pub open spec fn same_names(&self, other: &Metric) -> bool {
        &&& self.name() == other.name()
        &&& self.address() == other.address()
        &&& self.domain() == other.domain()
    }

    /// Fresh metrics of a backend.
    pub fn new(
        backend_name: &str,
        backend_address: &str,
        domain: &str,
        status: BackendStatus,
        protocol: BackendProtocol,
    ) -> (r: Self)
        ensures
            r.settled(),
            r.name() == backend_name@,
            r.address() == backend_address@,
            r.domain() == domain@,
            r.data() == (MetricView { status, protocol, ..fresh_metric() }),
    {
        let mut writer = MetricWriter::new();
        writer.set_status(status);
        writer.set_protocol(protocol);
        Metric {
            backend_name: backend_name.to_owned(),
            backend_address: backend_address.to_owned(),
            domain: domain.to_owned(),
            writer,
        }
    }

    /// The backend is reached by another protocol.
    pub fn set_protocol(&mut self, protocol: BackendProtocol)
        requires
            old(self).settled(),
        ensures
            final(self).settled(),
            final(self).same_names(old(self)),
            final(self).data() == (MetricView { protocol, ..old(self).data() }),
    {
        self.writer.set_protocol(protocol);
    }

    /// The backend has another status.
    pub fn set_status(&mut self, status: BackendStatus)
        requires
            old(self).settled(),
        ensures
            final(self).settled(),
            final(self).same_names(old(self)),
            final(self).data() == (MetricView { status, ..old(self).data() }),
    {
        self.writer.set_status(status);
    }

    /// A connection of `peer` ends after a transmission.
    pub fn summary(
        &mut self,
        connection_time: Duration,
        transmission_time: Duration,
        incoming_bytes: u64,
        outgoing_bytes: u64,
        peer: SocketAddr,
    )
        requires
            old(self).settled(),
            old(self).data().active_connections > 0,
        ensures
            final(self).settled(),
            final(self).same_names(old(self)),
            final(self).data() == transmission_noted(
                connection_ended(old(self).data(), peer),
                connection_time,
                transmission_time,
                incoming_bytes,
                outgoing_bytes,
            ),
    {
        self.writer.summary(
            connection_time,
            transmission_time,
            incoming_bytes,
            outgoing_bytes,
            peer,
        );
    }

    /// A connection of `peer` ends by a failure.
    pub fn add_failures(&mut self, peer: SocketAddr)
        requires
            old(self).settled(),
            old(self).data().active_connections > 0,
            old(self).data().failures < u32::MAX,
        ensures
            final(self).settled(),
            final(self).same_names(old(self)),
            final(self).data() == (MetricView {
                failures: old(self).data().failures + 1,
                ..connection_ended(old(self).data(), peer)
            }),
    {
        self.writer.add_failures(peer);
    }

    /// A connection of `peer` begins.
    pub fn incr_connection(&mut self, peer: SocketAddr)
        requires
            old(self).settled(),
            old(self).data().active_connections < u32::MAX,
            old(self).data().active_peers.count(peer) < u32::MAX,
        ensures
            final(self).settled(),
            final(self).same_names(old(self)),
            final(self).data() == connection_begun(old(self).data(), peer),
    {
        self.writer.incr_connection(peer);
    }

    /// The counters start again.
    pub fn reset(&mut self)
        requires
            old(self).settled(),
        ensures
            final(self).settled(),
            final(self).same_names(old(self)),
            final(self).data() == reset_done(old(self).data()),
    {
        self.writer.reset();
    }

    /// The name of the backend.
    pub fn get_backend_name(&self) -> (r: &str)
        ensures
            r@ == self.name(),
    {
        self.backend_name.as_str()
    }

    /// The status of the backend.
    pub fn get_status(&self) -> (r: BackendStatus)
        ensures
            r == self.data().status,
    {
        match self.writer.read() {
            Some(data) => data.status,
            None => BackendStatus::Unknown,
        }
    }

    /// The names and the counters.
    pub fn get(&self) -> (r: Option<BackendMetric>)
        ensures
            match r {
                Some(m) => {
                    &&& m.backend_name@ == self.name()
                    &&& m.address@ == self.address()
                    &&& m.domain@ == self.domain()
                    &&& m.metric@ == self.data()
                },
                None => false,
            },
    {
        match self.writer.read() {
            Some(metric) => Some(
                BackendMetric {
                    backend_name: self.backend_name.clone(),
                    address: self.backend_address.clone(),
                    domain: self.domain.clone(),
                    metric,
                },
            ),
            None => None,
        }
    }
}

/// Every connection is counted for its peer.
pub open spec fn peers_match_connections(m: MetricView) -> bool {
    m.active_peers.len() == m.active_connections
}

/// A connection that begins and then ends, by a transmission or by a failure,
/// leaves the connections and the peers as they were.
pub proof fn law_end_undoes_begin(
    m: MetricView,
    peer: SocketAddr,
    connection_time: Duration,
    transmission_time: Duration,
    incoming: u64,
    outgoing: u64,
)
    ensures
        connection_ended(connection_begun(m, peer), peer) == m,
        transmission_noted(
            connection_ended(connection_begun(m, peer), peer),
            connection_time,
            transmission_time,
            incoming,
            outgoing,
        ).active_connections == m.active_connections,
        transmission_noted(
            connection_ended(connection_begun(m, peer), peer),
            connection_time,
            transmission_time,
            incoming,
            outgoing,
        ).active_peers == m.active_peers,
{
    assert(m.active_peers.insert(peer).remove(peer) =~= m.active_peers);
    assert(connection_ended(connection_begun(m, peer), peer) =~= m);
}

/// Fresh counters, and counters after a reset, count every connection for its
/// peer. A connection that begins keeps it so, and so does the end of a
/// connection of a peer that is counted.
pub proof fn law_peers_match_connections(m: MetricView, peer: SocketAddr)
    ensures
        peers_match_connections(fresh_metric()),
        peers_match_connections(reset_done(m)),
        peers_match_connections(m) ==> peers_match_connections(connection_begun(m, peer)),
        peers_match_connections(m) && m.active_peers.count(peer) > 0 ==> peers_match_connections(
            connection_ended(m, peer),
        ),
{
    if m.active_peers.count(peer) > 0 {
        assert(Multiset::singleton(peer).subset_of(m.active_peers));
    }
}

/// What is told to the metrics of a backend: a connection of a peer begins, it ends
/// after a transmission, with its times and its bytes, or by a failure, the counters
/// start again, or the backend has another status or protocol.
pub enum MetricCall {
    IncrConnection(SocketAddr),
    Summary(SocketAddr, Duration, Duration, u64, u64),
    AddFailures(SocketAddr),
    Reset,
    SetStatus(BackendStatus),
    SetProtocol(BackendProtocol),
}

impl MetricCall {
    /// The peer whose connection ends, if one ends.
    pub open spec fn ends(self) -> Option<SocketAddr> {
        match self {
            MetricCall::Summary(peer, _, _, _, _) => Some(peer),
            MetricCall::AddFailures(peer) => Some(peer),
            _ => None,
        }
    }
}

/// The counters after a call.
pub open spec fn called(m: MetricView, call: MetricCall) -> MetricView {
    match call {
        MetricCall::IncrConnection(peer) => connection_begun(m, peer),
        MetricCall::Summary(peer, connection_time, transmission_time, incoming, outgoing) =>
            transmission_noted(
            connection_ended(m, peer),
            connection_time,
            transmission_time,
            incoming,
            outgoing,
        ),
        MetricCall::AddFailures(peer) => MetricView {
            failures: m.failures + 1,
            ..connection_ended(m, peer)
        },
        MetricCall::Reset => reset_done(m),
        MetricCall::SetStatus(status) => MetricView { status, ..m },
        MetricCall::SetProtocol(protocol) => MetricView { protocol, ..m },
    }
}

/// The counters after calls in turn.
pub open spec fn called_all(m: MetricView, calls: Seq<MetricCall>) -> MetricView
    decreases calls.len(),
{
    if calls.len() == 0 {
        m
    } else {
        called(called_all(m, calls.drop_last()), calls.last())
    }
}

/// How many connections of a peer began since the last reset and did not end.
pub open spec fn open_for(calls: Seq<MetricCall>, peer: SocketAddr) -> int
    decreases calls.len(),
{
    if calls.len() == 0 || calls.last() is Reset {
        0
    } else {
        open_for(calls.drop_last(), peer) + if calls.last() == MetricCall::IncrConnection(peer) {
            1int
        } else if calls.last().ends() == Some(peer) {
            -1
        } else {
            0
        }
    }
}

/// How many connections began since the last reset and did not end.
pub open spec fn open_calls(calls: Seq<MetricCall>) -> int
    decreases calls.len(),
{
    if calls.len() == 0 || calls.last() is Reset {
        0
    } else {
        open_calls(calls.drop_last()) + if calls.last() is IncrConnection {
            1int
        } else if calls.last().ends() is Some {
            -1
        } else {
            0
        }
    }
}

/// How many failures there were since the last reset.
pub open spec fn failure_calls(calls: Seq<MetricCall>) -> nat
    decreases calls.len(),
{
    if calls.len() == 0 || calls.last() is Reset {
        0
    } else {
        failure_calls(calls.drop_last()) + if calls.last() is AddFailures {
            1nat
        } else {
            0
        }
    }
}

/// Every end of a connection closes one of the same peer that began since the last
/// reset and was not closed yet.
pub open spec fn well_paired(calls: Seq<MetricCall>) -> bool
    decreases calls.len(),
{
    calls.len() == 0 || (well_paired(calls.drop_last()) && (calls.last().ends() matches Some(peer)
        ==> open_for(calls.drop_last(), peer) > 0))
}

/// Since the metrics were new or last reset, the connections are those that are still
/// open, and the peers count them: as many in all, as many for each peer, and none for
/// a peer without one. The failures are those that there were.
pub proof fn law_counters_follow_the_calls(start: MetricView, calls: Seq<MetricCall>)
    requires
        start.active_connections == 0,
        start.active_peers == Multiset::<SocketAddr>::empty(),
        start.failures == 0,
        well_paired(calls),
    ensures
        called_all(start, calls).active_connections == open_calls(calls),
        called_all(start, calls).active_peers.len() == open_calls(calls),
        forall|peer: SocketAddr| #[trigger]
            called_all(start, calls).active_peers.count(peer) == open_for(calls, peer),
        called_all(start, calls).failures == failure_calls(calls),
    decreases calls.len(),
{
    if calls.len() > 0 {
        let before = calls.drop_last();
        law_counters_follow_the_calls(start, before);
        let m = called_all(start, before);
        let after = called_all(start, calls);
        match calls.last() {
            MetricCall::IncrConnection(peer) => {
                law_peers_match_connections(m, peer);
            },
            MetricCall::Summary(peer, _, _, _, _) => {
                assert(m.active_peers.count(peer) > 0);
                law_peers_match_connections(m, peer);
            },
            MetricCall::AddFailures(peer) => {
                assert(m.active_peers.count(peer) > 0);
                law_peers_match_connections(m, peer);
            },
            _ => {},
        }
        if calls.last().ends() is Some {
            assert(m.active_connections > 0);
        }
        assert forall|peer: SocketAddr| #[trigger] after.active_peers.count(peer) == open_for(
            calls,
            peer,
        ) by {
            assert(m.active_peers.count(peer) == open_for(before, peer));
        }
    }
}

/// No operation makes the totals of transferred bytes smaller.
pub proof fn law_totals_never_shrink(m: MetricView, op: MetricOp)
    ensures
        absorbed(m, op).total_incoming_bytes >= m.total_incoming_bytes,
        absorbed(m, op).total_outgoing_bytes >= m.total_outgoing_bytes,
{
}

/// Only a change of status touches the status, and only a change of protocol
/// touches the protocol.
pub proof fn law_status_and_protocol_stay(m: MetricView, op: MetricOp)
    ensures
        !(op is ChangeStatus) ==> absorbed(m, op).status == m.status,
        !(op is ChangeProtocol) ==> absorbed(m, op).protocol == m.protocol,
{
}

/// Each operation changes what it is about and nothing else: a connection more or less, a
/// peer more or less, a status, a protocol, a failure more, or the figures of a transfer,
/// whose times and bytes each go to their own place.
pub proof fn law_operation_changes_its_own(data: &mut MetricData, op: &MetricOp, peer: SocketAddr)
    requires
        call_ensures(MetricData::absorb, (data, op), ()),
        accepts(old(data)@, *op),
    ensures
        ({
            let before = old(data)@;
            let after = final(data)@;
            &&& *op is IncrActiveConnection ==> after == (MetricView {
                active_connections: before.active_connections + 1,
                ..before
            })
            &&& *op is DecrActiveConnection ==> before == (MetricView {
                active_connections: after.active_connections + 1,
                ..after
            })
            &&& *op matches MetricOp::AddPeer(added) ==> after == (MetricView {
                active_peers: after.active_peers,
                ..before
            }) && after.active_peers.count(peer) == before.active_peers.count(peer) + (if peer
                == added {
                1int
            } else {
                0
            })
            &&& *op matches MetricOp::SubPeer(gone) ==> after == (MetricView {
                active_peers: after.active_peers,
                ..before
            }) && (peer != gone || before.active_peers.count(peer) == 0
                ==> after.active_peers.count(peer) == before.active_peers.count(peer)) && (peer
                == gone && before.active_peers.count(peer) > 0 ==> after.active_peers.count(peer)
                + 1 == before.active_peers.count(peer))
            &&& *op matches MetricOp::ChangeStatus(status) ==> after == (MetricView {
                status,
                ..before
            })
            &&& *op matches MetricOp::ChangeProtocol(protocol) ==> after == (MetricView {
                protocol,
                ..before
            })
            &&& *op is AddFailures ==> after == (MetricView {
                failures: before.failures + 1,
                ..before
            })
            &&& *op is Reset ==> after.active_connections == 0 && after.failures == 0
                && after.active_peers.count(peer) == 0 && after == (MetricView {
                active_connections: 0,
                failures: 0,
                active_peers: after.active_peers,
                ..before
            })
            &&& *op matches MetricOp::Summary(connecting, transfer, incoming, outgoing) ==> {
                &&& after.connection_time == connecting
                &&& after.transmission_time == transfer
                &&& after.incoming_bytes == incoming
                &&& after.outgoing_bytes == outgoing
                &&& after.total_incoming_bytes == before.total_incoming_bytes + (
                if before.total_incoming_bytes + incoming <= 0xffff_ffff_ffff_ffff {
                    incoming as int
                } else {
                    0
                })
                &&& after.total_outgoing_bytes == before.total_outgoing_bytes + (
                if before.total_outgoing_bytes + outgoing <= 0xffff_ffff_ffff_ffff {
                    outgoing as int
                } else {
                    0
                })
                &&& after.active_connections == before.active_connections
                &&& after.active_peers == before.active_peers
                &&& after.status == before.status
                &&& after.protocol == before.protocol
                &&& after.failures == before.failures
            }
        }),
{
}

/// A connection that begins and then ends leaves its figures and nothing else: the connections
/// and the peers are as before, and the totals have grown by its bytes.
pub proof fn law_connection_from_begin_to_end(
    begun: &mut Metric,
    ended: &mut Metric,
    peer: SocketAddr,
    connection_time: Duration,
    transmission_time: Duration,
    incoming: u64,
    outgoing: u64,
)
    requires
        call_ensures(Metric::incr_connection, (begun, peer), ()),
        *old(ended) == *final(begun),
        call_ensures(
            Metric::summary,
            (ended, connection_time, transmission_time, incoming, outgoing, peer),
            (),
        ),
    ensures
        final(begun).data().active_connections == old(begun).data().active_connections + 1,
        final(begun).data().active_peers.count(peer) == old(begun).data().active_peers.count(peer)
            + 1,
        ({
            let before = old(begun).data();
            let after = final(ended).data();
            &&& after.active_connections == before.active_connections
            &&& after.active_peers == before.active_peers
            &&& after.connection_time == connection_time
            &&& after.transmission_time == transmission_time
            &&& after.incoming_bytes == incoming
            &&& after.outgoing_bytes == outgoing
            &&& before.total_incoming_bytes + incoming <= u64::MAX ==> after.total_incoming_bytes
                == before.total_incoming_bytes + incoming
            &&& before.total_outgoing_bytes + outgoing <= u64::MAX ==> after.total_outgoing_bytes
                == before.total_outgoing_bytes + outgoing
            &&& after.failures == before.failures
            &&& after.status == before.status
            &&& after.protocol == before.protocol
        }),
        final(ended).name() == old(begun).name(),
        final(ended).address() == old(begun).address(),
        final(ended).domain() == old(begun).domain(),
{
    assert(old(begun).data().active_peers.insert(peer).remove(peer) =~= old(begun).data().active_peers);
}

/// A connection that fails is one failure more and one connection of its peer fewer, and leaves
/// the times and the bytes alone. A status, a protocol and a new start each change their own.
pub proof fn law_metrics_change_their_own(
    failed: &mut Metric,
    reset: &mut Metric,
    with_status: &mut Metric,
    with_protocol: &mut Metric,
    peer: SocketAddr,
    status: BackendStatus,
    protocol: BackendProtocol,
)
    requires
        call_ensures(Metric::add_failures, (failed, peer), ()),
        old(failed).data().active_connections > 0,
        call_ensures(Metric::reset, (reset,), ()),
        call_ensures(Metric::set_status, (with_status, status), ()),
        call_ensures(Metric::set_protocol, (with_protocol, protocol), ()),
    ensures
        final(failed).data().failures == old(failed).data().failures + 1,
        final(failed).data() == (MetricView {
            failures: old(failed).data().failures + 1,
            active_connections: (old(failed).data().active_connections - 1) as nat,
            active_peers: old(failed).data().active_peers.remove(peer),
            ..old(failed).data()
        }),
        final(reset).data() == (MetricView {
            failures: 0,
            active_connections: 0,
            active_peers: final(reset).data().active_peers,
            ..old(reset).data()
        }),
        final(reset).data().active_peers.len() == 0,
        final(with_status).data() == (MetricView { status, ..old(with_status).data() }),
        final(with_protocol).data() == (MetricView { protocol, ..old(with_protocol).data() }),
{
}

/// Fresh metrics have the names, the status and the protocol that they were given, and count
/// nothing. What is read of metrics are their names and their counters.
pub proof fn law_fresh_metrics(
    name: &str,
    address: &str,
    domain: &str,
    status: BackendStatus,
    protocol: BackendProtocol,
    metric: Metric,
    read: Option<BackendMetric>,
    peer: SocketAddr,
)
    requires
        call_ensures(Metric::new, (name, address, domain, status, protocol), metric),
        call_ensures(Metric::get, (&metric,), read),
    ensures
        read matches Some(m) && {
            &&& m.backend_name@ == name@
            &&& m.address@ == address@
            &&& m.domain@ == domain@
            &&& m.metric.status == status
            &&& m.metric.protocol == protocol
            &&& m.metric.active_connections == 0
            &&& m.metric.failures == 0
            &&& m.metric.active_peers@.count(peer) == 0
            &&& m.metric.incoming_bytes == 0
            &&& m.metric.outgoing_bytes == 0
            &&& m.metric.total_incoming_bytes == 0
            &&& m.metric.total_outgoing_bytes == 0
            &&& m.metric.connection_time.secs == 0
            &&& m.metric.transmission_time.secs == 0
        },
{
    let data = read->0.metric;
    assert(data@ == metric.data());
    assert(data@.active_connections == 0);
    assert(data@.failures == 0);
    assert(data@.incoming_bytes == 0);
    assert(data@.outgoing_bytes == 0);
    assert(data@.total_incoming_bytes == 0);
    assert(data@.total_outgoing_bytes == 0);
    assert(data@.active_peers.count(peer) == 0);
}

/// An operation is accepted exactly where no counter would leave its range: the connections and
/// the failures fit 32 bits and so does the count of a peer, and there is a connection to end.
pub proof fn law_operations_in_range(data: &MetricData, op: &MetricOp, r: bool)
    requires
        call_ensures(MetricData::accepts_op, (data, op), r),
    ensures
        *op is IncrActiveConnection ==> (r <==> data.active_connections < 0xffff_ffff),
        *op is DecrActiveConnection ==> (r <==> data.active_connections > 0),
        *op is AddFailures ==> (r <==> data.failures < 0xffff_ffff),
        *op matches MetricOp::AddPeer(peer) ==> (r <==> data.active_peers@.count(peer)
            < 0xffff_ffff),
        *op is SubPeer || *op is ChangeStatus || *op is ChangeProtocol || *op is Summary || *op
            is Reset ==> r,
{
}

} // verus!
