//! What becomes of a request to the proxy.

use vstd::prelude::*;
use crate::addr::SocketAddr;
use crate::client::backends::{
    status_after, Backend, BackendEvent, RetryStep, TransferError, TransferOutcome,
};
use crate::client::balance::ConfigBackend;
use crate::client::config::{
    available, chosen, law_routed_to_its_backend, lemma_available, rule_for, AvailableBackend,
    Config,
};
use crate::client::control::others_stay;
use crate::client::metric::{connection_begun, connection_ended, transmission_noted};
use crate::client::peer::{
    host_under_rule, lemma_host_under_rule, lemma_hostname, lemma_valid_host, PeerInfo,
};
use crate::client::rules::{RulesView, SectionView};
use crate::metric::{BackendStatus, Duration, MetricView};
use crate::proxy::ConnectHeadBuf;

verus! {

/// A request as it comes in.
pub enum IncomingConnection {
    /// It names no host, and is answered with a status and a text.
    Refused(u16, String),
    /// It asks for a tunnel.
    ConnectMethod(PeerInfo),
    /// It is any other, and handed on to the proxy itself.
    NonConnectMethod(PeerInfo),
}

/// Sorts a request by the authority of its URI and by its method.
pub fn incoming_connection(
    authority: Option<String>,
    is_connect: bool,
    peer_addr: SocketAddr,
) -> (r: IncomingConnection)
    ensures
        match authority {
            None => r matches IncomingConnection::Refused(status, text) && status == 400 && text@
                == "CONNECT must be to a socket address"@,
            Some(host) => match r {
                IncomingConnection::Refused(..) => false,
                IncomingConnection::ConnectMethod(peer) => is_connect && peer.wf() && peer.host()
                    == host@ && peer.addr() == peer_addr && peer.rule() is Unknown,
                IncomingConnection::NonConnectMethod(peer) => !is_connect && peer.wf()
                    && peer.host() == host@ && peer.addr() == peer_addr && peer.rule() is Unknown,
            },
        },
{
    match authority {
        None => IncomingConnection::Refused(400, "CONNECT must be to a socket address".to_owned()),
        Some(host) => {
            let peer = PeerInfo::new(host, peer_addr);
            if is_connect {
                IncomingConnection::ConnectMethod(peer)
            } else {
                IncomingConnection::NonConnectMethod(peer)
            }
        },
    }
}

/// What has happened to a request for a tunnel.
pub enum TunnelEvent {
    Started,
    /// The backend at this place gave no stream.
    ConnectFailed(usize),
    /// The backend at this place gave a stream.
    Connected(usize),
    /// The tunnel through the backend at this place, which took this time to
    /// connect, has ended.
    Ended(usize, Duration, TransferOutcome),
}

/// What is to be done next about a request for a tunnel.
pub enum TunnelAction {
    /// Open a stream through the backend at this place, with this head.
    Connect(usize, ConnectHeadBuf),
    /// Connect to the host itself.
    ConnectDirect(ConnectHeadBuf),
    /// Copy bytes both ways through the backend at this place.
    Transfer(usize),
    /// Nothing more.
    Finish,
    /// Nothing more, after a transfer that failed.
    Fail(TransferError),
}

/// Whether `r` is where a request goes next.
pub open spec fn next_hop(
    before: Config,
    after: Config,
    peer: PeerInfo,
    costs: Seq<u64>,
    r: TunnelAction,
) -> bool {
    match r {
        TunnelAction::Connect(id, head) => {
            &&& chosen(
                before,
                after,
                peer.rule(),
                peer.host(),
                costs,
                AvailableBackend::GotBackend(id),
            )
            &&& id < before.backends@.len()
            &&& before.backends@[id as int].status() is Normal
            &&& head.wf()
            &&& head.host() == host_under_rule(peer.host(), peer.rule())
        },
        TunnelAction::ConnectDirect(head) => {
            &&& chosen(
                before,
                after,
                peer.rule(),
                peer.host(),
                costs,
                AvailableBackend::Direct,
            )
            &&& head.wf()
            &&& head.host() == host_under_rule(peer.host(), peer.rule())
        },
        TunnelAction::Finish => {
            ||| chosen(before, after, peer.rule(), peer.host(), costs, AvailableBackend::Block)
            ||| chosen(before, after, peer.rule(), peer.host(), costs, AvailableBackend::NoBackend)
        },
        _ => false,
    }
}

/// Only the backend at `id` differs, and of that only the counters, which are now
/// `data`.
pub open spec fn only_data_changed(
    before: Config,
    after: Config,
    id: usize,
    data: MetricView,
) -> bool {
    &&& others_stay(before, after, id)
    &&& after.backends@[id as int].same_but_data(&before.backends@[id as int])
    &&& after.backends@[id as int].data() == data
}

/// The counters of a backend that gave no stream.
pub open spec fn data_after_failure(data: MetricView) -> MetricView {
    MetricView { status: status_after(data.status, BackendEvent::ConnectFailed), ..data }
}

/// The counters of a backend after a tunnel through it has ended.
pub open spec fn data_after_tunnel(
    data: MetricView,
    connection_time: Duration,
    outcome: TransferOutcome,
    peer: SocketAddr,
) -> MetricView {
    match outcome {
        TransferOutcome::Done(from_client, from_server, time) => transmission_noted(
            connection_ended(data, peer),
            connection_time,
            time,
            from_client,
            from_server,
        ),
        _ => MetricView { failures: data.failures + 1, ..connection_ended(data, peer) },
    }
}

/// Whether an event can be taken in: it is about a backend that is there, and its
/// counters stay in range.
pub open spec fn takes(config: Config, peer: PeerInfo, event: TunnelEvent) -> bool {
    match event {
        TunnelEvent::Started => true,
        TunnelEvent::ConnectFailed(id) => id < config.backends@.len(),
        TunnelEvent::Connected(id) => {
            &&& id < config.backends@.len()
            &&& config.backends@[id as int].data().active_connections < u32::MAX
            &&& config.backends@[id as int].data().active_peers.count(peer.addr()) < u32::MAX
        },
        TunnelEvent::Ended(id, _, outcome) => {
            &&& id < config.backends@.len()
            &&& config.backends@[id as int].data().active_connections > 0
            &&& !(outcome is Done) ==> config.backends@[id as int].data().failures < u32::MAX
        },
    }
}

/// Whether an event can be taken in.
pub fn takes_event(config: &Config, peer: &PeerInfo, event: &TunnelEvent) -> (r: bool)
    ensures
        r == takes(*config, *peer, *event),
{
    match event {
        TunnelEvent::Started => true,
        TunnelEvent::ConnectFailed(id) => *id < config.backends.len(),
        TunnelEvent::Connected(id) => {
            if *id >= config.backends.len() {
                return false;
            }
            match config.backends[*id].get_metric() {
                Some(m) => m.metric.active_connections < u32::MAX && m.metric.active_peers.count(
                    peer.get_addr(),
                ) < u32::MAX,
                None => false,
            }
        },
        TunnelEvent::Ended(id, _, outcome) => {
            if *id >= config.backends.len() {
                return false;
            }
            let done: bool = match outcome {
                TransferOutcome::Done(..) => true,
                TransferOutcome::Cancelled | TransferOutcome::Failed(_) => false,
            };
            match config.backends[*id].get_metric() {
                Some(m) => m.metric.active_connections > 0 && (done || m.metric.failures
                    < u32::MAX),
                None => false,
            }
        },
    }
}

/// Whether `r` is the right answer to an event, and leaves `after`.
pub open spec fn tunnel_step(
    before: Config,
    after: Config,
    peer: PeerInfo,
    costs: Seq<u64>,
    event: TunnelEvent,
    r: TunnelAction,
) -> bool {
    match event {
        TunnelEvent::Started => next_hop(before, after, peer, costs, r),
        TunnelEvent::ConnectFailed(id) => exists|between: Config|
            #[trigger] only_data_changed(
                before,
                between,
                id,
                data_after_failure(before.backends@[id as int].data()),
            ) && next_hop(between, after, peer, costs, r),
        TunnelEvent::Connected(id) => {
            &&& r == TunnelAction::Transfer(id)
            &&& only_data_changed(
                before,
                after,
                id,
                connection_begun(before.backends@[id as int].data(), peer.addr()),
            )
        },
        TunnelEvent::Ended(id, connection_time, outcome) => {
            &&& r == match outcome {
                TransferOutcome::Done(..) => TunnelAction::Finish,
                TransferOutcome::Cancelled => TunnelAction::Fail(TransferError::Cancelled),
                TransferOutcome::Failed(message) => TunnelAction::Fail(
                    TransferError::Failed(message),
                ),
            }
            &&& only_data_changed(
                before,
                after,
                id,
                data_after_tunnel(
                    before.backends@[id as int].data(),
                    connection_time,
                    outcome,
                    peer.addr(),
                ),
            )
        },
    }
}

/// Where a request goes next.
fn find_next_hop(config: &mut Config, peer: &PeerInfo, costs: &Vec<u64>) -> (r: TunnelAction)
    requires
        old(config).wf(),
        peer.wf(),
        costs@.len() == old(config).backends@.len(),
    ensures
        final(config).wf(),
        next_hop(*old(config), *final(config), *peer, costs@, r),
{
    match config.next_available_backend(peer, costs) {
        AvailableBackend::GotBackend(id) => TunnelAction::Connect(id, peer.get_host_by_rule()),
        AvailableBackend::Direct => TunnelAction::ConnectDirect(peer.get_host_by_rule()),
        AvailableBackend::Block => TunnelAction::Finish,
        AvailableBackend::NoBackend => TunnelAction::Finish,
    }
}

/// The backend that is to be reached again after an event: the one that gave no
/// stream.
pub open spec fn to_retry(event: TunnelEvent) -> Option<usize> {
    match event {
        TunnelEvent::ConnectFailed(id) => Some(id),
        _ => None,
    }
}

/// Takes a request for a tunnel one step further. The rules for its host are
/// looked up first. A backend that gives no stream is noted as down, and the next
/// one is tried. Beside what is to be done next stands the backend that is to be
/// reached again from now on, if any.
pub fn handle_connection(
    config: &mut Config,
    peer: &mut PeerInfo,
    costs: &Vec<u64>,
    event: TunnelEvent,
) -> (r: (TunnelAction, Option<usize>))
    requires
        old(config).wf(),
        old(peer).wf(),
        costs@.len() == old(config).backends@.len(),
        takes(*old(config), *old(peer), event),
    ensures
        final(config).wf(),
        final(peer).wf(),
        final(peer).same_peer(old(peer)),
        final(peer).rule() == rule_for(*old(config), old(peer).hostname(), old(peer).rule()),
        tunnel_step(*old(config), *final(config), *final(peer), costs@, event, r.0),
        r.1 == to_retry(event),
{
    config.find_rule_for_peer(peer);
    match event {
        TunnelEvent::Started => (find_next_hop(config, peer, costs), None),
        TunnelEvent::ConnectFailed(id) => {
            config.backends[id].connect_failed();
            proof {
                assert(only_data_changed(
                    *old(config),
                    *config,
                    id,
                    data_after_failure(old(config).backends@[id as int].data()),
                ));
            }
            (find_next_hop(config, peer, costs), Some(id))
        },
        TunnelEvent::Connected(id) => {
            config.backends[id].begin_transfer(peer.get_addr());
            (TunnelAction::Transfer(id), None)
        },
        TunnelEvent::Ended(id, connection_time, outcome) => {
            match config.backends[id].transfer(outcome, connection_time, peer.get_addr()) {
                Ok(_) => (TunnelAction::Finish, None),
                Err(e) => {
                    config.backends[id].add_failures(peer.get_addr());
                    (TunnelAction::Fail(e), None)
                },
            }
        },
    }
}

/// How many attempts are made to reach a backend again, where zero stands for no
/// limit.
pub open spec fn retry_rounds(max_retries: u32) -> u32 {
    if max_retries == 0 {
        u32::MAX
    } else {
        max_retries
    }
}

/// The attempts that are left to reach a backend again.
pub struct RetryPlan {
    remaining: u32,
}

impl RetryPlan {
    /// The attempts that are left.
    pub closed spec fn left(&self) -> nat {
        self.remaining as nat
    }

    /// The attempts for a limit, where zero stands for no limit.
    pub fn new(max_retries: u32) -> (r: Self)
        ensures
            r.left() == retry_rounds(max_retries),
    {
        RetryPlan {
            remaining: if max_retries == 0 {
                u32::MAX
            } else {
                max_retries
            },
        }
    }

    /// Whether another attempt is due, which is then one fewer.
    pub fn tick(&mut self) -> (r: bool)
        ensures
            r == (old(self).left() > 0),
            final(self).left() == if r {
                (old(self).left() - 1) as nat
            } else {
                0
            },
    {
        if self.remaining == 0 {
            return false;
        }
        self.remaining = self.remaining - 1;
        true
    }
}

/// The attempts that are left after asking `n` times whether one is due.
pub open spec fn left_after(left: nat, n: nat) -> nat
    decreases n,
{
    if n == 0 {
        left
    } else {
        let before = left_after(left, (n - 1) as nat);
        if before > 0 {
            (before - 1) as nat
        } else {
            0
        }
    }
}

/// As many attempts are due as the limit says, and no more.
pub proof fn law_retries_end(max_retries: u32, n: nat)
    ensures
        left_after(retry_rounds(max_retries) as nat, n) > 0 <==> n < retry_rounds(max_retries),
    decreases n,
{
    lemma_left_after(retry_rounds(max_retries) as nat, n);
}

proof fn lemma_left_after(left: nat, n: nat)
    ensures
        left_after(left, n) == if n < left {
            (left - n) as nat
        } else {
            0
        },
    decreases n,
{
    if n > 0 {
        lemma_left_after(left, (n - 1) as nat);
    }
}

/// What has happened to the attempts to reach a backend again.
#[derive(Clone, Copy, PartialEq, Eq, Structural, Debug)]
pub enum RetryEvent {
    Started,
    /// The interval between two attempts is over.
    Due,
    /// An attempt has ended, well or not.
    Tried(bool),
}

/// What is to be done next about the attempts to reach a backend again.
#[derive(Clone, Copy, PartialEq, Eq, Structural, Debug)]
pub enum RetryAction {
    /// Wait until the next attempt is due.
    Wait,
    /// Reset the client and try a connection.
    Connect,
    /// Nothing more.
    Stop,
}

/// A moment of the attempts to reach a backend again: those that are left, the backend
/// as it then is, and what has happened.
pub struct RetryMoment {
    pub left: nat,
    pub status: BackendStatus,
    pub retrying: bool,
    pub event: RetryEvent,
}

impl RetryMoment {
    /// Whether one of the attempts that are left is taken up.
    pub open spec fn goes_on(self) -> bool {
        match self.event {
            RetryEvent::Started => true,
            RetryEvent::Due => false,
            RetryEvent::Tried(good) => !good && !(self.status is ForceClosed),
        }
    }

    /// What is to be done next: only a backend that is down and not closed by the
    /// operator is tried, and only if no other attempt is under way.
    pub open spec fn action(self) -> RetryAction {
        match self.event {
            RetryEvent::Due => if (self.status is Closed || self.status is Unknown)
                && !self.retrying {
                RetryAction::Connect
            } else {
                RetryAction::Stop
            },
            _ => if self.goes_on() && self.left > 0 {
                RetryAction::Wait
            } else {
                RetryAction::Stop
            },
        }
    }

    /// The attempts that are left then.
    pub open spec fn left_then(self) -> nat {
        if self.action() is Wait {
            (self.left - 1) as nat
        } else {
            self.left
        }
    }
}

/// Takes the attempts to reach a backend again one step further.
pub fn retry_forever(backend: &mut Backend, plan: &mut RetryPlan, event: RetryEvent) -> (r:
    RetryAction)
    requires
        old(backend).wf(),
    ensures
        final(backend).wf(),
        final(backend).same_setup(old(backend)),
        final(backend).is_cancelled() == old(backend).is_cancelled(),
        ({
            let moment = RetryMoment {
                left: old(plan).left(),
                status: old(backend).status(),
                retrying: old(backend).is_retrying(),
                event,
            };
            &&& r == moment.action()
            &&& final(plan).left() == moment.left_then()
        }),
        match event {
            RetryEvent::Started => *final(backend) == *old(backend),
            RetryEvent::Due => final(backend).data() == old(backend).data()
                && final(backend).is_retrying() == (old(backend).is_retrying() || r is Connect),
            RetryEvent::Tried(good) => !final(backend).is_retrying() && final(backend).data() == (
            MetricView {
                status: status_after(old(backend).status(), BackendEvent::Retried(good)),
                ..old(backend).data()
            }),
        },
{
    match event {
        RetryEvent::Started => {
            if plan.tick() {
                RetryAction::Wait
            } else {
                RetryAction::Stop
            }
        },
        RetryEvent::Due => match backend.begin_retry() {
            RetryStep::Connect => RetryAction::Connect,
            RetryStep::Continue => RetryAction::Wait,
            RetryStep::Break => RetryAction::Stop,
        },
        RetryEvent::Tried(good) => match backend.end_retry(good) {
            RetryStep::Continue => {
                if plan.tick() {
                    RetryAction::Wait
                } else {
                    RetryAction::Stop
                }
            },
            RetryStep::Connect | RetryStep::Break => RetryAction::Stop,
        },
    }
}

/// What an action that was carried out comes to.
pub open spec fn comes_of(action: RetryAction, event: RetryEvent) -> bool {
    match action {
        RetryAction::Wait => event is Due,
        RetryAction::Connect => event is Tried,
        RetryAction::Stop => false,
    }
}

/// The moment at `i` follows on the one before it: its event comes of what was to be
/// done, and the attempts are those that were left. Anything may happen to the backend
/// in between.
pub open spec fn follows_on(run: Seq<RetryMoment>, i: int) -> bool {
    &&& comes_of(run[i - 1].action(), run[i].event)
    &&& run[i].left == run[i - 1].left_then()
}

/// Moments one after the other, from the first one on.
pub open spec fn is_retry_run(max_retries: u32, run: Seq<RetryMoment>) -> bool {
    &&& run.len() > 0 ==> run[0].event is Started && run[0].left == retry_rounds(max_retries)
    &&& forall|i: int| 0 < i < run.len() ==> #[trigger] follows_on(run, i)
}

/// How many connections were tried.
pub open spec fn attempts(run: Seq<RetryMoment>) -> nat
    decreases run.len(),
{
    if run.len() == 0 {
        0
    } else {
        attempts(run.drop_last()) + if run.last().action() is Connect {
            1nat
        } else {
            0
        }
    }
}

/// No more attempts are made to reach a backend again than the limit says. None is made
/// on a backend that is up or that the operator has closed, none after one that went
/// well, and none after one during which the operator closed the backend.
pub proof fn law_retries(max_retries: u32, run: Seq<RetryMoment>)
    requires
        is_retry_run(max_retries, run),
    ensures
        attempts(run) <= retry_rounds(max_retries),
        forall|i: int|
            0 <= i < run.len() && (#[trigger] run[i]).action() is Connect ==> run[i].status
                is Closed || run[i].status is Unknown,
        forall|i: int|
            0 <= i < run.len() && ((#[trigger] run[i]).event == RetryEvent::Tried(true) || (
            run[i].event is Tried && run[i].status is ForceClosed)) ==> i == run.len() - 1
                && !(run[i].action() is Connect),
{
    if run.len() > 0 {
        lemma_attempts(max_retries, run);
    }
    assert forall|i: int|
        0 <= i < run.len() && ((#[trigger] run[i]).event == RetryEvent::Tried(true) || (
        run[i].event is Tried && run[i].status is ForceClosed)) implies i == run.len() - 1
        && !(run[i].action() is Connect) by {
        assert(run[i].action() is Stop);
        if i < run.len() - 1 {
            assert(follows_on(run, i + 1));
        }
    }
}

proof fn lemma_attempts(max_retries: u32, run: Seq<RetryMoment>)
    requires
        run.len() > 0,
        is_retry_run(max_retries, run),
    ensures
        attempts(run) + run.last().left_then() + (if run.last().action() is Wait {
            1nat
        } else {
            0
        }) <= retry_rounds(max_retries),
    decreases run.len(),
{
    let before = run.drop_last();
    if before.len() > 0 {
        assert forall|i: int| 0 < i < before.len() implies #[trigger] follows_on(before, i) by {
            assert(follows_on(run, i));
        }
        lemma_attempts(max_retries, before);
        assert(follows_on(run, run.len() - 1));
    } else {
        assert(attempts(before) == 0);
    }
}

/// A tunnel that began and ended leaves the connections and the peers of its
/// backend as they were, however it ended.
pub proof fn law_tunnel_leaves_no_trace(
    data: MetricView,
    peer: SocketAddr,
    connection_time: Duration,
    outcome: TransferOutcome,
)
    ensures
        ({
            let after = data_after_tunnel(
                connection_begun(data, peer),
                connection_time,
                outcome,
                peer,
            );
            &&& after.active_connections == data.active_connections
            &&& after.active_peers == data.active_peers
            &&& after.status == data.status
        }),
{
    broadcast use vstd::multiset::group_multiset_axioms;

    assert(data.active_peers.insert(peer).remove(peer) =~= data.active_peers);
}

/// A backend that gave no stream is not up any more, and so is not tried again
/// for the same request before it was reached again.
pub proof fn law_failed_backend_is_down(data: MetricView)
    ensures
        !(data_after_failure(data).status is Normal),
{
}

/// After a tunnel that came to its end the backend has the time that it took to connect and
/// the time of the transfer, each as it was and neither for the other, the bytes of each
/// direction, and one connection of the peer fewer. Nothing else changes, least of all on
/// another backend, and no backend is to be reached again.
pub proof fn law_tunnel_that_came_to_its_end(
    config: &mut Config,
    peer: &mut PeerInfo,
    costs: &Vec<u64>,
    id: usize,
    connection_time: Duration,
    up: u64,
    down: u64,
    time: Duration,
    r: (TunnelAction, Option<usize>),
    k: int,
)
    requires
        call_ensures(
            handle_connection,
            (
                config,
                peer,
                costs,
                TunnelEvent::Ended(id, connection_time, TransferOutcome::Done(up, down, time)),
            ),
            r,
        ),
        id < old(config).backends@.len(),
        old(config).backends@[id as int].data().active_connections > 0,
    ensures
        r.0 is Finish,
        r.1 is None,
        ({
            let before = old(config).backends@[id as int].data();
            let after = final(config).backends@[id as int].data();
            &&& after.connection_time == connection_time
            &&& after.transmission_time == time
            &&& after.incoming_bytes == up
            &&& after.outgoing_bytes == down
            &&& after.total_incoming_bytes == before.total_incoming_bytes + (
            if before.total_incoming_bytes + up <= u64::MAX {
                up as int
            } else {
                0
            })
            &&& after.total_outgoing_bytes == before.total_outgoing_bytes + (
            if before.total_outgoing_bytes + down <= u64::MAX {
                down as int
            } else {
                0
            })
            &&& after.active_connections + 1 == before.active_connections
            &&& after.active_peers == before.active_peers.remove(old(peer).addr())
            &&& after.failures == before.failures
            &&& after.status == before.status
            &&& after.protocol == before.protocol
        }),
        final(config).backends@.len() == old(config).backends@.len(),
        0 <= k < old(config).backends@.len() && k != id ==> final(config).backends@[k] == old(config).backends@[k],
        final(config).balance == old(config).balance,
        final(config).host_rule == old(config).host_rule,
{
}

/// The time to connect that is counted goes by the time to connect alone, and that of the
/// transfer by the transfer alone: of two tunnels that differ only in how long the transfer
/// took, the one time is the same and the other is not.
pub proof fn law_times_are_counted_apart(
    config: &mut Config,
    other_config: &mut Config,
    peer: &mut PeerInfo,
    other_peer: &mut PeerInfo,
    costs: &Vec<u64>,
    id: usize,
    connection_time: Duration,
    up: u64,
    down: u64,
    time: Duration,
    other_time: Duration,
    r: (TunnelAction, Option<usize>),
    s: (TunnelAction, Option<usize>),
)
    requires
        *old(other_config) == *old(config),
        id < old(config).backends@.len(),
        old(config).backends@[id as int].data().active_connections > 0,
        time != other_time,
        call_ensures(
            handle_connection,
            (
                config,
                peer,
                costs,
                TunnelEvent::Ended(id, connection_time, TransferOutcome::Done(up, down, time)),
            ),
            r,
        ),
        call_ensures(
            handle_connection,
            (
                other_config,
                other_peer,
                costs,
                TunnelEvent::Ended(id, connection_time, TransferOutcome::Done(up, down, other_time)),
            ),
            s,
        ),
    ensures
        final(config).backends@[id as int].data().connection_time == final(other_config).backends@[id as int].data().connection_time,
        final(config).backends@[id as int].data().transmission_time != final(other_config).backends@[id as int].data().transmission_time,
{
}

/// After a tunnel that did not come to its end there is one failure more and one connection
/// of the peer fewer. The times and the bytes of the last transfer stay, and the reason is
/// what is handed on.
pub proof fn law_tunnel_that_did_not_come_to_its_end(
    config: &mut Config,
    peer: &mut PeerInfo,
    costs: &Vec<u64>,
    id: usize,
    connection_time: Duration,
    outcome: TransferOutcome,
    r: (TunnelAction, Option<usize>),
    k: int,
)
    requires
        call_ensures(
            handle_connection,
            (config, peer, costs, TunnelEvent::Ended(id, connection_time, outcome)),
            r,
        ),
        !(outcome is Done),
        id < old(config).backends@.len(),
        old(config).backends@[id as int].data().active_connections > 0,
    ensures
        outcome is Cancelled ==> r.0 == TunnelAction::Fail(TransferError::Cancelled),
        outcome matches TransferOutcome::Failed(message) ==> r.0 == TunnelAction::Fail(
            TransferError::Failed(message),
        ),
        r.1 is None,
        ({
            let before = old(config).backends@[id as int].data();
            let after = final(config).backends@[id as int].data();
            &&& after.failures == before.failures + 1
            &&& after.active_connections + 1 == before.active_connections
            &&& after.active_peers == before.active_peers.remove(old(peer).addr())
            &&& after.connection_time == before.connection_time
            &&& after.transmission_time == before.transmission_time
            &&& after.incoming_bytes == before.incoming_bytes
            &&& after.outgoing_bytes == before.outgoing_bytes
            &&& after.total_incoming_bytes == before.total_incoming_bytes
            &&& after.total_outgoing_bytes == before.total_outgoing_bytes
            &&& after.status == before.status
            &&& after.protocol == before.protocol
        }),
        final(config).backends@.len() == old(config).backends@.len(),
        0 <= k < old(config).backends@.len() && k != id ==> final(config).backends@[k] == old(config).backends@[k],
{
}

/// A backend that gave a stream has one connection more, of the peer, and the bytes are
/// copied through that backend. Nothing else changes.
pub proof fn law_tunnel_begins(
    config: &mut Config,
    peer: &mut PeerInfo,
    costs: &Vec<u64>,
    id: usize,
    r: (TunnelAction, Option<usize>),
    k: int,
)
    requires
        call_ensures(handle_connection, (config, peer, costs, TunnelEvent::Connected(id)), r),
        id < old(config).backends@.len(),
    ensures
        r.0 == TunnelAction::Transfer(id),
        r.1 is None,
        final(config).backends@[id as int].data() == (MetricView {
            active_connections: old(config).backends@[id as int].data().active_connections + 1,
            active_peers: old(config).backends@[id as int].data().active_peers.insert(
                old(peer).addr(),
            ),
            ..old(config).backends@[id as int].data()
        }),
        final(config).backends@.len() == old(config).backends@.len(),
        0 <= k < old(config).backends@.len() && k != id ==> final(config).backends@[k] == old(config).backends@[k],
{
}

/// A backend that gave no stream is down, unless the operator has closed it, and is to be
/// reached again. The request goes to another backend that is up, to the host itself, or
/// nowhere, but not to the same backend.
pub proof fn law_failed_backend_is_left(
    config: &mut Config,
    peer: &mut PeerInfo,
    costs: &Vec<u64>,
    id: usize,
    r: (TunnelAction, Option<usize>),
    k: int,
)
    requires
        call_ensures(handle_connection, (config, peer, costs, TunnelEvent::ConnectFailed(id)), r),
        id < old(config).backends@.len(),
    ensures
        r.1 == Some(id),
        final(config).backends@[id as int].data() == (MetricView {
            status: if old(config).backends@[id as int].data().status is ForceClosed {
                BackendStatus::ForceClosed
            } else {
                BackendStatus::Closed
            },
            ..old(config).backends@[id as int].data()
        }),
        r.0 matches TunnelAction::Connect(next, _) ==> next != id && next < old(config).backends@.len() && old(config).backends@[next as int].data().status is Normal,
        !(r.0 is Transfer) && !(r.0 is Fail),
        final(config).backends@.len() == old(config).backends@.len(),
        0 <= k < old(config).backends@.len() && k != id ==> final(config).backends@[k] == old(config).backends@[k],
{
}

/// A request whose backend gave no stream goes on as one that starts: to the host itself where
/// its rule says so, to a backend of the name in its rule or nowhere, and with the head for the
/// host that the peer asked for, under the name that the rule gives it.
pub proof fn law_request_goes_on(
    config: &mut Config,
    peer: &mut PeerInfo,
    costs: &Vec<u64>,
    id: usize,
    r: (TunnelAction, Option<usize>),
    name: Seq<char>,
    port: Seq<char>,
    section: SectionView,
)
    requires
        call_ensures(handle_connection, (config, peer, costs, TunnelEvent::ConnectFailed(id)), r),
        id < old(config).backends@.len() <= usize::MAX,
        old(peer).host() == name + seq![':'] + port,
        forall|j: int| 0 <= j < port.len() ==> port[j] != ':',
        final(peer).rule() == RulesView::GotRule(section),
    ensures
        section.direct <==> r.0 is ConnectDirect,
        !section.direct ==> (section.backend matches Some(wanted) ==> r.0 is Finish || (r.0
            matches TunnelAction::Connect(next, _) && next < old(config).backends@.len() && old(config).backends@[next as int].name() == wanted)),
        r.0 matches TunnelAction::Connect(_, head) ==> head.host() == (match section.rewrite {
            Some(new_name) => new_name,
            None => name,
        }) + seq![':'] + port,
        r.0 matches TunnelAction::ConnectDirect(head) ==> head.host() == (match section.rewrite {
            Some(new_name) => new_name,
            None => name,
        }) + seq![':'] + port,
{
    lemma_host_under_rule(old(peer).host(), name, port, section);
    let between = choose|between: Config|
        #[trigger] only_data_changed(
            *old(config),
            between,
            id,
            data_after_failure(old(config).backends@[id as int].data()),
        ) && next_hop(between, *final(config), *final(peer), costs@, r.0);
    if section.backend is Some {
        law_routed_to_its_backend(between.backends@, section.backend->0);
    }
}

/// A request that starts changes no backend and has none reached again. Where its rule asks
/// for the host itself it goes there, and where its rule names a backend it goes to one of
/// that name or nowhere. The head that opens the tunnel is for the host that the peer asked
/// for, under the name that the rule gives it.
pub proof fn law_request_starts(
    config: &mut Config,
    peer: &mut PeerInfo,
    costs: &Vec<u64>,
    r: (TunnelAction, Option<usize>),
    name: Seq<char>,
    port: Seq<char>,
    section: SectionView,
)
    requires
        call_ensures(handle_connection, (config, peer, costs, TunnelEvent::Started), r),
        old(peer).host() == name + seq![':'] + port,
        forall|j: int| 0 <= j < port.len() ==> port[j] != ':',
        final(peer).rule() == RulesView::GotRule(section),
        old(config).backends@.len() <= usize::MAX,
    ensures
        r.1 is None,
        final(peer).host() == old(peer).host(),
        final(peer).addr() == old(peer).addr(),
        final(config).backends == old(config).backends,
        section.direct <==> r.0 is ConnectDirect,
        !section.direct ==> (section.backend matches Some(wanted) ==> r.0 is Finish || (r.0
            matches TunnelAction::Connect(id, _) && id < old(config).backends@.len() && old(config).backends@[id as int].name() == wanted)),
        r.0 matches TunnelAction::Connect(id, _) ==> id < old(config).backends@.len() && old(config).backends@[id as int].data().status is Normal,
        r.0 matches TunnelAction::Connect(_, head) ==> head.host() == (match section.rewrite {
            Some(new_name) => new_name,
            None => name,
        }) + seq![':'] + port,
        r.0 matches TunnelAction::ConnectDirect(head) ==> head.host() == (match section.rewrite {
            Some(new_name) => new_name,
            None => name,
        }) + seq![':'] + port,
        r.0 is Connect || r.0 is ConnectDirect || r.0 is Finish,
{
    if section.backend is Some {
        law_routed_to_its_backend(old(config).backends@, section.backend->0);
    }
    lemma_host_under_rule(old(peer).host(), name, port, section);
}

/// A request is sorted by its authority and by its method: without an authority it is refused
/// as a bad request, and else it is for the host that the authority is, from the address that
/// it came from, for a tunnel exactly where the method says so.
pub proof fn law_requests_are_sorted(
    authority: Option<String>,
    is_connect: bool,
    addr: SocketAddr,
    r: IncomingConnection,
)
    requires
        call_ensures(incoming_connection, (authority, is_connect, addr), r),
    ensures
        r is Refused <==> authority is None,
        r matches IncomingConnection::Refused(status, _) ==> status == 400,
        r is ConnectMethod <==> authority is Some && is_connect,
        r matches IncomingConnection::ConnectMethod(peer) ==> peer.wf() && peer.host()
            == authority->0@ && peer.addr() == addr && peer.rule() is Unknown,
        r matches IncomingConnection::NonConnectMethod(peer) ==> peer.wf() && peer.host()
            == authority->0@ && peer.addr() == addr && peer.rule() is Unknown,
{
}

/// An event is taken in exactly where the backend that it is about is there and its counters
/// stay in range. One that is taken in as the begin of a tunnel is so as its end as well.
pub proof fn law_events_that_are_taken_in(
    config: &Config,
    peer: &PeerInfo,
    id: usize,
    failed: bool,
    begun: bool,
)
    requires
        call_ensures(takes_event, (config, peer, &TunnelEvent::ConnectFailed(id)), failed),
        call_ensures(takes_event, (config, peer, &TunnelEvent::Connected(id)), begun),
    ensures
        failed <==> id < config.backends@.len(),
        begun ==> failed,
        id < config.backends@.len() && config.backends@[id as int].data().active_connections
            < 0xffff_ffff && config.backends@[id as int].data().active_peers.count(peer.addr())
            < 0xffff_ffff <==> begun,
{
}

/// Attempts to reach a backend again go on as long as some are left: one fewer each time, and
/// as many in all as the limit says, where zero stands for no limit short of what can be
/// counted.
pub proof fn law_attempts_are_counted_down(
    max_retries: u32,
    plan: RetryPlan,
    ticking: &mut RetryPlan,
    due: bool,
)
    requires
        call_ensures(RetryPlan::new, (max_retries,), plan),
        call_ensures(RetryPlan::tick, (ticking,), due),
    ensures
        max_retries != 0 ==> plan.left() == max_retries,
        max_retries == 0 ==> plan.left() == 0xffff_ffff,
        due <==> old(ticking).left() > 0,
        due ==> final(ticking).left() + 1 == old(ticking).left(),
        !due ==> final(ticking).left() == 0,
{
}

/// A step of the attempts to reach a backend again: the first only waits. When an attempt is
/// due, a connection is tried where the backend is down and nobody else is at it. After one
/// that went well the backend is up and the attempts stop, after one that failed they go on
/// as long as some are left, and what the operator has closed is left alone.
pub proof fn law_step_of_the_attempts(
    backend: &mut Backend,
    plan: &mut RetryPlan,
    event: RetryEvent,
    r: RetryAction,
)
    requires
        call_ensures(retry_forever, (backend, plan, event), r),
    ensures
        r is Connect <==> event is Due && !old(backend).is_retrying() && (old(backend).data().status
            is Closed || old(backend).data().status is Unknown),
        r is Wait <==> old(plan).left() > 0 && (event is Started || (event == RetryEvent::Tried(
            false,
        ) && !(old(backend).data().status is ForceClosed))),
        r is Wait ==> final(plan).left() + 1 == old(plan).left(),
        !(r is Wait) ==> final(plan).left() == old(plan).left(),
        event == RetryEvent::Tried(true) && !(old(backend).data().status is ForceClosed) ==> final(backend).data().status is Normal,
        event == RetryEvent::Tried(false) && !(old(backend).data().status is ForceClosed) ==> final(backend).data().status is Closed,
        old(backend).data().status is ForceClosed || !(event is Tried) ==> final(backend).data().status == old(backend).data().status,
        final(backend).data() == (MetricView {
            status: final(backend).data().status,
            ..old(backend).data()
        }),
        event is Tried ==> !final(backend).is_retrying(),
        r is Connect ==> final(backend).is_retrying(),
        final(backend).mix_client() == old(backend).mix_client(),
{
}

/// Whatever happens to a request, the rule for its host is the one that the configuration has
/// for the name of the host from then on, and where that has none it is known that there is
/// none. The peer and the host that it asks for stay.
pub proof fn law_rule_is_looked_up(
    config: &mut Config,
    peer: &mut PeerInfo,
    costs: &Vec<u64>,
    event: TunnelEvent,
    r: (TunnelAction, Option<usize>),
    name: Seq<char>,
    port: Seq<char>,
)
    requires
        call_ensures(handle_connection, (config, peer, costs, event), r),
        old(peer).host() == name + seq![':'] + port,
        forall|j: int| 0 <= j < port.len() ==> port[j] != ':',
    ensures
        final(peer).host() == old(peer).host(),
        final(peer).addr() == old(peer).addr(),
        old(config).host_rule matches Some(ruler) ==> (!(old(peer).rule() is NoRule) ==> final(peer).rule() == (if ruler@.contains_key(name) {
            RulesView::GotRule(ruler@[name])
        } else {
            RulesView::NoRule
        })),
        old(peer).rule() is NoRule || old(config).host_rule is None ==> final(peer).rule() == old(peer).rule(),
{
    lemma_hostname(old(peer).host(), name, port);
}

/// A request without a rule goes to a backend that is up, where there is one that is up and the
/// picks are not made in turn, with the head for the host as it was asked for, and is over
/// where none is up.
pub proof fn law_request_without_a_rule(
    config: &mut Config,
    peer: &mut PeerInfo,
    costs: &Vec<u64>,
    r: (TunnelAction, Option<usize>),
    k: int,
    name: Seq<char>,
    port: Seq<char>,
)
    requires
        call_ensures(handle_connection, (config, peer, costs, TunnelEvent::Started), r),
        !(final(peer).rule() is GotRule),
        0 <= k < old(config).backends@.len() <= usize::MAX,
        old(peer).host() == name + seq![':'] + port,
        forall|j: int| 0 <= j < port.len() ==> port[j] != ':',
    ensures
        r.0 is Connect || r.0 is Finish,
        r.0 matches TunnelAction::Connect(id, head) ==> id < old(config).backends@.len() && old(config).backends@[id as int].data().status is Normal && head.wf() && head.host() == name + seq![':'] + port,
        old(config).backends@[k].data().status is Normal && !(old(config).balance is RoundRobin)
            ==> r.0 is Connect,
        (forall|j: int|
            0 <= j < old(config).backends@.len() ==> !((#[trigger] old(config).backends@[j]).data().status is Normal)) ==> r.0 is Finish,
        final(config).backends == old(config).backends,
{
    lemma_hostname(old(peer).host(), name, port);
    lemma_valid_host(old(peer).host(), name, port);
    lemma_available(old(config).backends@, costs@);
    let items = available(old(config).backends@, costs@);
    if old(config).backends@[k].data().status is Normal {
        assert(old(config).backends@[k].status() is Normal);
        assert(items.contains(ConfigBackend { id: k as usize, cost: costs@[k] }));
    }
}

} // verus!
