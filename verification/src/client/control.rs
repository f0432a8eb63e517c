//! The metric service: what it answers, and what an operator can do through it.

use vstd::prelude::*;
use crate::client::backends::{
    can_be_set_up, client_built, client_of, status_after, Backend, BackendError, BackendEvent,
    ClientFiles, FileBackendConfig,
};
use crate::client::config::Config;
use crate::client::metric::reset_done;
use crate::metric::{BackendMetric, MetricApiReq, MetricApiResp, MetricView};

verus! {

/// A message on the web socket of the metric service.
#[derive(Clone, Copy, PartialEq, Eq, Structural, Debug)]
pub enum SocketMessage {
    Binary,
    Text,
    Ping,
    Pong,
    Close,
}

/// What is done about a message.
#[derive(Clone, Copy, PartialEq, Eq, Structural, Debug)]
pub enum SocketStep {
    /// It is a request, and answered.
    Answer,
    Skip,
    /// The conversation is over.
    Stop,
}

/// What is done about a message: only binary ones are requests.
pub fn socket_step(message: SocketMessage) -> (r: SocketStep)
    ensures
        r == match message {
            SocketMessage::Binary => SocketStep::Answer,
            SocketMessage::Close => SocketStep::Stop,
            _ => SocketStep::Skip,
        },
{
    match message {
        SocketMessage::Binary => SocketStep::Answer,
        SocketMessage::Text | SocketMessage::Ping | SocketMessage::Pong => SocketStep::Skip,
        SocketMessage::Close => SocketStep::Stop,
    }
}

/// What is left to do after a request was answered. The tunnels of the backend
/// are cut before.
#[derive(Clone, Copy, PartialEq, Eq, Structural, Debug)]
pub enum ControlAction {
    Nothing,
    /// The tunnels of the backend stay cut.
    Cut(usize),
    /// New tunnels may begin, and the backend is to be reached again.
    Retry(usize),
    /// The connection of the backend is closed, and new tunnels may begin.
    ResetClient(usize),
    /// The backend has a new client, and new tunnels may begin.
    NewClient(usize),
}

/// The names and the counters of a backend are those that `m` shows.
pub open spec fn shows(m: BackendMetric, backend: Backend) -> bool {
    &&& m.backend_name@ == backend.name()
    &&& m.address@ == backend.metrics().address()
    &&& m.domain@ == backend.metrics().domain()
    &&& m.metric@ == backend.data()
}

/// The metrics of all backends, in order.
pub fn get_all_backends(config: &Config) -> (r: Vec<BackendMetric>)
    ensures
        r@.len() == config.backends@.len(),
        forall|i: int|
            0 <= i < r@.len() ==> shows(#[trigger] r@[i], config.backends@[i]),
{
    let mut r: Vec<BackendMetric> = Vec::new();
    let mut i: usize = 0;
    while i < config.backends.len()
        invariant
            i <= config.backends@.len(),
            r@.len() == i,
            forall|k: int| 0 <= k < i ==> shows(#[trigger] r@[k], config.backends@[k]),
        decreases config.backends@.len() - i,
    {
        if let Some(m) = config.backends[i].get_metric() {
            r.push(m);
        }
        i = i + 1;
    }
    r
}

/// Only the backend at `id` may differ.
pub open spec fn others_stay(before: Config, after: Config, id: usize) -> bool {
    &&& after.backends@.len() == before.backends@.len()
    &&& forall|i: int|
        0 <= i < before.backends@.len() && i != id ==> #[trigger] after.backends@[i]
            == before.backends@[i]
    &&& after == (Config { backends: after.backends, ..before })
}

/// The text of the answer to a request about a backend that is not there.
pub open spec fn no_such_backend(resp: MetricApiResp) -> bool {
    resp matches MetricApiResp::Error { msg } && msg@ == "no suck backends"@
}

/// A backend as it is after a reset by the operator.
pub open spec fn was_reset(before: Backend, after: Backend) -> bool {
    &&& after.same_setup(&before)
    &&& after.data() == reset_done(before.data())
    &&& !after.is_cancelled()
    &&& !after.is_retrying()
}

/// A backend as it is after the operator switched it.
pub open spec fn was_switched(before: Backend, after: Backend) -> bool {
    &&& after.same_setup(&before)
    &&& after.data() == (MetricView {
        status: status_after(before.status(), BackendEvent::Switched),
        ..before.data()
    })
    &&& after.is_cancelled() == !(before.status() is ForceClosed)
    &&& after.is_retrying() == (!(before.status() is ForceClosed) && before.is_retrying())
}

/// Switches a backend on or off. Gives back whether it is to be reached again,
/// nothing where there is no such backend.
pub fn switch_backend_status(backend_id: usize, config: &mut Config) -> (r: Option<bool>)
    requires
        old(config).wf(),
    ensures
        final(config).wf(),
        others_stay(*old(config), *final(config), backend_id),
        match r {
            Some(retry) => {
                &&& backend_id < old(config).backends@.len()
                &&& retry == (old(config).backends@[backend_id as int].status() is ForceClosed)
                &&& was_switched(
                    old(config).backends@[backend_id as int],
                    final(config).backends@[backend_id as int],
                )
            },
            None => backend_id >= old(config).backends@.len(),
        },
{
    if backend_id < config.backends.len() {
        Some(config.backends[backend_id].switch_status())
    } else {
        None
    }
}

/// Starts a backend over. Says whether there is such a backend.
pub fn reset_backend(backend_id: usize, config: &mut Config) -> (r: bool)
    requires
        old(config).wf(),
    ensures
        final(config).wf(),
        others_stay(*old(config), *final(config), backend_id),
        r == (backend_id < old(config).backends@.len()),
        r ==> was_reset(
            old(config).backends@[backend_id as int],
            final(config).backends@[backend_id as int],
        ),
{
    if backend_id < config.backends.len() {
        config.backends[backend_id].reset();
        true
    } else {
        false
    }
}

/// The other protocol of the backend at `id` is within its range.
pub open spec fn can_switch_protocol(config: Config, id: usize) -> bool {
    id < config.backends@.len() && config.backends@[id as int].config().protocol is HTTP2
        ==> config.backends@[id as int].config().quic.in_range()
}

/// A backend as it is after the operator took it over to its other protocol, which
/// is done where the new client can be set up. Where that could not be, the protocol
/// is the other one all the same, and the streams stay cut.
pub open spec fn changed_over(before: Backend, after: Backend, files: ClientFiles, done: bool) -> bool {
    &&& after.config() == (FileBackendConfig {
        protocol: before.config().protocol.spec_other(),
        ..before.config()
    })
    &&& after.metrics().same_names(&before.metrics())
    &&& after.retry_secs() == before.retry_secs()
    &&& after.retry_limit() == before.retry_limit()
    &&& can_be_set_up(after.config(), files) ==> done
    &&& if done {
        &&& client_of(after.config(), files, after.mix_client())
        &&& !after.is_cancelled()
        &&& !after.is_retrying()
        &&& after.data() == reset_done(
            MetricView { protocol: before.config().protocol.spec_other(), ..before.data() },
        )
    } else {
        &&& exists|e: BackendError| #[trigger] client_built(after.config(), files, Err(e))
        &&& after.is_cancelled()
        &&& after.is_retrying() == before.is_retrying()
        &&& after.mix_client() == before.mix_client()
        &&& after.data() == before.data()
    }
}

/// Takes a backend over to its other protocol. Gives back the message where that
/// failed.
pub fn switch_backend_protocol(
    backend_id: usize,
    config: &mut Config,
    files: &ClientFiles,
) -> (r: Result<(), String>)
    requires
        old(config).wf(),
        can_switch_protocol(*old(config), backend_id),
    ensures
        final(config).wf(),
        others_stay(*old(config), *final(config), backend_id),
        if backend_id < old(config).backends@.len() {
            &&& changed_over(
                old(config).backends@[backend_id as int],
                final(config).backends@[backend_id as int],
                *files,
                r is Ok,
            )
            &&& r matches Err(message) ==> message@ == "Could not build client from backend file"@
        } else {
            r matches Err(message) && message@ == "no suck backends"@
        },
{
    if backend_id < config.backends.len() {
        config.backends[backend_id].cancel();
        match config.backends[backend_id].switch_protocol(files) {
            Ok(_) => Ok(()),
            Err(e) => Err(e.message()),
        }
    } else {
        Err("no suck backends".to_owned())
    }
}

/// The answer to a request for the other protocol of a backend, and what is left to
/// do, given what came of it and whether there is such a backend.
pub fn protocol_answer(backend_id: usize, known: bool, switched: Result<(), String>) -> (r: (
    MetricApiResp,
    ControlAction,
))
    ensures
        match switched {
            Ok(_) => r.0 is SwitchBackendProtocol && r.1 == ControlAction::NewClient(backend_id),
            Err(message) => r.0 == (MetricApiResp::Error { msg: message }) && r.1 == if known {
                ControlAction::Cut(backend_id)
            } else {
                ControlAction::Nothing
            },
        },
{
    match switched {
        Ok(_) => (MetricApiResp::SwitchBackendProtocol, ControlAction::NewClient(backend_id)),
        Err(msg) => (
            MetricApiResp::Error { msg },
            if known {
                ControlAction::Cut(backend_id)
            } else {
                ControlAction::Nothing
            },
        ),
    }
}

/// Whether the answer and what is left to do fit a request and what it changed.
pub open spec fn answered(
    req: MetricApiReq,
    files: ClientFiles,
    before: Config,
    after: Config,
    r: (MetricApiResp, ControlAction),
) -> bool {
    match req {
        MetricApiReq::AllBackends => {
            &&& after == before
            &&& r.1 is Nothing
            &&& r.0 matches MetricApiResp::AllBackends { items } && items@.len()
                == before.backends@.len() && forall|i: int|
                0 <= i < items@.len() ==> shows(#[trigger] items@[i], before.backends@[i])
        },
        MetricApiReq::SwitchBackendStatus { backend_id } => if backend_id
            < before.backends@.len() {
            let was = before.backends@[backend_id as int];
            &&& r.0 is SwitchBackendStatus
            &&& was_switched(was, after.backends@[backend_id as int])
            &&& r.1 == if was.status() is ForceClosed {
                ControlAction::Retry(backend_id)
            } else {
                ControlAction::Cut(backend_id)
            }
        } else {
            no_such_backend(r.0) && r.1 is Nothing
        },
        MetricApiReq::ResetBackend { backend_id } => if backend_id < before.backends@.len() {
            &&& r.0 is ResetBackend
            &&& was_reset(
                before.backends@[backend_id as int],
                after.backends@[backend_id as int],
            )
            &&& r.1 == ControlAction::ResetClient(backend_id)
        } else {
            no_such_backend(r.0) && r.1 is Nothing
        },
        MetricApiReq::SwitchBackendProtocol { backend_id } => if backend_id
            < before.backends@.len() {
            &&& changed_over(
                before.backends@[backend_id as int],
                after.backends@[backend_id as int],
                files,
                r.0 is SwitchBackendProtocol,
            )
            &&& match r.0 {
                MetricApiResp::SwitchBackendProtocol => r.1 == ControlAction::NewClient(backend_id),
                MetricApiResp::Error { msg } => r.1 == ControlAction::Cut(backend_id) && msg@
                    == "Could not build client from backend file"@,
                _ => false,
            }
        } else {
            no_such_backend(r.0) && r.1 is Nothing
        },
    }
}

/// The backend that a request is about, if it is about one.
pub open spec fn target(req: MetricApiReq) -> Option<usize> {
    match req {
        MetricApiReq::AllBackends => None,
        MetricApiReq::SwitchBackendStatus { backend_id } => Some(backend_id),
        MetricApiReq::ResetBackend { backend_id } => Some(backend_id),
        MetricApiReq::SwitchBackendProtocol { backend_id } => Some(backend_id),
    }
}

/// Answers a request of the metric service. The files are those of the backend
/// that goes over to another protocol.
pub fn backend_metric_switcher(req: MetricApiReq, config: &mut Config, files: &ClientFiles) -> (r: (
    MetricApiResp,
    ControlAction,
))
    requires
        old(config).wf(),
        req matches MetricApiReq::SwitchBackendProtocol { backend_id } ==> can_switch_protocol(
            *old(config),
            backend_id,
        ),
    ensures
        final(config).wf(),
        answered(req, *files, *old(config), *final(config), r),
        target(req) matches Some(id) ==> others_stay(*old(config), *final(config), id),
{
    match req {
        MetricApiReq::AllBackends => (
            MetricApiResp::AllBackends { items: get_all_backends(config) },
            ControlAction::Nothing,
        ),
        MetricApiReq::SwitchBackendStatus { backend_id } => {
            match switch_backend_status(backend_id, config) {
                Some(true) => (
                    MetricApiResp::SwitchBackendStatus,
                    ControlAction::Retry(backend_id),
                ),
                Some(false) => (MetricApiResp::SwitchBackendStatus, ControlAction::Cut(backend_id)),
                None => (
                    MetricApiResp::Error { msg: "no suck backends".to_owned() },
                    ControlAction::Nothing,
                ),
            }
        },
        MetricApiReq::ResetBackend { backend_id } => {
            if reset_backend(backend_id, config) {
                (MetricApiResp::ResetBackend, ControlAction::ResetClient(backend_id))
            } else {
                (
                    MetricApiResp::Error { msg: "no suck backends".to_owned() },
                    ControlAction::Nothing,
                )
            }
        },
        MetricApiReq::SwitchBackendProtocol { backend_id } => {
            let known: bool = backend_id < config.backends.len();
            let switched = switch_backend_protocol(backend_id, config, files);
            protocol_answer(backend_id, known, switched)
        },
    }
}

/// A request for all backends changes nothing and is answered with the names and the counters
/// of each, in their order.
pub proof fn law_all_backends_are_shown(
    config: &mut Config,
    files: &ClientFiles,
    r: (MetricApiResp, ControlAction),
    i: int,
)
    requires
        call_ensures(backend_metric_switcher, (MetricApiReq::AllBackends, config, files), r),
    ensures
        *final(config) == *old(config),
        r.1 is Nothing,
        r.0 matches MetricApiResp::AllBackends { items } && items@.len()
            == old(config).backends@.len() && (0 <= i < items@.len() ==> {
            let backend = old(config).backends@[i];
            &&& items@[i].backend_name@ == backend.name()
            &&& items@[i].address@ == backend.metrics().address()
            &&& items@[i].domain@ == backend.metrics().domain()
            &&& items@[i].metric@ == backend.data()
        }),
{
}

/// A request to switch a backend on or off closes one that the operator has not closed and
/// cuts its tunnels, and has one that was closed reached again. It keeps the counters.
pub proof fn law_switched_on_or_off(
    config: &mut Config,
    files: &ClientFiles,
    id: usize,
    r: (MetricApiResp, ControlAction),
    k: int,
)
    requires
        call_ensures(
            backend_metric_switcher,
            (MetricApiReq::SwitchBackendStatus { backend_id: id }, config, files),
            r,
        ),
    ensures
        id < old(config).backends@.len() ==> {
            let before = old(config).backends@[id as int];
            let after = final(config).backends@[id as int];
            &&& r.0 is SwitchBackendStatus
            &&& before.data().status is ForceClosed ==> r.1 == ControlAction::Retry(id)
                && after.data().status is Unknown && !after.is_cancelled()
            &&& !(before.data().status is ForceClosed) ==> r.1 == ControlAction::Cut(id)
                && after.data().status is ForceClosed && after.is_cancelled()
            &&& after.data() == (MetricView { status: after.data().status, ..before.data() })
            &&& after.mix_client() == before.mix_client()
            &&& after.config() == before.config()
            &&& after.metrics().name() == before.metrics().name()
        },
        final(config).backends@.len() == old(config).backends@.len(),
        0 <= k < old(config).backends@.len() && k != id ==> final(config).backends@[k] == old(config).backends@[k],
        final(config).balance == old(config).balance,
        final(config).host_rule == old(config).host_rule,
{
}

/// A request to start a backend over forgets its connections and its failures, keeps its
/// status and its totals, and has its connection closed.
pub proof fn law_started_over(
    config: &mut Config,
    files: &ClientFiles,
    id: usize,
    r: (MetricApiResp, ControlAction),
    k: int,
)
    requires
        call_ensures(
            backend_metric_switcher,
            (MetricApiReq::ResetBackend { backend_id: id }, config, files),
            r,
        ),
    ensures
        id < old(config).backends@.len() ==> {
            let before = old(config).backends@[id as int];
            let after = final(config).backends@[id as int];
            &&& r.0 is ResetBackend
            &&& r.1 == ControlAction::ResetClient(id)
            &&& after.data().active_connections == 0
            &&& after.data().failures == 0
            &&& after.data().active_peers.len() == 0
            &&& after.data().status == before.data().status
            &&& after.data().protocol == before.data().protocol
            &&& after.data().total_incoming_bytes == before.data().total_incoming_bytes
            &&& after.data().total_outgoing_bytes == before.data().total_outgoing_bytes
            &&& after.data().connection_time == before.data().connection_time
            &&& !after.is_cancelled()
            &&& !after.is_retrying()
            &&& after.mix_client() == before.mix_client()
            &&& after.metrics().name() == before.metrics().name()
        },
        final(config).backends@.len() == old(config).backends@.len(),
        0 <= k < old(config).backends@.len() && k != id ==> final(config).backends@[k] == old(config).backends@[k],
{
    broadcast use vstd::multiset::group_multiset_axioms;

}

/// A request for the other protocol chooses it, and where its client could be set up the
/// backend has that client and starts over. Where it could not, the tunnels stay cut, and
/// the client and the counters are as they were.
pub proof fn law_taken_over_to_the_other_protocol(
    config: &mut Config,
    files: &ClientFiles,
    id: usize,
    r: (MetricApiResp, ControlAction),
    k: int,
)
    requires
        call_ensures(
            backend_metric_switcher,
            (MetricApiReq::SwitchBackendProtocol { backend_id: id }, config, files),
            r,
        ),
    ensures
        id < old(config).backends@.len() ==> {
            let before = old(config).backends@[id as int];
            let after = final(config).backends@[id as int];
            &&& before.config().protocol is HTTP2 <==> after.config().protocol is Quic
            &&& r.0 is SwitchBackendProtocol || r.0 is Error
            &&& r.0 is SwitchBackendProtocol ==> {
                &&& r.1 == ControlAction::NewClient(id)
                &&& after.mix_client() is Quic <==> before.config().protocol is HTTP2
                &&& after.data().protocol == after.config().protocol
                &&& after.data().active_connections == 0
                &&& after.data().failures == 0
                &&& after.data().status == before.data().status
                &&& after.data().total_incoming_bytes == before.data().total_incoming_bytes
                &&& !after.is_cancelled()
            }
            &&& r.0 is Error ==> {
                &&& r.1 == ControlAction::Cut(id)
                &&& after.mix_client() == before.mix_client()
                &&& after.data() == before.data()
                &&& after.is_cancelled()
            }
            &&& after.metrics().name() == before.metrics().name()
        },
        final(config).backends@.len() == old(config).backends@.len(),
        0 <= k < old(config).backends@.len() && k != id ==> final(config).backends@[k] == old(config).backends@[k],
{
}

/// A request about a backend that is not there is answered by an error and changes nothing.
pub proof fn law_no_such_backend(
    config: &mut Config,
    files: &ClientFiles,
    req: MetricApiReq,
    id: usize,
    r: (MetricApiResp, ControlAction),
    k: int,
)
    requires
        call_ensures(backend_metric_switcher, (req, config, files), r),
        req == (MetricApiReq::SwitchBackendStatus { backend_id: id }) || req == (
        MetricApiReq::SwitchBackendProtocol { backend_id: id }) || req == (
        MetricApiReq::ResetBackend { backend_id: id }),
        id >= old(config).backends@.len(),
    ensures
        r.0 is Error,
        r.1 is Nothing,
        final(config).backends@.len() == old(config).backends@.len(),
        0 <= k < old(config).backends@.len() ==> final(config).backends@[k] == old(config).backends@[k],
{
}

/// Only binary messages are requests, and only a message that closes the conversation ends it.
pub proof fn law_only_binary_messages_are_requests(message: SocketMessage, r: SocketStep)
    requires
        call_ensures(socket_step, (message,), r),
    ensures
        r is Answer <==> message is Binary,
        r is Stop <==> message is Close,
{
}

} // verus!
