//! The connection to a backend and the streams over it.

use vstd::prelude::*;
use crate::addr::SocketAddr;
use crate::metric::BackendProtocol;
use crate::text::followed_by;

verus! {

/// Why no stream to a backend could be had.
pub enum StreamError {
    /// An earlier connection failed, and nobody has reset the client since.
    Poisoned,
    /// The attempt was cancelled.
    Cancelled,
    Failed(String),
}

impl StreamError {
    /// What the error says.
    pub fn message(&self) -> (r: String)
        ensures
            r@ == match self {
                StreamError::Poisoned => "connection is poisoned"@,
                StreamError::Cancelled => "try_connect is cancelled"@,
                StreamError::Failed(message) => message@,
            },
    {
        match self {
            StreamError::Poisoned => "connection is poisoned".to_owned(),
            StreamError::Cancelled => "try_connect is cancelled".to_owned(),
            StreamError::Failed(message) => message.clone(),
        }
    }
}

/// The state of a client: at most one connection, over which streams are opened.
pub enum ClientState<SR> {
    /// A connection could not be made. No further attempt before a reset.
    Poisoned,
    NotConnected,
    Connected(SR),
}

/// What is to be done for a stream.
pub enum StreamStep {
    /// Give up.
    Refuse,
    /// Make a connection first, and say how that went.
    Connect,
    /// Open the stream over the connection that is there.
    Open,
}

/// What is to be done for a stream, given whether the connection that is there
/// has ended.
pub open spec fn stream_step<SR>(state: ClientState<SR>, finished: bool) -> StreamStep {
    match state {
        ClientState::Poisoned => StreamStep::Refuse,
        ClientState::NotConnected => StreamStep::Connect,
        ClientState::Connected(_) => if finished {
            StreamStep::Connect
        } else {
            StreamStep::Open
        },
    }
}

/// The state once it is clear what is to be done for a stream: a connection that
/// has ended is forgotten.
pub open spec fn stepped<SR>(state: ClientState<SR>, finished: bool) -> ClientState<SR> {
    if state is Connected && finished {
        ClientState::NotConnected
    } else {
        state
    }
}

/// The state after an attempt to make a connection.
pub open spec fn dialed<SR>(made: Option<SR>) -> ClientState<SR> {
    match made {
        Some(client) => ClientState::Connected(client),
        None => ClientState::Poisoned,
    }
}

/// A client of one backend.
pub struct Client<SR> {
    inner: ClientState<SR>,
}

impl<SR> Client<SR> {
    /// The state of the client.
    pub closed spec fn state(&self) -> ClientState<SR> {
        self.inner
    }

    /// A client without a connection.
    pub fn new() -> (r: Self)
        ensures
            r.state() is NotConnected,
    {
        Client { inner: ClientState::NotConnected }
    }

    /// The state of the client.
    pub fn get_state(&self) -> (r: &ClientState<SR>)
        ensures
            *r == self.state(),
    {
        &self.inner
    }

    /// Forgets the connection and any failure. Gives back the connection that
    /// was there, which is to be closed.
    pub fn reset_client(&mut self) -> (r: Option<SR>)
        ensures
            final(self).state() is NotConnected,
            r == match old(self).state() {
                ClientState::Connected(client) => Some(client),
                _ => None,
            },
    {
        let mut inner = ClientState::NotConnected;
        std::mem::swap(&mut inner, &mut self.inner);
        match inner {
            ClientState::Connected(client) => Some(client),
            ClientState::NotConnected => None,
            ClientState::Poisoned => None,
        }
    }

    /// What is to be done for a stream, given whether the connection that is
    /// there has ended.
    pub fn new_stream_step(&mut self, finished: bool) -> (r: StreamStep)
        ensures
            r == stream_step(old(self).state(), finished),
            final(self).state() == stepped(old(self).state(), finished),
    {
        match &self.inner {
            ClientState::Poisoned => StreamStep::Refuse,
            ClientState::NotConnected => StreamStep::Connect,
            ClientState::Connected(_) => {
                if finished {
                    self.inner = ClientState::NotConnected;
                    StreamStep::Connect
                } else {
                    StreamStep::Open
                }
            },
        }
    }

    /// Notes how an attempt to make a connection went.
    pub fn dial_done(&mut self, made: Option<SR>)
        requires
            old(self).state() is NotConnected,
        ensures
            final(self).state() == dialed(made),
    {
        self.inner = match made {
            Some(client) => ClientState::Connected(client),
            None => ClientState::Poisoned,
        };
    }
}

/// What one request for a stream comes to: the state after it, and whether there
/// is a connection to open the stream over. A connection is made only where it is
/// asked for, and `made` is how that went.
pub open spec fn stream_request<SR>(
    state: ClientState<SR>,
    finished: bool,
    made: Option<SR>,
) -> (ClientState<SR>, bool) {
    match stream_step(state, finished) {
        StreamStep::Refuse => (stepped(state, finished), false),
        StreamStep::Open => (stepped(state, finished), true),
        StreamStep::Connect => (dialed(made), made is Some),
    }
}

/// The states after requests for streams, one after the other.
pub open spec fn after_requests<SR>(
    state: ClientState<SR>,
    requests: Seq<(bool, Option<SR>)>,
) -> ClientState<SR>
    decreases requests.len(),
{
    if requests.len() == 0 {
        state
    } else {
        let before = after_requests(state, requests.drop_last());
        stream_request(before, requests.last().0, requests.last().1).0
    }
}

/// A poisoned client refuses every stream, however many are asked for, until it
/// is reset.
pub proof fn law_poisoned_until_reset<SR>(
    requests: Seq<(bool, Option<SR>)>,
    finished: bool,
    made: Option<SR>,
)
    ensures
        after_requests(ClientState::<SR>::Poisoned, requests) is Poisoned,
        !stream_request(after_requests(ClientState::<SR>::Poisoned, requests), finished, made).1,
    decreases requests.len(),
{
    if requests.len() > 0 {
        law_poisoned_until_reset(requests.drop_last(), finished, made);
    }
}

/// A client that was reset makes a new connection for the next stream, and has
/// the stream if that can be made.
pub proof fn law_reset_reconnects<SR>(finished: bool, made: Option<SR>)
    ensures
        stream_request(ClientState::<SR>::NotConnected, finished, made) == (
            dialed(made),
            made is Some,
        ),
{
}

/// A request for a stream is refused only where the client is poisoned after it.
pub proof fn law_refusal_poisons<SR>(state: ClientState<SR>, finished: bool, made: Option<SR>)
    ensures
        !stream_request(state, finished, made).1 <==> stream_request(
            state,
            finished,
            made,
        ).0 is Poisoned,
{
}

/// Where QUIC connections to a backend go.
pub struct QuicConnConfig {
    last_addrs: Option<(SocketAddr, SocketAddr)>,
    ipv4_only: bool,
}

/// The local address to connect from: any address of the same family, any port.
pub open spec fn endpoint_for(remote: SocketAddr) -> SocketAddr {
    match remote {
        SocketAddr::V4 { .. } => SocketAddr::V4 { ip: 0, port: 0 },
        SocketAddr::V6 { .. } => SocketAddr::V6 { ip: 0, port: 0, flowinfo: 0, scope_id: 0 },
    }
}

/// The addresses to try out of those that a name resolved to, in order, each with
/// the local address.
pub open spec fn candidates(resolved: Seq<SocketAddr>, ipv4_only: bool) -> Seq<
    (SocketAddr, SocketAddr),
>
    decreases resolved.len(),
{
    if resolved.len() == 0 {
        Seq::empty()
    } else {
        let before = candidates(resolved.drop_last(), ipv4_only);
        if resolved.last() is V6 && ipv4_only {
            before
        } else {
            before.push((resolved.last(), endpoint_for(resolved.last())))
        }
    }
}

impl QuicConnConfig {
    /// The addresses of the last connection.
    pub closed spec fn last(&self) -> Option<(SocketAddr, SocketAddr)> {
        self.last_addrs
    }

    /// Whether only IPv4 addresses are tried.
    pub closed spec fn only_v4(&self) -> bool {
        self.ipv4_only
    }

    /// No connection was made yet.
    pub fn new(ipv4_only: bool) -> (r: Self)
        ensures
            r.last() is None,
            r.only_v4() == ipv4_only,
    {
        QuicConnConfig { last_addrs: None, ipv4_only }
    }

    /// The addresses of the last connection, which alone are tried where there
    /// are such.
    pub fn last_addrs(&self) -> (r: Option<(SocketAddr, SocketAddr)>)
        ensures
            r == self.last(),
    {
        self.last_addrs
    }

    /// The addresses to try out of those that the name resolved to.
    pub fn connect_addrs(&self, resolved: &Vec<SocketAddr>) -> (r: Vec<(SocketAddr, SocketAddr)>)
        ensures
            r@ == candidates(resolved@, self.only_v4()),
    {
        let mut r: Vec<(SocketAddr, SocketAddr)> = Vec::new();
        let mut i: usize = 0;
        assert(resolved@.take(0) =~= Seq::empty());
        while i < resolved.len()
            invariant
                i <= resolved@.len(),
                r@ == candidates(resolved@.take(i as int), self.only_v4()),
            decreases resolved@.len() - i,
        {
            assert(resolved@.take(i + 1).drop_last() =~= resolved@.take(i as int));
            assert(resolved@.take(i + 1).last() == resolved@[i as int]);
            let remote: SocketAddr = resolved[i];
            match remote {
                SocketAddr::V4 { .. } => {
                    r.push((remote, SocketAddr::V4 { ip: 0, port: 0 }));
                },
                SocketAddr::V6 { .. } => {
                    if !self.ipv4_only {
                        r.push(
                            (
                                remote,
                                SocketAddr::V6 { ip: 0, port: 0, flowinfo: 0, scope_id: 0 },
                            ),
                        );
                    }
                },
            }
            i = i + 1;
        }
        assert(resolved@.take(i as int) =~= resolved@);
        r
    }

    /// The addresses to try before the name is resolved: those of the last
    /// connection, which alone are tried. Where there was no connection, the name is
    /// to be resolved.
    pub fn known_addrs(&self) -> (r: Option<Vec<(SocketAddr, SocketAddr)>>)
        ensures
            match self.last() {
                Some(addrs) => r matches Some(known) && known@ == seq![addrs],
                None => r is None,
            },
    {
        match self.last_addrs {
            Some(addrs) => {
                let known = vec![addrs];
                assert(known@ =~= seq![addrs]);
                Some(known)
            },
            None => None,
        }
    }

    /// What is to be done next about a connection, once so many addresses were tried
    /// and the last of them gave `result`.
    pub fn dial_step(
        &mut self,
        addrs: &Vec<(SocketAddr, SocketAddr)>,
        tried: usize,
        result: Option<Result<(), String>>,
    ) -> (r: DialStep)
        requires
            tried <= addrs@.len(),
            result is Some ==> tried > 0,
        ensures
            dial_next(addrs@, tried as int, result, r),
            final(self).only_v4() == old(self).only_v4(),
            final(self).last() == if r is Connected {
                Some(addrs@[tried - 1])
            } else {
                old(self).last()
            },
    {
        let last_err: Option<String> = match result {
            Some(Ok(_)) => {
                self.last_addrs = Some(addrs[tried - 1]);
                return DialStep::Connected;
            },
            Some(Err(message)) => Some(message),
            None => None,
        };
        if tried < addrs.len() {
            let (remote, endpoint) = addrs[tried];
            DialStep::Try(remote, endpoint)
        } else {
            DialStep::Fail(connect_error(last_err))
        }
    }
}

/// What is to be done about a connection.
pub enum DialStep {
    /// Try a remote address from a local one.
    Try(SocketAddr, SocketAddr),
    Connected,
    Fail(String),
}

/// Whether `r` is what is to be done next once so many addresses were tried and the
/// last of them gave `result`: the addresses are tried in order until one takes the
/// connection, and after the last one its error stands for all.
pub open spec fn dial_next(
    addrs: Seq<(SocketAddr, SocketAddr)>,
    tried: int,
    result: Option<Result<(), String>>,
    r: DialStep,
) -> bool {
    if result matches Some(Ok(_)) {
        r is Connected
    } else if tried < addrs.len() {
        r == DialStep::Try(addrs[tried].0, addrs[tried].1)
    } else {
        r matches DialStep::Fail(message) && message@ == match result {
            Some(Err(error)) => error@,
            _ => "could not resolve to any address"@,
        }
    }
}

/// The steps of making a connection, one after the other, where each address that
/// was tried gave the result at its place.
pub open spec fn dials(
    addrs: Seq<(SocketAddr, SocketAddr)>,
    results: Seq<Result<(), String>>,
    steps: Seq<DialStep>,
) -> bool {
    &&& steps.len() == results.len() + 1
    &&& forall|i: int|
        0 <= i < steps.len() ==> dial_next(
            addrs,
            i,
            if i == 0 {
                None
            } else {
                Some(results[i - 1])
            },
            #[trigger] steps[i],
        )
    &&& forall|i: int| 0 <= i < results.len() ==> #[trigger] steps[i] is Try
}

/// The addresses are tried in order. A connection is made to the first one that
/// takes it, and it is given up only where all were tried and none took it.
pub proof fn law_first_address_that_takes_it(
    addrs: Seq<(SocketAddr, SocketAddr)>,
    results: Seq<Result<(), String>>,
    steps: Seq<DialStep>,
)
    requires
        dials(addrs, results, steps),
    ensures
        results.len() <= addrs.len(),
        forall|i: int|
            0 <= i < results.len() ==> #[trigger] steps[i] == DialStep::Try(
                addrs[i].0,
                addrs[i].1,
            ),
        forall|i: int| 0 <= i < results.len() - 1 ==> #[trigger] results[i] is Err,
        steps.last() is Connected ==> results.len() > 0 && results.last() is Ok,
        steps.last() is Fail ==> results.len() == addrs.len() && (results.len() > 0
            ==> results.last() is Err),
{
    assert forall|i: int| 0 <= i < results.len() - 1 implies #[trigger] results[i] is Err by {
        assert(steps[i + 1] is Try);
    }
    if results.len() > 0 {
        assert(steps[results.len() - 1] is Try);
        assert(results.len() - 1 < addrs.len());
    }
}

/// The error after every address failed: the last one, or that there was no
/// address to try.
pub fn connect_error(last_err: Option<String>) -> (r: String)
    ensures
        r@ == match last_err {
            Some(message) => message@,
            None => "could not resolve to any address"@,
        },
{
    match last_err {
        Some(message) => message,
        None => "could not resolve to any address".to_owned(),
    }
}

/// How an attempt at a TCP connection went.
pub enum TcpOutcome {
    Connected,
    Failed(String),
    TimedOut(String),
}

/// The error of an attempt at a TCP connection, if it failed.
pub fn tcp_error(outcome: &TcpOutcome) -> (r: Option<String>)
    ensures
        match outcome {
            TcpOutcome::Connected => r is None,
            TcpOutcome::Failed(message) => r is Some && r->0@ == "Fail to connect remote: "@
                + message@,
            TcpOutcome::TimedOut(message) => r is Some && r->0@ == "connect remote timeout: "@
                + message@,
        },
{
    match outcome {
        TcpOutcome::Connected => None,
        TcpOutcome::Failed(message) => Some(followed_by("Fail to connect remote: ", message.as_str())),
        TcpOutcome::TimedOut(message) => Some(
            followed_by("connect remote timeout: ", message.as_str()),
        ),
    }
}

/// How many bytes a backend answers first on a QUIC stream.
pub const ANSWER_SIZE: usize = 2;

/// What has happened to a stream that is being opened.
pub enum OpenEvent {
    Asked,
    Opened,
    OpenFailed(String),
    HeadSent,
    /// The first bytes of the backend have come.
    Answered,
    Failed(String),
}

/// What is to be done about a stream that is being opened.
pub enum OpenStep {
    OpenStream,
    SendHead,
    AwaitAnswer,
    Ready,
    /// No stream was asked for, and the backend is there.
    Alive,
    Fail(String),
}

/// Whether `r` is what is to be done next about a stream. The head goes first, and
/// over QUIC the backend answers it. Without a head it is only tried whether the
/// backend is there, which over QUIC the connection shows.
pub open spec fn open_next(
    protocol: BackendProtocol,
    has_head: bool,
    event: OpenEvent,
    r: OpenStep,
) -> bool {
    match event {
        OpenEvent::Asked => if protocol is Quic && !has_head {
            r is Alive
        } else {
            r is OpenStream
        },
        OpenEvent::Opened => if has_head {
            r is SendHead
        } else {
            r is Alive
        },
        OpenEvent::OpenFailed(error) => r matches OpenStep::Fail(message) && message@
            == match protocol {
            BackendProtocol::Quic => "failed to open stream: "@ + error@,
            BackendProtocol::HTTP2 => "failed to upgrade CONNECT request: "@ + error@,
        },
        OpenEvent::HeadSent => if protocol is Quic {
            r is AwaitAnswer
        } else {
            r is Ready
        },
        OpenEvent::Answered => r is Ready,
        OpenEvent::Failed(error) => r == OpenStep::Fail(error),
    }
}

/// What is to be done next about a stream.
pub fn open_step(protocol: BackendProtocol, has_head: bool, event: OpenEvent) -> (r: OpenStep)
    ensures
        open_next(protocol, has_head, event, r),
{
    match event {
        OpenEvent::Asked => match protocol {
            BackendProtocol::Quic => if has_head {
                OpenStep::OpenStream
            } else {
                OpenStep::Alive
            },
            BackendProtocol::HTTP2 => OpenStep::OpenStream,
        },
        OpenEvent::Opened => if has_head {
            OpenStep::SendHead
        } else {
            OpenStep::Alive
        },
        OpenEvent::OpenFailed(error) => match protocol {
            BackendProtocol::Quic => OpenStep::Fail(
                followed_by("failed to open stream: ", error.as_str()),
            ),
            BackendProtocol::HTTP2 => OpenStep::Fail(
                followed_by("failed to upgrade CONNECT request: ", error.as_str()),
            ),
        },
        OpenEvent::HeadSent => match protocol {
            BackendProtocol::Quic => OpenStep::AwaitAnswer,
            BackendProtocol::HTTP2 => OpenStep::Ready,
        },
        OpenEvent::Answered => OpenStep::Ready,
        OpenEvent::Failed(error) => OpenStep::Fail(error),
    }
}

/// What a step that goes well comes to.
pub open spec fn done_well(step: OpenStep) -> Option<OpenEvent> {
    match step {
        OpenStep::OpenStream => Some(OpenEvent::Opened),
        OpenStep::SendHead => Some(OpenEvent::HeadSent),
        OpenStep::AwaitAnswer => Some(OpenEvent::Answered),
        _ => None,
    }
}

/// The steps one after the other, each of which goes well.
pub open spec fn opens(protocol: BackendProtocol, has_head: bool, steps: Seq<OpenStep>) -> bool {
    &&& steps.len() > 0
    &&& open_next(protocol, has_head, OpenEvent::Asked, steps[0])
    &&& forall|i: int|
        0 < i < steps.len() ==> (done_well(steps[i - 1]) matches Some(event) && open_next(
            protocol,
            has_head,
            event,
            #[trigger] steps[i],
        ))
}

/// A stream is ready only after its head was sent and, over QUIC, answered. Where
/// each step goes well, there are at most four, and the last one makes the stream
/// ready if there is a head and else says that the backend is there.
pub proof fn law_head_goes_first(protocol: BackendProtocol, has_head: bool, steps: Seq<OpenStep>)
    requires
        opens(protocol, has_head, steps),
    ensures
        steps.len() <= 4,
        done_well(steps.last()) is None ==> (if has_head {
            steps.last() is Ready
        } else {
            steps.last() is Alive
        }),
        forall|i: int|
            0 <= i < steps.len() && #[trigger] steps[i] is Ready ==> {
                &&& 2 <= i
                &&& steps[1] is SendHead
                &&& protocol is Quic ==> i == 3 && steps[2] is AwaitAnswer
            },
{
    if steps.len() > 1 {
        assert(done_well(steps[0]) is Some);
        assert(open_next(protocol, has_head, OpenEvent::Opened, steps[1]));
    }
    if steps.len() > 2 {
        assert(open_next(protocol, has_head, OpenEvent::HeadSent, steps[2]));
    }
    if steps.len() > 3 {
        assert(open_next(protocol, has_head, OpenEvent::Answered, steps[3]));
    }
    if steps.len() > 4 {
        assert(steps.len() > 5 || steps[4] == steps.last());
        assert(done_well(steps[3]) is None);
    }
}

/// Only addresses that the name resolved to are tried, none of IPv6 where only
/// IPv4 is wanted, and each from an address of its own family.
pub proof fn law_candidates(resolved: Seq<SocketAddr>, ipv4_only: bool)
    ensures
        forall|i: int|
            0 <= i < candidates(resolved, ipv4_only).len() ==> {
                let c = #[trigger] candidates(resolved, ipv4_only)[i];
                &&& resolved.contains(c.0)
                &&& ipv4_only ==> c.0 is V4
                &&& c.0 is V4 <==> c.1 is V4
            },
        !ipv4_only ==> candidates(resolved, ipv4_only).len() == resolved.len(),
    decreases resolved.len(),
{
    if resolved.len() > 0 {
        let front = resolved.drop_last();
        law_candidates(front, ipv4_only);
        assert forall|i: int| 0 <= i < candidates(resolved, ipv4_only).len() implies {
            let c = #[trigger] candidates(resolved, ipv4_only)[i];
            &&& resolved.contains(c.0)
            &&& ipv4_only ==> c.0 is V4
            &&& c.0 is V4 <==> c.1 is V4
        } by {
            if i < candidates(front, ipv4_only).len() {
                let c = candidates(front, ipv4_only)[i];
                let k = choose|k: int| 0 <= k < front.len() && front[k] == c.0;
                assert(resolved[k] == c.0);
            } else {
                assert(resolved[resolved.len() - 1] == resolved.last());
            }
        }
    }
}

/// A stream is refused where the client is poisoned, opened over the connection that is there
/// as long as that has not ended, and else waits for a new connection. A connection that has
/// ended is forgotten, and nothing else is.
pub proof fn law_what_a_stream_takes<SR>(
    client: &mut Client<SR>,
    finished: bool,
    r: StreamStep,
    connection: SR,
)
    requires
        call_ensures(Client::<SR>::new_stream_step, (client, finished), r),
    ensures
        old(client).state() is Poisoned ==> r is Refuse && final(client).state() is Poisoned,
        old(client).state() is NotConnected ==> r is Connect && final(client).state() is NotConnected,
        old(client).state() == ClientState::Connected(connection) && !finished ==> r is Open
            && final(client).state() == ClientState::Connected(connection),
        old(client).state() is Connected && finished ==> r is Connect && final(client).state() is NotConnected,
{
}

/// A connection that was made is the one that streams are opened over next. Where none could
/// be made every stream is refused, and after a reset a connection is made again. The reset
/// gives back the connection that was there, to be closed.
pub proof fn law_from_dial_to_reset<SR>(
    dialed: &mut Client<SR>,
    asked: &mut Client<SR>,
    reset: &mut Client<SR>,
    again: &mut Client<SR>,
    made: Option<SR>,
    x: StreamStep,
    closed: Option<SR>,
    y: StreamStep,
    finished: bool,
)
    requires
        call_ensures(Client::<SR>::dial_done, (dialed, made), ()),
        *old(asked) == *final(dialed),
        call_ensures(Client::<SR>::new_stream_step, (asked, false), x),
        *old(reset) == *final(asked),
        call_ensures(Client::<SR>::reset_client, (reset,), closed),
        *old(again) == *final(reset),
        call_ensures(Client::<SR>::new_stream_step, (again, finished), y),
    ensures
        made is Some <==> x is Open,
        made is None <==> x is Refuse,
        closed == made,
        y is Connect,
        made matches Some(connection) ==> final(asked).state() == ClientState::Connected(connection),
{
}

/// Addresses are tried in the order in which the name resolved to them, all of them unless
/// only IPv4 is wanted, and then exactly those of IPv4. Each is tried from no address and no
/// port in particular, of its own family.
pub proof fn law_addresses_to_try(
    config: &QuicConnConfig,
    resolved: &Vec<SocketAddr>,
    r: Vec<(SocketAddr, SocketAddr)>,
    i: int,
    k: int,
)
    requires
        call_ensures(QuicConnConfig::connect_addrs, (config, resolved), r),
    ensures
        !config.only_v4() ==> r@.len() == resolved@.len() && (0 <= i < r@.len() ==> r@[i].0
            == resolved@[i]),
        config.only_v4() && 0 <= i < r@.len() ==> r@[i].0 is V4,
        0 <= k < resolved@.len() && (resolved@[k] is V4 || !config.only_v4()) ==> exists|n: int|
            0 <= n < r@.len() && (#[trigger] r@[n]).0 == resolved@[k],
        0 <= i < r@.len() ==> (if r@[i].0 is V4 {
            r@[i].1 == (SocketAddr::V4 { ip: 0, port: 0 })
        } else {
            r@[i].1 == (SocketAddr::V6 { ip: 0, port: 0, flowinfo: 0, scope_id: 0 })
        }),
        (forall|j: int| 0 <= j < resolved@.len() ==> #[trigger] resolved@[j] is V4) ==> r@.len()
            == resolved@.len(),
{
    lemma_candidates(resolved@, config.only_v4());
    if 0 <= k < resolved@.len() && (resolved@[k] is V4 || !config.only_v4()) {
        lemma_candidate(resolved@, config.only_v4(), k);
    }
}

proof fn lemma_candidates(resolved: Seq<SocketAddr>, ipv4_only: bool)
    ensures
        forall|i: int|
            0 <= i < candidates(resolved, ipv4_only).len() ==> {
                let c = #[trigger] candidates(resolved, ipv4_only)[i];
                &&& c.1 == endpoint_for(c.0)
                &&& ipv4_only ==> c.0 is V4
                &&& !ipv4_only ==> c.0 == resolved[i]
            },
        !ipv4_only ==> candidates(resolved, ipv4_only).len() == resolved.len(),
        (forall|j: int| 0 <= j < resolved.len() ==> #[trigger] resolved[j] is V4) ==> candidates(
            resolved,
            ipv4_only,
        ).len() == resolved.len(),
    decreases resolved.len(),
{
    if resolved.len() > 0 {
        let front = resolved.drop_last();
        lemma_candidates(front, ipv4_only);
        assert(resolved[resolved.len() - 1] == resolved.last());
        if forall|j: int| 0 <= j < resolved.len() ==> #[trigger] resolved[j] is V4 {
            assert forall|j: int| 0 <= j < front.len() implies #[trigger] front[j] is V4 by {
                assert(front[j] == resolved[j]);
            }
        }
        assert forall|i: int| 0 <= i < candidates(resolved, ipv4_only).len() implies {
            let c = #[trigger] candidates(resolved, ipv4_only)[i];
            &&& c.1 == endpoint_for(c.0)
            &&& ipv4_only ==> c.0 is V4
            &&& !ipv4_only ==> c.0 == resolved[i]
        } by {
            if i < candidates(front, ipv4_only).len() {
                assert(candidates(resolved, ipv4_only)[i] == candidates(front, ipv4_only)[i]);
                assert(!ipv4_only ==> front[i] == resolved[i]);
            }
        }
    }
}

proof fn lemma_candidate(resolved: Seq<SocketAddr>, ipv4_only: bool, k: int)
    requires
        0 <= k < resolved.len(),
        resolved[k] is V4 || !ipv4_only,
    ensures
        exists|n: int|
            0 <= n < candidates(resolved, ipv4_only).len() && (#[trigger] candidates(
                resolved,
                ipv4_only,
            )[n]).0 == resolved[k],
    decreases resolved.len(),
{
    let all = candidates(resolved, ipv4_only);
    if k == resolved.len() - 1 {
        assert(all[all.len() - 1].0 == resolved[k]);
    } else {
        let front = candidates(resolved.drop_last(), ipv4_only);
        lemma_candidate(resolved.drop_last(), ipv4_only, k);
        let n = choose|n: int|
            0 <= n < front.len() && (#[trigger] front[n]).0 == resolved.drop_last()[k];
        assert(all[n] == front[n]);
    }
}

/// After an address that took the connection, that address is the one known for the next
/// time, and it alone is tried then. After one that did not, the next one is tried, and the
/// error of the last stands for all. Where nothing was there to try, that is the error.
pub proof fn law_step_of_a_connection(
    config: &mut QuicConnConfig,
    addrs: &Vec<(SocketAddr, SocketAddr)>,
    tried: usize,
    result: Option<Result<(), String>>,
    r: DialStep,
    after: &QuicConnConfig,
    known: Option<Vec<(SocketAddr, SocketAddr)>>,
)
    requires
        tried <= addrs@.len(),
        result is Some ==> tried > 0,
        call_ensures(QuicConnConfig::dial_step, (config, addrs, tried, result), r),
        *after == *final(config),
        call_ensures(QuicConnConfig::known_addrs, (after,), known),
    ensures
        r is Connected <==> (result matches Some(outcome) && outcome is Ok),
        r is Connected ==> (known matches Some(list) && list@.len() == 1 && list@[0]
            == addrs@[tried - 1]),
        !(r is Connected) && tried < addrs@.len() ==> r == DialStep::Try(
            addrs@[tried as int].0,
            addrs@[tried as int].1,
        ),
        !(r is Connected) && tried == addrs@.len() ==> r is Fail,
        r matches DialStep::Fail(said) ==> (result matches Some(Err(error)) ==> said@ == error@),
        !(r is Connected) ==> final(config).last() == old(config).last(),
        !(r is Connected) && old(config).last() is None ==> known is None,
        final(config).only_v4() == old(config).only_v4(),
{
}

/// A stream that carries a head is opened, given the head, and over QUIC waits for the answer
/// before it is ready. Without a head the backend is only found to be there, over QUIC by the
/// connection alone. What fails is handed on.
pub proof fn law_how_a_stream_is_opened(
    has_head: bool,
    asked_quic: OpenStep,
    asked_h2: OpenStep,
    opened_quic: OpenStep,
    opened_h2: OpenStep,
    sent_quic: OpenStep,
    sent_h2: OpenStep,
    answered: OpenStep,
    failed: OpenStep,
    error: String,
    protocol: BackendProtocol,
)
    requires
        call_ensures(open_step, (BackendProtocol::Quic, has_head, OpenEvent::Asked), asked_quic),
        call_ensures(open_step, (BackendProtocol::HTTP2, has_head, OpenEvent::Asked), asked_h2),
        call_ensures(open_step, (BackendProtocol::Quic, has_head, OpenEvent::Opened), opened_quic),
        call_ensures(open_step, (BackendProtocol::HTTP2, has_head, OpenEvent::Opened), opened_h2),
        call_ensures(open_step, (BackendProtocol::Quic, has_head, OpenEvent::HeadSent), sent_quic),
        call_ensures(open_step, (BackendProtocol::HTTP2, has_head, OpenEvent::HeadSent), sent_h2),
        call_ensures(open_step, (BackendProtocol::Quic, has_head, OpenEvent::Answered), answered),
        call_ensures(open_step, (protocol, has_head, OpenEvent::Failed(error)), failed),
    ensures
        has_head ==> asked_quic is OpenStream && opened_quic is SendHead && opened_h2 is SendHead,
        asked_h2 is OpenStream,
        !has_head ==> asked_quic is Alive && opened_h2 is Alive,
        sent_quic is AwaitAnswer,
        sent_h2 is Ready,
        answered is Ready,
        failed matches OpenStep::Fail(said) && said@ == error@,
{
}

/// A connection that was made is no error, and one that was not says why: that it failed or
/// that it took too long, and what else is known.
pub proof fn law_errors_of_a_connection(
    failed: String,
    late: String,
    made: Option<String>,
    x: Option<String>,
    y: Option<String>,
)
    requires
        call_ensures(tcp_error, (&TcpOutcome::Connected,), made),
        call_ensures(tcp_error, (&TcpOutcome::Failed(failed),), x),
        call_ensures(tcp_error, (&TcpOutcome::TimedOut(late),), y),
    ensures
        made is None,
        x matches Some(said) && said@.len() > failed@.len() && said@.skip(
            said@.len() - failed@.len(),
        ) == failed@,
        y matches Some(said) && said@.len() > late@.len() && said@.skip(said@.len() - late@.len())
            == late@,
        failed@ == late@ ==> x->0@ != y->0@,
{
    reveal_strlit("Fail to connect remote: ");
    reveal_strlit("connect remote timeout: ");
    assert(x->0@.skip(x->0@.len() - failed@.len()) =~= failed@);
    assert(y->0@.skip(y->0@.len() - late@.len()) =~= late@);
    assert(x->0@[0] == 'F');
    assert(y->0@[0] == 'c');
}

/// What an error says is what was said where something failed, and the reasons for a refusal
/// are told apart.
pub proof fn law_messages_of_a_stream_error(
    message: String,
    failed: String,
    poisoned: String,
    cancelled: String,
    last: String,
)
    requires
        call_ensures(StreamError::message, (&StreamError::Failed(message),), failed),
        call_ensures(StreamError::message, (&StreamError::Poisoned,), poisoned),
        call_ensures(StreamError::message, (&StreamError::Cancelled,), cancelled),
        call_ensures(connect_error, (Some(message),), last),
    ensures
        failed@ == message@,
        poisoned@ != cancelled@,
        last@ == message@,
{
    reveal_strlit("connection is poisoned");
    reveal_strlit("try_connect is cancelled");
    assert(poisoned@[0] != cancelled@[0]);
}

/// A new client has no connection, and makes one for its first stream.
pub proof fn law_new_client_connects<SR>(
    new: Client<SR>,
    client: &mut Client<SR>,
    finished: bool,
    r: StreamStep,
    state: &ClientState<SR>,
)
    requires
        call_ensures(Client::<SR>::new, (), new),
        call_ensures(Client::<SR>::get_state, (&new,), state),
        *old(client) == new,
        call_ensures(Client::<SR>::new_stream_step, (client, finished), r),
    ensures
        *state is NotConnected,
        r is Connect,
{
}

/// Where no connection was made yet there is no address to begin with, and only IPv4 is tried
/// where that was asked for.
pub proof fn law_new_connections(
    ipv4_only: bool,
    config: QuicConnConfig,
    last: Option<(SocketAddr, SocketAddr)>,
    known: Option<Vec<(SocketAddr, SocketAddr)>>,
)
    requires
        call_ensures(QuicConnConfig::new, (ipv4_only,), config),
        call_ensures(QuicConnConfig::last_addrs, (&config,), last),
        call_ensures(QuicConnConfig::known_addrs, (&config,), known),
    ensures
        last is None,
        known is None,
        config.only_v4() == ipv4_only,
{
}

/// A stream that could not be opened says by which protocol, and why.
pub proof fn law_stream_that_could_not_be_opened(
    has_head: bool,
    error: String,
    quic: OpenStep,
    h2: OpenStep,
)
    requires
        call_ensures(
            open_step,
            (BackendProtocol::Quic, has_head, OpenEvent::OpenFailed(error)),
            quic,
        ),
        call_ensures(
            open_step,
            (BackendProtocol::HTTP2, has_head, OpenEvent::OpenFailed(error)),
            h2,
        ),
    ensures
        quic matches OpenStep::Fail(x) && (h2 matches OpenStep::Fail(y) && x@ != y@ && x@.len()
            > error@.len() && x@.skip(x@.len() - error@.len()) == error@ && y@.len() > error@.len()
            && y@.skip(y@.len() - error@.len()) == error@),
{
    reveal_strlit("failed to open stream: ");
    reveal_strlit("failed to upgrade CONNECT request: ");
    let x = quic->Fail_0;
    let y = h2->Fail_0;
    assert(x@.skip(x@.len() - error@.len()) =~= error@);
    assert(y@.skip(y@.len() - error@.len()) =~= error@);
    assert(x@.len() != y@.len());
}

} // verus!
