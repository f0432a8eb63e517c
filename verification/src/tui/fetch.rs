//! The conversation with the metric service of a client.

use vstd::prelude::*;
use crate::metric::{MetricApiReq, MetricApiResp};
use crate::text::{decimal, decimal_text, followed_by, law_decimal_denotes_its_number};

verus! {

/// How often the backends are asked for, in milliseconds.
pub const BACKENDS_FETCHER_INTERVAL: u64 = 500;

/// The port of the metric service where none is given.
pub const DEFAULT_PORT: u64 = 8404;

/// The URL of the metric service on this host.
pub fn service_url(port: u64) -> (r: String)
    ensures
        r@ == "ws://localhost:"@ + decimal(port as nat) + "/"@,
{
    let number = decimal_text(port as u128);
    followed_by(followed_by("ws://localhost:", number.as_str()).as_str(), "/")
}

/// Whether a request is on its way, and about which backend the last one was.
pub struct Fetcher {
    pending: bool,
    pending_on_id: usize,
}

impl Fetcher {
    /// Whether a request is on its way.
    pub closed spec fn waiting(&self) -> bool {
        self.pending
    }

    /// The backend that the last request was about.
    pub closed spec fn waiting_on(&self) -> usize {
        self.pending_on_id
    }

    /// No request is on its way.
    pub fn new() -> (r: Self)
        ensures
            !r.waiting(),
            r.waiting_on() == 0,
    {
        Fetcher { pending: false, pending_on_id: 0 }
    }

    /// The backend that the last request was about.
    pub fn get_pending_on_id(&self) -> (r: usize)
        ensures
            r == self.waiting_on(),
    {
        self.pending_on_id
    }

    /// Whether a request is on its way.
    pub fn is_pending(&self) -> (r: bool)
        ensures
            r == self.waiting(),
    {
        self.pending
    }

    /// Sends a request about a backend, unless one is on its way.
    fn backend_action(&mut self, selected: usize, msg: MetricApiReq) -> (r: Option<MetricApiReq>)
        ensures
            sent(*old(self), *final(self), selected, msg, r),
    {
        if self.pending {
            return None;
        }
        self.pending = true;
        self.pending_on_id = selected;
        Some(msg)
    }

    /// Asks for a backend to start over.
    pub fn reset_backend(&mut self, selected: usize) -> (r: Option<MetricApiReq>)
        ensures
            sent(
                *old(self),
                *final(self),
                selected,
                MetricApiReq::ResetBackend { backend_id: selected },
                r,
            ),
    {
        self.backend_action(selected, MetricApiReq::ResetBackend { backend_id: selected })
    }

    /// Asks for a backend to go over to its other protocol.
    pub fn switch_backend_protocol(&mut self, selected: usize) -> (r: Option<MetricApiReq>)
        ensures
            sent(
                *old(self),
                *final(self),
                selected,
                MetricApiReq::SwitchBackendProtocol { backend_id: selected },
                r,
            ),
    {
        self.backend_action(selected, MetricApiReq::SwitchBackendProtocol { backend_id: selected })
    }

    /// Asks for a backend to be switched on or off.
    pub fn switch_backend_status(&mut self, selected: usize) -> (r: Option<MetricApiReq>)
        ensures
            sent(
                *old(self),
                *final(self),
                selected,
                MetricApiReq::SwitchBackendStatus { backend_id: selected },
                r,
            ),
    {
        self.backend_action(selected, MetricApiReq::SwitchBackendStatus { backend_id: selected })
    }

    /// Notes that the request was done.
    pub fn done(&mut self)
        ensures
            !final(self).waiting(),
            final(self).waiting_on() == old(self).waiting_on(),
    {
        self.pending = false;
    }
}

/// Whether `r` is what is sent of a request: nothing where one is on its way, and
/// else the request, which then is on its way.
pub open spec fn sent(
    before: Fetcher,
    after: Fetcher,
    selected: usize,
    msg: MetricApiReq,
    r: Option<MetricApiReq>,
) -> bool {
    &&& after.waiting()
    &&& if before.waiting() {
        r is None && after.waiting_on() == before.waiting_on()
    } else {
        r == Some(msg) && after.waiting_on() == selected
    }
}

/// Where the next request to the service comes from.
pub enum RequestSource {
    /// The operator.
    Queue(MetricApiReq),
    /// The clock.
    Tick,
}

/// The next request to the service: what the operator asks for, and at every tick
/// the metrics of all backends.
pub fn next_request(source: RequestSource) -> (r: MetricApiReq)
    ensures
        r == match source {
            RequestSource::Queue(req) => req,
            RequestSource::Tick => MetricApiReq::AllBackends,
        },
{
    match source {
        RequestSource::Queue(req) => req,
        RequestSource::Tick => MetricApiReq::AllBackends,
    }
}

/// What came from the service.
pub enum Reply {
    /// An answer to the last request.
    Answer(MetricApiResp),
    /// Bytes that are no answer.
    Malformed(String),
    /// A message that carries no answer.
    Other,
    /// The service has closed the conversation, or it broke.
    Closed,
}

/// What is done about it.
pub enum ReplyStep {
    /// The request of the operator was done.
    Done,
    /// The interface shows it.
    Show(MetricApiResp),
    Ignore,
    /// The interface closes.
    Close,
    /// The conversation ends with an error, which the interface shows.
    Fail(String),
}

/// What is done about what came from the service. Only an answer that a request
/// was done ends the wait for it.
pub fn reply_step(reply: Reply) -> (r: ReplyStep)
    ensures
        match reply {
            Reply::Answer(resp) => match resp {
                MetricApiResp::SwitchBackendStatus => r is Done,
                MetricApiResp::SwitchBackendProtocol => r is Done,
                MetricApiResp::ResetBackend => r is Done,
                MetricApiResp::AllBackends { .. } => r == ReplyStep::Show(resp),
                MetricApiResp::Error { .. } => r == ReplyStep::Show(resp),
            },
            Reply::Malformed(message) => r == ReplyStep::Fail(message),
            Reply::Other => r is Ignore,
            Reply::Closed => r is Close,
        },
{
    match reply {
        Reply::Answer(resp) => match resp {
            MetricApiResp::SwitchBackendStatus => ReplyStep::Done,
            MetricApiResp::SwitchBackendProtocol => ReplyStep::Done,
            MetricApiResp::ResetBackend => ReplyStep::Done,
            MetricApiResp::AllBackends { items } => ReplyStep::Show(
                MetricApiResp::AllBackends { items },
            ),
            MetricApiResp::Error { msg } => ReplyStep::Show(MetricApiResp::Error { msg }),
        },
        Reply::Malformed(message) => ReplyStep::Fail(message),
        Reply::Other => ReplyStep::Ignore,
        Reply::Closed => ReplyStep::Close,
    }
}

/// Of two requests the second is sent only where the first was done in between.
pub proof fn law_one_request_at_a_time(
    first: Fetcher,
    second: Fetcher,
    third: Fetcher,
    a: usize,
    b: usize,
    x: MetricApiReq,
    y: MetricApiReq,
    r: Option<MetricApiReq>,
    s: Option<MetricApiReq>,
)
    requires
        sent(first, second, a, x, r),
        sent(second, third, b, y, s),
    ensures
        s is None,
        third.waiting_on() == second.waiting_on(),
{
}

/// A request is sent where none is on its way, as it is and about its backend, and is on its
/// way from then on. While it is, no other one is sent, of whatever kind, until it was done.
pub proof fn law_request_until_it_was_done(
    first: &mut Fetcher,
    second: &mut Fetcher,
    done: &mut Fetcher,
    third: &mut Fetcher,
    a: usize,
    b: usize,
    x: Option<MetricApiReq>,
    y: Option<MetricApiReq>,
    z: Option<MetricApiReq>,
)
    requires
        call_ensures(Fetcher::reset_backend, (first, a), x),
        !old(first).waiting(),
        *old(second) == *final(first),
        call_ensures(Fetcher::switch_backend_status, (second, b), y),
        *old(done) == *final(second),
        call_ensures(Fetcher::done, (done,), ()),
        *old(third) == *final(done),
        call_ensures(Fetcher::switch_backend_protocol, (third, b), z),
    ensures
        x == Some(MetricApiReq::ResetBackend { backend_id: a }),
        final(first).waiting(),
        final(first).waiting_on() == a,
        y is None,
        final(second).waiting(),
        final(second).waiting_on() == a,
        !final(done).waiting(),
        z == Some(MetricApiReq::SwitchBackendProtocol { backend_id: b }),
        final(third).waiting_on() == b,
{
}

/// Each way to ask sends the request that it is for.
pub proof fn law_requests_of_each_kind(
    first: &mut Fetcher,
    second: &mut Fetcher,
    third: &mut Fetcher,
    id: usize,
    x: Option<MetricApiReq>,
    y: Option<MetricApiReq>,
    z: Option<MetricApiReq>,
)
    requires
        !old(first).waiting(),
        *old(second) == *old(first),
        *old(third) == *old(first),
        call_ensures(Fetcher::reset_backend, (first, id), x),
        call_ensures(Fetcher::switch_backend_status, (second, id), y),
        call_ensures(Fetcher::switch_backend_protocol, (third, id), z),
    ensures
        x matches Some(MetricApiReq::ResetBackend { backend_id }) && backend_id == id,
        y matches Some(MetricApiReq::SwitchBackendStatus { backend_id }) && backend_id == id,
        z matches Some(MetricApiReq::SwitchBackendProtocol { backend_id }) && backend_id == id,
{
}

/// What the operator asks for is asked as it is, and at every tick all backends are asked for.
pub proof fn law_what_is_asked_next(req: MetricApiReq, x: MetricApiReq, y: MetricApiReq)
    requires
        call_ensures(next_request, (RequestSource::Queue(req),), x),
        call_ensures(next_request, (RequestSource::Tick,), y),
    ensures
        x == req,
        y is AllBackends,
{
}

/// An answer that something was done ends the wait and is not shown, metrics and errors are
/// shown and do not end it, bytes that are no answer end the conversation by an error, and
/// the end of the conversation closes the interface.
pub proof fn law_what_a_reply_does(reply: Reply, r: ReplyStep)
    requires
        call_ensures(reply_step, (reply,), r),
    ensures
        r is Done <==> (reply matches Reply::Answer(resp) && !(resp is AllBackends) && !(resp
            is Error)),
        reply matches Reply::Answer(resp) ==> (resp is AllBackends || resp is Error ==> r
            == ReplyStep::Show(resp)),
        r is Show ==> reply is Answer,
        reply matches Reply::Malformed(message) ==> (r matches ReplyStep::Fail(said) && said@
            == message@),
        r is Fail <==> reply is Malformed,
        r is Close <==> reply is Closed,
        r is Ignore <==> reply is Other,
{
}

/// The URL of the service names the local host and the port, and two ports have two URLs.
pub proof fn law_url_names_the_port(port: u64, other: u64, x: String, y: String)
    requires
        call_ensures(service_url, (port,), x),
        call_ensures(service_url, (other,), y),
    ensures
        x@.take(15) == seq![
            'w',
            's',
            ':',
            '/',
            '/',
            'l',
            'o',
            'c',
            'a',
            'l',
            'h',
            'o',
            's',
            't',
            ':',
        ],
        x@.last() == '/',
        x@.subrange(15, x@.len() - 1) == decimal(port as nat),
        x@ == y@ ==> port == other,
{
    reveal_strlit("ws://localhost:");
    reveal_strlit("/");
    assert(x@.take(15) =~= "ws://localhost:"@);
    assert(x@.subrange(15, x@.len() - 1) =~= decimal(port as nat));
    assert(y@.subrange(15, y@.len() - 1) =~= decimal(other as nat));
    law_decimal_denotes_its_number(port as nat);
    law_decimal_denotes_its_number(other as nat);
}

} // verus!
