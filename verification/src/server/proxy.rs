//! What a server does with connections and streams.

use vstd::prelude::*;
use crate::client::connector::ANSWER_SIZE;

verus! {

/// What is sent first on a QUIC stream: `OK`.
pub const STREAM_ACCEPTED: [u8; 2] = [79, 75];

/// What came of waiting for a stream of a QUIC connection.
pub enum StreamEvent {
    /// The client has closed the connection.
    ApplicationClosed,
    Failed(String),
    Opened,
}

/// What is to be done about a QUIC connection.
pub enum StreamStep {
    /// The connection is over.
    Finish,
    /// The connection is over, by an error.
    Fail(String),
    /// The stream is accepted and becomes a tunnel, and the next one is awaited.
    Tunnel,
}

/// What is to be done after waiting for a stream.
pub fn stream_step(event: StreamEvent) -> (r: StreamStep)
    ensures
        r == match event {
            StreamEvent::ApplicationClosed => StreamStep::Finish,
            StreamEvent::Failed(message) => StreamStep::Fail(message),
            StreamEvent::Opened => StreamStep::Tunnel,
        },
{
    match event {
        StreamEvent::ApplicationClosed => StreamStep::Finish,
        StreamEvent::Failed(message) => StreamStep::Fail(message),
        StreamEvent::Opened => StreamStep::Tunnel,
    }
}

/// What a server answers to an HTTP/2 request: always this status and no body. A
/// request for a tunnel gets one besides.
pub fn http2_answer(is_connect: bool) -> (r: (u16, bool))
    ensures
        r == (200u16, is_connect),
{
    (200, is_connect)
}

/// A stream that was opened becomes a tunnel, the client's close ends the connection without an
/// error, and any other failure ends it by that error.
pub proof fn law_what_waiting_comes_to(event: StreamEvent, r: StreamStep)
    requires
        call_ensures(stream_step, (event,), r),
    ensures
        r is Tunnel <==> event is Opened,
        r is Finish <==> event is ApplicationClosed,
        r is Fail <==> event is Failed,
        event matches StreamEvent::Failed(message) ==> (r matches StreamStep::Fail(said) && said@
            == message@),
{
}

/// What a server sends first on a stream is as long as what a client awaits.
pub proof fn law_answer_is_as_long_as_awaited()
    ensures
        STREAM_ACCEPTED@.len() == ANSWER_SIZE,
        STREAM_ACCEPTED@ == seq!['O' as u8, 'K' as u8],
{
    assert(STREAM_ACCEPTED@ =~= seq!['O' as u8, 'K' as u8]);
}

/// Every request is answered well, and only one for a tunnel gets a tunnel.
pub proof fn law_every_request_is_answered(is_connect: bool, r: (u16, bool))
    requires
        call_ensures(http2_answer, (is_connect,), r),
    ensures
        r.0 == 200,
        r.1 <==> is_connect,
{
}

} // verus!
