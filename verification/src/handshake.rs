//! How a QUIC connection begins, on either side.

use vstd::prelude::*;

verus! {

/// What has happened to a QUIC connection that is beginning.
#[derive(Clone, Copy, PartialEq, Eq, Structural, Debug)]
pub enum HandshakeEvent {
    Begun,
    /// 0-RTT was tried, and is possible or not.
    ZeroRtt(bool),
    /// The handshake has ended, well or not.
    Done(bool),
}

/// What is to be done with a QUIC connection that is beginning.
#[derive(Clone, Copy, PartialEq, Eq, Structural, Debug)]
pub enum HandshakeStep {
    TryZeroRtt,
    Await,
    /// The connection can be used.
    Use,
    GiveUp,
}

/// What is to be done next with a QUIC connection that is beginning: 0-RTT is
/// tried where it is wanted, and else, or where it is not possible, the handshake
/// is awaited.
pub open spec fn step_after(use_0rtt: bool, event: HandshakeEvent) -> HandshakeStep {
    match event {
        HandshakeEvent::Begun => if use_0rtt {
            HandshakeStep::TryZeroRtt
        } else {
            HandshakeStep::Await
        },
        HandshakeEvent::ZeroRtt(possible) => if possible {
            HandshakeStep::Use
        } else {
            HandshakeStep::Await
        },
        HandshakeEvent::Done(good) => if good {
            HandshakeStep::Use
        } else {
            HandshakeStep::GiveUp
        },
    }
}

/// What is to be done next with a QUIC connection that is beginning.
pub fn handshake_step(use_0rtt: bool, event: HandshakeEvent) -> (r: HandshakeStep)
    ensures
        r == step_after(use_0rtt, event),
{
    match event {
        HandshakeEvent::Begun => if use_0rtt {
            HandshakeStep::TryZeroRtt
        } else {
            HandshakeStep::Await
        },
        HandshakeEvent::ZeroRtt(possible) => if possible {
            HandshakeStep::Use
        } else {
            HandshakeStep::Await
        },
        HandshakeEvent::Done(good) => if good {
            HandshakeStep::Use
        } else {
            HandshakeStep::GiveUp
        },
    }
}

/// Where a step leads, given whether 0-RTT is possible and whether the handshake
/// goes well.
pub open spec fn step_result(
    use_0rtt: bool,
    step: HandshakeStep,
    zero_rtt: bool,
    handshake: bool,
) -> HandshakeStep {
    match step {
        HandshakeStep::TryZeroRtt => step_after(use_0rtt, HandshakeEvent::ZeroRtt(zero_rtt)),
        HandshakeStep::Await => step_after(use_0rtt, HandshakeEvent::Done(handshake)),
        _ => step,
    }
}

/// A connection that is beginning is used or given up after at most two steps, and
/// it is used exactly where 0-RTT is wanted and possible or the handshake goes
/// well.
pub proof fn law_used_or_given_up(use_0rtt: bool, zero_rtt: bool, handshake: bool)
    ensures
        ({
            let first = step_after(use_0rtt, HandshakeEvent::Begun);
            let second = step_result(use_0rtt, first, zero_rtt, handshake);
            let third = step_result(use_0rtt, second, zero_rtt, handshake);
            third == if (use_0rtt && zero_rtt) || handshake {
                HandshakeStep::Use
            } else {
                HandshakeStep::GiveUp
            }
        }),
{
}

/// 0-RTT is tried exactly where it is wanted. Where it is possible the connection is used at
/// once, and where it is not, or was not wanted, the handshake is awaited and decides.
pub proof fn law_how_a_connection_begins(
    use_0rtt: bool,
    possible: bool,
    good: bool,
    begun: HandshakeStep,
    tried: HandshakeStep,
    done: HandshakeStep,
)
    requires
        call_ensures(handshake_step, (use_0rtt, HandshakeEvent::Begun), begun),
        call_ensures(handshake_step, (use_0rtt, HandshakeEvent::ZeroRtt(possible)), tried),
        call_ensures(handshake_step, (use_0rtt, HandshakeEvent::Done(good)), done),
    ensures
        begun is TryZeroRtt <==> use_0rtt,
        begun is Await <==> !use_0rtt,
        tried is Use <==> possible,
        tried is Await <==> !possible,
        done is Use <==> good,
        done is GiveUp <==> !good,
{
}

} // verus!
