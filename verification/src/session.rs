//! The receive session of a datagram transport: the buffer it reads into and
//! the state machine that decides what each arrival does to it.
//!
//! The caller owns the socket and the cancellation signal. It waits for
//! whichever comes first, decodes a datagram that arrived, and hands the
//! arrival to [`listen_step`]; it stops receiving as soon as the state is no
//! longer `Running`.

use vstd::prelude::*;
use crate::channel::EventSender;
use crate::error::Error;

verus! {

/// The largest datagram that the transport delivers, and so the size of the
/// receive buffer.
pub const MAX_DATAGRAM: usize = 65536;

/// Where a receive session stands.
#[derive(Clone, Copy, Debug, PartialEq, Eq, Structural)]
pub enum SessionState {
    /// Receiving.
    Running,
    /// Ended by cancellation: success.
    Stopped,
    /// Ended by an error.
    Failed(Error),
}

/// What the caller of a running session saw happen.
#[derive(Debug)]
pub enum Arrival<E> {
    /// Cancellation was requested.
    Cancelled,
    /// The socket failed to receive.
    ReceiveFailed,
    /// A datagram arrived whose bytes are no wire message.
    Malformed,
    /// A datagram arrived and decoded to this event.
    Message(E),
}

/// The event that an arrival makes the session publish, if any: a decoded
/// message, while the session runs.
pub open spec fn publishes<E>(state: SessionState, arrival: Arrival<E>) -> Option<E> {
    match (state, arrival) {
        (SessionState::Running, Arrival::Message(event)) => Some(event),
        _ => None,
    }
}

/// The state after an arrival. `delivered` says whether the event that the
/// arrival published, if it published one, found a listener.
///
/// A session that has ended stays as it is. A running one stops on
/// cancellation and fails fast on everything that goes wrong: a receive
/// error, one malformed datagram, an event that nobody listens for.
pub open spec fn next_state<E>(state: SessionState, arrival: Arrival<E>, delivered: bool)
    -> SessionState {
    match state {
        SessionState::Running => match arrival {
            Arrival::Cancelled => SessionState::Stopped,
            Arrival::ReceiveFailed => SessionState::Failed(Error::Io),
            Arrival::Malformed => SessionState::Failed(Error::Codec),
            Arrival::Message(_) => if delivered {
                SessionState::Running
            } else {
                SessionState::Failed(Error::ChannelClosed)
            },
        },
        _ => state,
    }
}

impl SessionState {
    /// What the session returns to its caller: nothing while it runs, success
    /// once stopped, the error once failed.
    pub open spec fn outcome_of(self) -> Option<Result<(), Error>> {
        match self {
            SessionState::Running => None,
            SessionState::Stopped => Some(Ok(())),
            SessionState::Failed(error) => Some(Err(error)),
        }
    }

    /// Whether the session still receives.
    pub fn is_running(&self) -> (r: bool)
        ensures
            r == (*self is Running),
    {
        match self {
            SessionState::Running => true,
            _ => false,
        }
    }

    /// The result of a session that has ended.
    pub fn outcome(&self) -> (r: Option<Result<(), Error>>)
        ensures
            r == self.outcome_of(),
    {
        match self {
            SessionState::Running => None,
            SessionState::Stopped => Some(Ok(())),
            SessionState::Failed(error) => Some(Err(*error)),
        }
    }
}

/// A zeroed receive buffer of `MAX_DATAGRAM` bytes, allocated once per
/// session and reused for every datagram.
pub fn receive_buffer() -> (buf: Vec<u8>)
    ensures
        buf@ == Seq::new(MAX_DATAGRAM as nat, |i: int| 0u8),
{
    let buf = vec![0u8; MAX_DATAGRAM];
    assert(buf@ =~= Seq::new(MAX_DATAGRAM as nat, |i: int| 0u8));
    buf
}

/// The bytes of the datagram that a receive of `len` bytes left in `buf`:
/// one datagram is one decode unit.
pub fn datagram(buf: &[u8], len: usize) -> (bytes: &[u8])
    requires
        len <= buf@.len(),
    ensures
        bytes@ == buf@.take(len as int),
{
    vstd::slice::slice_subrange(buf, 0, len)
}

/// What is left to do for an arrival once the state machine has looked at it.
#[derive(Debug)]
pub enum Decision<E> {
    /// Publish this event; what becomes of the session depends on whether
    /// anybody listens.
    Publish(E),
    /// Nothing is published; the session is in this state.
    Settle(SessionState),
}

/// The decision for an arrival.
pub open spec fn decision_of<E>(state: SessionState, arrival: Arrival<E>) -> Decision<E> {
    match publishes(state, arrival) {
        Some(event) => Decision::Publish(event),
        None => Decision::Settle(next_state(state, arrival, true)),
    }
}

/// Decides what an arrival does to the session, without touching a channel.
pub fn decide<E>(state: SessionState, arrival: Arrival<E>) -> (decision: Decision<E>)
    ensures
        decision == decision_of(state, arrival),
{
    match state {
        SessionState::Running => match arrival {
            Arrival::Cancelled => Decision::Settle(SessionState::Stopped),
            Arrival::ReceiveFailed => Decision::Settle(SessionState::Failed(Error::Io)),
            Arrival::Malformed => Decision::Settle(SessionState::Failed(Error::Codec)),
            Arrival::Message(event) => Decision::Publish(event),
        },
        SessionState::Stopped => Decision::Settle(SessionState::Stopped),
        SessionState::Failed(error) => Decision::Settle(SessionState::Failed(error)),
    }
}

/// The state of a running session after it published an event, given what
/// the send returned.
pub fn after_publish(sent: Result<(), Error>) -> (next: SessionState)
    ensures
        next == (if sent is Ok {
            SessionState::Running
        } else {
            SessionState::Failed(Error::ChannelClosed)
        }),
{
    match sent {
        Ok(()) => SessionState::Running,
        Err(_) => SessionState::Failed(Error::ChannelClosed),
    }
}

/// One turn of the receive session: takes what the caller saw, publishes a
/// decoded event on `event`, and returns the state to go on with.
///
/// Only the fate of a published event is open, as it depends on the
/// listener; every other arrival has exactly one next state.
pub fn listen_step<E>(state: SessionState, arrival: Arrival<E>, event: &EventSender<E>) -> (next:
    SessionState)
    ensures
        next == next_state(state, arrival, true) || next == next_state(state, arrival, false),
        publishes(state, arrival) is None ==> next == next_state(state, arrival, true),
{
    match decide(state, arrival) {
        Decision::Publish(message) => after_publish(event.send(message)),
        Decision::Settle(next) => next,
    }
}

/// One arrival of a session's history, with whether the event that it
/// published, if it published one, found a listener.
#[derive(Debug)]
pub struct Observed<E> {
    pub arrival: Arrival<E>,
    pub delivered: bool,
}

/// The state in which a session that starts in `state` ends up after a
/// history of arrivals.
pub open spec fn run<E>(state: SessionState, history: Seq<Observed<E>>) -> SessionState
    decreases history.len(),
{
    if history.len() == 0 {
        state
    } else {
        run(next_state(state, history[0].arrival, history[0].delivered), history.drop_first())
    }
}

/// The events that a session that starts in `state` delivers to its listener
/// over a history of arrivals, in the order of delivery.
pub open spec fn delivered_events<E>(state: SessionState, history: Seq<Observed<E>>) -> Seq<E>
    decreases history.len(),
{
    if history.len() == 0 {
        Seq::empty()
    } else {
        let first = history[0];
        let rest = delivered_events(
            next_state(state, first.arrival, first.delivered),
            history.drop_first(),
        );
        match publishes(state, first.arrival) {
            Some(event) => if first.delivered {
                seq![event] + rest
            } else {
                rest
            },
            None => rest,
        }
    }
}

/// Whether a history holds nothing but decoded messages that found a
/// listener.
pub open spec fn all_delivered<E>(history: Seq<Observed<E>>) -> bool {
    forall|i: int|
        0 <= i < history.len() ==> (#[trigger] history[i]).arrival is Message
            && history[i].delivered
}

/// The events of a history of decoded messages, in order.
pub open spec fn events_of<E>(history: Seq<Observed<E>>) -> Seq<E> {
    Seq::new(history.len(), |i: int| history[i].arrival->Message_0)
}

/// A session that has ended stays as it ended: whatever arrives afterwards
/// changes neither its state nor what it has delivered.
pub proof fn law_ended_session_stays_ended<E>(state: SessionState, history: Seq<Observed<E>>)
    requires
        !(state is Running),
    ensures
        run(state, history) == state,
        delivered_events(state, history) == Seq::<E>::empty(),
    decreases history.len(),
{
    if history.len() > 0 {
        law_ended_session_stays_ended(state, history.drop_first());
    }
}

/// A history may be run in two parts: the second part starts where the first
/// one ended, and what is delivered is what both parts deliver.
pub proof fn law_run_in_two_parts<E>(
    state: SessionState,
    first: Seq<Observed<E>>,
    second: Seq<Observed<E>>,
)
    ensures
        run(state, first + second) == run(run(state, first), second),
        delivered_events(state, first + second) == delivered_events(state, first)
            + delivered_events(run(state, first), second),
    decreases first.len(),
{
    if first.len() == 0 {
        assert(first + second =~= second);
        assert(delivered_events(state, first) + delivered_events(state, second)
            =~= delivered_events(state, second));
    } else {
        let head = first[0];
        let after = next_state(state, head.arrival, head.delivered);
        assert((first + second)[0] == head);
        assert((first + second).drop_first() =~= first.drop_first() + second);
        law_run_in_two_parts(after, first.drop_first(), second);
        let rest = delivered_events(after, first.drop_first());
        let tail = delivered_events(run(after, first.drop_first()), second);
        assert((seq![publishes(state, head.arrival)->Some_0] + rest) + tail =~= seq![
            publishes(state, head.arrival)->Some_0,
        ] + (rest + tail));
    }
}

/// While every datagram decodes and finds a listener, the session keeps
/// running and delivers each event, in the order of arrival.
pub proof fn law_messages_are_delivered_in_order<E>(history: Seq<Observed<E>>)
    requires
        all_delivered(history),
    ensures
        run(SessionState::Running, history) == SessionState::Running,
        delivered_events(SessionState::Running, history) == events_of(history),
    decreases history.len(),
{
    if history.len() == 0 {
        assert(events_of(history) =~= Seq::<E>::empty());
    } else {
        let head = history[0];
        let rest = history.drop_first();
        assert(head.arrival is Message && head.delivered);
        assert forall|i: int| 0 <= i < rest.len() implies (#[trigger] rest[i]).arrival is Message
            && rest[i].delivered by {
            assert(rest[i] == history[i + 1]);
        }
        law_messages_are_delivered_in_order(rest);
        assert(events_of(history) =~= seq![head.arrival->Message_0] + events_of(rest)) by {
            assert forall|i: int| 0 <= i < history.len() implies events_of(history)[i] == (seq![
                head.arrival->Message_0,
            ] + events_of(rest))[i] by {
                if i > 0 {
                    assert(rest[i - 1] == history[i]);
                }
            }
        }
    }
}

/// The first arrival that ends the session decides how it ends: every event
/// that was delivered before it stays delivered, and nothing that arrives
/// after it is received or delivered.
pub proof fn law_first_ending_arrival_decides<E>(
    before: Seq<Observed<E>>,
    ending: Observed<E>,
    after: Seq<Observed<E>>,
)
    requires
        all_delivered(before),
        !(ending.arrival is Message && ending.delivered),
    ensures
        run(SessionState::Running, before.push(ending) + after) == next_state(
            SessionState::Running,
            ending.arrival,
            ending.delivered,
        ),
        !(run(SessionState::Running, before.push(ending) + after) is Running),
        delivered_events(SessionState::Running, before.push(ending) + after) == events_of(before),
{
    let ended = next_state(SessionState::Running, ending.arrival, ending.delivered);
    let last = seq![ending];
    assert(before.push(ending) =~= before + last);
    law_messages_are_delivered_in_order(before);
    law_run_in_two_parts(SessionState::Running, before, last);
    assert(last[0] == ending);
    assert(last.drop_first().len() == 0);
    assert(run(ended, last.drop_first()) == ended);
    assert(run(SessionState::Running, last) == ended);
    assert(delivered_events(ended, last.drop_first()) =~= Seq::<E>::empty());
    assert(delivered_events(SessionState::Running, last) =~= Seq::<E>::empty());
    assert(delivered_events(SessionState::Running, before + last) =~= events_of(before));
    law_run_in_two_parts(SessionState::Running, before + last, after);
    law_ended_session_stays_ended(ended, after);
    assert(delivered_events(SessionState::Running, before + last) + Seq::<E>::empty()
        =~= events_of(before));
}

/// Cancellation stops the session in success. An event whose datagram had
/// arrived before the cancellation was seen is still delivered, and nothing
/// is received afterwards.
pub proof fn law_cancellation_stops_without_loss<E>(
    before: Seq<Observed<E>>,
    delivered: bool,
    after: Seq<Observed<E>>,
)
    requires
        all_delivered(before),
    ensures
        ({
            let history = before.push(Observed { arrival: Arrival::Cancelled, delivered }) + after;
            &&& run(SessionState::Running, history) == SessionState::Stopped
            &&& run(SessionState::Running, history).outcome_of() == Some(Ok::<(), Error>(()))
            &&& delivered_events(SessionState::Running, history) == events_of(before)
        }),
{
    law_first_ending_arrival_decides(
        before,
        Observed { arrival: Arrival::Cancelled, delivered },
        after,
    );
}

/// One malformed datagram ends the session with `Codec`: no datagram after
/// it is processed.
pub proof fn law_malformed_datagram_fails_fast<E>(
    before: Seq<Observed<E>>,
    delivered: bool,
    after: Seq<Observed<E>>,
)
    requires
        all_delivered(before),
    ensures
        ({
            let history = before.push(Observed { arrival: Arrival::Malformed, delivered }) + after;
            &&& run(SessionState::Running, history) == SessionState::Failed(Error::Codec)
            &&& run(SessionState::Running, history).outcome_of() == Some(
                Err::<(), Error>(Error::Codec),
            )
            &&& delivered_events(SessionState::Running, history) == events_of(before)
        }),
{
    law_first_ending_arrival_decides(
        before,
        Observed { arrival: Arrival::Malformed, delivered },
        after,
    );
}

} // verus!
