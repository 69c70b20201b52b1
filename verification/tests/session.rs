use actor_messaging::channel::event_channel;
use actor_messaging::error::Error;
use actor_messaging::session::{
    after_publish, datagram, decide, listen_step, receive_buffer, Arrival, Decision, SessionState,
    MAX_DATAGRAM,
};
use std::task::{Context, Poll, Waker};

#[test]
fn receive_buffer_is_64_kib_of_zeros() {
    let buf = receive_buffer();
    assert_eq!(MAX_DATAGRAM, 65536);
    assert_eq!(buf.len(), 65536);
    assert!(buf.iter().all(|byte| *byte == 0));
}

#[test]
fn datagram_is_the_received_prefix_of_the_buffer() {
    let mut buf = receive_buffer();
    buf[0] = 7;
    buf[1] = 8;
    buf[2] = 9;
    assert_eq!(datagram(&buf, 2), &[7u8, 8][..]);
    assert_eq!(datagram(&buf, 0), &[0u8; 0][..]);
    assert_eq!(datagram(&buf, 65536).len(), 65536);
    assert_eq!(datagram(&[1u8, 2, 3], 3), &[1u8, 2, 3][..]);
}

#[test]
fn running_session_has_no_outcome() {
    assert!(SessionState::Running.is_running());
    assert_eq!(SessionState::Running.outcome(), None);
}

#[test]
fn stopped_session_is_a_success() {
    assert!(!SessionState::Stopped.is_running());
    assert_eq!(SessionState::Stopped.outcome(), Some(Ok(())));
}

#[test]
fn failed_session_returns_its_error() {
    let failed = SessionState::Failed(Error::Codec);
    assert!(!failed.is_running());
    assert_eq!(failed.outcome(), Some(Err(Error::Codec)));
    assert_eq!(SessionState::Failed(Error::Io).outcome(), Some(Err(Error::Io)));
}

#[test]
fn decide_settles_every_arrival_but_a_message() {
    assert!(matches!(
        decide::<u8>(SessionState::Running, Arrival::Cancelled),
        Decision::Settle(SessionState::Stopped)
    ));
    assert!(matches!(
        decide::<u8>(SessionState::Running, Arrival::ReceiveFailed),
        Decision::Settle(SessionState::Failed(Error::Io))
    ));
    assert!(matches!(
        decide::<u8>(SessionState::Running, Arrival::Malformed),
        Decision::Settle(SessionState::Failed(Error::Codec))
    ));
    assert!(matches!(
        decide(SessionState::Running, Arrival::Message(5u8)),
        Decision::Publish(5)
    ));
}

#[test]
fn decide_publishes_nothing_once_the_session_has_ended() {
    assert!(matches!(
        decide(SessionState::Stopped, Arrival::Message(5u8)),
        Decision::Settle(SessionState::Stopped)
    ));
    assert!(matches!(
        decide(SessionState::Failed(Error::Codec), Arrival::Message(5u8)),
        Decision::Settle(SessionState::Failed(Error::Codec))
    ));
    assert!(matches!(
        decide::<u8>(SessionState::Failed(Error::Io), Arrival::Cancelled),
        Decision::Settle(SessionState::Failed(Error::Io))
    ));
}

#[test]
fn after_publish_fails_the_session_where_nobody_listens() {
    assert_eq!(after_publish(Ok(())), SessionState::Running);
    assert_eq!(
        after_publish(Err(Error::ChannelClosed)),
        SessionState::Failed(Error::ChannelClosed)
    );
}

#[test]
fn listen_step_publishes_a_decoded_message() {
    let (sender, mut source) = event_channel::<String>();
    let next = listen_step(SessionState::Running, Arrival::Message("hello".to_string()), &sender);
    assert_eq!(next, SessionState::Running);
    let mut cx = Context::from_waker(Waker::noop());
    assert_eq!(source.next(&mut cx), Poll::Ready(Ok("hello".to_string())));
    assert_eq!(source.next(&mut cx), Poll::Pending);
}

#[test]
fn datagram_received_before_cancellation_is_still_delivered() {
    let (sender, mut source) = event_channel::<u32>();
    let mut state = SessionState::Running;
    state = listen_step(state, Arrival::Message(1), &sender);
    state = listen_step(state, Arrival::Message(2), &sender);
    state = listen_step(state, Arrival::Cancelled, &sender);
    assert_eq!(state, SessionState::Stopped);
    assert_eq!(state.outcome(), Some(Ok(())));
    state = listen_step(state, Arrival::Message(3), &sender);
    assert_eq!(state, SessionState::Stopped);
    let mut cx = Context::from_waker(Waker::noop());
    assert_eq!(source.next(&mut cx), Poll::Ready(Ok(1)));
    assert_eq!(source.next(&mut cx), Poll::Ready(Ok(2)));
    assert_eq!(source.next(&mut cx), Poll::Pending);
}

#[test]
fn malformed_datagram_ends_the_session_with_codec() {
    let (sender, mut source) = event_channel::<u32>();
    let mut state = SessionState::Running;
    state = listen_step(state, Arrival::Message(1), &sender);
    state = listen_step(state, Arrival::Malformed, &sender);
    assert_eq!(state, SessionState::Failed(Error::Codec));
    assert_eq!(state.outcome(), Some(Err(Error::Codec)));
    state = listen_step(state, Arrival::Message(2), &sender);
    state = listen_step(state, Arrival::Cancelled, &sender);
    assert_eq!(state, SessionState::Failed(Error::Codec));
    let mut cx = Context::from_waker(Waker::noop());
    assert_eq!(source.next(&mut cx), Poll::Ready(Ok(1)));
    assert_eq!(source.next(&mut cx), Poll::Pending);
}

#[test]
fn receive_failure_ends_the_session_with_io() {
    let (sender, _source) = event_channel::<u32>();
    let state = listen_step(SessionState::Running, Arrival::ReceiveFailed, &sender);
    assert_eq!(state, SessionState::Failed(Error::Io));
}

#[test]
fn event_without_listener_ends_the_session_with_channel_closed() {
    let (sender, source) = event_channel::<u32>();
    drop(source);
    let state = listen_step(SessionState::Running, Arrival::Message(1), &sender);
    assert_eq!(state, SessionState::Failed(Error::ChannelClosed));
    assert_eq!(state.outcome(), Some(Err(Error::ChannelClosed)));
}

#[test]
fn cancellation_is_idempotent() {
    let (sender, _source) = event_channel::<u32>();
    let once = listen_step(SessionState::Running, Arrival::Cancelled, &sender);
    let twice = listen_step(once, Arrival::Cancelled, &sender);
    assert_eq!(once, SessionState::Stopped);
    assert_eq!(twice, SessionState::Stopped);
}
