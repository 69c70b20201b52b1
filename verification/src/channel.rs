//! Event channels and promises, and the submit and subscribe combinators
//! built from them.
//!
//! A suspension point is a poll: a function that takes the task's context and
//! says `Pending` where the caller has to wait. What a call returns depends on
//! what the other half of the channel did, so each function that touches a
//! channel states what holds of every outcome, and a pure function beside it
//! states exactly what follows from each outcome.

use vstd::prelude::*;
use core::task::Context;
use core::task::Poll;
use tokio::sync::mpsc::UnboundedReceiver;
use tokio::sync::mpsc::UnboundedSender;
use crate::error::Error;

verus! {

/// `tokio::sync::mpsc::UnboundedSender`, carried as an opaque value.
#[verifier::external_type_specification]
#[verifier::external_body]
#[verifier::reject_recursive_types(T)]
pub struct ExUnboundedSender<T>(UnboundedSender<T>);

/// `tokio::sync::mpsc::UnboundedReceiver`, carried as an opaque value.
#[verifier::external_type_specification]
#[verifier::external_body]
#[verifier::reject_recursive_types(T)]
pub struct ExUnboundedReceiver<T>(UnboundedReceiver<T>);

/// `tokio::sync::oneshot::Sender`, carried as an opaque value.
#[verifier::external_type_specification]
#[verifier::external_body]
#[verifier::reject_recursive_types(T)]
pub struct ExOneshotSender<T>(tokio::sync::oneshot::Sender<T>);

/// `tokio::sync::oneshot::Receiver`, carried as an opaque value.
#[verifier::external_type_specification]
#[verifier::external_body]
#[verifier::reject_recursive_types(T)]
pub struct ExOneshotReceiver<T>(tokio::sync::oneshot::Receiver<T>);

/// `tokio::sync::oneshot::error::RecvError`, which says only that the sender
/// was dropped.
#[verifier::external_type_specification]
#[verifier::external_body]
pub struct ExRecvError(tokio::sync::oneshot::error::RecvError);

/// `core::task::Context`, carried as an opaque value.
#[verifier::external_type_specification]
#[verifier::external_body]
pub struct ExContext<'a>(Context<'a>);

/// `core::task::Poll`. Its two variants, `Ready` and `Pending`, are public:
/// Verus reads them from the definition itself.
#[verifier::external_type_specification]
#[verifier::reject_recursive_types(T)]
pub struct ExPoll<T>(Poll<T>);

/// `tokio::sync::mpsc::unbounded_channel` makes the two halves of a new
/// channel. Nothing is claimed of them.
pub assume_specification<T>[ tokio::sync::mpsc::unbounded_channel::<T> ]() -> (halves: (
    UnboundedSender<T>,
    UnboundedReceiver<T>,
));

/// `tokio::sync::oneshot::channel` makes the two halves of a new one-shot
/// channel. Nothing is claimed of them.
pub assume_specification<T>[ tokio::sync::oneshot::channel::<T> ]() -> (halves: (
    tokio::sync::oneshot::Sender<T>,
    tokio::sync::oneshot::Receiver<T>,
));

/// `UnboundedSender::send`. Whether it succeeds depends on the receiver; the
/// one claim is that a failure hands back the very message that was given.
/// The call aborts the process where the channel already holds half of
/// `usize::MAX` messages, a state that no contract here can see.
#[verifier::external_body]
fn channel_send<M>(sender: &UnboundedSender<M>, message: M) -> (sent: Result<(), M>)
    ensures
        sent matches Err(returned) ==> returned == message,
{
    match sender.send(message) {
        Ok(()) => Ok(()),
        Err(tokio::sync::mpsc::error::SendError(returned)) => Err(returned),
    }
}

/// `UnboundedSender::clone`: another handle. Nothing is claimed of it.
#[verifier::external_body]
fn channel_share<M>(sender: &UnboundedSender<M>) -> (shared: UnboundedSender<M>) {
    sender.clone()
}

/// `UnboundedReceiver::poll_recv`. Nothing is claimed of what it finds.
#[verifier::external_body]
fn channel_poll<M>(receiver: &mut UnboundedReceiver<M>, cx: &mut Context<'_>) -> (polled: Poll<
    Option<M>,
>) {
    receiver.poll_recv(cx)
}

/// `tokio::sync::oneshot::Sender::send`. Whether it succeeds depends on the
/// receiver; the one claim is that a failure hands back the very value that
/// was given.
#[verifier::external_body]
fn promise_send<T>(sender: tokio::sync::oneshot::Sender<T>, value: T) -> (sent: Result<(), T>)
    ensures
        sent matches Err(returned) ==> returned == value,
{
    sender.send(value)
}

/// What one poll of a promise found.
#[derive(Debug)]
#[verifier::reject_recursive_types(T)]
pub enum Reply<T> {
    /// Nothing yet: the promise comes back, to be polled again.
    Pending(PromiseSource<T>),
    /// The value, or `RequestFailed` where the producer was dropped without
    /// resolving.
    Ready(Result<T, Error>),
}

/// What one poll of a one-shot receiver found.
#[verifier::reject_recursive_types(T)]
enum Found<T> {
    /// Nothing yet; the receiver can be polled again.
    Nothing(tokio::sync::oneshot::Receiver<T>),
    /// The value that was sent.
    Value(T),
    /// The sender was dropped without sending.
    Abandoned,
}

/// `Future::poll` of `tokio::sync::oneshot::Receiver`. Which of the three it
/// finds depends on the sender; the one claim is that a pending poll leaves
/// the receiver as it was, so that the receiver that goes out is the one that
/// came in. The call panics on a receiver that has completed: the receiver
/// comes in by value and goes out again only where the poll was pending, and
/// `PromiseSource` keeps it in a private field, so no completed receiver
/// reaches it.
#[verifier::external_body]
fn promise_poll<T>(receiver: tokio::sync::oneshot::Receiver<T>, cx: &mut Context<'_>) -> (found:
    Found<T>)
    ensures
        found matches Found::Nothing(same) ==> same == receiver,
{
    let mut receiver = receiver;
    match core::future::Future::poll(core::pin::Pin::new(&mut receiver), cx) {
        Poll::Pending => Found::Nothing(receiver),
        Poll::Ready(Ok(value)) => Found::Value(value),
        Poll::Ready(Err(_)) => Found::Abandoned,
    }
}

/// The producing half of an event channel. Any number of owners may hold a
/// clone; sending never blocks.
#[derive(Debug)]
#[verifier::reject_recursive_types(M)]
pub struct EventSender<M>(UnboundedSender<M>);

/// The consuming half of an event channel, driven by one task at a time.
#[derive(Debug)]
#[verifier::reject_recursive_types(M)]
pub struct EventSource<M>(UnboundedReceiver<M>);

/// The producing half of a promise. Resolving consumes it, so a promise is
/// resolved at most once.
#[derive(Debug)]
#[verifier::reject_recursive_types(T)]
pub struct PromiseSender<T>(tokio::sync::oneshot::Sender<T>);

/// The consuming half of a promise. Polling consumes it, and only a pending
/// poll gives it back, so it yields at most one value.
#[derive(Debug)]
#[verifier::reject_recursive_types(T)]
pub struct PromiseSource<T>(tokio::sync::oneshot::Receiver<T>);

/// The client's capability to submit operations of type `T` that are answered
/// with a `U`.
pub type SubmitHandle<T, U> = EventSender<(T, PromiseSender<U>)>;

/// The server's end of a submit channel.
pub type SubmitSource<T, U> = EventSource<(T, PromiseSender<U>)>;

/// The client's capability to subscribe with a request of type `T` to a stream
/// of `U`.
pub type SubscribeHandle<T, U> = EventSender<(T, EventSender<U>)>;

/// The server's end of a subscribe channel.
pub type SubscribeSource<T, U> = EventSource<(T, EventSender<U>)>;

/// What a send comes to, given what the channel did with the message: a
/// message that came back found no receiver.
pub open spec fn delivery_of<M>(sent: Result<(), M>) -> Result<(), Error> {
    match sent {
        Ok(()) => Ok(()),
        Err(_) => Err(Error::ChannelClosed),
    }
}

/// What `next` comes to, given what one poll of the channel found: the end of
/// the channel is an error.
pub open spec fn next_of<M>(polled: Poll<Option<M>>) -> Poll<Result<M, Error>> {
    match polled {
        Poll::Pending => Poll::Pending,
        Poll::Ready(Some(message)) => Poll::Ready(Ok(message)),
        Poll::Ready(None) => Poll::Ready(Err(Error::ChannelClosed)),
    }
}

/// What one poll of a promise comes to, given what the poll of its receiver
/// found: a receiver that found nothing is the promise to poll again, and
/// everything else settles the promise.
closed spec fn reply_of<T>(found: Found<T>) -> Reply<T> {
    match found {
        Found::Nothing(receiver) => Reply::Pending(PromiseSource(receiver)),
        Found::Value(value) => Reply::Ready(settled_of(Some(value))),
        Found::Abandoned => Reply::Ready(settled_of(None::<T>)),
    }
}

/// What awaiting a promise comes to, given what its channel had: no value
/// means that the producer was dropped without resolving.
pub open spec fn settled_of<T>(outcome: Option<T>) -> Result<T, Error> {
    match outcome {
        Some(value) => Ok(value),
        None => Err(Error::RequestFailed),
    }
}

/// What a registration comes to, given what the send of the request
/// returned: the half that was kept back, where the other half was delivered
/// with the request.
pub open spec fn registered_of<H>(sent: Result<(), Error>, kept: H) -> Result<H, Error> {
    match sent {
        Ok(()) => Ok(kept),
        Err(error) => Err(error),
    }
}

/// What resolving a promise comes to, given what the one-shot channel did
/// with the value: a value that came back found no receiver, and is handed on
/// to the caller; this is no error.
pub open spec fn returned_of<T>(sent: Result<(), T>) -> Option<T> {
    match sent {
        Ok(()) => None,
        Err(returned) => Some(returned),
    }
}

/// Turns what the channel did with a message into the result of a send.
pub fn delivery<M>(sent: Result<(), M>) -> (r: Result<(), Error>)
    ensures
        r == delivery_of(sent),
{
    match sent {
        Ok(()) => Ok(()),
        Err(_) => Err(Error::ChannelClosed),
    }
}

/// Turns what one poll of a channel found into the result of `next`.
pub fn next_outcome<M>(polled: Poll<Option<M>>) -> (r: Poll<Result<M, Error>>)
    ensures
        r == next_of(polled),
{
    match polled {
        Poll::Pending => Poll::Pending,
        Poll::Ready(Some(message)) => Poll::Ready(Ok(message)),
        Poll::Ready(None) => Poll::Ready(Err(Error::ChannelClosed)),
    }
}

/// Turns what a promise's channel had into the result of awaiting it.
pub fn settled<T>(outcome: Option<T>) -> (r: Result<T, Error>)
    ensures
        r == settled_of(outcome),
{
    match outcome {
        Some(value) => Ok(value),
        None => Err(Error::RequestFailed),
    }
}

/// Turns what one poll of a promise's receiver found into the reply of the
/// promise.
fn replied<T>(found: Found<T>) -> (r: Reply<T>)
    ensures
        r == reply_of(found),
{
    match found {
        Found::Nothing(receiver) => Reply::Pending(PromiseSource(receiver)),
        Found::Value(value) => Reply::Ready(settled(Some(value))),
        Found::Abandoned => Reply::Ready(settled(None)),
    }
}

/// Turns what the one-shot channel did with a value into the result of
/// resolving a promise with it.
pub fn returned<T>(sent: Result<(), T>) -> (r: Option<T>)
    ensures
        r == returned_of(sent),
{
    match sent {
        Ok(()) => None,
        Err(returned) => Some(returned),
    }
}

/// Turns what the send of a request returned into the result of a submit or
/// a subscribe, which kept `kept` back for the caller.
pub fn registered<H>(sent: Result<(), Error>, kept: H) -> (r: Result<H, Error>)
    ensures
        r == registered_of(sent, kept),
{
    match sent {
        Ok(()) => Ok(kept),
        Err(error) => Err(error),
    }
}

/// One poll of a channel looks the same through `next` and through
/// `option_next`, but for the end of the channel: `next` reports
/// `ChannelClosed` exactly where `option_next` reports `None`, it is pending
/// exactly where `option_next` is, and it yields the same message.
pub proof fn law_end_of_channel_is_an_error_or_none<M>(polled: Poll<Option<M>>)
    ensures
        next_of(polled) == Poll::Ready(Err::<M, Error>(Error::ChannelClosed)) <==> polled
            == Poll::Ready(None::<M>),
        next_of(polled) is Pending <==> polled is Pending,
        forall|message: M|
            next_of(polled) == Poll::Ready(Ok::<M, Error>(message)) <==> polled == Poll::Ready(
                Some(message),
            ),
{
}

/// A new event channel: unbounded, many producers, one consumer.
pub fn event_channel<M>() -> (halves: (EventSender<M>, EventSource<M>)) {
    let (sender, receiver) = tokio::sync::mpsc::unbounded_channel();
    (EventSender(sender), EventSource(receiver))
}

/// A new promise: one producer, one consumer, one value.
pub fn promise_channel<T>() -> (halves: (PromiseSender<T>, PromiseSource<T>)) {
    let (sender, receiver) = tokio::sync::oneshot::channel();
    (PromiseSender(sender), PromiseSource(receiver))
}

impl<M> From<UnboundedSender<M>> for EventSender<M> {
    /// Takes the sending half of a channel that was made elsewhere.
    fn from(sender: UnboundedSender<M>) -> (r: Self) {
        EventSender(sender)
    }
}

impl<M> vstd::std_specs::convert::FromSpecImpl<UnboundedSender<M>> for EventSender<M> {
    open spec fn obeys_from_spec() -> bool {
        true
    }

    closed spec fn from_spec(sender: UnboundedSender<M>) -> Self {
        EventSender(sender)
    }
}

impl<M> From<UnboundedReceiver<M>> for EventSource<M> {
    /// Takes the receiving half of a channel that was made elsewhere.
    fn from(receiver: UnboundedReceiver<M>) -> (r: Self) {
        EventSource(receiver)
    }
}

impl<M> vstd::std_specs::convert::FromSpecImpl<UnboundedReceiver<M>> for EventSource<M> {
    open spec fn obeys_from_spec() -> bool {
        true
    }

    closed spec fn from_spec(receiver: UnboundedReceiver<M>) -> Self {
        EventSource(receiver)
    }
}

impl<T> From<tokio::sync::oneshot::Sender<T>> for PromiseSender<T> {
    /// Takes the sending half of a one-shot channel that was made elsewhere.
    fn from(sender: tokio::sync::oneshot::Sender<T>) -> (r: Self) {
        PromiseSender(sender)
    }
}

impl<T> vstd::std_specs::convert::FromSpecImpl<tokio::sync::oneshot::Sender<T>> for PromiseSender<T> {
    open spec fn obeys_from_spec() -> bool {
        true
    }

    closed spec fn from_spec(sender: tokio::sync::oneshot::Sender<T>) -> Self {
        PromiseSender(sender)
    }
}

impl<M> Clone for EventSender<M> {
    /// Another handle to the same channel.
    fn clone(&self) -> (shared: Self) {
        EventSender(channel_share(&self.0))
    }
}

impl<M> EventSender<M> {
    /// Enqueues `message` without blocking. The only failure is
    /// `ChannelClosed`, where no receiver is left.
    pub fn send(&self, message: M) -> (r: Result<(), Error>)
        ensures
            r is Err ==> r == Err::<(), Error>(Error::ChannelClosed),
    {
        delivery(channel_send(&self.0, message))
    }
}

impl<M> EventSource<M> {
    /// Polls for the next message. `Pending` while the channel is open and
    /// empty; `ChannelClosed` once every producer is gone and the queue is
    /// drained.
    pub fn next(&mut self, cx: &mut Context<'_>) -> (r: Poll<Result<M, Error>>)
        ensures
            r matches Poll::Ready(Err(error)) ==> error == Error::ChannelClosed,
    {
        next_outcome(channel_poll(&mut self.0, cx))
    }

    /// Polls for the next message, with the end of the channel as `None`
    /// rather than as an error.
    pub fn option_next(&mut self, cx: &mut Context<'_>) -> (r: Poll<Option<M>>) {
        channel_poll(&mut self.0, cx)
    }
}

impl<T> PromiseSender<T> {
    /// Delivers `value` and consumes the producer. Where the receiver is
    /// already gone this is no failure: the value that nobody took comes
    /// back, for the caller to log or drop.
    pub fn resolve(self, value: T) -> (undelivered: Option<T>)
        ensures
            undelivered matches Some(returned) ==> returned == value,
    {
        returned(promise_send(self.0, value))
    }
}

impl<T> PromiseSource<T> {
    /// Polls the promise once. A pending poll gives back this very promise,
    /// to be polled again. The only failure is `RequestFailed`, where the
    /// producer was dropped without resolving.
    pub fn poll(self, cx: &mut Context<'_>) -> (r: Reply<T>)
        ensures
            r matches Reply::Pending(promise) ==> promise == self,
            r matches Reply::Ready(Err(error)) ==> error == Error::RequestFailed,
    {
        replied(promise_poll(self.0, cx))
    }
}

impl<T, U> EventSender<(T, PromiseSender<U>)> {
    /// Sends `op` with the producer of a fresh promise and returns the
    /// promise, on which exactly one reply is expected. Fails with
    /// `ChannelClosed` where the operation could not be delivered.
    pub fn submit(&self, op: T) -> (r: Result<PromiseSource<U>, Error>)
        ensures
            r matches Err(error) ==> error == Error::ChannelClosed,
    {
        let (result, promise) = promise_channel();
        registered(self.send((op, result)), promise)
    }
}

impl<T, U> EventSender<(T, EventSender<U>)> {
    /// Sends `op` with the producer of a fresh event channel and returns the
    /// consumer at once: registration waits for no acknowledgment. Fails with
    /// `ChannelClosed` where the request could not be delivered.
    pub fn subscribe(&self, op: T) -> (r: Result<EventSource<U>, Error>)
        ensures
            r matches Err(error) ==> error == Error::ChannelClosed,
    {
        let (event, source) = event_channel();
        registered(self.send((op, event)), source)
    }
}

} // verus!
