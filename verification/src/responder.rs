//! A stand-in for the serving side of a submit channel: it answers every
//! request with the default value of the reply type.

use vstd::prelude::*;
use crate::channel::PromiseSender;

verus! {

/// The responder that answers everything with the default value.
#[derive(Debug, Clone, Copy, PartialEq, Eq, Hash, Default, Structural)]
pub struct Null;

/// What the serving loop does after one receive.
#[derive(Debug, Clone, Copy, PartialEq, Eq, Structural)]
pub enum Served {
    /// A request was answered: receive the next one.
    Continue,
    /// The channel has ended: the loop ends in success.
    Finished,
}

/// The reply that the responder gives to every request: a default value of
/// the reply type.
pub fn default_reply<U: Default>() -> (reply: U)
    ensures
        call_ensures(U::default, (), reply),
{
    U::default()
}

impl Null {
    /// Resolves the request's promise with the default reply, whatever the
    /// operation is. A reply that nobody waits for is no failure: it comes
    /// back, for the caller to log or drop, and it is the default reply.
    pub fn answer<T, U: Default>(self, request: (T, PromiseSender<U>)) -> (undelivered: Option<U>)
        ensures
            undelivered matches Some(reply) ==> call_ensures(U::default, (), reply),
    {
        let (_, reply) = request;
        reply.resolve(default_reply())
    }

    /// One turn of the serving loop, on what the submit channel yielded: the
    /// end of the channel ends the loop in success, and a request is answered
    /// and the loop goes on, whether or not anybody still waits for the reply.
    pub fn serve<T, U: Default>(self, received: Option<(T, PromiseSender<U>)>) -> (r: Served)
        ensures
            received is None ==> r == Served::Finished,
            received is Some ==> r == Served::Continue,
    {
        match received {
            None => Served::Finished,
            Some(request) => {
                let _ = self.answer(request);
                Served::Continue
            },
        }
    }
}

} // verus!
