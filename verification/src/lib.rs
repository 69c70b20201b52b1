//! Message-passing primitives for actor-style components: event channels and
//! promises, the submit and subscribe combinators built from them, and the
//! decisions of a datagram transport (routing, fan-out, the receive session).

pub mod error;
pub mod address;
pub mod channel;
pub mod responder;
pub mod session;
pub mod transport;
