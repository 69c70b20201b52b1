use vstd::prelude::*;

verus! {

/// Why an operation of this crate failed.
#[derive(Clone, Copy, Debug, PartialEq, Eq, Structural)]
pub enum Error {
    /// The other half of a channel is gone.
    ChannelClosed,
    /// A submitted operation's promise was abandoned before it was resolved.
    RequestFailed,
    /// The address is of a kind that the transport cannot route.
    UnsupportedAddress,
    /// The socket reported a failure.
    Io,
    /// A wire message could not be encoded or decoded.
    Codec,
}

} // verus!
