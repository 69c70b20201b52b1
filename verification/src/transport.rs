//! The sending side of a socket transport: which socket addresses one encoded
//! payload goes to.

use vstd::prelude::*;
use crate::address::route;
use crate::address::Addr;
use crate::address::SocketAddress;
use crate::error::Error;

verus! {

/// Where one payload is to be transmitted, in order, and how the fan-out ends
/// once those transmissions are made.
#[derive(Debug)]
pub struct FanOut {
    /// The socket addresses to transmit to, in the order of the destinations.
    pub targets: Vec<SocketAddress>,
    /// `Ok` where every destination is among the targets; `UnsupportedAddress`
    /// where the destination after the last target is no socket address.
    pub outcome: Result<(), Error>,
}

/// Whether `targets` and `outcome` are the fan-out over `destinations`: the
/// targets are the destinations up to the first that is no socket address,
/// and that one, if there is one, makes the outcome `UnsupportedAddress`.
/// The destinations before it are served all the same.
pub open spec fn fans_out(
    destinations: Seq<Addr>,
    targets: Seq<SocketAddress>,
    outcome: Result<(), Error>,
) -> bool {
    &&& targets.len() <= destinations.len()
    &&& forall|i: int| 0 <= i < targets.len() ==> destinations[i] == Addr::Socket(#[trigger] targets[i])
    &&& if targets.len() == destinations.len() {
        outcome == Ok::<(), Error>(())
    } else {
        &&& destinations[targets.len() as int].socket() is None
        &&& outcome == Err::<(), Error>(Error::UnsupportedAddress)
    }
}

/// Plans the transmissions of one payload to all of `destinations`.
pub fn fan_out(destinations: &[Addr]) -> (plan: FanOut)
    ensures
        fans_out(destinations@, plan.targets@, plan.outcome),
{
    let mut targets: Vec<SocketAddress> = Vec::new();
    let mut i: usize = 0;
    while i < destinations.len()
        invariant
            i <= destinations@.len(),
            targets@.len() == i,
            forall|k: int| 0 <= k < i ==> destinations@[k] == Addr::Socket(#[trigger] targets@[k]),
        decreases destinations@.len() - i,
    {
        match route(destinations[i]) {
            Ok(socket) => {
                targets.push(socket);
            },
            Err(error) => {
                return FanOut { targets, outcome: Err(error) };
            },
        }
        i += 1;
    }
    FanOut { targets, outcome: Ok(()) }
}

/// A fan-out whose first destination is no socket address transmits nothing.
pub proof fn law_unsupported_first_transmits_nothing(
    destinations: Seq<Addr>,
    targets: Seq<SocketAddress>,
    outcome: Result<(), Error>,
)
    requires
        fans_out(destinations, targets, outcome),
        destinations.len() > 0,
        destinations[0].socket() is None,
    ensures
        targets.len() == 0,
        outcome == Err::<(), Error>(Error::UnsupportedAddress),
{
    if targets.len() > 0 {
        assert(destinations[0] == Addr::Socket(targets[0]));
    }
}

/// The destinations determine the fan-out: there is one list of targets and
/// one outcome, whoever computes them.
pub proof fn law_fan_out_is_determined(
    destinations: Seq<Addr>,
    targets: Seq<SocketAddress>,
    outcome: Result<(), Error>,
    other_targets: Seq<SocketAddress>,
    other_outcome: Result<(), Error>,
)
    requires
        fans_out(destinations, targets, outcome),
        fans_out(destinations, other_targets, other_outcome),
    ensures
        targets == other_targets,
        outcome == other_outcome,
{
    if targets.len() < other_targets.len() {
        assert(destinations[targets.len() as int] == Addr::Socket(
            other_targets[targets.len() as int],
        ));
    }
    if other_targets.len() < targets.len() {
        assert(destinations[other_targets.len() as int] == Addr::Socket(
            targets[other_targets.len() as int],
        ));
    }
    assert forall|i: int| 0 <= i < targets.len() implies targets[i] == other_targets[i] by {
        assert(Addr::Socket(targets[i]) == Addr::Socket(other_targets[i]));
    }
    assert(targets =~= other_targets);
}

} // verus!
