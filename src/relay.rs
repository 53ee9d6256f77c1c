use vstd::prelude::*;

verus! {

/// What a change of port connections means to this client.
#[derive(Clone, Copy, Debug, PartialEq, Eq, Structural)]
pub enum TopologyNote {
    /// The first port is ours; `connected` tells whether the ports were joined or parted.
    FirstIsMine { connected: bool },
    /// Only the second port is ours.
    SecondIsMine { connected: bool },
    /// Neither port is ours.
    NeitherIsMine,
}

/// Classifies a connection change from whether each port belongs to this client.
pub fn note_topology(first_mine: bool, second_mine: bool, connected: bool) -> (r: TopologyNote)
    ensures
        first_mine ==> r == (TopologyNote::FirstIsMine { connected }),
        !first_mine && second_mine ==> r == (TopologyNote::SecondIsMine { connected }),
        !first_mine && !second_mine ==> r == TopologyNote::NeitherIsMine,
{
    if first_mine {
        TopologyNote::FirstIsMine { connected }
    } else if second_mine {
        TopologyNote::SecondIsMine { connected }
    } else {
        TopologyNote::NeitherIsMine
    }
}

} // verus!
