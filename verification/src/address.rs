//! Socket addresses as plain values, and the choice among the candidates
//! that a name lookup returns.

use vstd::prelude::*;

verus! {

/// A concrete socket address: an IPv4 or IPv6 address, as the integer that
/// its bytes spell in network order, and a port.
#[derive(Clone, Copy, Debug, PartialEq, Eq, Structural)]
#[allow(inconsistent_fields)]
pub enum SocketAddress {
    V4 { ip: u32, port: u16 },
    V6 { ip: u128, port: u16, flowinfo: u32, scope_id: u32 },
}

/// What a name lookup for `host:port` gave: a failure, or the candidate
/// addresses in the order in which the resolver returned them.
#[derive(Debug, PartialEq, Eq)]
pub enum Lookup {
    Failed,
    Candidates(Vec<SocketAddress>),
}

impl View for Lookup {
    type V = Option<Seq<SocketAddress>>;

    open spec fn view(&self) -> Option<Seq<SocketAddress>> {
        match self {
            Lookup::Failed => None,
            Lookup::Candidates(found) => Some(found@),
        }
    }
}

/// The address that a lookup resolves to: the first candidate, if there is one.
pub open spec fn first_candidate(lookup: Option<Seq<SocketAddress>>) -> Option<SocketAddress> {
    match lookup {
        Some(found) if found.len() > 0 => Some(found[0]),
        _ => None,
    }
}

/// Picks the address to connect to. The first candidate wins; a failed
/// lookup and one without candidates both give `None`.
pub fn select_address(lookup: &Lookup) -> (chosen: Option<SocketAddress>)
    ensures
        chosen == first_candidate(lookup@),
        chosen is Some <==> (lookup@ matches Some(found) && found.len() > 0),
{
    match lookup {
        Lookup::Failed => None,
        Lookup::Candidates(found) => {
            if found.len() > 0 {
                Some(found[0])
            } else {
                None
            }
        },
    }
}

} // verus!
