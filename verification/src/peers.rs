//! The set of known peers, kept up to date from the fabric's discovery
//! events. It tracks membership only and plays no part in the accounting.

use vstd::prelude::*;
use crate::idset::IdSet;

verus! {

/// What peer discovery reports.
#[derive(Debug, Clone, PartialEq, Eq)]
pub enum PeerEvent {
    /// A peer has appeared.
    Discovered(String),
    /// A peer has not been heard of for too long.
    Expired(String),
}

/// The known peers after an event.
pub open spec fn peers_after(known: Set<Seq<char>>, event: PeerEvent) -> Set<Seq<char>> {
    match event {
        PeerEvent::Discovered(peer) => known.insert(peer@),
        PeerEvent::Expired(peer) => known.remove(peer@),
    }
}

/// The order of the known peers after an event: a peer that is new goes to
/// the end, one that is known stays where it is, and one that expires leaves
/// its place while the others keep their order.
pub open spec fn order_after(known: Seq<Seq<char>>, event: PeerEvent) -> Seq<Seq<char>> {
    match event {
        PeerEvent::Discovered(peer) => if known.contains(peer@) {
            known
        } else {
            known.push(peer@)
        },
        PeerEvent::Expired(peer) => if known.contains(peer@) {
            known.remove(known.index_of(peer@))
        } else {
            known
        },
    }
}

/// Takes a discovery event into the set of known peers.
pub fn observe(peers: &mut IdSet, event: &PeerEvent)
    ensures
        final(peers)@ == peers_after(old(peers)@, *event),
        final(peers).order() == order_after(old(peers).order(), *event),
{
    match event {
        PeerEvent::Discovered(peer) => {
            peers.insert(peer.as_str());
        },
        PeerEvent::Expired(peer) => {
            peers.remove(peer.as_str());
        },
    }
}

} // verus!
