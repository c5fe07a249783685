//! Peer-to-peer gossip helpers: the outcome of a gate-guarded inbound sync and
//! the bootstrap addresses of the three-peer localhost mesh.

use crate::text::{decimal, push_decimal};
use crate::wire::MergeOutcome;
use vstd::prelude::*;

verus! {

/// Outcome of a gate-guarded inbound sync attempt.
#[derive(Debug, Clone, Copy, PartialEq, Eq, Structural)]
pub enum GatedSyncOutcome {
    /// The thermodynamic check admitted the tick; the merge gave this outcome.
    Admitted(MergeOutcome),
    /// The thermodynamic check refused the tick before the ledger was touched.
    RejectedByGate,
}

/// Well-known TCP ports for the three-peer localhost mesh demo.
pub const LOCALHOST_MESH_PORTS: [u16; 3] = [4001, 4002, 4003];

/// The TCP port of mesh peer `i` (`i < 3`).
pub open spec fn mesh_port(i: nat) -> nat {
    4001 + i
}

/// The bootstrap multiaddr of mesh peer `i` listening on `port`.
pub open spec fn mesh_addr(i: nat, port: nat) -> Seq<char> {
    "/ip4/127.0.0.1/tcp/"@ + decimal(port) + "/p2p/peer-"@ + decimal(i)
}

/// The multiaddrs of the mesh peers `0..k` other than `peer_index`, in order.
pub open spec fn bootstrap_addrs(peer_index: nat, k: nat) -> Seq<Seq<char>>
    decreases k,
{
    if k == 0 {
        Seq::empty()
    } else {
        let prev = bootstrap_addrs(peer_index, (k - 1) as nat);
        if (k - 1) as nat == peer_index {
            prev
        } else {
            prev.push(mesh_addr((k - 1) as nat, mesh_port((k - 1) as nat)))
        }
    }
}

/// The views of a list of strings.
pub open spec fn string_views(v: Seq<String>) -> Seq<Seq<char>> {
    v.map_values(|s: String| s@)
}

/// Bootstrap multiaddrs for the three-peer localhost mesh: every peer but
/// `peer_index`, in port order.
pub fn localhost_mesh_bootstrap(peer_index: usize) -> (addrs: Vec<String>)
    ensures
        string_views(addrs@) == bootstrap_addrs(peer_index as nat, 3),
{
    let mut out: Vec<String> = Vec::new();
    let mut i: usize = 0;
    while i < 3
        invariant
            i <= 3,
            string_views(out@) == bootstrap_addrs(peer_index as nat, i as nat),
        decreases 3 - i,
    {
        let ghost prev = out@;
        if i != peer_index {
            let mut a = "/ip4/127.0.0.1/tcp/".to_owned();
            let port: u16 = LOCALHOST_MESH_PORTS[i];
            assert(port == mesh_port(i as nat));
            push_decimal(&mut a, port as u64);
            a.append("/p2p/peer-");
            push_decimal(&mut a, i as u64);
            assert(a@ == mesh_addr(i as nat, mesh_port(i as nat)));
            out.push(a);
            assert(string_views(out@) =~= string_views(prev).push(a@));
        }
        i = i + 1;
    }
    out
}

/// A peer of the mesh is given the two other peers; an index outside the mesh
/// is given all three.
pub proof fn lemma_bootstrap_count(peer_index: nat)
    ensures
        peer_index < 3 ==> bootstrap_addrs(peer_index, 3).len() == 2,
        peer_index >= 3 ==> bootstrap_addrs(peer_index, 3).len() == 3,
{
    reveal_with_fuel(bootstrap_addrs, 4);
}

} // verus!
