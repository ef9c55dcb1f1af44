//! The networking core: the envelope codec, the heartbeat state machine that
//! drives one established connection, the outbound discovery logic, and the
//! acceptor's port-fallback planning.

pub mod outbound_connections;
pub mod protocol;
pub mod state_machine;

use crate::config::Config;
use vstd::prelude::*;

verus! {

/// The first port at or above `p` that `occupied` does not list, or `None`
/// when every port through the largest one is taken.
pub open spec fn spec_first_free_port(occupied: Seq<u16>, p: int) -> Option<u16>
    decreases u16::MAX + 1 - p when 0 <= p <= u16::MAX + 1
{
    if p > u16::MAX {
        None
    } else if !occupied.contains(p as u16) {
        Some(p as u16)
    } else {
        spec_first_free_port(occupied, p + 1)
    }
}

/// Whether `occupied` lists port `p`.
fn port_taken(occupied: &Vec<u16>, p: u16) -> (r: bool)
    ensures
        r == occupied@.contains(p),
{
    let mut i: usize = 0;
    while i < occupied.len()
        invariant
            i <= occupied@.len(),
            forall|j: int| 0 <= j < i ==> occupied@[j] != p,
        decreases occupied@.len() - i,
    {
        if occupied[i] == p {
            return true;
        }
        i = i + 1;
    }
    false
}

/// The first port at or above `start` that `occupied` does not list, the
/// port the acceptor ends up bound to when exactly those ports are taken.
pub fn find_free_port(occupied: &Vec<u16>, start: u16) -> (r: Option<u16>)
    ensures
        r == spec_first_free_port(occupied@, start as int),
{
    let mut p: u16 = start;
    loop
        invariant
            start <= p <= u16::MAX,
            spec_first_free_port(occupied@, start as int) == spec_first_free_port(
                occupied@,
                p as int,
            ),
        decreases u16::MAX - p,
    {
        if !port_taken(occupied, p) {
            return Some(p);
        }
        if p == u16::MAX {
            return None;
        }
        p = p + 1;
    }
}

/// Binding eventually succeeds: if every port from `lo` up to but not
/// including `free` is occupied and `free` itself is not, the port search
/// started at `lo` lands exactly on `free`.
pub proof fn lemma_bind_eventually_succeeds(occupied: Seq<u16>, lo: int, free: int)
    requires
        0 <= lo <= free <= u16::MAX,
        forall|q: int| lo <= q < free ==> occupied.contains(#[trigger] (q as u16)),
        !occupied.contains(free as u16),
    ensures
        spec_first_free_port(occupied, lo) == Some(free as u16),
    decreases free - lo,
{
    if lo < free {
        assert(occupied.contains(lo as u16));
        lemma_bind_eventually_succeeds(occupied, lo + 1, free);
    }
}

/// The NetworkHandler manages all the networking, connections, requests, etc
/// There technically isn't a need for a struct -- we could have used a function --
/// but I like the syntax of static struct methods :)
pub struct NetworkHandler;

impl NetworkHandler {
    /// Plans the listening bind against a snapshot of the ports currently in
    /// use: picks the first usable port at or above the configured one and
    /// records it back into the shared config, the one runtime config write.
    pub fn plan_bind(config: &mut Config, occupied: &Vec<u16>) -> (r: Option<u16>)
        ensures
            r == spec_first_free_port(occupied@, old(config).discovery.bind_port as int),
            r matches Some(p) ==> final(config).discovery.bind_port == p,
            r is None ==> final(config).discovery.bind_port == old(config).discovery.bind_port,
            final(config).discovery.hosts == old(config).discovery.hosts,
            final(config).discovery.bind_host == old(config).discovery.bind_host,
            final(config).node == old(config).node,
    {
        let r = find_free_port(occupied, config.discovery.bind_port);
        match r {
            Some(p) => {
                Self::record_bound_port(config, p);
                Some(p)
            },
            None => None,
        }
    }

    /// Records the port the listener actually bound, updating the shared
    /// config only when the bind had to fall back to a different port.
    pub fn record_bound_port(config: &mut Config, bound: u16)
        ensures
            final(config).discovery.bind_port == bound,
            final(config).discovery.hosts == old(config).discovery.hosts,
            final(config).discovery.bind_host == old(config).discovery.bind_host,
            final(config).node == old(config).node,
    {
        if config.discovery.bind_port != bound {
            config.discovery.bind_port = bound;
        }
    }
}

} // verus!
