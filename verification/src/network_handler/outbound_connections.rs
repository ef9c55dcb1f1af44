//! The outbound discovery side: which peers to contact (everyone configured
//! except ourselves) and the connect-retry policy of the loop that owns one
//! peer.  The loop alternates outside work (connecting, waiting on the
//! failure signal) with these decisions; the sockets themselves live with
//! the caller.

use crate::config::DiscoveryConfig;
use crate::util::{decimal_string, spec_decimal};
use vstd::prelude::*;
use vstd::string::StringExecFns;

verus! {

/// How long a discovery loop sleeps after a failed attempt or a dead
/// connection before it reconnects.
pub const RECONNECT_DELAY_MS: u64 = 2000;

/// The local bind address the way it would appear in the peer list:
/// `host:port`.
pub open spec fn spec_local_address_chars(c: DiscoveryConfig) -> Seq<char> {
    c.bind_host@ + seq![':'] + spec_decimal(c.bind_port as nat)
}

/// Renders the local bind address as `host:port`, the form peer-list entries
/// take.
pub fn local_address(config: &DiscoveryConfig) -> (s: String)
    ensures
        s@ == spec_local_address_chars(*config),
{
    proof {
        reveal_strlit(":");
    }
    let mut s = config.bind_host.clone();
    s.append(":");
    let port = decimal_string(config.bind_port as u64);
    s.append(port.as_str());
    proof {
        assert(s@ =~= spec_local_address_chars(*config));
    }
    s
}

/// The peers a node contacts: the configured hosts minus every entry
/// textually equal to the local bind address, in their configured order.
pub open spec fn spec_discovery_targets(hosts: Seq<Seq<char>>, local: Seq<char>) -> Seq<Seq<char>>
    decreases hosts.len(),
{
    if hosts.len() == 0 {
        Seq::empty()
    } else {
        let rest = spec_discovery_targets(hosts.drop_last(), local);
        if hosts.last() != local {
            rest.push(hosts.last())
        } else {
            rest
        }
    }
}

/// Computes the peer set discovery will contact: the configured hosts with
/// every entry equal to our own `host:port` filtered out, so that a node
/// never connects to itself.
pub fn discovery_targets(config: &DiscoveryConfig) -> (r: Vec<String>)
    ensures
        r.deep_view() == spec_discovery_targets(
            config.hosts.deep_view(),
            spec_local_address_chars(*config),
        ),
{
    let ghost local_chars = spec_local_address_chars(*config);
    let local = local_address(config);
    let mut r: Vec<String> = Vec::new();
    let mut i: usize = 0;
    while i < config.hosts.len()
        invariant
            i <= config.hosts@.len(),
            local@ == local_chars,
            r.deep_view() == spec_discovery_targets(
                config.hosts.deep_view().subrange(0, i as int),
                local_chars,
            ),
        decreases config.hosts@.len() - i,
    {
        let ghost old_r_dv = r.deep_view();
        let ghost hv = config.hosts.deep_view();
        let h = &config.hosts[i];
        let is_local = h.eq(&local);
        if !is_local {
            r.push(h.clone());
        }
        proof {
            let sub1 = hv.subrange(0, i + 1 as int);
            assert(sub1.drop_last() =~= hv.subrange(0, i as int));
            assert(sub1.last() == h@);
            if !is_local {
                assert(r.deep_view() =~= old_r_dv.push(h@));
            }
        }
        i = i + 1;
    }
    proof {
        assert(config.hosts.deep_view().subrange(0, i as int) =~= config.hosts.deep_view());
    }
    r
}

/// Self-connections are never attempted: every discovery target differs from
/// the local bind address, and every configured peer that differs from it is
/// kept as a target.
pub proof fn lemma_self_filtered(hosts: Seq<Seq<char>>, local: Seq<char>)
    ensures
        forall|i: int|
            0 <= i < spec_discovery_targets(hosts, local).len() ==> #[trigger] spec_discovery_targets(
                hosts,
                local,
            )[i] != local,
        forall|i: int|
            0 <= i < hosts.len() && hosts[i] != local ==> spec_discovery_targets(
                hosts,
                local,
            ).contains(#[trigger] hosts[i]),
    decreases hosts.len(),
{
    let targets = spec_discovery_targets(hosts, local);
    if hosts.len() > 0 {
        let prefix = hosts.drop_last();
        lemma_self_filtered(prefix, local);
        let rest = spec_discovery_targets(prefix, local);
        assert forall|i: int|
            0 <= i < hosts.len() && hosts[i] != local implies targets.contains(
            #[trigger] hosts[i],
        ) by {
            if i == hosts.len() - 1 {
                assert(targets[targets.len() - 1] == hosts[i]);
            } else {
                assert(prefix[i] == hosts[i]);
                assert(rest.contains(hosts[i]));
                let j = choose|j: int| 0 <= j < rest.len() && rest[j] == hosts[i];
                assert(targets[j] == hosts[i]);
            }
        }
    }
}

/// Where one discovery loop stands: attempting to connect, or blocked
/// waiting on the failure signal of the heartbeat it spawned.
#[derive(Debug, Clone, Copy, PartialEq, Eq, Structural)]
pub enum DiscoveryPhase {
    Connecting,
    Waiting,
}

/// What the loop just observed: its connect attempt completed, it failed at
/// some stage, or the connection it was waiting on signalled failure.
#[derive(Debug, Clone, Copy, PartialEq, Eq, Structural)]
pub enum DiscoveryEvent {
    ConnectSucceeded,
    ConnectFailed,
    ConnectionFailed,
}

/// What the loop does next: spawn a heartbeat on the fresh connection and
/// wait for its failure signal, or sleep for the given delay and reconnect.
#[derive(Debug, Clone, Copy, PartialEq, Eq, Structural)]
pub enum DiscoveryCommand {
    SpawnHandler,
    Sleep(u64),
}

/// One peer's discovery loop: its phase and how many consecutive failures it
/// has seen since the last established connection.
#[derive(Debug, Clone, Copy, PartialEq, Eq, Structural)]
pub struct DiscoveryLoop {
    pub phase: DiscoveryPhase,
    pub failures: u64,
}

/// The loop's transition relation: an established connection hands the
/// socket to a heartbeat handler; any failure, at any stage and after any
/// number of earlier failures, leads to a sleep of the fixed delay followed
/// by the next attempt.  There is deliberately no stopping command: retries
/// go on forever.
pub open spec fn spec_discovery_step(m: DiscoveryLoop, event: DiscoveryEvent) -> (
    DiscoveryLoop,
    DiscoveryCommand,
) {
    match event {
        DiscoveryEvent::ConnectSucceeded => (
            DiscoveryLoop { phase: DiscoveryPhase::Waiting, failures: 0 },
            DiscoveryCommand::SpawnHandler,
        ),
        DiscoveryEvent::ConnectFailed | DiscoveryEvent::ConnectionFailed => (
            DiscoveryLoop {
                phase: DiscoveryPhase::Connecting,
                failures: if m.failures == u64::MAX {
                    m.failures
                } else {
                    (m.failures + 1) as u64
                },
            },
            DiscoveryCommand::Sleep(RECONNECT_DELAY_MS),
        ),
    }
}

impl DiscoveryLoop {
    /// A fresh loop, about to make its first connect attempt.
    pub fn new() -> (m: DiscoveryLoop)
        ensures
            m == (DiscoveryLoop { phase: DiscoveryPhase::Connecting, failures: 0 }),
    {
        DiscoveryLoop { phase: DiscoveryPhase::Connecting, failures: 0 }
    }

    /// Advances the loop by one observed event and says what to do next.
    pub fn step(&mut self, event: DiscoveryEvent) -> (cmd: DiscoveryCommand)
        ensures
            (*final(self), cmd) == spec_discovery_step(*old(self), event),
    {
        match event {
            DiscoveryEvent::ConnectSucceeded => {
                self.phase = DiscoveryPhase::Waiting;
                self.failures = 0;
                DiscoveryCommand::SpawnHandler
            },
            DiscoveryEvent::ConnectFailed | DiscoveryEvent::ConnectionFailed => {
                self.phase = DiscoveryPhase::Connecting;
                if self.failures < u64::MAX {
                    self.failures = self.failures + 1;
                }
                DiscoveryCommand::Sleep(RECONNECT_DELAY_MS)
            },
        }
    }
}

/// A discovery loop never permanently stops: however many consecutive
/// failures it has seen, a failed connect or a dead connection always leads
/// to the next attempt after the fixed reconnect delay.
pub proof fn lemma_discovery_never_stops(m: DiscoveryLoop, event: DiscoveryEvent)
    requires
        event is ConnectFailed || event is ConnectionFailed,
    ensures
        spec_discovery_step(m, event).1 == DiscoveryCommand::Sleep(RECONNECT_DELAY_MS),
        spec_discovery_step(m, event).0.phase is Connecting,
{
}

} // verus!
