use cormorant::config::{Config, DiscoveryConfig};
use cormorant::network_handler::outbound_connections::{
    discovery_targets, local_address, DiscoveryCommand, DiscoveryEvent, DiscoveryLoop,
    DiscoveryPhase, RECONNECT_DELAY_MS,
};
use cormorant::network_handler::{find_free_port, NetworkHandler};

fn config_with(hosts: Vec<&str>, bind_host: &str, bind_port: u16) -> DiscoveryConfig {
    let mut c = DiscoveryConfig::new();
    c.hosts = hosts.into_iter().map(String::from).collect();
    c.bind_host = String::from(bind_host);
    c.bind_port = bind_port;
    c
}

#[test]
fn local_address_renders_host_and_port() {
    let c = config_with(vec![], "127.0.0.1", 19919);
    assert_eq!(local_address(&c), "127.0.0.1:19919");
}

#[test]
fn one_peer_one_target() {
    let c = config_with(vec!["10.0.0.2:19919"], "10.0.0.1", 19919);
    let targets = discovery_targets(&c);
    assert_eq!(targets, vec![String::from("10.0.0.2:19919")]);
}

#[test]
fn self_entry_is_filtered() {
    let c = config_with(vec!["127.0.0.1:19919"], "127.0.0.1", 19919);
    let targets = discovery_targets(&c);
    assert!(targets.is_empty());
}

#[test]
fn only_self_entries_are_filtered() {
    let c = config_with(
        vec!["10.0.0.2:19919", "10.0.0.1:19919", "10.0.0.3:4", "10.0.0.1:19919"],
        "10.0.0.1",
        19919,
    );
    let targets = discovery_targets(&c);
    assert_eq!(
        targets,
        vec![String::from("10.0.0.2:19919"), String::from("10.0.0.3:4")]
    );
}

#[test]
fn same_host_other_port_is_kept() {
    let c = config_with(vec!["127.0.0.1:19920"], "127.0.0.1", 19919);
    let targets = discovery_targets(&c);
    assert_eq!(targets, vec![String::from("127.0.0.1:19920")]);
}

#[test]
fn retry_after_connect_failure() {
    let mut m = DiscoveryLoop::new();
    assert_eq!(m.phase, DiscoveryPhase::Connecting);
    let cmd = m.step(DiscoveryEvent::ConnectFailed);
    assert_eq!(cmd, DiscoveryCommand::Sleep(RECONNECT_DELAY_MS));
    assert_eq!(m.phase, DiscoveryPhase::Connecting);
}

#[test]
fn retry_survives_many_consecutive_failures() {
    let mut m = DiscoveryLoop::new();
    for _ in 0..1000 {
        let cmd = m.step(DiscoveryEvent::ConnectFailed);
        assert_eq!(cmd, DiscoveryCommand::Sleep(2000));
        assert_eq!(m.phase, DiscoveryPhase::Connecting);
    }
    assert_eq!(m.failures, 1000);
}

#[test]
fn established_connection_spawns_handler_then_retries_on_death() {
    let mut m = DiscoveryLoop::new();
    let cmd = m.step(DiscoveryEvent::ConnectSucceeded);
    assert_eq!(cmd, DiscoveryCommand::SpawnHandler);
    assert_eq!(m.phase, DiscoveryPhase::Waiting);
    let cmd = m.step(DiscoveryEvent::ConnectionFailed);
    assert_eq!(cmd, DiscoveryCommand::Sleep(RECONNECT_DELAY_MS));
    assert_eq!(m.phase, DiscoveryPhase::Connecting);
}

#[test]
fn free_port_is_taken_as_is() {
    assert_eq!(find_free_port(&vec![], 19919), Some(19919));
}

#[test]
fn occupied_port_falls_back_to_next() {
    assert_eq!(find_free_port(&vec![19919], 19919), Some(19920));
}

#[test]
fn occupied_range_falls_back_past_it() {
    let occupied = vec![19919, 19920, 19921, 19922];
    assert_eq!(find_free_port(&occupied, 19919), Some(19923));
}

#[test]
fn no_port_left_is_reported() {
    let occupied = vec![u16::MAX - 1, u16::MAX];
    assert_eq!(find_free_port(&occupied, u16::MAX - 1), None);
}

#[test]
fn plan_bind_records_fallback_port() {
    let mut config = Config::new();
    assert_eq!(config.discovery.bind_port, 19919);
    let bound = NetworkHandler::plan_bind(&mut config, &vec![19919]);
    assert_eq!(bound, Some(19920));
    assert_eq!(config.discovery.bind_port, 19920);
}

#[test]
fn plan_bind_keeps_requested_port_when_free() {
    let mut config = Config::new();
    let bound = NetworkHandler::plan_bind(&mut config, &vec![19920]);
    assert_eq!(bound, Some(19919));
    assert_eq!(config.discovery.bind_port, 19919);
}

#[test]
fn record_bound_port_is_the_only_config_write() {
    let mut config = Config::new();
    config.discovery.hosts = vec![String::from("10.0.0.2:1")];
    NetworkHandler::record_bound_port(&mut config, 20001);
    assert_eq!(config.discovery.bind_port, 20001);
    assert_eq!(config.discovery.hosts, vec![String::from("10.0.0.2:1")]);
    assert_eq!(config.discovery.bind_host, "127.0.0.1");
    assert_eq!(config.node.name, "Cormorant");
}
