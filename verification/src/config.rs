//! The node's static configuration: the peers to contact, the address to
//! bind, and the node's display name.  It is built once at startup and then
//! shared; the only runtime mutation is the acceptor's port write-back.

use vstd::prelude::*;
use vstd::string::StringExecFns;

verus! {

/// Default bind port when no configuration file supplies one.
pub const DEFAULT_BIND_PORT: u16 = 19919;

/// Config holds all the node's static configuration, such as
/// the list of nodes to connect to, etc.  Once loaded it is
/// distributed to all tasks as a shared structure.
pub struct Config {
    /// The configurations related to networking and finding
    /// other nodes
    pub discovery: DiscoveryConfig,
    pub node: NodeConfig,
}

/// The configurations related to networking and finding
/// other nodes
pub struct DiscoveryConfig {
    /// The other nodes in the cluster
    pub hosts: Vec<String>,
    /// Our local address to bind to
    pub bind_host: String,
    /// The port we should listen on
    pub bind_port: u16,
}

/// The configurations related to this node
pub struct NodeConfig {
    /// A user-defined name for the server
    pub name: String,
}

impl Config {
    /// Returns a default configuration if we don't have/find a
    /// config file
    pub fn new() -> (c: Config)
        ensures
            c.discovery.hosts@.len() == 0,
            c.discovery.bind_host@ == "127.0.0.1"@,
            c.discovery.bind_port == DEFAULT_BIND_PORT,
            c.node.name@ == "Cormorant"@,
    {
        Config { discovery: DiscoveryConfig::new(), node: NodeConfig::new() }
    }
}

impl DiscoveryConfig {
    pub fn new() -> (c: DiscoveryConfig)
        ensures
            c.hosts@.len() == 0,
            c.bind_host@ == "127.0.0.1"@,
            c.bind_port == DEFAULT_BIND_PORT,
    {
        DiscoveryConfig {
            hosts: Vec::new(),
            bind_host: String::from_str("127.0.0.1"),
            bind_port: DEFAULT_BIND_PORT,
        }
    }
}

impl NodeConfig {
    pub fn new() -> (c: NodeConfig)
        ensures
            c.name@ == "Cormorant"@,
    {
        NodeConfig { name: String::from_str("Cormorant") }
    }
}

} // verus!
