//! The configuration of a consensus node: its network addresses, peers,
//! discovery, runtime and synchronisation settings.
use crate::text::{decimal, push_decimal};
use vstd::prelude::*;

verus! {

/// The transport used for peer-to-peer traffic.
#[derive(Clone, Copy, Debug, PartialEq, Eq, Structural)]
pub enum TransportProtocol {
    /// TCP with the Noise handshake.
    Tcp,
    /// QUIC.
    Quic,
}

/// How peer discovery is bootstrapped.
#[derive(Clone, Copy, Debug, PartialEq, Eq, Structural)]
pub enum BootstrapProtocol {
    Kademlia,
    /// Full mesh.
    Full,
}

/// How persistent peers are selected once discovery runs.
#[derive(Clone, Copy, Debug, PartialEq, Eq, Structural)]
pub enum Selector {
    Kademlia,
    Random,
}

/// Peer discovery settings.
#[derive(Clone, Copy, Debug, PartialEq, Eq, Structural)]
pub struct DiscoveryConfig {
    pub enabled: bool,
    pub bootstrap_protocol: BootstrapProtocol,
    pub selector: Selector,
    pub num_outbound_peers: usize,
    pub num_inbound_peers: usize,
    pub max_connections_per_peer: usize,
    /// How long an ephemeral connection is kept alive, in milliseconds.
    pub ephemeral_connection_timeout_ms: u64,
}

/// The discovery settings a node has unless told otherwise: discovery off,
/// full-mesh bootstrap, random selection, 20 outbound and 20 inbound peers,
/// 5 connections per peer, ephemeral connections kept for 5000 ms.
pub open spec fn default_discovery() -> DiscoveryConfig {
    DiscoveryConfig {
        enabled: false,
        bootstrap_protocol: BootstrapProtocol::Full,
        selector: Selector::Random,
        num_outbound_peers: 20,
        num_inbound_peers: 20,
        max_connections_per_peer: 5,
        ephemeral_connection_timeout_ms: 5000,
    }
}

impl Default for DiscoveryConfig {
    fn default() -> (r: Self)
        ensures
            r == default_discovery(),
    {
        DiscoveryConfig {
            enabled: false,
            bootstrap_protocol: BootstrapProtocol::Full,
            selector: Selector::Random,
            num_outbound_peers: 20,
            num_inbound_peers: 20,
            max_connections_per_peer: 5,
            ephemeral_connection_timeout_ms: 5000,
        }
    }
}

/// The async runtime a node runs on.
#[derive(Clone, Copy, Debug, PartialEq, Eq, Structural)]
pub enum RuntimeConfig {
    SingleThreaded,
    /// A multi-threaded runtime; zero worker threads means one per core.
    MultiThreaded { worker_threads: usize },
}

impl RuntimeConfig {
    /// The single-threaded runtime.
    pub fn single_threaded() -> (r: Self)
        ensures
            r == RuntimeConfig::SingleThreaded,
    {
        RuntimeConfig::SingleThreaded
    }
}

/// Value synchronisation settings.
#[derive(Clone, Copy, Debug, PartialEq, Eq, Structural)]
pub struct ValueSyncConfig {
    pub enabled: bool,
    /// How often status updates are sent, in milliseconds.
    pub status_update_interval_ms: u64,
    /// How long a request may take, in milliseconds.
    pub request_timeout_ms: u64,
    pub parallel_requests: usize,
    pub batch_size: usize,
}

/// Value sync unless told otherwise: enabled, status every 10 s, requests
/// time out after 10 s, 5 requests in parallel, batches of 5 values.
pub open spec fn default_value_sync() -> ValueSyncConfig {
    ValueSyncConfig {
        enabled: true,
        status_update_interval_ms: 10000,
        request_timeout_ms: 10000,
        parallel_requests: 5,
        batch_size: 5,
    }
}

impl Default for ValueSyncConfig {
    fn default() -> (r: Self)
        ensures
            r == default_value_sync(),
    {
        ValueSyncConfig {
            enabled: true,
            status_update_interval_ms: 10000,
            request_timeout_ms: 10000,
            parallel_requests: 5,
            batch_size: 5,
        }
    }
}

/// What a proposal carries.
#[derive(Clone, Copy, Debug, PartialEq, Eq, Structural)]
pub enum ValuePayload {
    PartsOnly,
    ProposalOnly,
    ProposalAndParts,
}

/// The load that the mempool generates.
#[derive(Clone, Copy, Debug, PartialEq, Eq, Structural)]
pub enum MempoolLoadType {
    NoLoad,
    UniformLoad,
    NonUniformLoad,
}

/// The settings from which a node configuration is made.
#[derive(Clone, Copy, Debug, PartialEq, Eq, Structural)]
pub struct MakeConfigSettings {
    pub runtime: RuntimeConfig,
    pub transport: TransportProtocol,
    pub discovery: DiscoveryConfig,
    pub value_sync: ValueSyncConfig,
}

/// A peer-to-peer address: an IPv4 host, a port and a transport, as in
/// `/ip4/<host>/tcp/<port>` or `/ip4/<host>/udp/<port>/quic-v1`.
#[derive(Debug)]
pub struct Multiaddr {
    pub transport: TransportProtocol,
    pub host: String,
    pub port: u16,
}

/// The mathematical value of a [`Multiaddr`].
pub struct MultiaddrView {
    pub transport: TransportProtocol,
    pub host: Seq<char>,
    pub port: int,
}

impl View for Multiaddr {
    type V = MultiaddrView;

    open spec fn view(&self) -> MultiaddrView {
        MultiaddrView { transport: self.transport, host: self.host@, port: self.port as int }
    }
}

/// The values of a sequence of addresses.
pub open spec fn addrs_view(s: Seq<Multiaddr>) -> Seq<MultiaddrView> {
    s.map_values(|a: Multiaddr| a@)
}

/// The textual form of an address.
pub open spec fn multiaddr_text(a: MultiaddrView) -> Seq<char> {
    match a.transport {
        TransportProtocol::Tcp => "/ip4/"@ + a.host + "/tcp/"@ + decimal(a.port as nat),
        TransportProtocol::Quic => "/ip4/"@ + a.host + "/udp/"@ + decimal(a.port as nat)
            + "/quic-v1"@,
    }
}

impl Multiaddr {
    /// The address of `host` at `port` over `transport`.
    pub fn new(transport: TransportProtocol, host: &str, port: u16) -> (r: Multiaddr)
        ensures
            r@ == (MultiaddrView { transport, host: host@, port: port as int }),
    {
        Multiaddr { transport, host: host.to_owned(), port }
    }

    /// A copy of this address.
    pub fn duplicate(&self) -> (r: Multiaddr)
        ensures
            r@ == self@,
    {
        Multiaddr { transport: self.transport, host: self.host.clone(), port: self.port }
    }

    /// The textual form, `/ip4/<host>/tcp/<port>` or `/ip4/<host>/udp/<port>/quic-v1`.
    pub fn to_text(&self) -> (r: String)
        ensures
            r@ == multiaddr_text(self@),
    {
        let mut s = String::from_str("/ip4/");
        s.append(self.host.as_str());
        match self.transport {
            TransportProtocol::Tcp => {
                s.append("/tcp/");
                push_decimal(&mut s, self.port as usize);
            },
            TransportProtocol::Quic => {
                s.append("/udp/");
                push_decimal(&mut s, self.port as usize);
                s.append("/quic-v1");
            },
        }
        proof {
            reveal_strlit("/ip4/");
            reveal_strlit("/tcp/");
            reveal_strlit("/udp/");
            reveal_strlit("/quic-v1");
        }
        s
    }
}

/// A copy of each address of `v`.
pub fn duplicate_addrs(v: &Vec<Multiaddr>) -> (r: Vec<Multiaddr>)
    ensures
        addrs_view(r@) == addrs_view(v@),
{
    let mut r: Vec<Multiaddr> = Vec::new();
    let mut i: usize = 0;
    while i < v.len()
        invariant
            i <= v.len(),
            addrs_view(r@) =~= addrs_view(v@).take(i as int),
        decreases v.len() - i,
    {
        let a = v[i].duplicate();
        let ghost prev = r@;
        r.push(a);
        assert(addrs_view(r@) =~= addrs_view(prev).push(v@[i as int]@));
        i = i + 1;
        assert(addrs_view(r@) =~= addrs_view(v@).take(i as int));
    }
    assert(addrs_view(v@).take(v.len() as int) =~= addrs_view(v@));
    r
}

/// A socket address: an IPv4 host and a port, as in `<host>:<port>`.
#[derive(Debug)]
pub struct SocketAddress {
    pub host: String,
    pub port: u16,
}

/// The mathematical value of a [`SocketAddress`].
pub struct SocketAddressView {
    pub host: Seq<char>,
    pub port: int,
}

impl View for SocketAddress {
    type V = SocketAddressView;

    open spec fn view(&self) -> SocketAddressView {
        SocketAddressView { host: self.host@, port: self.port as int }
    }
}

impl SocketAddress {
    /// The textual form, `<host>:<port>`.
    pub fn to_text(&self) -> (r: String)
        ensures
            r@ == self.host@ + ":"@ + decimal(self.port as nat),
    {
        let mut s = self.host.clone();
        s.append(":");
        push_decimal(&mut s, self.port as usize);
        proof {
            reveal_strlit(":");
        }
        s
    }
}

/// The peer-to-peer settings of one network (consensus or mempool).
#[derive(Debug)]
pub struct P2pConfig {
    pub listen_addr: Multiaddr,
    pub persistent_peers: Vec<Multiaddr>,
    pub discovery: DiscoveryConfig,
}

/// The mathematical value of a [`P2pConfig`].
pub struct P2pView {
    pub listen_addr: MultiaddrView,
    pub persistent_peers: Seq<MultiaddrView>,
    pub discovery: DiscoveryConfig,
}

impl View for P2pConfig {
    type V = P2pView;

    open spec fn view(&self) -> P2pView {
        P2pView {
            listen_addr: self.listen_addr@,
            persistent_peers: addrs_view(self.persistent_peers@),
            discovery: self.discovery,
        }
    }
}

impl P2pConfig {
    /// A copy of these settings.
    pub fn duplicate(&self) -> (r: P2pConfig)
        ensures
            r@ == self@,
    {
        P2pConfig {
            listen_addr: self.listen_addr.duplicate(),
            persistent_peers: duplicate_addrs(&self.persistent_peers),
            discovery: self.discovery,
        }
    }
}

/// Consensus settings.
#[derive(Debug)]
pub struct ConsensusConfig {
    pub enabled: bool,
    pub value_payload: ValuePayload,
    pub queue_capacity: usize,
    pub p2p: P2pConfig,
}

/// The mathematical value of a [`ConsensusConfig`].
pub struct ConsensusView {
    pub enabled: bool,
    pub value_payload: ValuePayload,
    pub queue_capacity: usize,
    pub p2p: P2pView,
}

impl View for ConsensusConfig {
    type V = ConsensusView;

    open spec fn view(&self) -> ConsensusView {
        ConsensusView {
            enabled: self.enabled,
            value_payload: self.value_payload,
            queue_capacity: self.queue_capacity,
            p2p: self.p2p@,
        }
    }
}

impl ConsensusConfig {
    /// A copy of these settings.
    pub fn duplicate(&self) -> (r: ConsensusConfig)
        ensures
            r@ == self@,
    {
        ConsensusConfig {
            enabled: self.enabled,
            value_payload: self.value_payload,
            queue_capacity: self.queue_capacity,
            p2p: self.p2p.duplicate(),
        }
    }
}

/// Mempool settings.
#[derive(Debug)]
pub struct MempoolConfig {
    pub p2p: P2pConfig,
    pub max_tx_count: usize,
    pub gossip_batch_size: usize,
    pub load: MempoolLoadType,
}

/// The mathematical value of a [`MempoolConfig`].
pub struct MempoolView {
    pub p2p: P2pView,
    pub max_tx_count: usize,
    pub gossip_batch_size: usize,
    pub load: MempoolLoadType,
}

impl View for MempoolConfig {
    type V = MempoolView;

    open spec fn view(&self) -> MempoolView {
        MempoolView {
            p2p: self.p2p@,
            max_tx_count: self.max_tx_count,
            gossip_batch_size: self.gossip_batch_size,
            load: self.load,
        }
    }
}

impl MempoolConfig {
    /// A copy of these settings.
    pub fn duplicate(&self) -> (r: MempoolConfig)
        ensures
            r@ == self@,
    {
        MempoolConfig {
            p2p: self.p2p.duplicate(),
            max_tx_count: self.max_tx_count,
            gossip_batch_size: self.gossip_batch_size,
            load: self.load,
        }
    }
}

/// Metrics settings.
#[derive(Debug)]
pub struct MetricsConfig {
    pub enabled: bool,
    pub listen_addr: SocketAddress,
}

/// The mathematical value of a [`MetricsConfig`].
pub struct MetricsView {
    pub enabled: bool,
    pub listen_addr: SocketAddressView,
}

impl View for MetricsConfig {
    type V = MetricsView;

    open spec fn view(&self) -> MetricsView {
        MetricsView { enabled: self.enabled, listen_addr: self.listen_addr@ }
    }
}

impl MetricsConfig {
    /// A copy of these settings.
    pub fn duplicate(&self) -> (r: MetricsConfig)
        ensures
            r@ == self@,
    {
        MetricsConfig {
            enabled: self.enabled,
            listen_addr: SocketAddress { host: self.listen_addr.host.clone(), port: self.listen_addr.port },
        }
    }
}

} // verus!
