//! The Starknet node: its configuration files, how its configuration is
//! made for a local or a distributed testnet, and its genesis.
use crate::config::{
    addrs_view, default_discovery, default_value_sync, ConsensusConfig, ConsensusView, DiscoveryConfig,
    MakeConfigSettings, MempoolConfig, MempoolLoadType, MempoolView, MetricsConfig, MetricsView,
    Multiaddr, MultiaddrView, P2pConfig, P2pView, RuntimeConfig, SocketAddress, SocketAddressView,
    TransportProtocol, ValuePayload, ValueSyncConfig,
};
use crate::peers::{
    as_ints, discovery_peer_indices, is_discovery_choice, lemma_other_nodes, node_range,
    node_range_indices, other_node_indices, other_nodes, unique,
};
use crate::text::{decimal, is_ipv4_text, join, join_path, push_decimal};
use vstd::prelude::*;

verus! {

/// The first port of the consensus network; node `i` listens on this plus `i`.
pub const CONSENSUS_BASE_PORT: usize = 27000;

/// The first port of the mempool network.
pub const MEMPOOL_BASE_PORT: usize = 28000;

/// The first port of the metrics endpoint.
pub const METRICS_BASE_PORT: usize = 29000;

/// The highest port number.
pub const MAX_PORT: usize = 65535;

/// The configuration of a Starknet node.
#[derive(Debug)]
pub struct Config {
    pub moniker: String,
    pub consensus: ConsensusConfig,
    pub mempool: MempoolConfig,
    pub value_sync: ValueSyncConfig,
    pub metrics: MetricsConfig,
    pub runtime: RuntimeConfig,
}

/// The mathematical value of a [`Config`].
pub struct ConfigView {
    pub moniker: Seq<char>,
    pub consensus: ConsensusView,
    pub mempool: MempoolView,
    pub value_sync: ValueSyncConfig,
    pub metrics: MetricsView,
    pub runtime: RuntimeConfig,
}

impl View for Config {
    type V = ConfigView;

    open spec fn view(&self) -> ConfigView {
        ConfigView {
            moniker: self.moniker@,
            consensus: self.consensus@,
            mempool: self.mempool@,
            value_sync: self.value_sync,
            metrics: self.metrics@,
            runtime: self.runtime,
        }
    }
}

impl Config {
    /// A copy of this configuration.
    pub fn duplicate(&self) -> (r: Config)
        ensures
            r@ == self@,
    {
        Config {
            moniker: self.moniker.clone(),
            consensus: self.consensus.duplicate(),
            mempool: self.mempool.duplicate(),
            value_sync: self.value_sync,
            metrics: self.metrics.duplicate(),
            runtime: self.runtime,
        }
    }
}

/// The loopback host on which the nodes of a local testnet listen.
pub open spec fn loopback() -> Seq<char> {
    "127.0.0.1"@
}

/// Address `port` on the loopback host.
pub open spec fn local_addr(transport: TransportProtocol, port: int) -> MultiaddrView {
    MultiaddrView { transport, host: loopback(), port }
}

/// The addresses of `nodes` on the loopback host, node `j` at `base + j`.
pub open spec fn local_addrs(transport: TransportProtocol, base: int, nodes: Seq<int>) -> Seq<
    MultiaddrView,
> {
    nodes.map_values(|j: int| local_addr(transport, base + j))
}

/// The name of node `index`.
pub open spec fn moniker_of(index: int) -> Seq<char> {
    "starknet-"@ + decimal(index as nat)
}

/// The configuration of node `index` of a local testnet of `total` nodes,
/// whose consensus peers are `consensus_peers`: every network on the
/// loopback host, consensus on port 27000 + `index`, mempool on 28000 +
/// `index` with every other node as a peer and discovery off, metrics on
/// 29000 + `index`.
pub open spec fn node_config(
    index: int,
    total: int,
    settings: MakeConfigSettings,
    consensus_peers: Seq<int>,
) -> ConfigView {
    ConfigView {
        moniker: moniker_of(index),
        consensus: ConsensusView {
            enabled: true,
            value_payload: ValuePayload::PartsOnly,
            queue_capacity: 100,
            p2p: P2pView {
                listen_addr: local_addr(settings.transport, CONSENSUS_BASE_PORT + index),
                persistent_peers: local_addrs(settings.transport, CONSENSUS_BASE_PORT as int, consensus_peers),
                discovery: settings.discovery,
            },
        },
        mempool: MempoolView {
            p2p: P2pView {
                listen_addr: local_addr(settings.transport, MEMPOOL_BASE_PORT + index),
                persistent_peers: local_addrs(
                    settings.transport,
                    MEMPOOL_BASE_PORT as int,
                    other_nodes(index, total as nat),
                ),
                discovery: DiscoveryConfig { enabled: false, ..settings.discovery },
            },
            max_tx_count: 10000,
            gossip_batch_size: 0,
            load: MempoolLoadType::UniformLoad,
        },
        value_sync: default_value_sync(),
        metrics: MetricsView {
            enabled: true,
            listen_addr: SocketAddressView { host: loopback(), port: METRICS_BASE_PORT + index },
        },
        runtime: settings.runtime,
    }
}

/// Whether node `index` of `total` has all its ports in range: the metrics
/// port of the node and the mempool port of every other node.
pub open spec fn local_ports_fit(index: int, total: int) -> bool {
    &&& METRICS_BASE_PORT + index <= MAX_PORT
    &&& MEMPOOL_BASE_PORT + total - 1 <= MAX_PORT
}

/// The addresses on the loopback host of `nodes`, node `j` at `base + j`.
pub(crate) fn local_peer_addrs(transport: TransportProtocol, base: usize, nodes: &Vec<usize>) -> (r: Vec<
    Multiaddr,
>)
    requires
        forall|k: int| 0 <= k < nodes.len() ==> base + #[trigger] nodes[k] <= MAX_PORT,
    ensures
        addrs_view(r@) == local_addrs(transport, base as int, as_ints(nodes@)),
{
    let mut r: Vec<Multiaddr> = Vec::new();
    let mut i: usize = 0;
    while i < nodes.len()
        invariant
            i <= nodes.len(),
            forall|k: int| 0 <= k < nodes.len() ==> base + #[trigger] nodes[k] <= MAX_PORT,
            addrs_view(r@) =~= local_addrs(transport, base as int, as_ints(nodes@)).take(i as int),
        decreases nodes.len() - i,
    {
        let port = (base + nodes[i]) as u16;
        let a = Multiaddr::new(transport, "127.0.0.1", port);
        let ghost prev = r@;
        r.push(a);
        assert(addrs_view(r@) =~= addrs_view(prev).push(a@));
        i = i + 1;
        assert(addrs_view(r@) =~= local_addrs(transport, base as int, as_ints(nodes@)).take(i as int));
    }
    assert(local_addrs(transport, base as int, as_ints(nodes@)).take(nodes.len() as int)
        =~= local_addrs(transport, base as int, as_ints(nodes@)));
    r
}

/// The moniker `starknet-<index>`.
fn make_moniker(index: usize) -> (r: String)
    ensures
        r@ == moniker_of(index as int),
{
    let mut s = String::from_str("starknet-");
    push_decimal(&mut s, index);
    proof {
        reveal_strlit("starknet-");
    }
    s
}

/// The configuration of node `index` of a local testnet of `total` nodes,
/// with `consensus_peers` as its consensus peers, however they were chosen.
pub fn make_config_with_peers(
    index: usize,
    total: usize,
    settings: MakeConfigSettings,
    consensus_peers: &Vec<usize>,
) -> (r: Config)
    requires
        local_ports_fit(index as int, total as int),
        forall|k: int|
            0 <= k < consensus_peers.len() ==> CONSENSUS_BASE_PORT + #[trigger] consensus_peers[k]
                <= MAX_PORT,
    ensures
        r@ == node_config(index as int, total as int, settings, as_ints(consensus_peers@)),
{
    let mempool_nodes = other_node_indices(index, total);
    proof {
        lemma_other_nodes(index as int, total as nat);
        assert forall|k: int| 0 <= k < mempool_nodes.len() implies MEMPOOL_BASE_PORT
            + #[trigger] mempool_nodes[k] <= MAX_PORT by {
            assert(as_ints(mempool_nodes@)[k] == mempool_nodes[k] as int);
            assert(other_nodes(index as int, total as nat).contains(mempool_nodes[k] as int));
        }
    }
    let consensus = ConsensusConfig {
        enabled: true,
        value_payload: ValuePayload::PartsOnly,
        queue_capacity: 100,
        p2p: P2pConfig {
            listen_addr: Multiaddr::new(
                settings.transport,
                "127.0.0.1",
                (CONSENSUS_BASE_PORT + index) as u16,
            ),
            persistent_peers: local_peer_addrs(
                settings.transport,
                CONSENSUS_BASE_PORT,
                consensus_peers,
            ),
            discovery: settings.discovery,
        },
    };
    let mempool = MempoolConfig {
        p2p: P2pConfig {
            listen_addr: Multiaddr::new(
                settings.transport,
                "127.0.0.1",
                (MEMPOOL_BASE_PORT + index) as u16,
            ),
            persistent_peers: local_peer_addrs(settings.transport, MEMPOOL_BASE_PORT, &mempool_nodes),
            discovery: DiscoveryConfig { enabled: false, ..settings.discovery },
        },
        max_tx_count: 10000,
        gossip_batch_size: 0,
        load: MempoolLoadType::UniformLoad,
    };
    let metrics = MetricsConfig {
        enabled: true,
        listen_addr: SocketAddress {
            host: String::from_str("127.0.0.1"),
            port: (METRICS_BASE_PORT + index) as u16,
        },
    };
    Config {
        moniker: make_moniker(index),
        consensus,
        mempool,
        value_sync: ValueSyncConfig::default(),
        metrics,
        runtime: settings.runtime,
    }
}

/// Whether `c` is a configuration that `make_config` may generate for node
/// `index` of `total`: the full mesh without discovery; with discovery, the
/// same configuration but for its consensus peers, a random choice of them.
pub open spec fn is_generated_config(
    index: int,
    total: int,
    settings: MakeConfigSettings,
    c: ConfigView,
) -> bool {
    &&& !settings.discovery.enabled ==> c == node_config(
        index,
        total,
        settings,
        other_nodes(index, total as nat),
    )
    &&& settings.discovery.enabled ==> exists|peers: Seq<int>|
        is_discovery_choice(index, total, peers) && c == node_config(index, total, settings, peers)
}

/// Generates the configuration of node `index` out of `total` nodes of a
/// local testnet. Without discovery every other node is a consensus peer;
/// with discovery a random choice of them is.
pub fn make_config(index: usize, total: usize, settings: MakeConfigSettings) -> (r: Config)
    requires
        local_ports_fit(index as int, total as int),
    ensures
        is_generated_config(index as int, total as int, settings, r@),
{
    let peers = if settings.discovery.enabled {
        discovery_peer_indices(index, total)
    } else {
        other_node_indices(index, total)
    };
    proof {
        lemma_other_nodes(index as int, total as nat);
        assert forall|k: int| 0 <= k < peers.len() implies CONSENSUS_BASE_PORT + #[trigger] peers[k]
            <= MAX_PORT by {
            assert(as_ints(peers@)[k] == peers[k] as int);
            if !settings.discovery.enabled {
                assert(other_nodes(index as int, total as nat).contains(peers[k] as int));
            }
        }
    }
    make_config_with_peers(index, total, settings, &peers)
}

/// The text of each machine name.
pub open spec fn hosts_view(machines: Seq<String>) -> Seq<Seq<char>> {
    machines.map_values(|m: String| m@)
}

/// Where node `j` of a distributed testnet runs: nodes are dealt round-robin
/// over the machines, so node `j` is on machine `j % m` and is the
/// `j / m`-th node there, listening on port `base + j / m`.
pub open spec fn distributed_addr(
    transport: TransportProtocol,
    machines: Seq<Seq<char>>,
    base: int,
    j: int,
) -> MultiaddrView {
    MultiaddrView {
        transport,
        host: machines[j % machines.len() as int],
        port: base + j / machines.len() as int,
    }
}

/// The consensus peers of node `index` of a distributed testnet: the nodes
/// before it, and with discovery only the last `bootstrap_set_size` of them.
pub open spec fn distributed_peers(index: int, bootstrap_set_size: int, discovery: bool) -> Seq<
    int,
> {
    if discovery {
        node_range(if index >= bootstrap_set_size { index - bootstrap_set_size } else { 0 }, index)
    } else {
        node_range(0, index)
    }
}

/// The configuration of node `index` of a testnet of `total` nodes spread
/// over `machines` (the number of nodes does not enter into it):
/// consensus on the node's machine at 27000 plus its rank there, with the
/// `distributed_peers` as peers; mempool at 28000 plus its rank with no
/// peers and default discovery, turned off; value sync off; metrics at
/// 29000 plus its rank.
pub open spec fn distributed_config(
    index: int,
    total: int,
    machines: Seq<Seq<char>>,
    bootstrap_set_size: int,
    settings: MakeConfigSettings,
) -> ConfigView {
    let t = settings.transport;
    ConfigView {
        moniker: moniker_of(index),
        consensus: ConsensusView {
            enabled: true,
            value_payload: ValuePayload::PartsOnly,
            queue_capacity: 100,
            p2p: P2pView {
                listen_addr: distributed_addr(t, machines, CONSENSUS_BASE_PORT as int, index),
                persistent_peers: distributed_peers(
                    index,
                    bootstrap_set_size,
                    settings.discovery.enabled,
                ).map_values(|j: int| distributed_addr(t, machines, CONSENSUS_BASE_PORT as int, j)),
                discovery: settings.discovery,
            },
        },
        mempool: MempoolView {
            p2p: P2pView {
                listen_addr: distributed_addr(t, machines, MEMPOOL_BASE_PORT as int, index),
                persistent_peers: Seq::empty(),
                discovery: DiscoveryConfig { enabled: false, ..default_discovery() },
            },
            max_tx_count: 10000,
            gossip_batch_size: 0,
            load: MempoolLoadType::UniformLoad,
        },
        value_sync: ValueSyncConfig { enabled: false, ..settings.value_sync },
        metrics: MetricsView {
            enabled: true,
            listen_addr: SocketAddressView {
                host: machines[index % machines.len() as int],
                port: METRICS_BASE_PORT + index / machines.len() as int,
            },
        },
        runtime: settings.runtime,
    }
}

/// What a distributed configuration needs to be made: at least one machine,
/// the node's metrics port in range, and an IPv4 address for its machine and
/// for the machine of each of its consensus peers.
pub open spec fn distributed_inputs_valid(
    index: int,
    machines: Seq<Seq<char>>,
    bootstrap_set_size: int,
    discovery: bool,
) -> bool {
    &&& machines.len() > 0
    &&& METRICS_BASE_PORT + index / machines.len() as int <= MAX_PORT
    &&& is_ipv4_text(machines[index % machines.len() as int])
    &&& forall|j: int|
        #[trigger] distributed_peers(index, bootstrap_set_size, discovery).contains(j)
            ==> is_ipv4_text(machines[j % machines.len() as int])
}

/// The addresses of `nodes` of a distributed testnet, node `j` at its
/// machine and port `base` plus its rank there.
fn distributed_peer_addrs(
    transport: TransportProtocol,
    machines: &Vec<String>,
    base: usize,
    nodes: &Vec<usize>,
    index: usize,
) -> (r: Vec<Multiaddr>)
    requires
        machines.len() > 0,
        base + index / machines.len() <= MAX_PORT,
        forall|k: int| 0 <= k < nodes.len() ==> #[trigger] nodes[k] < index,
    ensures
        addrs_view(r@) == as_ints(nodes@).map_values(
            |j: int| distributed_addr(transport, hosts_view(machines@), base as int, j),
        ),
{
    let m = machines.len();
    let ghost hosts = hosts_view(machines@);
    let ghost want = as_ints(nodes@).map_values(
        |j: int| distributed_addr(transport, hosts, base as int, j),
    );
    let mut r: Vec<Multiaddr> = Vec::new();
    let mut i: usize = 0;
    while i < nodes.len()
        invariant
            i <= nodes.len(),
            m == machines.len(),
            m > 0,
            base + index / m <= MAX_PORT,
            hosts == hosts_view(machines@),
            want == as_ints(nodes@).map_values(
                |j: int| distributed_addr(transport, hosts, base as int, j),
            ),
            forall|k: int| 0 <= k < nodes.len() ==> #[trigger] nodes[k] < index,
            addrs_view(r@) =~= want.take(i as int),
        decreases nodes.len() - i,
    {
        let j = nodes[i];
        proof {
            vstd::arithmetic::div_mod::lemma_div_is_ordered(j as int, index as int, m as int);
        }
        let port = (base + j / m) as u16;
        let a = Multiaddr::new(transport, machines[j % m].as_str(), port);
        let ghost prev = r@;
        r.push(a);
        assert(addrs_view(r@) =~= addrs_view(prev).push(a@));
        i = i + 1;
        assert(addrs_view(r@) =~= want.take(i as int));
    }
    assert(want.take(nodes.len() as int) =~= want);
    r
}

/// Generates the configuration of node `index` of a testnet spread over
/// `machines`; `bootstrap_set_size` bounds the peers it starts from when
/// discovery is on. The number of nodes does not enter into it.
pub fn make_distributed_config(
    index: usize,
    total: usize,
    machines: Vec<String>,
    bootstrap_set_size: usize,
    settings: MakeConfigSettings,
) -> (r: Config)
    requires
        distributed_inputs_valid(
            index as int,
            hosts_view(machines@),
            bootstrap_set_size as int,
            settings.discovery.enabled,
        ),
    ensures
        r@ == distributed_config(
            index as int,
            total as int,
            hosts_view(machines@),
            bootstrap_set_size as int,
            settings,
        ),
{
    let m = machines.len();
    let ghost hosts = hosts_view(machines@);
    let machine = machines[index % m].clone();
    let rank = index / m;
    let peers = if settings.discovery.enabled {
        let range = node_range_indices(index.saturating_sub(bootstrap_set_size), index);
        proof {
            let s = range@;
            assert forall|a: int, b: int| 0 <= a < s.len() && 0 <= b < s.len() && a != b implies s[a] != s[b] by {
                assert(as_ints(s)[a] != as_ints(s)[b]);
            }
            crate::peers::lemma_first_occurrences_distinct(s);
        }
        unique(&range)
    } else {
        node_range_indices(0, index)
    };
    assert(as_ints(peers@) == distributed_peers(index as int, bootstrap_set_size as int, settings.discovery.enabled));
    proof {
        assert forall|k: int| 0 <= k < peers.len() implies #[trigger] peers[k] < index by {
            assert(as_ints(peers@)[k] == peers[k] as int);
        }
    }
    let consensus = ConsensusConfig {
        enabled: true,
        value_payload: ValuePayload::PartsOnly,
        queue_capacity: 100,
        p2p: P2pConfig {
            listen_addr: Multiaddr::new(
                settings.transport,
                machine.as_str(),
                (CONSENSUS_BASE_PORT + rank) as u16,
            ),
            persistent_peers: distributed_peer_addrs(
                settings.transport,
                &machines,
                CONSENSUS_BASE_PORT,
                &peers,
                index,
            ),
            discovery: settings.discovery,
        },
    };
    let mempool = MempoolConfig {
        p2p: P2pConfig {
            listen_addr: Multiaddr::new(
                settings.transport,
                machine.as_str(),
                (MEMPOOL_BASE_PORT + rank) as u16,
            ),
            persistent_peers: Vec::new(),
            discovery: DiscoveryConfig { enabled: false, ..DiscoveryConfig::default() },
        },
        max_tx_count: 10000,
        gossip_batch_size: 0,
        load: MempoolLoadType::UniformLoad,
    };
    let metrics = MetricsConfig {
        enabled: true,
        listen_addr: SocketAddress { host: machine.clone(), port: (METRICS_BASE_PORT + rank) as u16 },
    };
    let r = Config {
        moniker: make_moniker(index),
        consensus,
        mempool,
        value_sync: ValueSyncConfig { enabled: false, ..settings.value_sync },
        metrics,
        runtime: settings.runtime,
    };
    assert(addrs_view(r.mempool.p2p.persistent_peers@) =~= Seq::<MultiaddrView>::empty());
    r
}

/// The settings of a default configuration: single-threaded runtime, TCP,
/// default discovery (off) and default value sync.
pub open spec fn default_settings() -> MakeConfigSettings {
    MakeConfigSettings {
        runtime: RuntimeConfig::SingleThreaded,
        transport: TransportProtocol::Tcp,
        discovery: default_discovery(),
        value_sync: default_value_sync(),
    }
}

/// The configuration a node has when none is given: that of node 1 of a
/// local testnet of 3 with default settings.
pub fn default_config() -> (r: Config)
    ensures
        r@ == node_config(1, 3, default_settings(), other_nodes(1, 3)),
{
    make_config(
        1,
        3,
        MakeConfigSettings {
            runtime: RuntimeConfig::single_threaded(),
            transport: TransportProtocol::Tcp,
            discovery: DiscoveryConfig::default(),
            value_sync: ValueSyncConfig::default(),
        },
    )
}

/// A height of a Starknet chain: a block number within a fork.
#[derive(Clone, Copy, Debug, PartialEq, Eq, Structural)]
pub struct Height {
    pub block_number: u64,
    pub fork_id: u64,
}

/// An Ed25519 private key.
#[derive(Clone, Copy, Debug, PartialEq, Eq)]
pub struct PrivateKey {
    pub bytes: [u8; 32],
}

/// An Ed25519 public key.
#[derive(Clone, Copy, Debug, PartialEq, Eq)]
pub struct PublicKey {
    pub bytes: [u8; 32],
}

/// The address of a validator, derived from its public key.
#[derive(Debug, PartialEq, Eq)]
pub struct Address {
    pub bytes: Vec<u8>,
}

/// The voting power of a validator.
pub type VotingPower = u64;

/// A validator: its public key and voting power.
#[derive(Clone, Copy, Debug, PartialEq, Eq)]
pub struct Validator {
    pub public_key: PublicKey,
    pub voting_power: VotingPower,
}

/// The validators of a chain.
#[derive(Debug)]
pub struct ValidatorSet {
    pub validators: Vec<Validator>,
}

/// The genesis of a chain: its initial validator set.
#[derive(Debug)]
pub struct Genesis {
    pub validator_set: ValidatorSet,
}

/// The content of a key file: a private key with its public key and address.
#[derive(Debug)]
pub struct PrivateKeyFile {
    pub private_key: PrivateKey,
    pub public_key: PublicKey,
    pub address: Address,
}

/// The validators made of (public key, voting power) pairs, in order.
pub open spec fn validators_of(pairs: Seq<(PublicKey, VotingPower)>) -> Seq<Validator> {
    pairs.map_values(|p: (PublicKey, VotingPower)| Validator { public_key: p.0, voting_power: p.1 })
}

/// The genesis whose validators are the given (public key, voting power)
/// pairs, in order.
pub fn genesis_of(validators: Vec<(PublicKey, VotingPower)>) -> (r: Genesis)
    ensures
        r.validator_set.validators@ == validators_of(validators@),
{
    let mut vs: Vec<Validator> = Vec::new();
    let mut i: usize = 0;
    while i < validators.len()
        invariant
            i <= validators.len(),
            vs@ =~= validators_of(validators@).take(i as int),
        decreases validators.len() - i,
    {
        let (pk, vp) = validators[i];
        vs.push(Validator { public_key: pk, voting_power: vp });
        i = i + 1;
        assert(vs@ =~= validators_of(validators@).take(i as int));
    }
    assert(validators_of(validators@).take(validators.len() as int) =~= validators_of(validators@));
    Genesis { validator_set: ValidatorSet { validators: vs } }
}

/// A node that can make the genesis of a chain from its validators.
pub trait CanMakeGenesis {
    /// The genesis whose validator set is made of `validators`.
    fn make_genesis(&self, validators: Vec<(PublicKey, VotingPower)>) -> Genesis;
}

/// A node that can make the file holding its validator key.
pub trait CanMakePrivateKeyFile {
    /// What the validator key file holds.
    type PrivateKeyFile;

    /// The validator key file for `private_key`.
    fn make_private_key_file(&self, private_key: PrivateKey) -> Self::PrivateKeyFile;
}

/// A node that can make the file holding its peer-to-peer key.
pub trait CanMakeP2pKeyFile {
    /// What the peer-to-peer key file holds.
    type P2pKeyFile;

    /// The peer-to-peer key file for `private_key`.
    fn make_p2p_key_file(&self, private_key: PrivateKey) -> Self::P2pKeyFile;
}

/// Where the configuration of a node comes from.
#[derive(Debug)]
pub enum ConfigSource {
    /// A configuration file at this path.
    File(String),
    /// This configuration.
    Value(Box<Config>),
    /// The default configuration.
    Default,
}

/// A configuration as far as the node can load it: either ready, or to be
/// read from a file.
#[derive(Debug)]
pub enum LoadedConfig {
    Ready(Config),
    /// The configuration is in the file at this path.
    ReadFile(String),
}

/// A Starknet node: its home directory, the source of its configuration and
/// the height it starts at, if not the first.
#[derive(Debug)]
pub struct StarknetNode {
    pub home_dir: String,
    pub config_source: ConfigSource,
    pub start_height: Option<u64>,
}

/// The directory of a node's configuration files.
pub open spec fn config_dir_of(home: Seq<char>) -> Seq<char> {
    join_path(home, "config"@)
}

/// The path of the genesis file under `home`.
pub open spec fn genesis_path(home: Seq<char>) -> Seq<char> {
    join_path(config_dir_of(home), "genesis.json"@)
}

/// The path of the validator key file under `home`.
pub open spec fn private_key_path(home: Seq<char>) -> Seq<char> {
    join_path(config_dir_of(home), "priv_validator_key.json"@)
}

/// The path of the peer-to-peer key file under `home`.
pub open spec fn p2p_key_path(home: Seq<char>) -> Seq<char> {
    join_path(config_dir_of(home), "p2p_key.json"@)
}

/// The path of the configuration file under `home`.
pub open spec fn config_path(home: Seq<char>) -> Seq<char> {
    join_path(config_dir_of(home), "config.toml"@)
}

impl StarknetNode {
    /// A node with this home directory, configuration source and start height.
    pub fn new(home_dir: String, config_source: ConfigSource, start_height: Option<u64>) -> (r: Self)
        ensures
            r.home_dir == home_dir,
            r.config_source == config_source,
            r.start_height == start_height,
    {
        StarknetNode { home_dir, config_source, start_height }
    }

    /// The path of the genesis file: `<home>/config/genesis.json`.
    pub fn genesis_file(&self) -> (r: String)
        ensures
            r@ == genesis_path(self.home_dir@),
    {
        let dir = join(self.home_dir.as_str(), "config");
        join(dir.as_str(), "genesis.json")
    }

    /// The path of the validator key file: `<home>/config/priv_validator_key.json`.
    pub fn private_key_file(&self) -> (r: String)
        ensures
            r@ == private_key_path(self.home_dir@),
    {
        let dir = join(self.home_dir.as_str(), "config");
        join(dir.as_str(), "priv_validator_key.json")
    }

    /// The path of the peer-to-peer key file: `<home>/config/p2p_key.json`.
    pub fn p2p_key_file(&self) -> (r: String)
        ensures
            r@ == p2p_key_path(self.home_dir@),
    {
        let dir = join(self.home_dir.as_str(), "config");
        join(dir.as_str(), "p2p_key.json")
    }

    /// The home directory.
    pub fn get_home_dir(&self) -> (r: String)
        ensures
            r@ == self.home_dir@,
    {
        self.home_dir.clone()
    }

    /// The configuration of the node: the given one, the default one, or,
    /// for a file, the path to read it from.
    pub fn load_config(&self) -> (r: LoadedConfig)
        ensures
            match self.config_source {
                ConfigSource::File(path) => r matches LoadedConfig::ReadFile(p) && p@ == path@,
                ConfigSource::Value(config) => r matches LoadedConfig::Ready(c) && c@ == config@,
                ConfigSource::Default => r matches LoadedConfig::Ready(c) && c@ == node_config(
                    1,
                    3,
                    default_settings(),
                    other_nodes(1, 3),
                ),
            },
    {
        match &self.config_source {
            ConfigSource::File(path) => LoadedConfig::ReadFile(path.clone()),
            ConfigSource::Value(config) => LoadedConfig::Ready(config.duplicate()),
            ConfigSource::Default => LoadedConfig::Ready(default_config()),
        }
    }

    /// The height the node starts consensus at, if it was given one: that
    /// block of fork 1.
    pub fn initial_height(&self) -> (r: Option<Height>)
        ensures
            r == match self.start_height {
                Some(h) => Some(Height { block_number: h, fork_id: 1 }),
                None => None::<Height>,
            },
    {
        match self.start_height {
            Some(h) => Some(Height { block_number: h, fork_id: 1 }),
            None => None,
        }
    }

    /// The validator key held in a key file.
    pub fn load_private_key(&self, file: PrivateKeyFile) -> (r: PrivateKey)
        ensures
            r == file.private_key,
    {
        file.private_key
    }

    /// The peer-to-peer key held in a key file.
    pub fn load_p2p_key(&self, file: PrivateKeyFile) -> (r: PrivateKey)
        ensures
            r == file.private_key,
    {
        file.private_key
    }
}

impl CanMakeGenesis for StarknetNode {
    fn make_genesis(&self, validators: Vec<(PublicKey, VotingPower)>) -> (r: Genesis)
        ensures
            r.validator_set.validators@ == validators_of(validators@),
    {
        genesis_of(validators)
    }
}

} // verus!
