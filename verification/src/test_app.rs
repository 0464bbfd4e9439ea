//! The test application's node: its configuration for a local testnet and
//! its genesis, made from the validator set it holds.
use crate::config::{
    default_value_sync, ConsensusConfig, ConsensusView, MakeConfigSettings, MetricsConfig,
    MetricsView, Multiaddr, P2pConfig, P2pView, RuntimeConfig, SocketAddress, SocketAddressView,
    ValuePayload, ValueSyncConfig,
};
use crate::peers::{
    as_ints, discovery_peer_indices, is_discovery_choice, lemma_other_nodes, other_node_indices,
    other_nodes,
};
use crate::starknet::{
    genesis_of, local_addr, local_addrs, local_peer_addrs, loopback, validators_of,
    CanMakeGenesis, CanMakeP2pKeyFile, CanMakePrivateKeyFile, Genesis, PrivateKey, PublicKey,
    Validator, ValidatorSet, VotingPower, CONSENSUS_BASE_PORT, MAX_PORT, METRICS_BASE_PORT,
};
use crate::text::{decimal, join, join_path, push_decimal};
use vstd::prelude::*;

verus! {

/// The configuration of a test application node.
#[derive(Debug)]
pub struct TestConfig {
    pub moniker: String,
    pub consensus: ConsensusConfig,
    pub value_sync: ValueSyncConfig,
    pub metrics: MetricsConfig,
    pub runtime: RuntimeConfig,
}

/// The mathematical value of a [`TestConfig`].
pub struct TestConfigView {
    pub moniker: Seq<char>,
    pub consensus: ConsensusView,
    pub value_sync: ValueSyncConfig,
    pub metrics: MetricsView,
    pub runtime: RuntimeConfig,
}

impl View for TestConfig {
    type V = TestConfigView;

    open spec fn view(&self) -> TestConfigView {
        TestConfigView {
            moniker: self.moniker@,
            consensus: self.consensus@,
            value_sync: self.value_sync,
            metrics: self.metrics@,
            runtime: self.runtime,
        }
    }
}

impl TestConfig {
    /// A copy of this configuration.
    pub fn duplicate(&self) -> (r: TestConfig)
        ensures
            r@ == self@,
    {
        TestConfig {
            moniker: self.moniker.clone(),
            consensus: self.consensus.duplicate(),
            value_sync: self.value_sync,
            metrics: self.metrics.duplicate(),
            runtime: self.runtime,
        }
    }
}

/// The name of test node `index`.
pub open spec fn test_moniker(index: int) -> Seq<char> {
    "test-"@ + decimal(index as nat)
}

/// The configuration of test node `index` of `total` whose consensus peers
/// are `consensus_peers`: consensus on the loopback host at 27000 +
/// `index`, proposals with their parts, metrics at 29000 + `index`.
pub open spec fn test_node_config(
    index: int,
    total: int,
    settings: MakeConfigSettings,
    consensus_peers: Seq<int>,
) -> TestConfigView {
    TestConfigView {
        moniker: test_moniker(index),
        consensus: ConsensusView {
            enabled: true,
            value_payload: ValuePayload::ProposalAndParts,
            queue_capacity: 100,
            p2p: P2pView {
                listen_addr: local_addr(settings.transport, CONSENSUS_BASE_PORT + index),
                persistent_peers: local_addrs(settings.transport, CONSENSUS_BASE_PORT as int, consensus_peers),
                discovery: settings.discovery,
            },
        },
        value_sync: default_value_sync(),
        metrics: MetricsView {
            enabled: true,
            listen_addr: SocketAddressView { host: loopback(), port: METRICS_BASE_PORT + index },
        },
        runtime: settings.runtime,
    }
}

/// Whether test node `index` of `total` has its ports in range: its metrics
/// port and the consensus port of every other node.
pub open spec fn test_ports_fit(index: int, total: int) -> bool {
    &&& METRICS_BASE_PORT + index <= MAX_PORT
    &&& CONSENSUS_BASE_PORT + total - 1 <= MAX_PORT
}

/// Whether `c` is a configuration that [`make_config`] may generate for
/// test node `index` of `total`.
pub open spec fn is_generated_test_config(
    index: int,
    total: int,
    settings: MakeConfigSettings,
    c: TestConfigView,
) -> bool {
    &&& !settings.discovery.enabled ==> c == test_node_config(
        index,
        total,
        settings,
        other_nodes(index, total as nat),
    )
    &&& settings.discovery.enabled ==> exists|peers: Seq<int>|
        is_discovery_choice(index, total, peers) && c == test_node_config(
            index,
            total,
            settings,
            peers,
        )
}

/// The configuration of test node `index` of `total` with these consensus
/// peers, however they were chosen.
pub fn make_config_with_peers(
    index: usize,
    total: usize,
    settings: MakeConfigSettings,
    consensus_peers: &Vec<usize>,
) -> (r: TestConfig)
    requires
        METRICS_BASE_PORT + index <= MAX_PORT,
        forall|k: int|
            0 <= k < consensus_peers.len() ==> CONSENSUS_BASE_PORT + #[trigger] consensus_peers[k]
                <= MAX_PORT,
    ensures
        r@ == test_node_config(index as int, total as int, settings, as_ints(consensus_peers@)),
{
    let mut moniker = String::from_str("test-");
    push_decimal(&mut moniker, index);
    proof {
        reveal_strlit("test-");
    }
    let consensus = ConsensusConfig {
        enabled: true,
        value_payload: ValuePayload::ProposalAndParts,
        queue_capacity: 100,
        p2p: P2pConfig {
            listen_addr: Multiaddr::new(
                settings.transport,
                "127.0.0.1",
                (CONSENSUS_BASE_PORT + index) as u16,
            ),
            persistent_peers: local_peer_addrs(
                settings.transport,
                CONSENSUS_BASE_PORT,
                consensus_peers,
            ),
            discovery: settings.discovery,
        },
    };
    let metrics = MetricsConfig {
        enabled: true,
        listen_addr: SocketAddress {
            host: String::from_str("127.0.0.1"),
            port: (METRICS_BASE_PORT + index) as u16,
        },
    };
    TestConfig {
        moniker,
        consensus,
        value_sync: ValueSyncConfig::default(),
        metrics,
        runtime: settings.runtime,
    }
}

/// Generates the configuration of test node `index` out of `total`: every
/// other node as a consensus peer, or with discovery a random choice of them.
pub fn make_config(index: usize, total: usize, settings: MakeConfigSettings) -> (r: TestConfig)
    requires
        test_ports_fit(index as int, total as int),
    ensures
        is_generated_test_config(index as int, total as int, settings, r@),
{
    let peers = if settings.discovery.enabled {
        discovery_peer_indices(index, total)
    } else {
        other_node_indices(index, total)
    };
    proof {
        lemma_other_nodes(index as int, total as nat);
        assert forall|k: int| 0 <= k < peers.len() implies CONSENSUS_BASE_PORT + #[trigger] peers[k]
            <= MAX_PORT by {
            assert(as_ints(peers@)[k] == peers[k] as int);
            if !settings.discovery.enabled {
                assert(other_nodes(index as int, total as nat).contains(peers[k] as int));
            }
        }
    }
    make_config_with_peers(index, total, settings, &peers)
}

/// A test application node: its home directory, configuration, validator
/// set, keys and start height.
#[derive(Debug)]
pub struct App {
    pub home_dir: String,
    pub config: TestConfig,
    pub validator_set: ValidatorSet,
    pub private_key: PrivateKey,
    pub p2p_key: PrivateKey,
    pub start_height: Option<u64>,
}

/// The (public key, voting power) pairs of validators, in order.
pub open spec fn pairs_of(vs: Seq<Validator>) -> Seq<(PublicKey, VotingPower)> {
    vs.map_values(|v: Validator| (v.public_key, v.voting_power))
}

/// The content of a test application's key file: the key itself.
pub open spec fn app_key_file(private_key: PrivateKey) -> PrivateKey {
    private_key
}

/// The key a test application reads from one of its key files.
pub open spec fn app_key_in_file(file: PrivateKey) -> PrivateKey {
    file
}

impl CanMakePrivateKeyFile for App {
    type PrivateKeyFile = PrivateKey;

    fn make_private_key_file(&self, private_key: PrivateKey) -> (r: PrivateKey)
        ensures
            r == app_key_file(private_key),
    {
        private_key
    }
}

impl CanMakeP2pKeyFile for App {
    type P2pKeyFile = PrivateKey;

    fn make_p2p_key_file(&self, private_key: PrivateKey) -> (r: PrivateKey)
        ensures
            r == app_key_file(private_key),
    {
        private_key
    }
}

impl CanMakeGenesis for App {
    fn make_genesis(&self, validators: Vec<(PublicKey, VotingPower)>) -> (r: Genesis)
        ensures
            r.validator_set.validators@ == validators_of(validators@),
    {
        genesis_of(validators)
    }
}

impl App {
    /// The home directory.
    pub fn get_home_dir(&self) -> (r: String)
        ensures
            r@ == self.home_dir@,
    {
        self.home_dir.clone()
    }

    /// The configuration the node was given.
    pub fn load_config(&self) -> (r: TestConfig)
        ensures
            r@ == self.config@,
    {
        self.config.duplicate()
    }

    /// The validator key held in a key file.
    pub fn load_private_key(&self, file: PrivateKey) -> (r: PrivateKey)
        ensures
            r == app_key_in_file(file),
    {
        file
    }

    /// The peer-to-peer key held in a key file.
    pub fn load_p2p_key(&self, file: PrivateKey) -> (r: PrivateKey)
        ensures
            r == app_key_in_file(file),
    {
        file
    }

    /// The validator key.
    pub fn load_private_key_file(&self) -> (r: PrivateKey)
        ensures
            r == self.private_key,
    {
        self.private_key
    }

    /// The peer-to-peer key.
    pub fn load_p2p_key_file(&self) -> (r: PrivateKey)
        ensures
            r == self.p2p_key,
    {
        self.p2p_key
    }

    /// Where the node keeps its data: `db` under its home directory.
    pub fn db_dir(&self) -> (r: String)
        ensures
            r@ == join_path(self.home_dir@, "db"@),
    {
        join(self.home_dir.as_str(), "db")
    }

    /// The node's block store: `store.db` in its data directory.
    pub fn store_file(&self) -> (r: String)
        ensures
            r@ == join_path(join_path(self.home_dir@, "db"@), "store.db"@),
    {
        let dir = self.db_dir();
        join(dir.as_str(), "store.db")
    }

    /// The height the node's state starts at: the given one, else 0.
    pub fn initial_height(&self) -> (r: u64)
        ensures
            r == match self.start_height {
                Some(h) => h,
                None => 0,
            },
    {
        match self.start_height {
            Some(h) => h,
            None => 0,
        }
    }

    /// The genesis made from the node's validator set.
    pub fn load_genesis(&self) -> (r: Genesis)
        ensures
            r.validator_set.validators@ == validators_of(pairs_of(self.validator_set.validators@)),
    {
        let vs = &self.validator_set.validators;
        let mut pairs: Vec<(PublicKey, VotingPower)> = Vec::new();
        let mut i: usize = 0;
        while i < vs.len()
            invariant
                i <= vs.len(),
                pairs@ =~= pairs_of(vs@).take(i as int),
            decreases vs.len() - i,
        {
            pairs.push((vs[i].public_key, vs[i].voting_power));
            i = i + 1;
            assert(pairs@ =~= pairs_of(vs@).take(i as int));
        }
        assert(pairs_of(vs@).take(vs.len() as int) =~= pairs_of(vs@));
        self.make_genesis(pairs)
    }
}

} // verus!
