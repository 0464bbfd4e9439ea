use std::collections::HashSet;

use malachite_node::config::{
    BootstrapProtocol, DiscoveryConfig, MakeConfigSettings, MempoolLoadType, Multiaddr,
    RuntimeConfig, Selector, TransportProtocol, ValuePayload, ValueSyncConfig,
};
use malachite_node::starknet::{
    default_config, make_config, make_config_with_peers, make_distributed_config, CanMakeGenesis,
    Config, ConfigSource, Height, LoadedConfig, PrivateKey, PrivateKeyFile, PublicKey, Address,
    StarknetNode,
};

fn settings(transport: TransportProtocol, discovery: bool) -> MakeConfigSettings {
    MakeConfigSettings {
        runtime: RuntimeConfig::MultiThreaded { worker_threads: 2 },
        transport,
        discovery: DiscoveryConfig { enabled: discovery, ..DiscoveryConfig::default() },
        value_sync: ValueSyncConfig::default(),
    }
}

fn texts(addrs: &[Multiaddr]) -> Vec<String> {
    addrs.iter().map(|a| a.to_text()).collect()
}

#[test]
fn default_config_is_node_one_of_three() {
    let c = default_config();
    assert_eq!(c.moniker, "starknet-1");
    assert!(c.consensus.enabled);
    assert_eq!(c.consensus.value_payload, ValuePayload::PartsOnly);
    assert_eq!(c.consensus.queue_capacity, 100);
    assert_eq!(c.consensus.p2p.listen_addr.to_text(), "/ip4/127.0.0.1/tcp/27001");
    assert_eq!(
        texts(&c.consensus.p2p.persistent_peers),
        vec!["/ip4/127.0.0.1/tcp/27000", "/ip4/127.0.0.1/tcp/27002"]
    );
    assert_eq!(c.consensus.p2p.discovery, DiscoveryConfig::default());
    assert_eq!(c.mempool.p2p.listen_addr.to_text(), "/ip4/127.0.0.1/tcp/28001");
    assert_eq!(
        texts(&c.mempool.p2p.persistent_peers),
        vec!["/ip4/127.0.0.1/tcp/28000", "/ip4/127.0.0.1/tcp/28002"]
    );
    assert!(!c.mempool.p2p.discovery.enabled);
    assert_eq!(c.mempool.max_tx_count, 10000);
    assert_eq!(c.mempool.gossip_batch_size, 0);
    assert_eq!(c.mempool.load, MempoolLoadType::UniformLoad);
    assert!(c.metrics.enabled);
    assert_eq!(c.metrics.listen_addr.to_text(), "127.0.0.1:29001");
    assert_eq!(c.runtime, RuntimeConfig::SingleThreaded);
    assert_eq!(c.value_sync, ValueSyncConfig::default());
}

#[test]
fn default_discovery_and_value_sync() {
    let d = DiscoveryConfig::default();
    assert!(!d.enabled);
    assert_eq!(d.bootstrap_protocol, BootstrapProtocol::Full);
    assert_eq!(d.selector, Selector::Random);
    assert_eq!(d.num_outbound_peers, 20);
    assert_eq!(d.num_inbound_peers, 20);
    assert_eq!(d.max_connections_per_peer, 5);
    assert_eq!(d.ephemeral_connection_timeout_ms, 5000);
    let v = ValueSyncConfig::default();
    assert!(v.enabled);
    assert_eq!(v.parallel_requests, 5);
}

#[test]
fn local_testnet_is_a_full_mesh() {
    let s = settings(TransportProtocol::Tcp, false);
    let configs: Vec<Config> = (0..4).map(|i| make_config(i, 4, s)).collect();
    for (i, c) in configs.iter().enumerate() {
        let peers = texts(&c.consensus.p2p.persistent_peers);
        assert_eq!(peers.len(), 3);
        for (j, other) in configs.iter().enumerate() {
            let addr = other.consensus.p2p.listen_addr.to_text();
            assert_eq!(peers.contains(&addr), i != j);
        }
        assert_eq!(c.runtime, RuntimeConfig::MultiThreaded { worker_threads: 2 });
    }
}

#[test]
fn quic_addresses() {
    let c = make_config(0, 2, settings(TransportProtocol::Quic, false));
    assert_eq!(c.consensus.p2p.listen_addr.to_text(), "/ip4/127.0.0.1/udp/27000/quic-v1");
    assert_eq!(texts(&c.mempool.p2p.persistent_peers), vec!["/ip4/127.0.0.1/udp/28001/quic-v1"]);
}

#[test]
fn discovery_picks_a_few_other_nodes() {
    let total = 10;
    for index in 0..total {
        let c = make_config(index, total, settings(TransportProtocol::Tcp, true));
        let ports: Vec<usize> =
            c.consensus.p2p.persistent_peers.iter().map(|a| a.port as usize).collect();
        assert!(!ports.is_empty() && ports.len() <= total / 2);
        let unique: HashSet<usize> = ports.iter().copied().collect();
        assert_eq!(unique.len(), ports.len());
        for p in ports {
            assert!(p >= 27000 && p < 27000 + total && p != 27000 + index);
        }
        assert!(c.consensus.p2p.discovery.enabled);
        assert!(!c.mempool.p2p.discovery.enabled);
        assert_eq!(c.mempool.p2p.persistent_peers.len(), total - 1);
    }
}

#[test]
fn discovery_alone_has_no_peers() {
    let c = make_config(0, 1, settings(TransportProtocol::Tcp, true));
    assert!(c.consensus.p2p.persistent_peers.is_empty());
}

#[test]
fn config_with_given_peers() {
    let c = make_config_with_peers(2, 5, settings(TransportProtocol::Tcp, true), &vec![4, 0]);
    assert_eq!(
        texts(&c.consensus.p2p.persistent_peers),
        vec!["/ip4/127.0.0.1/tcp/27004", "/ip4/127.0.0.1/tcp/27000"]
    );
}

#[test]
fn distributed_config_over_machines() {
    let machines = vec!["10.0.0.1".to_string(), "10.0.0.2".to_string()];
    let c = make_distributed_config(5, 8, machines.clone(), 2, settings(TransportProtocol::Tcp, false));
    assert_eq!(c.moniker, "starknet-5");
    assert_eq!(c.consensus.p2p.listen_addr.to_text(), "/ip4/10.0.0.2/tcp/27002");
    assert_eq!(
        texts(&c.consensus.p2p.persistent_peers),
        vec![
            "/ip4/10.0.0.1/tcp/27000",
            "/ip4/10.0.0.2/tcp/27000",
            "/ip4/10.0.0.1/tcp/27001",
            "/ip4/10.0.0.2/tcp/27001",
            "/ip4/10.0.0.1/tcp/27002",
        ]
    );
    assert_eq!(c.mempool.p2p.listen_addr.to_text(), "/ip4/10.0.0.2/tcp/28002");
    assert!(c.mempool.p2p.persistent_peers.is_empty());
    assert_eq!(c.mempool.p2p.discovery, DiscoveryConfig { enabled: false, ..DiscoveryConfig::default() });
    assert_eq!(c.metrics.listen_addr.to_text(), "10.0.0.2:29002");
    assert!(!c.value_sync.enabled);
}

#[test]
fn distributed_config_with_discovery_bootstraps_from_recent_nodes() {
    let machines = vec!["10.0.0.1".to_string(), "10.0.0.2".to_string()];
    let c = make_distributed_config(5, 8, machines.clone(), 2, settings(TransportProtocol::Tcp, true));
    assert_eq!(
        texts(&c.consensus.p2p.persistent_peers),
        vec!["/ip4/10.0.0.2/tcp/27001", "/ip4/10.0.0.1/tcp/27002"]
    );
    let first = make_distributed_config(0, 8, machines, 2, settings(TransportProtocol::Tcp, true));
    assert!(first.consensus.p2p.persistent_peers.is_empty());
}

#[test]
fn starknet_node_files_and_default_config() {
    let node = StarknetNode::new("/tmp/node".to_string(), ConfigSource::Default, Some(1));
    assert_eq!(node.genesis_file(), "/tmp/node/config/genesis.json");
    assert_eq!(node.private_key_file(), "/tmp/node/config/priv_validator_key.json");
    assert_eq!(node.p2p_key_file(), "/tmp/node/config/p2p_key.json");
    assert_eq!(node.get_home_dir(), "/tmp/node");
    assert_eq!(node.start_height, Some(1));
    match node.load_config() {
        LoadedConfig::Ready(c) => assert_eq!(c.moniker, "starknet-1"),
        LoadedConfig::ReadFile(_) => panic!("expected the default configuration"),
    }
}

#[test]
fn config_sources() {
    let from_file =
        StarknetNode::new("/n".to_string(), ConfigSource::File("/n/c.toml".to_string()), None);
    match from_file.load_config() {
        LoadedConfig::ReadFile(p) => assert_eq!(p, "/n/c.toml"),
        LoadedConfig::Ready(_) => panic!("expected a file to read"),
    }
    let given = make_config(2, 3, settings(TransportProtocol::Tcp, false));
    let node = StarknetNode::new("/n".to_string(), ConfigSource::Value(Box::new(given)), None);
    match node.load_config() {
        LoadedConfig::Ready(c) => {
            assert_eq!(c.moniker, "starknet-2");
            assert_eq!(texts(&c.consensus.p2p.persistent_peers).len(), 2);
        }
        LoadedConfig::ReadFile(_) => panic!("expected the given configuration"),
    }
}

#[test]
fn genesis_keeps_validators() {
    let node = StarknetNode::new("/n".to_string(), ConfigSource::Default, None);
    let a = PublicKey { bytes: [1; 32] };
    let b = PublicKey { bytes: [2; 32] };
    let g = node.make_genesis(vec![(a, 10), (b, 20)]);
    assert_eq!(g.validator_set.validators.len(), 2);
    assert_eq!(g.validator_set.validators[0].public_key, a);
    assert_eq!(g.validator_set.validators[0].voting_power, 10);
    assert_eq!(g.validator_set.validators[1].public_key, b);
    assert_eq!(g.validator_set.validators[1].voting_power, 20);
}

#[test]
fn key_files_hold_their_key() {
    let node = StarknetNode::new("/n".to_string(), ConfigSource::Default, None);
    let file = PrivateKeyFile {
        private_key: PrivateKey { bytes: [7; 32] },
        public_key: PublicKey { bytes: [8; 32] },
        address: Address { bytes: vec![9; 20] },
    };
    assert_eq!(node.load_private_key(file).bytes, [7; 32]);
}

#[test]
fn starknet_start_height_is_on_fork_one() {
    let node = StarknetNode::new("/n".to_string(), ConfigSource::Default, Some(7));
    assert_eq!(node.initial_height(), Some(Height { block_number: 7, fork_id: 1 }));
    let fresh = StarknetNode::new("/n".to_string(), ConfigSource::Default, None);
    assert_eq!(fresh.initial_height(), None);
}

#[test]
fn local_ports_never_collide() {
    let s = settings(TransportProtocol::Tcp, false);
    let mut seen = HashSet::new();
    for i in 0..50 {
        let c = make_config(i, 50, s);
        assert!(seen.insert(c.consensus.p2p.listen_addr.port));
        assert!(seen.insert(c.mempool.p2p.listen_addr.port));
        assert!(seen.insert(c.metrics.listen_addr.port));
    }
}

#[test]
fn distributed_listen_addresses_are_distinct() {
    let machines = vec!["10.0.0.1".to_string(), "10.0.0.2".to_string(), "10.0.0.3".to_string()];
    let mut seen = HashSet::new();
    for i in 0..12 {
        let c = make_distributed_config(i, 12, machines.clone(), 3, settings(TransportProtocol::Tcp, false));
        assert!(seen.insert(c.consensus.p2p.listen_addr.to_text()));
    }
}

#[test]
fn distributed_config_ignores_node_count() {
    let machines = vec!["10.0.0.1".to_string(), "10.0.0.2".to_string()];
    let s = settings(TransportProtocol::Tcp, false);
    let a = make_distributed_config(3, 4, machines.clone(), 1, s);
    let b = make_distributed_config(3, 400, machines, 1, s);
    assert_eq!(a.consensus.p2p.listen_addr.to_text(), b.consensus.p2p.listen_addr.to_text());
    assert_eq!(texts(&a.consensus.p2p.persistent_peers), texts(&b.consensus.p2p.persistent_peers));
    assert_eq!(a.metrics.listen_addr.to_text(), b.metrics.listen_addr.to_text());
}

#[test]
fn make_config_repeatable_without_discovery() {
    let s = settings(TransportProtocol::Tcp, false);
    let a = make_config(1, 5, s);
    let b = make_config(1, 5, s);
    assert_eq!(texts(&a.consensus.p2p.persistent_peers), texts(&b.consensus.p2p.persistent_peers));
    assert_eq!(a.moniker, b.moniker);
}
