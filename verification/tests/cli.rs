use std::str::FromStr;

use malachite_node::cli::{
    distributed_testnet, distributed_testnet_ok, testnet, Args, Error, RuntimeFlavour, TestnetCmd,
};
use malachite_node::config::{
    BootstrapProtocol, DiscoveryConfig, MakeConfigSettings, RuntimeConfig, Selector,
    TransportProtocol, ValueSyncConfig,
};

#[test]
fn parse_home_path() {
    let args = Args { home: Some("/tmp".to_string()) };
    assert_eq!(args.get_config_file_path().unwrap(), "/tmp/config/config.toml");
    assert_eq!(args.get_genesis_file_path().unwrap(), "/tmp/config/genesis.json");
}

#[test]
fn key_file_paths_under_home() {
    let args = Args { home: Some("/tmp".to_string()) };
    assert_eq!(args.get_home_dir().unwrap(), "/tmp");
    assert_eq!(args.get_config_dir().unwrap(), "/tmp/config");
    assert_eq!(
        args.get_priv_validator_key_file_path().unwrap(),
        "/tmp/config/priv_validator_key.json"
    );
    assert_eq!(args.get_p2p_key_file_path().unwrap(), "/tmp/config/p2p_key.json");
}

#[test]
fn home_with_trailing_slash() {
    let args = Args { home: Some("/data/".to_string()) };
    assert_eq!(args.get_config_file_path().unwrap(), "/data/config/config.toml");
}

#[test]
fn default_home_is_under_user_home() {
    let args = Args { home: None };
    assert_eq!(
        args.home_dir_with(Some("/home/alice".to_string())).unwrap(),
        "/home/alice/.malachite"
    );
    assert_eq!(args.home_dir_with(None), Err(Error::DirPath));
    let given = Args { home: Some("/srv".to_string()) };
    assert_eq!(given.home_dir_with(Some("/home/alice".to_string())).unwrap(), "/srv");
}

#[test]
fn runtime_flavours_parse() {
    assert_eq!(RuntimeFlavour::from_str("single-threaded"), Ok(RuntimeFlavour::SingleThreaded));
    assert_eq!(RuntimeFlavour::from_str("multi-threaded"), Ok(RuntimeFlavour::MultiThreaded(0)));
    assert_eq!(RuntimeFlavour::from_str("multi-threaded:4"), Ok(RuntimeFlavour::MultiThreaded(4)));
    assert_eq!(RuntimeFlavour::from_str("multi-threaded:+7"), Ok(RuntimeFlavour::MultiThreaded(7)));
    assert_eq!(RuntimeFlavour::from_str("multi-threaded:0"), Ok(RuntimeFlavour::MultiThreaded(0)));
}

#[test]
fn runtime_flavour_errors() {
    assert_eq!(
        RuntimeFlavour::from_str("multi-threaded:x"),
        Err("Invalid number of threads".to_string())
    );
    assert_eq!(
        RuntimeFlavour::from_str("multi-threaded:"),
        Err("Invalid number of threads".to_string())
    );
    assert_eq!(
        RuntimeFlavour::from_str("multi-threaded:99999999999999999999999"),
        Err("Invalid number of threads".to_string())
    );
    assert_eq!(
        RuntimeFlavour::from_str("single-threaded:2"),
        Err("Invalid runtime flavour: single-threaded:2".to_string())
    );
    assert_eq!(
        RuntimeFlavour::from_str("threaded"),
        Err("Invalid runtime flavour: threaded".to_string())
    );
    assert_eq!(RuntimeFlavour::from_str(""), Err("Invalid runtime flavour: ".to_string()));
}

fn command(nodes: usize, runtime: RuntimeFlavour, enable_discovery: bool) -> TestnetCmd {
    TestnetCmd {
        nodes,
        deterministic: true,
        runtime,
        enable_discovery,
        bootstrap_protocol: BootstrapProtocol::Kademlia,
        selector: Selector::Kademlia,
        num_outbound_peers: 10,
        num_inbound_peers: 30,
        max_connections_per_peer: 2,
        ephemeral_connection_timeout_ms: 1500,
        transport: TransportProtocol::Quic,
    }
}

#[test]
fn testnet_command_settings() {
    let settings = command(3, RuntimeFlavour::MultiThreaded(8), true).settings();
    assert_eq!(settings.runtime, RuntimeConfig::MultiThreaded { worker_threads: 8 });
    assert_eq!(settings.transport, TransportProtocol::Quic);
    assert_eq!(
        settings.discovery,
        DiscoveryConfig {
            enabled: true,
            bootstrap_protocol: BootstrapProtocol::Kademlia,
            selector: Selector::Kademlia,
            num_outbound_peers: 10,
            num_inbound_peers: 30,
            max_connections_per_peer: 2,
            ephemeral_connection_timeout_ms: 1500,
        }
    );
    assert_eq!(settings.value_sync, ValueSyncConfig::default());
    let single = command(3, RuntimeFlavour::SingleThreaded, false).settings();
    assert_eq!(single.runtime, RuntimeConfig::SingleThreaded);
}

#[test]
fn running_testnet_creates_all_configs() {
    let setups = command(3, RuntimeFlavour::SingleThreaded, false).run("/tmp/net");
    assert_eq!(setups.len(), 3);
    for (i, setup) in setups.iter().enumerate() {
        assert_eq!(setup.index, i);
        assert_eq!(setup.home_dir, format!("/tmp/net/{i}"));
        assert_eq!(setup.config_file, format!("/tmp/net/{i}/config/config.toml"));
        assert_eq!(setup.genesis_file, format!("/tmp/net/{i}/config/genesis.json"));
        assert_eq!(
            setup.priv_validator_key_file,
            format!("/tmp/net/{i}/config/priv_validator_key.json")
        );
        assert_eq!(setup.p2p_key_file, format!("/tmp/net/{i}/config/p2p_key.json"));
        assert_eq!(setup.config.moniker, format!("starknet-{i}"));
        assert_eq!(setup.config.consensus.p2p.listen_addr.port as usize, 27000 + i);
        assert_eq!(setup.config.consensus.p2p.persistent_peers.len(), 2);
    }
}

#[test]
fn testnet_files_are_distinct() {
    let setups = command(12, RuntimeFlavour::SingleThreaded, false).run("/net/");
    let mut paths = std::collections::HashSet::new();
    for setup in &setups {
        assert!(paths.insert(setup.home_dir.clone()));
        assert!(paths.insert(setup.config_file.clone()));
        assert!(paths.insert(setup.genesis_file.clone()));
        assert!(paths.insert(setup.priv_validator_key_file.clone()));
        assert!(paths.insert(setup.p2p_key_file.clone()));
    }
    assert_eq!(setups[11].home_dir, "/net/11");
}

#[test]
fn empty_testnet() {
    let settings = MakeConfigSettings {
        runtime: RuntimeConfig::single_threaded(),
        transport: TransportProtocol::Tcp,
        discovery: DiscoveryConfig::default(),
        value_sync: ValueSyncConfig::default(),
    };
    assert!(testnet(0, "/tmp/net", settings).is_empty());
}

#[test]
fn distributed_testnet_plan() {
    let machines = vec!["10.0.0.1".to_string(), "10.0.0.2".to_string(), "bad".to_string()];
    assert!(!distributed_testnet_ok(3, &machines));
    assert!(distributed_testnet_ok(2, &machines));
    assert!(distributed_testnet_ok(0, &vec![]));
    assert!(!distributed_testnet_ok(1, &vec![]));
    let settings = MakeConfigSettings {
        runtime: RuntimeConfig::single_threaded(),
        transport: TransportProtocol::Tcp,
        discovery: DiscoveryConfig::default(),
        value_sync: ValueSyncConfig::default(),
    };
    let plan = distributed_testnet(2, "/d", &machines, 1, settings);
    assert_eq!(plan.len(), 2);
    assert_eq!(plan[1].home_dir, "/d/1");
    assert_eq!(plan[1].config_file, "/d/1/config/config.toml");
    assert_eq!(plan[1].config.consensus.p2p.listen_addr.to_text(), "/ip4/10.0.0.2/tcp/27000");
    assert_eq!(plan[1].config.consensus.p2p.persistent_peers.len(), 1);
    assert_eq!(plan[1].config.consensus.p2p.persistent_peers[0].to_text(), "/ip4/10.0.0.1/tcp/27000");
}
