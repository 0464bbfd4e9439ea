use malachite_node::config::{
    DiscoveryConfig, MakeConfigSettings, RuntimeConfig, TransportProtocol, ValuePayload,
    ValueSyncConfig,
};
use malachite_node::starknet::{
    CanMakeP2pKeyFile, CanMakePrivateKeyFile, PrivateKey, PublicKey, Validator, ValidatorSet,
};
use malachite_node::test_app::{make_config, App};

fn settings(discovery: bool) -> MakeConfigSettings {
    MakeConfigSettings {
        runtime: RuntimeConfig::SingleThreaded,
        transport: TransportProtocol::Tcp,
        discovery: DiscoveryConfig { enabled: discovery, ..DiscoveryConfig::default() },
        value_sync: ValueSyncConfig::default(),
    }
}

#[test]
fn test_app_config() {
    let c = make_config(2, 3, settings(false));
    assert_eq!(c.moniker, "test-2");
    assert_eq!(c.consensus.value_payload, ValuePayload::ProposalAndParts);
    assert_eq!(c.consensus.p2p.listen_addr.to_text(), "/ip4/127.0.0.1/tcp/27002");
    let peers: Vec<String> = c.consensus.p2p.persistent_peers.iter().map(|a| a.to_text()).collect();
    assert_eq!(peers, vec!["/ip4/127.0.0.1/tcp/27000", "/ip4/127.0.0.1/tcp/27001"]);
    assert_eq!(c.metrics.listen_addr.to_text(), "127.0.0.1:29002");
}

#[test]
fn test_app_discovery() {
    let c = make_config(0, 6, settings(true));
    let n = c.consensus.p2p.persistent_peers.len();
    assert!(n >= 1 && n <= 3);
}

#[test]
fn app_genesis_from_validator_set() {
    let validators = vec![
        Validator { public_key: PublicKey { bytes: [3; 32] }, voting_power: 5 },
        Validator { public_key: PublicKey { bytes: [4; 32] }, voting_power: 1 },
    ];
    let app = App {
        home_dir: "/app".to_string(),
        config: make_config(0, 1, settings(false)),
        validator_set: ValidatorSet { validators: validators.clone() },
        private_key: PrivateKey { bytes: [1; 32] },
        p2p_key: PrivateKey { bytes: [2; 32] },
        start_height: None,
    };
    let g = app.load_genesis();
    assert_eq!(g.validator_set.validators, validators);
    assert_eq!(app.load_config().moniker, "test-0");
    assert_eq!(app.get_home_dir(), "/app");
    assert_eq!(app.load_private_key_file().bytes, [1; 32]);
    assert_eq!(app.load_p2p_key_file().bytes, [2; 32]);
}

#[test]
fn app_storage_and_start_height() {
    let app = App {
        home_dir: "/app".to_string(),
        config: make_config(0, 1, settings(false)),
        validator_set: ValidatorSet { validators: vec![] },
        private_key: PrivateKey { bytes: [1; 32] },
        p2p_key: PrivateKey { bytes: [2; 32] },
        start_height: None,
    };
    assert_eq!(app.db_dir(), "/app/db");
    assert_eq!(app.store_file(), "/app/db/store.db");
    assert_eq!(app.initial_height(), 0);
    let later = App { start_height: Some(12), ..app };
    assert_eq!(later.initial_height(), 12);
}

#[test]
fn app_key_files_round_trip() {
    let app = App {
        home_dir: "/app".to_string(),
        config: make_config(0, 1, settings(false)),
        validator_set: ValidatorSet { validators: vec![] },
        private_key: PrivateKey { bytes: [1; 32] },
        p2p_key: PrivateKey { bytes: [2; 32] },
        start_height: None,
    };
    let key = PrivateKey { bytes: [9; 32] };
    assert_eq!(app.load_private_key(app.make_private_key_file(key)), key);
    assert_eq!(app.load_p2p_key(app.make_p2p_key_file(key)), key);
}
