//! What holds across the functions of the library: the shape of the
//! networks a testnet is configured into, where its files go, and how its
//! options read back.
use crate::cli::{
    has_node_files, NodeSetup, parse_flavour, path_lookup, testnet_settings, Error, HomePath, RuntimeFlavour, TestnetCmd,
};
use crate::config::{
    default_discovery, default_value_sync, MakeConfigSettings, MultiaddrView, RuntimeConfig,
    TransportProtocol,
};
use crate::peers::{is_discovery_choice, lemma_other_nodes, other_nodes};
use crate::starknet::{
    default_settings, is_generated_config, ConfigView, config_dir_of, config_path, distributed_config, genesis_path, node_config,
    p2p_key_path, private_key_path, validators_of, PrivateKey, PublicKey, Validator, VotingPower,
};
use crate::test_app::{
    app_key_file, app_key_in_file, is_generated_test_config, pairs_of, test_node_config,
    TestConfigView,
};
use crate::text::{
    decimal, join_path, lemma_decimal, lemma_decimal_injective, lemma_parse_decimal,
    parse_usize_text,
};
use vstd::prelude::*;

verus! {

/// A local testnet without discovery is a full mesh: node `index` names as
/// consensus peer, and as mempool peer, the listen address of every other
/// node of the testnet and never its own.
pub proof fn law_local_full_mesh(index: int, j: int, total: int, settings: MakeConfigSettings)
    requires
        0 <= index < total,
        0 <= j < total,
    ensures
        ({
            let me = node_config(index, total, settings, other_nodes(index, total as nat));
            let other = node_config(j, total, settings, other_nodes(j, total as nat));
            &&& me.consensus.p2p.persistent_peers.contains(other.consensus.p2p.listen_addr) <==> j
                != index
            &&& me.mempool.p2p.persistent_peers.contains(other.mempool.p2p.listen_addr) <==> j
                != index
        }),
{
    lemma_other_nodes(index, total as nat);
    let peers = other_nodes(index, total as nat);
    let me = node_config(index, total, settings, peers);
    let other = node_config(j, total, settings, other_nodes(j, total as nat));
    if j != index {
        assert(peers.contains(j));
        let k = choose|k: int| 0 <= k < peers.len() && peers[k] == j;
        assert(me.consensus.p2p.persistent_peers[k] == other.consensus.p2p.listen_addr);
        assert(me.mempool.p2p.persistent_peers[k] == other.mempool.p2p.listen_addr);
    } else {
        if me.consensus.p2p.persistent_peers.contains(other.consensus.p2p.listen_addr) {
            let k = choose|k: int|
                0 <= k < me.consensus.p2p.persistent_peers.len()
                    && me.consensus.p2p.persistent_peers[k] == other.consensus.p2p.listen_addr;
            assert(peers.contains(peers[k]));
        }
        if me.mempool.p2p.persistent_peers.contains(other.mempool.p2p.listen_addr) {
            let k = choose|k: int|
                0 <= k < me.mempool.p2p.persistent_peers.len()
                    && me.mempool.p2p.persistent_peers[k] == other.mempool.p2p.listen_addr;
            assert(peers.contains(peers[k]));
        }
    }
}

/// With discovery, each consensus peer of a node is the listen address of
/// another node of the testnet, named once, and there are between one and
/// half of the nodes of them (none for a node alone).
pub proof fn law_discovery_peers_are_other_nodes(
    index: int,
    total: int,
    settings: MakeConfigSettings,
    peers: Seq<int>,
)
    requires
        0 <= index < total,
        is_discovery_choice(index, total, peers),
    ensures
        ({
            let me = node_config(index, total, settings, peers);
            &&& me.consensus.p2p.persistent_peers.no_duplicates()
            &&& total > 1 ==> 1 <= me.consensus.p2p.persistent_peers.len() <= total / 2
            &&& total <= 1 ==> me.consensus.p2p.persistent_peers.len() == 0
            &&& forall|k: int|
                #![trigger me.consensus.p2p.persistent_peers[k]]
                0 <= k < me.consensus.p2p.persistent_peers.len() ==> exists|j: int|
                    #![trigger node_config(j, total, settings, other_nodes(j, total as nat))]
                    0 <= j < total && j != index && me.consensus.p2p.persistent_peers[k]
                        == node_config(
                        j,
                        total,
                        settings,
                        other_nodes(j, total as nat),
                    ).consensus.p2p.listen_addr
        }),
{
    let me = node_config(index, total, settings, peers);
    let addrs = me.consensus.p2p.persistent_peers;
    assert forall|a: int, b: int| 0 <= a < addrs.len() && 0 <= b < addrs.len() && a != b implies addrs[a]
        != addrs[b] by {
        assert(peers[a] != peers[b]);
    }
    assert forall|k: int| #![trigger addrs[k]] 0 <= k < addrs.len() implies exists|j: int|
        #![trigger node_config(j, total, settings, other_nodes(j, total as nat))]
        0 <= j < total && j != index && addrs[k] == node_config(
            j,
            total,
            settings,
            other_nodes(j, total as nat),
        ).consensus.p2p.listen_addr by {
        let j = peers[k];
        assert(addrs[k] == node_config(j, total, settings, other_nodes(j, total as nat)).consensus.p2p.listen_addr);
    }
}

/// In a local testnet of at most 1000 nodes no two listening endpoints
/// share a port: each node's consensus, mempool and metrics ports differ
/// from each other and from those of every other node, whatever peers the
/// nodes were given.
pub proof fn law_local_ports_distinct(
    i: int,
    j: int,
    total: int,
    settings: MakeConfigSettings,
    peers_i: Seq<int>,
    peers_j: Seq<int>,
)
    requires
        0 <= i < total,
        0 <= j < total,
        total <= 1000,
    ensures
        ({
            let a = node_config(i, total, settings, peers_i);
            let b = node_config(j, total, settings, peers_j);
            let ports_a = seq![
                a.consensus.p2p.listen_addr.port,
                a.mempool.p2p.listen_addr.port,
                a.metrics.listen_addr.port,
            ];
            let ports_b = seq![
                b.consensus.p2p.listen_addr.port,
                b.mempool.p2p.listen_addr.port,
                b.metrics.listen_addr.port,
            ];
            &&& ports_a.no_duplicates()
            &&& i != j ==> forall|x: int, y: int|
                0 <= x < 3 && 0 <= y < 3 ==> #[trigger] ports_a[x] != #[trigger] ports_b[y]
        }),
{
}

/// In a distributed testnet the peers of a node are exactly the listen
/// addresses of the nodes before it (the last `bootstrap_set_size` of them
/// with discovery), in order.
pub proof fn law_distributed_peers_are_earlier_nodes(
    index: int,
    total: int,
    machines: Seq<Seq<char>>,
    bootstrap_set_size: int,
    settings: MakeConfigSettings,
)
    requires
        0 <= index,
        0 <= bootstrap_set_size,
        machines.len() > 0,
    ensures
        ({
            let me = distributed_config(index, total, machines, bootstrap_set_size, settings);
            let first = if settings.discovery.enabled && index >= bootstrap_set_size {
                index - bootstrap_set_size
            } else {
                0
            };
            &&& me.consensus.p2p.persistent_peers.len() == index - first
            &&& forall|t: int|
                0 <= t < index - first ==> #[trigger] me.consensus.p2p.persistent_peers[t]
                    == distributed_config(
                    first + t,
                    total,
                    machines,
                    bootstrap_set_size,
                    settings,
                ).consensus.p2p.listen_addr
        }),
{
}

/// In a distributed testnet over distinct machines, no two nodes listen on
/// the same host and port: nodes are dealt round-robin, so two nodes share
/// a machine only when they differ in their rank on it.
pub proof fn law_distributed_addrs_distinct(
    i: int,
    j: int,
    total: int,
    machines: Seq<Seq<char>>,
    bootstrap_set_size: int,
    settings: MakeConfigSettings,
)
    requires
        0 <= i,
        0 <= j,
        i != j,
        machines.len() > 0,
        machines.no_duplicates(),
    ensures
        distributed_config(i, total, machines, bootstrap_set_size, settings).consensus.p2p.listen_addr
            != distributed_config(j, total, machines, bootstrap_set_size, settings).consensus.p2p.listen_addr,
{
    let m = machines.len() as int;
    if i % m == j % m && i / m == j / m {
        vstd::arithmetic::div_mod::lemma_fundamental_div_mod(i, m);
        vstd::arithmetic::div_mod::lemma_fundamental_div_mod(j, m);
    }
}

/// The number of nodes of a distributed testnet does not change the
/// configuration of any of its nodes.
pub proof fn law_distributed_config_ignores_total(
    index: int,
    total1: int,
    total2: int,
    machines: Seq<Seq<char>>,
    bootstrap_set_size: int,
    settings: MakeConfigSettings,
)
    ensures
        distributed_config(index, total1, machines, bootstrap_set_size, settings)
            == distributed_config(index, total2, machines, bootstrap_set_size, settings),
{
}

/// Two configurations that `make_config` may generate for the same node
/// with the same arguments agree everywhere but, with discovery, in the
/// consensus peers, which are chosen at random; without discovery they
/// are the same.
pub proof fn law_make_config_repeatable(
    index: int,
    total: int,
    settings: MakeConfigSettings,
    c1: ConfigView,
    c2: ConfigView,
)
    requires
        is_generated_config(index, total, settings, c1),
        is_generated_config(index, total, settings, c2),
    ensures
        c1.moniker == c2.moniker,
        c1.consensus.enabled == c2.consensus.enabled,
        c1.consensus.value_payload == c2.consensus.value_payload,
        c1.consensus.queue_capacity == c2.consensus.queue_capacity,
        c1.consensus.p2p.listen_addr == c2.consensus.p2p.listen_addr,
        c1.consensus.p2p.discovery == c2.consensus.p2p.discovery,
        c1.mempool == c2.mempool,
        c1.value_sync == c2.value_sync,
        c1.metrics == c2.metrics,
        c1.runtime == c2.runtime,
        !settings.discovery.enabled ==> c1 == c2,
{
    if settings.discovery.enabled {
        let p1 = choose|p: Seq<int>|
            is_discovery_choice(index, total, p) && c1 == node_config(index, total, settings, p);
        let p2 = choose|p: Seq<int>|
            is_discovery_choice(index, total, p) && c2 == node_config(index, total, settings, p);
    }
}

/// The nodes of a testnet get distinct home directories, and so distinct
/// configuration, genesis and key files: no node's files overwrite
/// another's.
pub proof fn law_testnet_files_distinct(home: Seq<char>, i: nat, j: nat)
    requires
        i != j,
    ensures
        ({
            let hi = join_path(home, decimal(i));
            let hj = join_path(home, decimal(j));
            &&& hi != hj
            &&& config_path(hi) != config_path(hj)
            &&& genesis_path(hi) != genesis_path(hj)
            &&& private_key_path(hi) != private_key_path(hj)
            &&& p2p_key_path(hi) != p2p_key_path(hj)
        }),
{
    lemma_decimal(i);
    lemma_decimal(j);
    let hi = join_path(home, decimal(i));
    let hj = join_path(home, decimal(j));
    let base = if home.len() == 0 || home.last() == '/' { home } else { home + "/"@ };
    assert(hi == base + decimal(i));
    assert(hj == base + decimal(j));
    if hi == hj {
        assert(decimal(i) =~= hi.skip(base.len() as int));
        assert(decimal(j) =~= hj.skip(base.len() as int));
        lemma_decimal_injective(i, j);
    }
    assert(hi.last() != '/') by {
        lemma_last_digit_not_slash(i);
        assert(hi.last() == decimal(i).last());
    }
    assert(hj.last() != '/') by {
        lemma_last_digit_not_slash(j);
        assert(hj.last() == decimal(j).last());
    }
    lemma_join_injective(hi, hj, "config"@);
    let ci = config_dir_of(hi);
    let cj = config_dir_of(hj);
    assert(ci.last() != '/' && cj.last() != '/') by {
        reveal_strlit("config");
        reveal_strlit("/");
        assert(ci.last() == 'g');
        assert(cj.last() == 'g');
    }
    lemma_join_injective(ci, cj, "config.toml"@);
    lemma_join_injective(ci, cj, "genesis.json"@);
    lemma_join_injective(ci, cj, "priv_validator_key.json"@);
    lemma_join_injective(ci, cj, "p2p_key.json"@);
}

proof fn lemma_last_digit_not_slash(n: nat)
    ensures
        decimal(n).last() != '/',
{
    lemma_decimal(n);
    assert(crate::text::is_digit(decimal(n)[decimal(n).len() - 1]));
}

/// Joining the same name under two different non-empty directories that do
/// not end in `/` gives two different paths.
proof fn lemma_join_injective(a: Seq<char>, b: Seq<char>, name: Seq<char>)
    requires
        a != b,
        a.len() > 0,
        b.len() > 0,
        a.last() != '/',
        b.last() != '/',
    ensures
        join_path(a, name) != join_path(b, name),
{
    reveal_strlit("/");
    let x = join_path(a, name);
    let y = join_path(b, name);
    assert(x == a + "/"@ + name);
    assert(y == b + "/"@ + name);
    if x == y {
        assert(a.len() == b.len());
        assert(a =~= x.take(a.len() as int));
        assert(b =~= y.take(b.len() as int));
    }
}

/// Every file of a node lies under its home folder: for whatever user home
/// directory a lookup sees, the configuration folder is `config` under the
/// home folder found, each file is in that folder, and a lookup fails only
/// when no home folder is found. With a `home` option the user's home
/// directory plays no part.
pub proof fn law_paths_under_home(home: Option<String>, user_home: Option<Seq<char>>, other_user_home: Option<Seq<char>>)
    ensures
        path_lookup(home, user_home, HomePath::ConfigDir) == match path_lookup(home, user_home, HomePath::Home) {
            Ok(h) => Ok(config_dir_of(h)),
            Err(e) => Err::<Seq<char>, Error>(e),
        },
        path_lookup(home, user_home, HomePath::ConfigFile) == match path_lookup(home, user_home, HomePath::ConfigDir) {
            Ok(d) => Ok(join_path(d, "config.toml"@)),
            Err(e) => Err::<Seq<char>, Error>(e),
        },
        path_lookup(home, user_home, HomePath::GenesisFile) == match path_lookup(home, user_home, HomePath::ConfigDir) {
            Ok(d) => Ok(join_path(d, "genesis.json"@)),
            Err(e) => Err::<Seq<char>, Error>(e),
        },
        path_lookup(home, user_home, HomePath::PrivValidatorKeyFile) == match path_lookup(home, user_home, HomePath::ConfigDir) {
            Ok(d) => Ok(join_path(d, "priv_validator_key.json"@)),
            Err(e) => Err::<Seq<char>, Error>(e),
        },
        path_lookup(home, user_home, HomePath::P2pKeyFile) == match path_lookup(home, user_home, HomePath::ConfigDir) {
            Ok(d) => Ok(join_path(d, "p2p_key.json"@)),
            Err(e) => Err::<Seq<char>, Error>(e),
        },
        home is Some ==> forall|kind: HomePath| #[trigger] path_lookup(home, user_home, kind) == path_lookup(home, other_user_home, kind),
{
}

/// Running the `testnet` command generates what [`testnet`] generates with
/// the command's settings: its runtime flavour as the runtime, its
/// transport and discovery options, and default value sync.
pub proof fn law_run_is_testnet(cmd: TestnetCmd)
    ensures
        testnet_settings(cmd).runtime == match cmd.runtime {
            RuntimeFlavour::SingleThreaded => RuntimeConfig::SingleThreaded,
            RuntimeFlavour::MultiThreaded(n) => RuntimeConfig::MultiThreaded { worker_threads: n },
        },
        testnet_settings(cmd).transport == cmd.transport,
        testnet_settings(cmd).value_sync == default_value_sync(),
        testnet_settings(cmd).discovery.enabled == cmd.enable_discovery,
        testnet_settings(cmd).discovery.num_outbound_peers == cmd.num_outbound_peers,
        testnet_settings(cmd).discovery.num_inbound_peers == cmd.num_inbound_peers,
        testnet_settings(cmd).discovery.bootstrap_protocol == cmd.bootstrap_protocol,
        testnet_settings(cmd).discovery.selector == cmd.selector,
        testnet_settings(cmd).discovery.max_connections_per_peer == cmd.max_connections_per_peer,
        testnet_settings(cmd).discovery.ephemeral_connection_timeout_ms
            == cmd.ephemeral_connection_timeout_ms,
{
}

/// `multi-threaded:N` asks for `N` worker threads, for every `N`, and
/// `multi-threaded` alone means the same as `multi-threaded:0`: as many
/// workers as cores.
pub proof fn law_multi_threaded_flavour(n: usize)
    ensures
        parse_flavour("multi-threaded:"@ + decimal(n as nat)) == Ok::<RuntimeFlavour, Seq<char>>(
            RuntimeFlavour::MultiThreaded(n),
        ),
        parse_flavour("multi-threaded"@) == parse_flavour("multi-threaded:"@ + decimal(0)),
{
    reveal_strlit("multi-threaded:");
    reveal_strlit("multi-threaded");
    lemma_multi_threaded_text(n);
    lemma_multi_threaded_text(0);
    reveal_strlit("single-threaded");
    assert("multi-threaded"@[0] != "single-threaded"@[0]);
    assert(!"multi-threaded"@.contains(':')) by {
        assert forall|k: int| 0 <= k < 14 implies "multi-threaded"@[k] != ':' by {}
    }
    assert(parse_flavour("multi-threaded"@) == Ok::<RuntimeFlavour, Seq<char>>(RuntimeFlavour::MultiThreaded(0)));
}

proof fn lemma_multi_threaded_text(n: usize)
    ensures
        parse_flavour("multi-threaded:"@ + decimal(n as nat)) == Ok::<RuntimeFlavour, Seq<char>>(
            RuntimeFlavour::MultiThreaded(n),
        ),
{
    reveal_strlit("multi-threaded:");
    reveal_strlit("multi-threaded");
    let s = "multi-threaded:"@ + decimal(n as nat);
    assert(s[14] == ':');
    assert(s.contains(':'));
    assert forall|k: int| 0 <= k < 14 implies s[k] != ':' by {}
    crate::cli::lemma_first_colon(s, 14);
    assert(s.take(14) =~= "multi-threaded"@);
    assert(s.skip(15) =~= decimal(n as nat));
    lemma_parse_decimal(n);
}

/// A test application reads back from a key file the key it made the file
/// from, for its validator key and its peer-to-peer key alike.
pub proof fn law_app_key_file_round_trip(private_key: PrivateKey)
    ensures
        app_key_in_file(app_key_file(private_key)) == private_key,
{
}

/// The genesis an application loads from its validator set holds that very
/// validator set.
pub proof fn law_genesis_round_trip(validators: Seq<Validator>)
    ensures
        validators_of(pairs_of(validators)) == validators,
{
    assert(validators_of(pairs_of(validators)) =~= validators);
}

/// Where each endpoint of a generated local configuration listens, and
/// which settings it carries: node `index` listens on the loopback host over
/// the requested transport, for consensus on port 27000 + `index`, for the
/// mempool on 28000 + `index` and for metrics on 29000 + `index`; it is
/// named `starknet-<index>`; its consensus discovery is exactly the one
/// requested and its mempool discovery is the same but turned off; its
/// runtime is the one requested; every peer it names is on the loopback
/// host over the same transport.
pub proof fn law_local_endpoints(
    index: int,
    total: int,
    settings: MakeConfigSettings,
    c: ConfigView,
)
    requires
        is_generated_config(index, total, settings, c),
    ensures
        c.moniker == "starknet-"@ + decimal(index as nat),
        c.consensus.p2p.listen_addr == (MultiaddrView {
            transport: settings.transport,
            host: "127.0.0.1"@,
            port: 27000 + index,
        }),
        c.mempool.p2p.listen_addr == (MultiaddrView {
            transport: settings.transport,
            host: "127.0.0.1"@,
            port: 28000 + index,
        }),
        c.metrics.listen_addr.host == "127.0.0.1"@,
        c.metrics.listen_addr.port == 29000 + index,
        c.consensus.p2p.discovery == settings.discovery,
        c.consensus.p2p.discovery.num_outbound_peers == settings.discovery.num_outbound_peers,
        c.consensus.p2p.discovery.num_inbound_peers == settings.discovery.num_inbound_peers,
        !c.mempool.p2p.discovery.enabled,
        c.mempool.p2p.discovery.bootstrap_protocol == settings.discovery.bootstrap_protocol,
        c.mempool.p2p.discovery.selector == settings.discovery.selector,
        c.mempool.p2p.discovery.num_outbound_peers == settings.discovery.num_outbound_peers,
        c.mempool.p2p.discovery.num_inbound_peers == settings.discovery.num_inbound_peers,
        c.mempool.p2p.discovery.max_connections_per_peer == settings.discovery.max_connections_per_peer,
        c.mempool.p2p.discovery.ephemeral_connection_timeout_ms
            == settings.discovery.ephemeral_connection_timeout_ms,
        c.runtime == settings.runtime,
        forall|k: int|
            0 <= k < c.consensus.p2p.persistent_peers.len() ==> (#[trigger] c.consensus.p2p.persistent_peers[k]).transport
                == settings.transport && c.consensus.p2p.persistent_peers[k].host == "127.0.0.1"@,
        forall|k: int|
            0 <= k < c.mempool.p2p.persistent_peers.len() ==> (#[trigger] c.mempool.p2p.persistent_peers[k]).transport
                == settings.transport && c.mempool.p2p.persistent_peers[k].host == "127.0.0.1"@,
{
    if settings.discovery.enabled {
        let p = choose|p: Seq<int>|
            is_discovery_choice(index, total, p) && c == node_config(index, total, settings, p);
    }
}

/// Every generated local configuration names, as mempool peer, the mempool
/// listen address of every other node and never its own; without discovery
/// it names, as consensus peer, the consensus listen address of every
/// other node and never its own, one address per other node.
pub proof fn law_generated_full_mesh(
    i: int,
    j: int,
    total: int,
    settings: MakeConfigSettings,
    ci: ConfigView,
    cj: ConfigView,
)
    requires
        0 <= i < total,
        0 <= j < total,
        is_generated_config(i, total, settings, ci),
        is_generated_config(j, total, settings, cj),
    ensures
        ci.mempool.p2p.persistent_peers.contains(cj.mempool.p2p.listen_addr) <==> i != j,
        ci.mempool.p2p.persistent_peers.len() == total - 1,
        !settings.discovery.enabled ==> (ci.consensus.p2p.persistent_peers.contains(
            cj.consensus.p2p.listen_addr,
        ) <==> i != j),
        !settings.discovery.enabled ==> ci.consensus.p2p.persistent_peers.len() == total - 1,
{
    lemma_other_nodes(i, total as nat);
    let others = other_nodes(i, total as nat);
    let pi = if settings.discovery.enabled {
        choose|p: Seq<int>| is_discovery_choice(i, total, p) && ci == node_config(i, total, settings, p)
    } else {
        others
    };
    let pj = if settings.discovery.enabled {
        choose|p: Seq<int>| is_discovery_choice(j, total, p) && cj == node_config(j, total, settings, p)
    } else {
        other_nodes(j, total as nat)
    };
    assert(ci == node_config(i, total, settings, pi));
    assert(cj == node_config(j, total, settings, pj));
    if i != j {
        assert(others.contains(j));
        let k = choose|k: int| 0 <= k < others.len() && others[k] == j;
        assert(ci.mempool.p2p.persistent_peers[k] == cj.mempool.p2p.listen_addr);
        if !settings.discovery.enabled {
            assert(ci.consensus.p2p.persistent_peers[k] == cj.consensus.p2p.listen_addr);
        }
    } else {
        if ci.mempool.p2p.persistent_peers.contains(cj.mempool.p2p.listen_addr) {
            let k = choose|k: int|
                0 <= k < ci.mempool.p2p.persistent_peers.len()
                    && ci.mempool.p2p.persistent_peers[k] == cj.mempool.p2p.listen_addr;
            assert(others.contains(others[k]));
        }
        if !settings.discovery.enabled && ci.consensus.p2p.persistent_peers.contains(cj.consensus.p2p.listen_addr) {
            let k = choose|k: int|
                0 <= k < ci.consensus.p2p.persistent_peers.len()
                    && ci.consensus.p2p.persistent_peers[k] == cj.consensus.p2p.listen_addr;
            assert(others.contains(others[k]));
        }
    }
}

/// Where each endpoint of a generated test-application configuration
/// listens, and which settings it carries: node `index` is named
/// `test-<index>`, listens for consensus on the loopback host at 27000 +
/// `index` over the requested transport and for metrics at 29000 +
/// `index`; its discovery and runtime are the ones requested; every peer it
/// names is on the loopback host over the same transport.
pub proof fn law_test_app_endpoints(
    index: int,
    total: int,
    settings: MakeConfigSettings,
    c: TestConfigView,
)
    requires
        is_generated_test_config(index, total, settings, c),
    ensures
        c.moniker == "test-"@ + decimal(index as nat),
        c.consensus.p2p.listen_addr == (MultiaddrView {
            transport: settings.transport,
            host: "127.0.0.1"@,
            port: 27000 + index,
        }),
        c.metrics.listen_addr.host == "127.0.0.1"@,
        c.metrics.listen_addr.port == 29000 + index,
        c.consensus.p2p.discovery == settings.discovery,
        c.runtime == settings.runtime,
        forall|k: int|
            0 <= k < c.consensus.p2p.persistent_peers.len() ==> (#[trigger] c.consensus.p2p.persistent_peers[k]).transport
                == settings.transport && c.consensus.p2p.persistent_peers[k].host == "127.0.0.1"@,
{
    if settings.discovery.enabled {
        let p = choose|p: Seq<int>|
            is_discovery_choice(index, total, p) && c == test_node_config(index, total, settings, p);
    }
}

/// A local test-application testnet without discovery is a full mesh:
/// node `i` names the consensus listen address of node `j` as a peer
/// exactly when `j` is another node, one address per other node; with
/// discovery each peer is the listen address of another node, named once,
/// between one and half of the nodes of them.
pub proof fn law_test_app_full_mesh(
    i: int,
    j: int,
    total: int,
    settings: MakeConfigSettings,
    ci: TestConfigView,
    cj: TestConfigView,
)
    requires
        0 <= i < total,
        0 <= j < total,
        is_generated_test_config(i, total, settings, ci),
        is_generated_test_config(j, total, settings, cj),
    ensures
        !settings.discovery.enabled ==> (ci.consensus.p2p.persistent_peers.contains(
            cj.consensus.p2p.listen_addr,
        ) <==> i != j),
        !settings.discovery.enabled ==> ci.consensus.p2p.persistent_peers.len() == total - 1,
        settings.discovery.enabled ==> {
            &&& ci.consensus.p2p.persistent_peers.no_duplicates()
            &&& total > 1 ==> 1 <= ci.consensus.p2p.persistent_peers.len() <= total / 2
            &&& !ci.consensus.p2p.persistent_peers.contains(ci.consensus.p2p.listen_addr)
            &&& forall|k: int|
                0 <= k < ci.consensus.p2p.persistent_peers.len() ==> {
                    let a = #[trigger] ci.consensus.p2p.persistent_peers[k];
                    &&& 27000 <= a.port < 27000 + total
                    &&& a == (MultiaddrView { transport: settings.transport, host: "127.0.0.1"@, port: a.port })
                }
        },
{
    lemma_other_nodes(i, total as nat);
    let others = other_nodes(i, total as nat);
    let pi = if settings.discovery.enabled {
        choose|p: Seq<int>| is_discovery_choice(i, total, p) && ci == test_node_config(i, total, settings, p)
    } else {
        others
    };
    let pj = if settings.discovery.enabled {
        choose|p: Seq<int>| is_discovery_choice(j, total, p) && cj == test_node_config(j, total, settings, p)
    } else {
        other_nodes(j, total as nat)
    };
    assert(ci == test_node_config(i, total, settings, pi));
    assert(cj == test_node_config(j, total, settings, pj));
    let peers = ci.consensus.p2p.persistent_peers;
    if settings.discovery.enabled {
        assert forall|a: int, b: int| 0 <= a < peers.len() && 0 <= b < peers.len() && a != b implies peers[a]
            != peers[b] by {
            assert(pi[a] != pi[b]);
        }
        if peers.contains(ci.consensus.p2p.listen_addr) {
            let k = choose|k: int| 0 <= k < peers.len() && peers[k] == ci.consensus.p2p.listen_addr;
            assert(pi[k] != i);
        }
    } else if i != j {
        assert(others.contains(j));
        let k = choose|k: int| 0 <= k < others.len() && others[k] == j;
        assert(peers[k] == cj.consensus.p2p.listen_addr);
    } else if peers.contains(cj.consensus.p2p.listen_addr) {
        let k = choose|k: int| 0 <= k < peers.len() && peers[k] == cj.consensus.p2p.listen_addr;
        assert(others.contains(others[k]));
    }
}

/// Where each endpoint of a node of a distributed testnet listens, and
/// which settings it carries: node `index` runs on machine `index % m`
/// over the requested transport, with consensus at 27000, the mempool at
/// 28000 and metrics at 29000, each plus its rank `index / m` on that
/// machine; the mempool has no peers and discovery off, value sync is
/// turned off with the rest of its settings as requested, and discovery
/// and runtime are the ones requested.
pub proof fn law_distributed_endpoints(
    index: int,
    total: int,
    machines: Seq<Seq<char>>,
    bootstrap_set_size: int,
    settings: MakeConfigSettings,
)
    requires
        0 <= index,
        machines.len() > 0,
    ensures
        ({
            let c = distributed_config(index, total, machines, bootstrap_set_size, settings);
            let m = machines.len() as int;
            &&& c.moniker == "starknet-"@ + decimal(index as nat)
            &&& c.consensus.p2p.listen_addr == (MultiaddrView {
                transport: settings.transport,
                host: machines[index % m],
                port: 27000 + index / m,
            })
            &&& c.mempool.p2p.listen_addr == (MultiaddrView {
                transport: settings.transport,
                host: machines[index % m],
                port: 28000 + index / m,
            })
            &&& c.metrics.listen_addr.host == machines[index % m]
            &&& c.metrics.listen_addr.port == 29000 + index / m
            &&& c.mempool.p2p.persistent_peers.len() == 0
            &&& !c.mempool.p2p.discovery.enabled
            &&& c.consensus.p2p.discovery == settings.discovery
            &&& !c.value_sync.enabled
            &&& c.value_sync.parallel_requests == settings.value_sync.parallel_requests
            &&& c.value_sync.batch_size == settings.value_sync.batch_size
            &&& c.value_sync.request_timeout_ms == settings.value_sync.request_timeout_ms
            &&& c.value_sync.status_update_interval_ms == settings.value_sync.status_update_interval_ms
            &&& c.runtime == settings.runtime
        }),
{
}

/// In a distributed testnet over distinct machines, no two nodes share a
/// mempool listen address or a metrics listen address.
pub proof fn law_distributed_endpoints_distinct(
    i: int,
    j: int,
    total: int,
    machines: Seq<Seq<char>>,
    bootstrap_set_size: int,
    settings: MakeConfigSettings,
)
    requires
        0 <= i,
        0 <= j,
        i != j,
        machines.len() > 0,
        machines.no_duplicates(),
    ensures
        ({
            let a = distributed_config(i, total, machines, bootstrap_set_size, settings);
            let b = distributed_config(j, total, machines, bootstrap_set_size, settings);
            &&& a.mempool.p2p.listen_addr != b.mempool.p2p.listen_addr
            &&& a.metrics.listen_addr != b.metrics.listen_addr
        }),
{
    law_distributed_endpoints(i, total, machines, bootstrap_set_size, settings);
    law_distributed_endpoints(j, total, machines, bootstrap_set_size, settings);
    let m = machines.len() as int;
    if i % m == j % m && i / m == j / m {
        vstd::arithmetic::div_mod::lemma_fundamental_div_mod(i, m);
        vstd::arithmetic::div_mod::lemma_fundamental_div_mod(j, m);
    }
}

/// The genesis made from (public key, voting power) pairs has one
/// validator per pair, in order, each with its own key and the voting
/// power paired with it.
pub proof fn law_genesis_validators(pairs: Seq<(PublicKey, VotingPower)>)
    ensures
        validators_of(pairs).len() == pairs.len(),
        forall|k: int|
            0 <= k < pairs.len() ==> (#[trigger] validators_of(pairs)[k]).public_key == pairs[k].0
                && validators_of(pairs)[k].voting_power == pairs[k].1,
{
}

/// The pairs an application reads off its validator set are, in order,
/// each validator's own key with its own voting power.
pub proof fn law_validator_pairs(validators: Seq<Validator>)
    ensures
        pairs_of(validators).len() == validators.len(),
        forall|k: int|
            0 <= k < validators.len() ==> (#[trigger] pairs_of(validators)[k]).0
                == validators[k].public_key && pairs_of(validators)[k].1 == validators[k].voting_power,
{
}

/// With discovery, every consensus peer of a generated local configuration
/// is the consensus listen address of another node of the testnet (on the
/// loopback host, at a port below 27000 + `total`, not the node's own), no
/// address is named twice, and there are between one and half of the nodes
/// of them (none for a node alone).
pub proof fn law_generated_discovery_peers(
    index: int,
    total: int,
    settings: MakeConfigSettings,
    c: ConfigView,
)
    requires
        0 <= index < total,
        settings.discovery.enabled,
        is_generated_config(index, total, settings, c),
    ensures
        c.consensus.p2p.persistent_peers.no_duplicates(),
        total > 1 ==> 1 <= c.consensus.p2p.persistent_peers.len() <= total / 2,
        total <= 1 ==> c.consensus.p2p.persistent_peers.len() == 0,
        !c.consensus.p2p.persistent_peers.contains(c.consensus.p2p.listen_addr),
        forall|k: int|
            0 <= k < c.consensus.p2p.persistent_peers.len() ==> {
                let a = #[trigger] c.consensus.p2p.persistent_peers[k];
                &&& 27000 <= a.port < 27000 + total
                &&& a == (MultiaddrView { transport: settings.transport, host: "127.0.0.1"@, port: a.port })
            },
{
    let p = choose|p: Seq<int>|
        is_discovery_choice(index, total, p) && c == node_config(index, total, settings, p);
    let peers = c.consensus.p2p.persistent_peers;
    assert forall|a: int, b: int| 0 <= a < peers.len() && 0 <= b < peers.len() && a != b implies peers[a]
        != peers[b] by {
        assert(p[a] != p[b]);
    }
    if peers.contains(c.consensus.p2p.listen_addr) {
        let k = choose|k: int| 0 <= k < peers.len() && peers[k] == c.consensus.p2p.listen_addr;
        assert(p[k] != index);
    }
}

/// Where the home folder and its files are: with a `home` option `h` (not
/// empty, not ending in `/`) the home is `h`, the configuration folder
/// `h/config`, and the files `config.toml`, `genesis.json`,
/// `priv_validator_key.json` and `p2p_key.json` in it; without one, the home
/// is `.malachite` under the user's home directory `u` (likewise not empty
/// and not ending in `/`), and without a user home directory there is no
/// home and every lookup fails with `DirPath`.
pub proof fn law_home_layout(home: Option<String>, user_home: Option<Seq<char>>)
    ensures
        home is Some && home->Some_0@.len() > 0 && home->Some_0@.last() != '/' ==> {
            &&& path_lookup(home, user_home, HomePath::Home) == Ok::<Seq<char>, Error>(home->Some_0@)
            &&& path_lookup(home, user_home, HomePath::ConfigDir) == Ok::<Seq<char>, Error>(home->Some_0@ + "/config"@)
            &&& path_lookup(home, user_home, HomePath::ConfigFile) == Ok::<Seq<char>, Error>(
                home->Some_0@ + "/config/config.toml"@,
            )
            &&& path_lookup(home, user_home, HomePath::GenesisFile) == Ok::<Seq<char>, Error>(
                home->Some_0@ + "/config/genesis.json"@,
            )
            &&& path_lookup(home, user_home, HomePath::PrivValidatorKeyFile) == Ok::<Seq<char>, Error>(
                home->Some_0@ + "/config/priv_validator_key.json"@,
            )
            &&& path_lookup(home, user_home, HomePath::P2pKeyFile) == Ok::<Seq<char>, Error>(
                home->Some_0@ + "/config/p2p_key.json"@,
            )
        },
        home is None && (user_home is Some && user_home->Some_0.len() > 0 && user_home->Some_0.last() != '/') ==> path_lookup(
            home,
            user_home,
            HomePath::Home,
        ) == Ok::<Seq<char>, Error>(user_home->Some_0 + "/.malachite"@),
        home is None && user_home is None ==> forall|kind: HomePath|
            #[trigger] path_lookup(home, user_home, kind) == Err::<Seq<char>, Error>(Error::DirPath),
{
    reveal_strlit("/");
    reveal_strlit("config");
    reveal_strlit("/config");
    reveal_strlit("config.toml");
    reveal_strlit("genesis.json");
    reveal_strlit("priv_validator_key.json");
    reveal_strlit("p2p_key.json");
    reveal_strlit("/config/config.toml");
    reveal_strlit("/config/genesis.json");
    reveal_strlit("/config/priv_validator_key.json");
    reveal_strlit("/config/p2p_key.json");
    reveal_strlit(".malachite");
    reveal_strlit("/.malachite");
    if home is Some {
        let h = home->Some_0@;
        if h.len() > 0 && h.last() != '/' {
            let d = h + "/"@ + "config"@;
            assert(d =~= h + "/config"@);
            assert(d.last() == 'g');
            assert(d + "/"@ + "config.toml"@ =~= h + "/config/config.toml"@);
            assert(d + "/"@ + "genesis.json"@ =~= h + "/config/genesis.json"@);
            assert(d + "/"@ + "priv_validator_key.json"@ =~= h + "/config/priv_validator_key.json"@);
            assert(d + "/"@ + "p2p_key.json"@ =~= h + "/config/p2p_key.json"@);
        }
    } else if user_home is Some {
        let u = user_home->Some_0;
        if u.len() > 0 && u.last() != '/' {
            assert(u + "/"@ + ".malachite"@ =~= u + "/.malachite"@);
        }
    }
}

/// Where a testnet node's files go: under a home folder `home` (not empty,
/// not ending in `/`) node `i` lives in `home/<i>` and its files are in
/// that folder's `config` folder; two different nodes never share a folder
/// or a file.
pub proof fn law_node_files(
    home: Seq<char>,
    i: int,
    j: int,
    ni: NodeSetup,
    nj: NodeSetup,
)
    requires
        0 <= i,
        0 <= j,
        home.len() > 0,
        home.last() != '/',
        has_node_files(ni, i, home),
        has_node_files(nj, j, home),
    ensures
        ni.index == i,
        ni.home_dir@ == home + "/"@ + decimal(i as nat),
        ni.config_file@ == ni.home_dir@ + "/config/config.toml"@,
        ni.genesis_file@ == ni.home_dir@ + "/config/genesis.json"@,
        ni.priv_validator_key_file@ == ni.home_dir@ + "/config/priv_validator_key.json"@,
        ni.p2p_key_file@ == ni.home_dir@ + "/config/p2p_key.json"@,
        i != j ==> {
            &&& ni.home_dir@ != nj.home_dir@
            &&& ni.config_file@ != nj.config_file@
            &&& ni.genesis_file@ != nj.genesis_file@
            &&& ni.priv_validator_key_file@ != nj.priv_validator_key_file@
            &&& ni.p2p_key_file@ != nj.p2p_key_file@
        },
{
    reveal_strlit("/");
    reveal_strlit("config");
    reveal_strlit("config.toml");
    reveal_strlit("genesis.json");
    reveal_strlit("priv_validator_key.json");
    reveal_strlit("p2p_key.json");
    reveal_strlit("/config/config.toml");
    reveal_strlit("/config/genesis.json");
    reveal_strlit("/config/priv_validator_key.json");
    reveal_strlit("/config/p2p_key.json");
    lemma_decimal(i as nat);
    let h = ni.home_dir@;
    assert(h == home + "/"@ + decimal(i as nat));
    assert(h.last() == decimal(i as nat).last());
    assert(h.last() != '/') by {
        assert(crate::text::is_digit(decimal(i as nat)[decimal(i as nat).len() - 1]));
    }
    let d = h + "/"@ + "config"@;
    assert(d.last() == 'g');
    assert(d + "/"@ + "config.toml"@ =~= h + "/config/config.toml"@);
    assert(d + "/"@ + "genesis.json"@ =~= h + "/config/genesis.json"@);
    assert(d + "/"@ + "priv_validator_key.json"@ =~= h + "/config/priv_validator_key.json"@);
    assert(d + "/"@ + "p2p_key.json"@ =~= h + "/config/p2p_key.json"@);
    if i != j {
        law_testnet_files_distinct(home, i as nat, j as nat);
    }
}

/// A runtime flavour of `single-threaded` asks for the single-threaded
/// runtime; any text that names no flavour (no colon, and neither
/// `single-threaded` nor `multi-threaded`) is refused with the message
/// `Invalid runtime flavour: ` followed by the text, and `multi-threaded:`
/// followed by something that is not a number is refused with `Invalid
/// number of threads`.
pub proof fn law_flavour_text(s: Seq<char>)
    ensures
        parse_flavour("single-threaded"@) == Ok::<RuntimeFlavour, Seq<char>>(
            RuntimeFlavour::SingleThreaded,
        ),
        !s.contains(':') && s != "single-threaded"@ && s != "multi-threaded"@ ==> parse_flavour(s)
            == Err::<RuntimeFlavour, Seq<char>>("Invalid runtime flavour: "@ + s),
        parse_usize_text(s) is None ==> parse_flavour("multi-threaded:"@ + s) == Err::<
            RuntimeFlavour,
            Seq<char>,
        >("Invalid number of threads"@),
{
    reveal_strlit("single-threaded");
    reveal_strlit("multi-threaded:");
    reveal_strlit("multi-threaded");
    assert(!"single-threaded"@.contains(':')) by {
        assert forall|k: int| 0 <= k < 15 implies "single-threaded"@[k] != ':' by {}
    }
    let t = "multi-threaded:"@ + s;
    assert(t[14] == ':');
    assert(t.contains(':'));
    assert forall|k: int| 0 <= k < 14 implies t[k] != ':' by {}
    crate::cli::lemma_first_colon(t, 14);
    assert(t.take(14) =~= "multi-threaded"@);
    assert(t.skip(15) =~= s);
}

/// Numbers are read back from their decimal form with or without a leading
/// `+`, and a decimal form never starts with a zero unless it is `0`.
pub proof fn law_decimal_text(n: usize)
    ensures
        parse_usize_text(decimal(n as nat)) == Some(n as nat),
        parse_usize_text("+"@ + decimal(n as nat)) == Some(n as nat),
        n > 0 ==> decimal(n as nat)[0] != '0',
{
    reveal_strlit("+");
    lemma_parse_decimal(n);
    lemma_decimal(n as nat);
    let t = "+"@ + decimal(n as nat);
    assert(t.skip(1) =~= decimal(n as nat));
    lemma_decimal_leading(n as nat);
}

proof fn lemma_decimal_leading(n: nat)
    ensures
        n > 0 ==> decimal(n)[0] != '0',
    decreases n,
{
    if n >= 10 {
        lemma_decimal_leading(n / 10);
        lemma_decimal(n / 10);
        assert(decimal(n)[0] == decimal(n / 10)[0]);
    }
}

/// A test application's key file holds the key itself, and reading a key
/// file gives back what it holds.
pub proof fn law_app_key_file_holds_key(private_key: PrivateKey)
    ensures
        app_key_file(private_key) == private_key,
        app_key_in_file(private_key) == private_key,
{
}

/// The default settings: single-threaded runtime, TCP, discovery off, and
/// value sync on.
pub proof fn law_default_settings()
    ensures
        default_settings().runtime == RuntimeConfig::SingleThreaded,
        default_settings().transport == TransportProtocol::Tcp,
        !default_settings().discovery.enabled,
        default_settings().value_sync.enabled,
        default_settings().discovery == default_discovery(),
{
}

} // verus!
