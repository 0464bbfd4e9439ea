//! The command line of the node: where its files live, the runtime flavour
//! option, and what the `testnet` command generates.
use crate::config::{
    default_value_sync, BootstrapProtocol, DiscoveryConfig, MakeConfigSettings, RuntimeConfig,
    Selector, TransportProtocol, ValueSyncConfig,
};
use crate::starknet::{
    config_dir_of, config_path, distributed_config, distributed_peers, genesis_path, hosts_view,
    is_generated_config, make_config, make_distributed_config, p2p_key_path, private_key_path,
    Config, MAX_PORT, METRICS_BASE_PORT,
};
use crate::text::{
    decimal, is_ipv4, is_ipv4_text, join, join_path, parse_usize, parse_usize_text,
    push_decimal, same_text,
};
use vstd::prelude::*;

verus! {

/// Errors of the command line.
#[derive(Clone, Copy, Debug, PartialEq, Eq, Structural)]
pub enum Error {
    /// The user's home directory could not be found.
    DirPath,
}

/// The command-line options that locate the node's files.
#[derive(Debug)]
pub struct Args {
    /// The home directory (default: `~/.malachite`).
    pub home: Option<String>,
}

/// The user's home directory, as the `directories` crate finds it
/// (`BaseDirs::new`, then `home_dir`), converted to text. It depends on the
/// environment and the user database, so nothing is stated of it. Paths
/// are held as text here: a home directory whose name is not UTF-8 comes
/// back with its invalid bytes replaced by U+FFFD.
#[verifier::external_body]
fn user_home_dir() -> (r: Option<String>) {
    match directories::BaseDirs::new() {
        Some(dirs) => Some(dirs.home_dir().to_string_lossy().into_owned()),
        None => None,
    }
}

/// The home directory that `home` and the user's home directory give: the
/// given one, else `.malachite` under the user's home, else an error.
pub open spec fn home_dir_spec(home: Option<Seq<char>>, user_home: Option<Seq<char>>) -> Result<
    Seq<char>,
    Error,
> {
    match home {
        Some(h) => Ok(h),
        None => match user_home {
            Some(u) => Ok(join_path(u, ".malachite"@)),
            None => Err(Error::DirPath),
        },
    }
}

/// The text of an optional string.
pub open spec fn opt_view(o: Option<String>) -> Option<Seq<char>> {
    match o {
        Some(s) => Some(s@),
        None => None,
    }
}

/// The files and folders located under the home folder.
#[derive(Clone, Copy, Debug, PartialEq, Eq, Structural)]
pub enum HomePath {
    Home,
    ConfigDir,
    ConfigFile,
    GenesisFile,
    PrivValidatorKeyFile,
    P2pKeyFile,
}

/// Where `kind` is under the home folder `h`.
pub open spec fn path_in_home(kind: HomePath, h: Seq<char>) -> Seq<char> {
    match kind {
        HomePath::Home => h,
        HomePath::ConfigDir => config_dir_of(h),
        HomePath::ConfigFile => config_path(h),
        HomePath::GenesisFile => genesis_path(h),
        HomePath::PrivValidatorKeyFile => private_key_path(h),
        HomePath::P2pKeyFile => p2p_key_path(h),
    }
}

/// Where `kind` is for the `home` option when the user's home directory is
/// `user_home`, or the error when no home folder is found.
pub open spec fn path_lookup(home: Option<String>, user_home: Option<Seq<char>>, kind: HomePath) -> Result<
    Seq<char>,
    Error,
> {
    match home_dir_spec(opt_view(home), user_home) {
        Ok(h) => Ok(path_in_home(kind, h)),
        Err(e) => Err(e),
    }
}

/// Whether a returned path or error is the one `expected`.
pub open spec fn same_result(r: Result<String, Error>, expected: Result<Seq<char>, Error>) -> bool {
    match (r, expected) {
        (Ok(p), Ok(q)) => p@ == q,
        (Err(a), Err(b)) => a == b,
        _ => false,
    }
}

/// Whether `r` is what a getter of `kind` returns: the path for some user
/// home directory (the one found when the call looked it up), or the
/// error; exactly the path under the `home` option when one is given.
pub open spec fn is_home_path_result(home: Option<String>, kind: HomePath, r: Result<String, Error>) -> bool {
    &&& home is Some ==> r is Ok
    &&& exists|u: Option<Seq<char>>| #[trigger] same_result(r, path_lookup(home, u, kind))
}

impl Args {
    /// The home directory given `user_home` as the user's home directory.
    pub fn home_dir_with(&self, user_home: Option<String>) -> (r: Result<String, Error>)
        ensures
            same_result(r, path_lookup(self.home, opt_view(user_home), HomePath::Home)),
    {
        match &self.home {
            Some(path) => Ok(path.clone()),
            None => match user_home {
                Some(u) => {
                    let r = join(u.as_str(), ".malachite");
                    proof { reveal_strlit(".malachite"); }
                    Ok(r)
                },
                None => Err(Error::DirPath),
            },
        }
    }

    /// The application home folder: the `home` option, else `.malachite`
    /// under the user's home directory.
    pub fn get_home_dir(&self) -> (r: Result<String, Error>)
        ensures
            is_home_path_result(self.home, HomePath::Home, r),
    {
        let user_home = if self.home.is_some() { None } else { user_home_dir() };
        self.home_dir_with(user_home)
    }

    /// The path of `name` under the folder `dir` that a getter of `kind`
    /// found, where `kind` is `name` under the folder of `dir_kind`.
    fn join_found(
        &self,
        dir: Result<String, Error>,
        dir_kind: HomePath,
        name: &str,
        kind: HomePath,
    ) -> (r: Result<String, Error>)
        requires
            is_home_path_result(self.home, dir_kind, dir),
            forall|h: Seq<char>| #[trigger] path_in_home(kind, h) == join_path(path_in_home(dir_kind, h), name@),
        ensures
            is_home_path_result(self.home, kind, r),
    {
        let ghost u = choose|u: Option<Seq<char>>| #[trigger] same_result(dir, path_lookup(self.home, u, dir_kind));
        match dir {
            Ok(d) => {
                let r = join(d.as_str(), name);
                assert(same_result(Ok::<String, Error>(r), path_lookup(self.home, u, kind)));
                Ok(r)
            },
            Err(e) => {
                assert(same_result(Err::<String, Error>(e), path_lookup(self.home, u, kind)));
                Err(e)
            },
        }
    }

    /// The configuration folder, `config` under the home folder.
    pub fn get_config_dir(&self) -> (r: Result<String, Error>)
        ensures
            is_home_path_result(self.home, HomePath::ConfigDir, r),
    {
        proof { reveal_strlit("config"); }
        self.join_found(self.get_home_dir(), HomePath::Home, "config", HomePath::ConfigDir)
    }

    /// The configuration file, `config.toml` in the configuration folder.
    pub fn get_config_file_path(&self) -> (r: Result<String, Error>)
        ensures
            is_home_path_result(self.home, HomePath::ConfigFile, r),
    {
        proof { reveal_strlit("config.toml"); }
        self.join_found(self.get_config_dir(), HomePath::ConfigDir, "config.toml", HomePath::ConfigFile)
    }

    /// The genesis file, `genesis.json` in the configuration folder.
    pub fn get_genesis_file_path(&self) -> (r: Result<String, Error>)
        ensures
            is_home_path_result(self.home, HomePath::GenesisFile, r),
    {
        proof { reveal_strlit("genesis.json"); }
        self.join_found(self.get_config_dir(), HomePath::ConfigDir, "genesis.json", HomePath::GenesisFile)
    }

    /// The validator key file, `priv_validator_key.json` in the configuration folder.
    pub fn get_priv_validator_key_file_path(&self) -> (r: Result<String, Error>)
        ensures
            is_home_path_result(self.home, HomePath::PrivValidatorKeyFile, r),
    {
        proof { reveal_strlit("priv_validator_key.json"); }
        self.join_found(
            self.get_config_dir(),
            HomePath::ConfigDir,
            "priv_validator_key.json",
            HomePath::PrivValidatorKeyFile,
        )
    }

    /// The peer-to-peer key file, `p2p_key.json` in the configuration folder.
    pub fn get_p2p_key_file_path(&self) -> (r: Result<String, Error>)
        ensures
            is_home_path_result(self.home, HomePath::P2pKeyFile, r),
    {
        proof { reveal_strlit("p2p_key.json"); }
        self.join_found(self.get_config_dir(), HomePath::ConfigDir, "p2p_key.json", HomePath::P2pKeyFile)
    }
}

/// The flavour of async runtime chosen on the command line.
#[derive(Clone, Copy, Debug, PartialEq, Eq, Structural)]
pub enum RuntimeFlavour {
    SingleThreaded,
    /// A multi-threaded runtime with this many worker threads (0: one per core).
    MultiThreaded(usize),
}

/// The position of the first `:` in `s`, or its length when there is none.
pub open spec fn first_colon(s: Seq<char>) -> int
    decreases s.len(),
{
    if s.len() == 0 {
        0
    } else if s[0] == ':' {
        0
    } else {
        1 + first_colon(s.skip(1))
    }
}

/// The message for an unknown runtime flavour.
pub open spec fn invalid_flavour_message(s: Seq<char>) -> Seq<char> {
    "Invalid runtime flavour: "@ + s
}

/// How a runtime flavour is read: `single-threaded`, `multi-threaded`
/// (with as many workers as cores, written 0), or `multi-threaded:N` with N
/// worker threads; anything else is refused with a message.
pub open spec fn parse_flavour(s: Seq<char>) -> Result<RuntimeFlavour, Seq<char>> {
    if s.contains(':') {
        let p = first_colon(s);
        if s.take(p) == "multi-threaded"@ {
            match parse_usize_text(s.skip(p + 1)) {
                Some(n) => Ok(RuntimeFlavour::MultiThreaded(n as usize)),
                None => Err("Invalid number of threads"@),
            }
        } else {
            Err(invalid_flavour_message(s))
        }
    } else if s == "single-threaded"@ {
        Ok(RuntimeFlavour::SingleThreaded)
    } else if s == "multi-threaded"@ {
        Ok(RuntimeFlavour::MultiThreaded(0))
    } else {
        Err(invalid_flavour_message(s))
    }
}

/// The first colon of `s` is at `i` when `s[i]` is one and none comes before.
pub proof fn lemma_first_colon(s: Seq<char>, i: int)
    requires
        0 <= i <= s.len(),
        i < s.len() ==> s[i] == ':',
        forall|k: int| 0 <= k < i ==> s[k] != ':',
    ensures
        first_colon(s) == i,
    decreases i,
{
    if i > 0 {
        lemma_first_colon(s.skip(1), i - 1);
    }
}

impl std::str::FromStr for RuntimeFlavour {
    type Err = String;

    /// Reads a runtime flavour (see [`parse_flavour`]).
    fn from_str(s: &str) -> (r: Result<RuntimeFlavour, String>)
        ensures
            match r {
                Ok(f) => parse_flavour(s@) == Ok::<RuntimeFlavour, Seq<char>>(f),
                Err(e) => parse_flavour(s@) == Err::<RuntimeFlavour, Seq<char>>(e@),
            },
    {
        proof {
            reveal_strlit("multi-threaded");
            reveal_strlit("single-threaded");
            reveal_strlit("Invalid number of threads");
            reveal_strlit("Invalid runtime flavour: ");
        }
        let n = s.unicode_len();
        let mut i: usize = 0;
        while i < n && s.get_char(i) != ':'
            invariant
                i <= n,
                n == s@.len(),
                forall|k: int| 0 <= k < i ==> s@[k] != ':',
            decreases n - i,
        {
            i = i + 1;
        }
        proof {
            lemma_first_colon(s@, i as int);
        }
        if i < n {
            assert(s@.contains(':')) by {
                assert(s@[i as int] == ':');
            }
            let head = s.substring_char(0, i);
            assert(head@ =~= s@.take(i as int));
            if same_text(head, "multi-threaded") {
                let tail = s.substring_char(i + 1, n);
                assert(tail@ =~= s@.skip(i + 1));
                match parse_usize(tail) {
                    Some(count) => Ok(RuntimeFlavour::MultiThreaded(count)),
                    None => Err("Invalid number of threads".to_owned()),
                }
            } else {
                let mut e = "Invalid runtime flavour: ".to_owned();
                e.append(s);
                Err(e)
            }
        } else {
            assert(!s@.contains(':'));
            if same_text(s, "single-threaded") {
                Ok(RuntimeFlavour::SingleThreaded)
            } else if same_text(s, "multi-threaded") {
                Ok(RuntimeFlavour::MultiThreaded(0))
            } else {
                let mut e = "Invalid runtime flavour: ".to_owned();
                e.append(s);
                Err(e)
            }
        }
    }
}

/// The `testnet` command: generates the configuration of a local testnet.
#[derive(Clone, Copy, Debug, PartialEq, Eq, Structural)]
pub struct TestnetCmd {
    /// Number of validator nodes in the testnet.
    pub nodes: usize,
    /// Generate deterministic private keys for reproducibility.
    pub deterministic: bool,
    /// The flavour of async runtime to use.
    pub runtime: RuntimeFlavour,
    /// Enable peer discovery.
    pub enable_discovery: bool,
    /// The protocol used to bootstrap discovery.
    pub bootstrap_protocol: BootstrapProtocol,
    /// How persistent peers are selected.
    pub selector: Selector,
    /// Number of outbound peers.
    pub num_outbound_peers: usize,
    /// Number of inbound peers.
    pub num_inbound_peers: usize,
    /// Maximum number of connections per peer.
    pub max_connections_per_peer: usize,
    /// How long an ephemeral connection is kept alive, in milliseconds.
    pub ephemeral_connection_timeout_ms: u64,
    /// The transport for peer-to-peer traffic.
    pub transport: TransportProtocol,
}

/// The runtime that a flavour asks for.
pub open spec fn runtime_of(f: RuntimeFlavour) -> RuntimeConfig {
    match f {
        RuntimeFlavour::SingleThreaded => RuntimeConfig::SingleThreaded,
        RuntimeFlavour::MultiThreaded(n) => RuntimeConfig::MultiThreaded { worker_threads: n },
    }
}

/// The settings a `testnet` command asks for: its runtime, transport and
/// discovery options, with default value sync.
pub open spec fn testnet_settings(cmd: TestnetCmd) -> MakeConfigSettings {
    MakeConfigSettings {
        runtime: runtime_of(cmd.runtime),
        transport: cmd.transport,
        discovery: DiscoveryConfig {
            enabled: cmd.enable_discovery,
            bootstrap_protocol: cmd.bootstrap_protocol,
            selector: cmd.selector,
            num_outbound_peers: cmd.num_outbound_peers,
            num_inbound_peers: cmd.num_inbound_peers,
            max_connections_per_peer: cmd.max_connections_per_peer,
            ephemeral_connection_timeout_ms: cmd.ephemeral_connection_timeout_ms,
        },
        value_sync: default_value_sync(),
    }
}

/// The files and configuration of one node of a testnet.
#[derive(Debug)]
pub struct NodeSetup {
    /// The node's index in the testnet.
    pub index: usize,
    /// The node's home directory, `<home>/<index>`.
    pub home_dir: String,
    pub config_file: String,
    pub genesis_file: String,
    pub priv_validator_key_file: String,
    pub p2p_key_file: String,
    pub config: Config,
}

/// Whether `n` is the setup of node `i` of a testnet of `nodes` nodes under
/// `home` with `settings`.
pub open spec fn is_node_setup(
    n: NodeSetup,
    i: int,
    nodes: int,
    home: Seq<char>,
    settings: MakeConfigSettings,
) -> bool {
    &&& has_node_files(n, i, home)
    &&& is_generated_config(i, nodes, settings, n.config@)
}

/// Whether `n` places node `i` of a testnet under `home`: its home folder
/// is `<home>/<i>` and its files are in that folder's configuration folder.
pub open spec fn has_node_files(n: NodeSetup, i: int, home: Seq<char>) -> bool {
    let node_home = join_path(home, decimal(i as nat));
    &&& n.index == i
    &&& n.home_dir@ == node_home
    &&& n.config_file@ == config_path(node_home)
    &&& n.genesis_file@ == genesis_path(node_home)
    &&& n.priv_validator_key_file@ == private_key_path(node_home)
    &&& n.p2p_key_file@ == p2p_key_path(node_home)
}

/// The setup of node `index` of a testnet under `home_dir`, with `config`.
fn node_setup(index: usize, home_dir: &str, config: Config) -> (r: NodeSetup)
    ensures
        has_node_files(r, index as int, home_dir@),
        r.config == config,
{
    let mut name = String::new();
    push_decimal(&mut name, index);
    let node_home = join(home_dir, name.as_str());
    let args = Args { home: Some(node_home.clone()) };
    let config_file = args.get_config_file_path().unwrap();
    let genesis_file = args.get_genesis_file_path().unwrap();
    let priv_validator_key_file = args.get_priv_validator_key_file_path().unwrap();
    let p2p_key_file = args.get_p2p_key_file_path().unwrap();
    NodeSetup {
        index,
        home_dir: node_home,
        config_file,
        genesis_file,
        priv_validator_key_file,
        p2p_key_file,
        config,
    }
}

/// Whether `r` is the setup of a testnet of `nodes` nodes under `home` with
/// `settings`: one setup per node, node `i` at position `i`.
pub open spec fn is_testnet_plan(
    r: Seq<NodeSetup>,
    nodes: int,
    home: Seq<char>,
    settings: MakeConfigSettings,
) -> bool {
    &&& r.len() == nodes
    &&& forall|i: int| 0 <= i < nodes ==> is_node_setup(#[trigger] r[i], i, nodes, home, settings)
}

/// Whether a testnet of `nodes` nodes can be generated: the metrics port of
/// its last node must be a port.
pub open spec fn testnet_fits(nodes: int) -> bool {
    nodes <= 36536
}

/// The setup of every node of a testnet of `nodes` nodes under `home`, node
/// `i` in `<home>/<i>` with its configuration for node `i` of `nodes`.
/// Writing the files, and making the keys and the genesis that go in them,
/// is left to the caller.
pub fn testnet(nodes: usize, home_dir: &str, settings: MakeConfigSettings) -> (r: Vec<NodeSetup>)
    requires
        testnet_fits(nodes as int),
    ensures
        is_testnet_plan(r@, nodes as int, home_dir@, settings),
{
    let mut r: Vec<NodeSetup> = Vec::new();
    let mut i: usize = 0;
    while i < nodes
        invariant
            i <= nodes,
            testnet_fits(nodes as int),
            r.len() == i,
            forall|k: int|
                0 <= k < i ==> is_node_setup(#[trigger] r[k], k, nodes as int, home_dir@, settings),
        decreases nodes - i,
    {
        let setup = node_setup(i, home_dir, make_config(i, nodes, settings));
        assert(is_node_setup(setup, i as int, nodes as int, home_dir@, settings));
        r.push(setup);
        i = i + 1;
    }
    assert(is_testnet_plan(r@, nodes as int, home_dir@, settings)) by {
        assert forall|k: int| 0 <= k < nodes implies is_node_setup(#[trigger] r@[k], k, nodes as int, home_dir@, settings) by {
            assert(r@[k] == r[k]);
        }
    }
    r
}

impl TestnetCmd {
    /// The settings this command asks for.
    pub fn settings(&self) -> (r: MakeConfigSettings)
        ensures
            r == testnet_settings(*self),
    {
        let runtime = match self.runtime {
            RuntimeFlavour::SingleThreaded => RuntimeConfig::SingleThreaded,
            RuntimeFlavour::MultiThreaded(n) => RuntimeConfig::MultiThreaded { worker_threads: n },
        };
        MakeConfigSettings {
            runtime,
            transport: self.transport,
            discovery: DiscoveryConfig {
                enabled: self.enable_discovery,
                bootstrap_protocol: self.bootstrap_protocol,
                selector: self.selector,
                num_outbound_peers: self.num_outbound_peers,
                num_inbound_peers: self.num_inbound_peers,
                max_connections_per_peer: self.max_connections_per_peer,
                ephemeral_connection_timeout_ms: self.ephemeral_connection_timeout_ms,
            },
            value_sync: ValueSyncConfig::default(),
        }
    }

    /// What running the command generates under `home_dir`: the setup of
    /// each of its nodes with the settings it asks for.
    pub fn run(&self, home_dir: &str) -> (r: Vec<NodeSetup>)
        requires
            testnet_fits(self.nodes as int),
        ensures
            is_testnet_plan(r@, self.nodes as int, home_dir@, testnet_settings(*self)),
    {
        testnet(self.nodes, home_dir, self.settings())
    }
}

/// Whether a distributed testnet of `nodes` nodes over `machines` can be
/// generated: some machine to run on, the metrics port of the last node in
/// range, and an IPv4 address for every machine a node is placed on.
pub open spec fn distributed_testnet_fits(nodes: int, machines: Seq<Seq<char>>) -> bool {
    nodes <= 0 || {
        &&& machines.len() > 0
        &&& METRICS_BASE_PORT + (nodes - 1) / machines.len() as int <= MAX_PORT
        &&& forall|i: int| 0 <= i < nodes ==> is_ipv4_text(#[trigger] machines[i % machines.len() as int])
    }
}

/// Whether a distributed testnet of `nodes` nodes over `machines` can be
/// generated (see [`distributed_testnet_fits`]).
pub fn distributed_testnet_ok(nodes: usize, machines: &Vec<String>) -> (r: bool)
    ensures
        r == distributed_testnet_fits(nodes as int, hosts_view(machines@)),
{
    if nodes == 0 {
        return true;
    }
    let m = machines.len();
    if m == 0 {
        return false;
    }
    if (nodes - 1) / m > MAX_PORT - METRICS_BASE_PORT {
        return false;
    }
    let ghost hosts = hosts_view(machines@);
    let mut i: usize = 0;
    while i < nodes
        invariant
            i <= nodes,
            m == machines.len(),
            m > 0,
            hosts == hosts_view(machines@),
            forall|k: int| 0 <= k < i ==> is_ipv4_text(#[trigger] hosts[k % m as int]),
        decreases nodes - i,
    {
        if !is_ipv4(machines[i % m].as_str()) {
            assert(!is_ipv4_text(hosts[i as int % m as int]));
            return false;
        }
        i = i + 1;
    }
    true
}

/// A copy of each machine name.
fn copy_hosts(v: &Vec<String>) -> (r: Vec<String>)
    ensures
        hosts_view(r@) == hosts_view(v@),
{
    let mut r: Vec<String> = Vec::new();
    let mut i: usize = 0;
    while i < v.len()
        invariant
            i <= v.len(),
            hosts_view(r@) =~= hosts_view(v@).take(i as int),
        decreases v.len() - i,
    {
        let ghost prev = r@;
        r.push(v[i].clone());
        assert(hosts_view(r@) =~= hosts_view(prev).push(v@[i as int]@));
        i = i + 1;
        assert(hosts_view(r@) =~= hosts_view(v@).take(i as int));
    }
    assert(hosts_view(v@).take(v.len() as int) =~= hosts_view(v@));
    r
}

/// Whether `r` is the setup of a distributed testnet of `nodes` nodes under
/// `home` over `machines`: node `i` in `<home>/<i>` with its distributed
/// configuration.
pub open spec fn is_distributed_plan(
    r: Seq<NodeSetup>,
    nodes: int,
    home: Seq<char>,
    machines: Seq<Seq<char>>,
    bootstrap_set_size: int,
    settings: MakeConfigSettings,
) -> bool {
    &&& r.len() == nodes
    &&& forall|i: int|
        0 <= i < nodes ==> has_node_files(#[trigger] r[i], i, home) && r[i].config@
            == distributed_config(i, nodes, machines, bootstrap_set_size, settings)
}

/// The setup of every node of a testnet of `nodes` nodes spread over
/// `machines`, node `i` in `<home>/<i>` with its distributed configuration.
/// Writing the files is left to the caller.
pub fn distributed_testnet(
    nodes: usize,
    home_dir: &str,
    machines: &Vec<String>,
    bootstrap_set_size: usize,
    settings: MakeConfigSettings,
) -> (r: Vec<NodeSetup>)
    requires
        distributed_testnet_fits(nodes as int, hosts_view(machines@)),
    ensures
        is_distributed_plan(
            r@,
            nodes as int,
            home_dir@,
            hosts_view(machines@),
            bootstrap_set_size as int,
            settings,
        ),
{
    let ghost hosts = hosts_view(machines@);
    let mut r: Vec<NodeSetup> = Vec::new();
    let mut i: usize = 0;
    while i < nodes
        invariant
            i <= nodes,
            hosts == hosts_view(machines@),
            distributed_testnet_fits(nodes as int, hosts),
            r.len() == i,
            forall|k: int|
                0 <= k < i ==> has_node_files(#[trigger] r[k], k, home_dir@) && r[k].config@
                    == distributed_config(k, nodes as int, hosts, bootstrap_set_size as int, settings),
        decreases nodes - i,
    {
        let m = machines.len();
        proof {
            vstd::arithmetic::div_mod::lemma_div_is_ordered(i as int, nodes - 1, m as int);
            assert(is_ipv4_text(hosts[i as int % m as int]));
            assert forall|j: int|
                #[trigger] distributed_peers(i as int, bootstrap_set_size as int, settings.discovery.enabled).contains(j)
                implies is_ipv4_text(hosts[j % m as int]) by {
                let p = distributed_peers(i as int, bootstrap_set_size as int, settings.discovery.enabled);
                let k = choose|k: int| 0 <= k < p.len() && p[k] == j;
                assert(0 <= j < i);
                assert(is_ipv4_text(hosts[j % m as int]));
            }
        }
        let config = make_distributed_config(i, nodes, copy_hosts(machines), bootstrap_set_size, settings);
        let setup = node_setup(i, home_dir, config);
        r.push(setup);
        i = i + 1;
    }
    assert(is_distributed_plan(r@, nodes as int, home_dir@, hosts, bootstrap_set_size as int, settings)) by {
        assert forall|k: int| 0 <= k < nodes implies has_node_files(#[trigger] r@[k], k, home_dir@) && r@[k].config@
            == distributed_config(k, nodes as int, hosts, bootstrap_set_size as int, settings) by {
            assert(r@[k] == r[k]);
        }
    }
    r
}

} // verus!
