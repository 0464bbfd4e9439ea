# malachite_node

Configuration generation for Malachite consensus nodes, verified with Verus.

- `src/config.rs`: the node configuration (addresses, peers, discovery,
  runtime, value sync) and its textual forms.
- `src/peers.rs`: which nodes a node names as persistent peers, with and
  without discovery.
- `src/starknet.rs`: the Starknet node: its files, its local and
  distributed testnet configurations, its default configuration and genesis.
- `src/test_app.rs`: the test application node.
- `src/cli.rs`: file locations under the home directory, the runtime flavour
  option, and the `testnet` command.
- `src/laws.rs`: properties that span several functions.
- `src/text.rs`: decimal numbers, paths and IPv4 text.
- `app/`: the command-line program; it writes the generated `config.toml`
  files (key and genesis files are not generated).
