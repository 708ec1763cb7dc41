# node_cluster

A verified library for clusters of Raft nodes that live in one process and talk
to each other through an in-memory transport.

- `src/transport.rs`: the table of stores, with their snapshot directories and
  routers.
- `src/send.rs`: the send of one message, step by step. The library names the
  next piece of outside work; the caller does it and reports how it went.
- `src/send_laws.rs`: what a send does from beginning to end.
- `src/cluster.rs`, `src/run_node.rs`: the nodes of a cluster, from their start
  to their stop.
- `src/run_steps.rs`, `src/run_laws.rs`: the steps in which a node is built and
  started, and what they come to.
- `src/cluster_laws.rs`, `src/history.rs`: what holds of a cluster over the whole
  life of its nodes, and over any number of changes.
- `src/message.rs`, `src/error.rs`, `src/setup.rs`: message envelopes, routing
  errors and their texts, and the kinds of cluster.
- `src/components.rs`: the types that an embedding brings along.
- `src/temp_dir.rs`: what is relied on of `tempfile::TempDir`.
- `app/`: the embedding into TiKV's test framework, with the lock that the
  senders of a cluster share.

What is taken on trust: that `TempDir::path` depends on the directory alone
(`src/temp_dir.rs`), and the number of the message type `MsgSnapshot`
(`src/message.rs`).
