//! A cluster of Raft nodes that live in one process: which nodes run, what
//! belongs to each of them, and how a message gets from store to store.
//!
//! The library keeps the books and takes the decisions. Starting nodes, copying
//! snapshots and calling routers is the work of the code around it.

pub mod cluster;
pub mod cluster_laws;
pub mod components;
pub mod error;
pub mod history;
pub mod message;
pub mod run_laws;
pub mod run_node;
pub mod run_steps;
pub mod send;
pub mod send_laws;
pub mod setup;
pub mod temp_dir;
pub mod transport;
