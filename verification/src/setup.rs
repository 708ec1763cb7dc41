//! The two kinds of cluster that can be asked for.

use vstd::prelude::*;

verus! {

/// The version of the key-value API that the nodes of a cluster speak.
#[derive(Clone, Copy, Debug, PartialEq, Eq, Structural)]
pub enum ApiVersion {
    V1,
    V1ttl,
    V2,
}

/// What a cluster and its placement driver are made with.
#[derive(Clone, Copy, Debug, PartialEq, Eq, Structural)]
pub struct ClusterSetup {
    /// The id of the cluster.
    pub id: u64,
    /// The number of nodes.
    pub count: usize,
    /// The placement driver keeps to the old protocol: a batch split reaches the
    /// nodes as a plain split.
    pub incompatible: bool,
    pub api_version: ApiVersion,
}

/// A cluster of `count` nodes, without a server layer and without a storage
/// layer.
pub fn new_node_cluster(id: u64, count: usize) -> (setup: ClusterSetup)
    ensures
        setup == (ClusterSetup { id, count, incompatible: false, api_version: ApiVersion::V1 }),
{
    ClusterSetup { id, count, incompatible: false, api_version: ApiVersion::V1 }
}

/// A cluster that does not support batch splits.
pub fn new_incompatible_node_cluster(id: u64, count: usize) -> (setup: ClusterSetup)
    ensures
        setup == (ClusterSetup { id, count, incompatible: true, api_version: ApiVersion::V1 }),
{
    ClusterSetup { id, count, incompatible: true, api_version: ApiVersion::V1 }
}

} // verus!
