use vstd::prelude::*;

verus! {

/// The kinds of value that a cluster of in-process nodes carries around.
///
/// The library files these values under node ids, hands them out and clones
/// them; it never looks inside one. An embedding names its own types once, in
/// one impl of this trait.
pub trait Components: Sized {
    /// The handle to the placement driver that all nodes of a cluster share.
    type PdClient;

    /// A running node.
    type Node;

    /// A handle to the snapshot manager of one store.
    type SnapManager: Clone;

    /// The router that delivers messages and commands to one store.
    type Router: Clone;

    /// The outgoing transport of one node, with its send filters.
    type SimulateTransport;

    /// The controller of one node's configuration.
    type ConfigController;

    /// A handle to the concurrency manager of one node.
    type ConcurrencyManager: Clone;

    /// A handle to the SST importer of one node.
    type Importer: Clone;

    /// The function that is called on each coprocessor host once it is created.
    type CoprocessorHook;
}

} // verus!
