//! The nodes of a cluster that lives in one process, and all that belongs to
//! each of them.

use std::collections::hash_map::Entry;
use std::collections::{HashMap, HashSet};

use vstd::prelude::*;

use crate::components::Components;
use crate::error::TransportError;
use crate::message::RaftMessage;
use crate::send::SendProgress;
use crate::transport::{ChannelTransport, TransportView};

verus! {

/// A cluster of nodes without a server layer and without a storage layer.
pub struct NodeCluster<K: Components> {
    pub(crate) trans: ChannelTransport<K>,
    pub(crate) pd_client: K::PdClient,
    pub(crate) nodes: HashMap<u64, K::Node>,
    pub(crate) snap_mgrs: HashMap<u64, K::SnapManager>,
    pub(crate) cfg_controller: HashMap<u64, K::ConfigController>,
    pub(crate) simulate_trans: HashMap<u64, K::SimulateTransport>,
    pub(crate) concurrency_managers: HashMap<u64, K::ConcurrencyManager>,
    pub(crate) importers: HashMap<u64, K::Importer>,
    pub(crate) post_create_coprocessor_host: Option<K::CoprocessorHook>,
}

/// The mathematical content of a [`NodeCluster`].
#[verifier::ext_equal]
pub struct ClusterView<K: Components> {
    pub trans: TransportView<K>,
    pub pd_client: K::PdClient,
    pub nodes: Map<u64, K::Node>,
    pub snap_mgrs: Map<u64, K::SnapManager>,
    pub cfg_controller: Map<u64, K::ConfigController>,
    pub simulate_trans: Map<u64, K::SimulateTransport>,
    pub concurrency_managers: Map<u64, K::ConcurrencyManager>,
    pub importers: Map<u64, K::Importer>,
    pub post_create_coprocessor_host: Option<K::CoprocessorHook>,
}

impl<K: Components> View for NodeCluster<K> {
    type V = ClusterView<K>;

    open(crate) spec fn view(&self) -> ClusterView<K> {
        ClusterView {
            trans: self.trans@,
            pd_client: self.pd_client,
            nodes: self.nodes@,
            snap_mgrs: self.snap_mgrs@,
            cfg_controller: self.cfg_controller@,
            simulate_trans: self.simulate_trans@,
            concurrency_managers: self.concurrency_managers@,
            importers: self.importers@,
            post_create_coprocessor_host: self.post_create_coprocessor_host,
        }
    }
}

impl<K: Components> ClusterView<K> {
    /// A cluster without nodes.
    pub open spec fn empty(pd_client: K::PdClient) -> Self {
        ClusterView {
            trans: TransportView::empty(),
            pd_client,
            nodes: Map::empty(),
            snap_mgrs: Map::empty(),
            cfg_controller: Map::empty(),
            simulate_trans: Map::empty(),
            concurrency_managers: Map::empty(),
            importers: Map::empty(),
            post_create_coprocessor_host: None,
        }
    }

    /// The cluster that calls `hook` on each coprocessor host.
    pub open spec fn with_hook(self, hook: K::CoprocessorHook) -> Self {
        ClusterView { post_create_coprocessor_host: Some(hook), ..self }
    }

    /// The cluster in which `node` runs under `node_id`.
    pub open spec fn put_node(self, node_id: u64, node: K::Node) -> Self {
        ClusterView { nodes: self.nodes.insert(node_id, node), ..self }
    }

    /// The cluster in which `router` reaches the store `node_id`.
    pub open spec fn put_router(self, node_id: u64, router: K::Router) -> Self {
        ClusterView { trans: self.trans.put_router(node_id, router), ..self }
    }

    /// The cluster in which the node `node_id` sends through `trans`.
    pub open spec fn put_simulate_trans(self, node_id: u64, trans: K::SimulateTransport) -> Self {
        ClusterView { simulate_trans: self.simulate_trans.insert(node_id, trans), ..self }
    }

    /// The cluster without the running node `node_id`.
    pub open spec fn remove_node(self, node_id: u64) -> Self {
        ClusterView { nodes: self.nodes.remove(node_id), ..self }
    }

    /// The cluster in which the store `node_id` cannot be reached.
    pub open spec fn remove_router(self, node_id: u64) -> Self {
        ClusterView {
            trans: TransportView { routers: self.trans.routers.remove(node_id), ..self.trans },
            ..self
        }
    }
}

impl<K: Components> NodeCluster<K> {
    /// A cluster without nodes, whose nodes will share `pd_client`.
    pub fn new(pd_client: K::PdClient) -> (cluster: NodeCluster<K>)
        ensures
            cluster@ == ClusterView::<K>::empty(pd_client),
            cluster@.well_formed(),
    {
        NodeCluster {
            trans: ChannelTransport::new(),
            pd_client,
            nodes: HashMap::new(),
            snap_mgrs: HashMap::new(),
            cfg_controller: HashMap::new(),
            simulate_trans: HashMap::new(),
            concurrency_managers: HashMap::new(),
            importers: HashMap::new(),
            post_create_coprocessor_host: None,
        }
    }

    /// The placement driver that the nodes share.
    pub fn pd_client(&self) -> (pd_client: &K::PdClient)
        ensures
            *pd_client == self@.pd_client,
    {
        &self.pd_client
    }

    /// The transport of the cluster.
    pub fn transport(&self) -> (trans: &ChannelTransport<K>)
        ensures
            trans@ == self@.trans,
    {
        &self.trans
    }

    /// Exchanges the transport of the cluster for `other`. Where the senders of a
    /// cluster share its transport behind a lock, it is lent to the cluster in
    /// this way while the lock is held, and taken back in the same way.
    pub fn exchange_transport(&mut self, other: &mut ChannelTransport<K>)
        ensures
            final(self)@ == (ClusterView { trans: old(other)@, ..old(self)@ }),
            final(other)@ == old(self)@.trans,
    {
        std::mem::swap(&mut self.trans, other);
    }

    /// A router of the caller's own to the running store `node_id`.
    pub fn get_node_router(&self, node_id: u64) -> (router: K::Router)
        requires
            self@.trans.routers.contains_key(node_id),
        ensures
            cloned(self@.trans.routers[node_id], router),
    {
        self.trans.router(node_id).unwrap().clone()
    }

    /// Sets the function that is called on each coprocessor host once it is
    /// created, together with the id of its node. It acts on the nodes that are
    /// run afterwards.
    pub fn post_create_coprocessor_host(&mut self, op: K::CoprocessorHook)
        ensures
            final(self)@ == old(self)@.with_hook(op),
            final(self)@.post_create_coprocessor_host == Some(op),
            old(self)@.well_formed() ==> final(self)@.well_formed(),
    {
        self.post_create_coprocessor_host = Some(op);
    }

    /// The running node `node_id`, to act on in place.
    pub fn get_node(&mut self, node_id: u64) -> (node: Option<&mut K::Node>)
        ensures
            match node {
                Some(n) => {
                    &&& old(self)@.nodes.contains_key(node_id)
                    &&& *n == old(self)@.nodes[node_id]
                    &&& final(self)@ == old(self)@.put_node(node_id, *final(n))
                },
                None => {
                    &&& !old(self)@.nodes.contains_key(node_id)
                    &&& final(self)@ == old(self)@
                },
            },
            old(self)@.well_formed() ==> final(self)@.well_formed(),
    {
        if !self.nodes.contains_key(&node_id) {
            return None;
        }
        proof {
            if self@.well_formed() {
                assert forall|x: K::Node| (#[trigger] self@.put_node(node_id, x)).well_formed() by {
                    crate::cluster_laws::law_acting_on_node_keeps_well_formed(self@, node_id, x);
                }
            }
        }
        match self.nodes.entry(node_id) {
            Entry::Occupied(entry) => Some(entry.into_mut()),
            Entry::Vacant(_) => None,
        }
    }

    /// The running node `node_id`; its Raft router and its apply router are
    /// asked of it.
    pub fn node(&self, node_id: u64) -> (node: Option<&K::Node>)
        ensures
            match node {
                Some(n) => self@.nodes.contains_key(node_id) && *n == self@.nodes[node_id],
                None => !self@.nodes.contains_key(node_id),
            },
    {
        self.nodes.get(&node_id)
    }

    /// A handle to the concurrency manager that was made for `node_id`.
    pub fn get_concurrency_manager(&self, node_id: u64) -> (manager: K::ConcurrencyManager)
        requires
            self@.concurrency_managers.contains_key(node_id),
        ensures
            cloned(self@.concurrency_managers[node_id], manager),
    {
        self.concurrency_managers.get(&node_id).unwrap().clone()
    }

    /// Whether a concurrency manager was made for `node_id`.
    pub fn has_concurrency_manager(&self, node_id: u64) -> (b: bool)
        ensures
            b == self@.concurrency_managers.contains_key(node_id),
    {
        self.concurrency_managers.contains_key(&node_id)
    }

    /// The configuration controller of the node `node_id`.
    pub fn get_cfg_controller(&self, node_id: u64) -> (controller: Option<&K::ConfigController>)
        ensures
            match controller {
                Some(c) => {
                    &&& self@.cfg_controller.contains_key(node_id)
                    &&& *c == self@.cfg_controller[node_id]
                },
                None => !self@.cfg_controller.contains_key(node_id),
            },
    {
        self.cfg_controller.get(&node_id)
    }

    /// A handle to the importer that was made for `node_id`.
    pub fn get_importer(&self, node_id: u64) -> (importer: Option<K::Importer>)
        ensures
            match importer {
                Some(i) => {
                    &&& self@.importers.contains_key(node_id)
                    &&& cloned(self@.importers[node_id], i)
                },
                None => !self@.importers.contains_key(node_id),
            },
    {
        self.importers.get(&node_id).cloned()
    }

    /// The directory that holds the snapshots of the store `node_id`.
    ///
    /// The store has to have a directory, and its path has to be valid UTF-8;
    /// [`find_snap_dir`](ChannelTransport::find_snap_dir) of the transport tests
    /// both.
    pub fn get_snap_dir(&self, node_id: u64) -> (path: String)
        requires
            self@.trans.snap_dir(node_id) is Some,
        ensures
            self@.trans.snap_dir(node_id) == Some(path@),
            crate::temp_dir::temp_dir_path(self@.trans.snap_paths[node_id].1) == Some(path@),
    {
        self.trans.get_snap_dir(node_id)
    }

    /// The snapshot manager that was set up for `node_id`.
    pub fn get_snap_mgr(&self, node_id: u64) -> (mgr: &K::SnapManager)
        requires
            self@.snap_mgrs.contains_key(node_id),
        ensures
            *mgr == self@.snap_mgrs[node_id],
    {
        self.snap_mgrs.get(&node_id).unwrap()
    }

    /// Whether a snapshot manager was set up for `node_id`.
    pub fn has_snap_mgr(&self, node_id: u64) -> (b: bool)
        ensures
            b == self@.snap_mgrs.contains_key(node_id),
    {
        self.snap_mgrs.contains_key(&node_id)
    }

    /// Begins to stop the node `node_id`: it is taken out of the cluster and
    /// handed to the caller, who stops it and then calls
    /// [`finish_stop_node`](Self::finish_stop_node).
    pub fn stop_node(&mut self, node_id: u64) -> (node: Option<K::Node>)
        ensures
            final(self)@ == old(self)@.remove_node(node_id),
            final(self)@ == (ClusterView {
                nodes: old(self)@.nodes.remove(node_id),
                ..old(self)@
            }),
            match node {
                Some(n) => {
                    old(self)@.nodes.contains_key(node_id) && n == old(self)@.nodes[node_id]
                },
                None => !old(self)@.nodes.contains_key(node_id),
            },
            old(self)@.well_formed() ==> final(self)@.is_stopping(node_id),
    {
        proof {
            if self@.well_formed() {
                crate::cluster_laws::law_stop_keeps_well_formed(self@, node_id);
            }
        }
        self.nodes.remove(&node_id)
    }

    /// Ends the stop of the node `node_id`: its store can no longer be reached.
    pub fn finish_stop_node(&mut self, node_id: u64)
        requires
            old(self)@.trans.routers.contains_key(node_id),
        ensures
            final(self)@ == old(self)@.remove_router(node_id),
            old(self)@.is_stopping(node_id) ==> final(self)@.well_formed(),
    {
        self.trans.core.routers.remove(&node_id);
    }

    /// The ids of the running nodes.
    pub fn get_node_ids(&self) -> (ids: HashSet<u64>)
        ensures
            ids@ == self@.nodes.dom(),
    {
        let mut ids: HashSet<u64> = HashSet::new();
        for id in keys: self.nodes.keys()
            invariant
                keys.seq().unref().to_set() == self.nodes@.dom(),
                ids@ == keys.seq().unref().take(keys.index()).to_set(),
                keys.index() == keys.seq().len() ==> ids@ == self.nodes@.dom(),
        {
            proof {
                let all = keys.seq().unref();
                let seen = all.take(keys.index());
                assert(all.take(keys.index() + 1) == seen.push(*id));
                seen.lemma_push_to_set_commute(*id);
                assert(all.take(all.len() as int) == all);
            }
            ids.insert(*id);
        }
        ids
    }

    /// The router that a command to the store `node_id` goes through: an error
    /// where the store cannot be reached.
    pub fn async_command_on_node_with_opts(&self, node_id: u64) -> (router: Result<
        K::Router,
        TransportError,
    >)
        ensures
            match router {
                Ok(r) => {
                    &&& self@.trans.routers.contains_key(node_id)
                    &&& cloned(self@.trans.routers[node_id], r)
                },
                Err(e) => {
                    &&& !self@.trans.routers.contains_key(node_id)
                    &&& e == (TransportError::MissingSender { store: node_id })
                },
            },
    {
        self.trans.command_router(node_id)
    }

    /// The router that serves a read on the store `node_id`: an error where the
    /// store cannot be reached. [`read_answer`] says what follows.
    pub fn async_read(&mut self, node_id: u64) -> (router: Result<&mut K::Router, TransportError>)
        ensures
            match router {
                Ok(r) => {
                    &&& old(self)@.trans.routers.contains_key(node_id)
                    &&& *r == old(self)@.trans.routers[node_id]
                    &&& final(self)@ == old(self)@.put_router(node_id, *final(r))
                },
                Err(e) => {
                    &&& !old(self)@.trans.routers.contains_key(node_id)
                    &&& e == (TransportError::MissingSender { store: node_id })
                    &&& final(self)@ == old(self)@
                },
            },
            old(self)@.well_formed() ==> final(self)@.well_formed(),
    {
        proof {
            if self@.well_formed() && self@.trans.routers.contains_key(node_id) {
                assert forall|x: K::Router| (#[trigger] self@.put_router(node_id, x)).well_formed() by {
                    crate::cluster_laws::law_acting_on_router_keeps_well_formed(self@, node_id, x);
                }
            }
        }
        self.trans.read_router(node_id)
    }

    /// Begins to send `msg`; [`ChannelTransport::resume`] goes on with it.
    pub fn send_raft_msg<E>(&self, msg: RaftMessage) -> (progress: SendProgress<E>)
        ensures
            progress == self@.trans.begin::<E>(msg),
    {
        self.trans.send(msg)
    }

    /// The outgoing transport of the node `node_id`, to add a send filter to or
    /// to clear the send filters of.
    pub fn send_filters(&mut self, node_id: u64) -> (trans: &mut K::SimulateTransport)
        requires
            old(self)@.simulate_trans.contains_key(node_id),
        ensures
            *trans == old(self)@.simulate_trans[node_id],
            final(self)@ == old(self)@.put_simulate_trans(node_id, *final(trans)),
            old(self)@.well_formed() ==> final(self)@.well_formed(),
    {
        proof {
            if self@.well_formed() {
                assert forall|x: K::SimulateTransport| (#[trigger] self@.put_simulate_trans(node_id, x)).well_formed() by {
                    crate::cluster_laws::law_acting_on_transport_keeps_well_formed(self@, node_id, x);
                }
            }
        }
        match self.simulate_trans.entry(node_id) {
            Entry::Occupied(entry) => Some(entry.into_mut()),
            Entry::Vacant(_) => None,
        }.unwrap()
    }

    /// Whether the node `node_id` has an outgoing transport.
    pub fn has_send_filters(&self, node_id: u64) -> (b: bool)
        ensures
            b == self@.simulate_trans.contains_key(node_id),
    {
        self.simulate_trans.contains_key(&node_id)
    }

    /// The router of the store `node_id`, to add a receive filter to or to clear
    /// the receive filters of.
    pub fn recv_filters(&mut self, node_id: u64) -> (router: &mut K::Router)
        requires
            old(self)@.trans.routers.contains_key(node_id),
        ensures
            *router == old(self)@.trans.routers[node_id],
            final(self)@ == old(self)@.put_router(node_id, *final(router)),
            old(self)@.well_formed() ==> final(self)@.well_formed(),
    {
        proof {
            if self@.well_formed() {
                assert forall|x: K::Router| (#[trigger] self@.put_router(node_id, x)).well_formed() by {
                    crate::cluster_laws::law_acting_on_router_keeps_well_formed(self@, node_id, x);
                }
            }
        }
        self.trans.router_mut(node_id).unwrap()
    }
}

/// What a reader is answered with, once the read was handed to the router that
/// [`async_read`](NodeCluster::async_read) gave, or was refused: the refusal, or
/// nothing. A router that takes a read answers it itself, and it must not fail to
/// take one.
pub fn read_answer<E>(read: Result<Result<(), E>, TransportError>) -> (answer: Option<
    TransportError,
>)
    requires
        read matches Ok(outcome) ==> outcome is Ok,
    ensures
        match read {
            Ok(_) => answer is None,
            Err(e) => answer == Some(e),
        },
{
    match read {
        Ok(_) => None,
        Err(e) => Some(e),
    }
}

} // verus!
