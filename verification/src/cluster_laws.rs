//! What holds of a cluster over the whole life of its nodes.

use vstd::prelude::*;

use crate::cluster::ClusterView;
use crate::components::Components;
use crate::error::TransportError;
use crate::message::RaftMessage;
use crate::run_node::{NodeServices, StartedNode};
use crate::send::SendError;
use crate::send_laws::Journey;

verus! {

impl<K: Components> ClusterView<K> {
    /// What holds of a cluster whenever no node is being run or stopped.
    ///
    /// - The nodes that run are the stores that can be reached.
    /// - A store that has run has a snapshot directory, a configuration
    ///   controller and an outgoing transport, and keeps them.
    /// - Every id that a node was run for has a snapshot manager, a concurrency
    ///   manager and an importer.
    pub open spec fn well_formed(self) -> bool {
        &&& self.nodes.dom() == self.trans.routers.dom()
        &&& self.nodes.dom().subset_of(self.trans.snap_paths.dom())
        &&& self.trans.snap_paths.dom() == self.cfg_controller.dom()
        &&& self.trans.snap_paths.dom() == self.simulate_trans.dom()
        &&& self.snap_mgrs.dom() == self.concurrency_managers.dom()
        &&& self.snap_mgrs.dom() == self.importers.dom()
    }

    /// What holds of a cluster while the node `node_id` is being stopped: it no
    /// longer runs, and the cluster is well formed once its store cannot be reached
    /// either.
    pub open spec fn is_stopping(self, node_id: u64) -> bool {
        &&& !self.nodes.contains_key(node_id)
        &&& self.remove_router(node_id).well_formed()
    }

    /// The cluster after the node `node_id` was stopped.
    pub open spec fn stopped(self, node_id: u64) -> Self {
        self.remove_node(node_id).remove_router(node_id)
    }

    /// The sender and the receiver of `msg` both run.
    pub open spec fn runs_both(self, msg: RaftMessage) -> bool {
        &&& self.nodes.contains_key(msg.from_store)
        &&& self.nodes.contains_key(msg.to_store)
    }

    /// `self` and `other` hold the same under every id but those in `ids`.
    pub open spec fn agrees_outside(self, other: Self, ids: Set<u64>) -> bool {
        &&& self.trans.snap_paths.remove_keys(ids) == other.trans.snap_paths.remove_keys(ids)
        &&& self.trans.routers.remove_keys(ids) == other.trans.routers.remove_keys(ids)
        &&& self.nodes.remove_keys(ids) == other.nodes.remove_keys(ids)
        &&& self.snap_mgrs.remove_keys(ids) == other.snap_mgrs.remove_keys(ids)
        &&& self.cfg_controller.remove_keys(ids) == other.cfg_controller.remove_keys(ids)
        &&& self.simulate_trans.remove_keys(ids) == other.simulate_trans.remove_keys(ids)
        &&& self.concurrency_managers.remove_keys(ids) == other.concurrency_managers.remove_keys(
            ids,
        )
        &&& self.importers.remove_keys(ids) == other.importers.remove_keys(ids)
    }
}

/// A cluster without nodes is well formed.
pub proof fn law_empty_is_well_formed<K: Components>(pd_client: K::PdClient)
    ensures
        ClusterView::<K>::empty(pd_client).well_formed(),
{
}

/// Running a node keeps a cluster well formed, whether or not the node starts.
pub proof fn law_run_keeps_well_formed<K: Components, E>(
    c: ClusterView<K>,
    node_id: u64,
    snap_mgr: K::SnapManager,
    services: NodeServices<K>,
    outcome: Result<StartedNode<K>, E>,
)
    requires
        c.well_formed(),
        c.is_run_of(node_id, services, outcome),
    ensures
        c.after_run(node_id, snap_mgr, services, outcome).well_formed(),
{
    let d = c.after_run(node_id, snap_mgr, services, outcome);
    assert(d.snap_mgrs.dom() == d.concurrency_managers.dom());
    assert(d.snap_mgrs.dom() == d.importers.dom());
    if let Ok(started) = outcome {
        assert(d.nodes.dom() == c.nodes.dom().insert(started.id));
        assert(d.trans.routers.dom() == c.trans.routers.dom().insert(started.id));
        assert(d.trans.snap_paths.dom() == c.trans.snap_paths.dom().insert(started.id));
        assert(d.cfg_controller.dom() == c.cfg_controller.dom().insert(started.id));
        assert(d.simulate_trans.dom() == c.simulate_trans.dom().insert(started.id));
    }
}

/// Stopping a node keeps a cluster well formed.
pub proof fn law_stop_keeps_well_formed<K: Components>(c: ClusterView<K>, node_id: u64)
    requires
        c.well_formed(),
    ensures
        c.stopped(node_id).well_formed(),
{
    let d = c.stopped(node_id);
    assert(d.nodes.dom() == c.nodes.dom().remove(node_id));
    assert(d.trans.routers.dom() == c.trans.routers.dom().remove(node_id));
}

/// Setting the coprocessor hook keeps a cluster well formed.
pub proof fn law_hook_keeps_well_formed<K: Components>(
    c: ClusterView<K>,
    hook: K::CoprocessorHook,
)
    requires
        c.well_formed(),
    ensures
        c.with_hook(hook).well_formed(),
{
}

/// Acting on a running node in place keeps a cluster well formed.
pub proof fn law_acting_on_node_keeps_well_formed<K: Components>(
    c: ClusterView<K>,
    node_id: u64,
    node: K::Node,
)
    requires
        c.well_formed(),
        c.nodes.contains_key(node_id),
    ensures
        c.put_node(node_id, node).well_formed(),
{
    assert(c.put_node(node_id, node).nodes.dom() == c.nodes.dom());
}

/// Acting on a router in place keeps a cluster well formed.
pub proof fn law_acting_on_router_keeps_well_formed<K: Components>(
    c: ClusterView<K>,
    node_id: u64,
    router: K::Router,
)
    requires
        c.well_formed(),
        c.trans.routers.contains_key(node_id),
    ensures
        c.put_router(node_id, router).well_formed(),
{
    assert(c.put_router(node_id, router).trans.routers.dom() == c.trans.routers.dom());
}

/// Acting on an outgoing transport in place keeps a cluster well formed.
pub proof fn law_acting_on_transport_keeps_well_formed<K: Components>(
    c: ClusterView<K>,
    node_id: u64,
    trans: K::SimulateTransport,
)
    requires
        c.well_formed(),
        c.simulate_trans.contains_key(node_id),
    ensures
        c.put_simulate_trans(node_id, trans).well_formed(),
{
    assert(c.put_simulate_trans(node_id, trans).simulate_trans.dom() == c.simulate_trans.dom());
}

/// A node that has started runs, can be reached, and has all that belongs to it.
/// Its snapshot manager, concurrency manager and importer are found under the id
/// that it was run for: under its own id if that was asked for, and under zero if
/// the id was left open.
pub proof fn law_started_node_is_complete<K: Components, E>(
    c: ClusterView<K>,
    node_id: u64,
    snap_mgr: K::SnapManager,
    services: NodeServices<K>,
    started: StartedNode<K>,
)
    requires
        c.well_formed(),
        c.is_run_of(node_id, services, Ok::<StartedNode<K>, E>(started)),
    ensures
        ({
            let id = started.id;
            let d = c.after_run(node_id, snap_mgr, services, Ok::<StartedNode<K>, E>(started));
            &&& d.nodes.dom() == c.nodes.dom().insert(id)
            &&& d.nodes[id] == started.node
            &&& d.trans.routers.contains_key(id)
            &&& d.trans.routers[id] == started.router
            &&& d.trans.snap_paths.contains_key(id)
            &&& d.cfg_controller.contains_key(id)
            &&& d.cfg_controller[id] == started.cfg_controller
            &&& d.simulate_trans.contains_key(id)
            &&& d.simulate_trans[id] == started.simulate_trans
            &&& d.snap_mgrs.contains_key(node_id)
            &&& d.snap_mgrs[node_id] == snap_mgr
            &&& d.concurrency_managers.contains_key(node_id)
            &&& d.concurrency_managers[node_id] == services.concurrency_manager
            &&& d.importers.contains_key(node_id)
            &&& d.importers[node_id] == services.importer
            &&& node_id != 0 ==> node_id == id
        }),
{
    let d = c.after_run(node_id, snap_mgr, services, Ok::<StartedNode<K>, E>(started));
    assert(d.nodes.dom() == c.nodes.dom().insert(started.id));
}

/// A node that does not start neither runs nor can be reached: the nodes and the
/// transport of the cluster stay as they were.
pub proof fn law_failed_start_adds_no_node<K: Components, E>(
    c: ClusterView<K>,
    node_id: u64,
    snap_mgr: K::SnapManager,
    services: NodeServices<K>,
    error: E,
)
    ensures
        ({
            let d = c.after_run(node_id, snap_mgr, services, Err::<StartedNode<K>, E>(error));
            &&& d.nodes == c.nodes
            &&& d.trans == c.trans
            &&& d.cfg_controller == c.cfg_controller
            &&& d.simulate_trans == c.simulate_trans
            &&& d.can_run(node_id) == c.can_run(node_id)
            &&& d.needs_snap_dir(node_id) == c.needs_snap_dir(node_id)
        }),
{
}

/// Running a node touches nothing that is filed under another id.
pub proof fn law_run_leaves_other_ids_alone<K: Components, E>(
    c: ClusterView<K>,
    node_id: u64,
    snap_mgr: K::SnapManager,
    services: NodeServices<K>,
    outcome: Result<StartedNode<K>, E>,
)
    ensures
        ({
            let d = c.after_run(node_id, snap_mgr, services, outcome);
            let ids = match outcome {
                Ok(started) => set![node_id, started.id],
                Err(_) => set![node_id],
            };
            &&& c.agrees_outside(d, ids)
            &&& d.pd_client == c.pd_client
            &&& d.post_create_coprocessor_host == c.post_create_coprocessor_host
        }),
{
    let d = c.after_run(node_id, snap_mgr, services, outcome);
    let ids = match outcome {
        Ok(started) => set![node_id, started.id],
        Err(_) => set![node_id],
    };
    assert(c.trans.snap_paths.remove_keys(ids) == d.trans.snap_paths.remove_keys(ids));
    assert(c.trans.routers.remove_keys(ids) == d.trans.routers.remove_keys(ids));
    assert(c.nodes.remove_keys(ids) == d.nodes.remove_keys(ids));
    assert(c.snap_mgrs.remove_keys(ids) == d.snap_mgrs.remove_keys(ids));
    assert(c.cfg_controller.remove_keys(ids) == d.cfg_controller.remove_keys(ids));
    assert(c.simulate_trans.remove_keys(ids) == d.simulate_trans.remove_keys(ids));
    assert(c.concurrency_managers.remove_keys(ids) == d.concurrency_managers.remove_keys(ids));
    assert(c.importers.remove_keys(ids) == d.importers.remove_keys(ids));
}

/// Stopping a node takes away the node and its router, and nothing else: not
/// even its own snapshot directory or configuration controller.
pub proof fn law_stop_takes_node_and_router_only<K: Components>(c: ClusterView<K>, node_id: u64)
    ensures
        ({
            let d = c.stopped(node_id);
            &&& d == (ClusterView { nodes: d.nodes, trans: d.trans, ..c })
            &&& d.trans.snap_paths == c.trans.snap_paths
            &&& d.nodes.dom() == c.nodes.dom().remove(node_id)
            &&& d.trans.routers.dom() == c.trans.routers.dom().remove(node_id)
            &&& c.agrees_outside(d, set![node_id])
        }),
{
    let d = c.stopped(node_id);
    let ids = set![node_id];
    assert(d.nodes.dom() == c.nodes.dom().remove(node_id));
    assert(d.trans.routers.dom() == c.trans.routers.dom().remove(node_id));
    assert(c.trans.routers.remove_keys(ids) == d.trans.routers.remove_keys(ids));
    assert(c.nodes.remove_keys(ids) == d.nodes.remove_keys(ids));
}

/// Stopping a node that was just run leaves the running nodes and the reachable
/// stores as they were before, if the node did not run before.
pub proof fn law_stop_undoes_run<K: Components, E>(
    c: ClusterView<K>,
    node_id: u64,
    snap_mgr: K::SnapManager,
    services: NodeServices<K>,
    started: StartedNode<K>,
)
    requires
        c.well_formed(),
        !c.nodes.contains_key(started.id),
    ensures
        ({
            let d = c.after_run(
                node_id,
                snap_mgr,
                services,
                Ok::<StartedNode<K>, E>(started),
            ).stopped(started.id);
            &&& d.nodes == c.nodes
            &&& d.trans.routers == c.trans.routers
        }),
{
    let d = c.after_run(
        node_id,
        snap_mgr,
        services,
        Ok::<StartedNode<K>, E>(started),
    ).stopped(started.id);
    assert(!c.trans.routers.contains_key(started.id));
    assert(d.nodes == c.nodes);
    assert(d.trans.routers == c.trans.routers);
}

/// Snapshot directories are never given up: a store that has one keeps having
/// one through every run and every stop.
pub proof fn law_snap_dirs_persist<K: Components, E>(
    c: ClusterView<K>,
    node_id: u64,
    snap_mgr: K::SnapManager,
    services: NodeServices<K>,
    outcome: Result<StartedNode<K>, E>,
    stopped_id: u64,
)
    ensures
        c.trans.snap_paths.dom().subset_of(
            c.after_run(node_id, snap_mgr, services, outcome).trans.snap_paths.dom(),
        ),
        c.trans.snap_paths.dom().subset_of(c.stopped(stopped_id).trans.snap_paths.dom()),
{
}

/// A node that is stopped and run again under its id gets its snapshot manager
/// and its snapshot directory back, and keeps them whether or not it starts again.
pub proof fn law_restart_keeps_snap_dir<K: Components, E>(
    c: ClusterView<K>,
    node_id: u64,
    snap_mgr: K::SnapManager,
    services: NodeServices<K>,
    outcome: Result<StartedNode<K>, E>,
)
    requires
        c.well_formed(),
        node_id != 0,
        c.nodes.contains_key(node_id),
        c.stopped(node_id).is_run_of(node_id, services, outcome),
    ensures
        c.stopped(node_id).can_run(node_id),
        !c.stopped(node_id).needs_snap_dir(node_id),
        c.stopped(node_id).snap_mgr_of_run(node_id, services) == c.trans.snap_paths[node_id].0,
        ({
            let d = c.stopped(node_id).after_run(node_id, snap_mgr, services, outcome);
            &&& d.trans.snap_paths == c.trans.snap_paths
            &&& d.trans.snap_dir(node_id) == c.trans.snap_dir(node_id)
        }),
{
    assert(c.trans.snap_paths.dom().contains(node_id));
}

/// A message between two nodes that run whenever the send looks for them always
/// gets as far as the outside work lets it: the send runs through, and it never
/// fails for want of a snapshot directory or a router. Over the copy the nodes
/// need not even run; it is enough that no snapshot directory is given up.
///
/// `c1`, `c2` and `c3` are the cluster when the send begins, when it prepares the
/// target, and when it delivers.
pub proof fn law_running_nodes_reach_each_other<K: Components, E>(
    c1: ClusterView<K>,
    c2: ClusterView<K>,
    c3: ClusterView<K>,
    j: Journey<K, E>,
    msg: RaftMessage,
)
    requires
        c1.well_formed() && c2.well_formed() && c3.well_formed(),
        c1.runs_both(msg) && c2.runs_both(msg) && c3.runs_both(msg),
        j.at_start == c1.trans,
        j.at_target == c2.trans,
        j.at_delivery == c3.trans,
        c2.trans.snap_paths.dom().subset_of(j.at_return.snap_paths.dom()),
    ensures
        j.allowed(j.at_start.begin(msg)),
        j.result(msg) is Ok <==> (msg.is_snapshot() ==> j.copied is Ok) && j.delivered is Ok,
        j.result(msg) matches Err(e) ==> e is Outside,
{
    lemma_running_stores_are_set_up(c1, msg);
    lemma_running_stores_are_set_up(c2, msg);
    lemma_running_stores_are_set_up(c3, msg);
    assert(j.at_return.snap_paths.dom().contains(msg.from_store));
    assert(j.at_return.snap_paths.dom().contains(msg.to_store));
    crate::send_laws::law_send_follows_plan(j, msg);
    crate::send_laws::law_send_is_allowed(j, msg);
}

/// The stores of two running nodes have snapshot directories and routers.
proof fn lemma_running_stores_are_set_up<K: Components>(c: ClusterView<K>, msg: RaftMessage)
    requires
        c.well_formed(),
        c.runs_both(msg),
    ensures
        c.trans.routers.contains_key(msg.from_store),
        c.trans.routers.contains_key(msg.to_store),
        c.trans.snap_paths.contains_key(msg.from_store),
        c.trans.snap_paths.contains_key(msg.to_store),
{
    assert(c.nodes.dom().contains(msg.from_store));
    assert(c.nodes.dom().contains(msg.to_store));
    assert(c.trans.routers.dom().contains(msg.from_store));
    assert(c.trans.routers.dom().contains(msg.to_store));
    assert(c.trans.snap_paths.dom().contains(msg.from_store));
    assert(c.trans.snap_paths.dom().contains(msg.to_store));
}

/// A message to a node that was stopped is refused and never handed over. It is
/// answered with the missing sender, unless its snapshot went wrong before.
pub proof fn law_stopped_node_is_not_reached<K: Components, E>(
    c: ClusterView<K>,
    j: Journey<K, E>,
    msg: RaftMessage,
)
    requires
        j.router_table(msg) == c.stopped(msg.to_store).trans,
    ensures
        forall|i: int|
            0 <= i < j.actions(msg).len() ==> !(#[trigger] j.actions(msg)[i] is Deliver),
        j.result(msg) is Err,
        j.snapshot_arrived(msg) ==> j.result(msg) == Err::<(), SendError<E>>(
            SendError::Transport(TransportError::MissingSender { store: msg.to_store }),
        ),
{
    crate::send_laws::law_store_without_router_is_not_reached(j, msg);
}

/// Nothing is filed in a new cluster, under no id, and no hook is set.
pub proof fn law_new_cluster_holds_nothing<K: Components>(pd_client: K::PdClient, id: u64)
    ensures
        ({
            let c = ClusterView::<K>::empty(pd_client);
            &&& c.pd_client == pd_client
            &&& c.post_create_coprocessor_host is None
            &&& !c.trans.snap_paths.contains_key(id)
            &&& !c.trans.routers.contains_key(id)
            &&& !c.nodes.contains_key(id)
            &&& !c.snap_mgrs.contains_key(id)
            &&& !c.cfg_controller.contains_key(id)
            &&& !c.simulate_trans.contains_key(id)
            &&& !c.concurrency_managers.contains_key(id)
            &&& !c.importers.contains_key(id)
        }),
{
}

/// A well-formed cluster is one in which, under every id, a node runs exactly if its
/// store can be reached, and then has a snapshot directory; a snapshot directory, a
/// configuration controller and an outgoing transport come together; and so do a
/// snapshot manager, a concurrency manager and an importer.
pub proof fn law_well_formed_means<K: Components>(c: ClusterView<K>)
    ensures
        c.well_formed() <==> forall|id: u64|
            #![trigger c.nodes.contains_key(id)]
            {
                &&& c.nodes.contains_key(id) <==> c.trans.routers.contains_key(id)
                &&& c.nodes.contains_key(id) ==> c.trans.snap_paths.contains_key(id)
                &&& c.trans.snap_paths.contains_key(id) <==> c.cfg_controller.contains_key(id)
                &&& c.trans.snap_paths.contains_key(id) <==> c.simulate_trans.contains_key(id)
                &&& c.snap_mgrs.contains_key(id) <==> c.concurrency_managers.contains_key(id)
                &&& c.snap_mgrs.contains_key(id) <==> c.importers.contains_key(id)
            },
{
    if forall|id: u64|
        #![trigger c.nodes.contains_key(id)]
        {
            &&& c.nodes.contains_key(id) <==> c.trans.routers.contains_key(id)
            &&& c.nodes.contains_key(id) ==> c.trans.snap_paths.contains_key(id)
            &&& c.trans.snap_paths.contains_key(id) <==> c.cfg_controller.contains_key(id)
            &&& c.trans.snap_paths.contains_key(id) <==> c.simulate_trans.contains_key(id)
            &&& c.snap_mgrs.contains_key(id) <==> c.concurrency_managers.contains_key(id)
            &&& c.snap_mgrs.contains_key(id) <==> c.importers.contains_key(id)
        } {
        assert forall|id: u64|
            {
                &&& c.nodes.dom().contains(id) == c.trans.routers.dom().contains(id)
                &&& c.nodes.dom().contains(id) ==> c.trans.snap_paths.dom().contains(id)
                &&& c.trans.snap_paths.dom().contains(id) == c.cfg_controller.dom().contains(id)
                &&& c.trans.snap_paths.dom().contains(id) == c.simulate_trans.dom().contains(id)
                &&& c.snap_mgrs.dom().contains(id) == c.concurrency_managers.dom().contains(id)
                &&& c.snap_mgrs.dom().contains(id) == c.importers.dom().contains(id)
            } by {
            assert(c.nodes.contains_key(id) || !c.nodes.contains_key(id));
        }
        assert(c.nodes.dom() == c.trans.routers.dom());
        assert(c.trans.snap_paths.dom() == c.cfg_controller.dom());
        assert(c.trans.snap_paths.dom() == c.simulate_trans.dom());
        assert(c.snap_mgrs.dom() == c.concurrency_managers.dom());
        assert(c.snap_mgrs.dom() == c.importers.dom());
    }
    if c.well_formed() {
        assert forall|id: u64|
            {
                &&& #[trigger] c.nodes.contains_key(id) <==> c.trans.routers.contains_key(id)
                &&& c.nodes.contains_key(id) ==> c.trans.snap_paths.contains_key(id)
                &&& c.trans.snap_paths.contains_key(id) <==> c.cfg_controller.contains_key(id)
                &&& c.trans.snap_paths.contains_key(id) <==> c.simulate_trans.contains_key(id)
                &&& c.snap_mgrs.contains_key(id) <==> c.concurrency_managers.contains_key(id)
                &&& c.snap_mgrs.contains_key(id) <==> c.importers.contains_key(id)
            } by {
            assert(c.nodes.dom().contains(id) == c.trans.routers.dom().contains(id));
            assert(c.trans.snap_paths.dom().contains(id) == c.cfg_controller.dom().contains(id));
            assert(c.trans.snap_paths.dom().contains(id) == c.simulate_trans.dom().contains(id));
            assert(c.snap_mgrs.dom().contains(id) == c.concurrency_managers.dom().contains(id));
            assert(c.snap_mgrs.dom().contains(id) == c.importers.dom().contains(id));
        }
    }
}

/// Setting the hook changes nothing but the hook.
pub proof fn law_hook_is_kept<K: Components>(c: ClusterView<K>, hook: K::CoprocessorHook)
    ensures
        ({
            let d = c.with_hook(hook);
            &&& d.post_create_coprocessor_host == Some(hook)
            &&& d == (ClusterView {
                post_create_coprocessor_host: d.post_create_coprocessor_host,
                ..c
            })
        }),
{
}

/// A node that is acted on is found as it was left. Nothing else changes: no other
/// node, and nothing else that is filed under its id.
pub proof fn law_node_is_left_as_acted_on<K: Components>(
    c: ClusterView<K>,
    node_id: u64,
    node: K::Node,
    other: u64,
)
    ensures
        ({
            let d = c.put_node(node_id, node);
            &&& d.nodes.contains_key(node_id)
            &&& d.nodes[node_id] == node
            &&& other != node_id ==> {
                &&& d.nodes.contains_key(other) == c.nodes.contains_key(other)
                &&& d.nodes[other] == c.nodes[other]
            }
            &&& d == (ClusterView { nodes: d.nodes, ..c })
        }),
{
}

/// A router that is acted on is found as it was left. Nothing else changes: no other
/// router, no snapshot directory, and no node.
pub proof fn law_router_is_left_as_acted_on<K: Components>(
    c: ClusterView<K>,
    node_id: u64,
    router: K::Router,
    other: u64,
)
    ensures
        ({
            let d = c.put_router(node_id, router);
            &&& d.trans.routers.contains_key(node_id)
            &&& d.trans.routers[node_id] == router
            &&& other != node_id ==> {
                &&& d.trans.routers.contains_key(other) == c.trans.routers.contains_key(other)
                &&& d.trans.routers[other] == c.trans.routers[other]
            }
            &&& d.trans.snap_paths == c.trans.snap_paths
            &&& d == (ClusterView { trans: d.trans, ..c })
        }),
{
}

/// An outgoing transport that is acted on is found as it was left. Nothing else
/// changes.
pub proof fn law_transport_is_left_as_acted_on<K: Components>(
    c: ClusterView<K>,
    node_id: u64,
    trans: K::SimulateTransport,
    other: u64,
)
    ensures
        ({
            let d = c.put_simulate_trans(node_id, trans);
            &&& d.simulate_trans.contains_key(node_id)
            &&& d.simulate_trans[node_id] == trans
            &&& other != node_id ==> {
                &&& d.simulate_trans.contains_key(other) == c.simulate_trans.contains_key(other)
                &&& d.simulate_trans[other] == c.simulate_trans[other]
            }
            &&& d == (ClusterView { simulate_trans: d.simulate_trans, ..c })
        }),
{
}

/// Stopping a node takes two steps: first the node no longer runs, then its store can
/// no longer be reached. Every other node runs on and is reached as before, and
/// nothing else changes.
pub proof fn law_stop_is_felt_by_one_node<K: Components>(
    c: ClusterView<K>,
    node_id: u64,
    other: u64,
)
    ensures
        ({
            let d = c.remove_node(node_id);
            &&& !d.nodes.contains_key(node_id)
            &&& other != node_id ==> {
                &&& d.nodes.contains_key(other) == c.nodes.contains_key(other)
                &&& c.nodes.contains_key(other) ==> d.nodes[other] == c.nodes[other]
            }
            &&& d == (ClusterView { nodes: d.nodes, ..c })
        }),
        ({
            let d = c.remove_router(node_id);
            &&& !d.trans.routers.contains_key(node_id)
            &&& other != node_id ==> {
                &&& d.trans.routers.contains_key(other) == c.trans.routers.contains_key(other)
                &&& c.trans.routers.contains_key(other) ==> d.trans.routers[other]
                    == c.trans.routers[other]
            }
            &&& d.trans.snap_paths == c.trans.snap_paths
            &&& d == (ClusterView { trans: d.trans, ..c })
        }),
        ({
            let d = c.stopped(node_id);
            &&& !d.nodes.contains_key(node_id)
            &&& !d.trans.routers.contains_key(node_id)
            &&& other != node_id ==> {
                &&& d.nodes.contains_key(other) == c.nodes.contains_key(other)
                &&& c.nodes.contains_key(other) ==> d.nodes[other] == c.nodes[other]
                &&& d.trans.routers.contains_key(other) == c.trans.routers.contains_key(other)
                &&& c.trans.routers.contains_key(other) ==> d.trans.routers[other]
                    == c.trans.routers[other]
            }
            &&& d.trans.snap_paths == c.trans.snap_paths
            &&& d == (ClusterView { nodes: d.nodes, trans: d.trans, ..c })
        }),
{
}

/// A node is being stopped in a cluster if it no longer runs and its cluster is well
/// formed but for the store that can still be reached.
pub proof fn law_stopping_means<K: Components>(c: ClusterView<K>, node_id: u64)
    ensures
        c.is_stopping(node_id) <==> {
            &&& !c.nodes.contains_key(node_id)
            &&& forall|id: u64|
                #![trigger c.nodes.contains_key(id)]
                {
                    &&& c.nodes.contains_key(id) <==> id != node_id
                        && c.trans.routers.contains_key(id)
                    &&& c.nodes.contains_key(id) ==> c.trans.snap_paths.contains_key(id)
                    &&& c.trans.snap_paths.contains_key(id) <==> c.cfg_controller.contains_key(id)
                    &&& c.trans.snap_paths.contains_key(id) <==> c.simulate_trans.contains_key(id)
                    &&& c.snap_mgrs.contains_key(id) <==> c.concurrency_managers.contains_key(id)
                    &&& c.snap_mgrs.contains_key(id) <==> c.importers.contains_key(id)
                }
        },
{
    let d = c.remove_router(node_id);
    law_well_formed_means(d);
    assert(d.nodes == c.nodes);
    assert(forall|id: u64|
        #![trigger c.nodes.contains_key(id)]
        d.trans.routers.contains_key(id) <==> id != node_id && c.trans.routers.contains_key(id));
}

/// A node may be run for an id exactly if the id is left open or no node runs under
/// it, however many nodes run.
pub proof fn law_only_a_running_node_bars_its_id<K: Components>(c: ClusterView<K>, id: u64)
    ensures
        c.can_run(id) <==> id == 0 || !c.nodes.dom().contains(id),
{
}

/// Once a node is stopped it may be run again under its id, in every cluster. Whether
/// another may be run stays the same.
pub proof fn law_stopped_node_may_be_run_again<K: Components>(
    c: ClusterView<K>,
    id: u64,
    other: u64,
)
    ensures
        c.stopped(id).can_run(id),
        other != id ==> c.stopped(id).can_run(other) == c.can_run(other),
{
}

/// A node that has started bars its id, and no other.
pub proof fn law_started_node_bars_its_id_only<K: Components, E>(
    c: ClusterView<K>,
    node_id: u64,
    snap_mgr: K::SnapManager,
    services: NodeServices<K>,
    started: StartedNode<K>,
    other: u64,
)
    ensures
        ({
            let d = c.after_run(node_id, snap_mgr, services, Ok::<StartedNode<K>, E>(started));
            &&& started.id != 0 ==> !d.can_run(started.id)
            &&& other != started.id ==> d.can_run(other) == c.can_run(other)
        }),
{
}

/// A run needs a new snapshot directory exactly if its id is left open or the store
/// has none yet.
pub proof fn law_only_a_known_store_needs_no_directory<K: Components>(c: ClusterView<K>, id: u64)
    ensures
        c.needs_snap_dir(id) <==> id == 0 || !c.trans.snap_paths.dom().contains(id),
{
}

/// What a run has to come with: an id that is open or free, a new directory exactly
/// if one is needed, and, if the node started under a given id, that very id.
pub proof fn law_run_comes_with<K: Components, E>(
    c: ClusterView<K>,
    node_id: u64,
    services: NodeServices<K>,
    outcome: Result<StartedNode<K>, E>,
)
    ensures
        c.is_run_of(node_id, services, outcome) <==> {
            &&& node_id == 0 || !c.nodes.contains_key(node_id)
            &&& services.new_snap is None <==> node_id != 0 && c.trans.snap_paths.contains_key(
                node_id,
            )
            &&& match outcome {
                Ok(started) => node_id == 0 || started.id == node_id,
                Err(_) => true,
            }
        },
{
}

/// The snapshot manager of a run is the one that was made for it, whatever other
/// stores the cluster knows. If none was made it is the one of the store itself.
pub proof fn law_run_has_its_own_snap_mgr<K: Components>(
    c: ClusterView<K>,
    node_id: u64,
    services: NodeServices<K>,
)
    ensures
        match services.new_snap {
            Some((mgr, _)) => c.snap_mgr_of_run(node_id, services) == mgr,
            None => c.snap_mgr_of_run(node_id, services) == c.trans.snap_paths[node_id].0,
        },
{
}

/// A run for which a snapshot manager was made has the same one in every cluster.
pub proof fn law_other_stores_do_not_matter_to_a_new_snap_mgr<K: Components>(
    c: ClusterView<K>,
    d: ClusterView<K>,
    node_id: u64,
    other_id: u64,
    services: NodeServices<K>,
)
    requires
        services.new_snap is Some,
    ensures
        c.snap_mgr_of_run(node_id, services) == d.snap_mgr_of_run(other_id, services),
{
}

/// After a run the services are found under the id that was asked for, whether or not
/// the node started. Under every other id they are what they were.
pub proof fn law_services_are_found_where_asked_for<K: Components, E>(
    c: ClusterView<K>,
    node_id: u64,
    snap_mgr: K::SnapManager,
    services: NodeServices<K>,
    outcome: Result<StartedNode<K>, E>,
    other: u64,
)
    ensures
        ({
            let d = c.after_run(node_id, snap_mgr, services, outcome);
            &&& d.snap_mgrs.contains_key(node_id)
            &&& d.snap_mgrs[node_id] == snap_mgr
            &&& d.concurrency_managers.contains_key(node_id)
            &&& d.concurrency_managers[node_id] == services.concurrency_manager
            &&& d.importers.contains_key(node_id)
            &&& d.importers[node_id] == services.importer
            &&& other != node_id ==> {
                &&& d.snap_mgrs.contains_key(other) == c.snap_mgrs.contains_key(other)
                &&& d.snap_mgrs[other] == c.snap_mgrs[other]
                &&& d.concurrency_managers.contains_key(other)
                    == c.concurrency_managers.contains_key(other)
                &&& d.concurrency_managers[other] == c.concurrency_managers[other]
                &&& d.importers.contains_key(other) == c.importers.contains_key(other)
                &&& d.importers[other] == c.importers[other]
            }
            &&& d.pd_client == c.pd_client
            &&& d.post_create_coprocessor_host == c.post_create_coprocessor_host
        }),
{
}

/// After a run in which the node started, the node and all that is its own are found
/// under the id that it runs under. Under every other id they are what they were. A
/// node that did not start leaves all of them as they were.
pub proof fn law_node_is_found_where_it_runs<K: Components, E>(
    c: ClusterView<K>,
    node_id: u64,
    snap_mgr: K::SnapManager,
    services: NodeServices<K>,
    outcome: Result<StartedNode<K>, E>,
    other: u64,
)
    ensures
        ({
            let d = c.after_run(node_id, snap_mgr, services, outcome);
            &&& outcome matches Ok(started) ==> {
                &&& d.nodes.contains_key(started.id)
                &&& d.nodes[started.id] == started.node
                &&& d.trans.routers.contains_key(started.id)
                &&& d.trans.routers[started.id] == started.router
                &&& d.cfg_controller.contains_key(started.id)
                &&& d.cfg_controller[started.id] == started.cfg_controller
                &&& d.simulate_trans.contains_key(started.id)
                &&& d.simulate_trans[started.id] == started.simulate_trans
            }
            &&& outcome is Err || outcome->Ok_0.id != other ==> {
                &&& d.nodes.contains_key(other) == c.nodes.contains_key(other)
                &&& d.nodes[other] == c.nodes[other]
                &&& d.trans.routers.contains_key(other) == c.trans.routers.contains_key(other)
                &&& d.trans.routers[other] == c.trans.routers[other]
                &&& d.cfg_controller.contains_key(other) == c.cfg_controller.contains_key(other)
                &&& d.cfg_controller[other] == c.cfg_controller[other]
                &&& d.simulate_trans.contains_key(other) == c.simulate_trans.contains_key(other)
                &&& d.simulate_trans[other] == c.simulate_trans[other]
            }
        }),
{
}

/// A store whose node started with a new snapshot directory has that directory from
/// then on, and its path is what the store tells, whatever its id is. Every other
/// store keeps the directory that it has; and a run that brought none, or whose node
/// did not start, changes no directory.
pub proof fn law_store_tells_the_directory_made_for_it<K: Components, E>(
    c: ClusterView<K>,
    node_id: u64,
    snap_mgr: K::SnapManager,
    services: NodeServices<K>,
    outcome: Result<StartedNode<K>, E>,
    other: u64,
)
    ensures
        ({
            let d = c.after_run(node_id, snap_mgr, services, outcome);
            &&& outcome is Ok && services.new_snap is Some ==> {
                let id = outcome->Ok_0.id;
                let made = services.new_snap->Some_0;
                &&& d.trans.snap_paths.contains_key(id)
                &&& d.trans.snap_paths[id] == made
                &&& d.trans.snap_dir(id) == crate::temp_dir::temp_dir_path(made.1)
            }
            &&& outcome is Err || services.new_snap is None || outcome->Ok_0.id != other ==> {
                &&& d.trans.snap_paths.contains_key(other) == c.trans.snap_paths.contains_key(
                    other,
                )
                &&& d.trans.snap_paths[other] == c.trans.snap_paths[other]
                &&& d.trans.snap_dir(other) == c.trans.snap_dir(other)
            }
        }),
{
}

/// Acting on nodes, routers and outgoing transports, setting a hook and stopping a
/// node leave the snapshot directory that any store tells as it is.
pub proof fn law_only_a_run_changes_directories<K: Components>(
    c: ClusterView<K>,
    node_id: u64,
    node: K::Node,
    router: K::Router,
    trans: K::SimulateTransport,
    hook: K::CoprocessorHook,
    store: u64,
)
    ensures
        c.put_node(node_id, node).trans.snap_dir(store) == c.trans.snap_dir(store),
        c.put_router(node_id, router).trans.snap_dir(store) == c.trans.snap_dir(store),
        c.put_simulate_trans(node_id, trans).trans.snap_dir(store) == c.trans.snap_dir(store),
        c.with_hook(hook).trans.snap_dir(store) == c.trans.snap_dir(store),
        c.stopped(node_id).trans.snap_dir(store) == c.trans.snap_dir(store),
{
}

} // verus!
