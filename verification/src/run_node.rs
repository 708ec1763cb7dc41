//! How a node becomes part of a cluster.
//!
//! To run a node, the caller builds and starts it in the steps that
//! [`crate::run_steps`] gives, and tells [`NodeCluster::run_node`] how that went.

use tempfile::TempDir;
use vstd::prelude::*;

use crate::cluster::{ClusterView, NodeCluster};
use crate::components::Components;
use crate::transport::TransportView;

verus! {

/// Where the snapshot manager of a node comes from.
pub enum SnapSource<S> {
    /// A directory and a manager for it are to be made.
    Create,
    /// The store has run before: its manager serves again.
    Reuse(S),
}

/// What is made for a node before it starts.
pub struct NodeServices<K: Components> {
    /// A snapshot manager with its directory, if they were made for this run.
    pub new_snap: Option<(K::SnapManager, TempDir)>,
    pub concurrency_manager: K::ConcurrencyManager,
    pub importer: K::Importer,
}

/// A node that has started.
pub struct StartedNode<K: Components> {
    /// The id that the node runs under.
    pub id: u64,
    pub node: K::Node,
    pub router: K::Router,
    pub cfg_controller: K::ConfigController,
    pub simulate_trans: K::SimulateTransport,
}

impl<K: Components> ClusterView<K> {
    /// A node may be run for `node_id`: the id is left open, or no node runs
    /// under it.
    pub open spec fn can_run(self, node_id: u64) -> bool {
        node_id == 0 || !self.nodes.contains_key(node_id)
    }

    /// A node that is run for `node_id` needs a new snapshot directory.
    pub open spec fn needs_snap_dir(self, node_id: u64) -> bool {
        node_id == 0 || !self.trans.snap_paths.contains_key(node_id)
    }

    /// The snapshot manager of a node that is run for `node_id`: the one that was
    /// made for the run, or else the one that the store has had before.
    pub open spec fn snap_mgr_of_run(
        self,
        node_id: u64,
        services: NodeServices<K>,
    ) -> K::SnapManager {
        match services.new_snap {
            Some(new_snap) => new_snap.0,
            None => self.trans.snap_paths[node_id].0,
        }
    }

    /// The cluster with the services of a node that is run for `node_id`: they
    /// are filed under the id that was asked for.
    pub open spec fn attach(
        self,
        node_id: u64,
        snap_mgr: K::SnapManager,
        services: NodeServices<K>,
    ) -> Self {
        ClusterView {
            snap_mgrs: self.snap_mgrs.insert(node_id, snap_mgr),
            concurrency_managers: self.concurrency_managers.insert(
                node_id,
                services.concurrency_manager,
            ),
            importers: self.importers.insert(node_id, services.importer),
            ..self
        }
    }

    /// The cluster with a node that has started: it is filed under the id that
    /// it runs under.
    pub open spec fn launch(self, services: NodeServices<K>, started: StartedNode<K>) -> Self {
        let id = started.id;
        ClusterView {
            trans: TransportView {
                snap_paths: match services.new_snap {
                    Some(new_snap) => self.trans.snap_paths.insert(id, new_snap),
                    None => self.trans.snap_paths,
                },
                routers: self.trans.routers.insert(id, started.router),
            },
            nodes: self.nodes.insert(id, started.node),
            cfg_controller: self.cfg_controller.insert(id, started.cfg_controller),
            simulate_trans: self.simulate_trans.insert(id, started.simulate_trans),
            ..self
        }
    }

    /// The cluster after a node was run for `node_id`. `snap_mgr` is the handle
    /// to its snapshot manager that is kept under `node_id`.
    pub open spec fn after_run<E>(
        self,
        node_id: u64,
        snap_mgr: K::SnapManager,
        services: NodeServices<K>,
        outcome: Result<StartedNode<K>, E>,
    ) -> Self {
        let attached = self.attach(node_id, snap_mgr, services);
        match outcome {
            Ok(started) => attached.launch(services, started),
            Err(_) => attached,
        }
    }

    /// `services` and `outcome` can be those of a run for `node_id`: a directory
    /// was made exactly if one is needed, and a node that was asked to run under
    /// an id does.
    pub open spec fn is_run_of<E>(
        self,
        node_id: u64,
        services: NodeServices<K>,
        outcome: Result<StartedNode<K>, E>,
    ) -> bool {
        &&& self.can_run(node_id)
        &&& services.new_snap is Some <==> self.needs_snap_dir(node_id)
        &&& outcome matches Ok(started) ==> node_id == 0 || node_id == started.id
    }
}

impl<K: Components> NodeCluster<K> {
    /// Whether a node may be run for `node_id`.
    pub fn can_run(&self, node_id: u64) -> (b: bool)
        ensures
            b == self@.can_run(node_id),
            b <==> node_id == 0 || !self@.nodes.dom().contains(node_id),
    {
        node_id == 0 || !self.nodes.contains_key(&node_id)
    }

    /// Where the snapshot manager of a node that is run for `node_id` comes from.
    pub fn plan_run_node(&self, node_id: u64) -> (source: SnapSource<K::SnapManager>)
        requires
            self@.can_run(node_id),
        ensures
            match source {
                SnapSource::Create => self@.needs_snap_dir(node_id),
                SnapSource::Reuse(mgr) => {
                    &&& !self@.needs_snap_dir(node_id)
                    &&& cloned(self@.trans.snap_paths[node_id].0, mgr)
                },
            },
            source is Create <==> node_id == 0 || !self@.trans.snap_paths.dom().contains(node_id),
    {
        if node_id == 0 {
            return SnapSource::Create;
        }
        match self.trans.snap_mgr(node_id) {
            Some(mgr) => SnapSource::Reuse(mgr.clone()),
            None => SnapSource::Create,
        }
    }

    /// Files what was made for a node that was run for `node_id`, and the node
    /// itself if it started. Returns the id that the node runs under, or why it
    /// did not start.
    pub fn run_node<E>(
        &mut self,
        node_id: u64,
        services: NodeServices<K>,
        outcome: Result<StartedNode<K>, E>,
    ) -> (result: Result<u64, E>)
        requires
            old(self)@.is_run_of(node_id, services, outcome),
        ensures
            final(self)@ == old(self)@.after_run(
                node_id,
                final(self)@.snap_mgrs[node_id],
                services,
                outcome,
            ),
            cloned(
                old(self)@.snap_mgr_of_run(node_id, services),
                final(self)@.snap_mgrs[node_id],
            ),
            match services.new_snap {
                Some(new_snap) => cloned(new_snap.0, final(self)@.snap_mgrs[node_id]),
                None => cloned(
                    old(self)@.trans.snap_paths[node_id].0,
                    final(self)@.snap_mgrs[node_id],
                ),
            },
            match outcome {
                Ok(started) => result == Ok::<u64, E>(started.id),
                Err(e) => result == Err::<u64, E>(e),
            },
            old(self)@.well_formed() ==> final(self)@.well_formed(),
    {
        proof {
            if self@.well_formed() {
                assert forall|mgr: K::SnapManager|
                    (#[trigger] self@.after_run(
                        node_id,
                        mgr,
                        services,
                        outcome,
                    )).well_formed() by {
                    crate::cluster_laws::law_run_keeps_well_formed(
                        self@,
                        node_id,
                        mgr,
                        services,
                        outcome,
                    );
                }
            }
        }
        let NodeServices { new_snap, concurrency_manager, importer } = services;
        let snap_mgr = match &new_snap {
            Some(new_snap) => new_snap.0.clone(),
            None => self.trans.snap_mgr(node_id).unwrap().clone(),
        };
        self.snap_mgrs.insert(node_id, snap_mgr);
        self.concurrency_managers.insert(node_id, concurrency_manager);
        self.importers.insert(node_id, importer);
        let StartedNode { id, node, router, cfg_controller, simulate_trans } = match outcome {
            Ok(started) => started,
            Err(e) => {
                return Err(e);
            },
        };
        if let Some(new_snap) = new_snap {
            self.trans.core.snap_paths.insert(id, new_snap);
        }
        self.trans.core.routers.insert(id, router);
        self.nodes.insert(id, node);
        self.cfg_controller.insert(id, cfg_controller);
        self.simulate_trans.insert(id, simulate_trans);
        Ok(id)
    }
}

/// The name of the directory, next to the data of a store, that files are imported
/// from.
pub const IMPORT_DIR: &'static str = "import-sst";

/// The timestamp that the concurrency manager of a node begins with.
pub const FIRST_TIMESTAMP: u64 = 1;

/// The number of threads that do the background work of a node.
pub const BACKGROUND_THREADS: usize = 2;

/// How often the disk figures of a store are renewed, in milliseconds.
pub const DISK_STATUS_INTERVAL_MILLIS: u64 = 1000;

/// The settings of a store that its snapshot manager depends on.
#[derive(Clone, Copy, Debug, PartialEq, Eq, Structural)]
pub struct SnapConfig {
    pub snap_io_max_bytes_per_sec: u64,
    pub snap_max_total_size: u64,
    pub concurrent_recv_snap_limit: usize,
    pub max_snapshot_file_raw_size: u64,
    pub enable_v2_compatible_learner: bool,
    pub snap_min_ingest_size: u64,
}

/// How a snapshot manager is built.
#[derive(Clone, Copy, Debug, PartialEq, Eq, Structural)]
pub struct SnapManagerOptions {
    pub max_write_bytes_per_sec: i64,
    pub max_total_size: u64,
    pub concurrent_recv_snap_limit: usize,
    pub max_per_file_size: u64,
    pub enable_multi_snapshot_files: bool,
    pub enable_receive_tablet_snapshot: bool,
    pub min_ingest_snapshot_limit: u64,
}

/// The signed number with the same sixty-four bits as `n`.
pub open spec fn reinterpreted(n: u64) -> int {
    if n <= i64::MAX {
        n as int
    } else {
        n - 0x1_0000_0000_0000_0000
    }
}

/// A rate that a signed number can hold is that very rate. A larger one comes out
/// as the negative number that is two to the sixty-fourth less.
pub proof fn law_rate_is_kept(rate: u64)
    ensures
        rate <= i64::MAX ==> reinterpreted(rate) == rate,
        rate > i64::MAX ==> reinterpreted(rate) == rate - 0x1_0000_0000_0000_0000,
        i64::MIN <= reinterpreted(rate) <= i64::MAX,
{
}

/// No two rates are taken for the same.
pub proof fn law_rates_stay_apart(rate: u64, other: u64)
    requires
        reinterpreted(rate) == reinterpreted(other),
    ensures
        rate == other,
{
}

impl SnapManagerOptions {
    /// The options of the snapshot manager of a store with the settings `cfg`.
    /// Snapshots may always take several files.
    pub fn new(cfg: &SnapConfig) -> (options: SnapManagerOptions)
        ensures
            options.max_write_bytes_per_sec == reinterpreted(cfg.snap_io_max_bytes_per_sec),
            cfg.snap_io_max_bytes_per_sec <= i64::MAX ==> options.max_write_bytes_per_sec
                == cfg.snap_io_max_bytes_per_sec,
            cfg.snap_io_max_bytes_per_sec > i64::MAX ==> options.max_write_bytes_per_sec
                == cfg.snap_io_max_bytes_per_sec - 0x1_0000_0000_0000_0000,
            options.max_total_size == cfg.snap_max_total_size,
            options.concurrent_recv_snap_limit == cfg.concurrent_recv_snap_limit,
            options.max_per_file_size == cfg.max_snapshot_file_raw_size,
            options.enable_multi_snapshot_files,
            options.enable_receive_tablet_snapshot == cfg.enable_v2_compatible_learner,
            options.min_ingest_snapshot_limit == cfg.snap_min_ingest_size,
    {
        let rate: u64 = cfg.snap_io_max_bytes_per_sec;
        assert(if rate <= 0x7fff_ffff_ffff_ffff {
            rate as i64 == rate
        } else {
            rate as i64 == rate - 0x1_0000_0000_0000_0000
        }) by (bit_vector);
        SnapManagerOptions {
            max_write_bytes_per_sec: #[verifier::truncate] (rate as i64),
            max_total_size: cfg.snap_max_total_size,
            concurrent_recv_snap_limit: cfg.concurrent_recv_snap_limit,
            max_per_file_size: cfg.max_snapshot_file_raw_size,
            enable_multi_snapshot_files: true,
            enable_receive_tablet_snapshot: cfg.enable_v2_compatible_learner,
            min_ingest_snapshot_limit: cfg.snap_min_ingest_size,
        }
    }
}

/// The disk figures of a store.
#[derive(Clone, Copy, Debug, PartialEq, Eq, Structural)]
pub struct DiskStatus {
    pub capacity: u64,
    pub used_size: u64,
    pub available_size: u64,
}

/// The disk figures of a store whose snapshots take `snap_size` and whose engine
/// takes `kv_size`, on a disk of `capacity` with `available` left.
pub fn disk_status(snap_size: u64, kv_size: u64, capacity: u64, available: u64) -> (status:
    DiskStatus)
    requires
        snap_size + kv_size <= capacity,
    ensures
        status.capacity == capacity,
        status.used_size == snap_size + kv_size,
        status.available_size <= available,
        status.available_size <= capacity - (snap_size + kv_size),
        status.available_size == available || status.available_size == capacity - (snap_size
            + kv_size),
{
    let used_size: u64 = snap_size + kv_size;
    let free: u64 = capacity - used_size;
    DiskStatus {
        capacity,
        used_size,
        available_size: if available <= free {
            available
        } else {
            free
        },
    }
}

} // verus!
