//! What holds of a cluster over any number of changes.

use vstd::prelude::*;

use crate::cluster::ClusterView;
use crate::components::Components;
use crate::run_laws::{RunCourse, RunOutcomes};
use crate::run_node::{NodeServices, StartedNode};

verus! {

/// A change of a cluster.
pub enum ClusterEvent<K: Components, E> {
    /// The coprocessor hook is set.
    SetHook { hook: K::CoprocessorHook },
    /// A node is run for `node_id`, and the run comes to a result. `snap_mgr` is
    /// the handle to its snapshot manager that is kept under `node_id`.
    Run {
        node_id: u64,
        snap_mgr: K::SnapManager,
        services: NodeServices<K>,
        outcomes: RunOutcomes<E>,
        outcome: Result<StartedNode<K>, E>,
    },
    /// The node `node_id` is stopped.
    Stop { node_id: u64 },
    /// The node `node_id` is acted on in place.
    ActOnNode { node_id: u64, node: K::Node },
    /// The router of the store `node_id` is acted on in place.
    ActOnRouter { node_id: u64, router: K::Router },
    /// The outgoing transport of the node `node_id` is acted on in place.
    ActOnTransport { node_id: u64, trans: K::SimulateTransport },
}

impl<K: Components> ClusterView<K> {
    /// The change is possible: what the function that makes it asks for holds.
    pub open spec fn can_happen<E>(self, event: ClusterEvent<K, E>) -> bool {
        match event {
            ClusterEvent::SetHook { .. } => true,
            ClusterEvent::Run { node_id, snap_mgr, services, outcomes, outcome } => {
                let course = RunCourse { cluster: self, outcomes };
                &&& self.is_run_of(node_id, services, outcome)
                &&& cloned(self.snap_mgr_of_run(node_id, services), snap_mgr)
                &&& match course.trace(node_id).result {
                    Some(Ok(())) => outcome is Ok,
                    Some(Err(e)) => outcome == Err::<StartedNode<K>, E>(e),
                    None => false,
                }
            },
            ClusterEvent::Stop { node_id } => self.trans.routers.contains_key(node_id),
            ClusterEvent::ActOnNode { node_id, .. } => self.nodes.contains_key(node_id),
            ClusterEvent::ActOnRouter { node_id, .. } => self.trans.routers.contains_key(node_id),
            ClusterEvent::ActOnTransport { node_id, .. } => self.simulate_trans.contains_key(
                node_id,
            ),
        }
    }

    /// The cluster after the change.
    pub open spec fn after_event<E>(self, event: ClusterEvent<K, E>) -> Self {
        match event {
            ClusterEvent::SetHook { hook } => self.with_hook(hook),
            ClusterEvent::Run { node_id, snap_mgr, services, outcome, .. } => self.after_run(
                node_id,
                snap_mgr,
                services,
                outcome,
            ),
            ClusterEvent::Stop { node_id } => self.stopped(node_id),
            ClusterEvent::ActOnNode { node_id, node } => self.put_node(node_id, node),
            ClusterEvent::ActOnRouter { node_id, router } => self.put_router(node_id, router),
            ClusterEvent::ActOnTransport { node_id, trans } => self.put_simulate_trans(
                node_id,
                trans,
            ),
        }
    }

    /// The calls of coprocessor hooks that the change makes.
    pub open spec fn calls_of_event<E>(self, event: ClusterEvent<K, E>) -> Seq<
        (u64, K::CoprocessorHook),
    > {
        match event {
            ClusterEvent::Run { node_id, outcomes, .. } => RunCourse {
                cluster: self,
                outcomes,
            }.trace(node_id).calls,
            _ => Seq::empty(),
        }
    }

    /// The cluster after the changes, one after the other.
    pub open spec fn replay<E>(self, events: Seq<ClusterEvent<K, E>>) -> Self
        decreases events.len(),
    {
        if events.len() == 0 {
            self
        } else {
            self.replay(events.drop_last()).after_event(events.last())
        }
    }

    /// Each of the changes is possible when it is made.
    pub open spec fn is_history<E>(self, events: Seq<ClusterEvent<K, E>>) -> bool
        decreases events.len(),
    {
        events.len() == 0 || {
            &&& self.is_history(events.drop_last())
            &&& self.replay(events.drop_last()).can_happen(events.last())
        }
    }

    /// The calls of coprocessor hooks that the changes make.
    pub open spec fn calls_over<E>(self, events: Seq<ClusterEvent<K, E>>) -> Seq<
        (u64, K::CoprocessorHook),
    >
        decreases events.len(),
    {
        if events.len() == 0 {
            Seq::empty()
        } else {
            let before = events.drop_last();
            self.calls_over(before) + self.replay(before).calls_of_event(events.last())
        }
    }

    /// No two stores share the path of a snapshot directory.
    pub open spec fn dirs_are_distinct(self) -> bool {
        forall|a: u64, b: u64|
            a != b && (#[trigger] self.trans.snap_dir(a)) is Some ==> self.trans.snap_dir(a) != (
            #[trigger] self.trans.snap_dir(b))
    }

    /// A directory that the change brings along has a path that no store uses.
    pub open spec fn brings_new_dir<E>(self, event: ClusterEvent<K, E>) -> bool {
        match event {
            ClusterEvent::Run { services, .. } => match services.new_snap {
                Some(new_snap) => {
                    let path = crate::temp_dir::temp_dir_path(new_snap.1);
                    path is Some ==> forall|id: u64| #[trigger] self.trans.snap_dir(id) != path
                },
                None => true,
            },
            _ => true,
        }
    }

    /// Each directory that the changes bring along has a path that no store uses
    /// at that time.
    pub open spec fn brings_new_dirs<E>(self, events: Seq<ClusterEvent<K, E>>) -> bool
        decreases events.len(),
    {
        events.len() == 0 || {
            &&& self.brings_new_dirs(events.drop_last())
            &&& self.replay(events.drop_last()).brings_new_dir(events.last())
        }
    }
}

impl<K: Components, E> ClusterEvent<K, E> {
    /// The change is a run that left the id open and came to run as `id`: such a
    /// run always brings a new snapshot directory for `id`.
    pub open spec fn takes_over(self, id: u64) -> bool {
        &&& self matches ClusterEvent::Run { node_id, outcome, .. }
        &&& node_id == 0
        &&& outcome matches Ok(started)
        &&& started.id == id
    }

    /// The change is a run for `id`, whatever came of it.
    pub open spec fn is_run_for(self, id: u64) -> bool {
        self matches ClusterEvent::Run { node_id, .. } && node_id == id
    }

    /// The change starts the node `id`.
    pub open spec fn starts(self, id: u64) -> bool {
        &&& self matches ClusterEvent::Run { outcome, .. }
        &&& outcome matches Ok(started)
        &&& started.id == id
    }

    /// The change stops the node `id`.
    pub open spec fn stops(self, id: u64) -> bool {
        self matches ClusterEvent::Stop { node_id } && node_id == id
    }
}

/// From the change `from` on, the node `id` is not stopped.
pub open spec fn stops_never<K: Components, E>(
    events: Seq<ClusterEvent<K, E>>,
    from: int,
    id: u64,
) -> bool {
    forall|j: int| from <= j < events.len() ==> !(#[trigger] events[j]).stops(id)
}

/// The node `id` is started and not stopped since.
pub open spec fn started_for_good<K: Components, E>(
    events: Seq<ClusterEvent<K, E>>,
    id: u64,
) -> bool {
    exists|i: int|
        0 <= i < events.len() && (#[trigger] events[i]).starts(id) && stops_never(
            events,
            i + 1,
            id,
        )
}

/// The ids that nodes are run for, in order.
pub open spec fn run_ids<K: Components, E>(events: Seq<ClusterEvent<K, E>>) -> Seq<u64>
    decreases events.len(),
{
    if events.len() == 0 {
        Seq::empty()
    } else {
        let before = run_ids(events.drop_last());
        match events.last() {
            ClusterEvent::Run { node_id, .. } => before.push(node_id),
            _ => before,
        }
    }
}

/// A well-formed cluster stays so over every history.
pub proof fn law_history_keeps_well_formed<K: Components, E>(
    c: ClusterView<K>,
    events: Seq<ClusterEvent<K, E>>,
)
    requires
        c.well_formed(),
        c.is_history(events),
    ensures
        c.replay(events).well_formed(),
    decreases events.len(),
{
    if events.len() > 0 {
        law_history_keeps_well_formed(c, events.drop_last());
        let d = c.replay(events.drop_last());
        match events.last() {
            ClusterEvent::SetHook { hook } => {
                crate::cluster_laws::law_hook_keeps_well_formed(d, hook);
            },
            ClusterEvent::Run { node_id, snap_mgr, services, outcome, .. } => {
                crate::cluster_laws::law_run_keeps_well_formed(
                    d,
                    node_id,
                    snap_mgr,
                    services,
                    outcome,
                );
            },
            ClusterEvent::Stop { node_id } => {
                crate::cluster_laws::law_stop_keeps_well_formed(d, node_id);
            },
            ClusterEvent::ActOnNode { node_id, node } => {
                crate::cluster_laws::law_acting_on_node_keeps_well_formed(d, node_id, node);
            },
            ClusterEvent::ActOnRouter { node_id, router } => {
                crate::cluster_laws::law_acting_on_router_keeps_well_formed(d, node_id, router);
            },
            ClusterEvent::ActOnTransport { node_id, trans } => {
                crate::cluster_laws::law_acting_on_transport_keeps_well_formed(d, node_id, trans);
            },
        }
    }
}

/// After a history exactly those nodes run that were started and not stopped since,
/// and those that ran before it and were not stopped either.
pub proof fn law_started_nodes_run_until_stopped<K: Components, E>(
    c: ClusterView<K>,
    events: Seq<ClusterEvent<K, E>>,
    id: u64,
)
    requires
        c.is_history(events),
    ensures
        c.replay(events).nodes.contains_key(id) <==> (started_for_good(events, id) || (
        c.nodes.contains_key(id) && stops_never(events, 0, id))),
    decreases events.len(),
{
    if events.len() > 0 {
        let before = events.drop_last();
        let n: int = events.len() - 1;
        law_started_nodes_run_until_stopped(c, before, id);
        assert(forall|j: int| 0 <= j < n ==> events[j] == before[j]);
        if events[n].starts(id) {
            assert(stops_never(events, n + 1, id));
            assert(started_for_good(events, id));
        } else if events[n].stops(id) {
            assert(!started_for_good(events, id));
        } else {
            assert forall|from: int| 0 <= from implies stops_never(events, from, id)
                == stops_never(before, from, id) by {
                if stops_never(events, from, id) {
                    assert forall|j: int| from <= j < before.len() implies !(
                    #[trigger] before[j]).stops(id) by {
                        assert(!events[j].stops(id));
                    }
                }
            }
            if started_for_good(before, id) {
                let i = choose|i: int|
                    0 <= i < before.len() && (#[trigger] before[i]).starts(id) && stops_never(
                        before,
                        i + 1,
                        id,
                    );
                assert(events[i].starts(id) && stops_never(events, i + 1, id));
            }
            if started_for_good(events, id) {
                let i = choose|i: int|
                    0 <= i < events.len() && (#[trigger] events[i]).starts(id) && stops_never(
                        events,
                        i + 1,
                        id,
                    );
                assert(before[i].starts(id) && stops_never(before, i + 1, id));
            }
        }
    }
}

/// In a cluster that began without nodes exactly those nodes run, and exactly those
/// stores can be reached, that were started and not stopped since.
pub proof fn law_running_nodes_are_those_started<K: Components, E>(
    pd_client: K::PdClient,
    events: Seq<ClusterEvent<K, E>>,
    id: u64,
)
    requires
        ClusterView::<K>::empty(pd_client).is_history(events),
    ensures
        ({
            let d = ClusterView::<K>::empty(pd_client).replay(events);
            &&& d.nodes.contains_key(id) <==> started_for_good(events, id)
            &&& d.trans.routers.contains_key(id) <==> started_for_good(events, id)
        }),
{
    let empty = ClusterView::<K>::empty(pd_client);
    law_started_nodes_run_until_stopped(empty, events, id);
    crate::cluster_laws::law_empty_is_well_formed::<K>(pd_client);
    law_history_keeps_well_formed(empty, events);
    let d = empty.replay(events);
    assert(d.nodes.dom().contains(id) <==> d.trans.routers.dom().contains(id));
}

/// The snapshot manager, the concurrency manager and the importer that are filed
/// under an id stay what they are until a node is run for that id.
pub proof fn law_services_stay_until_next_run<K: Components, E>(
    c: ClusterView<K>,
    events: Seq<ClusterEvent<K, E>>,
    id: u64,
)
    requires
        forall|i: int| 0 <= i < events.len() ==> !(#[trigger] events[i]).is_run_for(id),
    ensures
        ({
            let d = c.replay(events);
            &&& d.snap_mgrs.contains_key(id) == c.snap_mgrs.contains_key(id)
            &&& d.snap_mgrs[id] == c.snap_mgrs[id]
            &&& d.concurrency_managers.contains_key(id) == c.concurrency_managers.contains_key(id)
            &&& d.concurrency_managers[id] == c.concurrency_managers[id]
            &&& d.importers.contains_key(id) == c.importers.contains_key(id)
            &&& d.importers[id] == c.importers[id]
        }),
    decreases events.len(),
{
    if events.len() > 0 {
        let before = events.drop_last();
        assert forall|i: int| 0 <= i < before.len() implies !(#[trigger] before[i]).is_run_for(
            id,
        ) by {
            assert(before[i] == events[i]);
        }
        law_services_stay_until_next_run(c, before, id);
        assert(!events[events.len() - 1].is_run_for(id));
    }
}

/// The configuration controller of a node stays what it is until a node is started
/// under its id again.
pub proof fn law_cfg_controller_stays_until_next_start<K: Components, E>(
    c: ClusterView<K>,
    events: Seq<ClusterEvent<K, E>>,
    id: u64,
)
    requires
        forall|i: int| 0 <= i < events.len() ==> !(#[trigger] events[i]).starts(id),
    ensures
        c.replay(events).cfg_controller.contains_key(id) == c.cfg_controller.contains_key(id),
        c.replay(events).cfg_controller[id] == c.cfg_controller[id],
    decreases events.len(),
{
    if events.len() > 0 {
        let before = events.drop_last();
        assert forall|i: int| 0 <= i < before.len() implies !(#[trigger] before[i]).starts(
            id,
        ) by {
            assert(before[i] == events[i]);
        }
        law_cfg_controller_stays_until_next_start(c, before, id);
        assert(!events[events.len() - 1].starts(id));
    }
}

/// Whatever comes after a run, what the run made for its id serves until the next
/// run for that id: its concurrency manager, its importer, and a handle to its
/// snapshot manager, which is the one that was made for the run or else the one that
/// the store has had before. If the node started, its configuration controller
/// serves until a node is started under the same id again.
pub proof fn law_last_run_provides<K: Components, E>(
    c: ClusterView<K>,
    run: ClusterEvent<K, E>,
    events: Seq<ClusterEvent<K, E>>,
)
    requires
        run is Run,
        c.can_happen(run),
    ensures
        ({
            let d = c.after_event(run).replay(events);
            let id = run->Run_node_id;
            let services = run->Run_services;
            (forall|i: int| 0 <= i < events.len() ==> !(#[trigger] events[i]).is_run_for(id)) ==> {
                &&& d.snap_mgrs.contains_key(id)
                &&& cloned(c.snap_mgr_of_run(id, services), d.snap_mgrs[id])
                &&& d.concurrency_managers.contains_key(id)
                &&& d.concurrency_managers[id] == services.concurrency_manager
                &&& d.importers.contains_key(id)
                &&& d.importers[id] == services.importer
            }
        }),
        run->Run_outcome matches Ok(started) ==> {
            let d = c.after_event(run).replay(events);
            (forall|i: int| 0 <= i < events.len() ==> !(#[trigger] events[i]).starts(started.id))
                ==> {
                &&& d.cfg_controller.contains_key(started.id)
                &&& d.cfg_controller[started.id] == started.cfg_controller
            }
        },
{
    let id = run->Run_node_id;
    if forall|i: int| 0 <= i < events.len() ==> !(#[trigger] events[i]).is_run_for(id) {
        law_services_stay_until_next_run(c.after_event(run), events, id);
    }
    if let Ok(started) = run->Run_outcome {
        if forall|i: int| 0 <= i < events.len() ==> !(#[trigger] events[i]).starts(started.id) {
            law_cfg_controller_stays_until_next_start(c.after_event(run), events, started.id);
        }
    }
}

/// A store keeps its snapshot directory and its snapshot manager over every
/// history, while its node runs and while it is stopped. The one exception is a
/// run that left the id open and came to run as this store.
pub proof fn law_history_keeps_snap_dir<K: Components, E>(
    c: ClusterView<K>,
    events: Seq<ClusterEvent<K, E>>,
    id: u64,
)
    requires
        c.trans.snap_paths.contains_key(id),
        c.is_history(events),
        forall|i: int| 0 <= i < events.len() ==> !(#[trigger] events[i]).takes_over(id),
    ensures
        c.replay(events).trans.snap_paths.contains_key(id),
        c.replay(events).trans.snap_paths[id] == c.trans.snap_paths[id],
        c.replay(events).trans.snap_dir(id) == c.trans.snap_dir(id),
    decreases events.len(),
{
    if events.len() > 0 {
        let before = events.drop_last();
        assert forall|i: int| 0 <= i < before.len() implies !(#[trigger] before[i]).takes_over(
            id,
        ) by {
            assert(before[i] == events[i]);
        }
        law_history_keeps_snap_dir(c, before, id);
        assert(!events[events.len() - 1].takes_over(id));
    }
}

/// No history takes the snapshot directory of a store away: a store that has one
/// when a snapshot is opened still has one when the copy is over.
pub proof fn law_history_gives_up_no_snap_dir<K: Components, E>(
    c: ClusterView<K>,
    events: Seq<ClusterEvent<K, E>>,
)
    ensures
        c.trans.snap_paths.dom().subset_of(c.replay(events).trans.snap_paths.dom()),
    decreases events.len(),
{
    if events.len() > 0 {
        law_history_gives_up_no_snap_dir(c, events.drop_last());
    }
}

/// The snapshot directories of a cluster stay distinct over a run whose new
/// directory, if it brings one, has a path that no store uses.
pub proof fn law_run_keeps_dirs_distinct<K: Components, E>(
    c: ClusterView<K>,
    node_id: u64,
    snap_mgr: K::SnapManager,
    services: NodeServices<K>,
    outcome: Result<StartedNode<K>, E>,
)
    requires
        c.dirs_are_distinct(),
        services.new_snap matches Some(new_snap) ==> {
            let path = crate::temp_dir::temp_dir_path(new_snap.1);
            path is Some ==> forall|id: u64| #[trigger] c.trans.snap_dir(id) != path
        },
    ensures
        c.after_run(node_id, snap_mgr, services, outcome).dirs_are_distinct(),
{
    let d = c.after_run(node_id, snap_mgr, services, outcome);
    assert forall|a: u64, b: u64|
        a != b && (#[trigger] d.trans.snap_dir(a)) is Some implies d.trans.snap_dir(a) != (
    #[trigger] d.trans.snap_dir(b)) by {
        assert(c.trans.snap_dir(a) is Some ==> c.trans.snap_dir(a) != c.trans.snap_dir(b));
        assert(c.trans.snap_dir(b) is Some ==> c.trans.snap_dir(b) != c.trans.snap_dir(a));
    }
}

/// The snapshot directories of a cluster stay distinct over a stop.
pub proof fn law_stop_keeps_dirs_distinct<K: Components>(c: ClusterView<K>, node_id: u64)
    requires
        c.dirs_are_distinct(),
    ensures
        c.stopped(node_id).dirs_are_distinct(),
{
    let d = c.stopped(node_id);
    assert forall|a: u64, b: u64|
        a != b && (#[trigger] d.trans.snap_dir(a)) is Some implies d.trans.snap_dir(a) != (
    #[trigger] d.trans.snap_dir(b)) by {
        assert(c.trans.snap_dir(a) == d.trans.snap_dir(a));
        assert(c.trans.snap_dir(b) == d.trans.snap_dir(b));
    }
}

/// No two stores ever share a snapshot directory, as long as every directory
/// that is brought along has a path that no store uses.
pub proof fn law_history_keeps_dirs_distinct<K: Components, E>(
    c: ClusterView<K>,
    events: Seq<ClusterEvent<K, E>>,
)
    requires
        c.dirs_are_distinct(),
        c.brings_new_dirs(events),
    ensures
        c.replay(events).dirs_are_distinct(),
    decreases events.len(),
{
    if events.len() > 0 {
        law_history_keeps_dirs_distinct(c, events.drop_last());
        let before = c.replay(events.drop_last());
        let after = c.replay(events);
        match events.last() {
            ClusterEvent::Run { node_id, snap_mgr, services, outcome, .. } => {
                law_run_keeps_dirs_distinct(before, node_id, snap_mgr, services, outcome);
            },
            ClusterEvent::Stop { node_id } => {
                law_stop_keeps_dirs_distinct(before, node_id);
            },
            _ => {
                assert forall|a: u64, b: u64|
                    a != b && (#[trigger] after.trans.snap_dir(a)) is Some implies after.trans.snap_dir(
                a) != (#[trigger] after.trans.snap_dir(b)) by {
                    assert(before.trans.snap_dir(a) == after.trans.snap_dir(a));
                    assert(before.trans.snap_dir(b) == after.trans.snap_dir(b));
                }
            },
        }
    }
}

/// In a cluster that began without nodes the snapshot directory of a store stays
/// what it is over every history, apart from a run that left the id open and came to
/// run as this store. No other store has the same, if only new directories were
/// brought along.
pub proof fn law_snap_dir_is_lasting_and_its_own<K: Components, E>(
    pd_client: K::PdClient,
    first: Seq<ClusterEvent<K, E>>,
    then_on: Seq<ClusterEvent<K, E>>,
    id: u64,
    other: u64,
)
    requires
        ({
            let c = ClusterView::<K>::empty(pd_client).replay(first);
            &&& c.is_history(then_on)
            &&& c.trans.snap_dir(id) is Some
        }),
        forall|i: int| 0 <= i < then_on.len() ==> !(#[trigger] then_on[i]).takes_over(id),
        other != id,
    ensures
        ({
            let empty = ClusterView::<K>::empty(pd_client);
            let c = empty.replay(first);
            let d = c.replay(then_on);
            &&& d.trans.snap_dir(id) == c.trans.snap_dir(id)
            &&& empty.brings_new_dirs(first) && c.brings_new_dirs(then_on) ==> d.trans.snap_dir(
                other,
            ) != d.trans.snap_dir(id)
        }),
{
    let empty = ClusterView::<K>::empty(pd_client);
    let c = empty.replay(first);
    law_history_keeps_snap_dir(c, then_on, id);
    if empty.brings_new_dirs(first) && c.brings_new_dirs(then_on) {
        assert(empty.dirs_are_distinct());
        law_history_keeps_dirs_distinct(empty, first);
        law_history_keeps_dirs_distinct(c, then_on);
    }
}

/// As long as no hook is set anew, each run calls the hook of the cluster once,
/// with the id that it is for, in the order of the runs; nothing else calls a
/// hook, and nothing takes the hook away.
pub proof fn law_history_calls_hook_once_per_run<K: Components, E>(
    c: ClusterView<K>,
    events: Seq<ClusterEvent<K, E>>,
)
    requires
        c.is_history(events),
        forall|i: int| 0 <= i < events.len() ==> !(#[trigger] events[i] is SetHook),
    ensures
        c.replay(events).post_create_coprocessor_host == c.post_create_coprocessor_host,
        c.calls_over(events) == (match c.post_create_coprocessor_host {
            Some(hook) => run_ids(events).map_values(|id: u64| (id, hook)),
            None => Seq::empty(),
        }),
    decreases events.len(),
{
    if events.len() > 0 {
        let before = events.drop_last();
        assert forall|i: int| 0 <= i < before.len() implies !(#[trigger] before[i] is SetHook) by {
            assert(before[i] == events[i]);
        }
        law_history_calls_hook_once_per_run(c, before);
        assert(!(events[events.len() - 1] is SetHook));
        let d = c.replay(before);
        if let ClusterEvent::Run { node_id, outcomes, .. } = events.last() {
            let course = RunCourse { cluster: d, outcomes };
            crate::run_laws::law_run_follows_plan(course, node_id);
            crate::run_laws::law_run_calls_hook_once(course, node_id);
        }
    } else if let Some(hook) = c.post_create_coprocessor_host {
        assert(run_ids(events).map_values(|id: u64| (id, hook)) == Seq::<
            (u64, K::CoprocessorHook),
        >::empty());
    }
}

/// Once `first` and then `last` were set as the hook, neither setting calls
/// anything, and every run that follows calls `last`, once and with the id that it
/// is for, until a hook is set anew. `first` is not called again, and no run that
/// came before is made up for.
pub proof fn law_last_hook_serves_later_runs<K: Components, E>(
    c: ClusterView<K>,
    first: K::CoprocessorHook,
    last: K::CoprocessorHook,
    events: Seq<ClusterEvent<K, E>>,
)
    requires
        c.with_hook(first).with_hook(last).is_history(events),
        forall|i: int| 0 <= i < events.len() ==> !(#[trigger] events[i] is SetHook),
    ensures
        c.calls_of_event(ClusterEvent::<K, E>::SetHook { hook: first }).len() == 0,
        c.with_hook(first).calls_of_event(ClusterEvent::<K, E>::SetHook { hook: last }).len() == 0,
        c.with_hook(first).with_hook(last).calls_over(events) == run_ids(events).map_values(
            |id: u64| (id, last),
        ),
{
    law_history_calls_hook_once_per_run(c.with_hook(first).with_hook(last), events);
}

} // verus!
