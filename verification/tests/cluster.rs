use std::collections::HashSet;

use node_cluster::cluster::{read_answer, NodeCluster};
use node_cluster::components::Components;
use node_cluster::error::TransportError;
use node_cluster::message::RaftMessage;
use node_cluster::run_node::{
    disk_status, DiskStatus, NodeServices, SnapConfig, SnapManagerOptions, SnapSource, StartedNode,
    BACKGROUND_THREADS, DISK_STATUS_INTERVAL_MILLIS, FIRST_TIMESTAMP, IMPORT_DIR,
};
use node_cluster::run_steps::{RunAction, RunProgress};
use node_cluster::send::SendProgress;
use node_cluster::setup::{
    new_incompatible_node_cluster, new_node_cluster, ApiVersion, ClusterSetup,
};
use tempfile::TempDir;

struct Named;

impl Components for Named {
    type PdClient = String;
    type Node = String;
    type SnapManager = String;
    type Router = String;
    type SimulateTransport = Vec<u8>;
    type ConfigController = String;
    type ConcurrencyManager = u64;
    type Importer = String;
    type CoprocessorHook = fn(u64) -> u64;
}

fn double(n: u64) -> u64 {
    2 * n
}

fn triple(n: u64) -> u64 {
    3 * n
}

fn services(name: &str, fresh: bool) -> NodeServices<Named> {
    NodeServices {
        new_snap: if fresh {
            Some((format!("mgr {}", name), TempDir::new().unwrap()))
        } else {
            None
        },
        concurrency_manager: name.len() as u64,
        importer: format!("importer {}", name),
    }
}

fn started(id: u64, name: &str) -> StartedNode<Named> {
    StartedNode {
        id,
        node: format!("node {}", name),
        router: format!("router {}", name),
        cfg_controller: format!("cfg {}", name),
        simulate_trans: vec![1, 2],
    }
}

fn run(c: &mut NodeCluster<Named>, node_id: u64, id: u64, name: &str) -> Result<u64, String> {
    let fresh = match c.plan_run_node(node_id) {
        SnapSource::Create => true,
        SnapSource::Reuse(_) => false,
    };
    c.run_node(node_id, services(name, fresh), Ok(started(id, name)))
}

#[test]
fn new_cluster_is_empty() {
    let c: NodeCluster<Named> = NodeCluster::new("pd".to_string());
    assert_eq!(c.pd_client(), "pd");
    assert!(c.get_node_ids().is_empty());
    assert!(!c.has_snap_mgr(1));
    assert!(!c.has_concurrency_manager(1));
    assert!(!c.has_send_filters(1));
    assert!(c.transport().router(1).is_none());
    assert!(c.get_cfg_controller(1).is_none());
    assert!(c.get_importer(1).is_none());
    assert!(c.node(1).is_none());
    assert!(c.transport().find_snap_dir(1).is_none());
}

#[test]
fn node_with_given_id_is_complete() {
    let mut c: NodeCluster<Named> = NodeCluster::new("pd".to_string());
    assert_eq!(run(&mut c, 3, 3, "three"), Ok(3));
    assert_eq!(c.get_node_ids(), HashSet::from([3]));
    assert_eq!(c.get_node_router(3), "router three");
    assert_eq!(c.get_concurrency_manager(3), 5);
    assert_eq!(c.get_cfg_controller(3).map(String::as_str), Some("cfg three"));
    assert_eq!(c.get_importer(3), Some("importer three".to_string()));
    assert_eq!(c.get_snap_mgr(3), "mgr three");
    assert_eq!(c.transport().snap_mgr(3).map(String::as_str), Some("mgr three"));
    assert_eq!(c.node(3).map(String::as_str), Some("node three"));
    assert_eq!(c.transport().find_snap_dir(3), Some(c.get_snap_dir(3)));
    assert!(c.has_snap_mgr(3));
    assert!(c.has_concurrency_manager(3));
    assert!(c.has_send_filters(3));
}

#[test]
fn node_with_open_id_files_its_services_under_zero() {
    let mut c: NodeCluster<Named> = NodeCluster::new("pd".to_string());
    assert_eq!(run(&mut c, 0, 8, "eight"), Ok(8));
    assert_eq!(c.get_node_ids(), HashSet::from([8]));
    assert_eq!(c.get_snap_mgr(0), "mgr eight");
    assert_eq!(c.get_concurrency_manager(0), 5);
    assert!(c.get_importer(0).is_some());
    assert!(c.get_importer(8).is_none());
    assert!(!c.has_snap_mgr(8));
    assert!(!c.has_concurrency_manager(8));
    assert!(c.get_cfg_controller(8).is_some());
    assert!(c.get_cfg_controller(0).is_none());
    assert_eq!(c.transport().snap_mgr(8).map(String::as_str), Some("mgr eight"));
    assert!(c.transport().snap_mgr(0).is_none());
    assert_eq!(c.get_node_router(8), "router eight");
    assert_eq!(run(&mut c, 0, 9, "nine"), Ok(9));
    assert_eq!(c.get_snap_mgr(0), "mgr nine");
    assert_eq!(c.get_node_ids(), HashSet::from([8, 9]));
}

#[test]
fn failed_start_keeps_services_but_adds_no_node() {
    let mut c: NodeCluster<Named> = NodeCluster::new("pd".to_string());
    let result = c.run_node(2, services("two", true), Err("no quorum".to_string()));
    assert_eq!(result, Err("no quorum".to_string()));
    assert!(c.get_node_ids().is_empty());
    assert_eq!(c.get_snap_mgr(2), "mgr two");
    assert_eq!(c.get_importer(2), Some("importer two".to_string()));
    assert_eq!(c.get_concurrency_manager(2), 3);
    assert!(c.transport().snap_mgr(2).is_none());
    assert!(c.transport().router(2).is_none());
    assert!(c.get_cfg_controller(2).is_none());
    assert!(matches!(c.plan_run_node(2), SnapSource::Create));
}

#[test]
fn restarted_node_keeps_its_snapshot_directory() {
    let mut c: NodeCluster<Named> = NodeCluster::new("pd".to_string());
    assert_eq!(run(&mut c, 4, 4, "first"), Ok(4));
    let dir = c.get_snap_dir(4);
    assert_eq!(c.stop_node(4), Some("node first".to_string()));
    c.finish_stop_node(4);
    assert_eq!(c.get_snap_dir(4), dir);
    let mgr = match c.plan_run_node(4) {
        SnapSource::Reuse(mgr) => mgr,
        SnapSource::Create => panic!("the directory is there"),
    };
    assert_eq!(mgr, "mgr first");
    assert_eq!(run(&mut c, 4, 4, "second"), Ok(4));
    assert_eq!(c.get_snap_dir(4), dir);
    assert_eq!(c.transport().snap_mgr(4).map(String::as_str), Some("mgr first"));
    assert_eq!(c.get_snap_mgr(4), "mgr first");
    assert_eq!(c.get_node_router(4), "router second");
}

#[test]
fn open_id_always_gets_a_new_directory() {
    let mut c: NodeCluster<Named> = NodeCluster::new("pd".to_string());
    assert_eq!(run(&mut c, 0, 6, "a"), Ok(6));
    assert!(matches!(c.plan_run_node(0), SnapSource::Create));
}

#[test]
fn stopped_node_is_gone_and_not_reached() {
    let mut c: NodeCluster<Named> = NodeCluster::new("pd".to_string());
    assert_eq!(run(&mut c, 1, 1, "one"), Ok(1));
    assert_eq!(run(&mut c, 2, 2, "two"), Ok(2));
    assert_eq!(c.stop_node(2), Some("node two".to_string()));
    assert_eq!(c.get_node_ids(), HashSet::from([1]));
    assert_eq!(c.async_command_on_node_with_opts(2), Ok("router two".to_string()));
    c.finish_stop_node(2);
    assert_eq!(
        c.async_command_on_node_with_opts(2),
        Err(TransportError::MissingSender { store: 2 })
    );
    assert_eq!(c.async_read(2), Err(TransportError::MissingSender { store: 2 }));
    assert_eq!(c.stop_node(2), None);
    let msg = RaftMessage { region_id: 1, from_store: 1, to_store: 2, to_peer_id: 5, msg_type: 3 };
    match c.send_raft_msg::<String>(msg) {
        SendProgress::Done(result) => assert!(result.is_err()),
        SendProgress::Perform(_) => panic!("the store does not run"),
    }
    assert!(c.get_cfg_controller(2).is_some());
    assert_eq!(c.get_snap_mgr(2), "mgr two");
    assert!(c.transport().find_snap_dir(2).is_some());
    assert_eq!(c.get_node_router(1), "router one");
}

#[test]
fn routers_nodes_and_transports_are_acted_on_in_place() {
    let mut c: NodeCluster<Named> = NodeCluster::new("pd".to_string());
    assert_eq!(run(&mut c, 1, 1, "one"), Ok(1));
    c.get_node(1).unwrap().push('!');
    assert!(c.get_node(2).is_none());
    assert_eq!(c.node(1).map(String::as_str), Some("node one!"));
    c.async_read(1).unwrap().push('?');
    c.recv_filters(1).push('#');
    assert_eq!(c.get_node_router(1), "router one?#");
    assert_eq!(c.async_command_on_node_with_opts(1), Ok("router one?#".to_string()));
    c.send_filters(1).push(9);
    assert_eq!(*c.send_filters(1), vec![1, 2, 9]);
    c.send_filters(1).clear();
    assert!(c.send_filters(1).is_empty());
}

#[test]
fn message_between_running_nodes_is_delivered() {
    let mut c: NodeCluster<Named> = NodeCluster::new("pd".to_string());
    assert_eq!(run(&mut c, 1, 1, "one"), Ok(1));
    assert_eq!(run(&mut c, 2, 2, "two"), Ok(2));
    let msg = RaftMessage { region_id: 1, from_store: 1, to_store: 2, to_peer_id: 5, msg_type: 7 };
    let mut steps = 0;
    let mut progress = c.send_raft_msg::<String>(msg);
    loop {
        progress = match progress {
            SendProgress::Perform(sending) => c.transport().resume(sending, Ok(())),
            SendProgress::Done(result) => {
                assert!(result.is_ok());
                break;
            }
        };
        steps += 1;
    }
    assert_eq!(steps, 9);
}

/// How the outside work of a run ends.
#[derive(Clone)]
struct Ends {
    settings: Result<(), String>,
    bootstrapped: Result<(), String>,
    start: Result<(), String>,
    check: Result<(), String>,
}

fn well() -> Ends {
    Ends { settings: Ok(()), bootstrapped: Ok(()), start: Ok(()), check: Ok(()) }
}

/// Goes through the steps of a run and calls the hook where it is due. A run that is
/// given up has no result.
fn steps(
    c: &NodeCluster<Named>,
    node_id: u64,
    ends: Ends,
) -> (Vec<RunAction>, Vec<u64>, Option<Result<(), String>>) {
    let mut done = Vec::new();
    let mut heard = Vec::new();
    let mut progress = c.begin_run::<String>(node_id);
    loop {
        match progress {
            RunProgress::Done(result) => return (done, heard, Some(result)),
            RunProgress::Perform(run) => {
                done.push(run.action());
                if let Some((id, hook)) = c.hook_to_call(run) {
                    assert_eq!(run.action(), RunAction::CallHook { node_id });
                    heard.push(hook(id));
                }
                let outcome = match run.action() {
                    RunAction::ValidateSettings => ends.settings.clone(),
                    RunAction::Bootstrap => ends.bootstrapped.clone(),
                    RunAction::Start => ends.start.clone(),
                    RunAction::CheckBootstrapped => ends.check.clone(),
                    _ => Ok(()),
                };
                if outcome.is_err() && !run.may_fail() {
                    return (done, heard, None);
                }
                progress = c.resume_run(run, outcome);
            }
        }
    }
}

fn step_list(node_id: u64, hook: bool) -> Vec<RunAction> {
    let mut list = vec![
        RunAction::ValidateSettings,
        RunAction::ObtainSnapManager { node_id },
        RunAction::CreateHost,
    ];
    if hook {
        list.push(RunAction::CallHook { node_id });
    }
    list.extend([
        RunAction::RegisterLockChecker,
        RunAction::MakeImporter,
        RunAction::StartWorkers,
        RunAction::Bootstrap,
        RunAction::Start,
        RunAction::CheckBootstrapped,
    ]);
    list
}

#[test]
fn run_without_hook_calls_none() {
    let c: NodeCluster<Named> = NodeCluster::new("pd".to_string());
    let (done, heard, result) = steps(&c, 4, well());
    assert_eq!(done, step_list(4, false));
    assert!(heard.is_empty());
    assert_eq!(result, Some(Ok(())));
}

#[test]
fn last_hook_is_called_once_with_the_id_asked_for() {
    let mut c: NodeCluster<Named> = NodeCluster::new("pd".to_string());
    c.post_create_coprocessor_host(double as fn(u64) -> u64);
    assert_eq!(steps(&c, 21, well()).1, vec![42]);
    c.post_create_coprocessor_host(triple as fn(u64) -> u64);
    let (done, heard, result) = steps(&c, 21, well());
    assert_eq!(done, step_list(21, true));
    assert_eq!(heard, vec![63]);
    assert_eq!(result, Some(Ok(())));
    assert_eq!(steps(&c, 0, well()).1, vec![0]);
    assert_eq!(run(&mut c, 5, 5, "five"), Ok(5));
    assert!(c.stop_node(5).is_some());
    c.finish_stop_node(5);
    assert_eq!(steps(&c, 5, well()).1, vec![15]);
}

#[test]
fn failed_steps_end_a_run() {
    let mut c: NodeCluster<Named> = NodeCluster::new("pd".to_string());
    c.post_create_coprocessor_host(double as fn(u64) -> u64);
    let no_disk = Ends { bootstrapped: Err("no disk".to_string()), ..well() };
    let (done, heard, result) = steps(&c, 3, no_disk);
    assert_eq!(done, step_list(3, true)[..8].to_vec());
    assert_eq!(heard, vec![6]);
    assert_eq!(result, Some(Err("no disk".to_string())));
    let no_port = Ends { start: Err("no port".to_string()), ..well() };
    let (done, heard, result) = steps(&c, 3, no_port);
    assert_eq!(done, step_list(3, true)[..9].to_vec());
    assert_eq!(heard, vec![6]);
    assert_eq!(result, Some(Err("no port".to_string())));
}

#[test]
fn run_with_invalid_settings_is_given_up_untouched() {
    let mut c: NodeCluster<Named> = NodeCluster::new("pd".to_string());
    c.post_create_coprocessor_host(double as fn(u64) -> u64);
    let (done, heard, result) = steps(&c, 3, Ends { settings: Err("odd".to_string()), ..well() });
    assert_eq!(done, vec![RunAction::ValidateSettings]);
    assert!(heard.is_empty());
    assert_eq!(result, None);
}

#[test]
fn run_that_fails_the_last_check_has_no_result() {
    let mut c: NodeCluster<Named> = NodeCluster::new("pd".to_string());
    c.post_create_coprocessor_host(double as fn(u64) -> u64);
    let (done, heard, result) = steps(&c, 3, Ends { check: Err("left over".to_string()), ..well() });
    assert_eq!(done, step_list(3, true));
    assert_eq!(heard, vec![6]);
    assert_eq!(result, None);
}

#[test]
fn reader_is_answered_only_with_a_refusal() {
    let mut c: NodeCluster<Named> = NodeCluster::new("pd".to_string());
    assert_eq!(run(&mut c, 1, 1, "one"), Ok(1));
    let taken: Result<Result<(), String>, TransportError> = c.async_read(1).map(|_| Ok(()));
    assert_eq!(read_answer(taken), None);
    let refused: Result<Result<(), String>, TransportError> = c.async_read(2).map(|_| Ok(()));
    assert_eq!(read_answer(refused), Some(TransportError::MissingSender { store: 2 }));
}

#[test]
fn nodes_run_from_start_to_stop_and_services_stay_until_the_next_run() {
    let mut c: NodeCluster<Named> = NodeCluster::new("pd".to_string());
    assert_eq!(run(&mut c, 1, 1, "one"), Ok(1));
    assert_eq!(run(&mut c, 2, 2, "two"), Ok(2));
    assert_eq!(run(&mut c, 0, 7, "seven"), Ok(7));
    assert!(c.stop_node(1).is_some());
    c.finish_stop_node(1);
    let failed = c.run_node(1, services("failed", false), Err("no".to_string()));
    assert_eq!(failed, Err("no".to_string()));
    assert_eq!(c.get_node_ids(), HashSet::from([2, 7]));
    assert_eq!(c.get_concurrency_manager(1), 6);
    assert_eq!(c.get_importer(1), Some("importer failed".to_string()));
    assert_eq!(c.get_snap_mgr(1), "mgr one");
    assert_eq!(c.get_cfg_controller(1).map(String::as_str), Some("cfg one"));
    assert_eq!(c.get_importer(2), Some("importer two".to_string()));
    assert_eq!(run(&mut c, 1, 1, "again"), Ok(1));
    assert_eq!(c.get_node_ids(), HashSet::from([1, 2, 7]));
    assert_eq!(c.get_cfg_controller(1).map(String::as_str), Some("cfg again"));
    assert_eq!(c.get_concurrency_manager(1), 5);
    assert_eq!(c.get_snap_mgr(1), "mgr one");
}

#[test]
fn node_that_runs_cannot_be_run_again() {
    let mut c: NodeCluster<Named> = NodeCluster::new("pd".to_string());
    assert!(c.can_run(2));
    assert_eq!(run(&mut c, 2, 2, "two"), Ok(2));
    assert!(!c.can_run(2));
    assert!(c.can_run(0));
    assert!(c.can_run(3));
    assert!(c.stop_node(2).is_some());
    assert!(c.can_run(2));
}

#[test]
fn snapshot_directories_are_distinct_and_last() {
    let mut c: NodeCluster<Named> = NodeCluster::new("pd".to_string());
    for id in [1, 2, 3] {
        assert_eq!(run(&mut c, id, id, "node"), Ok(id));
    }
    let dirs: Vec<String> = vec![c.get_snap_dir(1), c.get_snap_dir(2), c.get_snap_dir(3)];
    assert_ne!(dirs[0], dirs[1]);
    assert_ne!(dirs[0], dirs[2]);
    assert_ne!(dirs[1], dirs[2]);
    for _ in 0..3 {
        assert!(c.stop_node(2).is_some());
        c.finish_stop_node(2);
        assert_eq!(c.get_snap_dir(2), dirs[1]);
        assert_eq!(run(&mut c, 2, 2, "again"), Ok(2));
    }
    let now: Vec<String> = vec![c.get_snap_dir(1), c.get_snap_dir(2), c.get_snap_dir(3)];
    assert_eq!(now, dirs);
}

#[test]
fn snapshot_manager_options() {
    let cfg = SnapConfig {
        snap_io_max_bytes_per_sec: 100 << 20,
        snap_max_total_size: 7,
        concurrent_recv_snap_limit: 32,
        max_snapshot_file_raw_size: 9,
        enable_v2_compatible_learner: true,
        snap_min_ingest_size: 11,
    };
    let expected = SnapManagerOptions {
        max_write_bytes_per_sec: 104857600,
        max_total_size: 7,
        concurrent_recv_snap_limit: 32,
        max_per_file_size: 9,
        enable_multi_snapshot_files: true,
        enable_receive_tablet_snapshot: true,
        min_ingest_snapshot_limit: 11,
    };
    assert_eq!(SnapManagerOptions::new(&cfg), expected);
    let max = SnapConfig {
        snap_io_max_bytes_per_sec: u64::MAX,
        enable_v2_compatible_learner: false,
        ..cfg
    };
    assert_eq!(SnapManagerOptions::new(&max).max_write_bytes_per_sec, -1);
    assert!(!SnapManagerOptions::new(&max).enable_receive_tablet_snapshot);
    let high = SnapConfig { snap_io_max_bytes_per_sec: 1 << 63, ..cfg };
    assert_eq!(SnapManagerOptions::new(&high).max_write_bytes_per_sec, i64::MIN);
}

#[test]
fn disk_figures() {
    assert_eq!(
        disk_status(10, 20, 100, 60),
        DiskStatus { capacity: 100, used_size: 30, available_size: 60 }
    );
    assert_eq!(
        disk_status(10, 20, 100, 90),
        DiskStatus { capacity: 100, used_size: 30, available_size: 70 }
    );
    assert_eq!(
        disk_status(0, 100, 100, 5),
        DiskStatus { capacity: 100, used_size: 100, available_size: 0 }
    );
}

#[test]
fn fixed_settings_of_a_node() {
    assert_eq!(IMPORT_DIR, "import-sst");
    assert_eq!(FIRST_TIMESTAMP, 1);
    assert_eq!(BACKGROUND_THREADS, 2);
    assert_eq!(DISK_STATUS_INTERVAL_MILLIS, 1000);
}

#[test]
fn cluster_setups() {
    let plain = ClusterSetup { id: 5, count: 3, incompatible: false, api_version: ApiVersion::V1 };
    assert_eq!(new_node_cluster(5, 3), plain);
    assert_eq!(
        new_incompatible_node_cluster(5, 3),
        ClusterSetup { incompatible: true, ..plain }
    );
}
