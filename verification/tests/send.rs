use node_cluster::cluster::NodeCluster;
use node_cluster::components::Components;
use node_cluster::error::TransportError;
use node_cluster::message::RaftMessage;
use node_cluster::run_node::{NodeServices, StartedNode};
use node_cluster::send::{SendAction, SendError, SendProgress, Sending, SnapEntry};
use node_cluster::transport::ChannelTransport;
use protobuf::ProtobufEnum;
use raft::eraftpb::MessageType;
use tempfile::TempDir;

struct Plain;

impl Components for Plain {
    type PdClient = ();
    type Node = ();
    type SnapManager = u32;
    type Router = u32;
    type SimulateTransport = ();
    type ConfigController = ();
    type ConcurrencyManager = ();
    type Importer = ();
    type CoprocessorHook = ();
}

fn message(msg_type: MessageType) -> RaftMessage {
    RaftMessage {
        region_id: 10,
        from_store: 1,
        to_store: 2,
        to_peer_id: 22,
        msg_type: msg_type.value(),
    }
}

fn run(c: &mut NodeCluster<Plain>, id: u64, dir: TempDir) {
    let services = NodeServices {
        new_snap: Some((id as u32 * 100, dir)),
        concurrency_manager: (),
        importer: (),
    };
    let started = StartedNode {
        id,
        node: (),
        router: id as u32,
        cfg_controller: (),
        simulate_trans: (),
    };
    assert_eq!(c.run_node::<String>(id, services, Ok(started)), Ok(id));
}

fn stop(c: &mut NodeCluster<Plain>, id: u64) {
    assert!(c.stop_node(id).is_some());
    assert!(c.transport().router(id).is_some());
    c.finish_stop_node(id);
}

/// A cluster whose nodes `ran`, and of which those in `stopped` were stopped: these
/// have a snapshot directory and no router.
fn cluster(ran: &[u64], stopped: &[u64]) -> NodeCluster<Plain> {
    let mut c: NodeCluster<Plain> = NodeCluster::new(());
    for id in ran {
        run(&mut c, *id, TempDir::new().unwrap());
    }
    for id in stopped {
        stop(&mut c, *id);
    }
    c
}

/// The transport of such a cluster.
fn transport(ran: &[u64], stopped: &[u64]) -> ChannelTransport<Plain> {
    let mut t: ChannelTransport<Plain> = ChannelTransport::new();
    cluster(ran, stopped).exchange_transport(&mut t);
    t
}

/// Sends `msg`; `copied` and `delivered` are how the outside work ends.
fn drive(
    t: &ChannelTransport<Plain>,
    msg: RaftMessage,
    copied: Result<(), String>,
    delivered: Result<(), String>,
    reported: Result<(), String>,
) -> (Vec<SendAction>, Result<(), SendError<String>>) {
    let mut done = Vec::new();
    let mut progress = t.send::<String>(msg);
    loop {
        match progress {
            SendProgress::Done(result) => return (done, result),
            SendProgress::Perform(sending) => {
                let action = sending.action();
                done.push(action);
                let outcome = match action {
                    SendAction::CopySnapshot => copied.clone(),
                    SendAction::Deliver { .. } => delivered.clone(),
                    SendAction::ReportFinish { .. } => reported.clone(),
                    _ => Ok(()),
                };
                assert!(t.can_resume(&sending, &outcome));
                progress = t.resume(sending, outcome);
            }
        }
    }
}

fn snapshot_work() -> Vec<SendAction> {
    vec![
        SendAction::Register { store: 1, entry: SnapEntry::Sending },
        SendAction::Open { store: 1, entry: SnapEntry::Sending },
        SendAction::Register { store: 2, entry: SnapEntry::Receiving },
        SendAction::Open { store: 2, entry: SnapEntry::Receiving },
        SendAction::CopySnapshot,
        SendAction::Deregister { store: 1, entry: SnapEntry::Sending },
        SendAction::Deregister { store: 2, entry: SnapEntry::Receiving },
    ]
}

fn missing_temp_dir(result: &Result<(), SendError<String>>, id: u64) -> bool {
    matches!(
        result,
        Err(SendError::Transport(TransportError::MissingTempDir { store })) if *store == id
    )
}

fn missing_sender(result: &Result<(), SendError<String>>, id: u64) -> bool {
    matches!(
        result,
        Err(SendError::Transport(TransportError::MissingSender { store })) if *store == id
    )
}

fn outside(result: &Result<(), SendError<String>>, text: &str) -> bool {
    matches!(result, Err(SendError::Outside(e)) if e == text)
}

#[test]
fn only_the_snapshot_type_is_a_snapshot() {
    for value in -1..30 {
        let msg = RaftMessage { msg_type: value, ..message(MessageType::MsgAppend) };
        assert_eq!(msg.is_snapshot(), MessageType::from_i32(value) == Some(MessageType::MsgSnapshot));
    }
    assert!(message(MessageType::MsgSnapshot).is_snapshot());
    assert!(!message(MessageType::MsgSnapStatus).is_snapshot());
}

#[test]
fn plain_message_is_only_delivered() {
    let t = transport(&[2], &[]);
    let (done, result) = drive(&t, message(MessageType::MsgAppend), Ok(()), Ok(()), Ok(()));
    assert_eq!(done, vec![SendAction::Deliver { store: 2 }]);
    assert!(result.is_ok());
}

#[test]
fn plain_message_without_router_is_refused() {
    let t = transport(&[1, 2], &[2]);
    let (done, result) = drive(&t, message(MessageType::MsgAppend), Ok(()), Ok(()), Ok(()));
    assert_eq!(done, vec![]);
    assert!(missing_sender(&result, 2));
}

#[test]
fn failed_delivery_is_returned() {
    let t = transport(&[2], &[]);
    let full = Err("full".to_string());
    let (done, result) = drive(&t, message(MessageType::MsgAppend), Ok(()), full, Ok(()));
    assert_eq!(done, vec![SendAction::Deliver { store: 2 }]);
    assert!(outside(&result, "full"));
}

#[test]
fn snapshot_is_copied_then_delivered_then_reported() {
    let t = transport(&[1, 2], &[]);
    let (done, result) = drive(&t, message(MessageType::MsgSnapshot), Ok(()), Ok(()), Ok(()));
    let mut expected = snapshot_work();
    expected.push(SendAction::Deliver { store: 2 });
    expected.push(SendAction::ReportFinish { store: 1, region_id: 10, to_peer_id: 22 });
    assert_eq!(done, expected);
    assert!(result.is_ok());
}

#[test]
fn failed_report_is_ignored() {
    let t = transport(&[1, 2], &[]);
    let lost = Err("lost".to_string());
    let (done, result) = drive(&t, message(MessageType::MsgSnapshot), Ok(()), Ok(()), lost);
    assert_eq!(done.len(), 9);
    assert!(result.is_ok());
}

#[test]
fn snapshot_without_source_dir_is_refused_untouched() {
    let t = transport(&[2], &[]);
    let (done, result) = drive(&t, message(MessageType::MsgSnapshot), Ok(()), Ok(()), Ok(()));
    assert_eq!(done, vec![]);
    assert!(missing_temp_dir(&result, 1));
}

#[test]
fn snapshot_without_target_dir_leaves_source_registered() {
    let t = transport(&[1], &[]);
    let (done, result) = drive(&t, message(MessageType::MsgSnapshot), Ok(()), Ok(()), Ok(()));
    assert_eq!(done, snapshot_work()[..2].to_vec());
    assert!(missing_temp_dir(&result, 2));
}

#[test]
fn failed_copy_returns_both_registrations_first() {
    let t = transport(&[1, 2], &[]);
    let torn = Err("torn".to_string());
    let (done, result) = drive(&t, message(MessageType::MsgSnapshot), torn, Ok(()), Ok(()));
    assert_eq!(done, snapshot_work());
    assert!(outside(&result, "torn"));
}

#[test]
fn snapshot_to_store_without_router_is_refused_after_the_copy() {
    let t = transport(&[1, 2], &[2]);
    let (done, result) = drive(&t, message(MessageType::MsgSnapshot), Ok(()), Ok(()), Ok(()));
    assert_eq!(done, snapshot_work());
    assert!(missing_sender(&result, 2));
}

#[test]
fn undelivered_snapshot_is_not_reported() {
    let t = transport(&[1, 2], &[]);
    let full = Err("full".to_string());
    let (done, result) = drive(&t, message(MessageType::MsgSnapshot), Ok(()), full, Ok(()));
    let mut expected = snapshot_work();
    expected.push(SendAction::Deliver { store: 2 });
    assert_eq!(done, expected);
    assert!(outside(&result, "full"));
}

#[test]
fn transport_changes_between_steps_are_seen() {
    let mut c = cluster(&[1, 2], &[]);
    let mut progress = c.send_raft_msg::<String>(message(MessageType::MsgSnapshot));
    for _ in 0..6 {
        progress = match progress {
            SendProgress::Perform(sending) => c.transport().resume(sending, Ok(())),
            SendProgress::Done(_) => panic!("too early"),
        };
    }
    stop(&mut c, 2);
    let result = match progress {
        SendProgress::Perform(sending) => match c.transport().resume(sending, Ok(())) {
            SendProgress::Done(result) => result,
            SendProgress::Perform(_) => panic!("too late"),
        },
        SendProgress::Done(_) => panic!("too early"),
    };
    assert!(missing_sender(&result, 2));
}

/// Goes on with a send until `action` is the next thing to do.
fn advance_to(
    t: &ChannelTransport<Plain>,
    msg: RaftMessage,
    action: SendAction,
) -> Sending<String> {
    let mut progress = t.send::<String>(msg);
    loop {
        match progress {
            SendProgress::Perform(sending) if sending.action() == action => return sending,
            SendProgress::Perform(sending) => progress = t.resume(sending, Ok(())),
            SendProgress::Done(_) => panic!("the action never comes"),
        }
    }
}

#[test]
fn steps_that_are_not_allowed() {
    let msg = message(MessageType::MsgSnapshot);
    let broken: Result<(), String> = Err("broken".to_string());
    let t = transport(&[1, 2], &[]);
    for action in snapshot_work() {
        let sending = advance_to(&t, msg, action);
        assert!(t.can_resume(&sending, &Ok(())));
        assert_eq!(t.can_resume(&sending, &broken), action == SendAction::CopySnapshot);
    }
    let delivering = advance_to(&t, msg, SendAction::Deliver { store: 2 });
    let unreported = transport(&[1, 2], &[1]);
    assert!(!unreported.can_resume(&delivering, &Ok(())));
    assert!(unreported.can_resume(&delivering, &broken));
    let copying = advance_to(&t, msg, SendAction::CopySnapshot);
    let returning = advance_to(
        &t,
        msg,
        SendAction::Deregister { store: 1, entry: SnapEntry::Sending },
    );
    let targetless = transport(&[1], &[]);
    assert!(targetless.can_resume(&copying, &Ok(())));
    assert!(!targetless.can_resume(&returning, &Ok(())));
    let unknown = transport(&[], &[]);
    assert!(!unknown.can_resume(&copying, &broken));
}

#[test]
fn error_texts() {
    let dir = TransportError::MissingTempDir { store: 7 };
    assert_eq!(dir.message(), "missing temp dir for store 7");
    let zero = TransportError::MissingSender { store: 0 };
    assert_eq!(zero.message(), "missing sender for store 0");
    let ten = TransportError::MissingSender { store: 10 };
    assert_eq!(ten.message(), "missing sender for store 10");
    let max = TransportError::MissingSender { store: u64::MAX };
    assert_eq!(max.message(), format!("missing sender for store {}", u64::MAX));
    let mixed = TransportError::MissingTempDir { store: 1234567890 };
    assert_eq!(mixed.message(), "missing temp dir for store 1234567890");
}

#[test]
fn routers_and_snapshot_managers_are_found_by_store() {
    let mut t = transport(&[3, 4], &[3]);
    assert_eq!(t.snap_mgr(3), Some(&300));
    assert_eq!(t.snap_mgr(5), None);
    assert_eq!(t.router(4), Some(&4));
    assert_eq!(t.router(3), None);
    assert_eq!(t.command_router(4), Ok(4));
    assert_eq!(t.command_router(3), Err(TransportError::MissingSender { store: 3 }));
    *t.read_router(4).unwrap() = 44;
    assert_eq!(t.read_router(3), Err(TransportError::MissingSender { store: 3 }));
    assert_eq!(t.router(4), Some(&44));
    *t.router_mut(4).unwrap() += 1;
    assert_eq!(t.router(4), Some(&45));
    assert!(t.router_mut(3).is_none());
    assert_eq!(t.router(3), None);
}

#[test]
fn snapshot_directory_is_the_path_of_the_temp_dir() {
    let mut c = cluster(&[], &[]);
    let mut expected = Vec::new();
    for id in [3, 5] {
        let dir = TempDir::new().unwrap();
        expected.push(dir.path().to_str().unwrap().to_string());
        run(&mut c, id, dir);
    }
    let t = c.transport();
    for (id, path) in [(3, &expected[0]), (5, &expected[1])] {
        assert!(!path.is_empty());
        assert_eq!(&t.get_snap_dir(id), path);
        assert_eq!(t.find_snap_dir(id).as_ref(), Some(path));
        assert_eq!(&c.get_snap_dir(id), path);
    }
    assert_ne!(t.get_snap_dir(3), t.get_snap_dir(5));
    assert_eq!(t.find_snap_dir(4), None);
}

#[test]
fn nothing_waits_for_a_flush() {
    let mut t: ChannelTransport<Plain> = ChannelTransport::default();
    assert!(!t.need_flush());
    assert!(t.router(1).is_none());
    assert!(t.snap_mgr(1).is_none());
    cluster(&[1], &[]).exchange_transport(&mut t);
    t.flush();
    assert!(!t.need_flush());
    assert_eq!(t.router(1), Some(&1));
}

#[test]
fn transport_is_lent_and_taken_back() {
    let mut c = cluster(&[1], &[]);
    let mut t = transport(&[2], &[]);
    c.exchange_transport(&mut t);
    assert!(c.transport().router(1).is_none());
    assert_eq!(c.transport().router(2), Some(&2));
    assert_eq!(t.router(1), Some(&1));
    c.exchange_transport(&mut t);
    assert_eq!(c.transport().router(1), Some(&1));
    assert_eq!(t.router(2), Some(&2));
}
