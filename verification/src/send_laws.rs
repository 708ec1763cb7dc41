//! What a send does from beginning to end, whatever happens on the way.

use vstd::multiset::Multiset;
use vstd::prelude::*;

use crate::components::Components;
use crate::error::TransportError;
use crate::message::{RaftMessage, MSG_SNAPSHOT};
use crate::send::{SendAction, SendError, SendProgress, SendStage, Sending, SnapEntry};
use crate::transport::TransportView;

verus! {

/// What one send meets on its way: the transport as it is when the send looks
/// at it, and how the outside work ends that may fail.
pub struct Journey<K: Components, E> {
    /// The transport when the send begins.
    pub at_start: TransportView<K>,
    /// The transport while the snapshot is prepared, up to its copy.
    pub at_target: TransportView<K>,
    /// The transport after the copy, when the registrations are returned.
    pub at_return: TransportView<K>,
    /// The transport when a snapshot message is delivered.
    pub at_delivery: TransportView<K>,
    /// How the copy of the snapshot ends.
    pub copied: Result<(), E>,
    /// How the delivery ends.
    pub delivered: Result<(), E>,
    /// How the report of a finished snapshot ends.
    pub reported: Result<(), E>,
}

/// The number of pieces of outside work that can still follow.
pub open spec fn work_left<E>(progress: SendProgress<E>) -> nat {
    match progress {
        SendProgress::Done(_) => 0,
        SendProgress::Perform(sending) => match sending.stage {
            SendStage::RegisterSource => 9,
            SendStage::OpenSource => 8,
            SendStage::RegisterTarget => 7,
            SendStage::OpenTarget => 6,
            SendStage::CopySnapshot => 5,
            SendStage::DeregisterSource(_) => 4,
            SendStage::DeregisterTarget(_) => 3,
            SendStage::Deliver => 2,
            SendStage::ReportFinish => 1,
        },
    }
}

impl<K: Components, E> Journey<K, E> {
    /// The transport that the send sees when the work of a stage has ended.
    pub open spec fn table(self, sending: Sending<E>) -> TransportView<K> {
        match sending.stage {
            SendStage::CopySnapshot => self.at_return,
            SendStage::DeregisterSource(_) => self.at_return,
            SendStage::DeregisterTarget(_) => self.at_delivery,
            SendStage::Deliver => self.router_table(sending.msg),
            _ => self.at_target,
        }
    }

    /// The transport in which the router of the receiving store is looked up.
    pub open spec fn router_table(self, msg: RaftMessage) -> TransportView<K> {
        if msg.is_snapshot() {
            self.at_delivery
        } else {
            self.at_start
        }
    }

    /// How the outside work of a stage ends.
    pub open spec fn outcome(self, sending: Sending<E>) -> Result<(), E> {
        match sending.stage {
            SendStage::CopySnapshot => self.copied,
            SendStage::Deliver => self.delivered,
            SendStage::ReportFinish => self.reported,
            _ => Ok(()),
        }
    }

    /// All outside work from `progress` on, in order, and what the send returns.
    pub open spec fn run(self, progress: SendProgress<E>) -> (
        Seq<SendAction>,
        Result<(), SendError<E>>,
    )
        decreases work_left(progress),
    {
        match progress {
            SendProgress::Done(result) => (Seq::empty(), result),
            SendProgress::Perform(sending) => {
                let next = self.table(sending).after(sending, self.outcome(sending));
                let (rest, result) = self.run(next);
                (seq![sending.action()] + rest, result)
            },
        }
    }

    /// Every step from `progress` on may be taken.
    pub open spec fn allowed(self, progress: SendProgress<E>) -> bool
        decreases work_left(progress),
    {
        match progress {
            SendProgress::Done(_) => true,
            SendProgress::Perform(sending) => {
                let table = self.table(sending);
                let outcome = self.outcome(sending);
                &&& table.can_resume(sending, outcome)
                &&& self.allowed(table.after(sending, outcome))
            },
        }
    }

    /// The outside work of the whole send of `msg`, in order.
    pub open spec fn actions(self, msg: RaftMessage) -> Seq<SendAction> {
        self.run(self.at_start.begin(msg)).0
    }

    /// What the send of `msg` returns.
    pub open spec fn result(self, msg: RaftMessage) -> Result<(), SendError<E>> {
        self.run(self.at_start.begin(msg)).1
    }

    /// The source of a snapshot has a directory.
    pub open spec fn has_source(self, msg: RaftMessage) -> bool {
        self.at_start.snap_paths.contains_key(msg.from_store)
    }

    /// The target of a snapshot has a directory.
    pub open spec fn has_target(self, msg: RaftMessage) -> bool {
        self.at_target.snap_paths.contains_key(msg.to_store)
    }

    /// The receiving store has a router.
    pub open spec fn has_router(self, msg: RaftMessage) -> bool {
        self.router_table(msg).routers.contains_key(msg.to_store)
    }

    /// The snapshot, if there is one, has arrived at the receiving store.
    pub open spec fn snapshot_arrived(self, msg: RaftMessage) -> bool {
        msg.is_snapshot() ==> self.has_source(msg) && self.has_target(msg) && self.copied is Ok
    }
}

/// The work at the sending store before a snapshot is copied.
pub open spec fn source_actions(msg: RaftMessage) -> Seq<SendAction> {
    seq![
        SendAction::Register { store: msg.from_store, entry: SnapEntry::Sending },
        SendAction::Open { store: msg.from_store, entry: SnapEntry::Sending },
    ]
}

/// The work at the receiving store up to the end of the copy, and the return of
/// both registrations.
pub open spec fn copy_actions(msg: RaftMessage) -> Seq<SendAction> {
    seq![
        SendAction::Register { store: msg.to_store, entry: SnapEntry::Receiving },
        SendAction::Open { store: msg.to_store, entry: SnapEntry::Receiving },
        SendAction::CopySnapshot,
        SendAction::Deregister { store: msg.from_store, entry: SnapEntry::Sending },
        SendAction::Deregister { store: msg.to_store, entry: SnapEntry::Receiving },
    ]
}

/// The report that follows the delivery of a snapshot.
pub open spec fn report_action(msg: RaftMessage) -> SendAction {
    SendAction::ReportFinish {
        store: msg.from_store,
        region_id: msg.region_id,
        to_peer_id: msg.to_peer_id,
    }
}

/// The outside work that the send of `msg` consists of.
pub open spec fn planned_actions<K: Components, E>(
    j: Journey<K, E>,
    msg: RaftMessage,
) -> Seq<SendAction> {
    let snapshot = if !msg.is_snapshot() || !j.has_source(msg) {
        Seq::empty()
    } else if !j.has_target(msg) {
        source_actions(msg)
    } else {
        source_actions(msg) + copy_actions(msg)
    };
    let delivery = if !j.snapshot_arrived(msg) || !j.has_router(msg) {
        Seq::empty()
    } else {
        seq![SendAction::Deliver { store: msg.to_store }]
    };
    let report = if planned_result(j, msg) is Ok && msg.is_snapshot() {
        seq![report_action(msg)]
    } else {
        Seq::empty()
    };
    snapshot + delivery + report
}

/// What the send of `msg` returns: the first thing that goes wrong, or success.
pub open spec fn planned_result<K: Components, E>(j: Journey<K, E>, msg: RaftMessage) -> Result<
    (),
    SendError<E>,
> {
    if msg.is_snapshot() && !j.has_source(msg) {
        Err(SendError::Transport(TransportError::MissingTempDir { store: msg.from_store }))
    } else if msg.is_snapshot() && !j.has_target(msg) {
        Err(SendError::Transport(TransportError::MissingTempDir { store: msg.to_store }))
    } else if msg.is_snapshot() && j.copied is Err {
        Err(SendError::Outside(j.copied->Err_0))
    } else if !j.has_router(msg) {
        Err(SendError::Transport(TransportError::MissingSender { store: msg.to_store }))
    } else if j.delivered is Err {
        Err(SendError::Outside(j.delivered->Err_0))
    } else {
        Ok(())
    }
}

/// A send does the planned work in the planned order and returns the planned
/// result.
pub proof fn law_send_follows_plan<K: Components, E>(j: Journey<K, E>, msg: RaftMessage)
    ensures
        j.actions(msg) == planned_actions(j, msg),
        j.result(msg) == planned_result(j, msg),
{
    reveal_with_fuel(Journey::run, 10);
}

/// A send succeeds exactly when the message was handed to the router of its
/// store and the router took it.
pub proof fn law_success_is_delivery<K: Components, E>(j: Journey<K, E>, msg: RaftMessage)
    ensures
        j.result(msg) is Ok <==> {
            &&& j.actions(msg).contains(SendAction::Deliver { store: msg.to_store })
            &&& j.delivered is Ok
        },
{
    law_send_follows_plan(j, msg);
    let deliver = SendAction::Deliver { store: msg.to_store };
    let actions = planned_actions(j, msg);
    if j.snapshot_arrived(msg) && j.has_router(msg) {
        let at = if msg.is_snapshot() {
            7int
        } else {
            0int
        };
        assert(actions[at] == deliver);
    }
}

/// A message is handed over at most once, to the store that it is addressed to.
pub proof fn law_delivered_at_most_once<K: Components, E>(
    j: Journey<K, E>,
    msg: RaftMessage,
    p: int,
    q: int,
)
    requires
        0 <= p < j.actions(msg).len(),
        0 <= q < j.actions(msg).len(),
        j.actions(msg)[p] is Deliver,
        j.actions(msg)[q] is Deliver,
    ensures
        p == q,
        j.actions(msg)[p] == (SendAction::Deliver { store: msg.to_store }),
{
    law_send_follows_plan(j, msg);
}

/// A finished snapshot is reported to the sending store exactly when a snapshot
/// message was sent with success, and the report is the last thing that is done.
pub proof fn law_report_follows_delivery<K: Components, E>(j: Journey<K, E>, msg: RaftMessage)
    ensures
        (exists|i: int|
            0 <= i < j.actions(msg).len() && #[trigger] j.actions(msg)[i] is ReportFinish) <==> {
            &&& msg.is_snapshot()
            &&& j.result(msg) is Ok
        },
        forall|i: int|
            0 <= i < j.actions(msg).len() && #[trigger] j.actions(msg)[i] is ReportFinish ==> {
                &&& i == j.actions(msg).len() - 1
                &&& j.actions(msg)[i] == report_action(msg)
                &&& i > 0
                &&& j.actions(msg)[i - 1] == (SendAction::Deliver { store: msg.to_store })
            },
{
    law_send_follows_plan(j, msg);
    let actions = planned_actions(j, msg);
    if planned_result(j, msg) is Ok && msg.is_snapshot() {
        assert(actions[actions.len() - 1] == report_action(msg));
        assert(actions[8] is ReportFinish);
    }
}

/// A failed report changes nothing: what the send does and returns is the same
/// however the report ends.
pub proof fn law_report_outcome_is_ignored<K: Components, E>(
    j: Journey<K, E>,
    other: Result<(), E>,
    msg: RaftMessage,
)
    ensures
        (Journey { reported: other, ..j }).actions(msg) == j.actions(msg),
        (Journey { reported: other, ..j }).result(msg) == j.result(msg),
{
    law_send_follows_plan(j, msg);
    law_send_follows_plan(Journey { reported: other, ..j }, msg);
}

/// A message that is no snapshot reaches for no snapshot manager: at most it is
/// handed over.
pub proof fn law_plain_message_is_only_delivered<K: Components, E>(
    j: Journey<K, E>,
    msg: RaftMessage,
)
    requires
        !msg.is_snapshot(),
    ensures
        j.actions(msg) == (if j.at_start.routers.contains_key(msg.to_store) {
            seq![SendAction::Deliver { store: msg.to_store }]
        } else {
            Seq::empty()
        }),
{
    law_send_follows_plan(j, msg);
}

/// The registrations that are held once `actions` are done.
pub open spec fn held(actions: Seq<SendAction>) -> Multiset<(u64, SnapEntry)>
    decreases actions.len(),
{
    if actions.len() == 0 {
        Multiset::empty()
    } else {
        let before = held(actions.drop_last());
        match actions.last() {
            SendAction::Register { store, entry } => before.insert((store, entry)),
            SendAction::Deregister { store, entry } => before.remove((store, entry)),
            _ => before,
        }
    }
}

/// A send gives back every registration that it made, whether or not the copy
/// and the delivery succeed. The one exception is a snapshot whose source has a
/// directory and whose target has none: the source stays registered.
pub proof fn law_registrations_are_returned<K: Components, E>(j: Journey<K, E>, msg: RaftMessage)
    ensures
        held(j.actions(msg)) == (if msg.is_snapshot() && j.has_source(msg) && !j.has_target(msg) {
            Multiset::singleton((msg.from_store, SnapEntry::Sending))
        } else {
            Multiset::empty()
        }),
{
    law_send_follows_plan(j, msg);
    let actions = planned_actions(j, msg);
    if msg.is_snapshot() && j.has_source(msg) {
        let source = source_actions(msg);
        lemma_held_after_source(msg);
        if j.has_target(msg) {
            let copied = source + copy_actions(msg);
            lemma_held_after_copy(msg);
            lemma_held_unchanged(copied, actions.subrange(7, actions.len() as int));
            assert(copied + actions.subrange(7, actions.len() as int) == actions);
        } else {
            assert(actions == source);
        }
    } else {
        lemma_held_unchanged(Seq::empty(), actions);
        assert(Seq::empty() + actions == actions);
    }
}

/// Work that neither makes nor returns a registration leaves them as they are.
proof fn lemma_held_unchanged(done: Seq<SendAction>, more: Seq<SendAction>)
    requires
        forall|i: int|
            0 <= i < more.len() ==> (#[trigger] more[i] is Deliver || more[i] is ReportFinish),
    ensures
        held(done + more) == held(done),
    decreases more.len(),
{
    if more.len() == 0 {
        assert(done + more == done);
    } else {
        lemma_held_unchanged(done, more.drop_last());
        assert((done + more).drop_last() == done + more.drop_last());
        assert((done + more).last() == more.last());
    }
}

/// The source stays registered while nothing else is done.
proof fn lemma_held_after_source(msg: RaftMessage)
    ensures
        held(source_actions(msg)) == Multiset::singleton((msg.from_store, SnapEntry::Sending)),
{
    let s = source_actions(msg);
    reveal_with_fuel(held, 3);
    assert(s.drop_last().drop_last() == Seq::<SendAction>::empty());
    assert(held(s) == Multiset::<(u64, SnapEntry)>::empty().insert(
        (msg.from_store, SnapEntry::Sending),
    ));
}

/// No registration is left after the copy.
proof fn lemma_held_after_copy(msg: RaftMessage)
    ensures
        held(source_actions(msg) + copy_actions(msg)) == Multiset::<(u64, SnapEntry)>::empty(),
{
    let source = (msg.from_store, SnapEntry::Sending);
    let target = (msg.to_store, SnapEntry::Receiving);
    let s7 = source_actions(msg) + copy_actions(msg);
    let s6 = s7.drop_last();
    let s5 = s6.drop_last();
    let s4 = s5.drop_last();
    let s3 = s4.drop_last();
    assert(s3.drop_last() == source_actions(msg));
    lemma_held_after_source(msg);
    assert(held(s3) == Multiset::singleton(source).insert(target));
    assert(held(s4) == held(s3));
    assert(held(s5) == held(s4));
    assert(held(s6) == held(s5).remove(source));
    assert(held(s6) == Multiset::singleton(target));
    assert(held(s7) == held(s6).remove(target));
}

/// A message whose store has no router when it is looked up is never handed
/// over. It is answered with the missing sender, unless its snapshot went wrong
/// before.
pub proof fn law_store_without_router_is_not_reached<K: Components, E>(
    j: Journey<K, E>,
    msg: RaftMessage,
)
    requires
        !j.has_router(msg),
    ensures
        forall|i: int|
            0 <= i < j.actions(msg).len() ==> !(#[trigger] j.actions(msg)[i] is Deliver),
        j.result(msg) is Err,
        j.snapshot_arrived(msg) ==> j.result(msg) == Err::<(), SendError<E>>(
            SendError::Transport(TransportError::MissingSender { store: msg.to_store }),
        ),
{
    law_send_follows_plan(j, msg);
}

/// As long as the snapshot directories of the two stores stay over the copy, a
/// send runs through without a step that is not allowed. The one exception is a
/// snapshot that was delivered while the sending store has no router to report
/// through.
pub proof fn law_send_is_allowed<K: Components, E>(j: Journey<K, E>, msg: RaftMessage)
    requires
        j.has_source(msg) ==> j.at_return.snap_paths.contains_key(msg.from_store),
        j.has_target(msg) ==> j.at_return.snap_paths.contains_key(msg.to_store),
    ensures
        j.allowed(j.at_start.begin(msg)) <==> (msg.is_snapshot() && j.result(msg) is Ok
            ==> j.at_delivery.routers.contains_key(msg.from_store)),
{
    reveal_with_fuel(Journey::allowed, 10);
    reveal_with_fuel(Journey::run, 10);
}

/// A message of any other type than `MsgSnapshot` is handed over at once, to the store
/// that it is addressed to and wherever it comes from, and what the router answers is
/// what the send returns. A store without a router is answered with the missing
/// sender, and then nothing is done.
pub proof fn law_other_message_goes_straight_to_its_store<K: Components, E>(
    j: Journey<K, E>,
    msg: RaftMessage,
)
    requires
        msg.msg_type != MSG_SNAPSHOT,
    ensures
        j.at_start.routers.contains_key(msg.to_store) ==> {
            &&& j.actions(msg) == seq![SendAction::Deliver { store: msg.to_store }]
            &&& match j.delivered {
                Ok(_) => j.result(msg) is Ok,
                Err(e) => j.result(msg) == Err::<(), SendError<E>>(SendError::Outside(e)),
            }
        },
        !j.at_start.routers.contains_key(msg.to_store) ==> {
            &&& j.actions(msg).len() == 0
            &&& j.result(msg) == Err::<(), SendError<E>>(
                SendError::Transport(TransportError::MissingSender { store: msg.to_store }),
            )
        },
{
    reveal_with_fuel(Journey::run, 10);
}

/// A snapshot between two stores that have directories is registered and opened at
/// both, copied, and given back at both, in this order and whichever the stores are.
/// If the copy went well and the receiving store has a router, the message is handed
/// over, and if the router took it, the finish is reported through the sending store.
/// What the send returns is the first of these that went wrong, or success.
pub proof fn law_snapshot_goes_from_store_to_store<K: Components, E>(
    j: Journey<K, E>,
    msg: RaftMessage,
)
    requires
        msg.msg_type == MSG_SNAPSHOT,
        j.at_start.snap_paths.contains_key(msg.from_store),
        j.at_target.snap_paths.contains_key(msg.to_store),
    ensures
        ({
            let reached = j.at_delivery.routers.contains_key(msg.to_store);
            let moved = seq![
                SendAction::Register { store: msg.from_store, entry: SnapEntry::Sending },
                SendAction::Open { store: msg.from_store, entry: SnapEntry::Sending },
                SendAction::Register { store: msg.to_store, entry: SnapEntry::Receiving },
                SendAction::Open { store: msg.to_store, entry: SnapEntry::Receiving },
                SendAction::CopySnapshot,
                SendAction::Deregister { store: msg.from_store, entry: SnapEntry::Sending },
                SendAction::Deregister { store: msg.to_store, entry: SnapEntry::Receiving },
            ];
            let handed_over = moved.push(SendAction::Deliver { store: msg.to_store });
            match j.copied {
                Err(e) => {
                    &&& j.actions(msg) == moved
                    &&& j.result(msg) == Err::<(), SendError<E>>(SendError::Outside(e))
                },
                Ok(_) if !reached => {
                    &&& j.actions(msg) == moved
                    &&& j.result(msg) == Err::<(), SendError<E>>(
                        SendError::Transport(TransportError::MissingSender { store: msg.to_store }),
                    )
                },
                Ok(_) => match j.delivered {
                    Err(e) => {
                        &&& j.actions(msg) == handed_over
                        &&& j.result(msg) == Err::<(), SendError<E>>(SendError::Outside(e))
                    },
                    Ok(_) => {
                        &&& j.actions(msg) == handed_over.push(
                            SendAction::ReportFinish {
                                store: msg.from_store,
                                region_id: msg.region_id,
                                to_peer_id: msg.to_peer_id,
                            },
                        )
                        &&& j.result(msg) is Ok
                    },
                },
            }
        }),
{
    reveal_with_fuel(Journey::run, 10);
}

/// A snapshot whose source has no directory is refused untouched. One whose target
/// has none is refused after it was registered and opened at its source. Each time the
/// answer names the store that has no directory.
pub proof fn law_snapshot_needs_both_directories<K: Components, E>(
    j: Journey<K, E>,
    msg: RaftMessage,
)
    requires
        msg.msg_type == MSG_SNAPSHOT,
    ensures
        !j.at_start.snap_paths.contains_key(msg.from_store) ==> {
            &&& j.actions(msg).len() == 0
            &&& j.result(msg) == Err::<(), SendError<E>>(
                SendError::Transport(TransportError::MissingTempDir { store: msg.from_store }),
            )
        },
        j.at_start.snap_paths.contains_key(msg.from_store)
            && !j.at_target.snap_paths.contains_key(msg.to_store) ==> {
            &&& j.actions(msg) == seq![
                SendAction::Register { store: msg.from_store, entry: SnapEntry::Sending },
                SendAction::Open { store: msg.from_store, entry: SnapEntry::Sending },
            ]
            &&& j.result(msg) == Err::<(), SendError<E>>(
                SendError::Transport(TransportError::MissingTempDir { store: msg.to_store }),
            )
        },
{
    reveal_with_fuel(Journey::run, 10);
}

/// Which steps are allowed. The copy may end either way, but its source has to have a
/// directory then; the second registration is only taken back from a store with a
/// directory; a delivery that failed always ends the send, and one that went well only
/// needs a router to report through if a snapshot was delivered; a report may end
/// either way; and nothing else may fail.
pub proof fn law_step_is_allowed_iff<K: Components, E>(
    t: TransportView<K>,
    sending: Sending<E>,
    outcome: Result<(), E>,
)
    ensures
        sending.stage is CopySnapshot ==> (t.can_resume(sending, outcome)
            <==> t.snap_paths.contains_key(sending.msg.from_store)),
        sending.stage is DeregisterSource ==> (t.can_resume(sending, outcome) <==> outcome is Ok
            && t.snap_paths.contains_key(sending.msg.to_store)),
        sending.stage is Deliver ==> (t.can_resume(sending, outcome) <==> outcome is Err
            || sending.msg.msg_type != MSG_SNAPSHOT || t.routers.contains_key(
            sending.msg.from_store,
        )),
        sending.stage is ReportFinish ==> t.can_resume(sending, outcome),
        sending.stage is RegisterSource || sending.stage is OpenSource
            || sending.stage is RegisterTarget || sending.stage is OpenTarget
            || sending.stage is DeregisterTarget ==> (t.can_resume(sending, outcome)
            <==> outcome is Ok),
{
}

/// A step leaves the message as it is, and each piece of outside work speaks of the
/// stores of that message: what is sent is at its source, what is received at its
/// target.
pub proof fn law_steps_keep_to_the_message<K: Components, E>(
    t: TransportView<K>,
    sending: Sending<E>,
    outcome: Result<(), E>,
)
    ensures
        t.after(sending, outcome) matches SendProgress::Perform(next) ==> next.msg == sending.msg,
        match sending.action() {
            SendAction::Register { store, entry }
            | SendAction::Open { store, entry }
            | SendAction::Deregister { store, entry } => match entry {
                SnapEntry::Sending => store == sending.msg.from_store,
                SnapEntry::Receiving => store == sending.msg.to_store,
            },
            SendAction::CopySnapshot => true,
            SendAction::Deliver { store } => store == sending.msg.to_store,
            SendAction::ReportFinish { store, region_id, to_peer_id } => {
                &&& store == sending.msg.from_store
                &&& region_id == sending.msg.region_id
                &&& to_peer_id == sending.msg.to_peer_id
            },
        },
{
}

/// A send depends on a transport only through which stores have directories and
/// routers: the same outside work is done, with the same result, whatever the
/// managers, directories and routers themselves are.
pub proof fn law_only_presence_matters<K: Components, E>(
    j: Journey<K, E>,
    k: Journey<K, E>,
    msg: RaftMessage,
)
    requires
        j.at_start.snap_paths.dom() == k.at_start.snap_paths.dom(),
        j.at_start.routers.dom() == k.at_start.routers.dom(),
        j.at_target.snap_paths.dom() == k.at_target.snap_paths.dom(),
        j.at_delivery.routers.dom() == k.at_delivery.routers.dom(),
        j.copied == k.copied,
        j.delivered == k.delivered,
    ensures
        j.actions(msg) == k.actions(msg),
        j.result(msg) == k.result(msg),
{
    assert(j.at_start.snap_paths.dom().contains(msg.from_store)
        == k.at_start.snap_paths.dom().contains(msg.from_store));
    assert(j.at_start.routers.dom().contains(msg.to_store) == k.at_start.routers.dom().contains(
        msg.to_store,
    ));
    assert(j.at_target.snap_paths.dom().contains(msg.to_store)
        == k.at_target.snap_paths.dom().contains(msg.to_store));
    assert(j.at_delivery.routers.dom().contains(msg.to_store)
        == k.at_delivery.routers.dom().contains(msg.to_store));
    law_send_follows_plan(j, msg);
    law_send_follows_plan(k, msg);
}

/// Which piece of outside work each stage of a send waits for, between the store that
/// the message comes from and the store that it goes to.
pub proof fn law_work_of_each_stage<E>(msg: RaftMessage, copied: Result<(), E>)
    ensures
        (Sending { msg, stage: SendStage::<E>::RegisterSource }).action() == (
        SendAction::Register { store: msg.from_store, entry: SnapEntry::Sending }),
        (Sending { msg, stage: SendStage::<E>::OpenSource }).action() == (SendAction::Open {
            store: msg.from_store,
            entry: SnapEntry::Sending,
        }),
        (Sending { msg, stage: SendStage::<E>::RegisterTarget }).action() == (
        SendAction::Register { store: msg.to_store, entry: SnapEntry::Receiving }),
        (Sending { msg, stage: SendStage::<E>::OpenTarget }).action() == (SendAction::Open {
            store: msg.to_store,
            entry: SnapEntry::Receiving,
        }),
        (Sending { msg, stage: SendStage::<E>::CopySnapshot }).action() is CopySnapshot,
        (Sending { msg, stage: SendStage::DeregisterSource(copied) }).action() == (
        SendAction::Deregister { store: msg.from_store, entry: SnapEntry::Sending }),
        (Sending { msg, stage: SendStage::DeregisterTarget(copied) }).action() == (
        SendAction::Deregister { store: msg.to_store, entry: SnapEntry::Receiving }),
        (Sending { msg, stage: SendStage::<E>::Deliver }).action() == (SendAction::Deliver {
            store: msg.to_store,
        }),
        (Sending { msg, stage: SendStage::<E>::ReportFinish }).action() == (
        SendAction::ReportFinish {
            store: msg.from_store,
            region_id: msg.region_id,
            to_peer_id: msg.to_peer_id,
        }),
{
}

/// What each step of the preparation of a snapshot leads to: the source is opened
/// after it was registered, and so is the target, if it has a directory; then comes
/// the copy, and after it both registrations are returned, with the outcome of the
/// copy kept in mind.
pub proof fn law_steps_up_to_the_return<K: Components, E>(
    t: TransportView<K>,
    sending: Sending<E>,
    outcome: Result<(), E>,
)
    ensures
        ({
            let next = t.after(sending, outcome);
            let to_store = sending.msg.to_store;
            &&& sending.stage is RegisterSource
                ==> (next matches SendProgress::Perform(n) && n.stage is OpenSource)
            &&& sending.stage is OpenSource && t.snap_paths.contains_key(to_store)
                ==> (next matches SendProgress::Perform(n) && n.stage is RegisterTarget)
            &&& sending.stage is OpenSource && !t.snap_paths.contains_key(to_store) ==> next
                == SendProgress::<E>::Done(
                Err(SendError::Transport(TransportError::MissingTempDir { store: to_store })),
            )
            &&& sending.stage is RegisterTarget
                ==> (next matches SendProgress::Perform(n) && n.stage is OpenTarget)
            &&& sending.stage is OpenTarget
                ==> (next matches SendProgress::Perform(n) && n.stage is CopySnapshot)
            &&& sending.stage is CopySnapshot
                ==> (next matches SendProgress::Perform(n)
                    && n.stage == SendStage::DeregisterSource(outcome))
            &&& sending.stage matches SendStage::DeregisterSource(copied)
                ==> (next matches SendProgress::Perform(n)
                    && n.stage == SendStage::DeregisterTarget(copied))
        }),
{
}

/// What the last steps of a send lead to: a copy that failed ends the send with its
/// error, and one that went well lets the message be handed over, if its store has a
/// router; a delivery that failed ends the send with its error, and one that went well
/// ends it with success, after a report if the message is of type `MsgSnapshot`; and
/// the send succeeds however the report ends.
pub proof fn law_steps_from_the_return_on<K: Components, E>(
    t: TransportView<K>,
    sending: Sending<E>,
    outcome: Result<(), E>,
)
    ensures
        ({
            let next = t.after(sending, outcome);
            let to_store = sending.msg.to_store;
            &&& sending.stage matches SendStage::DeregisterTarget(Err(e)) ==> next
                == SendProgress::<E>::Done(Err(SendError::Outside(e)))
            &&& sending.stage matches SendStage::DeregisterTarget(Ok(_)) ==> {
                &&& t.routers.contains_key(to_store)
                    ==> (next matches SendProgress::Perform(n) && n.stage is Deliver)
                &&& !t.routers.contains_key(to_store) ==> next == SendProgress::<E>::Done(
                    Err(SendError::Transport(TransportError::MissingSender { store: to_store })),
                )
            }
            &&& sending.stage is Deliver && outcome is Err ==> next == SendProgress::<E>::Done(
                Err(SendError::Outside(outcome->Err_0)),
            )
            &&& sending.stage is Deliver && outcome is Ok && sending.msg.msg_type == MSG_SNAPSHOT
                ==> (next matches SendProgress::Perform(n) && n.stage is ReportFinish)
            &&& sending.stage is Deliver && outcome is Ok && sending.msg.msg_type != MSG_SNAPSHOT
                ==> (next matches SendProgress::Done(result) && result is Ok)
            &&& sending.stage is ReportFinish
                ==> (next matches SendProgress::Done(result) && result is Ok)
        }),
{
}

} // verus!
