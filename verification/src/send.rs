//! How one message travels from store to store.
//!
//! Sending a message takes outside work: snapshots are opened and copied, and
//! routers are called. [`ChannelTransport::send`] and
//! [`ChannelTransport::resume`] decide which piece of work comes next. The
//! caller performs it, tells how it went, and asks again, until the transport
//! says what the send returns.

use vstd::prelude::*;

use crate::components::Components;
use crate::error::TransportError;
use crate::message::{RaftMessage, MSG_SNAPSHOT};
use crate::transport::{ChannelTransport, TransportView};

verus! {

/// What a snapshot is in use for while it is registered with a snapshot manager.
#[derive(Clone, Copy, Debug, PartialEq, Eq, Structural)]
pub enum SnapEntry {
    Sending,
    Receiving,
}

/// A piece of outside work.
#[derive(Clone, Copy, Debug, PartialEq, Eq, Structural)]
pub enum SendAction {
    /// Register the snapshot with the snapshot manager of `store`.
    Register { store: u64, entry: SnapEntry },
    /// Open the snapshot at `store`, to read it or to write it.
    Open { store: u64, entry: SnapEntry },
    /// Copy the snapshot that was opened for sending into the one that was
    /// opened for receiving.
    CopySnapshot,
    /// Take back the registration with the snapshot manager of `store`.
    Deregister { store: u64, entry: SnapEntry },
    /// Hand the message to the router of `store`.
    Deliver { store: u64 },
    /// Report through the router of `store` that the peer of the region has its
    /// snapshot.
    ReportFinish { store: u64, region_id: u64, to_peer_id: u64 },
}

/// How far a send has come: which piece of outside work is under way.
pub enum SendStage<E> {
    RegisterSource,
    OpenSource,
    RegisterTarget,
    OpenTarget,
    CopySnapshot,
    /// Holds how the copy went.
    DeregisterSource(Result<(), E>),
    /// Holds how the copy went.
    DeregisterTarget(Result<(), E>),
    Deliver,
    ReportFinish,
}

/// A send that waits for a piece of outside work.
pub struct Sending<E> {
    pub msg: RaftMessage,
    pub stage: SendStage<E>,
}

/// Why a send failed.
pub enum SendError<E> {
    /// The transport knows too little of a store.
    Transport(TransportError),
    /// A piece of outside work failed.
    Outside(E),
}

/// What comes next in a send.
pub enum SendProgress<E> {
    /// The outside work that [`Sending::action`] names is to be done.
    Perform(Sending<E>),
    /// The send is over.
    Done(Result<(), SendError<E>>),
}

impl<E> Sending<E> {
    /// The piece of outside work that a stage waits for.
    pub open spec fn spec_action(&self) -> SendAction {
        let msg = self.msg;
        match self.stage {
            SendStage::RegisterSource => SendAction::Register {
                store: msg.from_store,
                entry: SnapEntry::Sending,
            },
            SendStage::OpenSource => SendAction::Open {
                store: msg.from_store,
                entry: SnapEntry::Sending,
            },
            SendStage::RegisterTarget => SendAction::Register {
                store: msg.to_store,
                entry: SnapEntry::Receiving,
            },
            SendStage::OpenTarget => SendAction::Open {
                store: msg.to_store,
                entry: SnapEntry::Receiving,
            },
            SendStage::CopySnapshot => SendAction::CopySnapshot,
            SendStage::DeregisterSource(_) => SendAction::Deregister {
                store: msg.from_store,
                entry: SnapEntry::Sending,
            },
            SendStage::DeregisterTarget(_) => SendAction::Deregister {
                store: msg.to_store,
                entry: SnapEntry::Receiving,
            },
            SendStage::Deliver => SendAction::Deliver { store: msg.to_store },
            SendStage::ReportFinish => SendAction::ReportFinish {
                store: msg.from_store,
                region_id: msg.region_id,
                to_peer_id: msg.to_peer_id,
            },
        }
    }

    /// The piece of outside work to do now.
    #[verifier::when_used_as_spec(spec_action)]
    pub fn action(&self) -> (action: SendAction)
        ensures
            action == self.action(),
    {
        let msg = self.msg;
        match &self.stage {
            SendStage::RegisterSource => SendAction::Register {
                store: msg.from_store,
                entry: SnapEntry::Sending,
            },
            SendStage::OpenSource => SendAction::Open {
                store: msg.from_store,
                entry: SnapEntry::Sending,
            },
            SendStage::RegisterTarget => SendAction::Register {
                store: msg.to_store,
                entry: SnapEntry::Receiving,
            },
            SendStage::OpenTarget => SendAction::Open {
                store: msg.to_store,
                entry: SnapEntry::Receiving,
            },
            SendStage::CopySnapshot => SendAction::CopySnapshot,
            SendStage::DeregisterSource(_) => SendAction::Deregister {
                store: msg.from_store,
                entry: SnapEntry::Sending,
            },
            SendStage::DeregisterTarget(_) => SendAction::Deregister {
                store: msg.to_store,
                entry: SnapEntry::Receiving,
            },
            SendStage::Deliver => SendAction::Deliver { store: msg.to_store },
            SendStage::ReportFinish => SendAction::ReportFinish {
                store: msg.from_store,
                region_id: msg.region_id,
                to_peer_id: msg.to_peer_id,
            },
        }
    }
}

/// `msg` waits for the outside work of `stage`.
pub open spec fn perform<E>(msg: RaftMessage, stage: SendStage<E>) -> SendProgress<E> {
    SendProgress::Perform(Sending { msg, stage })
}

/// The send ends because `store` has no snapshot directory.
pub open spec fn missing_temp_dir<E>(store: u64) -> SendProgress<E> {
    SendProgress::Done(Err(SendError::Transport(TransportError::MissingTempDir { store })))
}

/// The send ends because `store` has no router.
pub open spec fn missing_sender<E>(store: u64) -> SendProgress<E> {
    SendProgress::Done(Err(SendError::Transport(TransportError::MissingSender { store })))
}

impl<K: Components> TransportView<K> {
    /// How the send of `msg` begins: a snapshot is opened at its source first,
    /// any other message is delivered at once.
    pub open spec fn begin<E>(self, msg: RaftMessage) -> SendProgress<E> {
        if !msg.is_snapshot() {
            self.deliver(msg)
        } else if self.snap_paths.contains_key(msg.from_store) {
            perform(msg, SendStage::RegisterSource)
        } else {
            missing_temp_dir(msg.from_store)
        }
    }

    /// What follows once the message itself may be handed over.
    pub open spec fn deliver<E>(self, msg: RaftMessage) -> SendProgress<E> {
        if self.routers.contains_key(msg.to_store) {
            perform(msg, SendStage::Deliver)
        } else {
            missing_sender(msg.to_store)
        }
    }

    /// Whether a send may go on after `outcome`.
    ///
    /// Opening a snapshot must not fail, a registration is only taken back from
    /// a store that has a snapshot directory, and a finished snapshot is only
    /// reported through a router that is there.
    pub open spec fn can_resume<E>(self, sending: Sending<E>, outcome: Result<(), E>) -> bool {
        let msg = sending.msg;
        match sending.stage {
            SendStage::CopySnapshot => self.snap_paths.contains_key(msg.from_store),
            SendStage::DeregisterSource(_) => {
                &&& outcome is Ok
                &&& self.snap_paths.contains_key(msg.to_store)
            },
            SendStage::Deliver => {
                outcome is Ok && msg.is_snapshot() ==> self.routers.contains_key(msg.from_store)
            },
            SendStage::ReportFinish => true,
            _ => outcome is Ok,
        }
    }

    /// What follows the outside work of `sending`, which ended with `outcome`.
    pub open spec fn after<E>(self, sending: Sending<E>, outcome: Result<(), E>) -> SendProgress<E> {
        let msg = sending.msg;
        match sending.stage {
            SendStage::RegisterSource => perform(msg, SendStage::OpenSource),
            SendStage::OpenSource => if self.snap_paths.contains_key(msg.to_store) {
                perform(msg, SendStage::RegisterTarget)
            } else {
                missing_temp_dir(msg.to_store)
            },
            SendStage::RegisterTarget => perform(msg, SendStage::OpenTarget),
            SendStage::OpenTarget => perform(msg, SendStage::CopySnapshot),
            SendStage::CopySnapshot => perform(msg, SendStage::DeregisterSource(outcome)),
            SendStage::DeregisterSource(copied) => perform(
                msg,
                SendStage::DeregisterTarget(copied),
            ),
            SendStage::DeregisterTarget(copied) => match copied {
                Ok(()) => self.deliver(msg),
                Err(e) => SendProgress::Done(Err(SendError::Outside(e))),
            },
            SendStage::Deliver => match outcome {
                Ok(()) => if msg.is_snapshot() {
                    perform(msg, SendStage::ReportFinish)
                } else {
                    SendProgress::Done(Ok(()))
                },
                Err(e) => SendProgress::Done(Err(SendError::Outside(e))),
            },
            SendStage::ReportFinish => SendProgress::Done(Ok(())),
        }
    }
}

impl<K: Components> ChannelTransport<K> {
    /// Begins to send `msg`.
    pub fn send<E>(&self, msg: RaftMessage) -> (progress: SendProgress<E>)
        ensures
            progress == self@.begin::<E>(msg),
            msg.msg_type == MSG_SNAPSHOT && self@.snap_paths.contains_key(msg.from_store)
                ==> progress == SendProgress::<E>::Perform(
                Sending { msg, stage: SendStage::RegisterSource },
            ),
            msg.msg_type == MSG_SNAPSHOT && !self@.snap_paths.contains_key(msg.from_store)
                ==> progress == SendProgress::<E>::Done(
                Err(
                    SendError::Transport(TransportError::MissingTempDir { store: msg.from_store }),
                ),
            ),
            msg.msg_type != MSG_SNAPSHOT && self@.routers.contains_key(msg.to_store) ==> progress
                == SendProgress::<E>::Perform(Sending { msg, stage: SendStage::Deliver }),
            msg.msg_type != MSG_SNAPSHOT && !self@.routers.contains_key(msg.to_store) ==> progress
                == SendProgress::<E>::Done(
                Err(SendError::Transport(TransportError::MissingSender { store: msg.to_store })),
            ),
    {
        if !msg.is_snapshot() {
            self.deliver(msg)
        } else if self.core.snap_paths.contains_key(&msg.from_store) {
            SendProgress::Perform(Sending { msg, stage: SendStage::RegisterSource })
        } else {
            let error = TransportError::MissingTempDir { store: msg.from_store };
            SendProgress::Done(Err(SendError::Transport(error)))
        }
    }

    /// Whether [`resume`](Self::resume) may be called.
    pub fn can_resume<E>(&self, sending: &Sending<E>, outcome: &Result<(), E>) -> (b: bool)
        ensures
            b == self@.can_resume(*sending, *outcome),
    {
        let msg = sending.msg;
        match &sending.stage {
            SendStage::CopySnapshot => self.core.snap_paths.contains_key(&msg.from_store),
            SendStage::DeregisterSource(_) => {
                outcome.is_ok() && self.core.snap_paths.contains_key(&msg.to_store)
            },
            SendStage::Deliver => {
                outcome.is_err() || !msg.is_snapshot() || self.core.routers.contains_key(
                    &msg.from_store,
                )
            },
            SendStage::ReportFinish => true,
            _ => outcome.is_ok(),
        }
    }

    /// Goes on with a send whose outside work ended with `outcome`.
    pub fn resume<E>(&self, sending: Sending<E>, outcome: Result<(), E>) -> (progress:
        SendProgress<E>)
        requires
            self@.can_resume(sending, outcome),
        ensures
            progress == self@.after(sending, outcome),
    {
        let msg = sending.msg;
        let stage = match sending.stage {
            SendStage::RegisterSource => SendStage::OpenSource,
            SendStage::OpenSource => {
                if !self.core.snap_paths.contains_key(&msg.to_store) {
                    let error = TransportError::MissingTempDir { store: msg.to_store };
                    return SendProgress::Done(Err(SendError::Transport(error)));
                }
                SendStage::RegisterTarget
            },
            SendStage::RegisterTarget => SendStage::OpenTarget,
            SendStage::OpenTarget => SendStage::CopySnapshot,
            SendStage::CopySnapshot => SendStage::DeregisterSource(outcome),
            SendStage::DeregisterSource(copied) => SendStage::DeregisterTarget(copied),
            SendStage::DeregisterTarget(copied) => {
                return match copied {
                    Ok(()) => self.deliver(msg),
                    Err(e) => SendProgress::Done(Err(SendError::Outside(e))),
                };
            },
            SendStage::Deliver => {
                if let Err(e) = outcome {
                    return SendProgress::Done(Err(SendError::Outside(e)));
                }
                if !msg.is_snapshot() {
                    return SendProgress::Done(Ok(()));
                }
                SendStage::ReportFinish
            },
            SendStage::ReportFinish => {
                return SendProgress::Done(Ok(()));
            },
        };
        SendProgress::Perform(Sending { msg, stage })
    }

    /// Hands `msg` over, if its store can be reached.
    fn deliver<E>(&self, msg: RaftMessage) -> (progress: SendProgress<E>)
        ensures
            progress == self@.deliver::<E>(msg),
    {
        if self.core.routers.contains_key(&msg.to_store) {
            SendProgress::Perform(Sending { msg, stage: SendStage::Deliver })
        } else {
            let error = TransportError::MissingSender { store: msg.to_store };
            SendProgress::Done(Err(SendError::Transport(error)))
        }
    }
}

} // verus!
