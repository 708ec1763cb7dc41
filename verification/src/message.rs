//! The part of a Raft message that routing depends on.

use protobuf::ProtobufEnum;
use raft::eraftpb::MessageType;
use vstd::prelude::*;

verus! {

/// The number that stands for `MsgSnapshot` among the Raft message types.
pub const MSG_SNAPSHOT: i32 = 7;

/// `MessageType::MsgSnapshot.value()` of the `raft` crate.
///
/// Trusted: the enum numbers its variant `MsgSnapshot` with `MSG_SNAPSHOT`.
#[verifier::external_body]
fn snapshot_type() -> (value: i32)
    ensures
        value == MSG_SNAPSHOT,
{
    MessageType::MsgSnapshot.value()
}

/// The envelope of a Raft message: who sends it, who is to get it, and what
/// kind of message it is.
#[derive(Clone, Copy, Debug, PartialEq, Eq, Structural)]
pub struct RaftMessage {
    /// The region whose Raft group the message belongs to.
    pub region_id: u64,
    /// The store of the sending peer.
    pub from_store: u64,
    /// The store of the receiving peer.
    pub to_store: u64,
    /// The receiving peer.
    pub to_peer_id: u64,
    /// The number of the message type, as `raft::eraftpb::MessageType` counts.
    pub msg_type: i32,
}

impl RaftMessage {
    /// Whether the message carries a snapshot.
    pub open spec fn spec_is_snapshot(self) -> bool {
        self.msg_type == MSG_SNAPSHOT
    }

    /// Whether the message carries a snapshot.
    #[verifier::when_used_as_spec(spec_is_snapshot)]
    pub fn is_snapshot(self) -> (b: bool)
        ensures
            b == self.is_snapshot(),
            b == (self.msg_type == MSG_SNAPSHOT),
    {
        self.msg_type == snapshot_type()
    }
}

/// A message carries a snapshot if and only if its type is `MsgSnapshot`, whatever
/// the region, the stores and the peer are.
pub proof fn law_snapshot_is_told_by_type(msg: RaftMessage)
    ensures
        msg.is_snapshot() <==> msg.msg_type == MSG_SNAPSHOT,
{
}

/// Two messages of the same type both carry a snapshot or both carry none.
pub proof fn law_address_makes_no_snapshot(msg: RaftMessage, other: RaftMessage)
    requires
        msg.msg_type == other.msg_type,
    ensures
        msg.is_snapshot() == other.is_snapshot(),
{
}

} // verus!
