//! Bluetooth mesh network management: the results of adding a node.
use vstd::prelude::*;
use crate::text::{owned, str_eq};

verus! {

/// A node was added to the network.
#[derive(Clone, Copy, Debug, PartialEq, Eq, Structural)]
pub struct NodeAdded {
    /// Primary address assigned to the new node (and of its config server).
    pub unicast: u16,
    /// Number of unicast addresses assigned to the new node.
    pub count: u16,
}

/// Reason why adding a node has failed.
#[derive(Clone, Copy, Debug, PartialEq, Eq, Structural)]
pub enum AddNodeFailedReason {
    /// aborted
    Aborted,
    /// timeout
    Timeout,
    /// bad PDU
    BadPdu,
    /// confirmation failed
    ConfirmationFailed,
    /// out of resources
    OutOfResources,
    /// decryption error
    DecryptionError,
    /// unexpected error
    UnexpectedError,
    /// cannot assign addresses
    CannotAssignAddresses,
    /// unknown reason
    Unknown,
}

/// The failure reason that a BlueZ reason text names; `Unknown` for any
/// other text.
pub open spec fn add_node_failed_reason_of(s: Seq<char>) -> AddNodeFailedReason {
    if s == "aborted"@ {
        AddNodeFailedReason::Aborted
    } else if s == "timeout"@ {
        AddNodeFailedReason::Timeout
    } else if s == "bad-pdu"@ {
        AddNodeFailedReason::BadPdu
    } else if s == "confirmation-failed"@ {
        AddNodeFailedReason::ConfirmationFailed
    } else if s == "out-of-resources"@ {
        AddNodeFailedReason::OutOfResources
    } else if s == "decryption-error"@ {
        AddNodeFailedReason::DecryptionError
    } else if s == "unexpected-error"@ {
        AddNodeFailedReason::UnexpectedError
    } else if s == "cannot-assign-addresses"@ {
        AddNodeFailedReason::CannotAssignAddresses
    } else {
        AddNodeFailedReason::Unknown
    }
}

/// The message of a failure reason (its `Display` form).
pub open spec fn add_node_failed_text(r: AddNodeFailedReason) -> Seq<char> {
    match r {
        AddNodeFailedReason::Aborted => "aborted"@,
        AddNodeFailedReason::Timeout => "timeout"@,
        AddNodeFailedReason::BadPdu => "bad PDU"@,
        AddNodeFailedReason::ConfirmationFailed => "confirmation failed"@,
        AddNodeFailedReason::OutOfResources => "out of resources"@,
        AddNodeFailedReason::DecryptionError => "decryption error"@,
        AddNodeFailedReason::UnexpectedError => "unexpected error"@,
        AddNodeFailedReason::CannotAssignAddresses => "cannot assign addresses"@,
        AddNodeFailedReason::Unknown => "unknown reason"@,
    }
}

impl AddNodeFailedReason {
    /// The reason that an `AddNodeFailed` call of the daemon gives.
    pub fn from_reason(s: &str) -> (r: AddNodeFailedReason)
        ensures
            r == add_node_failed_reason_of(s@),
    {
        if str_eq(s, "aborted") {
            AddNodeFailedReason::Aborted
        } else if str_eq(s, "timeout") {
            AddNodeFailedReason::Timeout
        } else if str_eq(s, "bad-pdu") {
            AddNodeFailedReason::BadPdu
        } else if str_eq(s, "confirmation-failed") {
            AddNodeFailedReason::ConfirmationFailed
        } else if str_eq(s, "out-of-resources") {
            AddNodeFailedReason::OutOfResources
        } else if str_eq(s, "decryption-error") {
            AddNodeFailedReason::DecryptionError
        } else if str_eq(s, "unexpected-error") {
            AddNodeFailedReason::UnexpectedError
        } else if str_eq(s, "cannot-assign-addresses") {
            AddNodeFailedReason::CannotAssignAddresses
        } else {
            AddNodeFailedReason::Unknown
        }
    }

    /// The message of the reason.
    pub fn to_string(&self) -> (r: String)
        ensures
            r@ == add_node_failed_text(*self),
    {
        match self {
            AddNodeFailedReason::Aborted => owned("aborted"),
            AddNodeFailedReason::Timeout => owned("timeout"),
            AddNodeFailedReason::BadPdu => owned("bad PDU"),
            AddNodeFailedReason::ConfirmationFailed => owned("confirmation failed"),
            AddNodeFailedReason::OutOfResources => owned("out of resources"),
            AddNodeFailedReason::DecryptionError => owned("decryption error"),
            AddNodeFailedReason::UnexpectedError => owned("unexpected error"),
            AddNodeFailedReason::CannotAssignAddresses => owned("cannot assign addresses"),
            AddNodeFailedReason::Unknown => owned("unknown reason"),
        }
    }
}

/// The outcome of adding the node with the given UUID, given a result that
/// the provisioner announced: the result when it is about that node, else
/// none (the wait goes on).
pub fn add_node_outcome(
    uuid: u128,
    announced: (u128, Result<NodeAdded, AddNodeFailedReason>),
) -> (r: Option<Result<NodeAdded, AddNodeFailedReason>>)
    ensures
        announced.0 == uuid ==> r == Some(announced.1),
        announced.0 != uuid ==> r is None,
{
    if announced.0 == uuid {
        Some(announced.1)
    } else {
        None
    }
}

} // verus!
