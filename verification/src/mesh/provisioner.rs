//! Bluetooth mesh provisioner: the unicast addresses it hands out to new
//! nodes and the results it announces.
use vstd::prelude::*;
use crate::mesh::ReqError;
use crate::mesh::management::{add_node_failed_reason_of, AddNodeFailedReason, NodeAdded};

verus! {

/// Provisioner settings.
#[derive(Clone, Copy, Debug, PartialEq, Eq, Structural)]
pub struct Provisioner {
    /// Network key index of the new nodes.
    pub net_index: u16,
    /// First unicast address to assign.
    pub start_address: u16,
}

/// The state of a registered provisioner: its settings and the next
/// unicast address to assign.
#[derive(Clone, Copy, Debug, PartialEq, Eq, Structural)]
pub struct ProvisionerState {
    /// Settings.
    pub provisioner: Provisioner,
    /// Next unicast address to assign.
    pub next_address: u16,
}

impl ProvisionerState {
    /// A registered provisioner: the first address is the start address.
    pub fn new(provisioner: Provisioner) -> (r: ProvisionerState)
        ensures
            r.provisioner == provisioner,
            r.next_address == provisioner.start_address,
    {
        ProvisionerState { provisioner, next_address: provisioner.start_address }
    }

    /// Answers `RequestProvData` for a node with `count` further elements:
    /// the network key index and the next address; the following node gets
    /// the address after this node's `count + 1` addresses.
    pub fn request_prov_data(&mut self, count: u8) -> (r: (u16, u16))
        requires
            old(self).next_address + count + 1 <= u16::MAX,
        ensures
            r == (old(self).provisioner.net_index, old(self).next_address),
            final(self).next_address == old(self).next_address + count + 1,
            final(self).provisioner == old(self).provisioner,
    {
        let addr = self.next_address;
        self.next_address = self.next_address + (count as u16) + 1;
        (self.provisioner.net_index, addr)
    }
}

/// Consecutive answers hand out disjoint address ranges: a node with
/// `count` further elements owns its address and the `count` after it, and
/// the next node's address comes after all of them.
pub proof fn lemma_prov_ranges_disjoint(s0: ProvisionerState, count: u8, s1: ProvisionerState, a0: u16, a1: u16)
    requires
        a0 == s0.next_address,
        s1.next_address == s0.next_address + count + 1,
        a1 == s1.next_address,
    ensures
        a0 + count < a1,
        a1 == a0 + count + 1,
{
}

/// The value of a UUID given as 16 bytes, most significant first.
pub open spec fn uuid_bytes_value(b: Seq<u8>) -> int
    decreases b.len(),
{
    if b.len() == 0 {
        0
    } else {
        uuid_bytes_value(b.drop_last()) * 256 + b.last()
    }
}

/// The UUID of 16 bytes (`Uuid::from_slice`); `None` for another length.
pub fn uuid_from_slice(b: &[u8]) -> (r: Option<u128>)
    ensures
        b@.len() != 16 ==> r is None,
        b@.len() == 16 ==> r == Some(uuid_bytes_value(b@) as u128),
{
    if b.len() != 16 {
        return None;
    }
    let mut v: u128 = 0;
    let mut i: usize = 0;
    while i < 16
        invariant
            b@.len() == 16,
            i <= 16,
            v == uuid_bytes_value(b@.take(i as int)),
            uuid_bytes_value(b@.take(i as int)) < pow256(i as nat),
        decreases 16 - i,
    {
        assert(b@.take(i + 1).drop_last() =~= b@.take(i as int));
        assert(pow256((i + 1) as nat) == pow256(i as nat) * 256);
        assert(v * 256 + b@[i as int] < pow256(i as nat) * 256) by (nonlinear_arith)
            requires
                v < pow256(i as nat),
                b@[i as int] < 256,
        ;
        assert(pow256(i as nat) <= pow256(15)) by {
            lemma_pow256_mono(i as nat, 15);
        }
        assert(pow256(16) == 0x1_0000_0000_0000_0000_0000_0000_0000_0000) by {
            reveal_with_fuel(pow256, 17);
        }
        assert(pow256(15) * 256 == pow256(16));
        v = v * 256 + b[i] as u128;
        i = i + 1;
    }
    assert(b@.take(16) =~= b@);
    Some(v)
}

/// 256 to the power `n`.
pub open spec fn pow256(n: nat) -> nat
    decreases n,
{
    if n == 0 {
        1
    } else {
        pow256((n - 1) as nat) * 256
    }
}

proof fn lemma_pow256_mono(a: nat, b: nat)
    requires
        a <= b,
    ensures
        pow256(a) <= pow256(b),
    decreases b - a,
{
    if a < b {
        lemma_pow256_mono(a, (b - 1) as nat);
    }
}

/// The announcement of an `AddNodeComplete` call: the node's UUID and
/// addresses; a UUID that is not 16 bytes is answered with `Failed`.
pub fn add_node_complete(uuid: &[u8], unicast: u16, count: u8) -> (r: Result<(u128, Result<NodeAdded, AddNodeFailedReason>), ReqError>)
    ensures
        uuid@.len() != 16 ==> r == Err::<(u128, Result<NodeAdded, AddNodeFailedReason>), ReqError>(ReqError::Failed),
        uuid@.len() == 16 ==> r == Ok::<_, ReqError>((uuid_bytes_value(uuid@) as u128, Ok::<NodeAdded, AddNodeFailedReason>(
            NodeAdded { unicast, count: count as u16 },
        ))),
{
    match uuid_from_slice(uuid) {
        Some(u) => Ok((u, Ok(NodeAdded { unicast, count: count as u16 }))),
        None => Err(ReqError::Failed),
    }
}

/// The announcement of an `AddNodeFailed` call: the node's UUID and the
/// reason (`Unknown` for a text that names none); a UUID that is not 16
/// bytes is answered with `Failed`.
pub fn add_node_failed(uuid: &[u8], reason: &str) -> (r: Result<(u128, Result<NodeAdded, AddNodeFailedReason>), ReqError>)
    ensures
        uuid@.len() != 16 ==> r == Err::<(u128, Result<NodeAdded, AddNodeFailedReason>), ReqError>(ReqError::Failed),
        uuid@.len() == 16 ==> r == Ok::<_, ReqError>((uuid_bytes_value(uuid@) as u128, Err::<NodeAdded, AddNodeFailedReason>(
            add_node_failed_reason_of(reason@),
        ))),
{
    match uuid_from_slice(uuid) {
        Some(u) => Ok((u, Err(AddNodeFailedReason::from_reason(reason)))),
        None => Err(ReqError::Failed),
    }
}

} // verus!
