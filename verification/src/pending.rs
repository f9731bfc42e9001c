//! The table of requests that still wait for their answer, kept in a
//! [`dashmap::DashMap`].

use dashmap::DashMap;
use vstd::prelude::*;

verus! {

/// `dashmap::DashMap`, a concurrent hash map. Nothing of its inside is
/// known here; what it holds is told by the names below.
#[verifier::external_type_specification]
#[verifier::external_body]
#[verifier::reject_recursive_types(K)]
#[verifier::reject_recursive_types(V)]
#[verifier::reject_recursive_types(S)]
pub struct ExDashMap<K, V, S>(DashMap<K, V, S>);

/// The table: from a peer's name and a request number to a caller's ticket.
pub type PendingTable = DashMap<(String, u32), u64>;

/// The key of an entry as the contracts see it.
pub type PendingKey = (Seq<char>, u32);

/// What the table holds: for each peer and request number, the ticket of
/// the caller that waits.
pub uninterp spec fn pending_entries(table: PendingTable) -> Map<PendingKey, u64>;

/// `DashMap::new`: a table without entries.
#[verifier::external_body]
pub(crate) fn table_new() -> (fresh: PendingTable)
    ensures
        pending_entries(fresh) == (Map::<PendingKey, u64>::empty()),
{
    DashMap::new()
}

/// `DashMap::insert`: afterwards the key maps to `slot` and every other key
/// is as before; the value that the key had is returned.
#[verifier::external_body]
pub(crate) fn table_insert(
    table: &mut PendingTable,
    peer: String,
    msg_id: u32,
    slot: u64,
) -> (prev: Option<u64>)
    ensures
        pending_entries(*final(table)) == pending_entries(*old(table)).insert(
            (peer@, msg_id),
            slot,
        ),
        prev == (if pending_entries(*old(table)).contains_key((peer@, msg_id)) {
            Some(pending_entries(*old(table))[(peer@, msg_id)])
        } else {
            None
        }),
{
    table.insert((peer, msg_id), slot)
}

/// `DashMap::remove`: afterwards the key is absent and every other key is
/// as before; the value that the key had is returned.
#[verifier::external_body]
pub(crate) fn table_remove(table: &mut PendingTable, peer: &String, msg_id: u32) -> (taken: Option<u64>)
    ensures
        pending_entries(*final(table)) == pending_entries(*old(table)).remove((peer@, msg_id)),
        taken == (if pending_entries(*old(table)).contains_key((peer@, msg_id)) {
            Some(pending_entries(*old(table))[(peer@, msg_id)])
        } else {
            None
        }),
{
    table.remove(&(peer.clone(), msg_id)).map(|entry| entry.1)
}

} // verus!
