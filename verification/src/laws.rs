//! The laws of a discovery run, stated over `accumulated`, the fold that
//! appends one record per processed discovery. `Accumulator::wf` keeps the
//! running machine equal to this fold over its own history, so each law
//! proved here holds of the machine's published snapshots.

use vstd::prelude::*;

use crate::device::DeviceInfoV;
use crate::device::ManufacturerEntryV;
use crate::device::PropertySetV;
use crate::device::ServiceDataEntryV;
use crate::device::device_of_lookup;
use crate::device::zero_address;

verus! {

/// One discovery as a whole run sees it: the discovered identity together
/// with the outcome of its property lookup (`None` when the source exposed
/// no properties).
pub ghost struct DiscoveryV {
    pub id: Seq<char>,
    pub props: Option<PropertySetV>,
}

/// The records accumulated after a sequence of processed discoveries, in
/// discovery order: each discovery appends exactly its record.
pub open spec fn accumulated(events: Seq<DiscoveryV>) -> Seq<DeviceInfoV>
    decreases events.len(),
{
    if events.len() == 0 {
        Seq::empty()
    } else {
        accumulated(events.drop_last()).push(
            device_of_lookup(events.last().id, events.last().props),
        )
    }
}

/// The k-th snapshot a run publishes: the records accumulated after the
/// first k processed discoveries.
pub open spec fn snapshot_at(events: Seq<DiscoveryV>, k: int) -> Seq<DeviceInfoV> {
    accumulated(events.take(k))
}

pub open spec fn distinct_ids(events: Seq<DiscoveryV>) -> bool {
    forall|i: int, j: int| 0 <= i < j < events.len() ==> events[i].id != events[j].id
}

pub proof fn lemma_accumulated_len(events: Seq<DiscoveryV>)
    ensures
        accumulated(events).len() == events.len(),
    decreases events.len(),
{
    if events.len() > 0 {
        lemma_accumulated_len(events.drop_last());
    }
}

/// Law (monotonic accumulation): over discovery events with distinct
/// identities, the k-th published snapshot holds exactly k records and is
/// the (k-1)-th snapshot extended by exactly the record of the k-th
/// discovery — each snapshot is a prefix-ordered superset of every earlier
/// one.
pub proof fn lemma_monotonic_accumulation(events: Seq<DiscoveryV>, k: int)
    requires
        distinct_ids(events),
        1 <= k <= events.len(),
    ensures
        snapshot_at(events, k).len() == k,
        snapshot_at(events, k) == snapshot_at(events, k - 1).push(
            device_of_lookup(events[k - 1].id, events[k - 1].props),
        ),
{
    lemma_accumulated_len(events.take(k));
    assert(events.take(k).drop_last() =~= events.take(k - 1));
    assert(events.take(k).last() == events[k - 1]);
}

/// Law (snapshots only grow): over discovery events with distinct
/// identities, the j-th published snapshot is a prefix of the k-th for
/// every j <= k — no record is ever removed or reordered.
pub proof fn lemma_snapshot_prefix(events: Seq<DiscoveryV>, j: int, k: int)
    requires
        distinct_ids(events),
        0 <= j <= k <= events.len(),
    ensures
        snapshot_at(events, j) == snapshot_at(events, k).take(j),
    decreases k - j,
{
    lemma_accumulated_len(events.take(k));
    if j == k {
        assert(snapshot_at(events, k).take(j) =~= snapshot_at(events, k));
    } else {
        lemma_monotonic_accumulation(events, k);
        lemma_accumulated_len(events.take(k - 1));
        assert(snapshot_at(events, k).take(j) =~= snapshot_at(events, k - 1).take(j));
        lemma_snapshot_prefix(events, j, k - 1);
    }
}

/// Law (identities in order): the accumulated records carry the discovered
/// identities, one each, in discovery order.
pub proof fn lemma_ids_in_order(events: Seq<DiscoveryV>)
    ensures
        accumulated(events).len() == events.len(),
        forall|i: int|
            0 <= i < events.len() ==> #[trigger] accumulated(events)[i].id == events[i].id,
    decreases events.len(),
{
    lemma_accumulated_len(events);
    if events.len() > 0 {
        lemma_ids_in_order(events.drop_last());
        assert forall|i: int| 0 <= i < events.len() implies #[trigger] accumulated(events)[i].id
            == events[i].id by {
            if i < events.len() - 1 {
                assert(accumulated(events)[i] == accumulated(events.drop_last())[i]);
                assert(events.drop_last()[i] == events[i]);
            }
        }
    }
}

/// Law (identity uniqueness): over discovery events with distinct
/// identities, a given identity appears at most once among the accumulated
/// records, for the lifetime of the run.
pub proof fn lemma_unique_ids(events: Seq<DiscoveryV>)
    requires
        distinct_ids(events),
    ensures
        forall|i: int, j: int|
            0 <= i < j < accumulated(events).len() ==> #[trigger] accumulated(events)[i].id
                != #[trigger] accumulated(events)[j].id,
{
    lemma_ids_in_order(events);
}

/// Law (default property substitution): a discovery whose property lookup
/// found no properties yields a record for that identity whose optional
/// fields are all absent and whose collections are all empty — the run is
/// not aborted on its account.
pub proof fn lemma_default_substitution(id: Seq<char>)
    ensures
        device_of_lookup(id, None).id == id,
        device_of_lookup(id, None).local_name is None,
        device_of_lookup(id, None).tx_power_level is None,
        device_of_lookup(id, None).rssi is None,
        device_of_lookup(id, None).address == zero_address(),
        device_of_lookup(id, None).manufacturer_data == Seq::<ManufacturerEntryV>::empty(),
        device_of_lookup(id, None).services == Seq::<u128>::empty(),
        device_of_lookup(id, None).service_data == Seq::<ServiceDataEntryV>::empty(),
{
}

} // verus!
