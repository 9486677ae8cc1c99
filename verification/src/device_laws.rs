//! What the list of devices promises.

use crate::devices::{
    device_use, lookup_role, refresh_devices, sort_devices, stably_ordered,
    update_device_battery_status, with_key, MonadoDevice, MonadoRole, MonadoSnapshot,
    TrackedDevice, TrackedDeviceRole,
};
use crate::float_bits::total_order_is_total;
use crate::input_source::OpenXrInputSource;
use vstd::prelude::*;

verus! {

/// What a device adds to the list: one entry with the charge of its battery, where that
/// was read and is present, and else nothing.
pub open spec fn entry(device: MonadoDevice, role: TrackedDeviceRole) -> Seq<TrackedDevice> {
    if device.battery is Some && device.battery->0.present {
        seq![
            TrackedDevice {
                soc: Some(device.battery->0.charge),
                charging: device.battery->0.charging,
                role,
            },
        ]
    } else {
        Seq::empty()
    }
}

/// A device is added at the end where it has a battery, and nothing else changes.
pub proof fn battery_is_listed_where_present(
    device: &MonadoDevice,
    role: TrackedDeviceRole,
    devices: &mut Vec<TrackedDevice>,
)
    requires
        call_ensures(update_device_battery_status, (device, role, devices), ()),
    ensures
        final(devices)@ == old(devices)@ + entry(*device, role),
{
    assert(crate::devices::shown(*device, role) =~= entry(*device, role));
}

/// The place of a role in the list.
pub open spec fn rank_of(role: TrackedDeviceRole) -> int {
    match role {
        TrackedDeviceRole::Other => 0,
        TrackedDeviceRole::Hmd => 1,
        TrackedDeviceRole::LeftHand => 2,
        TrackedDeviceRole::RightHand => 3,
        TrackedDeviceRole::Tracker => 4,
    }
}

/// One device may stand before another: known charges before unknown ones, then by role,
/// then the lower charge first.
pub open spec fn may_precede(one: TrackedDevice, other: TrackedDevice) -> bool {
    if one.soc is Some && other.soc is None {
        true
    } else if one.soc is None && other.soc is Some {
        false
    } else if rank_of(one.role) != rank_of(other.role) {
        rank_of(one.role) < rank_of(other.role)
    } else {
        one.soc is Some ==> one.soc->0.total_rank() <= other.soc->0.total_rank()
    }
}

/// Devices that the order does not tell apart.
pub open spec fn alike(device: TrackedDevice) -> spec_fn(TrackedDevice) -> bool {
    |other: TrackedDevice| other.soc == device.soc && other.role == device.role
}

/// A list in order that holds the devices of another one, those alike in the order in
/// which they came.
pub open spec fn in_order_of(sorted: Seq<TrackedDevice>, devices: Seq<TrackedDevice>) -> bool {
    &&& sorted.len() == devices.len()
    &&& sorted.to_multiset() == devices.to_multiset()
    &&& forall|i: int, j: int|
        0 <= i < j < sorted.len() ==> may_precede(#[trigger] sorted[i], #[trigger] sorted[j])
    &&& forall|device: TrackedDevice| #[trigger]
        sorted.filter(alike(device)) == devices.filter(alike(device))
}

proof fn lemma_in_order(sorted: Seq<TrackedDevice>, devices: Seq<TrackedDevice>)
    requires
        stably_ordered(sorted, devices),
    ensures
        in_order_of(sorted, devices),
{
    crate::devices::stable_order_is_a_permutation(sorted, devices);
    assert forall|device: TrackedDevice| #[trigger]
        sorted.filter(alike(device)) == devices.filter(alike(device)) by {
        lemma_alike(sorted, device);
        lemma_alike(devices, device);
        assert(with_key(sorted, device.key()) == with_key(devices, device.key()));
    }
}

proof fn lemma_alike(devices: Seq<TrackedDevice>, device: TrackedDevice)
    ensures
        devices.filter(alike(device)) == with_key(devices, device.key()),
    decreases devices.len(),
{
    reveal_with_fuel(Seq::filter, 1);
    if devices.len() > 0 {
        lemma_alike(devices.drop_last(), device);
        let last = devices.last();
        if last.soc is Some && device.soc is Some {
            total_order_is_total(last.soc->0, device.soc->0);
        }
        assert(last.key() == device.key() <==> alike(device)(last));
    }
}

/// Sorting keeps every device as often as it was there, puts them in order, and leaves
/// those alike in the order in which they came.
pub proof fn sorting_orders_and_keeps(devices: &mut Vec<TrackedDevice>)
    requires
        call_ensures(sort_devices, (devices,), ()),
    ensures
        in_order_of(final(devices)@, old(devices)@),
{
    lemma_in_order(final(devices)@, old(devices)@);
}

/// Each role is looked up in its turn, and has its use.
pub proof fn roles_have_their_uses(i: usize, role: MonadoRole, used_as: TrackedDeviceRole)
    requires
        call_ensures(lookup_role, (i,), role),
        call_ensures(device_use, (role,), used_as),
        i < 7,
    ensures
        i == 0 ==> role == MonadoRole::Head,
        i == 1 ==> role == MonadoRole::Eyes,
        i == 2 ==> role == MonadoRole::Left,
        i == 3 ==> role == MonadoRole::Right,
        i == 4 ==> role == MonadoRole::Gamepad,
        i == 5 ==> role == MonadoRole::HandTrackingLeft,
        i == 6 ==> role == MonadoRole::HandTrackingRight,
        used_as == use_at(i as int),
{
}

/// What the device of each lookup is used for.
pub open spec fn use_at(i: int) -> TrackedDeviceRole {
    if i == 0 {
        TrackedDeviceRole::Hmd
    } else if i == 2 || i == 5 {
        TrackedDeviceRole::LeftHand
    } else if i == 3 || i == 6 {
        TrackedDeviceRole::RightHand
    } else {
        TrackedDeviceRole::Other
    }
}

/// A device was looked up under a role before the `i`th.
pub open spec fn met_before(by_role: Seq<Option<MonadoDevice>>, i: int, index: u32) -> bool {
    exists|j: int| 0 <= j < i && #[trigger] by_role[j] is Some && by_role[j]->0.index == index
}

/// What the `i`th lookup adds: nothing of a device that was met before.
pub open spec fn entry_at(by_role: Seq<Option<MonadoDevice>>, i: int) -> Seq<TrackedDevice> {
    if by_role[i] is Some && !met_before(by_role, i, by_role[i]->0.index) {
        entry(by_role[i]->0, use_at(i))
    } else {
        Seq::empty()
    }
}

/// What the listed devices add: those that no lookup has met, as trackers where their
/// name is from 4 to 8.
pub open spec fn entries_listed(
    by_role: Seq<Option<MonadoDevice>>,
    listing: Seq<MonadoDevice>,
) -> Seq<TrackedDevice>
    decreases listing.len(),
{
    if listing.len() == 0 {
        Seq::empty()
    } else {
        let last = listing.last();
        entries_listed(by_role, listing.drop_last()) + (if met_before(by_role, 7, last.index) {
            Seq::empty()
        } else {
            entry(
                last,
                if 4 <= last.name_id && last.name_id <= 8 {
                    TrackedDeviceRole::Tracker
                } else {
                    TrackedDeviceRole::Other
                },
            )
        })
    }
}

/// All entries of a snapshot.
pub open spec fn entries(snapshot: MonadoSnapshot) -> Seq<TrackedDevice> {
    let roles = snapshot.by_role@;
    entry_at(roles, 0) + entry_at(roles, 1) + entry_at(roles, 2) + entry_at(roles, 3) + entry_at(
        roles,
        4,
    ) + entry_at(roles, 5) + entry_at(roles, 6) + (match snapshot.listing {
        Some(listing) => entries_listed(roles, listing@),
        None => Seq::empty(),
    })
}

proof fn lemma_entry_at(by_role: Seq<Option<MonadoDevice>>, i: int)
    requires
        0 <= i < 7,
    ensures
        crate::devices::shown_by_role(by_role, i + 1) == crate::devices::shown_by_role(by_role, i)
            + entry_at(by_role, i),
{
    if by_role[i] is Some {
        let device = by_role[i]->0;
        assert(crate::devices::found(by_role, i, device.index) == met_before(
            by_role,
            i,
            device.index,
        ));
        assert(crate::devices::shown(device, use_at(i)) =~= entry(device, use_at(i)));
    }
    assert(crate::devices::shown_by_role(by_role, i + 1) =~= crate::devices::shown_by_role(
        by_role,
        i,
    ) + entry_at(by_role, i));
}

proof fn lemma_listed(
    by_role: Seq<Option<MonadoDevice>>,
    listing: Seq<MonadoDevice>,
    upto: int,
)
    requires
        0 <= upto <= listing.len(),
    ensures
        crate::devices::shown_of_listing(by_role, listing, upto) == entries_listed(
            by_role,
            listing.take(upto),
        ),
    decreases upto,
{
    if upto > 0 {
        lemma_listed(by_role, listing, upto - 1);
        assert(listing.take(upto).drop_last() =~= listing.take(upto - 1));
        let device = listing[upto - 1];
        assert(listing.take(upto).last() == device);
        assert(crate::devices::found(by_role, 7, device.index) == met_before(
            by_role,
            7,
            device.index,
        ));
        let role = crate::devices::use_of_name(device.name_id);
        assert(crate::devices::shown(device, role) =~= entry(device, role));
        assert(crate::devices::shown_of_listing(by_role, listing, upto) =~= entries_listed(
            by_role,
            listing.take(upto),
        ));
    }
}

proof fn lemma_entries(snapshot: MonadoSnapshot)
    ensures
        snapshot.shown_devices() == entries(snapshot),
{
    let roles = snapshot.by_role@;
    lemma_entry_at(roles, 0);
    lemma_entry_at(roles, 1);
    lemma_entry_at(roles, 2);
    lemma_entry_at(roles, 3);
    lemma_entry_at(roles, 4);
    lemma_entry_at(roles, 5);
    lemma_entry_at(roles, 6);
    assert(crate::devices::shown_by_role(roles, 1) =~= entry_at(roles, 0));
    if let Some(listing) = snapshot.listing {
        lemma_listed(roles, listing@, listing@.len() as int);
        assert(listing@.take(listing@.len() as int) =~= listing@);
    }
    assert(snapshot.shown_devices() =~= entries(snapshot));
}

/// A new list has the entries of the devices that were met, each under the first of its
/// roles, and of those that were only listed, in order. The answer is whether it has
/// another length than the old one.
pub proof fn new_list_has_the_entries(
    devices: &mut Vec<TrackedDevice>,
    snapshot: &MonadoSnapshot,
    changed: bool,
)
    requires
        call_ensures(refresh_devices, (devices, snapshot), changed),
    ensures
        in_order_of(final(devices)@, entries(*snapshot)),
        changed <==> old(devices)@.len() != final(devices)@.len(),
{
    lemma_entries(*snapshot);
    lemma_in_order(final(devices)@, snapshot.shown_devices());
}

/// The list is renewed where the service is there, and stays as it is where not.
pub proof fn list_is_renewed_by_the_service(
    devices: &mut Vec<TrackedDevice>,
    monado: &Option<MonadoSnapshot>,
    changed: bool,
)
    requires
        call_ensures(OpenXrInputSource::update_devices, (devices, monado), changed),
    ensures
        *monado is None ==> final(devices)@ == old(devices)@,
        *monado matches Some(snapshot) ==> in_order_of(final(devices)@, entries(snapshot)),
        changed <==> old(devices)@.len() != final(devices)@.len(),
{
    if let Some(snapshot) = *monado {
        lemma_entries(snapshot);
        lemma_in_order(final(devices)@, snapshot.shown_devices());
    }
}

/// The list can be renewed at any time.
pub proof fn list_can_always_be_renewed(
    devices: &mut Vec<TrackedDevice>,
    device: &MonadoDevice,
    role: TrackedDeviceRole,
    snapshot: &MonadoSnapshot,
    monado: &Option<MonadoSnapshot>,
)
    ensures
        call_requires(update_device_battery_status, (device, role, devices)),
        call_requires(sort_devices, (devices,)),
        call_requires(refresh_devices, (devices, snapshot)),
        call_requires(OpenXrInputSource::update_devices, (devices, monado)),
{
}

} // verus!
