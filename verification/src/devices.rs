//! The devices whose batteries are shown.

use crate::float_bits::FloatBits;
use vstd::prelude::*;

verus! {

/// 999.0, which stands for a charge that is not known.
pub const UNKNOWN_CHARGE: u32 = 0x4479_c000;

/// The names that the service gives to general-purpose trackers.
pub const FIRST_TRACKER_NAME: u32 = 4;

pub const LAST_TRACKER_NAME: u32 = 8;

/// How many roles are looked up.
pub const LOOKUPS: usize = 7;

/// The roles that devices can be looked up by.
#[derive(Clone, Copy, Debug, PartialEq, Eq, Structural)]
pub enum MonadoRole {
    Head,
    Eyes,
    Left,
    Right,
    Gamepad,
    HandTrackingLeft,
    HandTrackingRight,
}

/// What a device is used for.
#[derive(Clone, Copy, Debug, PartialEq, Eq, Structural)]
pub enum TrackedDeviceRole {
    Other,
    Hmd,
    LeftHand,
    RightHand,
    Tracker,
}

impl TrackedDeviceRole {
    /// The place of the role in the list of devices.
    pub open spec fn place(self) -> int {
        match self {
            TrackedDeviceRole::Other => 0,
            TrackedDeviceRole::Hmd => 1,
            TrackedDeviceRole::LeftHand => 2,
            TrackedDeviceRole::RightHand => 3,
            TrackedDeviceRole::Tracker => 4,
        }
    }

    fn list_place(self) -> (place: u8)
        ensures
            place == self.place(),
    {
        match self {
            TrackedDeviceRole::Other => 0,
            TrackedDeviceRole::Hmd => 1,
            TrackedDeviceRole::LeftHand => 2,
            TrackedDeviceRole::RightHand => 3,
            TrackedDeviceRole::Tracker => 4,
        }
    }
}

/// A device in the list.
#[derive(Clone, Copy, Debug, PartialEq, Eq, Structural)]
pub struct TrackedDevice {
    /// The state of charge.
    pub soc: Option<FloatBits>,
    pub charging: bool,
    pub role: TrackedDeviceRole,
}

/// The battery of a device.
#[derive(Clone, Copy, Debug, PartialEq, Eq, Structural)]
pub struct BatteryStatus {
    pub present: bool,
    pub charging: bool,
    pub charge: FloatBits,
}

/// A device as the service knows it.
#[derive(Clone, Copy, Debug, PartialEq, Eq, Structural)]
pub struct MonadoDevice {
    pub index: u32,
    pub name_id: u32,
    /// What was read of its battery, where that could be read.
    pub battery: Option<BatteryStatus>,
}

/// The devices of the service.
#[derive(Debug)]
pub struct MonadoSnapshot {
    /// The device of each role, in the order of the lookups.
    pub by_role: [Option<MonadoDevice>; 7],
    /// All devices, where they could be listed.
    pub listing: Option<Vec<MonadoDevice>>,
}

/// The role at each place of the order of the lookups.
pub open spec fn role_at(i: int) -> MonadoRole {
    if i == 0 {
        MonadoRole::Head
    } else if i == 1 {
        MonadoRole::Eyes
    } else if i == 2 {
        MonadoRole::Left
    } else if i == 3 {
        MonadoRole::Right
    } else if i == 4 {
        MonadoRole::Gamepad
    } else if i == 5 {
        MonadoRole::HandTrackingLeft
    } else {
        MonadoRole::HandTrackingRight
    }
}

/// The role at each place of the order of the lookups.
pub fn lookup_role(i: usize) -> (role: MonadoRole)
    requires
        i < LOOKUPS,
    ensures
        role == role_at(i as int),
{
    match i {
        0 => MonadoRole::Head,
        1 => MonadoRole::Eyes,
        2 => MonadoRole::Left,
        3 => MonadoRole::Right,
        4 => MonadoRole::Gamepad,
        5 => MonadoRole::HandTrackingLeft,
        _ => MonadoRole::HandTrackingRight,
    }
}

/// What a device that was looked up by a role is used for.
pub open spec fn use_of_role(role: MonadoRole) -> TrackedDeviceRole {
    match role {
        MonadoRole::Head => TrackedDeviceRole::Hmd,
        MonadoRole::Eyes => TrackedDeviceRole::Other,
        MonadoRole::Left => TrackedDeviceRole::LeftHand,
        MonadoRole::Right => TrackedDeviceRole::RightHand,
        MonadoRole::Gamepad => TrackedDeviceRole::Other,
        MonadoRole::HandTrackingLeft => TrackedDeviceRole::LeftHand,
        MonadoRole::HandTrackingRight => TrackedDeviceRole::RightHand,
    }
}

/// What a device that was looked up by a role is used for.
pub fn device_use(role: MonadoRole) -> (used_as: TrackedDeviceRole)
    ensures
        used_as == use_of_role(role),
{
    match role {
        MonadoRole::Head => TrackedDeviceRole::Hmd,
        MonadoRole::Eyes => TrackedDeviceRole::Other,
        MonadoRole::Left => TrackedDeviceRole::LeftHand,
        MonadoRole::Right => TrackedDeviceRole::RightHand,
        MonadoRole::Gamepad => TrackedDeviceRole::Other,
        MonadoRole::HandTrackingLeft => TrackedDeviceRole::LeftHand,
        MonadoRole::HandTrackingRight => TrackedDeviceRole::RightHand,
    }
}

/// What a device without a role is used for, by its name.
pub open spec fn use_of_name(name_id: u32) -> TrackedDeviceRole {
    if FIRST_TRACKER_NAME <= name_id <= LAST_TRACKER_NAME {
        TrackedDeviceRole::Tracker
    } else {
        TrackedDeviceRole::Other
    }
}

/// What is shown of a device: nothing, unless it has a battery.
pub open spec fn shown(device: MonadoDevice, role: TrackedDeviceRole) -> Seq<TrackedDevice> {
    match device.battery {
        Some(status) => if status.present {
            seq![TrackedDevice { soc: Some(status.charge), charging: status.charging, role }]
        } else {
            seq![]
        },
        None => seq![],
    }
}

/// Adds a device to the list, where it has a battery.
pub fn update_device_battery_status(
    device: &MonadoDevice,
    role: TrackedDeviceRole,
    devices: &mut Vec<TrackedDevice>,
)
    ensures
        final(devices)@ == old(devices)@ + shown(*device, role),
{
    let ghost before = devices@;
    if let Some(status) = device.battery {
        if status.present {
            devices.push(
                TrackedDevice { soc: Some(status.charge), charging: status.charging, role },
            );
        }
    }
    assert(devices@ =~= before + shown(*device, role));
}

/// A device was found under one of the first `upto` roles.
pub open spec fn found(by_role: Seq<Option<MonadoDevice>>, upto: int, index: u32) -> bool {
    exists|j: int|
        0 <= j < upto && #[trigger] by_role[j] is Some && by_role[j]->0.index == index
}

/// What is shown of the devices found under the first `upto` roles: each under the
/// first of its roles.
pub open spec fn shown_by_role(by_role: Seq<Option<MonadoDevice>>, upto: int) -> Seq<TrackedDevice>
    decreases upto,
{
    if upto <= 0 {
        seq![]
    } else {
        let earlier = shown_by_role(by_role, upto - 1);
        match by_role[upto - 1] {
            Some(device) => if found(by_role, upto - 1, device.index) {
                earlier
            } else {
                earlier + shown(device, use_of_role(role_at(upto - 1)))
            },
            None => earlier,
        }
    }
}

/// What is shown of the first `upto` devices listed: those that no role has.
pub open spec fn shown_of_listing(
    by_role: Seq<Option<MonadoDevice>>,
    listing: Seq<MonadoDevice>,
    upto: int,
) -> Seq<TrackedDevice>
    decreases upto,
{
    if upto <= 0 {
        seq![]
    } else {
        let earlier = shown_of_listing(by_role, listing, upto - 1);
        let device = listing[upto - 1];
        if found(by_role, LOOKUPS as int, device.index) {
            earlier
        } else {
            earlier + shown(device, use_of_name(device.name_id))
        }
    }
}

impl MonadoSnapshot {
    /// What is shown, before it is ordered.
    pub open spec fn shown_devices(&self) -> Seq<TrackedDevice> {
        shown_by_role(self.by_role@, LOOKUPS as int) + (match self.listing {
            Some(listing) => shown_of_listing(self.by_role@, listing@, listing@.len() as int),
            None => seq![],
        })
    }
}

/// What devices are ordered by: those of known charge first, then by role, then by
/// charge.
pub ghost struct DeviceKey {
    pub unknown: bool,
    pub role: int,
    pub charge: int,
}

impl TrackedDevice {
    /// The key of a device.
    pub open spec fn key(self) -> DeviceKey {
        DeviceKey {
            unknown: self.soc is None,
            role: self.role.place(),
            charge: (match self.soc {
                Some(charge) => charge,
                None => FloatBits { bits: UNKNOWN_CHARGE },
            }).total_rank(),
        }
    }
}

impl DeviceKey {
    /// Not behind another key.
    pub open spec fn le(self, other: DeviceKey) -> bool {
        if self.unknown != other.unknown {
            other.unknown
        } else if self.role != other.role {
            self.role < other.role
        } else {
            self.charge <= other.charge
        }
    }
}

/// The devices with a key, in their order.
pub open spec fn with_key(devices: Seq<TrackedDevice>, key: DeviceKey) -> Seq<TrackedDevice> {
    devices.filter(|d: TrackedDevice| d.key() == key)
}

/// The list is ordered by the keys.
pub open spec fn ordered(devices: Seq<TrackedDevice>) -> bool {
    forall|i: int, j: int|
        0 <= i < j < devices.len() ==> (#[trigger] devices[i]).key().le((#[trigger] devices[j]).key())
}

/// `sorted` holds what `devices` holds, ordered, and devices with the same key in the
/// order in which they came.
pub open spec fn stably_ordered(sorted: Seq<TrackedDevice>, devices: Seq<TrackedDevice>) -> bool {
    &&& ordered(sorted)
    &&& forall|key: DeviceKey| #[trigger] with_key(sorted, key) == with_key(devices, key)
}

fn not_behind(a: &TrackedDevice, b: &TrackedDevice) -> (answer: bool)
    ensures
        answer == a.key().le(b.key()),
{
    let a_unknown: bool = a.soc.is_none();
    let b_unknown: bool = b.soc.is_none();
    if a_unknown != b_unknown {
        return b_unknown;
    }
    let a_place: u8 = a.role.list_place();
    let b_place: u8 = b.role.list_place();
    if a_place != b_place {
        return a_place < b_place;
    }
    let a_charge: FloatBits = match a.soc {
        Some(charge) => charge,
        None => FloatBits::new(UNKNOWN_CHARGE),
    };
    let b_charge: FloatBits = match b.soc {
        Some(charge) => charge,
        None => FloatBits::new(UNKNOWN_CHARGE),
    };
    a_charge.total_order() <= b_charge.total_order()
}

/// Putting a device behind the last one that it is not before keeps the order, and puts
/// it last of its key.
proof fn lemma_inserted(
    devices: Seq<TrackedDevice>,
    sorted: Seq<TrackedDevice>,
    place: int,
    device: TrackedDevice,
)
    requires
        stably_ordered(sorted, devices),
        0 <= place <= sorted.len(),
        forall|i: int| 0 <= i < place ==> (#[trigger] sorted[i]).key().le(device.key()),
        forall|i: int|
            place <= i < sorted.len() ==> !(#[trigger] sorted[i]).key().le(device.key()),
    ensures
        stably_ordered(sorted.insert(place, device), devices.push(device)),
{
    let inserted = sorted.insert(place, device);
    assert forall|i: int, j: int| 0 <= i < j < inserted.len() implies (
    #[trigger] inserted[i]).key().le((#[trigger] inserted[j]).key()) by {
        if i < place {
            assert(inserted[i] == sorted[i]);
        } else if i > place {
            assert(inserted[i] == sorted[i - 1]);
        }
        if j < place {
            assert(inserted[j] == sorted[j]);
        } else if j > place {
            assert(inserted[j] == sorted[j - 1]);
        }
    }
    let head = sorted.take(place);
    let tail = sorted.skip(place);
    assert(sorted =~= head + tail);
    assert(inserted =~= (head + seq![device]) + tail);
    assert(devices.push(device) =~= devices + seq![device]);
    assert forall|key: DeviceKey| #[trigger]
        with_key(inserted, key) == with_key(devices.push(device), key) by {
        let has = |d: TrackedDevice| d.key() == key;
        Seq::filter_distributes_over_add(head, tail, has);
        Seq::filter_distributes_over_add(head + seq![device], tail, has);
        Seq::filter_distributes_over_add(head, seq![device], has);
        Seq::filter_distributes_over_add(devices, seq![device], has);
        assert(with_key(sorted, key) == with_key(devices, key));
        if device.key() == key {
            lemma_none_has(tail, key);
            assert(with_key(inserted, key) =~= with_key(sorted, key) + with_key(
                seq![device],
                key,
            ));
        } else {
            lemma_none_has(seq![device], key);
            assert(with_key(inserted, key) =~= with_key(sorted, key));
            assert(with_key(devices.push(device), key) =~= with_key(devices, key));
        }
    }
}

/// Where no device has a key, none is left.
proof fn lemma_none_has(devices: Seq<TrackedDevice>, key: DeviceKey)
    requires
        forall|i: int| 0 <= i < devices.len() ==> (#[trigger] devices[i]).key() != key,
    ensures
        with_key(devices, key) == Seq::<TrackedDevice>::empty(),
    decreases devices.len(),
{
    reveal_with_fuel(Seq::filter, 1);
    if devices.len() > 0 {
        lemma_none_has(devices.drop_last(), key);
    }
}

/// Orders the devices.
pub fn sort_devices(devices: &mut Vec<TrackedDevice>)
    ensures
        stably_ordered(final(devices)@, old(devices)@),
{
    let ghost all = devices@;
    let mut sorted: Vec<TrackedDevice> = Vec::new();
    let mut i: usize = 0;
    assert(stably_ordered(sorted@, all.take(0))) by {
        assert(all.take(0) =~= sorted@);
    }
    while i < devices.len()
        invariant
            i <= devices@.len(),
            devices@ == all,
            stably_ordered(sorted@, all.take(i as int)),
        decreases devices@.len() - i,
    {
        let device: TrackedDevice = devices[i];
        let mut place: usize = sorted.len();
        while place > 0 && !not_behind(&sorted[place - 1], &device)
            invariant
                place <= sorted@.len(),
                ordered(sorted@),
                forall|j: int|
                    place <= j < sorted@.len() ==> !(#[trigger] sorted@[j]).key().le(device.key()),
            decreases place,
        {
            place -= 1;
        }
        proof {
            lemma_inserted(all.take(i as int), sorted@, place as int, device);
            assert(all.take(i as int).push(device) =~= all.take(i + 1));
        }
        sorted.insert(place, device);
        i += 1;
    }
    assert(all.take(i as int) =~= all);
    *devices = sorted;
}

fn contains_index(seen: &Vec<u32>, index: u32) -> (answer: bool)
    ensures
        answer == seen@.contains(index),
{
    let mut i: usize = 0;
    while i < seen.len()
        invariant
            i <= seen@.len(),
            forall|j: int| 0 <= j < i ==> seen@[j] != index,
        decreases seen@.len() - i,
    {
        if seen[i] == index {
            assert(seen@[i as int] == index);
            return true;
        }
        i += 1;
    }
    false
}

/// Makes a new list of the devices of the service, and answers whether its length
/// differs from that of the old list.
pub fn refresh_devices(devices: &mut Vec<TrackedDevice>, snapshot: &MonadoSnapshot) -> (changed:
    bool)
    ensures
        stably_ordered(final(devices)@, snapshot.shown_devices()),
        changed == (old(devices)@.len() != snapshot.shown_devices().len()),
{
    let old_len: usize = devices.len();
    devices.clear();
    let mut seen: Vec<u32> = Vec::with_capacity(32);
    let ghost by_role = snapshot.by_role@;
    let mut i: usize = 0;
    while i < LOOKUPS
        invariant
            i <= LOOKUPS,
            by_role == snapshot.by_role@,
            by_role.len() == LOOKUPS,
            devices@ == shown_by_role(by_role, i as int),
            forall|index: u32| #[trigger] seen@.contains(index) <==> found(by_role, i as int, index),
        decreases LOOKUPS - i,
    {
        let ghost seen_before = seen@;
        if let Some(device) = snapshot.by_role[i] {
            assert(by_role[i as int] == Some(device));
            if !contains_index(&seen, device.index) {
                seen.push(device.index);
                update_device_battery_status(&device, device_use(lookup_role(i)), devices);
            }
        }
        proof {
            lemma_seen(by_role, i as int, seen_before, seen@);
        }
        i += 1;
    }
    if let Some(listing) = &snapshot.listing {
        let ghost by_roles = devices@;
        let mut k: usize = 0;
        assert(devices@ =~= by_roles + shown_of_listing(by_role, listing@, 0));
        while k < listing.len()
            invariant
                k <= listing@.len(),
                by_role == snapshot.by_role@,
                devices@ == by_roles + shown_of_listing(by_role, listing@, k as int),
                forall|index: u32| #[trigger]
                    seen@.contains(index) <==> found(by_role, LOOKUPS as int, index),
            decreases listing@.len() - k,
        {
            let device: MonadoDevice = listing[k];
            let ghost before = devices@;
            if !contains_index(&seen, device.index) {
                let role: TrackedDeviceRole = if device.name_id >= FIRST_TRACKER_NAME
                    && device.name_id <= LAST_TRACKER_NAME {
                    TrackedDeviceRole::Tracker
                } else {
                    TrackedDeviceRole::Other
                };
                update_device_battery_status(&device, role, devices);
            }
            assert(devices@ =~= by_roles + shown_of_listing(by_role, listing@, k + 1));
            k += 1;
        }
    } else {
        assert(devices@ =~= snapshot.shown_devices());
    }
    assert(devices@ == snapshot.shown_devices());
    sort_devices(devices);
    proof {
        stable_order_is_a_permutation(devices@, snapshot.shown_devices());
    }
    old_len != devices.len()
}

/// The indices noted after a lookup are those found so far.
proof fn lemma_seen(
    by_role: Seq<Option<MonadoDevice>>,
    i: int,
    before: Seq<u32>,
    after: Seq<u32>,
)
    requires
        0 <= i < by_role.len(),
        forall|index: u32| #[trigger] before.contains(index) <==> found(by_role, i, index),
        match by_role[i] {
            Some(device) => after == (if before.contains(device.index) {
                before
            } else {
                before.push(device.index)
            }),
            None => after == before,
        },
    ensures
        forall|index: u32| #[trigger] after.contains(index) <==> found(by_role, i + 1, index),
{
    assert forall|index: u32| #[trigger] after.contains(index) <==> found(by_role, i + 1, index) by {
        assert(before.contains(index) <==> found(by_role, i, index));
        if found(by_role, i + 1, index) && !found(by_role, i, index) {
            let j = choose|j: int|
                0 <= j < i + 1 && #[trigger] by_role[j] is Some && by_role[j]->0.index == index;
            assert(j == i);
            assert(after.last() == index);
        }
        if after.contains(index) {
            if before.contains(index) {
                let j = choose|j: int|
                    0 <= j < i && #[trigger] by_role[j] is Some && by_role[j]->0.index == index;
                assert(by_role[j] is Some);
            } else {
                let at = after.index_of(index);
                assert(after[at] == index);
                assert(at == before.len());
                assert(by_role[i] is Some);
            }
        } else if before.contains(index) {
            let at = before.index_of(index);
            assert(after[at] == index);
        }
    }
}

/// An ordered list of devices holds the same devices, each as often.
pub proof fn stable_order_is_a_permutation(
    sorted: Seq<TrackedDevice>,
    devices: Seq<TrackedDevice>,
)
    requires
        stably_ordered(sorted, devices),
    ensures
        sorted.to_multiset() == devices.to_multiset(),
        sorted.len() == devices.len(),
{
    broadcast use vstd::seq_lib::group_to_multiset_ensures;

    assert forall|d: TrackedDevice| #[trigger]
        sorted.to_multiset().count(d) == devices.to_multiset().count(d) by {
        lemma_count_with_key(sorted, d);
        lemma_count_with_key(devices, d);
        assert(with_key(sorted, d.key()) == with_key(devices, d.key()));
    }
    assert(sorted.to_multiset() =~= devices.to_multiset());
    assert(sorted.to_multiset().len() == sorted.len());
    assert(devices.to_multiset().len() == devices.len());
}

/// A device occurs as often among those with its key as among all.
proof fn lemma_count_with_key(devices: Seq<TrackedDevice>, d: TrackedDevice)
    ensures
        with_key(devices, d.key()).to_multiset().count(d) == devices.to_multiset().count(d),
    decreases devices.len(),
{
    broadcast use vstd::seq_lib::group_to_multiset_ensures;

    reveal_with_fuel(Seq::filter, 1);
    if devices.len() > 0 {
        let rest = devices.drop_last();
        lemma_count_with_key(rest, d);
        assert(devices =~= rest.push(devices.last()));
        if devices.last().key() == d.key() {
            assert(with_key(devices, d.key()) =~= with_key(rest, d.key()).push(devices.last()));
        } else {
            assert(with_key(devices, d.key()) =~= with_key(rest, d.key()));
        }
    } else {
        assert(with_key(devices, d.key()) =~= devices);
    }
}

/// Only one list is the stably ordered one.
pub proof fn stable_order_is_unique(
    one: Seq<TrackedDevice>,
    other: Seq<TrackedDevice>,
    devices: Seq<TrackedDevice>,
)
    requires
        stably_ordered(one, devices),
        stably_ordered(other, devices),
    ensures
        one == other,
{
    stable_order_is_a_permutation(one, devices);
    stable_order_is_a_permutation(other, devices);
    assert forall|key: DeviceKey| #[trigger] with_key(one, key) == with_key(other, key) by {
        assert(with_key(one, key) == with_key(devices, key));
        assert(with_key(other, key) == with_key(devices, key));
    }
    lemma_ordered_unique(one, other);
}

proof fn lemma_ordered_unique(one: Seq<TrackedDevice>, other: Seq<TrackedDevice>)
    requires
        ordered(one),
        ordered(other),
        one.len() == other.len(),
        forall|key: DeviceKey| #[trigger] with_key(one, key) == with_key(other, key),
    ensures
        one == other,
    decreases one.len(),
{
    if one.len() == 0 {
        assert(one =~= other);
    } else {
        let a = one.last();
        let b = other.last();
        lemma_last_has_greatest_key(one, other);
        lemma_last_has_greatest_key(other, one);
        assert(a.key() == b.key());
        let key = a.key();
        reveal_with_fuel(Seq::filter, 1);
        assert(with_key(one, key) == with_key(other, key));
        assert(with_key(one, key) == with_key(one.drop_last(), key).push(a));
        assert(with_key(other, key) == with_key(other.drop_last(), key).push(b));
        assert(with_key(one, key).last() == a);
        assert(with_key(other, key).last() == b);
        assert forall|k: DeviceKey| #[trigger]
            with_key(one.drop_last(), k) == with_key(other.drop_last(), k) by {
            assert(with_key(one, k) == with_key(other, k));
            if k == key {
                assert(with_key(one.drop_last(), k) =~= with_key(one, k).drop_last());
                assert(with_key(other.drop_last(), k) =~= with_key(other, k).drop_last());
            } else {
                assert(with_key(one.drop_last(), k) =~= with_key(one, k));
                assert(with_key(other.drop_last(), k) =~= with_key(other, k));
            }
        }
        lemma_ordered_unique(one.drop_last(), other.drop_last());
        assert(one =~= one.drop_last().push(a));
        assert(other =~= other.drop_last().push(b));
    }
}

/// The last key of an ordered list is not before any key of a list with the same
/// devices.
proof fn lemma_last_has_greatest_key(one: Seq<TrackedDevice>, other: Seq<TrackedDevice>)
    requires
        ordered(one),
        one.len() > 0,
        other.len() > 0,
        forall|key: DeviceKey| #[trigger] with_key(one, key) == with_key(other, key),
    ensures
        other.last().key().le(one.last().key()),
{
    let b = other.last();
    let has = |d: TrackedDevice| d.key() == b.key();
    reveal_with_fuel(Seq::filter, 1);
    assert(with_key(other, b.key()) == with_key(other.drop_last(), b.key()).push(b));
    assert(with_key(other, b.key()).last() == b);
    assert(with_key(one, b.key()) == with_key(other, b.key()));
    assert(one.filter(has).contains(b));
    one.lemma_filter_contains_rev(has, b);
    let i = one.index_of(b);
    assert(one[i] == b);
    if i < one.len() - 1 {
        assert(one[i].key().le(one[one.len() - 1].key()));
    }
}

/// Renewing the list where nothing has changed gives the same list again, and no change
/// of its length.
pub proof fn second_refresh_changes_nothing(
    first: Seq<TrackedDevice>,
    second: Seq<TrackedDevice>,
    snapshot: MonadoSnapshot,
)
    requires
        stably_ordered(first, snapshot.shown_devices()),
        stably_ordered(second, snapshot.shown_devices()),
    ensures
        second == first,
        first.len() == snapshot.shown_devices().len(),
{
    stable_order_is_unique(first, second, snapshot.shown_devices());
    stable_order_is_a_permutation(first, snapshot.shown_devices());
}

/// The charge of every device is known.
pub open spec fn all_charges_known(devices: Seq<TrackedDevice>) -> bool {
    forall|i: int| 0 <= i < devices.len() ==> (#[trigger] devices[i]).soc is Some
}

proof fn lemma_role_charges_known(by_role: Seq<Option<MonadoDevice>>, upto: int)
    ensures
        all_charges_known(shown_by_role(by_role, upto)),
    decreases upto,
{
    if upto > 0 {
        lemma_role_charges_known(by_role, upto - 1);
    }
}

proof fn lemma_listing_charges_known(
    by_role: Seq<Option<MonadoDevice>>,
    listing: Seq<MonadoDevice>,
    upto: int,
)
    ensures
        all_charges_known(shown_of_listing(by_role, listing, upto)),
    decreases upto,
{
    if upto > 0 {
        lemma_listing_charges_known(by_role, listing, upto - 1);
    }
}

/// A new list only has devices whose charge is known, so it is ordered by role, and
/// by charge among those of one role.
pub proof fn new_list_is_ordered_by_role_and_charge(
    sorted: Seq<TrackedDevice>,
    snapshot: MonadoSnapshot,
    i: int,
    j: int,
)
    requires
        stably_ordered(sorted, snapshot.shown_devices()),
        0 <= i < j < sorted.len(),
    ensures
        sorted[i].soc is Some,
        sorted[j].soc is Some,
        sorted[i].role.place() <= sorted[j].role.place(),
        sorted[i].role == sorted[j].role ==> sorted[i].soc->0.total_rank()
            <= sorted[j].soc->0.total_rank(),
{
    broadcast use vstd::seq_lib::group_to_multiset_ensures;

    let shown = snapshot.shown_devices();
    lemma_role_charges_known(snapshot.by_role@, LOOKUPS as int);
    if let Some(listing) = snapshot.listing {
        lemma_listing_charges_known(snapshot.by_role@, listing@, listing@.len() as int);
    }
    assert(all_charges_known(shown));
    stable_order_is_a_permutation(sorted, shown);
    assert(sorted.to_multiset().count(sorted[i]) > 0) by {
        assert(sorted.contains(sorted[i]));
    }
    assert(shown.contains(sorted[i]));
    assert(sorted.to_multiset().count(sorted[j]) > 0) by {
        assert(sorted.contains(sorted[j]));
    }
    assert(shown.contains(sorted[j]));
}

/// Listing a device that a role has already shows nothing new.
pub proof fn device_with_a_role_is_not_shown_again(
    by_role: Seq<Option<MonadoDevice>>,
    listing: Seq<MonadoDevice>,
    device: MonadoDevice,
    i: int,
)
    requires
        0 <= i < LOOKUPS,
        by_role.len() == LOOKUPS,
        by_role[i] is Some,
        by_role[i]->0.index == device.index,
    ensures
        shown_of_listing(by_role, listing.push(device), listing.len() as int + 1) == shown_of_listing(
            by_role,
            listing,
            listing.len() as int,
        ),
{
    assert(found(by_role, LOOKUPS as int, device.index));
    lemma_listing_prefix(by_role, listing, device, listing.len() as int);
}

proof fn lemma_listing_prefix(
    by_role: Seq<Option<MonadoDevice>>,
    listing: Seq<MonadoDevice>,
    device: MonadoDevice,
    upto: int,
)
    requires
        upto <= listing.len(),
    ensures
        shown_of_listing(by_role, listing.push(device), upto) == shown_of_listing(
            by_role,
            listing,
            upto,
        ),
    decreases upto,
{
    if upto > 0 {
        lemma_listing_prefix(by_role, listing, device, upto - 1);
    }
}

} // verus!
