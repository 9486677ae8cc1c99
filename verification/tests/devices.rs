use xr_input::devices::{
    device_use, lookup_role, refresh_devices, sort_devices, update_device_battery_status,
    BatteryStatus, MonadoDevice, MonadoRole, MonadoSnapshot, TrackedDevice, TrackedDeviceRole,
    FIRST_TRACKER_NAME, LAST_TRACKER_NAME, LOOKUPS, UNKNOWN_CHARGE,
};
use xr_input::float_bits::FloatBits;
use xr_input::input_source::OpenXrInputSource;

fn bits(value: f32) -> FloatBits {
    FloatBits::new(value.to_bits())
}

fn battery(charge: f32) -> Option<BatteryStatus> {
    Some(BatteryStatus { present: true, charging: false, charge: bits(charge) })
}

fn device(index: u32, name_id: u32, charge: f32) -> MonadoDevice {
    MonadoDevice { index, name_id, battery: battery(charge) }
}

fn shown(role: TrackedDeviceRole, charge: f32) -> TrackedDevice {
    TrackedDevice { soc: Some(bits(charge)), charging: false, role }
}

fn nothing() -> MonadoSnapshot {
    MonadoSnapshot { by_role: [None; 7], listing: None }
}

#[test]
fn unknown_charge_sorts_as_a_large_one() {
    assert_eq!(UNKNOWN_CHARGE, 999.0f32.to_bits());
}

#[test]
fn roles_are_looked_up_in_order() {
    let roles: Vec<MonadoRole> = (0..LOOKUPS).map(lookup_role).collect();
    assert_eq!(
        roles,
        vec![
            MonadoRole::Head,
            MonadoRole::Eyes,
            MonadoRole::Left,
            MonadoRole::Right,
            MonadoRole::Gamepad,
            MonadoRole::HandTrackingLeft,
            MonadoRole::HandTrackingRight,
        ]
    );
    let uses: Vec<TrackedDeviceRole> = roles.into_iter().map(device_use).collect();
    assert_eq!(
        uses,
        vec![
            TrackedDeviceRole::Hmd,
            TrackedDeviceRole::Other,
            TrackedDeviceRole::LeftHand,
            TrackedDeviceRole::RightHand,
            TrackedDeviceRole::Other,
            TrackedDeviceRole::LeftHand,
            TrackedDeviceRole::RightHand,
        ]
    );
}

#[test]
fn battery_that_is_present_is_shown() {
    let mut devices: Vec<TrackedDevice> = Vec::new();
    let charging = MonadoDevice {
        index: 3,
        name_id: 1,
        battery: Some(BatteryStatus { present: true, charging: true, charge: bits(0.4) }),
    };
    update_device_battery_status(&charging, TrackedDeviceRole::LeftHand, &mut devices);
    assert_eq!(
        devices,
        vec![TrackedDevice {
            soc: Some(bits(0.4)),
            charging: true,
            role: TrackedDeviceRole::LeftHand,
        }]
    );
}

#[test]
fn battery_that_is_absent_or_unreadable_is_not_shown() {
    let mut devices: Vec<TrackedDevice> = Vec::new();
    let absent = MonadoDevice {
        index: 3,
        name_id: 1,
        battery: Some(BatteryStatus { present: false, charging: true, charge: bits(0.4) }),
    };
    update_device_battery_status(&absent, TrackedDeviceRole::LeftHand, &mut devices);
    let unreadable = MonadoDevice { index: 3, name_id: 1, battery: None };
    update_device_battery_status(&unreadable, TrackedDeviceRole::LeftHand, &mut devices);
    assert_eq!(devices, vec![]);
}

#[test]
fn devices_are_ordered_by_role_and_charge() {
    let unknown = TrackedDevice { soc: None, charging: true, role: TrackedDeviceRole::Hmd };
    let mut devices = vec![
        unknown,
        shown(TrackedDeviceRole::Tracker, 0.2),
        shown(TrackedDeviceRole::RightHand, 0.9),
        shown(TrackedDeviceRole::Hmd, 0.5),
        shown(TrackedDeviceRole::Tracker, 0.1),
        shown(TrackedDeviceRole::Other, 1.0),
        shown(TrackedDeviceRole::LeftHand, 0.3),
    ];
    sort_devices(&mut devices);
    assert_eq!(
        devices,
        vec![
            shown(TrackedDeviceRole::Other, 1.0),
            shown(TrackedDeviceRole::Hmd, 0.5),
            shown(TrackedDeviceRole::LeftHand, 0.3),
            shown(TrackedDeviceRole::RightHand, 0.9),
            shown(TrackedDeviceRole::Tracker, 0.1),
            shown(TrackedDeviceRole::Tracker, 0.2),
            unknown,
        ]
    );
}

#[test]
fn equal_devices_keep_their_order() {
    let first = TrackedDevice {
        soc: Some(bits(0.5)),
        charging: true,
        role: TrackedDeviceRole::Tracker,
    };
    let second = TrackedDevice { charging: false, ..first };
    let mut devices = vec![first, second];
    sort_devices(&mut devices);
    assert_eq!(devices, vec![first, second]);
    let mut devices = vec![second, first];
    sort_devices(&mut devices);
    assert_eq!(devices, vec![second, first]);
}

#[test]
fn sorting_agrees_with_a_stable_sort_by_key() {
    let roles = [
        TrackedDeviceRole::Tracker,
        TrackedDeviceRole::Other,
        TrackedDeviceRole::RightHand,
        TrackedDeviceRole::Hmd,
        TrackedDeviceRole::LeftHand,
    ];
    let charges = [0.0f32, -0.0, 0.75, f32::NAN, -f32::NAN, 1.0, 0.75, f32::INFINITY];
    let mut devices: Vec<TrackedDevice> = Vec::new();
    for (i, charge) in charges.iter().enumerate() {
        for (j, role) in roles.iter().enumerate() {
            let soc = if (i + j) % 5 == 0 { None } else { Some(bits(*charge)) };
            devices.push(TrackedDevice { soc, charging: (i * j) % 2 == 0, role: *role });
        }
    }
    let charge = |device: &TrackedDevice| device.soc.map_or(999.0, |soc| f32::from_bits(soc.bits));
    let mut expected = devices.clone();
    expected.sort_by(|a, b| {
        u8::from(a.soc.is_none())
            .cmp(&u8::from(b.soc.is_none()))
            .then((a.role as u8).cmp(&(b.role as u8)))
            .then(charge(a).total_cmp(&charge(b)))
    });
    sort_devices(&mut devices);
    assert_eq!(devices, expected);
}

#[test]
fn device_with_several_roles_is_shown_once() {
    let mut snapshot = nothing();
    snapshot.by_role[2] = Some(device(7, 0, 0.5));
    snapshot.by_role[6] = Some(device(7, 0, 0.5));
    let mut devices: Vec<TrackedDevice> = Vec::new();
    assert!(refresh_devices(&mut devices, &snapshot));
    assert_eq!(devices, vec![shown(TrackedDeviceRole::LeftHand, 0.5)]);
}

#[test]
fn device_with_a_role_is_not_listed_again() {
    let mut snapshot = nothing();
    snapshot.by_role[0] = Some(device(1, 0, 0.5));
    snapshot.listing = Some(vec![device(1, 5, 0.5), device(2, 5, 0.25)]);
    let mut devices: Vec<TrackedDevice> = Vec::new();
    assert!(refresh_devices(&mut devices, &snapshot));
    assert_eq!(
        devices,
        vec![shown(TrackedDeviceRole::Hmd, 0.5), shown(TrackedDeviceRole::Tracker, 0.25)]
    );
}

#[test]
fn device_with_a_role_and_no_battery_still_counts_as_seen() {
    let mut snapshot = nothing();
    snapshot.by_role[0] = Some(MonadoDevice { index: 1, name_id: 0, battery: None });
    snapshot.listing = Some(vec![device(1, 5, 0.5)]);
    let mut devices: Vec<TrackedDevice> = Vec::new();
    assert!(!refresh_devices(&mut devices, &snapshot));
    assert_eq!(devices, vec![]);
}

#[test]
fn listed_devices_are_not_compared_with_each_other() {
    let mut snapshot = nothing();
    snapshot.listing = Some(vec![device(4, 5, 0.5), device(4, 5, 0.5)]);
    let mut devices: Vec<TrackedDevice> = Vec::new();
    assert!(refresh_devices(&mut devices, &snapshot));
    assert_eq!(devices.len(), 2);
}

#[test]
fn trackers_are_told_by_their_names() {
    assert_eq!((FIRST_TRACKER_NAME, LAST_TRACKER_NAME), (4, 8));
    for name_id in 0..12u32 {
        let mut snapshot = nothing();
        snapshot.listing = Some(vec![device(1, name_id, 0.5)]);
        let mut devices: Vec<TrackedDevice> = Vec::new();
        refresh_devices(&mut devices, &snapshot);
        let role = if (4..=8).contains(&name_id) {
            TrackedDeviceRole::Tracker
        } else {
            TrackedDeviceRole::Other
        };
        assert_eq!(devices, vec![shown(role, 0.5)]);
    }
}

#[test]
fn change_means_another_number_of_devices() {
    let mut snapshot = nothing();
    snapshot.by_role[0] = Some(device(1, 0, 0.5));
    let mut devices: Vec<TrackedDevice> = vec![shown(TrackedDeviceRole::Tracker, 0.1)];
    assert!(!refresh_devices(&mut devices, &snapshot));
    assert_eq!(devices, vec![shown(TrackedDeviceRole::Hmd, 0.5)]);
    assert!(refresh_devices(&mut devices, &nothing()));
    assert_eq!(devices, vec![]);
}

#[test]
fn without_the_service_the_list_stays() {
    let mut devices: Vec<TrackedDevice> = vec![shown(TrackedDeviceRole::Tracker, 0.1)];
    assert!(!OpenXrInputSource::update_devices(&mut devices, &None));
    assert_eq!(devices, vec![shown(TrackedDeviceRole::Tracker, 0.1)]);
    assert!(OpenXrInputSource::update_devices(&mut devices, &Some(nothing())));
    assert_eq!(devices, vec![]);
}

#[test]
fn second_refresh_gives_the_same_list() {
    let mut snapshot = nothing();
    snapshot.by_role[0] = Some(device(1, 0, 0.5));
    snapshot.by_role[3] = Some(device(2, 0, 0.25));
    snapshot.listing = Some(vec![device(3, 6, 0.75), device(4, 5, 0.5)]);
    let mut devices: Vec<TrackedDevice> = Vec::new();
    assert!(refresh_devices(&mut devices, &snapshot));
    let first = devices.clone();
    assert!(!refresh_devices(&mut devices, &snapshot));
    assert_eq!(devices, first);
}
