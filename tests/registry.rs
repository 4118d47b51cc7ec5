use tablet_driver::registry::{create_device_id, is_device_huion_tablet, DeviceId, DeviceReceiver, Placement};
use tablet_driver::session::DriverError;

fn id(bus: u8, address: u8) -> DeviceId {
    DeviceId { bus_number: bus, address, vendor_id: 0x256c, product_id: 0x006e }
}

#[test]
fn same_identity_starts_one_worker() {
    let mut r: DeviceReceiver<&str> = DeviceReceiver::new();
    assert_eq!(r.add_device(id(1, 4), "first"), Placement::NewWorker(0));
    assert_eq!(r.add_device(id(1, 4), "second"), Placement::Queued(0));
    assert_eq!(r.len(), 1);
    assert_eq!(r.take_candidate(0), Some("second"));
    assert_eq!(r.take_candidate(0), Some("first"));
    assert_eq!(r.take_candidate(0), None);
}

#[test]
fn distinct_identities_get_own_slots() {
    let mut r: DeviceReceiver<u32> = DeviceReceiver::new();
    assert_eq!(r.add_device(id(1, 4), 10), Placement::NewWorker(0));
    assert_eq!(r.add_device(id(1, 5), 20), Placement::NewWorker(1));
    assert_eq!(r.add_device(id(1, 4), 30), Placement::Queued(0));
    assert_eq!(r.len(), 2);
    assert_eq!(r.take_candidate(1), Some(20));
    assert_eq!(r.take_candidate(1), None);
    assert_eq!(r.take_candidate(0), Some(30));
}

#[test]
fn take_from_unknown_slot() {
    let mut r: DeviceReceiver<u32> = DeviceReceiver::new();
    assert_eq!(r.take_candidate(0), None);
    assert_eq!(r.take_candidate(usize::MAX), None);
}

#[test]
fn identity_from_descriptor() {
    assert_eq!(create_device_id(3, 7, Some((0x256c, 0x006e))), Ok(DeviceId { bus_number: 3, address: 7, vendor_id: 0x256c, product_id: 0x006e }));
    assert_eq!(create_device_id(3, 7, None), Err(DriverError::Identity));
}

#[test]
fn tablet_filter() {
    assert!(is_device_huion_tablet(0x256c, 0x006e));
    assert!(!is_device_huion_tablet(0x256c, 0x006f));
    assert!(!is_device_huion_tablet(0x1234, 0x006e));
}
