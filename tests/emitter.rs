use tablet_driver::emitter::{axis_capabilities, create_absinfo, device_version_code, event_batch, key_capabilities, virtual_device_info, PenEvent, PenEventCode, BUS_USB};
use tablet_driver::report::decode_report;

#[test]
fn batch_order_and_values() {
    let f: [u8; 12] = [0, 0x03, 0x01, 0x02, 0x03, 0x04, 0x34, 0x12, 0x05, 0x06, 0x0a, 0xfe];
    let events = event_batch(&decode_report(f));
    let expected = vec![
        PenEvent { code: PenEventCode::Touch, value: 1 },
        PenEvent { code: PenEventCode::Stylus, value: 1 },
        PenEvent { code: PenEventCode::Stylus2, value: 0 },
        PenEvent { code: PenEventCode::AbsX, value: 328_193 },
        PenEvent { code: PenEventCode::AbsY, value: 0x06_0403 },
        PenEvent { code: PenEventCode::Pressure, value: 4660 },
        PenEvent { code: PenEventCode::TiltX, value: 10 },
        PenEvent { code: PenEventCode::TiltY, value: 2 },
        PenEvent { code: PenEventCode::SynReport, value: 0 },
    ];
    assert_eq!(events, expected);
}

#[test]
fn batch_ends_with_sync_whatever_the_state() {
    for b in [0u8, 0x01, 0x55, 0x80, 0xaa, 0xff] {
        let events = event_batch(&decode_report([b; 12]));
        assert_eq!(events.len(), 9);
        assert_eq!(*events.last().unwrap(), PenEvent { code: PenEventCode::SynReport, value: 0 });
        assert!(events[..8].iter().all(|e| e.code != PenEventCode::SynReport));
    }
}

#[test]
fn absinfo_fields() {
    let a = create_absinfo(86967, 3, 195);
    assert_eq!((a.value, a.minimum, a.maximum, a.fuzz, a.flat, a.resolution), (0, 3, 86967, 0, 0, 195));
}

#[test]
fn declared_axes() {
    let axes = axis_capabilities();
    let got: Vec<(PenEventCode, i32, i32, i32)> = axes.iter().map(|a| (a.code, a.range.minimum, a.range.maximum, a.range.resolution)).collect();
    assert_eq!(got, vec![
        (PenEventCode::AbsX, 3, 86967, 195),
        (PenEventCode::AbsY, 6, 47746, 201),
        (PenEventCode::Pressure, 0, 8191, 0),
        (PenEventCode::TiltX, -127, 127, 0),
        (PenEventCode::TiltY, -127, 127, 0),
    ]);
}

#[test]
fn declared_keys() {
    assert_eq!(key_capabilities(), vec![PenEventCode::Touch, PenEventCode::ToolPen, PenEventCode::Stylus, PenEventCode::Stylus2]);
}

#[test]
fn version_code_packs_fields() {
    assert_eq!(device_version_code(1, 2, 3), 0x123);
    assert_eq!(device_version_code(165, 15, 15), 165 * 256 + 0xff);
}

#[test]
fn virtual_device_identification() {
    let info = virtual_device_info(0x256c, 0x006e, 1, 0, 0);
    assert_eq!(info.bus_type, BUS_USB);
    assert_eq!(info.vendor_id, 0x256c);
    assert_eq!(info.product_id, 0x006e);
    assert_eq!(info.version, 0x100);
}
