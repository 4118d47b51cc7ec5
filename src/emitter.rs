//! The virtual pen device: its declared capabilities and the ordered event
//! batch that stands for one pen state.

use vstd::prelude::*;
use crate::report::PenState;

verus! {

/// The input event codes the virtual pen uses.
#[derive(Clone, Copy, Debug, PartialEq, Eq, Structural)]
pub enum PenEventCode {
    Touch,
    ToolPen,
    Stylus,
    Stylus2,
    AbsX,
    AbsY,
    Pressure,
    TiltX,
    TiltY,
    SynReport,
}

/// One event of a batch: a code and its value.
#[derive(Clone, Copy, Debug, PartialEq, Eq, Structural)]
pub struct PenEvent {
    pub code: PenEventCode,
    pub value: i32,
}

/// Calibration of one absolute axis.
#[derive(Clone, Copy, Debug, PartialEq, Eq, Structural)]
pub struct AbsRange {
    pub value: i32,
    pub minimum: i32,
    pub maximum: i32,
    pub fuzz: i32,
    pub flat: i32,
    pub resolution: i32,
}

/// An absolute axis the virtual device declares, with its calibration.
#[derive(Clone, Copy, Debug, PartialEq, Eq, Structural)]
pub struct AxisCapability {
    pub code: PenEventCode,
    pub range: AbsRange,
}

/// Identification of the virtual device.
#[derive(Clone, Copy, Debug, PartialEq, Eq, Structural)]
pub struct VirtualDeviceInfo {
    pub bus_type: u16,
    pub vendor_id: u16,
    pub product_id: u16,
    pub version: u32,
}

/// Bus type of a USB input device.
pub const BUS_USB: u16 = 3;

pub open spec fn flag_value(b: bool) -> i32 {
    if b { 1 } else { 0 }
}

pub open spec fn event(code: PenEventCode, value: i32) -> PenEvent {
    PenEvent { code, value }
}

/// The batch for one pen state: touch, stylus, second stylus button, X, Y,
/// pressure, tilt X, tilt Y, and the synchronization marker last.
pub open spec fn batch_of(p: PenState) -> Seq<PenEvent> {
    seq![
        event(PenEventCode::Touch, flag_value(p.touch)),
        event(PenEventCode::Stylus, flag_value(p.buttonbar)),
        event(PenEventCode::Stylus2, flag_value(p.scrollbar)),
        event(PenEventCode::AbsX, p.position_x as i32),
        event(PenEventCode::AbsY, p.position_y as i32),
        event(PenEventCode::Pressure, p.pressure as i32),
        event(PenEventCode::TiltX, p.tilt_x as i32),
        event(PenEventCode::TiltY, p.tilt_y as i32),
        event(PenEventCode::SynReport, 0),
    ]
}

pub open spec fn abs_range(maximum: i32, minimum: i32, resolution: i32) -> AbsRange {
    AbsRange { value: 0, minimum, maximum, fuzz: 0, flat: 0, resolution }
}

pub open spec fn axis(code: PenEventCode, r: AbsRange) -> AxisCapability {
    AxisCapability { code, range: r }
}

/// The absolute axes of the tablet with their fixed calibration.
pub open spec fn tablet_axes() -> Seq<AxisCapability> {
    seq![
        axis(PenEventCode::AbsX, abs_range(86967, 3, 195)),
        axis(PenEventCode::AbsY, abs_range(47746, 6, 201)),
        axis(PenEventCode::Pressure, abs_range(8191, 0, 0)),
        axis(PenEventCode::TiltX, abs_range(127, -127i32, 0)),
        axis(PenEventCode::TiltY, abs_range(127, -127i32, 0)),
    ]
}

/// The digital keys the tablet declares.
pub open spec fn tablet_keys() -> Seq<PenEventCode> {
    seq![PenEventCode::Touch, PenEventCode::ToolPen, PenEventCode::Stylus, PenEventCode::Stylus2]
}

/// USB version fields packed as major << 8, minor << 4, sub-minor.
pub open spec fn version_code(major: u8, minor: u8, sub_minor: u8) -> int {
    major as int * 256 + minor as int * 16 + sub_minor as int
}

/// An axis calibration with no current value, fuzz or flat zone.
pub fn create_absinfo(maximum: i32, minimum: i32, resolution: i32) -> (r: AbsRange)
    ensures
        r == abs_range(maximum, minimum, resolution),
{
    AbsRange { value: 0, minimum, maximum, fuzz: 0, flat: 0, resolution }
}

/// The absolute axes the virtual device declares.
pub fn axis_capabilities() -> (r: Vec<AxisCapability>)
    ensures
        r@ == tablet_axes(),
{
    let mut axes: Vec<AxisCapability> = Vec::new();
    axes.push(AxisCapability { code: PenEventCode::AbsX, range: create_absinfo(86967, 3, 195) });
    axes.push(AxisCapability { code: PenEventCode::AbsY, range: create_absinfo(47746, 6, 201) });
    axes.push(AxisCapability { code: PenEventCode::Pressure, range: create_absinfo(8191, 0, 0) });
    axes.push(AxisCapability { code: PenEventCode::TiltX, range: create_absinfo(127, -127, 0) });
    axes.push(AxisCapability { code: PenEventCode::TiltY, range: create_absinfo(127, -127, 0) });
    assert(axes@ =~= tablet_axes());
    axes
}

/// The digital keys the virtual device declares.
pub fn key_capabilities() -> (r: Vec<PenEventCode>)
    ensures
        r@ == tablet_keys(),
{
    let mut keys: Vec<PenEventCode> = Vec::new();
    keys.push(PenEventCode::Touch);
    keys.push(PenEventCode::ToolPen);
    keys.push(PenEventCode::Stylus);
    keys.push(PenEventCode::Stylus2);
    assert(keys@ =~= tablet_keys());
    keys
}

/// The USB device version as one number, major << 8 | minor << 4 | sub-minor.
pub fn device_version_code(major: u8, minor: u8, sub_minor: u8) -> (r: u32)
    ensures
        r as int == version_code(major, minor, sub_minor),
{
    (major as u32) * 256 + (minor as u32) * 16 + (sub_minor as u32)
}

/// Identification of the virtual device for a tablet with the given USB
/// identifiers and version.
pub fn virtual_device_info(vendor_id: u16, product_id: u16, major: u8, minor: u8, sub_minor: u8) -> (r: VirtualDeviceInfo)
    ensures
        r.bus_type == BUS_USB,
        r.vendor_id == vendor_id,
        r.product_id == product_id,
        r.version as int == version_code(major, minor, sub_minor),
{
    VirtualDeviceInfo {
        bus_type: BUS_USB,
        vendor_id,
        product_id,
        version: device_version_code(major, minor, sub_minor),
    }
}

fn flag_event(code: PenEventCode, b: bool) -> (r: PenEvent)
    ensures
        r == event(code, flag_value(b)),
{
    PenEvent { code, value: if b { 1 } else { 0 } }
}

/// The ordered event batch for one pen state. Whatever the state, the batch
/// has the same nine codes in the same order, the synchronization marker last.
pub fn event_batch(pen: &PenState) -> (r: Vec<PenEvent>)
    requires
        pen.position_x < 0x8000_0000,
        pen.position_y < 0x8000_0000,
    ensures
        r@ == batch_of(*pen),
        r@.len() == 9,
        r@.last() == event(PenEventCode::SynReport, 0),
        forall|i: int| 0 <= i < 8 ==> r@[i].code != PenEventCode::SynReport,
{
    let mut events: Vec<PenEvent> = Vec::new();
    events.push(flag_event(PenEventCode::Touch, pen.touch));
    events.push(flag_event(PenEventCode::Stylus, pen.buttonbar));
    events.push(flag_event(PenEventCode::Stylus2, pen.scrollbar));
    events.push(PenEvent { code: PenEventCode::AbsX, value: pen.position_x as i32 });
    events.push(PenEvent { code: PenEventCode::AbsY, value: pen.position_y as i32 });
    events.push(PenEvent { code: PenEventCode::Pressure, value: pen.pressure as i32 });
    events.push(PenEvent { code: PenEventCode::TiltX, value: pen.tilt_x as i32 });
    events.push(PenEvent { code: PenEventCode::TiltY, value: pen.tilt_y as i32 });
    events.push(PenEvent { code: PenEventCode::SynReport, value: 0 });
    assert(events@ =~= batch_of(*pen));
    events
}

} // verus!
