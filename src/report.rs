//! Decoding of the tablet's fixed 12-byte bulk report into pen state.

use vstd::prelude::*;

verus! {

/// Number of bytes in one report frame.
pub const REPORT_LEN: usize = 12;

/// Pen state carried by one report.
#[derive(Clone, Copy, Debug, PartialEq, Eq, Structural)]
pub struct PenState {
    pub hover: bool,
    pub touch: bool,
    pub buttonbar: bool,
    pub scrollbar: bool,
    pub position_x: u32,
    pub position_y: u32,
    pub pressure: u16,
    pub tilt_x: i8,
    pub tilt_y: i8,
}

/// A byte read as a two's-complement signed 8-bit number.
pub open spec fn signed_byte(b: u8) -> int {
    if b < 128 { b as int } else { b as int - 256 }
}

/// The negation of a signed tilt reading, held inside the axis range
/// [-127, 127]: the one reading without an 8-bit negation (-128) maps to 127.
pub open spec fn negated_tilt(t: int) -> int {
    if t == -128 { 127 } else { -t }
}

/// X position: byte 8 is the high byte, then byte 3, then byte 2.
pub open spec fn spec_position_x(d: Seq<u8>) -> int {
    d[8] as int * 65536 + d[3] as int * 256 + d[2] as int
}

/// Y position: byte 9 is the high byte, then byte 5, then byte 4.
pub open spec fn spec_position_y(d: Seq<u8>) -> int {
    d[9] as int * 65536 + d[5] as int * 256 + d[4] as int
}

/// Pressure: byte 7 is the high byte, byte 6 the low one.
pub open spec fn spec_pressure(d: Seq<u8>) -> int {
    d[7] as int * 256 + d[6] as int
}

/// The pen state that a 12-byte frame encodes.
pub open spec fn pen_state_of(d: Seq<u8>) -> PenState
    recommends
        d.len() == 12,
{
    PenState {
        hover: d[1] & 0x80u8 != 0,
        touch: d[1] & 0x01u8 != 0,
        buttonbar: d[1] & 0x02u8 != 0,
        scrollbar: d[1] & 0x04u8 != 0,
        position_x: spec_position_x(d) as u32,
        position_y: spec_position_y(d) as u32,
        pressure: spec_pressure(d) as u16,
        tilt_x: signed_byte(d[10]) as i8,
        tilt_y: negated_tilt(signed_byte(d[11])) as i8,
    }
}

/// Reinterprets a byte as a two's-complement signed 8-bit value.
fn byte_as_signed(b: u8) -> (r: i8)
    ensures
        r as int == signed_byte(b),
{
    if b < 128 {
        b as i8
    } else {
        let wide: i16 = b as i16 - 256;
        wide as i8
    }
}

/// Tilt along X (byte 10, as is) and along Y (byte 11, negated).
pub fn parse_pen_tilt(data: [u8; 12]) -> (r: (i8, i8))
    ensures
        r.0 as int == signed_byte(data@[10]),
        r.1 as int == negated_tilt(signed_byte(data@[11])),
{
    let tilt_x = byte_as_signed(data[10]);
    let raw_y = byte_as_signed(data[11]);
    let tilt_y: i8 = if raw_y == -128i8 { 127 } else { -raw_y };
    (tilt_x, tilt_y)
}

/// Absolute X and Y position, each assembled from three bytes.
pub fn parse_pen_position(data: [u8; 12]) -> (r: (u32, u32))
    ensures
        r.0 as int == spec_position_x(data@),
        r.1 as int == spec_position_y(data@),
{
    let x: u32 = (data[8] as u32) * 65536 + (data[3] as u32) * 256 + (data[2] as u32);
    let y: u32 = (data[9] as u32) * 65536 + (data[5] as u32) * 256 + (data[4] as u32);
    (x, y)
}

/// Pen pressure, a 16-bit value from bytes 7 (high) and 6 (low).
pub fn parse_pen_pressure(data: [u8; 12]) -> (r: u16)
    ensures
        r as int == spec_pressure(data@),
{
    (data[7] as u16) * 256 + (data[6] as u16)
}

/// The state flags of byte 1: hover, touch, button bar and scroll bar.
pub fn parse_usb_buffer_pen(data: [u8; 12]) -> (r: (bool, bool, bool, bool))
    ensures
        r.0 == (data@[1] & 0x80u8 != 0),
        r.1 == (data@[1] & 0x01u8 != 0),
        r.2 == (data@[1] & 0x02u8 != 0),
        r.3 == (data@[1] & 0x04u8 != 0),
{
    let pen_buttons = data[1];
    (
        pen_buttons & 0x80u8 != 0,
        pen_buttons & 0x01u8 != 0,
        pen_buttons & 0x02u8 != 0,
        pen_buttons & 0x04u8 != 0,
    )
}

/// Decodes a whole frame into pen state.
pub fn decode_report(data: [u8; 12]) -> (r: PenState)
    ensures
        r == pen_state_of(data@),
{
    let (hover, touch, buttonbar, scrollbar) = parse_usb_buffer_pen(data);
    let (position_x, position_y) = parse_pen_position(data);
    let pressure = parse_pen_pressure(data);
    let (tilt_x, tilt_y) = parse_pen_tilt(data);
    PenState {
        hover,
        touch,
        buttonbar,
        scrollbar,
        position_x,
        position_y,
        pressure,
        tilt_x,
        tilt_y,
    }
}

/// Decoding is a function of the frame's bytes alone: two frames with the
/// same bytes decode to the same pen state.
pub proof fn lemma_decode_deterministic(a: [u8; 12], b: [u8; 12])
    requires
        a@ == b@,
    ensures
        pen_state_of(a@) == pen_state_of(b@),
{
}

} // verus!
