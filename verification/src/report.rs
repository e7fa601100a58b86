//! Decoding of raw tablet reports: fixed-offset field extraction from the
//! 64-byte buffer one report cycle delivers.

use vstd::prelude::*;

verus! {

// Byte offsets of the logical fields inside a raw report. Each 16-bit
// field is big-endian: the high byte comes first.
pub const X_AXIS_HIGH: usize = 1;
pub const X_AXIS_LOW: usize = 2;
pub const Y_AXIS_HIGH: usize = 3;
pub const Y_AXIS_LOW: usize = 4;
pub const PRESSURE_HIGH: usize = 5;
pub const PRESSURE_LOW: usize = 6;
pub const PEN_BUTTONS: usize = 9;
pub const TABLET_BUTTONS_HIGH: usize = 12;
pub const TABLET_BUTTONS_LOW: usize = 11;

/// Length of one raw report.
pub const REPORT_LEN: usize = 64;

/// The 16-bit value two report bytes encode, big-endian.
pub open spec fn spec_be16(high: u8, low: u8) -> u16 {
    ((high as u16) << 8) | (low as u16)
}

/// The X axis field of a raw report.
pub open spec fn spec_x_axis(data: Seq<u8>) -> u16 {
    spec_be16(data[X_AXIS_HIGH as int], data[X_AXIS_LOW as int])
}

/// The Y axis field of a raw report.
pub open spec fn spec_y_axis(data: Seq<u8>) -> u16 {
    spec_be16(data[Y_AXIS_HIGH as int], data[Y_AXIS_LOW as int])
}

/// The pressure field of a raw report.
pub open spec fn spec_pressure(data: Seq<u8>) -> u16 {
    spec_be16(data[PRESSURE_HIGH as int], data[PRESSURE_LOW as int])
}

/// The tablet-button bitmask of a raw report: the two mask bytes combined,
/// with the known-unused bits 0xCC00 forced to 1 ("not pressed" in the
/// active-low scheme).
pub open spec fn spec_tablet_buttons(data: Seq<u8>) -> u16 {
    spec_be16(data[TABLET_BUTTONS_HIGH as int], data[TABLET_BUTTONS_LOW as int]) | 0xcc00
}

/// The pen-button code byte of a raw report.
pub open spec fn spec_pen_buttons(data: Seq<u8>) -> u8 {
    data[PEN_BUTTONS as int]
}

/// Holds one raw report. The buffer is always exactly 64 bytes; the
/// accessors read two-byte big-endian fields at fixed offsets.
pub struct RawDataReader {
    pub data: Vec<u8>,
}

impl RawDataReader {
    /// A raw report buffer is well formed when it has the fixed report
    /// length; the accessors require it.
    pub open spec fn wf(self) -> bool {
        self.data@.len() == REPORT_LEN
    }

    /// Creates a reader over an all-zero report buffer.
    pub fn new() -> (r: Self)
        ensures
            r.wf(),
            r.data@ =~= Seq::new(REPORT_LEN as nat, |i: int| 0u8),
    {
        let mut data: Vec<u8> = Vec::new();
        let mut i: usize = 0;
        while i < REPORT_LEN
            invariant
                i <= REPORT_LEN,
                data@.len() == i,
                forall|j: int| 0 <= j < i ==> data@[j] == 0u8,
            decreases REPORT_LEN - i,
        {
            data.push(0u8);
            i = i + 1;
        }
        RawDataReader { data }
    }

    /// Combines two report bytes into the big-endian 16-bit value they
    /// encode; the high byte contributes the upper eight bits.
    pub fn u16_from_2_u8(&self, high: u8, low: u8) -> (r: u16)
        ensures
            r == spec_be16(high, low),
            r == 256 * (high as int) + (low as int),
    {
        proof {
            lemma_be16_value(high, low);
        }
        (high as u16) << 8u16 | (low as u16)
    }

    /// The X axis sample of this report, as an unsigned 16-bit value.
    pub fn x_axis(&self) -> (r: i32)
        requires
            self.wf(),
        ensures
            r == spec_x_axis(self.data@),
            0 <= r <= 0xffff,
    {
        let raw = self.u16_from_2_u8(self.data[X_AXIS_HIGH], self.data[X_AXIS_LOW]);
        raw as i32
    }

    /// The Y axis sample of this report, as an unsigned 16-bit value.
    pub fn y_axis(&self) -> (r: i32)
        requires
            self.wf(),
        ensures
            r == spec_y_axis(self.data@),
            0 <= r <= 0xffff,
    {
        let raw = self.u16_from_2_u8(self.data[Y_AXIS_HIGH], self.data[Y_AXIS_LOW]);
        raw as i32
    }

    /// The pressure sample of this report, as an unsigned 16-bit value.
    pub fn pressure(&self) -> (r: i32)
        requires
            self.wf(),
        ensures
            r == spec_pressure(self.data@),
            0 <= r <= 0xffff,
    {
        self.u16_from_2_u8(self.data[PRESSURE_HIGH], self.data[PRESSURE_LOW]) as i32
    }

    /// The tablet-button bitmask of this report (active-low), with the
    /// unused bits 0xCC00 forced to "not pressed."
    pub fn tablet_buttons_as_binary_flags(&self) -> (r: u16)
        requires
            self.wf(),
        ensures
            r == spec_tablet_buttons(self.data@),
            r & 0xcc00 == 0xcc00,
    {
        let combined = self.u16_from_2_u8(
            self.data[TABLET_BUTTONS_HIGH],
            self.data[TABLET_BUTTONS_LOW],
        );
        proof {
            lemma_or_forces_mask(combined);
        }
        combined | 0xcc00
    }

    /// The pen-button code byte of this report.
    pub fn pen_buttons(&self) -> (r: u8)
        requires
            self.wf(),
        ensures
            r == spec_pen_buttons(self.data@),
    {
        self.data[PEN_BUTTONS]
    }
}

/// Big-endian decoding reads exactly `(high << 8) | low`, which is the
/// value `256 * high + low`.
pub proof fn lemma_be16_value(high: u8, low: u8)
    ensures
        spec_be16(high, low) == 256 * (high as int) + (low as int),
{
    assert(((high as u16) << 8) | (low as u16) == 256 * (high as u16) + (low as u16))
        by (bit_vector);
}

/// Big-endian decoding round-trips: the two source bytes can be read back
/// out of the decoded 16-bit value.
pub proof fn lemma_be16_round_trip(high: u8, low: u8)
    ensures
        spec_be16(high, low) >> 8 == high as u16,
        spec_be16(high, low) & 0xff == low as u16,
{
    assert((((high as u16) << 8) | (low as u16)) >> 8 == high as u16) by (bit_vector);
    assert((((high as u16) << 8) | (low as u16)) & 0xff == low as u16) by (bit_vector);
}

/// ORing any 16-bit mask with 0xCC00 forces exactly those bits to 1.
pub proof fn lemma_or_forces_mask(w: u16)
    ensures
        (w | 0xcc00) & 0xcc00 == 0xcc00,
{
    assert((w | 0xcc00) & 0xcc00 == 0xcc00) by (bit_vector);
}

/// The tablet-button bitmask of every raw report has the unused bits
/// 0xCC00 set, whatever the report bytes hold.
pub proof fn lemma_tablet_buttons_forced_bits(data: Seq<u8>)
    requires
        data.len() == REPORT_LEN,
    ensures
        spec_tablet_buttons(data) & 0xcc00 == 0xcc00,
{
    lemma_or_forces_mask(spec_be16(data[TABLET_BUTTONS_HIGH as int], data[TABLET_BUTTONS_LOW as int]));
}

} // verus!
