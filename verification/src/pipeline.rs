//! The numeric transform pipeline: pressure normalization, coordinate
//! smoothing, the mouse-emulation area scale, and the mode-dependent
//! spatial transforms.

use vstd::prelude::*;

verus! {

// The coordinate space is 12 bits wide plus one: outputs lie in
// [0, 4096]; raw samples are unsigned 16-bit values.
pub const OUTPUT_RANGE: i32 = 4096;
pub const RAW_MAX: i32 = 0xffff;

// The mouse-emulation window is centered here in the native space.
pub const MOUSE_CENTER_X: i32 = 1024;
pub const MOUSE_CENTER_Y: i32 = 2048;

// The fraction of the native range the mouse-emulation window covers, in
// permille: defaults to 0.3, clamped to [0.1, 0.4] at all times.
pub const SCALE_MIN_PERMILLE: u16 = 100;
pub const SCALE_MAX_PERMILLE: u16 = 400;
pub const SCALE_DEFAULT_PERMILLE: u16 = 300;

// Mode-dependent pressure pairs: mouse mode arms contact later (higher
// threshold, smaller scale) than native tablet mode.
pub const MOUSE_PRESSURE_THRESHOLD: i32 = 800;
pub const MOUSE_PRESSURE_SCALING: i32 = 2;
pub const TABLET_PRESSURE_THRESHOLD: i32 = 510;
pub const TABLET_PRESSURE_SCALING: i32 = 3;

/// Pressure normalization: the raw sample is inverted against 2000, and
/// the result is zero at or below the threshold, else scaled.
pub open spec fn spec_normalize_pressure(raw: int, threshold: int, scaling: int) -> int {
    if 2000 - raw <= threshold {
        0
    } else {
        (2000 - raw) * scaling
    }
}

/// The normalized pressure under the current interaction mode.
pub open spec fn spec_pressure_out(is_mouse_mode: bool, raw: int) -> int {
    if is_mouse_mode {
        spec_normalize_pressure(raw, MOUSE_PRESSURE_THRESHOLD as int, MOUSE_PRESSURE_SCALING as int)
    } else {
        spec_normalize_pressure(
            raw,
            TABLET_PRESSURE_THRESHOLD as int,
            TABLET_PRESSURE_SCALING as int,
        )
    }
}

/// Normalizes a raw pressure sample against a threshold/scaling pair.
pub fn normalize_pressure_mode(raw_pressure: i32, threshold: i32, scaling: i32) -> (r: i32)
    requires
        0 <= raw_pressure <= RAW_MAX,
        0 <= threshold,
        0 <= scaling <= 1000,
    ensures
        r == spec_normalize_pressure(raw_pressure as int, threshold as int, scaling as int),
{
    let v = 2000 - raw_pressure;
    if v <= threshold {
        0
    } else {
        assert(0 <= v * scaling <= 2000 * 1000) by (nonlinear_arith)
            requires
                0 < v <= 2000,
                0 <= scaling <= 1000,
        ;
        v * scaling
    }
}

/// Normalizes a raw pressure sample under the current interaction mode.
pub fn pressure_out(is_mouse_mode: bool, raw_pressure: i32) -> (r: i32)
    requires
        0 <= raw_pressure <= RAW_MAX,
    ensures
        r == spec_pressure_out(is_mouse_mode, raw_pressure as int),
        0 <= r <= 6000,
{
    if is_mouse_mode {
        normalize_pressure_mode(raw_pressure, MOUSE_PRESSURE_THRESHOLD, MOUSE_PRESSURE_SCALING)
    } else {
        normalize_pressure_mode(raw_pressure, TABLET_PRESSURE_THRESHOLD, TABLET_PRESSURE_SCALING)
    }
}

/// Exponential smoothing as a weighted moving average against the
/// history: mouse mode weighs history and sample equally, tablet mode
/// weighs history three to one, giving it heavier inertia.
pub open spec fn spec_smooth(last: int, cur: int, is_mouse_mode: bool) -> int {
    if is_mouse_mode {
        (last + cur) / 2
    } else {
        (last * 3 + cur) / 4
    }
}

/// Smooths one coordinate against its history value.
pub fn smooth_value(last: i32, cur: i32, is_mouse_mode: bool) -> (r: i32)
    requires
        0 <= last <= RAW_MAX,
        0 <= cur <= RAW_MAX,
    ensures
        r == spec_smooth(last as int, cur as int, is_mouse_mode),
        0 <= r <= RAW_MAX,
{
    if is_mouse_mode {
        (((last as u32) + (cur as u32)) / 2) as i32
    } else {
        (((last as u32) * 3 + (cur as u32)) / 4) as i32
    }
}

/// Clamping to a closed interval.
pub open spec fn spec_clamp(v: int, lo: int, hi: int) -> int {
    if v < lo {
        lo
    } else if v > hi {
        hi
    } else {
        v
    }
}

/// Clamps `v` to `[lo, hi]`.
pub fn clamp_i32(v: i32, lo: i32, hi: i32) -> (r: i32)
    requires
        lo <= hi,
    ensures
        r == spec_clamp(v as int, lo as int, hi as int),
{
    if v < lo {
        lo
    } else if v > hi {
        hi
    } else {
        v
    }
}

/// Shrinking the mouse-emulation area: four fifths of the current scale,
/// floored at the minimum.
pub open spec fn spec_shrink_scale(s: int) -> int {
    if s * 4 / 5 < SCALE_MIN_PERMILLE as int {
        SCALE_MIN_PERMILLE as int
    } else {
        s * 4 / 5
    }
}

/// Growing the mouse-emulation area: six fifths of the current scale,
/// capped at the maximum.
pub open spec fn spec_grow_scale(s: int) -> int {
    if s * 6 / 5 > SCALE_MAX_PERMILLE as int {
        SCALE_MAX_PERMILLE as int
    } else {
        s * 6 / 5
    }
}

/// Shrinks the area scale, flooring at the minimum.
pub fn shrink_scale(s: u16) -> (r: u16)
    requires
        s <= SCALE_MAX_PERMILLE,
    ensures
        r == spec_shrink_scale(s as int),
        SCALE_MIN_PERMILLE <= r <= SCALE_MAX_PERMILLE,
{
    let t = s * 4 / 5;
    if t < SCALE_MIN_PERMILLE {
        SCALE_MIN_PERMILLE
    } else {
        t
    }
}

/// Grows the area scale, capping at the maximum.
pub fn grow_scale(s: u16) -> (r: u16)
    requires
        SCALE_MIN_PERMILLE <= s <= SCALE_MAX_PERMILLE,
    ensures
        r == spec_grow_scale(s as int),
        SCALE_MIN_PERMILLE <= r <= SCALE_MAX_PERMILLE,
{
    let t = s * 6 / 5;
    if t > SCALE_MAX_PERMILLE {
        SCALE_MAX_PERMILLE
    } else {
        t
    }
}

/// The native width of the mouse-emulation window at a given area scale.
pub open spec fn spec_mouse_range(scale_permille: int) -> int {
    4096 * scale_permille / 1000
}

/// The magnification the mouse transform applies: the full output range
/// divided by the window width, which is guarded to stay at least one.
pub open spec fn spec_scale_factor(scale_permille: int) -> int {
    let r = spec_mouse_range(scale_permille);
    4096int / (if r < 1 { 1int } else { r })
}

/// The mouse-mode spatial transform of one coordinate: the window around
/// `center` is magnified by the scale factor, recentered on 2048, and the
/// result clamped to the output range.
pub open spec fn spec_mouse_transform(v: int, center: int, scale_permille: int) -> int {
    spec_clamp((v - center) * spec_scale_factor(scale_permille) + 2048, 0, OUTPUT_RANGE as int)
}

/// Applies the mouse-mode spatial transform to one smoothed coordinate.
pub fn mouse_transform(v: i32, center: i32, scale_permille: u16) -> (r: i32)
    requires
        0 <= v <= RAW_MAX,
        0 <= center <= OUTPUT_RANGE,
        SCALE_MIN_PERMILLE <= scale_permille <= SCALE_MAX_PERMILLE,
    ensures
        r == spec_mouse_transform(v as int, center as int, scale_permille as int),
        0 <= r <= OUTPUT_RANGE,
{
    let range: u32 = 4096u32 * (scale_permille as u32) / 1000;
    let range_guarded: u32 = if range < 1 {
        1
    } else {
        range
    };
    let scale_factor: u32 = 4096 / range_guarded;
    assert(scale_factor <= 4096) by (nonlinear_arith)
        requires
            range_guarded >= 1,
            scale_factor == 4096 as int / range_guarded as int,
    ;
    let diff = v - center;
    assert(-4096 * 4096 <= diff * scale_factor <= 65535 * 4096) by (nonlinear_arith)
        requires
            -4096 <= diff <= 65535,
            0 <= scale_factor <= 4096,
    ;
    let scaled = diff * (scale_factor as i32) + 2048;
    clamp_i32(scaled, 0, OUTPUT_RANGE)
}

} // verus!
