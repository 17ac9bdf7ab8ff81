//! The coordinate transform: from a region in logical units and a display's
//! scale factor to a rectangle of device pixels that lies on the display.
//!
//! Each of the four lengths is scaled on its own and rounded to the nearest
//! integer, a half rounding away from zero. The rectangle is then moved and
//! cut so that it is at least one pixel wide and high and does not leave the
//! display.

use vstd::prelude::*;
use vstd::math::{max, min};
use crate::model::{LogicalRegion, MonitorView, Ratio, Region, ScaleFactor};

verus! {

/// The integer nearest to `value * numer / denom`; of two that are equally
/// near, the larger one.
pub open spec fn rounded(value: int, scale: Ratio) -> int {
    (2 * value * scale.numer + scale.denom) / (2 * scale.denom)
}

/// `nearest` is the integer nearest to `value * numer / denom`: the two
/// differ by at most one half, and by exactly one half only where `nearest`
/// is the larger.
pub open spec fn is_nearest(nearest: int, value: int, scale: Ratio) -> bool {
    -scale.denom < 2 * (nearest * scale.denom - value * scale.numer) <= scale.denom
}

/// Each length of `region` that is not negative is rounded to the integer
/// nearest to its scaled value.
pub open spec fn rounds_to_nearest(region: LogicalRegion, scale: Ratio) -> bool {
    &&& region.left >= 0 ==> is_nearest(rounded(region.left, scale), region.left, scale)
    &&& region.top >= 0 ==> is_nearest(rounded(region.top, scale), region.top, scale)
    &&& region.width >= 0 ==> is_nearest(rounded(region.width, scale), region.width, scale)
    &&& region.height >= 0 ==> is_nearest(rounded(region.height, scale), region.height, scale)
}

/// A logical length in device pixels. A length that is not positive gives 0,
/// and the result does not exceed `u32::MAX`.
pub open spec fn scaled(value: int, scale: Ratio) -> int {
    if value <= 0 {
        0
    } else {
        min(rounded(value, scale), u32::MAX as int)
    }
}

/// The four lengths of a logical region, each scaled on its own.
pub open spec fn scaled_region(region: LogicalRegion, scale: Ratio) -> Region {
    Region {
        left: scaled(region.left, scale),
        top: scaled(region.top, scale),
        width: scaled(region.width, scale),
        height: scaled(region.height, scale),
    }
}

/// Where a rectangle that starts at `start` is moved to on an axis of
/// `extent` pixels: no further than the last pixel.
pub open spec fn clamped_start(start: int, extent: int) -> int {
    min(start, extent - 1)
}

/// How long a rectangle of length `length` may be once it starts at
/// `start`: at least one pixel, and no more than what is left of the axis.
pub open spec fn clamped_length(length: int, start: int, extent: int) -> int {
    min(max(length, 1), extent - start)
}

/// The rectangle `region`, moved and cut to lie on a display of `width` by
/// `height` pixels.
pub open spec fn clamped(region: Region, width: int, height: int) -> Region {
    let left = clamped_start(region.left, width);
    let top = clamped_start(region.top, height);
    Region {
        left,
        top,
        width: clamped_length(region.width, left, width),
        height: clamped_length(region.height, top, height),
    }
}

/// The rectangle of device pixels that a logical region stands for on a
/// display.
pub open spec fn to_physical(monitor: MonitorView, region: LogicalRegion) -> Region {
    clamped(scaled_region(region, monitor.scale), monitor.width, monitor.height)
}

/// A rectangle lies on a display of `width` by `height` pixels and is not
/// empty.
pub open spec fn within(region: Region, width: int, height: int) -> bool {
    &&& region.left >= 0
    &&& region.top >= 0
    &&& region.width >= 1
    &&& region.height >= 1
    &&& region.left + region.width <= width
    &&& region.top + region.height <= height
}

/// Scales one logical length to device pixels.
pub fn scale_length(value: i32, scale: ScaleFactor) -> (r: u32)
    ensures
        r == scaled(value as int, scale@),
        value >= 0 ==> is_nearest(rounded(value as int, scale@), value as int, scale@),
{
    proof {
        use_type_invariant(scale);
        if value >= 0 {
            lemma_rounded_is_nearest(value as int, scale@);
        }
    }
    if value <= 0 {
        return 0;
    }
    let v: u128 = value as u128;
    let n: u128 = scale.numer() as u128;
    let d: u128 = scale.denom() as u128;
    assert(2 * v * n <= 0x1_0000_0000 * 0x1_0000_0000) by (nonlinear_arith)
        requires
            0 <= v <= 0x8000_0000,
            0 <= n <= 0x1_0000_0000,
    ;
    let q: u128 = (2 * v * n + d) / (2 * d);
    if q > u32::MAX as u128 {
        u32::MAX
    } else {
        q as u32
    }
}

/// `rounded` is the nearest integer: it differs from `value * numer / denom`
/// by at most one half, and by exactly one half only upwards.
pub proof fn lemma_rounded_is_nearest(value: int, scale: Ratio)
    requires
        value >= 0,
        scale.positive(),
    ensures
        rounded(value, scale) >= 0,
        is_nearest(rounded(value, scale), value, scale),
{
    let a = 2 * value * scale.numer + scale.denom;
    let b = 2 * scale.denom;
    let r = rounded(value, scale);
    assert(2 * value * scale.numer >= 0) by (nonlinear_arith)
        requires
            value >= 0,
            scale.numer > 0,
    ;
    vstd::arithmetic::div_mod::lemma_fundamental_div_mod(a, b);
    vstd::arithmetic::div_mod::lemma_mod_bound(a, b);
    vstd::arithmetic::div_mod::lemma_div_pos_is_pos(a, b);
    assert(b * r == 2 * (r * scale.denom)) by (nonlinear_arith)
        requires
            b == 2 * scale.denom,
    ;
    assert(2 * value * scale.numer == 2 * (value * scale.numer)) by (nonlinear_arith);
}

/// Whatever the region and the scale factor, the transformed rectangle is
/// not empty and lies on the display.
pub proof fn lemma_to_physical_within(monitor: MonitorView, region: LogicalRegion)
    requires
        monitor.wf(),
    ensures
        within(to_physical(monitor, region), monitor.width, monitor.height),
{
    let scale = monitor.scale;
    lemma_scaled_not_negative(region.left, scale);
    lemma_scaled_not_negative(region.top, scale);
}

/// Every length of a region that is not negative is rounded to the nearest
/// integer.
pub proof fn lemma_rounds_to_nearest(region: LogicalRegion, scale: Ratio)
    requires
        scale.positive(),
    ensures
        rounds_to_nearest(region, scale),
{
    if region.left >= 0 {
        lemma_rounded_is_nearest(region.left, scale);
    }
    if region.top >= 0 {
        lemma_rounded_is_nearest(region.top, scale);
    }
    if region.width >= 0 {
        lemma_rounded_is_nearest(region.width, scale);
    }
    if region.height >= 0 {
        lemma_rounded_is_nearest(region.height, scale);
    }
}

/// A scaled length is never negative.
pub proof fn lemma_scaled_not_negative(value: int, scale: Ratio)
    requires
        scale.positive(),
    ensures
        0 <= scaled(value, scale) <= u32::MAX,
{
    if value > 0 {
        lemma_rounded_is_nearest(value, scale);
    }
}

/// A valid region that fits on the display at its scaled size is
/// transformed by scaling alone: nothing is moved or cut.
pub proof fn lemma_fitting_region_is_only_scaled(monitor: MonitorView, region: LogicalRegion)
    requires
        monitor.wf(),
        within(scaled_region(region, monitor.scale), monitor.width, monitor.height),
    ensures
        to_physical(monitor, region) == scaled_region(region, monitor.scale),
{
}

} // verus!
