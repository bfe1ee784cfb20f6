//! Pixel extents and the DPI scale between physical pixels and logical units.

use vstd::prelude::*;

verus! {

/// A size in whole pixels (physical) or whole units (logical).
#[derive(Clone, Copy, PartialEq, Eq, Structural, Debug)]
pub struct Extent {
    pub width: u32,
    pub height: u32,
}

impl Extent {
    /// A window with either dimension at zero (for example while minimized)
    /// has no drawable area.
    pub open spec fn is_zero_area(self) -> bool {
        self.width == 0 || self.height == 0
    }

    pub fn new(width: u32, height: u32) -> (e: Extent)
        ensures
            e == (Extent { width, height }),
    {
        Extent { width, height }
    }

    pub fn zero_area(&self) -> (b: bool)
        ensures
            b == self.is_zero_area(),
    {
        self.width == 0 || self.height == 0
    }
}

/// Largest numerator or denominator a scale factor may carry; keeps the
/// fixed-point arithmetic below within `u64`.
pub const SCALE_LIMIT: u32 = 65536;

/// The DPI scale factor as the exact ratio `num / den`: a length of `l`
/// logical units covers `l * num / den` physical pixels.
#[derive(Clone, Copy, PartialEq, Eq, Structural, Debug)]
pub struct ScaleFactor {
    pub num: u32,
    pub den: u32,
}

impl ScaleFactor {
    pub open spec fn wf(self) -> bool {
        1 <= self.num <= SCALE_LIMIT && 1 <= self.den <= SCALE_LIMIT
    }

    /// A one-to-one scale: logical units are physical pixels.
    pub fn identity() -> (s: ScaleFactor)
        ensures
            s == (ScaleFactor { num: 1u32, den: 1u32 }),
            s.wf(),
    {
        ScaleFactor { num: 1, den: 1 }
    }
}

/// The logical length covering `phys` physical pixels under scale
/// `num / den`, rounded to the nearest whole logical unit (half rounds up).
pub open spec fn logical_len_spec(phys: nat, num: nat, den: nat) -> nat {
    (phys * den + num / 2) / num
}

/// Whether both logical dimensions of `physical` under `scale` fit in `u32`.
pub open spec fn logical_fits(physical: Extent, scale: ScaleFactor) -> bool {
    logical_len_spec(physical.width as nat, scale.num as nat, scale.den as nat) <= u32::MAX
        && logical_len_spec(physical.height as nat, scale.num as nat, scale.den as nat) <= u32::MAX
}

/// The logical size of a physical extent under a scale factor.
pub open spec fn logical_extent_spec(physical: Extent, scale: ScaleFactor) -> Extent {
    Extent {
        width: logical_len_spec(physical.width as nat, scale.num as nat, scale.den as nat) as u32,
        height: logical_len_spec(physical.height as nat, scale.num as nat, scale.den as nat) as u32,
    }
}

/// Whether both logical dimensions fit in `u32`, checked at run time so a
/// caller can guard a `logical_extent` call.
pub fn logical_fits_check(physical: &Extent, scale: &ScaleFactor) -> (b: bool)
    requires
        scale.wf(),
    ensures
        b == logical_fits(*physical, *scale),
{
    proof {
        assert(physical.width * scale.den <= 0xFFFF_FFFFu64 * 65536 && physical.height * scale.den
            <= 0xFFFF_FFFFu64 * 65536) by (nonlinear_arith)
            requires
                physical.width <= 0xFFFF_FFFFu64,
                physical.height <= 0xFFFF_FFFFu64,
                scale.den <= 65536,
        ;
    }
    let w: u64 = (physical.width as u64 * scale.den as u64 + (scale.num / 2) as u64)
        / (scale.num as u64);
    let h: u64 = (physical.height as u64 * scale.den as u64 + (scale.num / 2) as u64)
        / (scale.num as u64);
    w <= u32::MAX as u64 && h <= u32::MAX as u64
}

pub fn logical_len(phys: u32, scale: &ScaleFactor) -> (r: u32)
    requires
        scale.wf(),
        logical_len_spec(phys as nat, scale.num as nat, scale.den as nat) <= u32::MAX,
    ensures
        r == logical_len_spec(phys as nat, scale.num as nat, scale.den as nat),
{
    proof {
        assert(phys * scale.den <= 0xFFFF_FFFFu64 * 65536) by (nonlinear_arith)
            requires
                phys <= 0xFFFF_FFFFu64,
                scale.den <= 65536,
        ;
    }
    let wide: u64 = (phys as u64 * scale.den as u64 + (scale.num / 2) as u64) / (scale.num as u64);
    wide as u32
}

/// The logical size handed to the paint callback for a window of this
/// physical extent and scale factor.
pub fn logical_extent(physical: &Extent, scale: &ScaleFactor) -> (r: Extent)
    requires
        scale.wf(),
        logical_fits(*physical, *scale),
    ensures
        r == logical_extent_spec(*physical, *scale),
{
    Extent { width: logical_len(physical.width, scale), height: logical_len(physical.height, scale) }
}

/// Law: the logical length times the scale factor recovers the physical
/// length to within half a rounding step, and for scale factors of at most
/// 2.0 to within one physical pixel. With `l` the logical length of `phys`
/// under `num / den`, the products `l * num` and `phys * den` (both in
/// physical pixels scaled by `den`) differ by at most `num / 2`; when
/// `num <= 2 * den` they differ by at most `den`, that is by at most one
/// physical pixel.
pub proof fn lemma_logical_roundtrip(phys: nat, num: nat, den: nat)
    requires
        1 <= num,
        1 <= den,
    ensures
        2 * (logical_len_spec(phys, num, den) * num) <= 2 * (phys * den) + num,
        2 * (phys * den) <= 2 * (logical_len_spec(phys, num, den) * num) + num,
        num <= 2 * den ==> logical_len_spec(phys, num, den) * num <= phys * den + den,
        num <= 2 * den ==> phys * den <= logical_len_spec(phys, num, den) * num + den,
{
    let t: int = (phys * den + num / 2) as int;
    let l: int = logical_len_spec(phys, num, den) as int;
    vstd::arithmetic::div_mod::lemma_fundamental_div_mod(t, num as int);
    vstd::arithmetic::div_mod::lemma_mod_bound(t, num as int);
    let r: int = t % (num as int);
    assert(l == t / (num as int));
    assert(t == (num as int) * l + r);
    assert(2 * (num / 2) <= num && num <= 2 * (num / 2) + 1);
    assert(2 * (l * (num as int)) == 2 * (phys * den) + 2 * (num / 2) - 2 * r);
    if num <= 2 * den {
        assert(num / 2 <= den);
    }
}

} // verus!
