//! How large a switcher is asked to be.
use vstd::prelude::*;

verus! {

/// Widget size. `S` is the default.
///
/// The named sizes scale the switcher by 1, 3, 5 and 7. `Custom` carries a
/// scale factor in thousandths (`Custom(1500)` is one and a half); it is taken
/// as it is, and a factor of zero gives a switcher without area.
#[non_exhaustive]
#[derive(Clone, Copy, Debug, PartialEq, Eq, Structural)]
pub enum Dimension {
    S,
    M,
    L,
    XL,
    Custom(u32),
}

impl Default for Dimension {
    fn default() -> (dim: Self)
        ensures
            dim == Dimension::S,
    {
        Dimension::S
    }
}

impl Dimension {
    /// The scale factor in thousandths.
    pub open spec fn spec_multiplier_milli(self) -> u32 {
        match self {
            Dimension::S => 1000,
            Dimension::M => 3000,
            Dimension::L => 5000,
            Dimension::XL => 7000,
            Dimension::Custom(milli) => milli,
        }
    }

    /// Whether this is one of the four named sizes.
    pub open spec fn is_named(self) -> bool {
        !(self is Custom)
    }

    /// The scale factor in thousandths: 1000, 3000, 5000 and 7000 for the
    /// named sizes, the carried factor for `Custom`.
    #[verifier::when_used_as_spec(spec_multiplier_milli)]
    pub fn multiplier_milli(self) -> (milli: u32)
        ensures
            milli == self.spec_multiplier_milli(),
    {
        match self {
            Dimension::S => 1000,
            Dimension::M => 3000,
            Dimension::L => 5000,
            Dimension::XL => 7000,
            Dimension::Custom(milli) => milli,
        }
    }
}

/// A width and a height in sub-pixel steps.
#[derive(Clone, Copy, Debug, PartialEq, Eq, Structural)]
pub struct Size {
    pub width: u64,
    pub height: u64,
}

/// The height that a switcher of scale `milli`/1000 asks for where the
/// interactive unit is `unit` steps high, rounded down to a whole step.
pub open spec fn spec_desired_height(unit: int, milli: int) -> int {
    unit * milli / 1000
}

/// The size that a switcher asks for: as high as the scaled interactive unit
/// and five times as wide.
pub open spec fn spec_desired_size(unit: u32, dim: Dimension) -> Size {
    Size {
        width: (5 * spec_desired_height(unit as int, dim.spec_multiplier_milli() as int)) as u64,
        height: spec_desired_height(unit as int, dim.spec_multiplier_milli() as int) as u64,
    }
}

/// The size to reserve for a switcher of dimension `dim` on a surface whose
/// interactive unit is `unit` steps high.
pub fn desired_size(unit: u32, dim: Dimension) -> (size: Size)
    ensures
        size == spec_desired_size(unit, dim),
        size.height == unit * dim.spec_multiplier_milli() / 1000,
        size.width == 5 * size.height,
{
    let milli: u32 = dim.multiplier_milli();
    assert(unit * milli <= 0xffff_ffff * 0xffff_ffff) by (nonlinear_arith)
        requires
            unit <= 0xffff_ffff,
            milli <= 0xffff_ffff,
    ;
    let product: u64 = (unit as u64) * (milli as u64);
    let height: u64 = product / 1000;
    Size { width: 5 * height, height }
}

/// For a named size the scale is a whole number, so the height asked for is
/// exactly that many interactive units.
pub proof fn lemma_named_size_exact(unit: u32, dim: Dimension)
    requires
        dim.is_named(),
    ensures
        spec_desired_size(unit, dim).height == unit * (dim.spec_multiplier_milli() / 1000),
        spec_desired_size(unit, dim).width == 5 * unit * (dim.spec_multiplier_milli() / 1000),
{
    let k = dim.spec_multiplier_milli() as int / 1000;
    assert(dim.spec_multiplier_milli() == k * 1000);
    assert(unit * (k * 1000) / 1000 == unit * k) by (nonlinear_arith);
    assert(5 * (unit * k) == 5 * unit * k) by (nonlinear_arith);
}

/// The size asked for never shrinks when the scale grows, in either axis.
pub proof fn lemma_desired_size_monotonic(unit: u32, smaller: Dimension, larger: Dimension)
    requires
        smaller.spec_multiplier_milli() <= larger.spec_multiplier_milli(),
    ensures
        spec_desired_size(unit, smaller).width <= spec_desired_size(unit, larger).width,
        spec_desired_size(unit, smaller).height <= spec_desired_size(unit, larger).height,
{
    let a = smaller.spec_multiplier_milli() as int;
    let b = larger.spec_multiplier_milli() as int;
    assert(unit * a / 1000 <= unit * b / 1000) by (nonlinear_arith)
        requires
            0 <= a <= b,
            0 <= unit,
    ;
    lemma_height_fits(unit, smaller);
    lemma_height_fits(unit, larger);
}

/// Over the named sizes S, M, L and XL the size asked for grows strictly with
/// the scale, in both axes, on every surface whose interactive unit is not
/// zero.
pub proof fn lemma_named_sizes_strictly_increasing(unit: u32, smaller: Dimension, larger: Dimension)
    requires
        unit > 0,
        smaller.is_named(),
        larger.is_named(),
        smaller.spec_multiplier_milli() < larger.spec_multiplier_milli(),
    ensures
        spec_desired_size(unit, smaller).width < spec_desired_size(unit, larger).width,
        spec_desired_size(unit, smaller).height < spec_desired_size(unit, larger).height,
{
    lemma_named_size_exact(unit, smaller);
    lemma_named_size_exact(unit, larger);
    let a = smaller.spec_multiplier_milli() as int / 1000;
    let b = larger.spec_multiplier_milli() as int / 1000;
    assert(unit * a < unit * b) by (nonlinear_arith)
        requires
            0 <= a < b,
            0 < unit,
    ;
    assert(5 * unit * a < 5 * unit * b) by (nonlinear_arith)
        requires
            unit * a < unit * b,
    ;
    lemma_height_fits(unit, smaller);
    lemma_height_fits(unit, larger);
}

/// The height asked for, and five times it, fit in 64 bits.
proof fn lemma_height_fits(unit: u32, dim: Dimension)
    ensures
        0 <= spec_desired_height(unit as int, dim.spec_multiplier_milli() as int),
        5 * spec_desired_height(unit as int, dim.spec_multiplier_milli() as int) <= u64::MAX,
{
    let m = dim.spec_multiplier_milli() as int;
    assert(0 <= unit * m <= 0xffff_ffff * 0xffff_ffff) by (nonlinear_arith)
        requires
            0 <= unit <= 0xffff_ffff,
            0 <= m <= 0xffff_ffff,
    ;
}

} // verus!
