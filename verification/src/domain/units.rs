use vstd::prelude::*;

verus! {

/// Number of fixed-point steps in one unit: every length (mm or inch),
/// feed, spindle speed and angle (degrees) is an `i64` counting
/// billionths of its unit, so `1.5` mm is `1_500_000_000`.
pub const SCALE: i64 = 1_000_000_000;

/// Largest magnitude, in fixed-point units, of the sizes and angles that a
/// pattern may be given (2^61, about 2.3 billion units), so that what is
/// computed from them stays within `i64`.
pub const LIMIT: i64 = 0x2000_0000_0000_0000;

/// `v` is within [`LIMIT`] of zero.
pub open spec fn within_limit(v: i64) -> bool {
    -LIMIT <= v <= LIMIT
}

/// `v` is absent or within [`LIMIT`] of zero.
pub open spec fn opt_within_limit(v: Option<i64>) -> bool {
    match v {
        Some(x) => within_limit(x),
        None => true,
    }
}

/// The quotient of `a` by `b` rounded towards zero, as integer division in
/// Rust rounds it.
pub open spec fn trunc_div(a: int, b: int) -> int {
    if (a >= 0) == (b > 0) {
        vstd::math::abs(a) as int / vstd::math::abs(b) as int
    } else {
        -(vstd::math::abs(a) as int / vstd::math::abs(b) as int)
    }
}

/// Units of a job's lengths.
#[derive(Debug, Clone, Copy, PartialEq, Eq, Structural)]
pub enum Units {
    Mm,
    Inch,
}

impl Units {
    /// The name of the units as the post-processor receives it.
    pub open spec fn spec_name(self) -> Seq<char> {
        match self {
            Units::Mm => "mm"@,
            Units::Inch => "inch"@,
        }
    }

    /// The name of the units as the post-processor receives it:
    /// `"mm"` or `"inch"`.
    pub fn name(&self) -> (r: String)
        ensures
            r@ == self.spec_name(),
    {
        match self {
            Units::Mm => String::from_str("mm"),
            Units::Inch => String::from_str("inch"),
        }
    }
}

impl Default for Units {
    /// Jobs are in millimetres unless they say otherwise.
    fn default() -> (r: Units)
        ensures
            r == Units::Mm,
    {
        Units::Mm
    }
}

} // verus!
