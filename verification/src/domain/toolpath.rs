use vstd::prelude::*;
use crate::domain::units::{SCALE, within_limit, opt_within_limit, trunc_div};
use crate::error::PatternError;
use crate::nc::ir::{NCBlock, BlockView};
use crate::operations::OperationCommon;

verus! {

/// How the tool travels to the end point of a segment.
#[derive(Debug, Clone, Copy, PartialEq, Eq, Structural)]
pub enum MoveType {
    Rapid,
    Linear,
    ArcCw,
    ArcCcw,
}

/// One piece of a tool path: a move to `(x, y, z)`, with an optional
/// comment, and an optional pattern block that stands for the move.
#[derive(Debug, Clone)]
pub struct ToolpathSegment {
    pub move_type: MoveType,
    pub x: i64,
    pub y: i64,
    pub z: i64,
    pub comment: Option<String>,
    pub pattern: Option<NCBlock>,
}

/// A [`ToolpathSegment`] with its texts taken as character sequences.
pub struct SegmentView {
    pub move_type: MoveType,
    pub x: i64,
    pub y: i64,
    pub z: i64,
    pub comment: Option<Seq<char>>,
    pub pattern: Option<BlockView>,
}

impl View for ToolpathSegment {
    type V = SegmentView;

    open spec fn view(&self) -> SegmentView {
        SegmentView {
            move_type: self.move_type,
            x: self.x,
            y: self.y,
            z: self.z,
            comment: match self.comment {
                Some(t) => Some(t@),
                None => None,
            },
            pattern: match self.pattern {
                Some(b) => Some(b@),
                None => None,
            },
        }
    }
}

/// A rapid move to `(x, y, z)`, without comment or pattern.
pub open spec fn rapid_view(x: i64, y: i64, z: i64) -> SegmentView {
    SegmentView { move_type: MoveType::Rapid, x, y, z, comment: None, pattern: None }
}

/// The views of a sequence of segments.
pub open spec fn segments_view(segments: Seq<ToolpathSegment>) -> Seq<SegmentView> {
    segments.map_values(|s: ToolpathSegment| s@)
}

/// Rapid moves to each of `points` at height `z`, in order.
pub open spec fn rapids_at(points: Seq<[i64; 2]>, z: i64) -> Seq<SegmentView> {
    points.map_values(|p: [i64; 2]| rapid_view(p[0], p[1], z))
}

impl ToolpathSegment {
    /// A rapid move to `(x, y, z)`, without comment or pattern.
    pub fn rapid(x: i64, y: i64, z: i64) -> (r: ToolpathSegment)
        ensures
            r@ == rapid_view(x, y, z),
    {
        ToolpathSegment { move_type: MoveType::Rapid, x, y, z, comment: None, pattern: None }
    }
}

/// Rapid moves to each of `points`, all at height `z`.
pub fn rapids_to(points: &[[i64; 2]], z: i64) -> (r: Vec<ToolpathSegment>)
    ensures
        segments_view(r@) == rapids_at(points@, z),
{
    let mut segments: Vec<ToolpathSegment> = Vec::new();
    let n = points.len();
    for i in 0..n
        invariant
            n == points@.len(),
            segments@.len() == i,
            forall|k: int|
                0 <= k < i ==> #[trigger] segments@[k]@ == rapid_view(
                    points@[k][0],
                    points@[k][1],
                    z,
                ),
    {
        let p = points[i];
        segments.push(ToolpathSegment::rapid(p[0], p[1], z));
    }
    proof {
        assert(segments_view(segments@) =~= rapids_at(points@, z));
    }
    segments
}

/// Where an operation works: at given points, or on a pattern.
#[derive(Debug, Clone)]
pub enum Locations {
    Points { points: Vec<[i64; 2]> },
    Pattern { pattern: Pattern },
}

impl Locations {
    /// A pattern, if that is where the operation works, is within limits.
    pub open spec fn wf(self) -> bool {
        match self {
            Locations::Points { .. } => true,
            Locations::Pattern { pattern } => pattern.wf(),
        }
    }
}

/// A pattern of locations.
///
/// `Circular`: locations on the circle around `cc` of the given diameter or
/// radius (both may be given if they agree), from `angle_start` (default 0°)
/// towards `angle_stop` (default 360°), either `count` of them evenly spaced
/// (a negative count steps the other way) or one every `angle_step` (a
/// negative step steps the other way). Angles are in degrees, fixed-point.
///
/// `points` are the pattern's locations, one for each angle of
/// [`Pattern::layout`]; they are computed with floating-point trigonometry
/// when the pattern is read.
#[derive(Debug, Clone)]
pub enum Pattern {
    Circular {
        cc: [i64; 2],
        diameter: Option<i64>,
        radius: Option<i64>,
        angle_start: Option<i64>,
        angle_stop: Option<i64>,
        angle_step: Option<i64>,
        count: Option<i32>,
        points: Vec<[i64; 2]>,
    },
}

/// What describes a pattern, without its precomputed locations: the fields
/// of [`Pattern`] but `points`.
#[derive(Debug, Clone, Copy, PartialEq, Eq)]
pub enum PatternParameters {
    Circular {
        cc: [i64; 2],
        diameter: Option<i64>,
        radius: Option<i64>,
        angle_start: Option<i64>,
        angle_stop: Option<i64>,
        angle_step: Option<i64>,
        count: Option<i32>,
    },
}

impl Pattern {
    /// The pattern's parameters.
    pub open spec fn spec_parameters(self) -> PatternParameters {
        match self {
            Pattern::Circular { cc, diameter, radius, angle_start, angle_stop, angle_step, count, .. } =>
                PatternParameters::Circular {
                cc,
                diameter,
                radius,
                angle_start,
                angle_stop,
                angle_step,
                count,
            },
        }
    }

    /// The pattern's parameters (see [`Pattern::spec_parameters`]).
    pub fn parameters(&self) -> (r: PatternParameters)
        ensures
            r == self.spec_parameters(),
    {
        match self {
            Pattern::Circular { cc, diameter, radius, angle_start, angle_stop, angle_step, count, .. } =>
                PatternParameters::Circular {
                cc: *cc,
                diameter: *diameter,
                radius: *radius,
                angle_start: *angle_start,
                angle_stop: *angle_stop,
                angle_step: *angle_step,
                count: *count,
            },
        }
    }
}

/// The angles of a pattern of `n` (non-zero) locations, evenly spaced from
/// `start` towards `stop`, or away from it where `n` is negative.
pub open spec fn counted_angles(start: int, stop: int, n: int) -> Seq<int> {
    Seq::new(vstd::math::abs(n), |i: int| start + trunc_div(i * (stop - start), n))
}

/// How far, in fixed-point steps of a degree, an angle of a stepped
/// pattern may pass the stop angle and still count: a billionth of a radian,
/// about 57 billionths of a degree.
pub const ANGLE_TOLERANCE: i64 = 57;

/// The stop angle widened by [`ANGLE_TOLERANCE`] in the direction of `step`.
pub open spec fn stop_bound(stop: int, step: int) -> int {
    if step > 0 {
        stop + ANGLE_TOLERANCE
    } else {
        stop - ANGLE_TOLERANCE
    }
}

/// How many of `start`, `start + step`, `start + 2 * step`, ... come before
/// `bound` is passed (`step` non-zero).
pub open spec fn steps_within(start: int, bound: int, step: int) -> nat {
    if step > 0 {
        if start <= bound {
            ((bound - start) / step + 1) as nat
        } else {
            0
        }
    } else {
        if start >= bound {
            ((start - bound) / (-step) + 1) as nat
        } else {
            0
        }
    }
}

/// How many of `start`, `start + step`, `start + 2 * step`, ... come before
/// `stop` is passed by more than [`ANGLE_TOLERANCE`] (`step` non-zero).
pub open spec fn stepped_count(start: int, stop: int, step: int) -> nat {
    steps_within(start, stop_bound(stop, step), step)
}

/// The angles `start`, `start + step`, ... that do not pass `stop` by more
/// than [`ANGLE_TOLERANCE`].
pub open spec fn stepped_angles(start: int, stop: int, step: int) -> Seq<int> {
    Seq::new(stepped_count(start, stop, step), |k: int| start + k * step)
}

/// The integers that a sequence of `i64` holds.
pub open spec fn ints(s: Seq<i64>) -> Seq<int> {
    s.map_values(|v: i64| v as int)
}

/// Where a circular pattern's locations lie: around `center`, at distance
/// `radius`, at each of `angles` (degrees, fixed-point).
#[derive(Debug, Clone)]
pub struct CircularLayout {
    pub center: [i64; 2],
    pub radius: i64,
    pub angles: Vec<i64>,
}

impl Pattern {
    /// The pattern is within limits and holds one precomputed location for
    /// each angle of its layout, where it has one.
    pub open spec fn wf(self) -> bool {
        &&& self.in_limits()
        &&& (self.spec_angles() matches Ok(angles) ==> self.spec_points().len() == angles.len())
    }

    /// The sizes and angles of the pattern are within [`crate::domain::units::LIMIT`].
    pub open spec fn in_limits(self) -> bool {
        match self {
            Pattern::Circular { diameter, radius, angle_start, angle_stop, angle_step, .. } => {
                &&& opt_within_limit(diameter)
                &&& opt_within_limit(radius)
                &&& opt_within_limit(angle_start)
                &&& opt_within_limit(angle_stop)
                &&& opt_within_limit(angle_step)
            },
        }
    }

    pub open spec fn spec_center(self) -> [i64; 2] {
        match self {
            Pattern::Circular { cc, .. } => cc,
        }
    }

    /// The precomputed locations.
    pub open spec fn spec_points(self) -> Seq<[i64; 2]> {
        match self {
            Pattern::Circular { points, .. } => points@,
        }
    }

    /// The first angle: `angle_start`, 0° by default.
    pub open spec fn spec_start(self) -> int {
        match self {
            Pattern::Circular { angle_start, .. } => match angle_start {
                Some(a) => a as int,
                None => 0,
            },
        }
    }

    /// The angle to stop at: `angle_stop`, 360° by default.
    pub open spec fn spec_stop(self) -> int {
        match self {
            Pattern::Circular { angle_stop, .. } => match angle_stop {
                Some(a) => a as int,
                None => 360 * SCALE,
            },
        }
    }

    /// The radius: half the diameter, or the radius, or the radius where
    /// both are given and the diameter is twice the radius to within one
    /// fixed-point step of the radius.
    pub open spec fn spec_radius(self) -> Result<int, PatternError> {
        match self {
            Pattern::Circular { diameter, radius, .. } => match (diameter, radius) {
                (Some(d), None) => Ok(trunc_div(d as int, 2)),
                (None, Some(r)) => Ok(r as int),
                (Some(d), Some(r)) => if vstd::math::abs(d - 2 * r) > 2 {
                    Err(PatternError::InconsistentSize)
                } else {
                    Ok(r as int)
                },
                (None, None) => Err(PatternError::MissingSize),
            },
        }
    }

    /// The angles of the pattern's locations, in order, or why there are
    /// none: a size error first, then a count or step error.
    pub open spec fn spec_angles(self) -> Result<Seq<int>, PatternError> {
        match self.spec_radius() {
            Err(e) => Err(e),
            Ok(_) => match self {
                Pattern::Circular { angle_step, count, .. } => match (count, angle_step) {
                    (Some(_), Some(_)) => Err(PatternError::CountAndStep),
                    (Some(n), None) => if n == 0 {
                        Err(PatternError::ZeroCount)
                    } else {
                        Ok(counted_angles(self.spec_start(), self.spec_stop(), n as int))
                    },
                    (None, Some(step)) => if step == 0 {
                        Err(PatternError::ZeroStep)
                    } else {
                        Ok(stepped_angles(self.spec_start(), self.spec_stop(), step as int))
                    },
                    (None, None) => Err(PatternError::MissingCountOrStep),
                },
            },
        }
    }

    /// The radius of the pattern (see [`Pattern::spec_radius`]).
    pub fn radius(&self) -> (r: Result<i64, PatternError>)
        requires
            self.in_limits(),
        ensures
            match r {
                Ok(v) => self.spec_radius() == Ok::<int, PatternError>(v as int),
                Err(e) => self.spec_radius() == Err::<int, PatternError>(e),
            },
    {
        match self {
            Pattern::Circular { diameter, radius, .. } => match (diameter, radius) {
                (Some(d), None) => {
                    let q = trunc_div_i128(*d as i128, 2);
                    Ok(q as i64)
                },
                (None, Some(r)) => Ok(*r),
                (Some(d), Some(r)) => {
                    let diff: i128 = *d as i128 - 2 * (*r as i128);
                    if diff > 2 || diff < -2 {
                        Err(PatternError::InconsistentSize)
                    } else {
                        Ok(*r)
                    }
                },
                (None, None) => Err(PatternError::MissingSize),
            },
        }
    }

    /// The center, radius and angles of the pattern's locations, or why the
    /// pattern is ill-formed. There are no silent defaults for the size or
    /// the spacing: a missing or contradictory one is an error.
    pub fn layout(&self) -> (r: Result<CircularLayout, PatternError>)
        requires
            self.in_limits(),
        ensures
            match r {
                Ok(l) => {
                    &&& self.spec_angles() == Ok::<Seq<int>, PatternError>(ints(l.angles@))
                    &&& self.spec_radius() == Ok::<int, PatternError>(l.radius as int)
                    &&& l.center == self.spec_center()
                },
                Err(e) => self.spec_angles() == Err::<Seq<int>, PatternError>(e),
            },
    {
        let radius = match self.radius() {
            Ok(v) => v,
            Err(e) => return Err(e),
        };
        match self {
            Pattern::Circular { cc, angle_start, angle_stop, angle_step, count, .. } => {
                let start: i64 = match angle_start {
                    Some(a) => *a,
                    None => 0,
                };
                let stop: i64 = match angle_stop {
                    Some(a) => *a,
                    None => 360 * SCALE,
                };
                let angles = match (count, angle_step) {
                    (Some(_), Some(_)) => return Err(PatternError::CountAndStep),
                    (Some(n), None) => {
                        if *n == 0 {
                            return Err(PatternError::ZeroCount);
                        }
                        counted_angles_exec(start, stop, *n)
                    },
                    (None, Some(step)) => {
                        if *step == 0 {
                            return Err(PatternError::ZeroStep);
                        }
                        stepped_angles_exec(start, stop, *step)
                    },
                    (None, None) => return Err(PatternError::MissingCountOrStep),
                };
                Ok(CircularLayout { center: *cc, radius, angles })
            },
        }
    }
}

/// A number of locations as a pattern block carries it: at most `u32::MAX`.
pub open spec fn capped_count(n: nat) -> u32 {
    if n <= u32::MAX {
        n as u32
    } else {
        u32::MAX
    }
}

impl Pattern {
    /// The angle between neighbouring locations: `angle_step` where given,
    /// else the angle from start to stop divided by the count.
    pub open spec fn spec_step(self) -> int {
        match self {
            Pattern::Circular { angle_step, count, .. } => match angle_step {
                Some(step) => step as int,
                None => match count {
                    Some(n) => trunc_div(self.spec_stop() - self.spec_start(), n as int),
                    None => 0,
                },
            },
        }
    }

    /// The pattern as one segment for a post-processor that runs drilling
    /// cycles on circular patterns itself: a rapid move to the center that
    /// carries a `PatternCircular` block (set-up clearance 5 units, surface
    /// at 0, second set-up clearance at `clearance`).
    pub open spec fn spec_segment(self, clearance: i64) -> Result<SegmentView, PatternError> {
        match self.spec_angles() {
            Err(e) => Err(e),
            Ok(angles) => {
                let cc = self.spec_center();
                let radius = match self.spec_radius() {
                    Ok(r) => r,
                    Err(_) => 0,
                };
                Ok(
                    SegmentView {
                        move_type: MoveType::Rapid,
                        x: cc[0],
                        y: cc[1],
                        z: clearance,
                        comment: None,
                        pattern: Some(
                            BlockView::PatternCircular {
                                x: cc[0],
                                y: cc[1],
                                diameter: (2 * radius) as i64,
                                angle_start: self.spec_start() as i64,
                                angle_stop: self.spec_stop() as i64,
                                angle_step: self.spec_step() as i64,
                                count: capped_count(angles.len()),
                                clearance: (5 * SCALE) as i64,
                                surface_position: 0,
                                second_clearance: clearance,
                            },
                        ),
                    },
                )
            },
        }
    }

    /// The pattern as one segment carrying a pattern block (see
    /// [`Pattern::spec_segment`]), or why the pattern is ill-formed.
    pub fn into_segment(&self, common: &OperationCommon) -> (r: Result<ToolpathSegment, PatternError>)
        requires
            self.in_limits(),
        ensures
            match r {
                Ok(segment) => self.spec_segment(common.clearance) == Ok::<SegmentView, PatternError>(segment@),
                Err(e) => self.spec_segment(common.clearance) == Err::<SegmentView, PatternError>(e),
            },
    {
        let radius = match self.radius() {
            Ok(v) => v,
            Err(e) => return Err(e),
        };
        match self {
            Pattern::Circular { cc, angle_start, angle_stop, angle_step, count, .. } => {
                let start: i64 = match angle_start {
                    Some(a) => *a,
                    None => 0,
                };
                let stop: i64 = match angle_stop {
                    Some(a) => *a,
                    None => 360 * SCALE,
                };
                let (step, n_points): (i64, u32) = match (count, angle_step) {
                    (Some(_), Some(_)) => return Err(PatternError::CountAndStep),
                    (Some(n), None) => {
                        if *n == 0 {
                            return Err(PatternError::ZeroCount);
                        }
                        let diff: i128 = stop as i128 - start as i128;
                        let q = trunc_div_i128(diff, *n as i128);
                        proof {
                            let ad = vstd::math::abs(diff as int) as int;
                            let an = vstd::math::abs(*n as int) as int;
                            assert(ad <= ad * an) by (nonlinear_arith)
                                requires
                                    ad >= 0,
                                    an >= 1,
                            ;
                            lemma_quotient_bound(
                                vstd::math::abs(diff as int) as int,
                                vstd::math::abs(diff as int) as int,
                                vstd::math::abs(*n as int) as int,
                            );
                        }
                        let m: u32 = if *n < 0 {
                            (-(*n as i64)) as u32
                        } else {
                            *n as u32
                        };
                        (q as i64, m)
                    },
                    (None, Some(st)) => {
                        if *st == 0 {
                            return Err(PatternError::ZeroStep);
                        }
                        (*st, stepped_count_exec(start, stop, *st))
                    },
                    (None, None) => return Err(PatternError::MissingCountOrStep),
                };
                let block = NCBlock::PatternCircular {
                    x: cc[0],
                    y: cc[1],
                    diameter: 2 * radius,
                    angle_start: start,
                    angle_stop: stop,
                    angle_step: step,
                    count: n_points,
                    clearance: 5 * SCALE,
                    surface_position: 0,
                    second_clearance: common.clearance,
                };
                Ok(
                    ToolpathSegment {
                        move_type: MoveType::Rapid,
                        x: cc[0],
                        y: cc[1],
                        z: common.clearance,
                        comment: None,
                        pattern: Some(block),
                    },
                )
            },
        }
    }
}

/// How many angles from `start` by `step` do not pass `stop`, at most `u32::MAX`.
fn stepped_count_exec(start: i64, stop: i64, step: i64) -> (r: u32)
    requires
        within_limit(start),
        within_limit(stop),
        within_limit(step),
        step != 0,
    ensures
        r == capped_count(stepped_count(start as int, stop as int, step as int)),
{
    let (d, s): (i128, i128) = if step > 0 {
        (stop as i128 + ANGLE_TOLERANCE as i128 - start as i128, step as i128)
    } else {
        (start as i128 - (stop as i128 - ANGLE_TOLERANCE as i128), -(step as i128))
    };
    if d < 0 {
        0
    } else {
        let c: i128 = d / s + 1;
        if c <= u32::MAX as i128 {
            c as u32
        } else {
            u32::MAX
        }
    }
}

/// `a` divided by `b`, rounded towards zero.
fn trunc_div_i128(a: i128, b: i128) -> (q: i128)
    requires
        b != 0,
        -0x1000_0000_0000_0000_0000_0000_0000 < a < 0x1000_0000_0000_0000_0000_0000_0000,
        -0x1000_0000_0000_0000_0000_0000_0000 < b < 0x1000_0000_0000_0000_0000_0000_0000,
    ensures
        q == trunc_div(a as int, b as int),
        vstd::math::abs(q as int) == vstd::math::abs(a as int) / vstd::math::abs(b as int),
{
    let ua: i128 = if a < 0 { -a } else { a };
    let ub: i128 = if b < 0 { -b } else { b };
    let q: i128 = ua / ub;
    if (a >= 0) == (b > 0) {
        q
    } else {
        -q
    }
}

/// `p / n <= d` where `p <= d * n`.
proof fn lemma_quotient_bound(p: int, d: int, n: int)
    requires
        0 <= p,
        0 <= d,
        0 < n,
        p <= d * n,
    ensures
        p / n <= d,
{
    vstd::arithmetic::div_mod::lemma_div_is_ordered(p, d * n, n);
    vstd::arithmetic::div_mod::lemma_div_by_multiple(d, n);
}

/// The angles of `n` evenly spaced locations (see [`counted_angles`]).
fn counted_angles_exec(start: i64, stop: i64, n: i32) -> (r: Vec<i64>)
    requires
        within_limit(start),
        within_limit(stop),
        n != 0,
    ensures
        ints(r@) == counted_angles(start as int, stop as int, n as int),
{
    let m: i64 = if n < 0 { -(n as i64) } else { n as i64 };
    let diff: i128 = stop as i128 - start as i128;
    let mut angles: Vec<i64> = Vec::new();
    let mut i: i64 = 0;
    while i < m
        invariant
            0 <= i <= m,
            m == vstd::math::abs(n as int),
            diff == stop - start,
            within_limit(start),
            within_limit(stop),
            n != 0,
            angles@.len() == i,
            forall|k: int|
                0 <= k < i ==> #[trigger] angles@[k] as int == start + trunc_div(
                    k * (stop - start),
                    n as int,
                ),
        decreases m - i,
    {
        let ghost ad: int = vstd::math::abs(diff as int) as int;
        assert(0 <= i * ad <= 0x8000_0000 * 0x4000_0000_0000_0000) by (nonlinear_arith)
            requires
                0 <= i < 0x8000_0000,
                0 <= ad <= 0x4000_0000_0000_0000,
        ;
        assert(vstd::math::abs((i * diff) as int) == i * ad) by (nonlinear_arith)
            requires
                0 <= i,
                ad == vstd::math::abs(diff as int),
        ;
        let prod: i128 = (i as i128) * diff;
        let q = trunc_div_i128(prod, n as i128);
        proof {
            assert(i * ad <= ad * m) by (nonlinear_arith)
                requires
                    0 <= i < m,
                    0 <= ad,
            ;
            lemma_quotient_bound(i * ad, ad, m as int);
        }
        angles.push((start as i128 + q) as i64);
        i = i + 1;
    }
    proof {
        assert(ints(angles@) =~= counted_angles(start as int, stop as int, n as int));
    }
    angles
}

/// `steps_within` counts the terms of a progression that ends with
/// `start + (len - 1) * step`, the last one not to pass `stop`.
proof fn lemma_stepped_count(start: int, stop: int, step: int, len: int)
    requires
        step != 0,
        len >= 0,
        step > 0 ==> start + len * step > stop,
        step < 0 ==> start + len * step < stop,
        len > 0 && step > 0 ==> start + (len - 1) * step <= stop,
        len > 0 && step < 0 ==> start + (len - 1) * step >= stop,
    ensures
        steps_within(start, stop, step) == len,
{
    if len > 0 {
        assert((len - 1) * step * step >= 0) by (nonlinear_arith)
            requires
                len - 1 >= 0,
        ;
        if step > 0 {
            assert((len - 1) * step >= 0) by (nonlinear_arith)
                requires
                    len - 1 >= 0,
                    step > 0,
            ;
            let d = stop - start;
            vstd::arithmetic::div_mod::lemma_fundamental_div_mod(d, step);
            let q = d / step;
            assert(q == len - 1) by (nonlinear_arith)
                requires
                    d == step * q + d % step,
                    0 <= d % step < step,
                    (len - 1) * step <= d,
                    d < len * step,
                    step > 0,
            ;
        } else {
            assert((len - 1) * step <= 0) by (nonlinear_arith)
                requires
                    len - 1 >= 0,
                    step < 0,
            ;
            let d = start - stop;
            let s = -step;
            assert((len - 1) * s <= d && d < len * s) by (nonlinear_arith)
                requires
                    s == -step,
                    d == start - stop,
                    start + len * step < stop,
                    start + (len - 1) * step >= stop,
            ;
            vstd::arithmetic::div_mod::lemma_fundamental_div_mod(d, s);
            let q = d / s;
            assert(q == len - 1) by (nonlinear_arith)
                requires
                    d == s * q + d % s,
                    0 <= d % s < s,
                    (len - 1) * s <= d,
                    d < len * s,
                    s > 0,
            ;
        }
    } else {
        assert(len * step == 0);
    }
}

/// The angles `start`, `start + step`, ... up to `stop` (see [`stepped_angles`]).
fn stepped_angles_exec(start: i64, stop: i64, step: i64) -> (r: Vec<i64>)
    requires
        within_limit(start),
        within_limit(stop),
        within_limit(step),
        step != 0,
    ensures
        ints(r@) == stepped_angles(start as int, stop as int, step as int),
{
    let mut angles: Vec<i64> = Vec::new();
    let mut a: i64 = start;
    let bound: i64 = if step > 0 {
        stop + ANGLE_TOLERANCE
    } else {
        stop - ANGLE_TOLERANCE
    };
    proof {
        assert(angles@.len() * step == 0) by (nonlinear_arith)
            requires
                angles@.len() == 0,
        ;
    }
    if step > 0 {
        while a <= bound
            invariant
                bound == stop + ANGLE_TOLERANCE,
                within_limit(start),
                within_limit(stop),
                within_limit(step),
                step > 0,
                a == start + angles@.len() * step,
                forall|k: int|
                    0 <= k < angles@.len() ==> #[trigger] angles@[k] as int == start + k * step
                        && angles@[k] <= bound,
            decreases bound + step - a,
        {
            let ghost len = angles@.len();
            assert((len + 1) * step == len * step + step) by (nonlinear_arith);
            angles.push(a);
            a = a + step;
        }
    } else {
        while a >= bound
            invariant
                bound == stop - ANGLE_TOLERANCE,
                within_limit(start),
                within_limit(stop),
                within_limit(step),
                step < 0,
                a == start + angles@.len() * step,
                forall|k: int|
                    0 <= k < angles@.len() ==> #[trigger] angles@[k] as int == start + k * step
                        && angles@[k] >= bound,
            decreases a - bound - step,
        {
            let ghost len = angles@.len();
            assert((len + 1) * step == len * step + step) by (nonlinear_arith);
            angles.push(a);
            a = a + step;
        }
    }
    proof {
        let len = angles@.len() as int;
        if len > 0 {
            assert(angles@[len - 1] as int == start + (len - 1) * step);
        }
        lemma_stepped_count(start as int, bound as int, step as int, len);
        assert(ints(angles@) =~= stepped_angles(start as int, stop as int, step as int));
    }
    angles
}

} // verus!
