use vstd::prelude::*;

use crate::geom::{
    abs, diag_dir_of, dir_of, is_axis_aligned, trunc_div, vec_diag_dir, vec_dir,
    vec_is_axis_aligned, Axis, DiagDir, Dir, Point,
};
use crate::input::ButtonCode;

pub mod state_machine;

verus! {

/// Radius within which a finger must stay for a tap.
pub const TAP_JITTER_MM: u16 = 4;
/// Radius within which a finger must stay for a hold.
pub const HOLD_JITTER_MM: u16 = 2;
/// Time a finger or button must stay down for a short hold.
pub const HOLD_DELAY_SHORT_US: u64 = 666_000;
/// Time a finger or button must stay down for a long hold.
pub const HOLD_DELAY_LONG_US: u64 = 1_333_000;

/// Scale factor of a two-finger gesture, kept exact: the factor is
/// `sqrt(end_sq / start_sq)`, where `start_sq` and `end_sq` are the squared
/// distances between the two fingers when they went down and when they left.
#[derive(Debug, Copy, Clone, PartialEq, Eq, Structural)]
pub struct Scale {
    pub start_sq: u128,
    pub end_sq: u128,
}

impl Scale {
    /// The fingers came closer together: the factor is below one.
    pub open spec fn spec_shrinks(self) -> bool {
        self.end_sq < self.start_sq
    }

    pub fn shrinks(&self) -> (r: bool)
        ensures
            r == self.spec_shrinks(),
    {
        self.end_sq < self.start_sq
    }
}

/// The gestures that the engine recognises. `MultiSwipe`, `MultiArrow`,
/// `MultiCorner`, `Rotate`, `Cross` and `Diamond` are part of the vocabulary
/// but no rule produces them yet.
#[derive(Debug, Copy, Clone, PartialEq, Eq)]
pub enum GestureEvent {
    Tap(Point),
    MultiTap([Point; 2]),
    Movement { start: Point, end: Point },
    MovementEnded,
    Swipe { dir: Dir, start: Point, end: Point },
    SlantedSwipe { dir: DiagDir, start: Point, end: Point },
    MultiSwipe { dir: Dir, starts: [Point; 2], ends: [Point; 2] },
    Arrow { dir: Dir, start: Point, end: Point },
    MultiArrow { dir: Dir, starts: [Point; 2], ends: [Point; 2] },
    Corner { dir: DiagDir, start: Point, end: Point },
    MultiCorner { dir: DiagDir, starts: [Point; 2], ends: [Point; 2] },
    Pinch { axis: Axis, center: Point, factor: Scale },
    Spread { axis: Axis, center: Point, factor: Scale },
    /// `angle` is in degrees.
    Rotate { center: Point, quarter_turns: i8, angle: i32 },
    Cross(Point),
    Diamond(Point),
    HoldFingerShort(Point, i32),
    HoldFingerLong(Point, i32),
    HoldButtonShort(ButtonCode),
    HoldButtonLong(ButtonCode),
}

/// Sum of the `x` coordinates of the samples of even index among the first `n`.
pub open spec fn even_sum_x(s: Seq<Point>, n: int) -> int
    decreases n,
{
    if n <= 0 {
        0
    } else {
        even_sum_x(s, n - 1) + if (n - 1) % 2 == 0 {
            s[n - 1].x as int
        } else {
            0
        }
    }
}

/// Sum of the `y` coordinates of the samples of even index among the first `n`.
pub open spec fn even_sum_y(s: Seq<Point>, n: int) -> int
    decreases n,
{
    if n <= 0 {
        0
    } else {
        even_sum_y(s, n - 1) + if (n - 1) % 2 == 0 {
            s[n - 1].y as int
        } else {
            0
        }
    }
}

/// Number of samples of even index in a sequence of `n`.
pub open spec fn even_count(n: int) -> int {
    (n + 1) / 2
}

/// Average `x` of every second sample, starting with the first, rounded towards zero.
pub open spec fn even_avg_x(s: Seq<Point>) -> int {
    trunc_div(even_sum_x(s, s.len() as int), even_count(s.len() as int))
}

/// Average `y` of every second sample, starting with the first, rounded towards zero.
pub open spec fn even_avg_y(s: Seq<Point>) -> int {
    trunc_div(even_sum_y(s, s.len() as int), even_count(s.len() as int))
}

/// A trajectory stays within a jitter radius of `r` pixels when the average of
/// every second sample lies within `r` of the first sample on both axes.
pub open spec fn spec_within_jitter(s: Seq<Point>, r: int) -> bool {
    &&& abs(even_avg_x(s) - s[0].x) <= r
    &&& abs(even_avg_y(s) - s[0].y) <= r
}

/// Bound on the magnitude of a coordinate.
pub const COORD: i128 = 0x8000_0000;

proof fn lemma_even_sums_bounded(s: Seq<Point>, n: int)
    requires
        0 <= n <= s.len(),
    ensures
        abs(even_sum_x(s, n)) <= even_count(n) * COORD,
        abs(even_sum_y(s, n)) <= even_count(n) * COORD,
        even_count(n) <= n,
    decreases n,
{
    if n > 0 {
        lemma_even_sums_bounded(s, n - 1);
    }
}

/// `a / b` rounded towards zero, for a positive `b`.
fn trunc_div_i128(a: i128, b: i128) -> (r: i128)
    requires
        b > 0,
        abs(a as int) < 0x1_0000_0000_0000_0000_0000_0000_0000,
    ensures
        r == trunc_div(a as int, b as int),
        abs(r as int) <= abs(a as int),
{
    if a >= 0 {
        ((a as u128) / (b as u128)) as i128
    } else {
        let m = ((-a) as u128) / (b as u128);
        -(m as i128)
    }
}

/// Sums of the coordinates of every second sample, starting with the first.
fn even_sums(s: &[Point]) -> (r: (i128, i128))
    ensures
        r.0 == even_sum_x(s@, s@.len() as int),
        r.1 == even_sum_y(s@, s@.len() as int),
        abs(r.0 as int) <= s@.len() * COORD,
        abs(r.1 as int) <= s@.len() * COORD,
{
    let n = s.len();
    let mut sx: i128 = 0;
    let mut sy: i128 = 0;
    let mut i: usize = 0;
    while i < n
        invariant
            n == s@.len(),
            i <= n,
            sx == even_sum_x(s@, i as int),
            sy == even_sum_y(s@, i as int),
        decreases n - i,
    {
        proof {
            lemma_even_sums_bounded(s@, i as int);
            lemma_even_sums_bounded(s@, i as int + 1);
        }
        if i % 2 == 0 {
            sx = sx + s[i].x as i128;
            sy = sy + s[i].y as i128;
        }
        i = i + 1;
    }
    proof {
        lemma_even_sums_bounded(s@, n as int);
    }
    (sx, sy)
}

/// Whether the trajectory `points` stays within `jitter_px` pixels of its first sample.
pub fn is_within_jitter(points: &[Point], jitter_px: u32) -> (r: bool)
    requires
        points@.len() >= 1,
    ensures
        r == spec_within_jitter(points@, jitter_px as int),
{
    let n = points.len();
    let k: i128 = ((n as i128) + 1) / 2;
    let (sx, sy) = even_sums(points);
    assert(n * COORD < 0x1_0000_0000_0000_0000_0000_0000_0000) by (nonlinear_arith)
        requires
            n <= usize::MAX,
    ;
    let ax = trunc_div_i128(sx, k);
    let ay = trunc_div_i128(sy, k);
    let dx = ax - points[0].x as i128;
    let dy = ay - points[0].y as i128;
    let r = jitter_px as i128;
    (-r <= dx && dx <= r) && (-r <= dy && dy <= r)
}

/// Sum of the squared deviations from `avg` of the `x` coordinates of the
/// samples of even index among the first `n`.
pub open spec fn even_sq_dev_x(s: Seq<Point>, n: int, avg: int) -> int
    decreases n,
{
    if n <= 0 {
        0
    } else {
        even_sq_dev_x(s, n - 1, avg) + if (n - 1) % 2 == 0 {
            (s[n - 1].x - avg) * (s[n - 1].x - avg)
        } else {
            0
        }
    }
}

pub open spec fn even_sq_dev_y(s: Seq<Point>, n: int, avg: int) -> int
    decreases n,
{
    if n <= 0 {
        0
    } else {
        even_sq_dev_y(s, n - 1, avg) + if (n - 1) % 2 == 0 {
            (s[n - 1].y - avg) * (s[n - 1].y - avg)
        } else {
            0
        }
    }
}

/// Variance of the `x` coordinates of every second sample, starting with the first.
pub open spec fn spec_var_x(s: Seq<Point>) -> int {
    even_sq_dev_x(s, s.len() as int, even_avg_x(s)) / even_count(s.len() as int)
}

/// Variance of the `y` coordinates of every second sample, starting with the first.
pub open spec fn spec_var_y(s: Seq<Point>) -> int {
    even_sq_dev_y(s, s.len() as int, even_avg_y(s)) / even_count(s.len() as int)
}

proof fn lemma_avg_bounded(sum: int, k: int)
    requires
        k > 0,
        abs(sum) <= k * COORD,
    ensures
        abs(trunc_div(sum, k)) <= COORD,
{
    if sum >= 0 {
        assert(sum / k <= COORD) by (nonlinear_arith)
            requires
                k > 0,
                0 <= sum <= k * COORD,
        ;
        assert(sum / k >= 0) by (nonlinear_arith)
            requires
                k > 0,
                0 <= sum,
        ;
    } else {
        assert((-sum) / k <= COORD) by (nonlinear_arith)
            requires
                k > 0,
                0 <= -sum <= k * COORD,
        ;
        assert((-sum) / k >= 0) by (nonlinear_arith)
            requires
                k > 0,
                0 <= -sum,
        ;
    }
}

proof fn lemma_sq_bound(v: int)
    requires
        abs(v) <= 2 * COORD,
    ensures
        0 <= v * v <= 4 * COORD * COORD,
{
    assert(0 <= v * v <= 4 * COORD * COORD) by (nonlinear_arith)
        requires
            abs(v) <= 2 * COORD,
            abs(v) == if v < 0 {
                -v
            } else {
                v
            },
    ;
}

/// Sums of squared deviations of every second sample from `(avg_x, avg_y)`.
fn even_sq_devs(s: &[Point], avg_x: i128, avg_y: i128) -> (r: (i128, i128))
    requires
        abs(avg_x as int) <= COORD,
        abs(avg_y as int) <= COORD,
        s@.len() <= i32::MAX,
    ensures
        r.0 == even_sq_dev_x(s@, s@.len() as int, avg_x as int),
        r.1 == even_sq_dev_y(s@, s@.len() as int, avg_y as int),
        r.0 >= 0,
        r.1 >= 0,
{
    let n = s.len();
    let mut vx: i128 = 0;
    let mut vy: i128 = 0;
    let mut i: usize = 0;
    while i < n
        invariant
            n == s@.len(),
            n <= i32::MAX,
            i <= n,
            abs(avg_x as int) <= COORD,
            abs(avg_y as int) <= COORD,
            vx == even_sq_dev_x(s@, i as int, avg_x as int),
            vy == even_sq_dev_y(s@, i as int, avg_y as int),
            0 <= vx <= i * 0x1_0000_0000_0000_0000,
            0 <= vy <= i * 0x1_0000_0000_0000_0000,
        decreases n - i,
    {
        if i % 2 == 0 {
            let dx = s[i].x as i128 - avg_x;
            let dy = s[i].y as i128 - avg_y;
            proof {
                lemma_sq_bound(dx as int);
                lemma_sq_bound(dy as int);
                assert(i * 0x1_0000_0000_0000_0000 <= 0x8000_0000 * 0x1_0000_0000_0000_0000) by (nonlinear_arith)
                    requires
                        i <= 0x8000_0000,
                ;
            }
            vx = vx + dx * dx;
            vy = vy + dy * dy;
        }
        i = i + 1;
    }
    (vx, vy)
}

/// Variance of the `x` and of the `y` coordinates of every second sample.
pub fn x_y_variance(segs: &[Point]) -> (r: (i32, i32))
    requires
        1 <= segs@.len() <= i32::MAX,
        spec_var_x(segs@) <= i32::MAX,
        spec_var_y(segs@) <= i32::MAX,
    ensures
        r.0 == spec_var_x(segs@),
        r.1 == spec_var_y(segs@),
{
    let n = segs.len();
    let k: i128 = ((n as i128) + 1) / 2;
    let (sx, sy) = even_sums(segs);
    proof {
        lemma_even_sums_bounded(segs@, n as int);
        lemma_avg_bounded(sx as int, k as int);
        lemma_avg_bounded(sy as int, k as int);
    }
    let avg_x = trunc_div_i128(sx, k);
    let avg_y = trunc_div_i128(sy, k);
    let (vx, vy) = even_sq_devs(segs, avg_x, avg_y);
    ((vx / k) as i32, (vy / k) as i32)
}

/// `r` is the integer square root of `n`.
pub open spec fn is_isqrt(n: int, r: int) -> bool {
    0 <= r && r * r <= n < (r + 1) * (r + 1)
}

/// Integer square root of a non-negative `n`.
pub open spec fn isqrt(n: int) -> int {
    choose|r: int| is_isqrt(n, r)
}

proof fn lemma_isqrt_unique(n: int, r: int)
    requires
        is_isqrt(n, r),
    ensures
        isqrt(n) == r,
{
    let q = isqrt(n);
    assert(is_isqrt(n, q));
    if q < r {
        assert((q + 1) * (q + 1) <= r * r) by (nonlinear_arith)
            requires
                0 <= q < r,
        ;
    } else if r < q {
        assert((r + 1) * (r + 1) <= q * q) by (nonlinear_arith)
            requires
                0 <= r < q,
        ;
    }
}

/// Integer square root, for `n < 2^64`.
fn isqrt_u128(n: u128) -> (r: u128)
    requires
        n < 0x1_0000_0000_0000_0000,
    ensures
        r == isqrt(n as int),
        r < 0x1_0000_0000,
{
    let mut lo: u128 = 0;
    let mut hi: u128 = 0x1_0000_0000;
    while hi - lo > 1
        invariant
            lo < hi <= 0x1_0000_0000,
            lo * lo <= n,
            n < hi * hi,
        decreases hi - lo,
    {
        let mid = lo + (hi - lo) / 2;
        assert(mid * mid <= 0x1_0000_0000 * 0x1_0000_0000) by (nonlinear_arith)
            requires
                mid <= 0x1_0000_0000,
        ;
        if mid * mid <= n {
            lo = mid;
        } else {
            hi = mid;
        }
    }
    proof {
        assert(hi == lo + 1);
        lemma_isqrt_unique(n as int, lo as int);
    }
    lo
}

/// Distance of a point from the origin, rounded down, saturated to `i32::MAX`.
pub open spec fn point_len(p: Point) -> int {
    let l = isqrt(p.x * p.x + p.y * p.y);
    if l > i32::MAX {
        i32::MAX as int
    } else {
        l
    }
}

/// Sum of the distances from the origin of the first `n` samples.
pub open spec fn len_sum(s: Seq<Point>, n: int) -> int
    decreases n,
{
    if n <= 0 {
        0
    } else {
        len_sum(s, n - 1) + point_len(s[n - 1])
    }
}

/// Sum of the squared deviations from `avg` of the distances of the first `n` samples.
pub open spec fn len_sq_dev(s: Seq<Point>, n: int, avg: int) -> int
    decreases n,
{
    if n <= 0 {
        0
    } else {
        len_sq_dev(s, n - 1, avg) + (point_len(s[n - 1]) - avg) * (point_len(s[n - 1]) - avg)
    }
}

/// Variance of the distances of the samples from the origin.
pub open spec fn spec_abs_variance(s: Seq<Point>) -> int {
    let avg = len_sum(s, s.len() as int) / (s.len() as int);
    len_sq_dev(s, s.len() as int, avg) / (s.len() as int)
}

fn point_len_of(p: Point) -> (r: i128)
    ensures
        r == point_len(p),
        0 <= r <= i32::MAX,
{
    let x = p.x as i64;
    let y = p.y as i64;
    let n = len_sq(x, y);
    assert(x * x <= 0x4000_0000_0000_0000 && y * y <= 0x4000_0000_0000_0000) by (nonlinear_arith)
        requires
            -0x8000_0000 <= x <= 0x8000_0000,
            -0x8000_0000 <= y <= 0x8000_0000,
    ;
    let l = isqrt_u128(n as u128);
    if l > i32::MAX as u128 {
        i32::MAX as i128
    } else {
        l as i128
    }
}

/// Variance of the distances of the samples from the origin.
pub fn abs_variance(segs: &[Point]) -> (r: i32)
    requires
        1 <= segs@.len() <= i32::MAX,
        spec_abs_variance(segs@) <= i32::MAX,
    ensures
        r == spec_abs_variance(segs@),
{
    let n = segs.len();
    let mut sum: i128 = 0;
    let mut i: usize = 0;
    while i < n
        invariant
            n == segs@.len(),
            n <= i32::MAX,
            i <= n,
            sum == len_sum(segs@, i as int),
            0 <= sum <= i * 0x8000_0000,
        decreases n - i,
    {
        sum = sum + point_len_of(segs[i]);
        i = i + 1;
    }
    let avg = sum / (n as i128);
    assert(avg <= 0x8000_0000) by (nonlinear_arith)
        requires
            avg == sum / (n as i128),
            n >= 1,
            0 <= sum <= n * 0x8000_0000,
    ;
    assert(avg >= 0) by (nonlinear_arith)
        requires
            avg == sum / (n as i128),
            n >= 1,
            0 <= sum,
    ;
    let mut var: i128 = 0;
    let mut j: usize = 0;
    while j < n
        invariant
            n == segs@.len(),
            n <= i32::MAX,
            j <= n,
            0 <= avg <= 0x8000_0000,
            var == len_sq_dev(segs@, j as int, avg as int),
            0 <= var <= j * 0x1_0000_0000_0000_0000,
        decreases n - j,
    {
        let d = point_len_of(segs[j]) - avg;
        proof {
            lemma_sq_bound(d as int);
            assert(j * 0x1_0000_0000_0000_0000 <= 0x8000_0000 * 0x1_0000_0000_0000_0000) by (nonlinear_arith)
                requires
                    j <= 0x8000_0000,
            ;
        }
        var = var + d * d;
        j = j + 1;
    }
    (var / (n as i128)) as i32
}

/// Bound on a coordinate difference of two points.
pub const DIFF: i128 = 0x1_0000_0000;

/// Displacement from the first to the last sample of a trajectory.
pub open spec fn seg_dx(sp: Seq<Point>) -> int {
    sp.last().x - sp[0].x
}

pub open spec fn seg_dy(sp: Seq<Point>) -> int {
    sp.last().y - sp[0].y
}

/// Squared length of the displacement `ab`.
pub open spec fn seg_len_sq(sp: Seq<Point>) -> int {
    seg_dx(sp) * seg_dx(sp) + seg_dy(sp) * seg_dy(sp)
}

/// Cross product of `ab` with `ap`: `|ab|` times the signed distance of `p`
/// from the line through `a` and `b`.
pub open spec fn seg_cross(sp: Seq<Point>, p: Point) -> int {
    seg_dx(sp) * (p.y - sp[0].y) - seg_dy(sp) * (p.x - sp[0].x)
}

/// How far `p` lies from the line `a-b`, in a measure that grows with the
/// perpendicular distance: `|ab|` times that distance, or, when `a == b`,
/// the squared distance from `a`.
pub open spec fn deviation(sp: Seq<Point>, p: Point) -> int {
    if seg_len_sq(sp) > 0 {
        abs(seg_cross(sp, p))
    } else {
        (p.x - sp[0].x) * (p.x - sp[0].x) + (p.y - sp[0].y) * (p.y - sp[0].y)
    }
}

/// Index of the first sample among the first `n` that lies farthest from the line `a-b`.
pub open spec fn elbow_upto(sp: Seq<Point>, n: int) -> int
    decreases n,
{
    if n <= 1 {
        0
    } else {
        let i = elbow_upto(sp, n - 1);
        if deviation(sp, sp[n - 1]) > deviation(sp, sp[i]) {
            n - 1
        } else {
            i
        }
    }
}

/// The elbow of a trajectory: its first sample of maximal distance from the line `a-b`.
pub open spec fn spec_elbow(sp: Seq<Point>) -> int {
    elbow_upto(sp, sp.len() as int)
}

/// A vector along the perpendicular offset `np` from the nearest point `n`
/// of the line `a-b` to the elbow `p`: `np` scaled by `|ab|^2`, or `ap` itself when `a == b`.
pub open spec fn offset_x(sp: Seq<Point>) -> int {
    let p = sp[spec_elbow(sp)];
    if seg_len_sq(sp) > 0 {
        -(seg_cross(sp, p) * seg_dy(sp))
    } else {
        p.x - sp[0].x
    }
}

pub open spec fn offset_y(sp: Seq<Point>) -> int {
    let p = sp[spec_elbow(sp)];
    if seg_len_sq(sp) > 0 {
        seg_cross(sp, p) * seg_dx(sp)
    } else {
        p.y - sp[0].y
    }
}

/// The trajectory bends: `|np| > |ab| / 5`. With `|np| = |cross| / |ab|`
/// this reads `5 |cross| > |ab|^2`.
pub open spec fn is_angular(sp: Seq<Point>) -> bool {
    let p = sp[spec_elbow(sp)];
    if seg_len_sq(sp) > 0 {
        5 * abs(seg_cross(sp, p)) > seg_len_sq(sp)
    } else {
        p != sp[0]
    }
}

/// Classification of a single finger's trajectory.
pub open spec fn spec_interpret_segment(sp: Seq<Point>) -> GestureEvent {
    let a = sp[0];
    let b = sp.last();
    if is_angular(sp) {
        if is_axis_aligned(offset_x(sp), offset_y(sp)) {
            GestureEvent::Arrow { dir: dir_of(offset_x(sp), offset_y(sp)), start: a, end: b }
        } else {
            GestureEvent::Corner { dir: diag_dir_of(offset_x(sp), offset_y(sp)), start: a, end: b }
        }
    } else {
        if is_axis_aligned(seg_dx(sp), seg_dy(sp)) {
            GestureEvent::Swipe { dir: dir_of(seg_dx(sp), seg_dy(sp)), start: a, end: b }
        } else {
            GestureEvent::SlantedSwipe { dir: diag_dir_of(seg_dx(sp), seg_dy(sp)), start: a, end: b }
        }
    }
}

/// A trajectory whose elbow lies exactly a fifth of `|ab|` away from the line
/// `a-b` is linear: the tie goes to a swipe or a slanted swipe.
pub proof fn lemma_fifth_offset_is_linear(sp: Seq<Point>)
    requires
        sp.len() >= 1,
        seg_len_sq(sp) > 0,
        5 * abs(seg_cross(sp, sp[spec_elbow(sp)])) == seg_len_sq(sp),
    ensures
        spec_interpret_segment(sp) is Swipe || spec_interpret_segment(sp) is SlantedSwipe,
{
}

proof fn lemma_mul_diff_bound(a: int, b: int)
    requires
        abs(a) <= DIFF,
        abs(b) <= DIFF,
    ensures
        abs(a * b) <= DIFF * DIFF,
{
    assert(abs(a * b) == abs(a) * abs(b)) by (nonlinear_arith);
    assert(abs(a) * abs(b) <= DIFF * DIFF) by (nonlinear_arith)
        requires
            0 <= abs(a) <= DIFF,
            0 <= abs(b) <= DIFF,
    ;
}

proof fn lemma_cross_scaled_bound(c: int, d: int)
    requires
        abs(c) <= 2 * DIFF * DIFF,
        abs(d) <= DIFF,
    ensures
        abs(c * d) <= 2 * DIFF * DIFF * DIFF,
{
    assert(abs(c * d) == abs(c) * abs(d)) by (nonlinear_arith);
    assert(abs(c) * abs(d) <= (2 * DIFF * DIFF) * DIFF) by (nonlinear_arith)
        requires
            0 <= abs(c) <= 2 * DIFF * DIFF,
            0 <= abs(d) <= DIFF,
    ;
}

/// `x * y - z * w` for coordinate differences.
fn cross_diff(x: i64, y: i64, z: i64, w: i64) -> (r: i128)
    requires
        abs(x as int) <= DIFF,
        abs(y as int) <= DIFF,
        abs(z as int) <= DIFF,
        abs(w as int) <= DIFF,
    ensures
        r == x * y - z * w,
        abs(r as int) <= 2 * DIFF * DIFF,
{
    proof {
        lemma_mul_diff_bound(x as int, y as int);
        lemma_mul_diff_bound(z as int, w as int);
    }
    (x as i128) * (y as i128) - (z as i128) * (w as i128)
}

/// `x * x + y * y` for coordinate differences.
fn len_sq(x: i64, y: i64) -> (r: i128)
    requires
        abs(x as int) <= DIFF,
        abs(y as int) <= DIFF,
    ensures
        r == x * x + y * y,
        0 <= r <= 2 * DIFF * DIFF,
{
    proof {
        lemma_mul_diff_bound(x as int, x as int);
        lemma_mul_diff_bound(y as int, y as int);
        assert(x * x >= 0 && y * y >= 0) by (nonlinear_arith);
    }
    (x as i128) * (x as i128) + (y as i128) * (y as i128)
}

/// Deviation of `p` from the line `a-b`, as `deviation` measures it.
fn deviation_of(a: Point, b: Point, p: Point) -> (r: i128)
    ensures
        r == deviation(seq![a, b], p),
        0 <= r <= 2 * DIFF * DIFF,
{
    let dx = b.x as i64 - a.x as i64;
    let dy = b.y as i64 - a.y as i64;
    let px = p.x as i64 - a.x as i64;
    let py = p.y as i64 - a.y as i64;
    let l = len_sq(dx, dy);
    if l > 0 {
        let c = cross_diff(dx, py, dy, px);
        if c < 0 {
            -c
        } else {
            c
        }
    } else {
        len_sq(px, py)
    }
}

proof fn lemma_deviation_ends(sp: Seq<Point>, p: Point)
    requires
        sp.len() >= 1,
    ensures
        deviation(sp, p) == deviation(seq![sp[0], sp.last()], p),
{
    let t = seq![sp[0], sp.last()];
    assert(t[0] == sp[0] && t.last() == sp.last());
}

/// Index of the elbow of the trajectory `sp`: its first sample farthest from
/// the line through its first and last samples.
pub fn elbow(sp: &[Point]) -> (r: usize)
    requires
        sp@.len() >= 1,
    ensures
        r == spec_elbow(sp@),
        r < sp@.len(),
{
    let n = sp.len();
    let a = sp[0];
    let b = sp[n - 1];
    let mut best: usize = 0;
    let mut best_dev = deviation_of(a, b, sp[0]);
    proof {
        lemma_deviation_ends(sp@, sp@[0]);
    }
    let mut i: usize = 1;
    while i < n
        invariant
            n == sp@.len(),
            1 <= i <= n,
            a == sp@[0],
            b == sp@.last(),
            best == elbow_upto(sp@, i as int),
            best < i,
            best_dev == deviation(sp@, sp@[best as int]),
        decreases n - i,
    {
        let d = deviation_of(a, b, sp[i]);
        proof {
            lemma_deviation_ends(sp@, sp@[i as int]);
        }
        if d > best_dev {
            best = i;
            best_dev = d;
        }
        i = i + 1;
    }
    best
}

/// Classifies a single finger's trajectory as a swipe, a slanted swipe, an
/// arrow or a corner.
pub fn interpret_segment(sp: &[Point]) -> (r: GestureEvent)
    requires
        sp@.len() >= 1,
    ensures
        r == spec_interpret_segment(sp@),
{
    let n = sp.len();
    let a = sp[0];
    let b = sp[n - 1];
    let p = sp[elbow(sp)];
    let dx = b.x as i64 - a.x as i64;
    let dy = b.y as i64 - a.y as i64;
    let px = p.x as i64 - a.x as i64;
    let py = p.y as i64 - a.y as i64;
    let l = len_sq(dx, dy);
    let (wx, wy, angular): (i128, i128, bool) = if l > 0 {
        let c = cross_diff(dx, py, dy, px);
        proof {
            lemma_cross_scaled_bound(c as int, dy as int);
            lemma_cross_scaled_bound(c as int, dx as int);
        }
        let ac = if c < 0 {
            -c
        } else {
            c
        };
        (-(c * (dy as i128)), c * (dx as i128), 5 * ac > l)
    } else {
        (px as i128, py as i128, px != 0 || py != 0)
    };
    if angular {
        if vec_is_axis_aligned(wx, wy) {
            GestureEvent::Arrow { dir: vec_dir(wx, wy), start: a, end: b }
        } else {
            GestureEvent::Corner { dir: vec_diag_dir(wx, wy), start: a, end: b }
        }
    } else {
        let vx = dx as i128;
        let vy = dy as i128;
        if vec_is_axis_aligned(vx, vy) {
            GestureEvent::Swipe { dir: vec_dir(vx, vy), start: a, end: b }
        } else {
            GestureEvent::SlantedSwipe { dir: vec_diag_dir(vx, vy), start: a, end: b }
        }
    }
}

/// Squared distance between two points.
pub open spec fn dist_sq(p: Point, q: Point) -> int {
    (q.x - p.x) * (q.x - p.x) + (q.y - p.y) * (q.y - p.y)
}

/// Midpoint of two points, each coordinate rounded towards zero.
pub open spec fn midpoint(p: Point, q: Point) -> Point {
    Point { x: trunc_div(p.x + q.x, 2) as i32, y: trunc_div(p.y + q.y, 2) as i32 }
}

/// A pinch when the fingers came closer, a spread otherwise.
pub open spec fn spec_pinch_or_spread(axis: Axis, s1: Point, e1: Point, s2: Point, e2: Point) -> GestureEvent {
    let center = midpoint(s1, s2);
    let factor = Scale { start_sq: dist_sq(s1, s2) as u128, end_sq: dist_sq(e1, e2) as u128 };
    if factor.spec_shrinks() {
        GestureEvent::Pinch { axis, center, factor }
    } else {
        GestureEvent::Spread { axis, center, factor }
    }
}

/// Combination of the classifications of two simultaneous trajectories: two
/// swipes, or two slanted swipes, in opposite directions make a pinch or a spread.
pub open spec fn spec_double_gesture(g1: GestureEvent, g2: GestureEvent) -> Option<GestureEvent> {
    match (g1, g2) {
        (
            GestureEvent::Swipe { dir: d1, start: s1, end: e1 },
            GestureEvent::Swipe { dir: d2, start: s2, end: e2 },
        ) => if d2 == d1.spec_opposite() {
            Some(spec_pinch_or_spread(d1.spec_axis(), s1, e1, s2, e2))
        } else {
            None
        },
        (
            GestureEvent::SlantedSwipe { dir: d1, start: s1, end: e1 },
            GestureEvent::SlantedSwipe { dir: d2, start: s2, end: e2 },
        ) => if d2 == d1.spec_opposite() {
            Some(spec_pinch_or_spread(Axis::Diagonal, s1, e1, s2, e2))
        } else {
            None
        },
        _ => None,
    }
}

fn half_trunc(a: i32, b: i32) -> (r: i32)
    ensures
        r == trunc_div(a + b, 2),
{
    let s: i64 = a as i64 + b as i64;
    if s >= 0 {
        ((s as u64) / 2) as i32
    } else {
        let m: u64 = ((-s) as u64) / 2;
        -(m as i64) as i32
    }
}

fn dist_sq_of(p: Point, q: Point) -> (r: u128)
    ensures
        r == dist_sq(p, q),
{
    let dx = q.x as i64 - p.x as i64;
    let dy = q.y as i64 - p.y as i64;
    len_sq(dx, dy) as u128
}

fn pinch_or_spread(axis: Axis, s1: Point, e1: Point, s2: Point, e2: Point) -> (r: GestureEvent)
    ensures
        r == spec_pinch_or_spread(axis, s1, e1, s2, e2),
{
    let center = Point { x: half_trunc(s1.x, s2.x), y: half_trunc(s1.y, s2.y) };
    let factor = Scale { start_sq: dist_sq_of(s1, s2), end_sq: dist_sq_of(e1, e2) };
    if factor.shrinks() {
        GestureEvent::Pinch { axis, center, factor }
    } else {
        GestureEvent::Spread { axis, center, factor }
    }
}

/// Classifies two simultaneous trajectories as a pinch or a spread, if they make one.
pub fn interpret_double_gesture(f1_pos: &[Point], f2_pos: &[Point]) -> (r: Option<GestureEvent>)
    requires
        f1_pos@.len() >= 1,
        f2_pos@.len() >= 1,
    ensures
        r == spec_double_gesture(spec_interpret_segment(f1_pos@), spec_interpret_segment(f2_pos@)),
{
    let g1 = interpret_segment(f1_pos);
    let g2 = interpret_segment(f2_pos);
    match (g1, g2) {
        (
            GestureEvent::Swipe { dir: d1, start: s1, end: e1 },
            GestureEvent::Swipe { dir: d2, start: s2, end: e2 },
        ) => {
            if d2 == d1.opposite() {
                Some(pinch_or_spread(d1.axis(), s1, e1, s2, e2))
            } else {
                None
            }
        },
        (
            GestureEvent::SlantedSwipe { dir: d1, start: s1, end: e1 },
            GestureEvent::SlantedSwipe { dir: d2, start: s2, end: e2 },
        ) => {
            if d2 == d1.opposite() {
                Some(pinch_or_spread(Axis::Diagonal, s1, e1, s2, e2))
            } else {
                None
            }
        },
        _ => None,
    }
}

} // verus!
