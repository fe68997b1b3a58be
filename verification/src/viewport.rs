//! The complex-plane window and its transforms.
//!
//! Bounds are scaled integers: a numerator `n` stands for the coordinate
//! `n / SCALE`, with one fixed power-of-ten scale for the whole crate.
//! Every transform shifts or shrinks by a tenth of the current span, so
//! each update is one truncated division: the contracts pin the rounded
//! result exactly (through `trunc_div`), state that it lies within one
//! rounding unit of the exact rational, and give the exact rational
//! reading whenever the division leaves no remainder. The representation
//! never grows — repeated pans, zooms and scrolls stay within the same
//! caps until the window itself travels to astronomically large
//! coordinates.

use vstd::prelude::*;

use crate::rat::{
    div_trunc, lemma_abs_mul_bound, lemma_trunc_div_props, rat, rat_add, rat_div10, rat_eq,
    rat_int, rat_mul, rat_sub, trunc_div, Frac, Rat,
};

verus! {

/// One coordinate unit is `1 / SCALE`: bound numerators are coordinates
/// times this scale.
pub const SCALE: i128 = 1_000_000_000_000_000;

/// Magnitude cap on the four numerators for a transform to be applicable
/// without overflowing `i128` (coordinates up to ten trillion plane
/// units).
pub const NUM_CAP: i128 = 10_000_000_000_000_000_000_000_000_000;

/// Magnitude cap on a scroll argument's numerator.
pub const ARG_NUM_CAP: i128 = 1_000_000_000;

/// Cap on a scroll argument's denominator.
pub const ARG_DEN_CAP: i128 = 1_000_000;

/// Iteration cap used for the snowflakes function, which saturates
/// visually at higher caps.
pub const SNOWFLAKES_CAP: u32 = 27;

/// Iteration cap used for every other function.
pub const DEFAULT_CAP: u32 = 1024;

/// The Julia-set function selector.
#[derive(Clone, Copy, PartialEq, Eq, Structural, Debug)]
pub enum JuliaFunction {
    Classic,
    Cloud,
    Snowflakes,
}

/// The color-map selector.
#[derive(Clone, Copy, PartialEq, Eq, Structural, Debug)]
pub enum ColorScheme {
    Turbo,
    Grayscale,
    Inferno,
}

/// The colorize pass selector, derived from the function selector alone.
#[derive(Clone, Copy, PartialEq, Eq, Structural, Debug)]
pub enum Colorizer {
    Standard,
    Cloud,
    Snowflakes,
}

pub open spec fn spec_colorizer(f: JuliaFunction) -> Colorizer {
    match f {
        JuliaFunction::Cloud => Colorizer::Cloud,
        JuliaFunction::Snowflakes => Colorizer::Snowflakes,
        JuliaFunction::Classic => Colorizer::Standard,
    }
}

/// The colorize selector that belongs to a function selector.
pub fn colorizer_for(f: JuliaFunction) -> (r: Colorizer)
    ensures
        r == spec_colorizer(f),
{
    match f {
        JuliaFunction::Cloud => Colorizer::Cloud,
        JuliaFunction::Snowflakes => Colorizer::Snowflakes,
        JuliaFunction::Classic => Colorizer::Standard,
    }
}

pub open spec fn spec_iteration_cap(f: JuliaFunction) -> u32 {
    if f == JuliaFunction::Snowflakes {
        SNOWFLAKES_CAP
    } else {
        DEFAULT_CAP
    }
}

/// The iteration cap that belongs to a function selector.
pub fn iteration_cap(f: JuliaFunction) -> (r: u32)
    ensures
        r == spec_iteration_cap(f),
{
    match f {
        JuliaFunction::Snowflakes => SNOWFLAKES_CAP,
        _ => DEFAULT_CAP,
    }
}

/// The mutable viewer state: plane bounds, pixel dimensions, iteration
/// cap, shading thresholds and the three selectors.
pub struct Viewport {
    pub x_min_num: i128,
    pub x_max_num: i128,
    pub y_min_num: i128,
    pub y_max_num: i128,
    pub width: u32,
    pub height: u32,
    pub max_iterations: u32,
    pub ranges: [u32; 4],
    pub ranges_2: [u32; 4],
    pub color_scheme: ColorScheme,
    pub julia_function: JuliaFunction,
    pub is_mandelbrot: bool,
}

/// A scroll argument small enough for the exact-and-rounded update.
pub open spec fn frac_in_range(f: Frac) -> bool {
    0 < f.den <= ARG_DEN_CAP && -ARG_NUM_CAP <= f.num <= ARG_NUM_CAP
}

/// The rounded shift of one `scroll` call on one axis: `x` tenths of the
/// span, truncated toward zero to the representation's unit.
pub open spec fn scroll_shift(x: Frac, span: int) -> int {
    trunc_div(x.num * span, 10 * x.den)
}

/// The exact relation of one `scroll(x, y)` call: both bounds of an axis
/// move by the same rounded shift.
pub open spec fn scrolled(pre: Viewport, x: Frac, y: Frac, post: Viewport) -> bool {
    &&& post.x_min_num == pre.x_min_num + scroll_shift(x, pre.x_max_num - pre.x_min_num)
    &&& post.x_max_num == pre.x_max_num + scroll_shift(x, pre.x_max_num - pre.x_min_num)
    &&& post.y_min_num == pre.y_min_num + scroll_shift(y, pre.y_max_num - pre.y_min_num)
    &&& post.y_max_num == pre.y_max_num + scroll_shift(y, pre.y_max_num - pre.y_min_num)
}

/// The exact relation of one `zoom_in` call: both bounds of each axis
/// move inward by a tenth of that axis' span, truncated to the unit.
pub open spec fn zoomed_in(pre: Viewport, post: Viewport) -> bool {
    &&& post.x_min_num == pre.x_min_num + trunc_div(pre.x_max_num - pre.x_min_num, 10)
    &&& post.x_max_num == pre.x_max_num - trunc_div(pre.x_max_num - pre.x_min_num, 10)
    &&& post.y_min_num == pre.y_min_num + trunc_div(pre.y_max_num - pre.y_min_num, 10)
    &&& post.y_max_num == pre.y_max_num - trunc_div(pre.y_max_num - pre.y_min_num, 10)
}

/// The exact relation of one `zoom_out` call: both bounds of each axis
/// move outward by a tenth of that axis' span, truncated to the unit.
pub open spec fn zoomed_out(pre: Viewport, post: Viewport) -> bool {
    &&& post.x_min_num == pre.x_min_num - trunc_div(pre.x_max_num - pre.x_min_num, 10)
    &&& post.x_max_num == pre.x_max_num + trunc_div(pre.x_max_num - pre.x_min_num, 10)
    &&& post.y_min_num == pre.y_min_num - trunc_div(pre.y_max_num - pre.y_min_num, 10)
    &&& post.y_max_num == pre.y_max_num + trunc_div(pre.y_max_num - pre.y_min_num, 10)
}

/// Everything but the bounds is unchanged.
pub open spec fn params_unchanged(a: Viewport, b: Viewport) -> bool {
    &&& a.width == b.width
    &&& a.height == b.height
    &&& a.max_iterations == b.max_iterations
    &&& a.ranges == b.ranges
    &&& a.ranges_2 == b.ranges_2
    &&& a.color_scheme == b.color_scheme
    &&& a.julia_function == b.julia_function
    &&& a.is_mandelbrot == b.is_mandelbrot
}

/// The bounds are unchanged.
pub open spec fn bounds_unchanged(a: Viewport, b: Viewport) -> bool {
    &&& a.x_min_num == b.x_min_num
    &&& a.x_max_num == b.x_max_num
    &&& a.y_min_num == b.y_min_num
    &&& a.y_max_num == b.y_max_num
}

/// When a shift divides without remainder, adding it reads, as a
/// rational, as adding exactly `(p/q) * ((sx/s) / 10)` to `m/s`.
proof fn lemma_exact_shift_reading(m: int, sx: int, p: int, q: int, sh: int, s: int)
    requires
        sh * (10 * q) == p * sx,
    ensures
        rat_eq(rat(m + sh, s), rat_add(rat(m, s), rat_mul(rat(p, q), rat_div10(rat(sx, s))))),
{
    assert((m + sh) * (s * (q * (10 * s))) == (m * (q * (10 * s)) + (p * sx) * s) * s)
        by (nonlinear_arith)
        requires
            sh * (10 * q) == p * sx,
    ;
}

/// When a tenth of the span divides without remainder, the zoom updates
/// read, as rationals, as adding and subtracting exactly `(sx/s) / 10`.
proof fn lemma_exact_zoom_reading(m: int, mx: int, sh: int, sx: int, s: int)
    requires
        sh * 10 == sx,
    ensures
        rat_eq(rat(m + sh, s), rat_add(rat(m, s), rat_div10(rat(sx, s)))),
        rat_eq(rat(mx - sh, s), rat_sub(rat(mx, s), rat_div10(rat(sx, s)))),
        rat_eq(rat(m - sh, s), rat_sub(rat(m, s), rat_div10(rat(sx, s)))),
        rat_eq(rat(mx + sh, s), rat_add(rat(mx, s), rat_div10(rat(sx, s)))),
{
    assert((m + sh) * (s * (10 * s)) == (m * (10 * s) + sx * s) * s) by (nonlinear_arith)
        requires
            sh * 10 == sx,
    ;
    assert((mx - sh) * (s * (10 * s)) == (mx * (10 * s) - sx * s) * s) by (nonlinear_arith)
        requires
            sh * 10 == sx,
    ;
    assert((m - sh) * (s * (10 * s)) == (m * (10 * s) - sx * s) * s) by (nonlinear_arith)
        requires
            sh * 10 == sx,
    ;
    assert((mx + sh) * (s * (10 * s)) == (mx * (10 * s) + sx * s) * s) by (nonlinear_arith)
        requires
            sh * 10 == sx,
    ;
}

/// Law: scrolling by zero on both axes changes no bound at all: the
/// rounded shift of a zero argument is zero.
pub proof fn lemma_scroll_zero(v0: Viewport, x: Frac, y: Frac, v1: Viewport)
    requires
        frac_in_range(x),
        frac_in_range(y),
        x.num == 0,
        y.num == 0,
        scrolled(v0, x, y, v1),
    ensures
        bounds_unchanged(v0, v1),
{
    assert(0 * (v0.x_max_num - v0.x_min_num) == 0);
    assert(0 * (v0.y_max_num - v0.y_min_num) == 0);
    assert(trunc_div(0, 10 * x.den as int) == 0);
    assert(trunc_div(0, 10 * y.den as int) == 0);
}

/// Law: a unit of zooming is recomputed from the current span, so
/// `zoom_in` followed by `zoom_out` does not restore the original window.
/// The round trip takes each span to 8/10 and then 12/10 of it: exactly
/// 24/25 of the original whenever the span is a multiple of 50 units
/// (the canonical windows are, through many zoom levels), within a few
/// units of that otherwise, and strictly smaller than the original for
/// every window wider than 54 units.
pub proof fn lemma_zoom_round_trip(v0: Viewport, v1: Viewport, v2: Viewport)
    requires
        v0.wf(),
        zoomed_in(v0, v1),
        zoomed_out(v1, v2),
    ensures
        24 * (v0.x_max_num - v0.x_min_num) - 45 <= 25 * (v2.x_max_num - v2.x_min_num) <= 24 * (
        v0.x_max_num - v0.x_min_num) + 54,
        24 * (v0.y_max_num - v0.y_min_num) - 45 <= 25 * (v2.y_max_num - v2.y_min_num) <= 24 * (
        v0.y_max_num - v0.y_min_num) + 54,
        v0.x_max_num - v0.x_min_num > 54 ==> v2.x_max_num - v2.x_min_num < v0.x_max_num
            - v0.x_min_num,
        v0.y_max_num - v0.y_min_num > 54 ==> v2.y_max_num - v2.y_min_num < v0.y_max_num
            - v0.y_min_num,
        (v0.x_max_num - v0.x_min_num) % 50 == 0 ==> 25 * (v2.x_max_num - v2.x_min_num) == 24 * (
        v0.x_max_num - v0.x_min_num),
        (v0.y_max_num - v0.y_min_num) % 50 == 0 ==> 25 * (v2.y_max_num - v2.y_min_num) == 24 * (
        v0.y_max_num - v0.y_min_num),
{
    lemma_zoom_round_trip_axis(
        v0.x_max_num - v0.x_min_num,
        v1.x_max_num - v1.x_min_num,
        v2.x_max_num - v2.x_min_num,
    );
    lemma_zoom_round_trip_axis(
        v0.y_max_num - v0.y_min_num,
        v1.y_max_num - v1.y_min_num,
        v2.y_max_num - v2.y_min_num,
    );
}

/// The round-trip arithmetic of one axis: `25·span2 == 24·span0 + 6r - 5r'`
/// with the two division remainders `r, r'` in `0..10`.
proof fn lemma_zoom_round_trip_axis(sp0: int, sp1: int, sp2: int)
    requires
        sp0 > 0,
        sp1 == sp0 - 2 * trunc_div(sp0, 10),
        sp2 == sp1 + 2 * trunc_div(sp1, 10),
    ensures
        24 * sp0 - 45 <= 25 * sp2 <= 24 * sp0 + 54,
        sp0 > 54 ==> sp2 < sp0,
        sp0 % 50 == 0 ==> 25 * sp2 == 24 * sp0,
{
    let s0 = sp0 / 10;
    vstd::arithmetic::div_mod::lemma_fundamental_div_mod(sp0, 10);
    vstd::arithmetic::div_mod::lemma_mod_bound(sp0, 10);
    vstd::arithmetic::div_mod::lemma_div_pos_is_pos(sp0, 10);
    assert(sp1 == 8 * s0 + sp0 % 10);
    let s1 = sp1 / 10;
    vstd::arithmetic::div_mod::lemma_fundamental_div_mod(sp1, 10);
    vstd::arithmetic::div_mod::lemma_mod_bound(sp1, 10);
    assert(25 * sp2 == 24 * sp0 + 6 * (sp0 % 10) - 5 * (sp1 % 10));
    if sp0 % 50 == 0 {
        // a multiple of 50 loses nothing to either rounding step
        let k = sp0 / 50;
        vstd::arithmetic::div_mod::lemma_fundamental_div_mod(sp0, 50);
        assert(sp0 == (5 * k) * 10) by (nonlinear_arith)
            requires
                sp0 == 50 * k,
        ;
        vstd::arithmetic::div_mod::lemma_mod_multiples_basic(5 * k, 10);
        assert(sp0 % 10 == 0);
        assert(s0 == 5 * k);
        assert(sp1 == (4 * k) * 10) by (nonlinear_arith)
            requires
                sp1 == 8 * (5 * k),
        ;
        vstd::arithmetic::div_mod::lemma_mod_multiples_basic(4 * k, 10);
        assert(sp1 % 10 == 0);
    }
}

impl Viewport {
    /// Reading of a bound as a rational plane coordinate.
    pub open spec fn x_min_rat(self) -> Rat {
        rat(self.x_min_num as int, SCALE as int)
    }

    pub open spec fn x_max_rat(self) -> Rat {
        rat(self.x_max_num as int, SCALE as int)
    }

    pub open spec fn y_min_rat(self) -> Rat {
        rat(self.y_min_num as int, SCALE as int)
    }

    pub open spec fn y_max_rat(self) -> Rat {
        rat(self.y_max_num as int, SCALE as int)
    }

    /// The horizontal span `xMax - xMin` as a rational.
    pub open spec fn span_x(self) -> Rat {
        rat(self.x_max_num - self.x_min_num, SCALE as int)
    }

    /// The vertical span `yMax - yMin` as a rational.
    pub open spec fn span_y(self) -> Rat {
        rat(self.y_max_num - self.y_min_num, SCALE as int)
    }

    /// Well-formed bounds: a non-empty window on both axes.
    pub open spec fn wf(self) -> bool {
        &&& self.x_min_num < self.x_max_num
        &&& self.y_min_num < self.y_max_num
    }

    /// The bounds are small enough for one more exact transform. The cap
    /// is an `i128` machine limit at coordinates around ten trillion
    /// plane units, far beyond any reachable view.
    pub open spec fn spec_in_op_range(self) -> bool {
        &&& -NUM_CAP <= self.x_min_num <= NUM_CAP
        &&& -NUM_CAP <= self.x_max_num <= NUM_CAP
        &&& -NUM_CAP <= self.y_min_num <= NUM_CAP
        &&& -NUM_CAP <= self.y_max_num <= NUM_CAP
    }

    /// Executable check of `spec_in_op_range`, for callers that must
    /// guard a transform.
    pub fn in_op_range(&self) -> (r: bool)
        ensures
            r == self.spec_in_op_range(),
    {
        -NUM_CAP <= self.x_min_num && self.x_min_num <= NUM_CAP && -NUM_CAP <= self.x_max_num
            && self.x_max_num <= NUM_CAP && -NUM_CAP <= self.y_min_num && self.y_min_num <= NUM_CAP
            && -NUM_CAP <= self.y_max_num && self.y_max_num <= NUM_CAP
    }

    /// Fresh viewer state: canonical bounds for the mode, the iteration
    /// cap of the selected function, and all thresholds at the sentinel 0.
    pub fn new(
        width: u32,
        height: u32,
        is_mandelbrot: bool,
        julia_function: JuliaFunction,
        color_scheme: ColorScheme,
    ) -> (v: Viewport)
        ensures
            v.wf(),
            v.spec_in_op_range(),
            v.x_min_num == -2 * SCALE,
            v.x_max_num == (if is_mandelbrot { 1int } else { 2int }) * SCALE,
            v.y_min_num == (if is_mandelbrot { -1int } else { -2int }) * SCALE,
            v.y_max_num == (if is_mandelbrot { 1int } else { 2int }) * SCALE,
            v.width == width && v.height == height,
            v.max_iterations == spec_iteration_cap(julia_function),
            v.ranges == [0u32, 0u32, 0u32, 0u32] && v.ranges_2 == [0u32, 0u32, 0u32, 0u32],
            v.color_scheme == color_scheme,
            v.julia_function == julia_function,
            v.is_mandelbrot == is_mandelbrot,
    {
        let mut v = Viewport {
            x_min_num: -2 * SCALE,
            x_max_num: 2 * SCALE,
            y_min_num: -2 * SCALE,
            y_max_num: 2 * SCALE,
            width,
            height,
            max_iterations: iteration_cap(julia_function),
            ranges: [0, 0, 0, 0],
            ranges_2: [0, 0, 0, 0],
            color_scheme,
            julia_function,
            is_mandelbrot,
        };
        v.reset(is_mandelbrot);
        v
    }

    /// Canonical bounds: (-2, 1, -1, 1) for the Mandelbrot window and
    /// (-2, 2, -2, 2) for the Julia window, whatever the state before.
    pub fn reset(&mut self, is_mandelbrot: bool)
        ensures
            final(self).wf(),
            final(self).spec_in_op_range(),
            final(self).x_min_num == -2 * SCALE,
            final(self).x_max_num == (if is_mandelbrot { 1int } else { 2int }) * SCALE,
            final(self).y_min_num == (if is_mandelbrot { -1int } else { -2int }) * SCALE,
            final(self).y_max_num == (if is_mandelbrot { 1int } else { 2int }) * SCALE,
            rat_eq(final(self).x_min_rat(), rat_int(-2)),
            rat_eq(final(self).x_max_rat(), rat_int(if is_mandelbrot { 1int } else { 2int })),
            rat_eq(final(self).y_min_rat(), rat_int(if is_mandelbrot { -1int } else { -2int })),
            rat_eq(final(self).y_max_rat(), rat_int(if is_mandelbrot { 1int } else { 2int })),
            params_unchanged(*old(self), *final(self)),
    {
        self.x_min_num = -2 * SCALE;
        self.x_max_num = if is_mandelbrot { SCALE } else { 2 * SCALE };
        self.y_min_num = if is_mandelbrot { -SCALE } else { -2 * SCALE };
        self.y_max_num = if is_mandelbrot { SCALE } else { 2 * SCALE };
    }

    /// Shift the window by `x` tenths of the horizontal span and `y`
    /// tenths of the vertical span: a unit scroll moves the view by 10%
    /// of what is currently visible. Both bounds of an axis move by the
    /// same rounded amount, so the spans are preserved exactly; the shift
    /// is within one representation unit of the exact rational, and equal
    /// to it whenever the division has no remainder.
    pub fn scroll(&mut self, x: Frac, y: Frac)
        requires
            old(self).wf(),
            old(self).spec_in_op_range(),
            frac_in_range(x),
            frac_in_range(y),
        ensures
            final(self).wf(),
            scrolled(*old(self), x, y, *final(self)),
            final(self).x_max_num - final(self).x_min_num == old(self).x_max_num - old(self).x_min_num,
            final(self).y_max_num - final(self).y_min_num == old(self).y_max_num - old(self).y_min_num,
            ({
                let sh = final(self).x_min_num - old(self).x_min_num;
                let t = x.num * (old(self).x_max_num - old(self).x_min_num);
                &&& t - (10 * x.den - 1) <= sh * (10 * x.den) <= t + (10 * x.den - 1)
                &&& (sh * (10 * x.den) == t ==> rat_eq(final(self).x_min_rat(), rat_add(old(self).x_min_rat(), rat_mul(x@, rat_div10(old(self).span_x())))) && rat_eq(final(self).x_max_rat(), rat_add(old(self).x_max_rat(), rat_mul(x@, rat_div10(old(self).span_x())))))
            }),
            ({
                let sh = final(self).y_min_num - old(self).y_min_num;
                let t = y.num * (old(self).y_max_num - old(self).y_min_num);
                &&& t - (10 * y.den - 1) <= sh * (10 * y.den) <= t + (10 * y.den - 1)
                &&& (sh * (10 * y.den) == t ==> rat_eq(final(self).y_min_rat(), rat_add(old(self).y_min_rat(), rat_mul(y@, rat_div10(old(self).span_y())))) && rat_eq(final(self).y_max_rat(), rat_add(old(self).y_max_rat(), rat_mul(y@, rat_div10(old(self).span_y())))))
            }),
            params_unchanged(*old(self), *final(self)),
    {
        let sx = self.x_max_num - self.x_min_num;
        let sy = self.y_max_num - self.y_min_num;
        proof {
            lemma_abs_mul_bound(x.num as int, sx as int, ARG_NUM_CAP as int, 2 * NUM_CAP as int);
            lemma_abs_mul_bound(y.num as int, sy as int, ARG_NUM_CAP as int, 2 * NUM_CAP as int);
        }
        let tx = x.num * sx;
        let ty = y.num * sy;
        let shx = div_trunc(tx, 10 * x.den);
        let shy = div_trunc(ty, 10 * y.den);
        proof {
            lemma_trunc_div_props(tx as int, 10 * x.den as int);
            lemma_trunc_div_props(ty as int, 10 * y.den as int);
            if shx as int * (10 * x.den as int) == tx as int {
                lemma_exact_shift_reading(self.x_min_num as int, sx as int, x.num as int,
                    x.den as int, shx as int, SCALE as int);
                lemma_exact_shift_reading(self.x_max_num as int, sx as int, x.num as int,
                    x.den as int, shx as int, SCALE as int);
            }
            if shy as int * (10 * y.den as int) == ty as int {
                lemma_exact_shift_reading(self.y_min_num as int, sy as int, y.num as int,
                    y.den as int, shy as int, SCALE as int);
                lemma_exact_shift_reading(self.y_max_num as int, sy as int, y.num as int,
                    y.den as int, shy as int, SCALE as int);
            }
        }
        self.x_min_num = self.x_min_num + shx;
        self.x_max_num = self.x_max_num + shx;
        self.y_min_num = self.y_min_num + shy;
        self.y_max_num = self.y_max_num + shy;
    }

    /// Translate a raw screen-space drag delta into scroll units: one
    /// hundred pixels of drag are one scroll unit.
    pub fn pan(&mut self, dx: Frac, dy: Frac)
        requires
            old(self).wf(),
            old(self).spec_in_op_range(),
            0 < dx.den <= ARG_DEN_CAP / 100,
            -ARG_NUM_CAP <= dx.num <= ARG_NUM_CAP,
            0 < dy.den <= ARG_DEN_CAP / 100,
            -ARG_NUM_CAP <= dy.num <= ARG_NUM_CAP,
        ensures
            final(self).wf(),
            scrolled(*old(self), Frac { num: dx.num, den: (100 * dx.den) as i128 }, Frac {
                num: dy.num,
                den: (100 * dy.den) as i128,
            }, *final(self)),
            final(self).x_max_num - final(self).x_min_num == old(self).x_max_num - old(self).x_min_num,
            final(self).y_max_num - final(self).y_min_num == old(self).y_max_num - old(self).y_min_num,
            params_unchanged(*old(self), *final(self)),
    {
        let x = Frac { num: dx.num, den: 100 * dx.den };
        let y = Frac { num: dy.num, den: 100 * dy.den };
        self.scroll(x, y);
    }

    /// Shrink the window: both bounds of each axis move inward by a tenth
    /// of that axis' pre-call span (truncated to the representation's
    /// unit), so the span becomes 8/10 of what it was, exactly when the
    /// tenth divides and to within two units otherwise.
    pub fn zoom_in(&mut self)
        requires
            old(self).wf(),
            old(self).spec_in_op_range(),
        ensures
            final(self).wf(),
            zoomed_in(*old(self), *final(self)),
            final(self).x_max_num - final(self).x_min_num == old(self).x_max_num - old(self).x_min_num - 2 * trunc_div(old(self).x_max_num - old(self).x_min_num, 10),
            old(self).x_max_num - old(self).x_min_num >= 10 ==> final(self).x_max_num - final(self).x_min_num < old(self).x_max_num - old(self).x_min_num,
            ({
                let sx = old(self).x_max_num - old(self).x_min_num;
                trunc_div(sx, 10) * 10 == sx ==> rat_eq(final(self).x_min_rat(), rat_add(old(self).x_min_rat(), rat_div10(old(self).span_x()))) && rat_eq(final(self).x_max_rat(),
                rat_sub(old(self).x_max_rat(), rat_div10(old(self).span_x())))
            }),
            ({
                let sy = old(self).y_max_num - old(self).y_min_num;
                trunc_div(sy, 10) * 10 == sy ==> rat_eq(final(self).y_min_rat(), rat_add(old(self).y_min_rat(), rat_div10(old(self).span_y()))) && rat_eq(final(self).y_max_rat(),
                rat_sub(old(self).y_max_rat(), rat_div10(old(self).span_y())))
            }),
            params_unchanged(*old(self), *final(self)),
    {
        let sx = self.x_max_num - self.x_min_num;
        let sy = self.y_max_num - self.y_min_num;
        let shx = div_trunc(sx, 10);
        let shy = div_trunc(sy, 10);
        proof {
            lemma_zoom_step_bounds(sx as int);
            lemma_zoom_step_bounds(sy as int);
            if shx as int * 10 == sx as int {
                lemma_exact_zoom_reading(self.x_min_num as int, self.x_max_num as int, shx as int,
                    sx as int, SCALE as int);
            }
            if shy as int * 10 == sy as int {
                lemma_exact_zoom_reading(self.y_min_num as int, self.y_max_num as int, shy as int,
                    sy as int, SCALE as int);
            }
        }
        self.x_min_num = self.x_min_num + shx;
        self.x_max_num = self.x_max_num - shx;
        self.y_min_num = self.y_min_num + shy;
        self.y_max_num = self.y_max_num - shy;
    }

    /// Grow the window: both bounds of each axis move outward by a tenth
    /// of that axis' pre-call span (truncated to the representation's
    /// unit), so the span becomes 12/10 of what it was, exactly when the
    /// tenth divides. Because the tenth is taken from the current span
    /// each time, this is deliberately not the exact inverse of
    /// `zoom_in`.
    pub fn zoom_out(&mut self)
        requires
            old(self).wf(),
            old(self).spec_in_op_range(),
        ensures
            final(self).wf(),
            zoomed_out(*old(self), *final(self)),
            final(self).x_max_num - final(self).x_min_num == old(self).x_max_num - old(self).x_min_num + 2 * trunc_div(old(self).x_max_num - old(self).x_min_num, 10),
            ({
                let sx = old(self).x_max_num - old(self).x_min_num;
                trunc_div(sx, 10) * 10 == sx ==> rat_eq(final(self).x_min_rat(), rat_sub(old(self).x_min_rat(), rat_div10(old(self).span_x()))) && rat_eq(final(self).x_max_rat(),
                rat_add(old(self).x_max_rat(), rat_div10(old(self).span_x())))
            }),
            ({
                let sy = old(self).y_max_num - old(self).y_min_num;
                trunc_div(sy, 10) * 10 == sy ==> rat_eq(final(self).y_min_rat(), rat_sub(old(self).y_min_rat(), rat_div10(old(self).span_y()))) && rat_eq(final(self).y_max_rat(),
                rat_add(old(self).y_max_rat(), rat_div10(old(self).span_y())))
            }),
            params_unchanged(*old(self), *final(self)),
    {
        let sx = self.x_max_num - self.x_min_num;
        let sy = self.y_max_num - self.y_min_num;
        let shx = div_trunc(sx, 10);
        let shy = div_trunc(sy, 10);
        proof {
            lemma_zoom_step_bounds(sx as int);
            lemma_zoom_step_bounds(sy as int);
            if shx as int * 10 == sx as int {
                lemma_exact_zoom_reading(self.x_min_num as int, self.x_max_num as int, shx as int,
                    sx as int, SCALE as int);
            }
            if shy as int * 10 == sy as int {
                lemma_exact_zoom_reading(self.y_min_num as int, self.y_max_num as int, shy as int,
                    sy as int, SCALE as int);
            }
        }
        self.x_min_num = self.x_min_num - shx;
        self.x_max_num = self.x_max_num + shx;
        self.y_min_num = self.y_min_num - shy;
        self.y_max_num = self.y_max_num + shy;
    }

    /// Switch between the Mandelbrot and the Julia view. Changing mode
    /// resets the bounds to the canonical window of the new mode and the
    /// iteration cap to the one of the currently selected function.
    pub fn set_mode(&mut self, is_mandelbrot: bool)
        ensures
            final(self).wf(),
            final(self).spec_in_op_range(),
            final(self).is_mandelbrot == is_mandelbrot,
            final(self).x_min_num == -2 * SCALE,
            final(self).x_max_num == (if is_mandelbrot { 1int } else { 2int }) * SCALE,
            final(self).y_min_num == (if is_mandelbrot { -1int } else { -2int }) * SCALE,
            final(self).y_max_num == (if is_mandelbrot { 1int } else { 2int }) * SCALE,
            final(self).max_iterations == spec_iteration_cap(old(self).julia_function),
            final(self).width == old(self).width && final(self).height == old(self).height,
            final(self).ranges == old(self).ranges && final(self).ranges_2 == old(self).ranges_2,
            final(self).color_scheme == old(self).color_scheme,
            final(self).julia_function == old(self).julia_function,
    {
        self.is_mandelbrot = is_mandelbrot;
        self.max_iterations = iteration_cap(self.julia_function);
        self.reset(is_mandelbrot);
    }

    /// Select the Julia function; the iteration cap follows the function.
    pub fn set_function(&mut self, f: JuliaFunction)
        ensures
            final(self).julia_function == f,
            final(self).max_iterations == spec_iteration_cap(f),
            final(self).color_scheme == old(self).color_scheme,
            final(self).is_mandelbrot == old(self).is_mandelbrot,
            final(self).width == old(self).width && final(self).height == old(self).height,
            final(self).ranges == old(self).ranges && final(self).ranges_2 == old(self).ranges_2,
            bounds_unchanged(*old(self), *final(self)),
    {
        self.julia_function = f;
        self.max_iterations = iteration_cap(f);
    }

    /// Select the color map.
    pub fn set_color_scheme(&mut self, c: ColorScheme)
        ensures
            final(self).color_scheme == c,
            final(self).julia_function == old(self).julia_function,
            final(self).is_mandelbrot == old(self).is_mandelbrot,
            final(self).max_iterations == old(self).max_iterations,
            final(self).width == old(self).width && final(self).height == old(self).height,
            final(self).ranges == old(self).ranges && final(self).ranges_2 == old(self).ranges_2,
            bounds_unchanged(*old(self), *final(self)),
    {
        self.color_scheme = c;
    }

    /// Set the iteration cap directly (the parameter panel's slider).
    pub fn set_max_iterations(&mut self, n: u32)
        requires
            1 <= n <= 1024,
        ensures
            final(self).max_iterations == n,
            final(self).color_scheme == old(self).color_scheme,
            final(self).julia_function == old(self).julia_function,
            final(self).is_mandelbrot == old(self).is_mandelbrot,
            final(self).width == old(self).width && final(self).height == old(self).height,
            final(self).ranges == old(self).ranges && final(self).ranges_2 == old(self).ranges_2,
            bounds_unchanged(*old(self), *final(self)),
    {
        self.max_iterations = n;
    }

    /// Set the right bound directly (the parameter panel's input field):
    /// the given fraction, rounded toward zero to the representation's
    /// unit. The new bound must stay to the right of the left bound.
    pub fn set_x_max(&mut self, x: Frac)
        requires
            old(self).wf(),
            frac_in_range(x),
            trunc_div(x.num * SCALE, x.den as int) > old(self).x_min_num,
        ensures
            final(self).wf(),
            final(self).x_max_num == trunc_div(x.num * SCALE, x.den as int),
            x.num * SCALE - (x.den - 1) <= final(self).x_max_num * x.den <= x.num * SCALE + (x.den
                - 1),
            final(self).x_max_num * x.den == x.num * SCALE ==> rat_eq(final(self).x_max_rat(), x@),
            final(self).x_min_num == old(self).x_min_num,
            final(self).y_min_num == old(self).y_min_num,
            final(self).y_max_num == old(self).y_max_num,
            params_unchanged(*old(self), *final(self)),
    {
        proof {
            lemma_abs_mul_bound(x.num as int, SCALE as int, ARG_NUM_CAP as int, SCALE as int);
        }
        let t = x.num * SCALE;
        let q = div_trunc(t, x.den);
        proof {
            lemma_trunc_div_props(t as int, x.den as int);
            if q as int * x.den as int == t as int {
                assert(rat_eq(rat(q as int, SCALE as int), x@)) by (nonlinear_arith)
                    requires
                        q as int * x.den as int == x.num as int * SCALE as int,
                ;
            }
        }
        self.x_max_num = q;
    }

    /// Install a freshly extracted threshold set: the first four values
    /// and the second four values of the nine, as the two uniform groups
    /// the shading collaborator consumes.
    pub fn set_thresholds(&mut self, t: &Vec<u32>)
        requires
            t@.len() == 9,
        ensures
            final(self).ranges@ == t@.subrange(0, 4),
            final(self).ranges_2@ == t@.subrange(4, 8),
            final(self).width == old(self).width && final(self).height == old(self).height,
            final(self).max_iterations == old(self).max_iterations,
            final(self).color_scheme == old(self).color_scheme,
            final(self).julia_function == old(self).julia_function,
            final(self).is_mandelbrot == old(self).is_mandelbrot,
            bounds_unchanged(*old(self), *final(self)),
    {
        self.ranges = [t[0], t[1], t[2], t[3]];
        self.ranges_2 = [t[4], t[5], t[6], t[7]];
        proof {
            assert(self.ranges@ =~= t@.subrange(0, 4));
            assert(self.ranges_2@ =~= t@.subrange(4, 8));
        }
    }
}

/// A zoom step keeps the window non-empty: twice the truncated tenth of
/// a positive span is less than the span.
proof fn lemma_zoom_step_bounds(sp: int)
    requires
        sp > 0,
    ensures
        0 <= trunc_div(sp, 10) <= sp,
        sp - 2 * trunc_div(sp, 10) > 0,
        sp >= 10 ==> trunc_div(sp, 10) >= 1,
{
    vstd::arithmetic::div_mod::lemma_fundamental_div_mod(sp, 10);
    vstd::arithmetic::div_mod::lemma_mod_bound(sp, 10);
    vstd::arithmetic::div_mod::lemma_div_pos_is_pos(sp, 10);
    vstd::arithmetic::div_mod::lemma_div_nonincreasing(sp, 10);
    assert(sp - 2 * (sp / 10) == 8 * (sp / 10) + sp % 10);
}

} // verus!
