use vstd::prelude::*;

use vstd::arithmetic::div_mod::lemma_fundamental_div_mod;

use crate::metrics::{FontExtents, GlyphExtents, Position};

verus! {

/// Integer division rounding toward zero, as machine division does.
pub open spec fn trunc_div(a: int, b: int) -> int
    recommends
        b != 0,
{
    let q = abs(a) / abs(b);
    if (a < 0) != (b < 0) {
        -q
    } else {
        q
    }
}

pub open spec fn abs(a: int) -> int {
    if a < 0 {
        -a
    } else {
        a
    }
}

pub open spec fn fits_position(v: int) -> bool {
    i32::MIN <= v <= i32::MAX
}

/// A parent's distance `v` carried over to a font whose scale is `scale` on
/// the same axis, the parent's being `parent_scale`: unchanged where the two
/// scales agree, `v * scale / parent_scale` rounded toward zero otherwise.
pub open spec fn rescaled(v: int, scale: int, parent_scale: int) -> int {
    if scale == parent_scale {
        v
    } else {
        trunc_div(v * scale, parent_scale)
    }
}

/// Whether a parent's distance can be carried over: the scales agree, or the
/// parent's is not zero and the result fits a `Position`.
pub open spec fn rescalable(v: int, scale: int, parent_scale: int) -> bool {
    scale == parent_scale || (parent_scale != 0 && fits_position(
        rescaled(v, scale, parent_scale),
    ))
}

/// The rescaled distance, or `None` where it cannot be computed.
pub open spec fn rescaled_position(v: Position, scale: i32, parent_scale: i32) -> Option<Position> {
    if rescalable(v as int, scale as int, parent_scale as int) {
        Some(rescaled(v as int, scale as int, parent_scale as int) as Position)
    } else {
        None
    }
}

/// Carries a parent's distance over to this font's scale on one axis.
///
/// Returns `None` where the parent's scale is zero and differs from this
/// font's, or where the exact result does not fit a `Position`.
pub fn parent_scale_distance(v: Position, scale: i32, parent_scale: i32) -> (r: Option<Position>)
    ensures
        r == rescaled_position(v, scale, parent_scale),
{
    if scale == parent_scale {
        return Some(v);
    }
    if parent_scale == 0 {
        return None;
    }
    proof {
        assert(-0x4000_0000_0000_0000 <= v as int * scale as int <= 0x4000_0000_0000_0000)
            by (nonlinear_arith)
            requires
                i32::MIN <= v <= i32::MAX,
                i32::MIN <= scale <= i32::MAX,
        ;
    }
    let n: i64 = (v as i64) * (scale as i64);
    let an: u64 = if n < 0 {
        (-n) as u64
    } else {
        n as u64
    };
    let ad: u64 = if parent_scale < 0 {
        (-(parent_scale as i64)) as u64
    } else {
        parent_scale as u64
    };
    let q: u64 = an / ad;
    if q > 0x8000_0000u64 {
        return None;
    }
    let neg: bool = (n < 0) != (parent_scale < 0);
    let signed: i64 = if neg {
        -(q as i64)
    } else {
        q as i64
    };
    if signed < i32::MIN as i64 || signed > i32::MAX as i64 {
        return None;
    }
    Some(signed as i32)
}

/// Both rescaled coordinates of a point, x on the x axis and y on the y axis.
pub open spec fn rescaled_point(
    p: (Position, Position),
    x_scale: i32,
    parent_x_scale: i32,
    y_scale: i32,
    parent_y_scale: i32,
) -> Option<(Position, Position)> {
    match (
        rescaled_position(p.0, x_scale, parent_x_scale),
        rescaled_position(p.1, y_scale, parent_y_scale),
    ) {
        (Some(x), Some(y)) => Some((x, y)),
        _ => None,
    }
}

/// Carries a parent's point over to this font's scales.
pub fn parent_scale_position(
    p: (Position, Position),
    x_scale: i32,
    parent_x_scale: i32,
    y_scale: i32,
    parent_y_scale: i32,
) -> (r: Option<(Position, Position)>)
    ensures
        r == rescaled_point(p, x_scale, parent_x_scale, y_scale, parent_y_scale),
{
    let x = parent_scale_distance(p.0, x_scale, parent_x_scale);
    let y = parent_scale_distance(p.1, y_scale, parent_y_scale);
    match (x, y) {
        (Some(x), Some(y)) => Some((x, y)),
        _ => None,
    }
}

/// A parent's font extents carried over to this font's vertical scale.
pub open spec fn rescaled_font_extents(e: FontExtents, y_scale: i32, parent_y_scale: i32) -> Option<
    FontExtents,
> {
    match (
        rescaled_position(e.ascender, y_scale, parent_y_scale),
        rescaled_position(e.descender, y_scale, parent_y_scale),
        rescaled_position(e.line_gap, y_scale, parent_y_scale),
    ) {
        (Some(a), Some(d), Some(l)) => Some(FontExtents { ascender: a, descender: d, line_gap: l }),
        _ => None,
    }
}

/// Carries a parent's font extents over to this font's vertical scale.
pub fn parent_scale_font_extents(e: FontExtents, y_scale: i32, parent_y_scale: i32) -> (r: Option<
    FontExtents,
>)
    ensures
        r == rescaled_font_extents(e, y_scale, parent_y_scale),
{
    let a = parent_scale_distance(e.ascender, y_scale, parent_y_scale);
    let d = parent_scale_distance(e.descender, y_scale, parent_y_scale);
    let l = parent_scale_distance(e.line_gap, y_scale, parent_y_scale);
    match (a, d, l) {
        (Some(a), Some(d), Some(l)) => Some(FontExtents { ascender: a, descender: d, line_gap: l }),
        _ => None,
    }
}

/// A parent's glyph extents carried over: bearing and width on the x axis,
/// bearing and height on the y axis.
pub open spec fn rescaled_glyph_extents(
    e: GlyphExtents,
    x_scale: i32,
    parent_x_scale: i32,
    y_scale: i32,
    parent_y_scale: i32,
) -> Option<GlyphExtents> {
    match (
        rescaled_position(e.x_bearing, x_scale, parent_x_scale),
        rescaled_position(e.y_bearing, y_scale, parent_y_scale),
        rescaled_position(e.width, x_scale, parent_x_scale),
        rescaled_position(e.height, y_scale, parent_y_scale),
    ) {
        (Some(xb), Some(yb), Some(w), Some(h)) => Some(
            GlyphExtents { x_bearing: xb, y_bearing: yb, width: w, height: h },
        ),
        _ => None,
    }
}

/// Carries a parent's glyph extents over to this font's scales.
pub fn parent_scale_glyph_extents(
    e: GlyphExtents,
    x_scale: i32,
    parent_x_scale: i32,
    y_scale: i32,
    parent_y_scale: i32,
) -> (r: Option<GlyphExtents>)
    ensures
        r == rescaled_glyph_extents(e, x_scale, parent_x_scale, y_scale, parent_y_scale),
{
    let xb = parent_scale_distance(e.x_bearing, x_scale, parent_x_scale);
    let yb = parent_scale_distance(e.y_bearing, y_scale, parent_y_scale);
    let w = parent_scale_distance(e.width, x_scale, parent_x_scale);
    let h = parent_scale_distance(e.height, y_scale, parent_y_scale);
    match (xb, yb, w, h) {
        (Some(xb), Some(yb), Some(w), Some(h)) => Some(
            GlyphExtents { x_bearing: xb, y_bearing: yb, width: w, height: h },
        ),
        _ => None,
    }
}

/// Division rounding toward zero is exact where it divides evenly, and
/// otherwise leaves a remainder smaller than the divisor without ever
/// overshooting the dividend.
pub proof fn lemma_trunc_div(a: int, b: int)
    requires
        b != 0,
    ensures
        abs(a - trunc_div(a, b) * b) < abs(b),
        abs(trunc_div(a, b) * b) <= abs(a),
        abs(a) % abs(b) == 0 ==> trunc_div(a, b) * b == a,
{
    let aa = abs(a);
    let bb = abs(b);
    lemma_fundamental_div_mod(aa, bb);
    let q = aa / bb;
    let r = aa % bb;
    assert(aa == bb * q + r && 0 <= r < bb);
    assert(q >= 0) by (nonlinear_arith)
        requires aa >= 0, bb > 0, aa == bb * q + r, r < bb;
    if a < 0 && b < 0 {
        assert(trunc_div(a, b) * b == -(q * bb)) by (nonlinear_arith)
            requires trunc_div(a, b) == q, b == -bb;
    } else if a < 0 {
        assert(trunc_div(a, b) * b == -(q * bb)) by (nonlinear_arith)
            requires trunc_div(a, b) == -q, b == bb;
    } else if b < 0 {
        assert(trunc_div(a, b) * b == q * bb) by (nonlinear_arith)
            requires trunc_div(a, b) == -q, b == -bb;
    } else {
        assert(trunc_div(a, b) * b == q * bb) by (nonlinear_arith)
            requires trunc_div(a, b) == q, b == bb;
    }
    assert(q * bb == bb * q) by (nonlinear_arith);
    assert(r == 0 ==> aa == q * bb);
}

/// A parent's font extents rescaled to a font whose vertical scale is
/// `y_scale` against the parent's `parent_y_scale`: each of ascender,
/// descender and line gap is the parent's value times
/// `y_scale / parent_y_scale`, exactly where that ratio lands on an integer,
/// and otherwise rounded toward zero by less than one unit.
pub proof fn lemma_font_extents_scale_exactly(e: FontExtents, y_scale: i32, parent_y_scale: i32)
    requires
        rescaled_font_extents(e, y_scale, parent_y_scale) is Some,
        parent_y_scale != 0,
    ensures
        ({
            let r = rescaled_font_extents(e, y_scale, parent_y_scale)->Some_0;
            &&& scales_exactly(e.ascender, r.ascender, y_scale, parent_y_scale)
            &&& scales_exactly(e.descender, r.descender, y_scale, parent_y_scale)
            &&& scales_exactly(e.line_gap, r.line_gap, y_scale, parent_y_scale)
        }),
{
    lemma_rescale(e.ascender as int, y_scale as int, parent_y_scale as int);
    lemma_rescale(e.descender as int, y_scale as int, parent_y_scale as int);
    lemma_rescale(e.line_gap as int, y_scale as int, parent_y_scale as int);
}

/// `r` is `v * scale / parent_scale`: exactly where that is an integer, and
/// rounded toward zero by less than one unit otherwise.
pub open spec fn scales_exactly(v: Position, r: Position, scale: i32, parent_scale: i32) -> bool {
    let num = v as int * scale as int;
    &&& abs(num - r as int * parent_scale as int) < abs(parent_scale as int)
    &&& abs(r as int * parent_scale as int) <= abs(num)
    &&& abs(num) % abs(parent_scale as int) == 0 ==> r as int * parent_scale as int == num
}

proof fn lemma_rescale(v: int, scale: int, parent_scale: int)
    requires
        parent_scale != 0,
    ensures
        ({
            let num = v * scale;
            let r = rescaled(v, scale, parent_scale);
            &&& abs(num - r * parent_scale) < abs(parent_scale)
            &&& abs(r * parent_scale) <= abs(num)
            &&& abs(num) % abs(parent_scale) == 0 ==> r * parent_scale == num
        }),
{
    lemma_trunc_div(v * scale, parent_scale);
    if scale == parent_scale {
        assert(v * scale == v * parent_scale);
    }
}

} // verus!
