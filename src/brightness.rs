//! The brightness function and the glyph ramp.
//!
//! The function works on the normalised coordinates
//! `x_n = x / w * 3` and `t_n = t / (h - C)` with the constants
//! `C = 1.45`, `Q = 0.5`, `G = 0.25` and `P = 0.25`:
//! with `a = |x_n - C|` and `j = |t_n - Q|`, a cell is dark when `j > P` or
//! `a > 2G`, and otherwise has brightness `s * (P*a + G*j - 2*P*G) + s`,
//! truncated toward zero, where `s` is the tick.
//!
//! All constants are decimal fractions, so the library evaluates the function
//! exactly in integers: every quantity below is one of the fractions above
//! multiplied out by its denominator.
use vstd::prelude::*;

verus! {

/// Number of glyphs in the ramp.
pub const RAMP_LEN: usize = 11;

/// The glyphs from the sparsest to the densest.
pub open spec fn ramp() -> Seq<char> {
    seq![' ', '.', ':', '-', '=', '+', '*', '&', '#', '%', '@']
}

/// `|a - b|`.
pub open spec fn dist(a: int, b: int) -> int {
    if a >= b {
        a - b
    } else {
        b - a
    }
}

/// `20 * w * a`: since `x_n - C = (60x - 29w) / (20w)`.
pub open spec fn col_spread(x: int, w: int) -> int {
    dist(60 * x, 29 * w)
}

/// `20 * |h - C|`, the magnitude of the row normaliser scaled to an integer.
/// It is never zero for an integer `h`.
pub open spec fn row_scale(h: int) -> int {
    dist(20 * h, 29)
}

/// `2 * row_scale(h) * j`: since `t_n - Q = (40t - (20h - 29)) / (2 * (20h - 29))`.
pub open spec fn row_spread(t: int, h: int) -> int {
    dist(40 * t, 20 * h - 29)
}

/// The cell lies in the lit region: `a <= 2G` and `j <= P`.
pub open spec fn lit(x: int, t: int, w: int, h: int) -> bool {
    &&& col_spread(x, w) <= 10 * w
    &&& 2 * row_spread(t, h) <= row_scale(h)
}

/// `s * (P*a + G*j - 2*P*G) + s = s * (2a + 2j + 7) / 8`, over the common
/// denominator `80 * w * row_scale(h)`: the numerator.
pub open spec fn shade_numerator(x: int, t: int, w: int, h: int) -> int {
    col_spread(x, w) * row_scale(h) + 10 * w * row_spread(t, h) + 70 * w * row_scale(h)
}

/// The common denominator of the shade.
pub open spec fn shade_denominator(w: int, h: int) -> int {
    80 * w * row_scale(h)
}

/// The brightness of column `x`, row `t` of a `w` by `h` grid at tick `s`,
/// truncated toward zero (the value is never negative).
pub open spec fn brightness(x: int, t: int, w: int, h: int, s: int) -> int {
    if lit(x, t, w, h) {
        (s * shade_numerator(x, t, w, h)) / shade_denominator(w, h)
    } else {
        0
    }
}

/// Index into the ramp of the glyph shown for a cell.
pub open spec fn glyph_index_of(x: int, t: int, w: int, h: int, s: int) -> int {
    brightness(x, t, w, h, s) % 11
}

/// The glyph shown for a cell.
pub open spec fn glyph_of(x: int, t: int, w: int, h: int, s: int) -> char {
    ramp()[glyph_index_of(x, t, w, h, s)]
}

/// Computes the ramp index of the glyph at column `x`, row `t` of a grid of
/// `width` columns and `height` rows, at tick `tick`.
pub fn glyph_index(x: u16, t: u16, width: u16, height: u16, tick: u64) -> (r: usize)
    requires
        x < width,
    ensures
        r == glyph_index_of(x as int, t as int, width as int, height as int, tick as int),
        r < RAMP_LEN,
{
    let xw: u64 = 60 * x as u64;
    let cw: u64 = 29 * width as u64;
    let col: u64 = if xw >= cw { xw - cw } else { cw - xw };
    let hs: u64 = 20 * height as u64;
    let scale: u64 = if hs >= 29 { hs - 29 } else { 29 - hs };
    let tt: u64 = 40 * t as u64;
    // `row_spread` measures `40t` against `20h - 29`, which is negative for
    // `h < 2`; then the distance is `40t + 29 - 20h`.
    let row: u64 = if hs < 29 {
        tt + scale
    } else if tt >= scale {
        tt - scale
    } else {
        scale - tt
    };
    let w: u64 = width as u64;
    if col > 10 * w || 2 * row > scale {
        return 0;
    }
    // In the lit region `col <= 10 * 65535`, and `row <= scale <= 20 * 65535`:
    // the numerator fits in 64 bits and its product with the tick in 128.
    assert(col * scale <= 655350 * 1310700) by (nonlinear_arith)
        requires col <= 10 * w, w <= 65535, scale <= 1310700;
    assert(w * row <= 65535 * 1310700) by (nonlinear_arith)
        requires w <= 65535, 2 * row <= scale, scale <= 1310700;
    assert(w * scale <= 65535 * 1310700) by (nonlinear_arith)
        requires w <= 65535, scale <= 1310700;
    let num: u64 = col * scale + 10 * (w * row) + 70 * (w * scale);
    assert(w * scale > 0) by (nonlinear_arith)
        requires w >= 1, scale >= 1;
    let den: u64 = 80 * (w * scale);
    assert(num as int == shade_numerator(x as int, t as int, width as int, height as int))
        by (nonlinear_arith)
        requires
            num == col * scale + 10 * (w * row) + 70 * (w * scale),
            col == col_spread(x as int, width as int),
            scale == row_scale(height as int),
            row == row_spread(t as int, height as int),
            w == width,
    ;
    assert(den as int == shade_denominator(width as int, height as int)) by (nonlinear_arith)
        requires
            den == 80 * (w * scale),
            scale == row_scale(height as int),
            w == width,
    ;
    assert(tick as u128 * num as u128 <= 0xffff_ffff_ffff_ffff * 0xffff_ffff_ffff_ffff)
        by (nonlinear_arith)
        requires
            tick <= 0xffff_ffff_ffff_ffff,
            num <= 0xffff_ffff_ffff_ffff,
    ;
    let b: u128 = (tick as u128 * num as u128) / den as u128;
    (b % 11) as usize
}

} // verus!
