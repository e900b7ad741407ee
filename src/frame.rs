//! Frames of the animation and the generator that owns the current one.
use vstd::prelude::*;
use vstd::string::*;
use crate::brightness::{
    col_spread, glyph_index, glyph_index_of, glyph_of, ramp, row_scale, row_spread, RAMP_LEN,
};

verus! {

/// What ends every line of a frame and also opens it: a newline and the
/// two-space indent of the next line.
pub open spec fn line_break() -> Seq<char> {
    seq!['\n', ' ', ' ']
}

/// The glyphs of row `t`, one per column.
pub open spec fn row_glyphs(w: int, h: int, s: int, t: int) -> Seq<char> {
    Seq::new(w as nat, |x: int| glyph_of(x, t, w, h, s))
}

/// The first `n` rows, each followed by a line break.
pub open spec fn rows_text(w: int, h: int, s: int, n: nat) -> Seq<char>
    decreases n,
{
    if n == 0 {
        Seq::empty()
    } else {
        rows_text(w, h, s, (n - 1) as nat) + row_glyphs(w, h, s, n - 1) + line_break()
    }
}

/// The whole frame for a `w` by `h` grid at tick `s`.
pub open spec fn frame_text(w: int, h: int, s: int) -> Seq<char> {
    line_break() + rows_text(w, h, s, h as nat)
}

/// The line of row `t`: its glyphs and a line break.
pub open spec fn line_of(w: int, h: int, s: int, t: int) -> Seq<char> {
    row_glyphs(w, h, s, t) + line_break()
}

/// Every glyph of the grid is one of the ramp's.
pub proof fn lemma_glyph_in_ramp(x: int, t: int, w: int, h: int, s: int)
    ensures
        0 <= glyph_index_of(x, t, w, h, s) < RAMP_LEN,
        ramp().contains(glyph_of(x, t, w, h, s)),
{
    let i = glyph_index_of(x, t, w, h, s);
    assert(ramp()[i] == glyph_of(x, t, w, h, s));
}

/// The first `n` rows take `n` lines of `w + 3` characters, line `t` at
/// offset `t * (w + 3)`.
proof fn lemma_rows_layout(w: int, h: int, s: int, n: nat)
    requires
        w >= 0,
    ensures
        rows_text(w, h, s, n).len() == n * (w + 3),
        forall|t: int|
            0 <= t < n ==> #[trigger] rows_text(w, h, s, n).subrange(t * (w + 3), (t + 1) * (w + 3))
                == line_of(w, h, s, t),
    decreases n,
{
    if n > 0 {
        let m = (n - 1) as nat;
        lemma_rows_layout(w, h, s, m);
        let prev = rows_text(w, h, s, m);
        let all = rows_text(w, h, s, n);
        assert(all == prev + line_of(w, h, s, m as int));
        assert(n * (w + 3) == m * (w + 3) + (w + 3)) by (nonlinear_arith)
            requires n == m + 1;
        assert forall|t: int| 0 <= t < n implies #[trigger] all.subrange(
            t * (w + 3),
            (t + 1) * (w + 3),
        ) == line_of(w, h, s, t) by {
            if t < m {
                assert(0 <= t * (w + 3) && (t + 1) * (w + 3) <= m * (w + 3)) by (nonlinear_arith)
                    requires 0 <= t, t + 1 <= m, w >= 0;
                assert((t + 1) * (w + 3) == t * (w + 3) + (w + 3)) by (nonlinear_arith);
                assert(all.subrange(t * (w + 3), (t + 1) * (w + 3)) =~= prev.subrange(
                    t * (w + 3),
                    (t + 1) * (w + 3),
                ));
            } else {
                assert(t == m);
                assert((t + 1) * (w + 3) == t * (w + 3) + (w + 3)) by (nonlinear_arith);
                assert(all.subrange(t * (w + 3), (t + 1) * (w + 3)) =~= line_of(w, h, s, t));
            }
        }
    }
}

/// The shape of a frame: for a grid of at least one column and two rows, at
/// any tick from 1 on, the frame is a line break followed by exactly `h`
/// lines, line `t` being the `w` glyphs of row `t`, each one of the ramp,
/// and a line break.
pub proof fn lemma_frame_shape(w: int, h: int, s: int)
    requires
        w >= 1,
        h >= 2,
        s >= 1,
    ensures
        frame_text(w, h, s).len() == 3 + h * (w + 3),
        frame_text(w, h, s).subrange(0, 3) == line_break(),
        forall|t: int|
            0 <= t < h ==> #[trigger] frame_text(w, h, s).subrange(
                3 + t * (w + 3),
                3 + (t + 1) * (w + 3),
            ) == line_of(w, h, s, t),
        forall|t: int| 0 <= t < h ==> (#[trigger] row_glyphs(w, h, s, t)).len() == w,
        forall|t: int, x: int|
            0 <= t < h && 0 <= x < w ==> ramp().contains(#[trigger] row_glyphs(w, h, s, t)[x]),
{
    frame_cells(w, h, s);
    let f = frame_text(w, h, s);
    assert(f.subrange(0, 3) =~= line_break());
    assert forall|t: int, x: int| 0 <= t < h && 0 <= x < w implies ramp().contains(
        #[trigger] row_glyphs(w, h, s, t)[x],
    ) by {
        lemma_glyph_in_ramp(x, t, w, h, s);
    }
}

/// Where each line of a frame starts, for any grid size and tick.
proof fn frame_cells(w: int, h: int, s: int)
    requires
        w >= 0,
        h >= 0,
    ensures
        frame_text(w, h, s).len() == 3 + h * (w + 3),
        forall|t: int|
            0 <= t < h ==> #[trigger] frame_text(w, h, s).subrange(
                3 + t * (w + 3),
                3 + (t + 1) * (w + 3),
            ) == line_of(w, h, s, t),
{
    let rows = rows_text(w, h, s, h as nat);
    lemma_rows_layout(w, h, s, h as nat);
    let f = frame_text(w, h, s);
    assert forall|t: int| 0 <= t < h implies #[trigger] f.subrange(
        3 + t * (w + 3),
        3 + (t + 1) * (w + 3),
    ) == line_of(w, h, s, t) by {
        assert(0 <= t * (w + 3) && (t + 1) * (w + 3) <= h * (w + 3)) by (nonlinear_arith)
            requires 0 <= t, t + 1 <= h, w >= 0;
        assert((t + 1) * (w + 3) == t * (w + 3) + (w + 3)) by (nonlinear_arith);
        assert(rows.subrange(t * (w + 3), (t + 1) * (w + 3)) == line_of(w, h, s, t));
        assert(f.subrange(3 + t * (w + 3), 3 + (t + 1) * (w + 3)) =~= rows.subrange(
            t * (w + 3),
            (t + 1) * (w + 3),
        ));
    }
}

/// A frame depends on the grid size and the tick alone: equal inputs give
/// equal text.
pub proof fn lemma_frame_deterministic(w1: int, h1: int, s1: int, w2: int, h2: int, s2: int)
    requires
        w1 == w2,
        h1 == h2,
        s1 == s2,
    ensures
        frame_text(w1, h1, s1) == frame_text(w2, h2, s2),
{
}

/// Outside the lit region (`|x_n - 1.45| > 0.5` or `|t_n - 0.5| > 0.25`) a
/// cell is always drawn as a space, at every tick.
pub proof fn lemma_dark_outside_region(x: int, t: int, w: int, h: int, s: int)
    requires
        0 <= x < w,
        0 <= t < h,
        col_spread(x, w) > 10 * w || 2 * row_spread(t, h) > row_scale(h),
    ensures
        glyph_of(x, t, w, h, s) == ' ',
        frame_text(w, h, s)[3 + t * (w + 3) + x] == ' ',
{
    frame_cells(w, h, s);
    let f = frame_text(w, h, s);
    assert(0 <= t * (w + 3) && (t + 1) * (w + 3) <= h * (w + 3)) by (nonlinear_arith)
        requires 0 <= t, t + 1 <= h, w >= 0;
    assert((t + 1) * (w + 3) == t * (w + 3) + (w + 3)) by (nonlinear_arith);
    let line = f.subrange(3 + t * (w + 3), 3 + (t + 1) * (w + 3));
    assert(line == line_of(w, h, s, t));
    assert(line[x] == f[3 + t * (w + 3) + x]);
    assert(line_of(w, h, s, t)[x] == row_glyphs(w, h, s, t)[x]);
}

/// The one-character text of the glyph with ramp index `i`.
fn glyph_str(i: usize) -> (r: &'static str)
    requires
        i < RAMP_LEN,
    ensures
        r@ == seq![ramp()[i as int]],
{
    let glyphs = " .:-=+*&#%@";
    proof {
        reveal_strlit(" .:-=+*&#%@");
        assert(glyphs@ =~= ramp());
    }
    let r = glyphs.substring_ascii(i, i + 1);
    assert(r@ =~= seq![ramp()[i as int]]);
    r
}

/// Renders the frame of a grid of `width` columns and `height` rows at tick
/// `tick`: a line break, then each row's glyphs followed by a line break.
pub fn generate(width: u16, height: u16, tick: u64) -> (r: String)
    ensures
        r@ == frame_text(width as int, height as int, tick as int),
{
    let ghost w = width as int;
    let ghost h = height as int;
    let ghost s = tick as int;
    let br = "\n  ";
    proof {
        reveal_strlit("\n  ");
    }
    assert(br@ =~= line_break());
    let mut out = String::from_str(br);
    let mut t: u16 = 0;
    while t < height
        invariant
            t <= height,
            br@ == line_break(),
            w == width as int,
            h == height as int,
            s == tick as int,
            out@ == line_break() + rows_text(w, h, s, t as nat),
        decreases height - t,
    {
        let mut x: u16 = 0;
        while x < width
            invariant
                x <= width,
                t < height,
                br@ == line_break(),
            w == width as int,
            h == height as int,
            s == tick as int,
                out@ == line_break() + rows_text(w, h, s, t as nat) + Seq::new(
                    x as nat,
                    |i: int| glyph_of(i, t as int, w, h, s),
                ),
            decreases width - x,
        {
            let ghost before = out@;
            let g = glyph_index(x, t, width, height, tick);
            let gs = glyph_str(g);
            out.append(gs);
            assert(out@ == before + seq![glyph_of(x as int, t as int, w, h, s)]);
            assert(Seq::new((x + 1) as nat, |i: int| glyph_of(i, t as int, w, h, s)) =~= Seq::new(
                x as nat,
                |i: int| glyph_of(i, t as int, w, h, s),
            ).push(glyph_of(x as int, t as int, w, h, s)));
            assert(out@ =~= line_break() + rows_text(w, h, s, t as nat) + Seq::new(
                (x + 1) as nat,
                |i: int| glyph_of(i, t as int, w, h, s),
            ));
            x = x + 1;
        }
        let ghost before = out@;
        out.append(br);
        assert(Seq::new(width as nat, |i: int| glyph_of(i, t as int, w, h, s)) =~= row_glyphs(
            w,
            h,
            s,
            t as int,
        ));
        assert(rows_text(w, h, s, (t + 1) as nat) == rows_text(w, h, s, t as nat) + row_glyphs(
            w,
            h,
            s,
            t as int,
        ) + line_break());
        assert(out@ =~= line_break() + rows_text(w, h, s, (t + 1) as nat));
        t = t + 1;
    }
    out
}

/// The frame generator: a grid size fixed at creation and the frame of the
/// last tick.
pub struct Eye {
    state: String,
    height: u16,
    width: u16,
}

/// What a generator holds: its grid size and the current frame's text.
pub struct EyeView {
    pub width: nat,
    pub height: nat,
    pub frame: Seq<char>,
}

impl View for Eye {
    type V = EyeView;

    closed spec fn view(&self) -> EyeView {
        EyeView { width: self.width as nat, height: self.height as nat, frame: self.state@ }
    }
}

impl Eye {
    /// A generator for a grid of `width` columns and `height` rows, with no
    /// frame yet.
    pub fn new(width: u16, height: u16) -> (r: Eye)
        ensures
            r@.width == width,
            r@.height == height,
            r@.frame == Seq::<char>::empty(),
    {
        Eye { state: String::new(), height, width }
    }

    /// Replaces the current frame with the one of tick `m`.
    pub fn tick(&mut self, m: u64)
        ensures
            final(self)@.width == old(self)@.width,
            final(self)@.height == old(self)@.height,
            final(self)@.frame == frame_text(old(self)@.width as int, old(self)@.height as int, m as int),
    {
        self.state = generate(self.width, self.height, m);
    }

    /// The current frame.
    pub fn frame(&self) -> (r: &str)
        ensures
            r@ == self@.frame,
    {
        self.state.as_str()
    }

    /// The number of columns.
    pub fn width(&self) -> (r: u16)
        ensures
            r == self@.width,
    {
        self.width
    }

    /// The number of rows.
    pub fn height(&self) -> (r: u16)
        ensures
            r == self@.height,
    {
        self.height
    }
}

} // verus!
