//! How large an attachment is shown: the size in pixels that it is resampled
//! to and the number of terminal cells that it covers.
//!
//! The boxes are given in terminal cells and a cell is taller than wide, so
//! every comparison is made in pixels: a box of `cols` by `rows` cells is
//! `cols * cell_width` by `rows * cell_height` pixels.

use vstd::prelude::*;
use vstd::arithmetic::div_mod::{
    lemma_div_is_ordered, lemma_div_multiples_vanish, lemma_fundamental_div_mod,
};

verus! {

/// The largest factor by which a small image is scaled up. Beyond it the
/// image is only blur.
pub const MAX_UPSCALE: u32 = 4;

/// The largest width or height, in pixels, that an attachment is resampled
/// to. An attachment that is shown as it is may be larger.
pub const MAX_TARGET: u32 = 4_096;

/// The limits within which an attachment is shown.
#[derive(Clone, Copy, Debug, PartialEq, Eq, Structural)]
pub struct AttachmentSizing {
    /// Width of the smallest footprint, in cells.
    pub min_cols: u16,
    /// Height of the smallest footprint, in cells.
    pub min_rows: u16,
    /// Width of the largest footprint, in cells.
    pub max_cols: u16,
    /// Height of the largest footprint, in cells.
    pub max_rows: u16,
    /// Width of a terminal cell, in pixels.
    pub cell_width: u16,
    /// Height of a terminal cell, in pixels.
    pub cell_height: u16,
}

/// A size in pixels together with the cells that it covers.
#[derive(Clone, Copy, Debug, PartialEq, Eq, Structural)]
pub struct TargetSize {
    pub width: u32,
    pub height: u32,
    pub cols: u16,
    pub rows: u16,
}

/// `x`, but at least `lo` and, above all, at most `hi`.
pub open spec fn clamp(x: nat, lo: nat, hi: nat) -> nat {
    if x > hi {
        hi
    } else if x < lo {
        lo
    } else {
        x
    }
}

/// The height of a cell that is `correction_percent` hundredths as tall as it
/// is wide, in pixels: at least one and at most what sixteen bits hold.
pub open spec fn corrected_cell_height(cell_width: nat, correction_percent: nat) -> nat {
    clamp((cell_width * correction_percent / 100) as nat, 1, 65_535)
}

/// The smallest number of cells of `cell` pixels that cover `px` pixels, and
/// at least one.
pub open spec fn cells_covering(px: nat, cell: nat) -> nat {
    if px <= cell {
        1
    } else {
        ((px + cell - 1) as int / cell as int) as nat
    }
}

impl AttachmentSizing {
    /// Width of a cell in pixels, where a width of zero counts as one.
    pub open spec fn cell_w(self) -> nat {
        if self.cell_width == 0 {
            1
        } else {
            self.cell_width as nat
        }
    }

    /// Height of a cell in pixels, where a height of zero counts as one.
    pub open spec fn cell_h(self) -> nat {
        if self.cell_height == 0 {
            1
        } else {
            self.cell_height as nat
        }
    }

    /// Width of the smallest footprint, in pixels.
    pub open spec fn min_w(self) -> nat {
        (self.min_cols * self.cell_w()) as nat
    }

    /// Height of the smallest footprint, in pixels.
    pub open spec fn min_h(self) -> nat {
        (self.min_rows * self.cell_h()) as nat
    }

    /// Width of the largest footprint, in pixels, and at least one.
    pub open spec fn box_w(self) -> nat {
        if self.max_cols * self.cell_w() < 1 {
            1
        } else {
            (self.max_cols * self.cell_w()) as nat
        }
    }

    /// Height of the largest footprint, in pixels, and at least one.
    pub open spec fn box_h(self) -> nat {
        if self.max_rows * self.cell_h() < 1 {
            1
        } else {
            (self.max_rows * self.cell_h()) as nat
        }
    }

    /// The largest width that an image is resampled to: that of the largest
    /// footprint, within [`MAX_TARGET`].
    pub open spec fn max_w(self) -> nat {
        clamp(self.box_w(), 1, 4_096)
    }

    /// The largest height that an image is resampled to: that of the
    /// largest footprint, within [`MAX_TARGET`].
    pub open spec fn max_h(self) -> nat {
        clamp(self.box_h(), 1, 4_096)
    }

    /// Whether an image of `w` by `h` pixels is smaller than the smallest
    /// footprint, in width or in height.
    pub open spec fn below_minimum(self, w: nat, h: nat) -> bool {
        w < self.min_w() || h < self.min_h()
    }

    /// The size that an image of `w` by `h` pixels is scaled up to before the
    /// largest footprint is applied: by the smallest factor that brings both
    /// sides up to the smallest footprint, and by no more than
    /// [`MAX_UPSCALE`].
    pub open spec fn scaled_up(self, w: nat, h: nat) -> (nat, nat) {
        if self.min_w() * h >= self.min_h() * w {
            if self.min_w() > 4 * w {
                (4 * w, 4 * h)
            } else {
                (self.min_w(), (h * self.min_w() / w) as nat)
            }
        } else {
            if self.min_h() > 4 * h {
                (4 * w, 4 * h)
            } else {
                ((w * self.min_h() / h) as nat, self.min_h())
            }
        }
    }

    /// The size that an image of `w` by `h` pixels is scaled down to: the
    /// largest of its shape within the largest footprint.
    pub open spec fn scaled_down(self, w: nat, h: nat) -> (nat, nat) {
        if self.max_w() * h <= self.max_h() * w {
            (self.max_w(), clamp((h * self.max_w() / w) as nat, 1, self.max_h()))
        } else {
            (clamp((w * self.max_h() / h) as nat, 1, self.max_w()), self.max_h())
        }
    }

    /// The size in pixels that an image of `w` by `h` pixels is shown at.
    ///
    /// An image without a size fills the largest footprint. An image smaller
    /// than the smallest footprint is scaled up, and then cut to the largest
    /// footprint. Any other image that exceeds the largest footprint is
    /// scaled down into it, and one that lies within it is left as it is,
    /// however large it is. What is resampled is never resampled to more
    /// than [`MAX_TARGET`] pixels a side.
    pub open spec fn target_px(self, w: nat, h: nat) -> (nat, nat) {
        if w == 0 || h == 0 {
            (self.max_w(), self.max_h())
        } else if self.below_minimum(w, h) {
            let up = self.scaled_up(w, h);
            (clamp(up.0, 1, self.max_w()), clamp(up.1, 1, self.max_h()))
        } else if w > self.box_w() || h > self.box_h() {
            self.scaled_down(w, h)
        } else {
            (w, h)
        }
    }

    /// Whether an image of `w` by `h` pixels is shown as it is.
    pub open spec fn keeps_size(self, w: nat, h: nat) -> bool {
        self.target_px(w, h) == (w, h)
    }

    /// The size in pixels and in cells that an image of `w` by `h` pixels is
    /// shown at.
    pub open spec fn target(self, w: nat, h: nat) -> (nat, nat, nat, nat) {
        let px = self.target_px(w, h);
        (px.0, px.1, cells_covering(px.0, self.cell_w()), cells_covering(px.1, self.cell_h()))
    }

    /// The cells that an image of `w` by `h` pixels covers where it is shown
    /// as it is: as many as hold every pixel, and no more of either than
    /// sixteen bits count.
    pub open spec fn cover(self, w: nat, h: nat) -> (nat, nat) {
        (
            clamp(cells_covering(w, self.cell_w()), 1, 65_535),
            clamp(cells_covering(h, self.cell_h()), 1, 65_535),
        )
    }

    /// The footprint, in cells, reserved for an attachment that declares the
    /// given size: the largest footprint where a side is missing or zero,
    /// and what the declared size is shown at otherwise.
    pub open spec fn footprint(self, declared: (Option<u32>, Option<u32>)) -> (nat, nat) {
        match declared {
            (Some(w), Some(h)) if w > 0 && h > 0 => {
                let t = self.target(w as nat, h as nat);
                (t.2, t.3)
            },
            _ => (self.max_cols as nat, self.max_rows as nat),
        }
    }
}

/// Whether `tw` by `th` has the shape of `w` by `h` as nearly as whole pixels
/// allow: the two cross products differ by less than the longer side of the
/// source.
pub open spec fn keeps_aspect(w: nat, h: nat, tw: nat, th: nat) -> bool {
    let longer = if w >= h {
        w
    } else {
        h
    };
    -longer < tw * h - th * w < longer
}

/// The floor of a quotient, spelled out: `a * b / d` is the one number `q`
/// with `q * d <= a * b < (q + 1) * d`.
proof fn lemma_floor(a: nat, b: nat, d: nat)
    requires
        d > 0,
    ensures
        0 <= (a * b) as int - ((a * b / d) as int) * d < d,
        0 <= a * b / d,
{
    let n = (a * b) as int;
    lemma_fundamental_div_mod(n, d as int);
    assert(n == (d as int) * (n / (d as int)) + n % (d as int));
    assert((d as int) * (n / (d as int)) == (n / (d as int)) * (d as int)) by (nonlinear_arith);
    assert(n / (d as int) >= 0) by (nonlinear_arith)
        requires
            n >= 0,
            d > 0,
            n == (n / (d as int)) * (d as int) + n % (d as int),
            0 <= n % (d as int) < d,
    ;
}

/// A quotient is no larger than a bound on its numerator allows.
proof fn lemma_floor_bounded(a: nat, b: nat, d: nat, bound: nat)
    requires
        d > 0,
        a * b <= bound * d,
    ensures
        a * b / d <= bound,
{
    lemma_div_is_ordered((a * b) as int, (bound * d) as int, d as int);
    lemma_div_multiples_vanish(bound as int, d as int);
    assert((bound * d) as int == (d as int) * (bound as int)) by (nonlinear_arith);
}

/// What is shown always lies within the largest footprint, in pixels and in
/// cells, whatever the size of the source and whether or not it was scaled
/// up to the smallest footprint first.
pub proof fn lemma_target_fits_the_box(sizing: AttachmentSizing, w: nat, h: nat)
    ensures
        1 <= sizing.target(w, h).0 <= sizing.box_w(),
        1 <= sizing.target(w, h).1 <= sizing.box_h(),
        sizing.max_cols >= 1 ==> sizing.box_w() == sizing.max_cols * sizing.cell_w(),
        sizing.max_rows >= 1 ==> sizing.box_h() == sizing.max_rows * sizing.cell_h(),
        sizing.max_cols >= 1 ==> 1 <= sizing.target(w, h).2 <= sizing.max_cols,
        sizing.max_rows >= 1 ==> 1 <= sizing.target(w, h).3 <= sizing.max_rows,
{
    let t = sizing.target(w, h);
    let cw = sizing.cell_w();
    let ch = sizing.cell_h();
    if sizing.max_cols >= 1 {
        assert(sizing.max_cols * cw >= 1) by (nonlinear_arith)
            requires
                sizing.max_cols >= 1,
                cw >= 1,
        ;
        lemma_cells_fit(t.0, cw, sizing.max_cols as nat);
    }
    if sizing.max_rows >= 1 {
        assert(sizing.max_rows * ch >= 1) by (nonlinear_arith)
            requires
                sizing.max_rows >= 1,
                ch >= 1,
        ;
        lemma_cells_fit(t.1, ch, sizing.max_rows as nat);
    }
}

/// What is shown covers the same cells when it is shown again as it is: the
/// cells counted for a size are the cells that cover it.
pub proof fn lemma_target_covers_itself(sizing: AttachmentSizing, w: nat, h: nat, cols: u16, rows: u16)
    requires
        cols == sizing.target(w, h).2,
        rows == sizing.target(w, h).3,
    ensures
        sizing.cover(sizing.target(w, h).0, sizing.target(w, h).1) == (cols as nat, rows as nat),
{
    let t = sizing.target(w, h);
    assert(t.2 == cells_covering(t.0, sizing.cell_w()));
    assert(t.3 == cells_covering(t.1, sizing.cell_h()));
    lemma_target_fits_the_box(sizing, w, h);
    let cw = sizing.cell_w();
    let ch = sizing.cell_h();
    assert(t.0 <= t.0 * cw && t.1 <= t.1 * ch) by (nonlinear_arith)
        requires
            cw >= 1,
            ch >= 1,
    ;
    lemma_cells_fit(t.0, cw, t.0);
    lemma_cells_fit(t.1, ch, t.1);
    assert(sizing.cover(t.0, t.1).0 == clamp(t.2, 1, 65_535));
    assert(sizing.cover(t.0, t.1).1 == clamp(t.3, 1, 65_535));
}

/// The cells of what is shown cover it, and none of them is to spare: the
/// last column and the last row hold at least one pixel each.
pub proof fn lemma_cells_cover_the_target(sizing: AttachmentSizing, w: nat, h: nat)
    ensures
        sizing.target(w, h).0 <= sizing.target(w, h).2 * sizing.cell_w(),
        (sizing.target(w, h).2 - 1) * sizing.cell_w() < sizing.target(w, h).0,
        sizing.target(w, h).1 <= sizing.target(w, h).3 * sizing.cell_h(),
        (sizing.target(w, h).3 - 1) * sizing.cell_h() < sizing.target(w, h).1,
{
    lemma_target_fits_the_box(sizing, w, h);
    let t = sizing.target(w, h);
    lemma_cells_cover(t.0, sizing.cell_w());
    lemma_cells_cover(t.1, sizing.cell_h());
}

/// The cells that cover some pixels hold all of them, the last cell at
/// least one.
proof fn lemma_cells_cover(px: nat, cell: nat)
    requires
        cell >= 1,
        px >= 1,
    ensures
        px <= cells_covering(px, cell) * cell,
        (cells_covering(px, cell) - 1) * cell < px,
{
    if px > cell {
        let num = (px + cell - 1) as int;
        let c = cell as int;
        lemma_fundamental_div_mod(num, c);
        assert(c * (num / c) == (num / c) * c) by (nonlinear_arith);
        assert((num / c - 1) * c == (num / c) * c - c) by (nonlinear_arith);
        assert(num / c >= 1) by (nonlinear_arith)
            requires
                num == (num / c) * c + num % c,
                0 <= num % c < c,
                num >= c,
                c >= 1,
        ;
    } else {
        assert(1 * cell == cell) by (nonlinear_arith);
        assert((1 - 1) * cell == 0) by (nonlinear_arith);
    }
}

/// Pixels that fit in `n` cells are covered by no more than `n` cells.
proof fn lemma_cells_fit(px: nat, cell: nat, n: nat)
    requires
        cell >= 1,
        n >= 1,
        px <= n * cell,
    ensures
        1 <= cells_covering(px, cell) <= n,
{
    if px > cell {
        let num = (px + cell - 1) as int;
        let c = cell as int;
        lemma_fundamental_div_mod(num, c);
        assert(c * (num / c) == (num / c) * c) by (nonlinear_arith);
        assert(num / c <= n && num / c >= 1) by (nonlinear_arith)
            requires
                num == (num / c) * c + num % c,
                0 <= num % c < c,
                num <= n * c + c - 1,
                num >= c,
                c >= 1,
        ;
    }
}

/// The aspect-ratio law. Unless the source is smaller than the smallest
/// footprint, what is shown has the shape of the source as nearly as whole
/// pixels allow.
pub proof fn lemma_target_keeps_aspect(sizing: AttachmentSizing, w: nat, h: nat)
    requires
        w >= 1,
        h >= 1,
        !sizing.below_minimum(w, h),
    ensures
        keeps_aspect(w, h, sizing.target(w, h).0, sizing.target(w, h).1),
{
    let mw = sizing.max_w();
    let mh = sizing.max_h();
    let t = sizing.target_px(w, h);
    assert(sizing.target(w, h).0 == t.0 && sizing.target(w, h).1 == t.1);
    if w > sizing.box_w() || h > sizing.box_h() {
        if mw * h <= mh * w {
            let q = (h * mw / w) as nat;
            lemma_floor(h, mw, w);
            assert(h * mw == mw * h) by (nonlinear_arith);
            lemma_floor_bounded(h, mw, w, mh);
            assert(t.0 == mw);
            assert(0 <= mw * h - q * w < w);
            if q >= 1 {
                assert(t.1 == q);
                assert(t.0 * h - t.1 * w == mw * h - q * w);
            } else {
                assert(t.1 == 1);
                assert(q * w == 0) by (nonlinear_arith)
                    requires
                        q == 0,
                ;
                assert(mw * h >= 1) by (nonlinear_arith)
                    requires
                        mw >= 1,
                        h >= 1,
                ;
                assert(t.0 * h - t.1 * w == mw * h - w) by (nonlinear_arith)
                    requires
                        t.0 == mw,
                        t.1 == 1,
                ;
            }
        } else {
            let q = (w * mh / h) as nat;
            lemma_floor(w, mh, h);
            assert(w * mh == mh * w) by (nonlinear_arith);
            assert(w * mh <= mw * h);
            lemma_floor_bounded(w, mh, h, mw);
            assert(t.1 == mh);
            assert(0 <= mh * w - q * h < h);
            if q >= 1 {
                assert(t.0 == q);
                assert(t.0 * h - t.1 * w == q * h - mh * w);
            } else {
                assert(t.0 == 1);
                assert(q * h == 0) by (nonlinear_arith)
                    requires
                        q == 0,
                ;
                assert(mh * w >= 1) by (nonlinear_arith)
                    requires
                        mh >= 1,
                        w >= 1,
                ;
                assert(t.0 * h - t.1 * w == h - mh * w) by (nonlinear_arith)
                    requires
                        t.0 == 1,
                        t.1 == mh,
                ;
            }
        }
    } else {
        assert(t.0 == w && t.1 == h);
        assert(t.0 * h - t.1 * w == 0) by (nonlinear_arith)
            requires
                t.0 == w,
                t.1 == h,
        ;
    }
}

/// `a * b`, without overflow.
fn mul32(a: u32, b: u32) -> (r: u64)
    ensures
        r == a * b,
{
    assert(a * b <= 0xffff_ffff * 0xffff_ffff) by (nonlinear_arith)
        requires
            0 <= a <= 0xffff_ffff,
            0 <= b <= 0xffff_ffff,
    ;
    (a as u64) * (b as u64)
}

/// `x`, but at least `lo` and, above all, at most `hi`.
fn clamp64(x: u64, lo: u64, hi: u64) -> (r: u64)
    ensures
        r == clamp(x as nat, lo as nat, hi as nat),
{
    if x > hi {
        hi
    } else if x < lo {
        lo
    } else {
        x
    }
}

/// The smallest number of cells that cover `px` pixels, and at least one.
fn cells_for(px: u32, cell: u32) -> (r: u32)
    requires
        cell >= 1,
    ensures
        r == cells_covering(px as nat, cell as nat),
        r >= 1,
        (r - 1) * cell < px || r == 1,
        px <= r * cell,
{
    if px <= cell {
        assert(px <= 1 * cell);
        1
    } else {
        let r64: u64 = (px as u64 + cell as u64 - 1) / (cell as u64);
        proof {
            let n = (px + cell - 1) as int;
            let c = cell as int;
            lemma_fundamental_div_mod(n, c);
            assert(n == c * (n / c) + n % c);
            assert(0 <= n % c < c);
            assert(c * (n / c) == (n / c) * c) by (nonlinear_arith);
            assert(n / c <= px) by (nonlinear_arith)
                requires
                    n == (n / c) * c + n % c,
                    0 <= n % c,
                    c >= 1,
                    n <= px + c - 1,
                    px >= 0,
                    n / c >= 0 || n < 0,
                    n >= 0,
            {
                if n / c > px {
                    assert((n / c) * c >= (px + 1) * c);
                    assert((px + 1) * c >= px + c);
                }
            }
            assert(n / c >= 1) by (nonlinear_arith)
                requires
                    n == (n / c) * c + n % c,
                    n % c < c,
                    n >= c,
                    c >= 1,
            ;
            assert((n / c - 1) * c == (n / c) * c - c) by (nonlinear_arith);
        }
        r64 as u32
    }
}

impl AttachmentSizing {
    /// The limits for the given boxes, in cells, on a terminal whose cells
    /// are `cell_width` pixels wide and `correction_percent` hundredths as
    /// tall as they are wide.
    pub fn new(
        min_box: (u16, u16),
        max_box: (u16, u16),
        cell_width: u16,
        correction_percent: u16,
    ) -> (sizing: AttachmentSizing)
        ensures
            sizing.min_cols == min_box.0,
            sizing.min_rows == min_box.1,
            sizing.max_cols == max_box.0,
            sizing.max_rows == max_box.1,
            sizing.cell_width == cell_width,
            sizing.cell_height == corrected_cell_height(
                cell_width as nat,
                correction_percent as nat,
            ),
    {
        let tall: u64 = mul32(cell_width as u32, correction_percent as u32) / 100;
        let cell_height = clamp64(tall, 1, 65_535) as u16;
        AttachmentSizing {
            min_cols: min_box.0,
            min_rows: min_box.1,
            max_cols: max_box.0,
            max_rows: max_box.1,
            cell_width,
            cell_height,
        }
    }

    /// Width and height of a cell in pixels, neither of them zero.
    fn cell(&self) -> (c: (u32, u32))
        ensures
            c.0 == self.cell_w(),
            c.1 == self.cell_h(),
            1 <= c.0 <= 65_535,
            1 <= c.1 <= 65_535,
    {
        let w = if self.cell_width == 0 {
            1
        } else {
            self.cell_width as u32
        };
        let h = if self.cell_height == 0 {
            1
        } else {
            self.cell_height as u32
        };
        (w, h)
    }

    /// The size in pixels and in cells that an image of `w` by `h` pixels is
    /// shown at.
    pub fn target_size(&self, w: u32, h: u32) -> (t: TargetSize)
        ensures
            (t.width as nat, t.height as nat, t.cols as nat, t.rows as nat) == self.target(
                w as nat,
                h as nat,
            ),
            1 <= t.width,
            1 <= t.height,
            !self.keeps_size(w as nat, h as nat) ==> t.width <= MAX_TARGET && t.height
                <= MAX_TARGET,
    {
        let (cw, ch) = self.cell();
        let min_w: u64 = mul32(self.min_cols as u32, cw);
        let min_h: u64 = mul32(self.min_rows as u32, ch);
        let box_w: u64 = clamp64(mul32(self.max_cols as u32, cw), 1, u64::MAX);
        let box_h: u64 = clamp64(mul32(self.max_rows as u32, ch), 1, u64::MAX);
        let max_w: u64 = clamp64(box_w, 1, MAX_TARGET as u64);
        let max_h: u64 = clamp64(box_h, 1, MAX_TARGET as u64);
        assert(min_w < 0x1_0000_0000 && min_h < 0x1_0000_0000) by (nonlinear_arith)
            requires
                min_w == self.min_cols * cw,
                min_h == self.min_rows * ch,
                self.min_cols <= 65_535,
                self.min_rows <= 65_535,
                cw <= 65_535,
                ch <= 65_535,
        ;
        let w64 = w as u64;
        let h64 = h as u64;
        let (tw, th): (u64, u64) = if w == 0 || h == 0 {
            (max_w, max_h)
        } else if w64 < min_w || h64 < min_h {
            let up: (u64, u64) = if mul32(min_w as u32, h) >= mul32(min_h as u32, w) {
                if min_w > 4 * w64 {
                    (4 * w64, 4 * h64)
                } else {
                    (min_w, mul32(h, min_w as u32) / w64)
                }
            } else {
                if min_h > 4 * h64 {
                    (4 * w64, 4 * h64)
                } else {
                    (mul32(w, min_h as u32) / h64, min_h)
                }
            };
            (clamp64(up.0, 1, max_w), clamp64(up.1, 1, max_h))
        } else if w64 > box_w || h64 > box_h {
            if mul32(max_w as u32, h) <= mul32(max_h as u32, w) {
                (max_w, clamp64(mul32(h, max_w as u32) / w64, 1, max_h))
            } else {
                (clamp64(mul32(w, max_h as u32) / h64, 1, max_w), max_h)
            }
        } else {
            (w64, h64)
        };
        let cols = cells_for(tw as u32, cw);
        let rows = cells_for(th as u32, ch);
        proof {
            assert(cols <= 65_535) by (nonlinear_arith)
                requires
                    (cols - 1) * cw < tw || cols == 1,
                    tw <= 4_096 || tw <= self.max_cols * cw,
                    self.max_cols <= 65_535,
                    cw >= 1,
                    cols >= 1,
            ;
            assert(rows <= 65_535) by (nonlinear_arith)
                requires
                    (rows - 1) * ch < th || rows == 1,
                    th <= 4_096 || th <= self.max_rows * ch,
                    self.max_rows <= 65_535,
                    ch >= 1,
                    rows >= 1,
            ;
        }
        TargetSize { width: tw as u32, height: th as u32, cols: cols as u16, rows: rows as u16 }
    }

    /// The cells that an image of `w` by `h` pixels covers where it is shown
    /// as it is.
    pub fn cover_size(&self, w: u32, h: u32) -> (cells: (u16, u16))
        ensures
            (cells.0 as nat, cells.1 as nat) == self.cover(w as nat, h as nat),
    {
        let (cw, ch) = self.cell();
        let cols = clamp64(cells_for(w, cw) as u64, 1, 65_535);
        let rows = clamp64(cells_for(h, ch) as u64, 1, 65_535);
        (cols as u16, rows as u16)
    }

    /// The footprint, in cells, to reserve for an attachment before it has
    /// been decoded, from the size that its descriptor declares.
    pub fn declared_footprint(&self, declared_width: Option<u32>, declared_height: Option<u32>) -> (cells:
        (u16, u16))
        ensures
            (cells.0 as nat, cells.1 as nat) == self.footprint((declared_width, declared_height)),
    {
        match (declared_width, declared_height) {
            (Some(w), Some(h)) => {
                if w > 0 && h > 0 {
                    let t = self.target_size(w, h);
                    (t.cols, t.rows)
                } else {
                    (self.max_cols, self.max_rows)
                }
            },
            _ => (self.max_cols, self.max_rows),
        }
    }
}

} // verus!
