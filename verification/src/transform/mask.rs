//! The circular mask that turns a square picture into a round avatar.

use vstd::prelude::*;
use vstd::arithmetic::div_mod::lemma_fundamental_div_mod_converse;
use crate::pixels::{ImageView, ProcessedImage};

verus! {

/// Whether the pixel at `(x, y)` of a `w` by `h` image lies outside the
/// circle inscribed around the image's centre: its distance from the centre
/// `(w / 2, h / 2)` exceeds half the shorter side. Stated over doubled
/// lengths, so that no half is ever taken.
pub open spec fn outside_circle(x: int, y: int, w: int, h: int) -> bool {
    let d = if w <= h {
        w
    } else {
        h
    };
    (2 * x - w) * (2 * x - w) + (2 * y - h) * (2 * y - h) > d * d
}

/// Byte `i` of the masked image: the alpha of a pixel outside the circle is
/// zero, and every other byte is as it was.
pub open spec fn masked_byte(v: ImageView, i: int) -> u8 {
    if i % 4 == 3 && outside_circle((i / 4) % (v.width as int), (i / 4) / (v.width as int), v.width as int, v.height as int) {
        0u8
    } else {
        v.pixels[i]
    }
}

/// The image with everything outside the inscribed circle made transparent.
pub open spec fn masked(v: ImageView) -> ImageView {
    ImageView {
        width: v.width,
        height: v.height,
        pixels: Seq::new(v.pixels.len(), |i: int| masked_byte(v, i)),
    }
}

/// Masking keeps the image's size, and masking twice is masking once.
pub proof fn lemma_mask_is_idempotent(v: ImageView)
    ensures
        masked(v).wf() == v.wf(),
        masked(masked(v)) == masked(v),
{
    assert(masked(masked(v)).pixels =~= masked(v).pixels);
}

/// Whether the pixel at `(x, y)` lies outside the inscribed circle.
fn is_outside(x: u32, y: u32, w: u32, h: u32) -> (r: bool)
    requires
        x < w,
        y < h,
    ensures
        r == outside_circle(x as int, y as int, w as int, h as int),
{
    let dx: i128 = 2 * (x as i128) - (w as i128);
    let dy: i128 = 2 * (y as i128) - (h as i128);
    let d: i128 = if w <= h {
        w as i128
    } else {
        h as i128
    };
    assert(0 <= dx * dx <= 0x2_0000_0000 * 0x2_0000_0000) by (nonlinear_arith)
        requires
            -0x2_0000_0000 <= dx <= 0x2_0000_0000,
    ;
    assert(0 <= dy * dy <= 0x2_0000_0000 * 0x2_0000_0000) by (nonlinear_arith)
        requires
            -0x2_0000_0000 <= dy <= 0x2_0000_0000,
    ;
    assert(0 <= d * d <= 0x1_0000_0000 * 0x1_0000_0000) by (nonlinear_arith)
        requires
            0 <= d <= 0x1_0000_0000,
    ;
    dx * dx + dy * dy > d * d
}

/// Makes everything outside the inscribed circle transparent.
pub fn circle_mask(img: ProcessedImage) -> (out: ProcessedImage)
    requires
        img.wf(),
    ensures
        out.wf(),
        out@ == masked(img@),
{
    let ghost v = img@;
    let (w, h, mut pixels) = img.into_parts();
    let total: usize = pixels.len() / 4;
    assert(pixels@.len() == 4 * ((w as nat) * (h as nat))) by (nonlinear_arith)
        requires
            pixels@.len() == 4 * (w as nat) * (h as nat),
    ;
    assert(total == (w as nat) * (h as nat));
    let mut x: u32 = 0;
    let mut y: u32 = 0;
    let mut p: usize = 0;
    while p < total
        invariant
            v.wf(),
            w == v.width,
            h == v.height,
            total == w * h,
            4 * total <= usize::MAX,
            pixels@.len() == 4 * total,
            pixels@.len() == v.pixels.len(),
            p <= total,
            p == y * w + x,
            x < w,
            forall|i: int| 0 <= i < 4 * p ==> pixels@[i] == masked_byte(v, i),
            forall|i: int| 4 * p <= i < pixels@.len() ==> pixels@[i] == v.pixels[i],
        decreases total - p,
    {
        proof {
            lemma_fundamental_div_mod_converse(p as int, w as int, y as int, x as int);
            assert(y < h) by (nonlinear_arith)
                requires
                    p == y * w + x,
                    p < w * h,
                    0 <= x,
                    0 <= w,
            ;
        }
        if is_outside(x, y, w, h) {
            pixels.set(4 * p + 3, 0);
        }
        proof {
            assert forall|i: int| 4 * p <= i < 4 * (p + 1) implies pixels@[i] == masked_byte(
                v,
                i,
            ) by {
                assert(i / 4 == p);
                if i % 4 == 3 {
                    assert(i == 4 * p + 3);
                }
            }
        }
        p += 1;
        if x + 1 < w {
            x += 1;
        } else {
            assert((y + 1) * w == y * w + w) by (nonlinear_arith);
            x = 0;
            y += 1;
        }
    }
    proof {
        assert(pixels@ =~= masked(v).pixels);
    }
    let out = ProcessedImage::from_rgba(w, h, pixels);
    out.unwrap()
}

} // verus!
