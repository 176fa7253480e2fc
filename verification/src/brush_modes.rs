//! Integer blend modes that apply one dab to a premultiplied RGBA buffer.
//!
//! Channels are 16-bit fixed-point fractions of [`SCALE`] (`2^15`); the
//! buffer holds four channels per pixel (red, green, blue, alpha), with the
//! colour channels premultiplied by alpha. A dab is described by a
//! run-length encoded mask (see [`crate::dab_mask`]) whose values weigh the
//! dab's opacity at each covered pixel.
use vstd::prelude::*;
use crate::dab_mask::{
    dab_pixels, decode_mask, lemma_dab_layout, mask_fits, pixel_view, pixels_aligned,
    pixels_laid_out,
};

verus! {

/// Fixed-point one for channels, mask values and opacities.
pub const SCALE: u32 = 32768;

/// The four channels of the pixel whose first channel is at `o`.
pub open spec fn pixel_at(buf: Seq<u16>, o: int) -> Seq<u16> {
    buf.subrange(o, o + 4)
}

/// The four channels at `o` hold `px`.
pub open spec fn channels_are(buf: Seq<u16>, o: int, px: Seq<u16>) -> bool {
    &&& buf[o] == px[0]
    &&& buf[o + 1] == px[1]
    &&& buf[o + 2] == px[2]
    &&& buf[o + 3] == px[3]
}

/// Channel `k` belongs to one of the first `n` pixels.
pub open spec fn covered_upto(pixels: Seq<(u16, int)>, n: int, k: int) -> bool {
    exists|j: int| 0 <= j < n && #[trigger] pixels[j].1 <= k < pixels[j].1 + 4
}

/// `new` is `old` with the first `n` pixels replaced by what `f` makes of
/// their mask value and their channels in `old`; every other channel is kept.
pub open spec fn dab_applied_upto(
    old: Seq<u16>,
    new: Seq<u16>,
    pixels: Seq<(u16, int)>,
    f: spec_fn(u16, Seq<u16>) -> Seq<u16>,
    n: int,
) -> bool {
    &&& new.len() == old.len()
    &&& forall|j: int|
        0 <= j < n ==> channels_are(
            new,
            #[trigger] pixels[j].1,
            f(pixels[j].0, pixel_at(old, pixels[j].1)),
        )
    &&& forall|k: int| 0 <= k < old.len() && !covered_upto(pixels, n, k) ==> #[trigger] new[k] == old[k]
}

/// `new` is `old` with every pixel of `pixels` replaced by `f` of its mask
/// value and its channels in `old`, and every other channel kept.
pub open spec fn dab_applied(
    old: Seq<u16>,
    new: Seq<u16>,
    pixels: Seq<(u16, int)>,
    f: spec_fn(u16, Seq<u16>) -> Seq<u16>,
) -> bool {
    dab_applied_upto(old, new, pixels, f, pixels.len() as int)
}

/// `ok` holds of every covered pixel's mask value and channels in `buf`.
pub open spec fn dab_within(
    buf: Seq<u16>,
    pixels: Seq<(u16, int)>,
    ok: spec_fn(u16, Seq<u16>) -> bool,
) -> bool {
    forall|j: int| 0 <= j < pixels.len() ==> ok(#[trigger] pixels[j].0, pixel_at(buf, pixels[j].1))
}

/// The opacity of the dab at a pixel whose mask value is `m`.
pub open spec fn mask_opacity(m: u16, opacity: u16) -> int {
    (m as int) * (opacity as int) / (SCALE as int)
}

/// A colour channel composited over `cur` with weights `opa_a` (for
/// `target`) and `opa_b` (for `cur`), truncated to 16 bits.
pub open spec fn over(opa_a: int, target: int, opa_b: int, cur: int) -> u16 {
    ((opa_a * target + opa_b * cur) / (SCALE as int)) as u16
}

/// An alpha channel composited over `cur` with weights `opa_a` and `opa_b`,
/// truncated to 16 bits.
pub open spec fn over_alpha(opa_a: int, opa_b: int, cur: int) -> u16 {
    (opa_a + opa_b * cur / (SCALE as int)) as u16
}

/// The "normal" mode is defined at a pixel when the dab's opacity there is at
/// most one.
pub open spec fn normal_defined(opacity: u16) -> spec_fn(u16, Seq<u16>) -> bool {
    |m: u16, px: Seq<u16>| mask_opacity(m, opacity) <= SCALE
}

/// What the "normal" mode makes of a pixel: the colour composited over it
/// with the dab's opacity.
pub open spec fn normal_pixel(opacity: u16, color_r: u16, color_g: u16, color_b: u16) -> spec_fn(
    u16,
    Seq<u16>,
) -> Seq<u16> {
    |m: u16, px: Seq<u16>|
        {
            let a = mask_opacity(m, opacity);
            let b = SCALE - a;
            seq![
                over(a, color_r as int, b, px[0] as int),
                over(a, color_g as int, b, px[1] as int),
                over(a, color_b as int, b, px[2] as int),
                over_alpha(a, b, px[3] as int),
            ]
        }
}

/// The "normal and eraser" mode is defined at a pixel when the dab's opacity
/// there is at most one and no colour channel's sum overflows 32 bits.
pub open spec fn eraser_defined(
    color_r: u16,
    color_g: u16,
    color_b: u16,
    color_a: u16,
    opacity: u16,
) -> spec_fn(u16, Seq<u16>) -> bool {
    |m: u16, px: Seq<u16>|
        {
            let a = mask_opacity(m, opacity);
            let b = SCALE - a;
            let a2 = a * color_a / (SCALE as int);
            &&& a <= SCALE
            &&& a2 * color_r + b * px[0] <= u32::MAX
            &&& a2 * color_g + b * px[1] <= u32::MAX
            &&& a2 * color_b + b * px[2] <= u32::MAX
        }
}

/// What the "normal and eraser" mode makes of a pixel: the colour composited
/// with its weight scaled by `color_a`, while the background keeps the weight
/// of the full dab opacity.
pub open spec fn eraser_pixel(
    color_r: u16,
    color_g: u16,
    color_b: u16,
    color_a: u16,
    opacity: u16,
) -> spec_fn(u16, Seq<u16>) -> Seq<u16> {
    |m: u16, px: Seq<u16>|
        {
            let a = mask_opacity(m, opacity);
            let b = SCALE - a;
            let a2 = a * color_a / (SCALE as int);
            seq![
                over(a2, color_r as int, b, px[0] as int),
                over(a2, color_g as int, b, px[1] as int),
                over(a2, color_b as int, b, px[2] as int),
                over_alpha(a2, b, px[3] as int),
            ]
        }
}

/// The "lock alpha" weight of the dab at a pixel: the dab's opacity scaled by
/// the pixel's own alpha.
pub open spec fn lock_alpha_opacity(m: u16, opacity: u16, alpha: u16) -> int {
    mask_opacity(m, opacity) * alpha / (SCALE as int)
}

/// The "lock alpha" mode is defined at a pixel when scaling by the pixel's
/// alpha does not overflow 32 bits and the resulting weight is at most one.
pub open spec fn lock_alpha_defined(opacity: u16) -> spec_fn(u16, Seq<u16>) -> bool {
    |m: u16, px: Seq<u16>|
        {
            &&& mask_opacity(m, opacity) * px[3] <= u32::MAX
            &&& lock_alpha_opacity(m, opacity, px[3]) <= SCALE
        }
}

/// What the "lock alpha" mode makes of a pixel: the colour composited with a
/// weight scaled by the pixel's alpha; the alpha itself is kept.
pub open spec fn lock_alpha_pixel(opacity: u16, color_r: u16, color_g: u16, color_b: u16) -> spec_fn(
    u16,
    Seq<u16>,
) -> Seq<u16> {
    |m: u16, px: Seq<u16>|
        {
            let a = lock_alpha_opacity(m, opacity, px[3]);
            let b = SCALE - a;
            seq![
                over(a, color_r as int, b, px[0] as int),
                over(a, color_g as int, b, px[1] as int),
                over(a, color_b as int, b, px[2] as int),
                px[3],
            ]
        }
}

/// Nothing has been written yet: `buf` is `old` itself.
pub proof fn lemma_applied_none(
    old: Seq<u16>,
    pixels: Seq<(u16, int)>,
    f: spec_fn(u16, Seq<u16>) -> Seq<u16>,
)
    ensures
        dab_applied_upto(old, old, pixels, f, 0),
{
}

/// While the first `n` pixels have been written, pixel `n` still holds its
/// channels from before the dab.
pub proof fn lemma_pending_pixel(
    old: Seq<u16>,
    cur: Seq<u16>,
    pixels: Seq<(u16, int)>,
    f: spec_fn(u16, Seq<u16>) -> Seq<u16>,
    n: int,
)
    requires
        pixels_laid_out(pixels, old.len() as int),
        0 <= n < pixels.len(),
        dab_applied_upto(old, cur, pixels, f, n),
    ensures
        pixel_at(cur, pixels[n].1) == pixel_at(old, pixels[n].1),
        channels_are(cur, pixels[n].1, pixel_at(old, pixels[n].1)),
{
    let o = pixels[n].1;
    assert forall|k: int| o <= k < o + 4 implies #[trigger] cur[k] == old[k] by {
        if covered_upto(pixels, n, k) {
            let j = choose|j: int| 0 <= j < n && #[trigger] pixels[j].1 <= k < pixels[j].1 + 4;
            assert(pixels[j].1 + 4 <= pixels[n].1);
        }
    }
    assert(pixel_at(cur, o) =~= pixel_at(old, o));
}

/// Writing pixel `n` extends the written prefix by one pixel.
pub proof fn lemma_applied_step(
    old: Seq<u16>,
    cur: Seq<u16>,
    next: Seq<u16>,
    pixels: Seq<(u16, int)>,
    f: spec_fn(u16, Seq<u16>) -> Seq<u16>,
    n: int,
)
    requires
        pixels_laid_out(pixels, old.len() as int),
        0 <= n < pixels.len(),
        dab_applied_upto(old, cur, pixels, f, n),
        next.len() == cur.len(),
        channels_are(next, pixels[n].1, f(pixels[n].0, pixel_at(old, pixels[n].1))),
        forall|k: int|
            0 <= k < cur.len() && !(pixels[n].1 <= k < pixels[n].1 + 4) ==> next[k] == cur[k],
    ensures
        dab_applied_upto(old, next, pixels, f, n + 1),
{
    let o = pixels[n].1;
    assert forall|j: int| 0 <= j < n + 1 implies channels_are(
        next,
        #[trigger] pixels[j].1,
        f(pixels[j].0, pixel_at(old, pixels[j].1)),
    ) by {
        if j < n {
            assert(pixels[j].1 + 4 <= pixels[n].1);
            assert(channels_are(cur, pixels[j].1, f(pixels[j].0, pixel_at(old, pixels[j].1))));
        }
    }
    assert forall|k: int| 0 <= k < old.len() && !covered_upto(pixels, n + 1, k) implies #[trigger] next[k]
        == old[k] by {
        assert(!(pixels[n].1 <= k < pixels[n].1 + 4));
        if covered_upto(pixels, n, k) {
            let j = choose|j: int| 0 <= j < n && #[trigger] pixels[j].1 <= k < pixels[j].1 + 4;
            assert(0 <= j < n + 1 && pixels[j].1 <= k < pixels[j].1 + 4);
        }
    }
}

/// The alpha channel of every pixel of `buf`, old or new, covered or not,
/// is the same in `new` as in `old`.
pub open spec fn alpha_kept(old: Seq<u16>, new: Seq<u16>) -> bool {
    forall|k: int| 0 <= k < old.len() && k % 4 == 3 ==> #[trigger] new[k] == old[k]
}

/// A mode that keeps the alpha of every pixel it writes keeps every alpha
/// channel of the buffer.
pub proof fn lemma_alpha_kept(
    old: Seq<u16>,
    new: Seq<u16>,
    pixels: Seq<(u16, int)>,
    f: spec_fn(u16, Seq<u16>) -> Seq<u16>,
)
    requires
        pixels_laid_out(pixels, old.len() as int),
        pixels_aligned(pixels),
        dab_applied(old, new, pixels, f),
        forall|j: int|
            0 <= j < pixels.len() ==> f(#[trigger] pixels[j].0, pixel_at(old, pixels[j].1))[3]
                == old[pixels[j].1 + 3],
    ensures
        alpha_kept(old, new),
{
    assert forall|k: int| 0 <= k < old.len() && k % 4 == 3 implies #[trigger] new[k] == old[k] by {
        if covered_upto(pixels, pixels.len() as int, k) {
            let j = choose|j: int|
                0 <= j < pixels.len() && #[trigger] pixels[j].1 <= k < pixels[j].1 + 4;
            assert(pixels[j].1 % 4 == 0);
            assert(k == pixels[j].1 + 3);
            assert(channels_are(new, pixels[j].1, f(pixels[j].0, pixel_at(old, pixels[j].1))));
        }
    }
}

/// `rel` holds between each of the first `n` pixels' mask value, its
/// channels in `old` and its channels in `new`; every other channel is kept.
pub open spec fn dab_related_upto(
    old: Seq<u16>,
    new: Seq<u16>,
    pixels: Seq<(u16, int)>,
    rel: spec_fn(u16, Seq<u16>, Seq<u16>) -> bool,
    n: int,
) -> bool {
    &&& new.len() == old.len()
    &&& forall|j: int|
        #![trigger pixels[j]]
        0 <= j < n ==> rel(pixels[j].0, pixel_at(old, pixels[j].1), pixel_at(new, pixels[j].1))
    &&& forall|k: int| 0 <= k < old.len() && !covered_upto(pixels, n, k) ==> #[trigger] new[k] == old[k]
}

/// `rel` holds between every covered pixel's mask value, its channels in
/// `old` and its channels in `new`; every channel outside the dab is kept.
pub open spec fn dab_related(
    old: Seq<u16>,
    new: Seq<u16>,
    pixels: Seq<(u16, int)>,
    rel: spec_fn(u16, Seq<u16>, Seq<u16>) -> bool,
) -> bool {
    dab_related_upto(old, new, pixels, rel, pixels.len() as int)
}

/// Writing pixel `n` extends the related prefix by one pixel.
pub proof fn lemma_related_step(
    old: Seq<u16>,
    cur: Seq<u16>,
    next: Seq<u16>,
    pixels: Seq<(u16, int)>,
    rel: spec_fn(u16, Seq<u16>, Seq<u16>) -> bool,
    n: int,
)
    requires
        pixels_laid_out(pixels, old.len() as int),
        0 <= n < pixels.len(),
        dab_related_upto(old, cur, pixels, rel, n),
        next.len() == cur.len(),
        rel(pixels[n].0, pixel_at(old, pixels[n].1), pixel_at(next, pixels[n].1)),
        forall|k: int|
            0 <= k < cur.len() && !(pixels[n].1 <= k < pixels[n].1 + 4) ==> next[k] == cur[k],
    ensures
        dab_related_upto(old, next, pixels, rel, n + 1),
{
    assert forall|j: int| 0 <= j < n + 1 implies rel(
        pixels[j].0,
        pixel_at(old, pixels[j].1),
        pixel_at(next, #[trigger] pixels[j].1),
    ) by {
        if j < n {
            assert(pixels[j].1 + 4 <= pixels[n].1);
            assert(pixel_at(next, pixels[j].1) =~= pixel_at(cur, pixels[j].1));
        }
    }
    assert forall|k: int| 0 <= k < old.len() && !covered_upto(pixels, n + 1, k) implies #[trigger] next[k]
        == old[k] by {
        assert(!(pixels[n].1 <= k < pixels[n].1 + 4));
        if covered_upto(pixels, n, k) {
            let j = choose|j: int| 0 <= j < n && #[trigger] pixels[j].1 <= k < pixels[j].1 + 4;
            assert(0 <= j < n + 1 && pixels[j].1 <= k < pixels[j].1 + 4);
        }
    }
}

/// While the first `n` pixels have been related, pixel `n` still holds its
/// channels from before the dab.
pub proof fn lemma_related_pending(
    old: Seq<u16>,
    cur: Seq<u16>,
    pixels: Seq<(u16, int)>,
    rel: spec_fn(u16, Seq<u16>, Seq<u16>) -> bool,
    n: int,
)
    requires
        pixels_laid_out(pixels, old.len() as int),
        0 <= n < pixels.len(),
        dab_related_upto(old, cur, pixels, rel, n),
    ensures
        pixel_at(cur, pixels[n].1) == pixel_at(old, pixels[n].1),
        channels_are(cur, pixels[n].1, pixel_at(old, pixels[n].1)),
{
    let o = pixels[n].1;
    assert forall|k: int| o <= k < o + 4 implies #[trigger] cur[k] == old[k] by {
        if covered_upto(pixels, n, k) {
            let j = choose|j: int| 0 <= j < n && #[trigger] pixels[j].1 <= k < pixels[j].1 + 4;
            assert(pixels[j].1 + 4 <= pixels[n].1);
        }
    }
    assert(pixel_at(cur, o) =~= pixel_at(old, o));
}

/// A mode whose relation keeps each written pixel's alpha keeps every alpha
/// channel of the buffer.
pub proof fn lemma_related_alpha_kept(
    old: Seq<u16>,
    new: Seq<u16>,
    pixels: Seq<(u16, int)>,
    rel: spec_fn(u16, Seq<u16>, Seq<u16>) -> bool,
)
    requires
        pixels_laid_out(pixels, old.len() as int),
        pixels_aligned(pixels),
        dab_related(old, new, pixels, rel),
        forall|m: u16, px: Seq<u16>, np: Seq<u16>| #[trigger] rel(m, px, np) ==> np[3] == px[3],
    ensures
        alpha_kept(old, new),
{
    assert forall|k: int| 0 <= k < old.len() && k % 4 == 3 implies #[trigger] new[k] == old[k] by {
        if covered_upto(pixels, pixels.len() as int, k) {
            let j = choose|j: int|
                0 <= j < pixels.len() && #[trigger] pixels[j].1 <= k < pixels[j].1 + 4;
            assert(pixels[j].1 % 4 == 0);
            assert(k == pixels[j].1 + 3);
            assert(rel(pixels[j].0, pixel_at(old, pixels[j].1), pixel_at(new, pixels[j].1)));
        }
    }
}

/// Two weights that add up to one keep a composite of 16-bit channels far
/// below `u32::MAX`.
proof fn lemma_composite_bound(a: int, b: int, t: int, c: int)
    requires
        0 <= a,
        0 <= b,
        a + b == SCALE,
        0 <= t <= u16::MAX,
        0 <= c <= u16::MAX,
    ensures
        0 <= a * t,
        0 <= b * c,
        a * t + b * c <= SCALE * u16::MAX,
        b * c / (SCALE as int) <= u16::MAX,
{
    assert(0 <= a * t && 0 <= b * c && a * t + b * c <= SCALE * u16::MAX) by (nonlinear_arith)
        requires
            0 <= a,
            0 <= b,
            a + b == SCALE,
            0 <= t <= u16::MAX,
            0 <= c <= u16::MAX,
    ;
    assert(b * c <= SCALE * u16::MAX) by (nonlinear_arith)
        requires
            0 <= b <= SCALE,
            0 <= c <= u16::MAX,
    ;
}

/// The dab opacity at a mask value, `m * opacity / SCALE`.
pub fn dab_opacity(m: u16, opacity: u16) -> (a: u32)
    ensures
        a == mask_opacity(m, opacity),
{
    assert((m as int) * (opacity as int) <= u16::MAX * u16::MAX) by (nonlinear_arith)
        requires
            0 <= m <= u16::MAX,
            0 <= opacity <= u16::MAX,
    ;
    assert(0 <= (m as int) * (opacity as int)) by (nonlinear_arith)
        requires
            0 <= m,
            0 <= opacity,
    ;
    m as u32 * opacity as u32 / SCALE
}

/// One colour channel composited over `cur`.
pub fn composite(opa_a: u32, target: u32, opa_b: u32, cur: u16) -> (r: u16)
    requires
        opa_a * target + opa_b * cur <= u32::MAX,
    ensures
        r == over(opa_a as int, target as int, opa_b as int, cur as int),
{
    assert(0 <= opa_a * target && 0 <= opa_b * cur) by (nonlinear_arith)
        requires
            0 <= opa_a,
            0 <= target,
            0 <= opa_b,
            0 <= cur,
    ;
    ((opa_a * target + opa_b * cur as u32) / SCALE) as u16
}

/// One alpha channel composited over `cur`.
pub fn composite_alpha(opa_a: u32, opa_b: u32, cur: u16) -> (r: u16)
    requires
        opa_a <= 2 * SCALE,
        opa_b <= SCALE,
    ensures
        r == over_alpha(opa_a as int, opa_b as int, cur as int),
{
    assert(0 <= opa_b * cur <= SCALE * u16::MAX) by (nonlinear_arith)
        requires
            0 <= opa_b <= SCALE,
            0 <= cur <= u16::MAX,
    ;
    (opa_a + opa_b * cur as u32 / SCALE) as u16
}

/// Normal blend mode: composites the colour over every pixel that the mask
/// covers, premultiplied "over" with the dab's opacity at that pixel.
pub fn draw_dab_pixels_normal(
    mask: &[u16],
    rgba: &mut [u16],
    color_r: u16,
    color_g: u16,
    color_b: u16,
    opacity: u16,
)
    requires
        mask_fits(mask@, old(rgba)@.len() as int),
        dab_within(old(rgba)@, dab_pixels(mask@), normal_defined(opacity)),
    ensures
        dab_applied(
            old(rgba)@,
            final(rgba)@,
            dab_pixels(mask@),
            normal_pixel(opacity, color_r, color_g, color_b),
        ),
{
    let ghost orig = rgba@;
    let ghost pv = dab_pixels(mask@);
    let ghost f = normal_pixel(opacity, color_r, color_g, color_b);
    let pixels = decode_mask(mask, rgba.len());
    proof {
        lemma_dab_layout(mask@, orig.len() as int);
        lemma_applied_none(orig, pv, f);
    }
    let mut j: usize = 0;
    while j < pixels.len()
        invariant
            pixel_view(pixels@) == pv,
            pixels_laid_out(pv, orig.len() as int),
            j <= pixels@.len(),
            rgba@.len() == orig.len(),
            dab_applied_upto(orig, rgba@, pv, f, j as int),
            dab_within(orig, pv, normal_defined(opacity)),
            f == normal_pixel(opacity, color_r, color_g, color_b),
        decreases pixels@.len() - j,
    {
        let (m, o) = pixels[j];
        let ghost cur = rgba@;
        proof {
            assert(pv[j as int] == (m, o as int));
            lemma_pending_pixel(orig, cur, pv, f, j as int);
            assert(normal_defined(opacity)(pv[j as int].0, pixel_at(orig, pv[j as int].1)));
        }
        let opa_a = dab_opacity(m, opacity);
        let opa_b = SCALE - opa_a;
        let (r, g, b, a) = (rgba[o], rgba[o + 1], rgba[o + 2], rgba[o + 3]);
        proof {
            lemma_composite_bound(opa_a as int, opa_b as int, color_r as int, r as int);
            lemma_composite_bound(opa_a as int, opa_b as int, color_g as int, g as int);
            lemma_composite_bound(opa_a as int, opa_b as int, color_b as int, b as int);
            lemma_composite_bound(opa_a as int, opa_b as int, 0, a as int);
        }
        let na = composite_alpha(opa_a, opa_b, a);
        let nr = composite(opa_a, color_r as u32, opa_b, r);
        let ng = composite(opa_a, color_g as u32, opa_b, g);
        let nb = composite(opa_a, color_b as u32, opa_b, b);
        rgba[o + 3] = na;
        rgba[o] = nr;
        rgba[o + 1] = ng;
        rgba[o + 2] = nb;
        proof {
            let px = pixel_at(orig, o as int);
            assert(px[0] == r && px[1] == g && px[2] == b && px[3] == a);
            lemma_applied_step(orig, cur, rgba@, pv, f, j as int);
        }
        j = j + 1;
    }
}

/// Normal blend mode with erasing: `color_a` scales the colour's weight while
/// the background keeps the weight of the full dab opacity, so `color_a ==
/// SCALE` paints as the normal mode does and `color_a == 0` erases toward
/// transparency.
pub fn draw_dab_pixels_normal_and_eraser(
    mask: &[u16],
    rgba: &mut [u16],
    color_r: u16,
    color_g: u16,
    color_b: u16,
    color_a: u16,
    opacity: u16,
)
    requires
        mask_fits(mask@, old(rgba)@.len() as int),
        dab_within(
            old(rgba)@,
            dab_pixels(mask@),
            eraser_defined(color_r, color_g, color_b, color_a, opacity),
        ),
    ensures
        dab_applied(
            old(rgba)@,
            final(rgba)@,
            dab_pixels(mask@),
            eraser_pixel(color_r, color_g, color_b, color_a, opacity),
        ),
{
    let ghost orig = rgba@;
    let ghost pv = dab_pixels(mask@);
    let ghost f = eraser_pixel(color_r, color_g, color_b, color_a, opacity);
    let ghost ok = eraser_defined(color_r, color_g, color_b, color_a, opacity);
    let pixels = decode_mask(mask, rgba.len());
    proof {
        lemma_dab_layout(mask@, orig.len() as int);
        lemma_applied_none(orig, pv, f);
    }
    let mut j: usize = 0;
    while j < pixels.len()
        invariant
            pixel_view(pixels@) == pv,
            pixels_laid_out(pv, orig.len() as int),
            j <= pixels@.len(),
            rgba@.len() == orig.len(),
            dab_applied_upto(orig, rgba@, pv, f, j as int),
            dab_within(orig, pv, ok),
            f == eraser_pixel(color_r, color_g, color_b, color_a, opacity),
            ok == eraser_defined(color_r, color_g, color_b, color_a, opacity),
        decreases pixels@.len() - j,
    {
        let (m, o) = pixels[j];
        let ghost cur = rgba@;
        proof {
            assert(pv[j as int] == (m, o as int));
            lemma_pending_pixel(orig, cur, pv, f, j as int);
            assert(ok(pv[j as int].0, pixel_at(orig, pv[j as int].1)));
        }
        let opa_a = dab_opacity(m, opacity);
        let opa_b = SCALE - opa_a;
        assert(0 <= opa_a * color_a <= SCALE * u16::MAX && opa_a * color_a / (SCALE as int)
            <= u16::MAX) by (nonlinear_arith)
            requires
                0 <= opa_a <= SCALE,
                0 <= color_a <= u16::MAX,
        ;
        let opa_a2 = opa_a * color_a as u32 / SCALE;
        let (r, g, b, a) = (rgba[o], rgba[o + 1], rgba[o + 2], rgba[o + 3]);
        let na = composite_alpha(opa_a2, opa_b, a);
        let nr = composite(opa_a2, color_r as u32, opa_b, r);
        let ng = composite(opa_a2, color_g as u32, opa_b, g);
        let nb = composite(opa_a2, color_b as u32, opa_b, b);
        rgba[o + 3] = na;
        rgba[o] = nr;
        rgba[o + 1] = ng;
        rgba[o + 2] = nb;
        proof {
            let px = pixel_at(orig, o as int);
            assert(px[0] == r && px[1] == g && px[2] == b && px[3] == a);
            lemma_applied_step(orig, cur, rgba@, pv, f, j as int);
        }
        j = j + 1;
    }
}

/// Lock-alpha blend mode: composites the colour with the dab's opacity scaled
/// by each pixel's own alpha, and leaves every alpha channel as it was.
pub fn draw_dab_pixels_lock_alpha(
    mask: &[u16],
    rgba: &mut [u16],
    color_r: u16,
    color_g: u16,
    color_b: u16,
    opacity: u16,
)
    requires
        mask_fits(mask@, old(rgba)@.len() as int),
        dab_within(old(rgba)@, dab_pixels(mask@), lock_alpha_defined(opacity)),
    ensures
        dab_applied(
            old(rgba)@,
            final(rgba)@,
            dab_pixels(mask@),
            lock_alpha_pixel(opacity, color_r, color_g, color_b),
        ),
        alpha_kept(old(rgba)@, final(rgba)@),
{
    let ghost orig = rgba@;
    let ghost pv = dab_pixels(mask@);
    let ghost f = lock_alpha_pixel(opacity, color_r, color_g, color_b);
    let ghost ok = lock_alpha_defined(opacity);
    let pixels = decode_mask(mask, rgba.len());
    proof {
        lemma_dab_layout(mask@, orig.len() as int);
        lemma_applied_none(orig, pv, f);
    }
    let mut j: usize = 0;
    while j < pixels.len()
        invariant
            pixel_view(pixels@) == pv,
            pixels_laid_out(pv, orig.len() as int),
            j <= pixels@.len(),
            rgba@.len() == orig.len(),
            dab_applied_upto(orig, rgba@, pv, f, j as int),
            dab_within(orig, pv, ok),
            f == lock_alpha_pixel(opacity, color_r, color_g, color_b),
            ok == lock_alpha_defined(opacity),
        decreases pixels@.len() - j,
    {
        let (m, o) = pixels[j];
        let ghost cur = rgba@;
        proof {
            assert(pv[j as int] == (m, o as int));
            lemma_pending_pixel(orig, cur, pv, f, j as int);
            assert(ok(pv[j as int].0, pixel_at(orig, pv[j as int].1)));
        }
        let (r, g, b, a) = (rgba[o], rgba[o + 1], rgba[o + 2], rgba[o + 3]);
        let opa_m = dab_opacity(m, opacity);
        assert(0 <= opa_m * a) by (nonlinear_arith)
            requires
                0 <= opa_m,
                0 <= a,
        ;
        let opa_a = opa_m * a as u32 / SCALE;
        let opa_b = SCALE - opa_a;
        proof {
            lemma_composite_bound(opa_a as int, opa_b as int, color_r as int, r as int);
            lemma_composite_bound(opa_a as int, opa_b as int, color_g as int, g as int);
            lemma_composite_bound(opa_a as int, opa_b as int, color_b as int, b as int);
        }
        let nr = composite(opa_a, color_r as u32, opa_b, r);
        let ng = composite(opa_a, color_g as u32, opa_b, g);
        let nb = composite(opa_a, color_b as u32, opa_b, b);
        rgba[o] = nr;
        rgba[o + 1] = ng;
        rgba[o + 2] = nb;
        proof {
            let px = pixel_at(orig, o as int);
            assert(px[0] == r && px[1] == g && px[2] == b && px[3] == a);
            lemma_applied_step(orig, cur, rgba@, pv, f, j as int);
        }
        j = j + 1;
    }
    proof {
        assert forall|jj: int| 0 <= jj < pv.len() implies f(
            #[trigger] pv[jj].0,
            pixel_at(orig, pv[jj].1),
        )[3] == orig[pv[jj].1 + 3] by {
        }
        lemma_alpha_kept(orig, rgba@, pv, f);
    }
}

/// Integer colour sums over the pixels that a mask covers.
#[derive(Debug, Clone, Copy, PartialEq, Eq)]
pub struct ColorSums {
    /// Sum of the mask values.
    pub weight: u32,
    /// Sums of each channel weighted by its pixel's mask value, in units of
    /// `1 / SCALE`.
    pub r: u32,
    pub g: u32,
    pub b: u32,
    pub a: u32,
}

/// Sum of the mask values of `pixels`.
pub open spec fn weight_sum(pixels: Seq<(u16, int)>) -> int
    decreases pixels.len(),
{
    if pixels.len() == 0 {
        0
    } else {
        weight_sum(pixels.drop_last()) + pixels.last().0
    }
}

/// Sum over `pixels` of channel `c` weighted by the mask value, each term
/// truncated to whole units of `1 / SCALE`.
pub open spec fn channel_sum(buf: Seq<u16>, pixels: Seq<(u16, int)>, c: int) -> int
    decreases pixels.len(),
{
    if pixels.len() == 0 {
        0
    } else {
        channel_sum(buf, pixels.drop_last(), c) + (pixels.last().0 as int) * (buf[pixels.last().1
            + c] as int) / (SCALE as int)
    }
}

/// The colour sums of a mask over a buffer fit in 32 bits.
pub open spec fn color_sums_fit(buf: Seq<u16>, pixels: Seq<(u16, int)>) -> bool {
    &&& weight_sum(pixels) <= u32::MAX
    &&& channel_sum(buf, pixels, 0) <= u32::MAX
    &&& channel_sum(buf, pixels, 1) <= u32::MAX
    &&& channel_sum(buf, pixels, 2) <= u32::MAX
    &&& channel_sum(buf, pixels, 3) <= u32::MAX
}

/// The sums only grow along a prefix of the pixels.
proof fn lemma_sums_monotone(buf: Seq<u16>, pixels: Seq<(u16, int)>, j: int, c: int)
    requires
        0 <= j <= pixels.len(),
    ensures
        0 <= weight_sum(pixels.take(j)) <= weight_sum(pixels),
        0 <= channel_sum(buf, pixels.take(j), c) <= channel_sum(buf, pixels, c),
    decreases pixels.len(),
{
    if pixels.len() > 0 {
        let m = pixels.last().0 as int;
        let v = buf[pixels.last().1 + c] as int;
        assert(0 <= m * v / (SCALE as int)) by (nonlinear_arith)
            requires
                0 <= m,
                0 <= v,
        ;
        if j == pixels.len() {
            assert(pixels.take(j) =~= pixels);
            lemma_sums_monotone(buf, pixels.drop_last(), j - 1, c);
            assert(pixels.drop_last().take(j - 1) =~= pixels.drop_last());
        } else {
            assert(pixels.take(j) =~= pixels.drop_last().take(j));
            lemma_sums_monotone(buf, pixels.drop_last(), j, c);
        }
    }
}

/// Adds the weighted channels of one more pixel to the sums of a prefix.
proof fn lemma_sums_extend(buf: Seq<u16>, pixels: Seq<(u16, int)>, j: int, c: int)
    requires
        0 <= j < pixels.len(),
    ensures
        weight_sum(pixels.take(j + 1)) == weight_sum(pixels.take(j)) + pixels[j].0,
        channel_sum(buf, pixels.take(j + 1), c) == channel_sum(buf, pixels.take(j), c)
            + (pixels[j].0 as int) * (buf[pixels[j].1 + c] as int) / (SCALE as int),
{
    assert(pixels.take(j + 1).drop_last() =~= pixels.take(j));
}

/// Sums the mask values, and each channel weighted by its pixel's mask value,
/// over the pixels that the mask covers.
pub fn color_pixel_sums(mask: &[u16], rgba: &[u16]) -> (sums: ColorSums)
    requires
        mask_fits(mask@, rgba@.len() as int),
        color_sums_fit(rgba@, dab_pixels(mask@)),
    ensures
        sums.weight == weight_sum(dab_pixels(mask@)),
        sums.r == channel_sum(rgba@, dab_pixels(mask@), 0),
        sums.g == channel_sum(rgba@, dab_pixels(mask@), 1),
        sums.b == channel_sum(rgba@, dab_pixels(mask@), 2),
        sums.a == channel_sum(rgba@, dab_pixels(mask@), 3),
{
    let ghost pv = dab_pixels(mask@);
    let pixels = decode_mask(mask, rgba.len());
    proof {
        lemma_dab_layout(mask@, rgba@.len() as int);
    }
    let mut sums = ColorSums { weight: 0, r: 0, g: 0, b: 0, a: 0 };
    let mut j: usize = 0;
    proof {
        assert(pv.take(0) =~= Seq::<(u16, int)>::empty());
    }
    while j < pixels.len()
        invariant
            pixel_view(pixels@) == pv,
            pixels_laid_out(pv, rgba@.len() as int),
            j <= pixels@.len(),
            color_sums_fit(rgba@, pv),
            sums.weight == weight_sum(pv.take(j as int)),
            sums.r == channel_sum(rgba@, pv.take(j as int), 0),
            sums.g == channel_sum(rgba@, pv.take(j as int), 1),
            sums.b == channel_sum(rgba@, pv.take(j as int), 2),
            sums.a == channel_sum(rgba@, pv.take(j as int), 3),
        decreases pixels@.len() - j,
    {
        let (m, o) = pixels[j];
        proof {
            assert(pv[j as int] == (m, o as int));
            lemma_sums_extend(rgba@, pv, j as int, 0);
            lemma_sums_extend(rgba@, pv, j as int, 1);
            lemma_sums_extend(rgba@, pv, j as int, 2);
            lemma_sums_extend(rgba@, pv, j as int, 3);
            lemma_sums_monotone(rgba@, pv, j + 1, 0);
            lemma_sums_monotone(rgba@, pv, j + 1, 1);
            lemma_sums_monotone(rgba@, pv, j + 1, 2);
            lemma_sums_monotone(rgba@, pv, j + 1, 3);
        }
        let opa = m as u32;
        let (r, g, b, a) = (rgba[o], rgba[o + 1], rgba[o + 2], rgba[o + 3]);
        assert(0 <= opa * r <= u16::MAX * u16::MAX && 0 <= opa * g <= u16::MAX * u16::MAX && 0
            <= opa * b <= u16::MAX * u16::MAX && 0 <= opa * a <= u16::MAX * u16::MAX)
            by (nonlinear_arith)
            requires
                opa <= u16::MAX,
                r <= u16::MAX,
                g <= u16::MAX,
                b <= u16::MAX,
                a <= u16::MAX,
        ;
        sums.weight = sums.weight + opa;
        sums.r = sums.r + opa * r as u32 / SCALE;
        sums.g = sums.g + opa * g as u32 / SCALE;
        sums.b = sums.b + opa * b as u32 / SCALE;
        sums.a = sums.a + opa * a as u32 / SCALE;
        j = j + 1;
    }
    proof {
        assert(pv.take(pixels@.len() as int) =~= pv);
    }
    sums
}

/// A posterize level as the mode uses it: capped at one.
pub open spec fn capped_level(q: u32) -> int {
    if q < SCALE {
        q as int
    } else {
        SCALE as int
    }
}

/// `new` is `cur` composited toward some level that `level` may return for
/// `cur` and `posterize_num`, capped at one.
pub open spec fn posterized_channel<F: Fn(u16, u16) -> u32>(
    level: F,
    posterize_num: u16,
    a: int,
    b: int,
    cur: u16,
    new: u16,
) -> bool {
    exists|q: u32| #[trigger] level.ensures((cur, posterize_num), q) && new == over(a, capped_level(q), b, cur as int)
}

/// What the "posterize" mode makes of a pixel: each colour channel composited
/// toward its posterized level, with the dab's opacity; alpha is kept.
pub open spec fn posterize_pixel<F: Fn(u16, u16) -> u32>(
    opacity: u16,
    posterize_num: u16,
    level: F,
) -> spec_fn(u16, Seq<u16>, Seq<u16>) -> bool {
    |m: u16, px: Seq<u16>, np: Seq<u16>|
        {
            let a = mask_opacity(m, opacity);
            let b = SCALE - a;
            &&& np[3] == px[3]
            &&& posterized_channel(level, posterize_num, a, b, px[0], np[0])
            &&& posterized_channel(level, posterize_num, a, b, px[1], np[1])
            &&& posterized_channel(level, posterize_num, a, b, px[2], np[2])
        }
}

/// Posterize blend mode: moves each colour channel toward the level that
/// `level(channel, posterize_num)` quantizes it to (capped at [`SCALE`]),
/// with the dab's opacity; alpha channels are not touched.
pub fn draw_dab_pixels_posterize<F: Fn(u16, u16) -> u32>(
    mask: &[u16],
    rgba: &mut [u16],
    opacity: u16,
    posterize_num: u16,
    level: F,
)
    requires
        mask_fits(mask@, old(rgba)@.len() as int),
        dab_within(old(rgba)@, dab_pixels(mask@), normal_defined(opacity)),
        forall|c: u16| level.requires((c, posterize_num)),
    ensures
        dab_related(
            old(rgba)@,
            final(rgba)@,
            dab_pixels(mask@),
            posterize_pixel(opacity, posterize_num, level),
        ),
        alpha_kept(old(rgba)@, final(rgba)@),
{
    let ghost orig = rgba@;
    let ghost pv = dab_pixels(mask@);
    let ghost rel = posterize_pixel(opacity, posterize_num, level);
    let pixels = decode_mask(mask, rgba.len());
    proof {
        lemma_dab_layout(mask@, orig.len() as int);
    }
    let mut j: usize = 0;
    while j < pixels.len()
        invariant
            pixel_view(pixels@) == pv,
            pixels_laid_out(pv, orig.len() as int),
            pixels_aligned(pv),
            j <= pixels@.len(),
            rgba@.len() == orig.len(),
            dab_related_upto(orig, rgba@, pv, rel, j as int),
            dab_within(orig, pv, normal_defined(opacity)),
            rel == posterize_pixel(opacity, posterize_num, level),
            forall|c: u16| level.requires((c, posterize_num)),
        decreases pixels@.len() - j,
    {
        let (m, o) = pixels[j];
        let ghost cur = rgba@;
        proof {
            assert(pv[j as int] == (m, o as int));
            lemma_related_pending(orig, cur, pv, rel, j as int);
            assert(normal_defined(opacity)(pv[j as int].0, pixel_at(orig, pv[j as int].1)));
        }
        let (r, g, b) = (rgba[o], rgba[o + 1], rgba[o + 2]);
        let qr = level(r, posterize_num);
        let qg = level(g, posterize_num);
        let qb = level(b, posterize_num);
        let post_r: u32 = if qr < SCALE { qr } else { SCALE };
        let post_g: u32 = if qg < SCALE { qg } else { SCALE };
        let post_b: u32 = if qb < SCALE { qb } else { SCALE };
        let opa_a = dab_opacity(m, opacity);
        let opa_b = SCALE - opa_a;
        proof {
            lemma_composite_bound(opa_a as int, opa_b as int, post_r as int, r as int);
            lemma_composite_bound(opa_a as int, opa_b as int, post_g as int, g as int);
            lemma_composite_bound(opa_a as int, opa_b as int, post_b as int, b as int);
        }
        let nr = composite(opa_a, post_r, opa_b, r);
        let ng = composite(opa_a, post_g, opa_b, g);
        let nb = composite(opa_a, post_b, opa_b, b);
        rgba[o] = nr;
        rgba[o + 1] = ng;
        rgba[o + 2] = nb;
        proof {
            let px = pixel_at(orig, o as int);
            let np = pixel_at(rgba@, o as int);
            assert(px[0] == r && px[1] == g && px[2] == b);
            assert(np[0] == nr && np[1] == ng && np[2] == nb && np[3] == px[3]);
            let a = mask_opacity(m, opacity);
            assert(level.ensures((r, posterize_num), qr));
            assert(level.ensures((g, posterize_num), qg));
            assert(level.ensures((b, posterize_num), qb));
            assert(posterized_channel(level, posterize_num, a, SCALE - a, px[0], np[0]));
            assert(posterized_channel(level, posterize_num, a, SCALE - a, px[1], np[1]));
            assert(posterized_channel(level, posterize_num, a, SCALE - a, px[2], np[2]));
            lemma_related_step(orig, cur, rgba@, pv, rel, j as int);
        }
        j = j + 1;
    }
    proof {
        lemma_related_alpha_kept(orig, rgba@, pv, rel);
    }
}

/// The lowest opacity at which the pigment modes mix spectrally; below it the
/// floating-point round trip would drown in rounding noise. The "normal
/// paint" mode then falls back to the additive "normal" composite at the
/// given opacity, and the "lock alpha paint" mode raises the opacity to it.
pub const PAINT_MIN_OPACITY: u16 = 150;

/// The opacity the "lock alpha paint" mode works with.
pub open spec fn paint_opacity(opacity: u16) -> u16 {
    if opacity < PAINT_MIN_OPACITY {
        PAINT_MIN_OPACITY
    } else {
        opacity
    }
}

/// What the "normal paint" mode makes of a pixel at an opacity of at least
/// [`PAINT_MIN_OPACITY`]. Over a transparent pixel it composites exactly as
/// the "normal" mode does; over any other pixel the alpha is composited the
/// same way and the colour is what `mix` returns for the two weights, the old
/// channels and the new alpha.
pub open spec fn normal_paint_pixel<F: Fn(u32, u32, u16, u16, u16, u16, u16) -> (u16, u16, u16)>(
    opacity: u16,
    color_r: u16,
    color_g: u16,
    color_b: u16,
    mix: F,
) -> spec_fn(u16, Seq<u16>, Seq<u16>) -> bool {
    |m: u16, px: Seq<u16>, np: Seq<u16>|
        {
            let a = mask_opacity(m, opacity);
            let b = SCALE - a;
            if px[3] == 0 {
                np =~= normal_pixel(opacity, color_r, color_g, color_b)(m, px)
            } else {
                &&& np[3] == over_alpha(a, b, px[3] as int)
                &&& mix.ensures(
                    (a as u32, b as u32, px[0], px[1], px[2], px[3], np[3]),
                    (np[0], np[1], np[2]),
                )
            }
        }
}

/// What the "lock alpha paint" mode makes of a pixel: the weight of the dab
/// is scaled by the pixel's alpha; a transparent pixel's colour is composited
/// as in the "lock alpha" mode, any other pixel's colour is what `mix` returns;
/// alpha is kept.
pub open spec fn lock_alpha_paint_pixel<F: Fn(u32, u32, u16, u16, u16, u16, u16) -> (u16, u16, u16)>(
    opacity: u16,
    color_r: u16,
    color_g: u16,
    color_b: u16,
    mix: F,
) -> spec_fn(u16, Seq<u16>, Seq<u16>) -> bool {
    |m: u16, px: Seq<u16>, np: Seq<u16>|
        {
            let raw = mask_opacity(m, paint_opacity(opacity));
            let b = SCALE - raw;
            let a = raw * px[3] / (SCALE as int);
            &&& np[3] == px[3]
            &&& if px[3] == 0 {
                &&& np[0] == over(a, color_r as int, b, px[0] as int)
                &&& np[1] == over(a, color_g as int, b, px[1] as int)
                &&& np[2] == over(a, color_b as int, b, px[2] as int)
            } else {
                mix.ensures(
                    (a as u32, b as u32, px[0], px[1], px[2], px[3], px[3]),
                    (np[0], np[1], np[2]),
                )
            }
        }
}

/// Below [`PAINT_MIN_OPACITY`] the "lock alpha paint" mode relates pixels
/// exactly as it does at that opacity.
pub proof fn lemma_lock_alpha_paint_low_opacity<F: Fn(u32, u32, u16, u16, u16, u16, u16) -> (u16, u16, u16)>(
    opacity: u16,
    color_r: u16,
    color_g: u16,
    color_b: u16,
    mix: F,
)
    requires
        opacity < PAINT_MIN_OPACITY,
    ensures
        lock_alpha_paint_pixel(opacity, color_r, color_g, color_b, mix) == lock_alpha_paint_pixel(
            PAINT_MIN_OPACITY,
            color_r,
            color_g,
            color_b,
            mix,
        ),
{
    assert(lock_alpha_paint_pixel(opacity, color_r, color_g, color_b, mix) =~= lock_alpha_paint_pixel(
        PAINT_MIN_OPACITY,
        color_r,
        color_g,
        color_b,
        mix,
    ));
}

/// The mixing function of a pigment mode never returns a colour channel above
/// the new alpha it is given.
pub open spec fn paint_mix_within_alpha<F: Fn(u32, u32, u16, u16, u16, u16, u16) -> (u16, u16, u16)>(
    mix: F,
) -> bool {
    forall|args: (u32, u32, u16, u16, u16, u16, u16), c: (u16, u16, u16)|
        #[trigger] mix.ensures(args, c) ==> c.0 <= args.6 && c.1 <= args.6 && c.2 <= args.6
}

/// With a brush colour whose channels are at most one and a mixing function
/// that stays within the new alpha, the "normal paint" mode keeps a
/// premultiplied pixel premultiplied.
pub proof fn lemma_normal_paint_keeps_premultiplied<F: Fn(u32, u32, u16, u16, u16, u16, u16) -> (u16, u16, u16)>(
    opacity: u16,
    color_r: u16,
    color_g: u16,
    color_b: u16,
    mix: F,
    m: u16,
    px: Seq<u16>,
    np: Seq<u16>,
)
    requires
        color_r <= SCALE,
        color_g <= SCALE,
        color_b <= SCALE,
        paint_mix_within_alpha(mix),
        px.len() == 4,
        np.len() == 4,
        px[0] <= px[3],
        px[1] <= px[3],
        px[2] <= px[3],
        normal_defined(opacity)(m, px),
        normal_paint_pixel(opacity, color_r, color_g, color_b, mix)(m, px, np),
    ensures
        np[0] <= np[3],
        np[1] <= np[3],
        np[2] <= np[3],
{
    let a = mask_opacity(m, opacity);
    let b = SCALE - a;
    assert(0 <= a) by (nonlinear_arith)
        requires
            a == (m as int) * (opacity as int) / (SCALE as int),
            0 <= m,
            0 <= opacity,
    ;
    if px[3] == 0 {
        assert forall|c: int| 0 <= c <= SCALE implies #[trigger] (a * c / (SCALE as int)) <= a by {
            assert(a * c / (SCALE as int) <= a) by (nonlinear_arith)
                requires
                    0 <= a,
                    0 <= c <= SCALE,
            ;
            assert(0 <= a * c / (SCALE as int)) by (nonlinear_arith)
                requires
                    0 <= a,
                    0 <= c,
            ;
        }
        assert(a * (color_r as int) / (SCALE as int) <= a);
        assert(a * (color_g as int) / (SCALE as int) <= a);
        assert(a * (color_b as int) / (SCALE as int) <= a);
        assert(b * 0 == 0);
    } else {
        let args = (a as u32, b as u32, px[0], px[1], px[2], px[3], np[3]);
        assert(mix.ensures(args, (np[0], np[1], np[2])));
    }
}

/// The mixing function of a pigment mode gives one result for each argument.
pub open spec fn paint_mix_deterministic<F: Fn(u32, u32, u16, u16, u16, u16, u16) -> (u16, u16, u16)>(
    mix: F,
) -> bool {
    forall|args: (u32, u32, u16, u16, u16, u16, u16), c: (u16, u16, u16), d: (u16, u16, u16)|
        #![trigger mix.ensures(args, c), mix.ensures(args, d)]
        mix.ensures(args, c) && mix.ensures(args, d) ==> c == d
}

/// With a mixing function that gives one result for each argument, a "lock
/// alpha paint" dab below [`PAINT_MIN_OPACITY`] leaves the buffer exactly as
/// the same dab at that opacity does.
pub proof fn lemma_lock_alpha_paint_low_opacity_buffers<F: Fn(u32, u32, u16, u16, u16, u16, u16) -> (u16, u16, u16)>(
    old: Seq<u16>,
    new_low: Seq<u16>,
    new_min: Seq<u16>,
    mask: Seq<u16>,
    opacity: u16,
    color_r: u16,
    color_g: u16,
    color_b: u16,
    mix: F,
)
    requires
        opacity < PAINT_MIN_OPACITY,
        paint_mix_deterministic(mix),
        mask_fits(mask, old.len() as int),
        dab_related(
            old,
            new_low,
            dab_pixels(mask),
            lock_alpha_paint_pixel(opacity, color_r, color_g, color_b, mix),
        ),
        dab_related(
            old,
            new_min,
            dab_pixels(mask),
            lock_alpha_paint_pixel(PAINT_MIN_OPACITY, color_r, color_g, color_b, mix),
        ),
    ensures
        new_low == new_min,
{
    let pv = dab_pixels(mask);
    let rel = lock_alpha_paint_pixel(PAINT_MIN_OPACITY, color_r, color_g, color_b, mix);
    lemma_dab_layout(mask, old.len() as int);
    lemma_lock_alpha_paint_low_opacity(opacity, color_r, color_g, color_b, mix);
    assert forall|k: int| 0 <= k < old.len() implies #[trigger] new_low[k] == new_min[k] by {
        if covered_upto(pv, pv.len() as int, k) {
            let j = choose|j: int| 0 <= j < pv.len() && #[trigger] pv[j].1 <= k < pv[j].1 + 4;
            let o = pv[j].1;
            let m = pv[j].0;
            assert(0 <= o && o + 4 <= old.len());
            let px = pixel_at(old, o);
            let a = pixel_at(new_low, o);
            let b = pixel_at(new_min, o);
            assert(rel(m, px, a));
            assert(rel(m, px, b));
            if px[3] != 0 {
                let raw = mask_opacity(m, paint_opacity(PAINT_MIN_OPACITY));
                let w = raw * px[3] / (SCALE as int);
                let args = (w as u32, (SCALE - raw) as u32, px[0], px[1], px[2], px[3], px[3]);
                assert(mix.ensures(args, (a[0], a[1], a[2])));
                assert(mix.ensures(args, (b[0], b[1], b[2])));
            }
            assert(a =~= b);
            assert(new_low[k] == a[k - o]);
            assert(new_min[k] == b[k - o]);
        }
    }
    assert(new_low =~= new_min);
}

/// Normal paint blend mode: subtractive (pigment) mixing of the colour into
/// the pixels, with the colour mixing itself done by `mix`, which receives the
/// dab's weight, the background's weight, the pixel's channels and its new
/// alpha. Over transparent pixels it falls back to the additive "normal"
/// composite, and at opacities below [`PAINT_MIN_OPACITY`] the whole dab is
/// the additive "normal" composite.
pub fn draw_dab_pixels_normal_paint<F: Fn(u32, u32, u16, u16, u16, u16, u16) -> (u16, u16, u16)>(
    mask: &[u16],
    rgba: &mut [u16],
    color_r: u16,
    color_g: u16,
    color_b: u16,
    opacity: u16,
    mix: F,
)
    requires
        mask_fits(mask@, old(rgba)@.len() as int),
        dab_within(old(rgba)@, dab_pixels(mask@), normal_defined(opacity)),
        forall|a: u32, b: u32, r: u16, g: u16, bl: u16, al: u16, na: u16|
            mix.requires((a, b, r, g, bl, al, na)),
    ensures
        opacity < PAINT_MIN_OPACITY ==> dab_applied(
            old(rgba)@,
            final(rgba)@,
            dab_pixels(mask@),
            normal_pixel(opacity, color_r, color_g, color_b),
        ),
        opacity >= PAINT_MIN_OPACITY ==> dab_related(
            old(rgba)@,
            final(rgba)@,
            dab_pixels(mask@),
            normal_paint_pixel(opacity, color_r, color_g, color_b, mix),
        ),
{
    if opacity < PAINT_MIN_OPACITY {
        draw_dab_pixels_normal(mask, rgba, color_r, color_g, color_b, opacity);
        return;
    }
    let ghost orig = rgba@;
    let ghost pv = dab_pixels(mask@);
    let ghost rel = normal_paint_pixel(opacity, color_r, color_g, color_b, mix);
    let op = opacity;
    let pixels = decode_mask(mask, rgba.len());
    proof {
        lemma_dab_layout(mask@, orig.len() as int);
    }
    let mut j: usize = 0;
    while j < pixels.len()
        invariant
            pixel_view(pixels@) == pv,
            pixels_laid_out(pv, orig.len() as int),
            j <= pixels@.len(),
            rgba@.len() == orig.len(),
            dab_related_upto(orig, rgba@, pv, rel, j as int),
            dab_within(orig, pv, normal_defined(op)),
            op == opacity,
            rel == normal_paint_pixel(opacity, color_r, color_g, color_b, mix),
            forall|a: u32, b: u32, r: u16, g: u16, bl: u16, al: u16, na: u16|
                mix.requires((a, b, r, g, bl, al, na)),
        decreases pixels@.len() - j,
    {
        let (m, o) = pixels[j];
        let ghost cur = rgba@;
        proof {
            assert(pv[j as int] == (m, o as int));
            lemma_related_pending(orig, cur, pv, rel, j as int);
            assert(normal_defined(op)(pv[j as int].0, pixel_at(orig, pv[j as int].1)));
        }
        let opa_a = dab_opacity(m, op);
        let opa_b = SCALE - opa_a;
        let (r, g, b, a) = (rgba[o], rgba[o + 1], rgba[o + 2], rgba[o + 3]);
        proof {
            lemma_composite_bound(opa_a as int, opa_b as int, color_r as int, r as int);
            lemma_composite_bound(opa_a as int, opa_b as int, color_g as int, g as int);
            lemma_composite_bound(opa_a as int, opa_b as int, color_b as int, b as int);
            lemma_composite_bound(opa_a as int, opa_b as int, 0, a as int);
        }
        let na = composite_alpha(opa_a, opa_b, a);
        let (nr, ng, nb) = if a == 0 {
            (
                composite(opa_a, color_r as u32, opa_b, r),
                composite(opa_a, color_g as u32, opa_b, g),
                composite(opa_a, color_b as u32, opa_b, b),
            )
        } else {
            mix(opa_a, opa_b, r, g, b, a, na)
        };
        rgba[o + 3] = na;
        rgba[o] = nr;
        rgba[o + 1] = ng;
        rgba[o + 2] = nb;
        proof {
            let px = pixel_at(orig, o as int);
            let np = pixel_at(rgba@, o as int);
            assert(px[0] == r && px[1] == g && px[2] == b && px[3] == a);
            assert(np[0] == nr && np[1] == ng && np[2] == nb && np[3] == na);
            if a == 0 {
                assert(np =~= normal_pixel(op, color_r, color_g, color_b)(m, px));
            }
            assert(rel(m, px, np));
            lemma_related_step(orig, cur, rgba@, pv, rel, j as int);
        }
        j = j + 1;
    }
}

/// Lock-alpha paint blend mode: subtractive (pigment) mixing with the dab's
/// weight scaled by each pixel's alpha, with the colour mixing itself done by
/// `mix`; transparent pixels get the additive composite. Alpha channels are
/// not touched. Opacities below [`PAINT_MIN_OPACITY`] are raised to it.
pub fn draw_dab_pixels_lock_alpha_paint<F: Fn(u32, u32, u16, u16, u16, u16, u16) -> (u16, u16, u16)>(
    mask: &[u16],
    rgba: &mut [u16],
    color_r: u16,
    color_g: u16,
    color_b: u16,
    opacity: u16,
    mix: F,
)
    requires
        mask_fits(mask@, old(rgba)@.len() as int),
        dab_within(old(rgba)@, dab_pixels(mask@), normal_defined(paint_opacity(opacity))),
        forall|a: u32, b: u32, r: u16, g: u16, bl: u16, al: u16, na: u16|
            mix.requires((a, b, r, g, bl, al, na)),
    ensures
        dab_related(
            old(rgba)@,
            final(rgba)@,
            dab_pixels(mask@),
            lock_alpha_paint_pixel(opacity, color_r, color_g, color_b, mix),
        ),
        alpha_kept(old(rgba)@, final(rgba)@),
{
    let ghost orig = rgba@;
    let ghost pv = dab_pixels(mask@);
    let ghost rel = lock_alpha_paint_pixel(opacity, color_r, color_g, color_b, mix);
    let op = if opacity < PAINT_MIN_OPACITY {
        PAINT_MIN_OPACITY
    } else {
        opacity
    };
    let pixels = decode_mask(mask, rgba.len());
    proof {
        lemma_dab_layout(mask@, orig.len() as int);
    }
    let mut j: usize = 0;
    while j < pixels.len()
        invariant
            pixel_view(pixels@) == pv,
            pixels_laid_out(pv, orig.len() as int),
            pixels_aligned(pv),
            j <= pixels@.len(),
            rgba@.len() == orig.len(),
            dab_related_upto(orig, rgba@, pv, rel, j as int),
            dab_within(orig, pv, normal_defined(op)),
            op == paint_opacity(opacity),
            rel == lock_alpha_paint_pixel(opacity, color_r, color_g, color_b, mix),
            forall|a: u32, b: u32, r: u16, g: u16, bl: u16, al: u16, na: u16|
                mix.requires((a, b, r, g, bl, al, na)),
        decreases pixels@.len() - j,
    {
        let (m, o) = pixels[j];
        let ghost cur = rgba@;
        proof {
            assert(pv[j as int] == (m, o as int));
            lemma_related_pending(orig, cur, pv, rel, j as int);
            assert(normal_defined(op)(pv[j as int].0, pixel_at(orig, pv[j as int].1)));
        }
        let raw = dab_opacity(m, op);
        let opa_b = SCALE - raw;
        let (r, g, b, a) = (rgba[o], rgba[o + 1], rgba[o + 2], rgba[o + 3]);
        assert(0 <= raw * a <= SCALE * u16::MAX && raw * a / (SCALE as int) <= u16::MAX)
            by (nonlinear_arith)
            requires
                0 <= raw <= SCALE,
                0 <= a <= u16::MAX,
        ;
        let opa_a = raw * a as u32 / SCALE;
        let (nr, ng, nb) = if a == 0 {
            proof {
                lemma_composite_bound(raw as int, opa_b as int, 0, r as int);
                lemma_composite_bound(raw as int, opa_b as int, 0, g as int);
                lemma_composite_bound(raw as int, opa_b as int, 0, b as int);
                assert(opa_a == 0) by (nonlinear_arith)
                    requires
                        a == 0,
                        opa_a == raw * a / (SCALE as int),
                ;
            }
            (
                composite(opa_a, color_r as u32, opa_b, r),
                composite(opa_a, color_g as u32, opa_b, g),
                composite(opa_a, color_b as u32, opa_b, b),
            )
        } else {
            mix(opa_a, opa_b, r, g, b, a, a)
        };
        rgba[o] = nr;
        rgba[o + 1] = ng;
        rgba[o + 2] = nb;
        proof {
            let px = pixel_at(orig, o as int);
            let np = pixel_at(rgba@, o as int);
            assert(px[0] == r && px[1] == g && px[2] == b && px[3] == a);
            assert(np[0] == nr && np[1] == ng && np[2] == nb && np[3] == a);
            assert(rel(m, px, np));
            lemma_related_step(orig, cur, rgba@, pv, rel, j as int);
        }
        j = j + 1;
    }
    proof {
        lemma_related_alpha_kept(orig, rgba@, pv, rel);
    }
}

/// One colour channel composited additively over `cur`, before truncation:
/// `(opa_a * target + opa_b * cur) / SCALE`.
pub open spec fn additive_channel(opa_a: int, target: int, opa_b: int, cur: int) -> int {
    (opa_a * target + opa_b * cur) / (SCALE as int)
}

/// The additive composite of a colour channel, not yet truncated to 16 bits.
pub fn additive(opa_a: u32, target: u16, opa_b: u32, cur: u16) -> (r: u32)
    requires
        opa_a * target + opa_b * cur <= u32::MAX,
    ensures
        r == additive_channel(opa_a as int, target as int, opa_b as int, cur as int),
{
    assert(0 <= opa_a * target && 0 <= opa_b * cur) by (nonlinear_arith)
        requires
            0 <= opa_a,
            0 <= target,
            0 <= opa_b,
            0 <= cur,
    ;
    (opa_a * target as u32 + opa_b * cur as u32) / SCALE
}

/// The additive part of the "normal and eraser paint" mode at a pixel: each
/// colour channel composited with the colour's weight scaled by `color_a`.
pub open spec fn eraser_additive(
    color_r: u16,
    color_g: u16,
    color_b: u16,
    color_a: u16,
    opacity: u16,
    m: u16,
    px: Seq<u16>,
) -> (u32, u32, u32) {
    let a = mask_opacity(m, opacity);
    let b = SCALE - a;
    let a2 = a * color_a / (SCALE as int);
    (
        additive_channel(a2, color_r as int, b, px[0] as int) as u32,
        additive_channel(a2, color_g as int, b, px[1] as int) as u32,
        additive_channel(a2, color_b as int, b, px[2] as int) as u32,
    )
}

/// What the "normal and eraser paint" mode makes of a pixel: the alpha
/// becomes the erasing composite `opa_a2 + opa_b * alpha / SCALE` (truncated
/// to 16 bits). Over a transparent pixel the colour channels are the additive
/// composite, as in the "normal and eraser" mode; over any other pixel they
/// are what `mix` returns for the weights, the additive composite and the old
/// channels. Channels are truncated to 16 bits.
pub open spec fn eraser_paint_pixel<F: Fn(u32, u32, u32, u32, (u32, u32, u32), u16, u16, u16, u16) -> (u32, u32, u32)>(
    color_r: u16,
    color_g: u16,
    color_b: u16,
    color_a: u16,
    opacity: u16,
    mix: F,
) -> spec_fn(u16, Seq<u16>, Seq<u16>) -> bool {
    |m: u16, px: Seq<u16>, np: Seq<u16>|
        {
            let a = mask_opacity(m, opacity);
            let b = SCALE - a;
            let a2 = a * color_a / (SCALE as int);
            let out = a2 + b * px[3] / (SCALE as int);
            let add = eraser_additive(color_r, color_g, color_b, color_a, opacity, m, px);
            &&& np[3] == out as u16
            &&& if px[3] == 0 {
                np[0] == add.0 as u16 && np[1] == add.1 as u16 && np[2] == add.2 as u16
            } else {
                exists|c: (u32, u32, u32)|
                    #[trigger] mix.ensures(
                        (a as u32, b as u32, a2 as u32, out as u32, add, px[0], px[1], px[2], px[3]),
                        c,
                    ) && np[0] == c.0 as u16 && np[1] == c.1 as u16 && np[2] == c.2 as u16
            }
        }
}

/// The colour's weight scaled by `color_a`, with the background's weight,
/// keeps an additive composite of 16-bit channels within 32 bits.
proof fn lemma_additive_bound(a: int, b: int, a2: int, t: int, c: int)
    requires
        0 <= a,
        0 <= b,
        a + b == SCALE,
        0 <= a2 <= 2 * a,
        0 <= t <= u16::MAX,
        0 <= c <= u16::MAX,
    ensures
        0 <= a2 * t,
        0 <= b * c,
        a2 * t + b * c <= u32::MAX,
{
    assert(0 <= a2 * t && 0 <= b * c && a2 * t + b * c <= 2 * SCALE * u16::MAX) by (nonlinear_arith)
        requires
            0 <= a,
            0 <= b,
            a + b == SCALE,
            0 <= a2 <= 2 * a,
            0 <= t <= u16::MAX,
            0 <= c <= u16::MAX,
    ;
}

/// Wherever the dab's opacity is at most one, the "normal and eraser paint"
/// mode gives a pixel the alpha that the "normal and eraser" mode gives it,
/// and over a transparent pixel it gives exactly what that mode gives.
pub proof fn lemma_eraser_paint_matches_eraser<F: Fn(u32, u32, u32, u32, (u32, u32, u32), u16, u16, u16, u16) -> (u32, u32, u32)>(
    color_r: u16,
    color_g: u16,
    color_b: u16,
    color_a: u16,
    opacity: u16,
    mix: F,
    m: u16,
    px: Seq<u16>,
    np: Seq<u16>,
)
    requires
        np.len() == 4,
        normal_defined(opacity)(m, px),
        eraser_paint_pixel(color_r, color_g, color_b, color_a, opacity, mix)(m, px, np),
    ensures
        np[3] == eraser_pixel(color_r, color_g, color_b, color_a, opacity)(m, px)[3],
        px[3] == 0 ==> np == eraser_pixel(color_r, color_g, color_b, color_a, opacity)(m, px),
{
    let a = mask_opacity(m, opacity);
    let b = SCALE - a;
    let a2 = a * color_a / (SCALE as int);
    assert(0 <= a) by (nonlinear_arith)
        requires
            a == (m as int) * (opacity as int) / (SCALE as int),
            0 <= m,
            0 <= opacity,
    ;
    assert(0 <= a2 <= 2 * a) by (nonlinear_arith)
        requires
            a2 == a * color_a / (SCALE as int),
            0 <= a,
            0 <= color_a <= u16::MAX,
    ;
    let e = eraser_pixel(color_r, color_g, color_b, color_a, opacity)(m, px);
    if px[3] == 0 {
        lemma_additive_bound(a, b, a2, color_r as int, px[0] as int);
        lemma_additive_bound(a, b, a2, color_g as int, px[1] as int);
        lemma_additive_bound(a, b, a2, color_b as int, px[2] as int);
        assert(np =~= e);
    }
}

/// Normal and eraser paint blend mode: `color_a` scales the colour's weight
/// while the background keeps the weight of the full dab opacity, as in the
/// "normal and eraser" mode; the new alpha is that erasing composite. The
/// colour is the additive composite over transparent pixels, and elsewhere
/// what `mix` blends (additively and spectrally) from the weights, the new
/// alpha, the additive composite and the old channels.
pub fn draw_dab_pixels_normal_and_eraser_paint<F: Fn(u32, u32, u32, u32, (u32, u32, u32), u16, u16, u16, u16) -> (u32, u32, u32)>(
    mask: &[u16],
    rgba: &mut [u16],
    color_r: u16,
    color_g: u16,
    color_b: u16,
    color_a: u16,
    opacity: u16,
    mix: F,
)
    requires
        mask_fits(mask@, old(rgba)@.len() as int),
        dab_within(old(rgba)@, dab_pixels(mask@), normal_defined(opacity)),
        forall|a: u32, b: u32, a2: u32, out: u32, add: (u32, u32, u32), r: u16, g: u16, bl: u16, al: u16|
            mix.requires((a, b, a2, out, add, r, g, bl, al)),
    ensures
        dab_related(
            old(rgba)@,
            final(rgba)@,
            dab_pixels(mask@),
            eraser_paint_pixel(color_r, color_g, color_b, color_a, opacity, mix),
        ),
{
    let ghost orig = rgba@;
    let ghost pv = dab_pixels(mask@);
    let ghost rel = eraser_paint_pixel(color_r, color_g, color_b, color_a, opacity, mix);
    let pixels = decode_mask(mask, rgba.len());
    proof {
        lemma_dab_layout(mask@, orig.len() as int);
    }
    let mut j: usize = 0;
    while j < pixels.len()
        invariant
            pixel_view(pixels@) == pv,
            pixels_laid_out(pv, orig.len() as int),
            j <= pixels@.len(),
            rgba@.len() == orig.len(),
            dab_related_upto(orig, rgba@, pv, rel, j as int),
            dab_within(orig, pv, normal_defined(opacity)),
            rel == eraser_paint_pixel(color_r, color_g, color_b, color_a, opacity, mix),
            forall|a: u32, b: u32, a2: u32, out: u32, add: (u32, u32, u32), r: u16, g: u16, bl: u16, al: u16|
                mix.requires((a, b, a2, out, add, r, g, bl, al)),
        decreases pixels@.len() - j,
    {
        let (m, o) = pixels[j];
        let ghost cur = rgba@;
        proof {
            assert(pv[j as int] == (m, o as int));
            lemma_related_pending(orig, cur, pv, rel, j as int);
            assert(normal_defined(opacity)(pv[j as int].0, pixel_at(orig, pv[j as int].1)));
        }
        let opa_a = dab_opacity(m, opacity);
        let opa_b = SCALE - opa_a;
        let (r, g, b, a) = (rgba[o], rgba[o + 1], rgba[o + 2], rgba[o + 3]);
        assert(0 <= opa_a * color_a <= SCALE * u16::MAX && opa_a * color_a / (SCALE as int)
            <= u16::MAX) by (nonlinear_arith)
            requires
                0 <= opa_a <= SCALE,
                0 <= color_a <= u16::MAX,
        ;
        proof {
            lemma_composite_bound(opa_a as int, opa_b as int, 0, a as int);
        }
        let opa_a2 = opa_a * color_a as u32 / SCALE;
        let opa_out = opa_a2 + opa_b * a as u32 / SCALE;
        assert(opa_a2 <= 2 * opa_a) by (nonlinear_arith)
            requires
                opa_a2 == opa_a * color_a / (SCALE as int),
                0 <= opa_a,
                0 <= color_a <= u16::MAX,
        ;
        proof {
            lemma_additive_bound(opa_a as int, opa_b as int, opa_a2 as int, color_r as int, r as int);
            lemma_additive_bound(opa_a as int, opa_b as int, opa_a2 as int, color_g as int, g as int);
            lemma_additive_bound(opa_a as int, opa_b as int, opa_a2 as int, color_b as int, b as int);
        }
        let add = (
            additive(opa_a2, color_r, opa_b, r),
            additive(opa_a2, color_g, opa_b, g),
            additive(opa_a2, color_b, opa_b, b),
        );
        let c = if a == 0 {
            add
        } else {
            mix(opa_a, opa_b, opa_a2, opa_out, add, r, g, b, a)
        };
        rgba[o + 3] = opa_out as u16;
        rgba[o] = c.0 as u16;
        rgba[o + 1] = c.1 as u16;
        rgba[o + 2] = c.2 as u16;
        proof {
            let px = pixel_at(orig, o as int);
            let np = pixel_at(rgba@, o as int);
            assert(px[0] == r && px[1] == g && px[2] == b && px[3] == a);
            assert(np[0] == c.0 as u16 && np[1] == c.1 as u16 && np[2] == c.2 as u16 && np[3]
                == opa_out as u16);
            assert(rel(m, px, np));
            lemma_related_step(orig, cur, rgba@, pv, rel, j as int);
        }
        j = j + 1;
    }
}

/// Division by a positive `d`, rounding toward zero as machine division does.
pub open spec fn div_toward_zero(a: int, d: int) -> int {
    if a >= 0 {
        a / d
    } else {
        -((-a) / d)
    }
}

/// The three channels of `top` each shifted by the difference between the two
/// luminosities, each taken as a 32-bit signed value.
pub open spec fn lum_shifted(top: (u16, u16, u16), bot_lum: u32, top_lum: u32) -> (int, int, int) {
    let diff = (bot_lum as i32) - (top_lum as i32);
    (top.0 + diff, top.1 + diff, top.2 + diff)
}

/// Shifts the channels of `top` by the difference between the luminosity of
/// the colour whose luminosity is wanted (`bot_lum`) and the luminosity of
/// `top` (`top_lum`), the first step of giving `top`'s hue and saturation the
/// wanted luminosity.
pub fn shift_lum(top_r: u16, top_g: u16, top_b: u16, bot_lum: u32, top_lum: u32) -> (c: (
    i32,
    i32,
    i32,
))
    requires
        i32::MIN <= (bot_lum as i32) - (top_lum as i32) <= i32::MAX - u16::MAX,
    ensures
        (c.0 as int, c.1 as int, c.2 as int) == lum_shifted((top_r, top_g, top_b), bot_lum, top_lum),
{
    let diff = bot_lum as i32 - top_lum as i32;
    (top_r as i32 + diff, top_g as i32 + diff, top_b as i32 + diff)
}

/// The smallest of three channels.
pub open spec fn min3(c: (int, int, int)) -> int {
    if c.0 <= c.1 && c.0 <= c.2 {
        c.0
    } else if c.1 <= c.2 {
        c.1
    } else {
        c.2
    }
}

/// The largest of three channels.
pub open spec fn max3(c: (int, int, int)) -> int {
    if c.0 >= c.1 && c.0 >= c.2 {
        c.0
    } else if c.1 >= c.2 {
        c.1
    } else {
        c.2
    }
}

/// A channel pulled toward `lum` so that the smallest channel `cmin` lands on
/// zero.
pub open spec fn lift_channel(v: int, lum: int, cmin: int) -> int {
    lum + div_toward_zero((v - lum) * lum, lum - cmin)
}

/// A channel pulled toward `lum` so that the largest channel `cmax` lands on
/// one.
pub open spec fn lower_channel(v: int, lum: int, cmax: int) -> int {
    lum + div_toward_zero((v - lum) * (SCALE - lum), cmax - lum)
}

/// The channels after the first clipping step, which only acts when some
/// channel is negative.
pub open spec fn clip_low(c: (int, int, int), lum: int) -> (int, int, int) {
    let cmin = min3(c);
    if cmin < 0 {
        (lift_channel(c.0, lum, cmin), lift_channel(c.1, lum, cmin), lift_channel(c.2, lum, cmin))
    } else {
        c
    }
}

/// The channels after both clipping steps; the second step only acts when
/// some channel of the unclipped colour exceeds one.
pub open spec fn clip_high(c: (int, int, int), lum: int) -> (int, int, int) {
    let cmax = max3(c);
    let low = clip_low(c, lum);
    if cmax > SCALE {
        (lower_channel(low.0, lum, cmax), lower_channel(low.1, lum, cmax), lower_channel(low.2, lum, cmax))
    } else {
        low
    }
}

/// A value fits a 32-bit signed integer.
pub open spec fn fits_i32(v: int) -> bool {
    i32::MIN <= v <= i32::MAX
}

/// Every intermediate value of the clipping of one channel fits 32 bits.
pub open spec fn clip_channel_fits(v: int, low: int, lum: int, cmin: int, cmax: int) -> bool {
    &&& cmin < 0 ==> {
        &&& fits_i32(lum - cmin)
        &&& fits_i32(v - lum)
        &&& fits_i32((v - lum) * lum)
        &&& fits_i32(lift_channel(v, lum, cmin))
    }
    &&& cmax > SCALE ==> {
        &&& fits_i32(cmax - lum)
        &&& fits_i32(SCALE - lum)
        &&& fits_i32(low - lum)
        &&& fits_i32((low - lum) * (SCALE - lum))
        &&& fits_i32(lower_channel(low, lum, cmax))
    }
}

/// Clipping is defined: the luminosity lies in `[0, SCALE]` and no
/// intermediate value leaves 32 bits.
pub open spec fn clip_defined(c: (int, int, int), lum: int) -> bool {
    let cmin = min3(c);
    let cmax = max3(c);
    let low = clip_low(c, lum);
    &&& 0 <= lum <= SCALE
    &&& clip_channel_fits(c.0, low.0, lum, cmin, cmax)
    &&& clip_channel_fits(c.1, low.1, lum, cmin, cmax)
    &&& clip_channel_fits(c.2, low.2, lum, cmin, cmax)
}

/// Pulls one channel toward `lum` by `num / den` of its distance.
fn pull_toward(v: i32, lum: i32, num: i32, den: i32) -> (r: i32)
    requires
        den != 0,
        fits_i32(v - lum),
        fits_i32((v - lum) * num),
        den > 0,
        fits_i32(lum + div_toward_zero((v - lum) * num, den as int)),
    ensures
        r == lum + div_toward_zero((v - lum) * num, den as int),
{
    lum + (v - lum) * num / den
}

/// Brings channels that have been shifted to a wanted luminosity `lum` back
/// into range, keeping their luminosity and hue ("ClipColor" of the PDF blend
/// modes): negative channels are lifted toward `lum`, channels above one are
/// lowered toward it. The results are truncated to 16 bits.
pub fn clip_color(r: i32, g: i32, b: i32, lum: i32) -> (c: (u16, u16, u16))
    requires
        clip_defined((r as int, g as int, b as int), lum as int),
    ensures
        c == ({
            let x = clip_high((r as int, g as int, b as int), lum as int);
            (x.0 as u16, x.1 as u16, x.2 as u16)
        }),
{
    let ghost c0 = (r as int, g as int, b as int);
    let cmin = if r <= g && r <= b {
        r
    } else if g <= b {
        g
    } else {
        b
    };
    let cmax = if r >= g && r >= b {
        r
    } else if g >= b {
        g
    } else {
        b
    };
    let (mut r, mut g, mut b) = (r, g, b);
    if cmin < 0 {
        let d = lum - cmin;
        r = pull_toward(r, lum, lum, d);
        g = pull_toward(g, lum, lum, d);
        b = pull_toward(b, lum, lum, d);
    }
    assert((r as int, g as int, b as int) == clip_low(c0, lum as int));
    if cmax > SCALE as i32 {
        let d = cmax - lum;
        let room = SCALE as i32 - lum;
        r = pull_toward(r, lum, room, d);
        g = pull_toward(g, lum, room, d);
        b = pull_toward(b, lum, room, d);
    }
    assert((r as int, g as int, b as int) == clip_high(c0, lum as int));
    (r as u16, g as u16, b as u16)
}

/// Lifting one channel of a colour whose smallest channel is negative keeps
/// every step within 32 bits and lands the channel in `[0, SCALE]`.
proof fn lemma_lift_in_range(v: int, lum: int, cmin: int)
    requires
        -SCALE <= cmin < 0,
        0 <= lum <= SCALE,
        cmin <= v <= cmin + SCALE,
    ensures
        fits_i32(lum - cmin),
        fits_i32(v - lum),
        fits_i32((v - lum) * lum),
        fits_i32(lift_channel(v, lum, cmin)),
        0 <= lift_channel(v, lum, cmin) <= SCALE,
{
    let d = lum - cmin;
    let p = (v - lum) * lum;
    assert(-2 * SCALE * SCALE <= p <= SCALE * SCALE) by (nonlinear_arith)
        requires
            p == (v - lum) * lum,
            -2 * SCALE <= v - lum <= SCALE,
            0 <= lum <= SCALE,
    ;
    if v >= lum {
        assert(0 <= p / d <= v - lum) by (nonlinear_arith)
            requires
                p == (v - lum) * lum,
                v >= lum,
                d >= lum,
                d > 0,
                lum >= 0,
        ;
    } else {
        assert(-p == (lum - v) * lum) by (nonlinear_arith)
            requires
                p == (v - lum) * lum,
        ;
        assert(0 <= (-p) / d <= lum) by (nonlinear_arith)
            requires
                -p == (lum - v) * lum,
                0 < lum - v <= d,
                lum >= 0,
        ;
    }
}

/// Lowering one channel of a colour whose largest channel exceeds one (by at
/// most one above the luminosity) keeps every step within 32 bits and lands
/// the channel in `[0, SCALE]`.
proof fn lemma_lower_in_range(v: int, lum: int, cmax: int)
    requires
        SCALE < cmax,
        cmax - lum <= SCALE,
        0 <= lum <= SCALE,
        cmax - SCALE <= v <= cmax,
    ensures
        fits_i32(cmax - lum),
        fits_i32(SCALE - lum),
        fits_i32(v - lum),
        fits_i32((v - lum) * (SCALE - lum)),
        fits_i32(lower_channel(v, lum, cmax)),
        0 <= lower_channel(v, lum, cmax) <= SCALE,
{
    let d = cmax - lum;
    let room = SCALE - lum;
    let p = (v - lum) * room;
    assert(-SCALE * SCALE <= p <= SCALE * SCALE) by (nonlinear_arith)
        requires
            p == (v - lum) * room,
            -SCALE <= v - lum <= SCALE,
            0 <= room <= SCALE,
    ;
    if v >= lum {
        assert(0 <= p / d <= room) by (nonlinear_arith)
            requires
                p == (v - lum) * room,
                0 <= v - lum <= d,
                d > 0,
                room >= 0,
        ;
    } else {
        assert(-p == (lum - v) * room) by (nonlinear_arith)
            requires
                p == (v - lum) * room,
        ;
        assert(0 <= (-p) / d <= lum - v) by (nonlinear_arith)
            requires
                -p == (lum - v) * room,
                lum - v > 0,
                0 <= room < d,
        ;
    }
}

/// When the three channels span at most one, none lies below `-SCALE` or
/// more than one above the luminosity, and the luminosity lies in `[0,
/// SCALE]`, clipping is defined and brings every channel into `[0, SCALE]`.
pub proof fn lemma_clip_color_in_range(c: (int, int, int), lum: int)
    requires
        0 <= lum <= SCALE,
        max3(c) - min3(c) <= SCALE,
        -SCALE <= min3(c),
        max3(c) - lum <= SCALE,
    ensures
        clip_defined(c, lum),
        0 <= clip_high(c, lum).0 <= SCALE,
        0 <= clip_high(c, lum).1 <= SCALE,
        0 <= clip_high(c, lum).2 <= SCALE,
{
    let cmin = min3(c);
    let cmax = max3(c);
    if cmin < 0 {
        lemma_lift_in_range(c.0, lum, cmin);
        lemma_lift_in_range(c.1, lum, cmin);
        lemma_lift_in_range(c.2, lum, cmin);
    } else if cmax > SCALE {
        lemma_lower_in_range(c.0, lum, cmax);
        lemma_lower_in_range(c.1, lum, cmax);
        lemma_lower_in_range(c.2, lum, cmax);
    }
}

/// A premultiplied channel divided by its alpha (zero when the alpha is
/// zero), truncated to 16 bits.
pub open spec fn unpremultiplied(c: u16, a: u16) -> u16 {
    if a == 0 {
        0
    } else {
        ((SCALE as int) * (c as int) / (a as int)) as u16
    }
}

/// Divides a premultiplied channel by its alpha; a transparent pixel gives 0.
pub fn unpremultiply(c: u16, a: u16) -> (v: u16)
    ensures
        v == unpremultiplied(c, a),
{
    if a == 0 {
        0
    } else {
        assert(0 <= (SCALE as int) * (c as int) <= SCALE * u16::MAX) by (nonlinear_arith)
            requires
                0 <= c <= u16::MAX,
        ;
        (SCALE * c as u32 / a as u32) as u16
    }
}

/// Multiplies a channel by an alpha: `c * a / SCALE`.
pub fn premultiply(c: u16, a: u16) -> (v: u32)
    ensures
        v == (c as int) * (a as int) / (SCALE as int),
{
    assert(0 <= (c as int) * (a as int) <= u16::MAX * u16::MAX) by (nonlinear_arith)
        requires
            0 <= c <= u16::MAX,
            0 <= a <= u16::MAX,
    ;
    c as u32 * a as u32 / SCALE
}

/// Tells whether the colour sums of a mask over a buffer fit in 32 bits, so
/// that [`color_pixel_sums`] may be called.
pub fn color_sums_fit_buffer(mask: &[u16], rgba: &[u16]) -> (fits: bool)
    requires
        mask_fits(mask@, rgba@.len() as int),
    ensures
        fits == color_sums_fit(rgba@, dab_pixels(mask@)),
{
    let ghost pv = dab_pixels(mask@);
    let pixels = decode_mask(mask, rgba.len());
    proof {
        lemma_dab_layout(mask@, rgba@.len() as int);
        assert(pv.take(0) =~= Seq::<(u16, int)>::empty());
    }
    let mut sums: [u64; 5] = [0, 0, 0, 0, 0];
    let mut j: usize = 0;
    while j < pixels.len()
        invariant
            pixel_view(pixels@) == pv,
            pv == dab_pixels(mask@),
            pixels_laid_out(pv, rgba@.len() as int),
            j <= pixels@.len(),
            sums[0] == weight_sum(pv.take(j as int)),
            sums[1] == channel_sum(rgba@, pv.take(j as int), 0),
            sums[2] == channel_sum(rgba@, pv.take(j as int), 1),
            sums[3] == channel_sum(rgba@, pv.take(j as int), 2),
            sums[4] == channel_sum(rgba@, pv.take(j as int), 3),
            sums[0] <= u32::MAX,
            sums[1] <= u32::MAX,
            sums[2] <= u32::MAX,
            sums[3] <= u32::MAX,
            sums[4] <= u32::MAX,
        decreases pixels@.len() - j,
    {
        let (m, o) = pixels[j];
        proof {
            assert(pv[j as int] == (m, o as int));
            lemma_sums_extend(rgba@, pv, j as int, 0);
            lemma_sums_extend(rgba@, pv, j as int, 1);
            lemma_sums_extend(rgba@, pv, j as int, 2);
            lemma_sums_extend(rgba@, pv, j as int, 3);
        }
        let opa = m as u64;
        let (r, g, b, a) = (rgba[o] as u64, rgba[o + 1] as u64, rgba[o + 2] as u64, rgba[o + 3] as u64);
        assert(0 <= opa * r <= u16::MAX * u16::MAX && 0 <= opa * g <= u16::MAX * u16::MAX && 0
            <= opa * b <= u16::MAX * u16::MAX && 0 <= opa * a <= u16::MAX * u16::MAX)
            by (nonlinear_arith)
            requires
                opa <= u16::MAX,
                r <= u16::MAX,
                g <= u16::MAX,
                b <= u16::MAX,
                a <= u16::MAX,
        ;
        let next = [
            sums[0] + opa,
            sums[1] + opa * r / 32768,
            sums[2] + opa * g / 32768,
            sums[3] + opa * b / 32768,
            sums[4] + opa * a / 32768,
        ];
        if next[0] > 0xffff_ffff || next[1] > 0xffff_ffff || next[2] > 0xffff_ffff || next[3]
            > 0xffff_ffff || next[4] > 0xffff_ffff {
            proof {
                lemma_sums_monotone(rgba@, pv, j + 1, 0);
                lemma_sums_monotone(rgba@, pv, j + 1, 1);
                lemma_sums_monotone(rgba@, pv, j + 1, 2);
                lemma_sums_monotone(rgba@, pv, j + 1, 3);
                assert(next[0] == weight_sum(pv.take(j + 1)));
                assert(next[1] == channel_sum(rgba@, pv.take(j + 1), 0));
                assert(next[2] == channel_sum(rgba@, pv.take(j + 1), 1));
                assert(next[3] == channel_sum(rgba@, pv.take(j + 1), 2));
                assert(next[4] == channel_sum(rgba@, pv.take(j + 1), 3));
            }
            return false;
        }
        sums = next;
        j = j + 1;
    }
    proof {
        assert(pv.take(pixels@.len() as int) =~= pv);
    }
    true
}

/// A "normal" dab of zero opacity leaves the buffer exactly as it was.
#[verifier::spinoff_prover]
pub proof fn lemma_normal_zero_opacity(
    old: Seq<u16>,
    new: Seq<u16>,
    mask: Seq<u16>,
    color_r: u16,
    color_g: u16,
    color_b: u16,
)
    requires
        mask_fits(mask, old.len() as int),
        dab_applied(old, new, dab_pixels(mask), normal_pixel(0, color_r, color_g, color_b)),
    ensures
        new == old,
{
    let pv = dab_pixels(mask);
    let f = normal_pixel(0, color_r, color_g, color_b);
    lemma_dab_layout(mask, old.len() as int);
    assert forall|k: int| 0 <= k < old.len() implies #[trigger] new[k] == old[k] by {
        if covered_upto(pv, pv.len() as int, k) {
            let j = choose|j: int| 0 <= j < pv.len() && #[trigger] pv[j].1 <= k < pv[j].1 + 4;
            let o = pv[j].1;
            let m = pv[j].0;
            assert(0 <= o && o + 4 <= old.len());
            let px = pixel_at(old, o);
            assert(mask_opacity(m, 0) == 0);
            lemma_zero_weight_keeps(color_r as int, px[0] as int);
            lemma_zero_weight_keeps(color_g as int, px[1] as int);
            lemma_zero_weight_keeps(color_b as int, px[2] as int);
            lemma_zero_weight_keeps(0, px[3] as int);
            assert(f(m, px) =~= px);
            assert(channels_are(new, o, f(m, px)));
            assert(new[o] == old[o] && new[o + 1] == old[o + 1] && new[o + 2] == old[o + 2] && new[o
                + 3] == old[o + 3]);
        }
    }
    assert(new =~= old);
}

/// Where the "normal" dab's opacity is one, the pixel becomes the brush
/// colour, fully opaque.
pub proof fn lemma_normal_full_opacity(
    old: Seq<u16>,
    new: Seq<u16>,
    mask: Seq<u16>,
    color_r: u16,
    color_g: u16,
    color_b: u16,
    opacity: u16,
    j: int,
)
    requires
        dab_applied(old, new, dab_pixels(mask), normal_pixel(opacity, color_r, color_g, color_b)),
        0 <= j < dab_pixels(mask).len(),
        mask_opacity(dab_pixels(mask)[j].0, opacity) == SCALE,
    ensures
        new[dab_pixels(mask)[j].1] == color_r,
        new[dab_pixels(mask)[j].1 + 1] == color_g,
        new[dab_pixels(mask)[j].1 + 2] == color_b,
        new[dab_pixels(mask)[j].1 + 3] == SCALE,
{
    let pv = dab_pixels(mask);
    let f = normal_pixel(opacity, color_r, color_g, color_b);
    assert(channels_are(new, pv[j].1, f(pv[j].0, pixel_at(old, pv[j].1))));
}

/// With `color_a == SCALE` the "normal and eraser" mode paints exactly as the
/// "normal" mode does.
pub proof fn lemma_eraser_opaque_is_normal(
    color_r: u16,
    color_g: u16,
    color_b: u16,
    opacity: u16,
)
    ensures
        eraser_pixel(color_r, color_g, color_b, SCALE as u16, opacity) == normal_pixel(
            opacity,
            color_r,
            color_g,
            color_b,
        ),
        forall|m: u16, px: Seq<u16>|
            #[trigger] eraser_defined(color_r, color_g, color_b, SCALE as u16, opacity)(m, px)
                <== normal_defined(opacity)(m, px),
{
    let e = eraser_pixel(color_r, color_g, color_b, SCALE as u16, opacity);
    let n = normal_pixel(opacity, color_r, color_g, color_b);
    assert forall|m: u16, px: Seq<u16>| #[trigger] e(m, px) == n(m, px) by {
        let a = mask_opacity(m, opacity);
        assert(a * (SCALE as int) / (SCALE as int) == a);
        assert(e(m, px) =~= n(m, px));
    }
    assert(e =~= n);
    assert forall|m: u16, px: Seq<u16>| #[trigger]
        normal_defined(opacity)(m, px) implies eraser_defined(
            color_r,
            color_g,
            color_b,
            SCALE as u16,
            opacity,
        )(m, px) by {
        {
            let a = mask_opacity(m, opacity);
            assert(a * (SCALE as int) / (SCALE as int) == a);
            lemma_composite_bound(a, SCALE - a, color_r as int, px[0] as int);
            lemma_composite_bound(a, SCALE - a, color_g as int, px[1] as int);
            lemma_composite_bound(a, SCALE - a, color_b as int, px[2] as int);
            assert(0 <= mask_opacity(m, opacity)) by (nonlinear_arith)
                requires
                    mask_opacity(m, opacity) == (m as int) * (opacity as int) / (SCALE as int),
                    0 <= m,
                    0 <= opacity,
            ;
        }
    }
}

/// With `color_a == 0`, where the dab's opacity is one the "normal and
/// eraser" mode erases the pixel completely: all four channels become zero.
#[verifier::spinoff_prover]
pub proof fn lemma_eraser_clears(
    old: Seq<u16>,
    new: Seq<u16>,
    mask: Seq<u16>,
    color_r: u16,
    color_g: u16,
    color_b: u16,
    opacity: u16,
    j: int,
)
    requires
        dab_applied(old, new, dab_pixels(mask), eraser_pixel(color_r, color_g, color_b, 0, opacity)),
        0 <= j < dab_pixels(mask).len(),
        mask_opacity(dab_pixels(mask)[j].0, opacity) == SCALE,
    ensures
        new[dab_pixels(mask)[j].1] == 0,
        new[dab_pixels(mask)[j].1 + 1] == 0,
        new[dab_pixels(mask)[j].1 + 2] == 0,
        new[dab_pixels(mask)[j].1 + 3] == 0,
{
    let pv = dab_pixels(mask);
    let f = eraser_pixel(color_r, color_g, color_b, 0, opacity);
    let m = pv[j].0;
    let px = pixel_at(old, pv[j].1);
    let a = mask_opacity(m, opacity);
    assert(a == SCALE);
    assert(a * 0 / (SCALE as int) == 0);
    assert(over(0, color_r as int, 0, px[0] as int) == 0);
    assert(over(0, color_g as int, 0, px[1] as int) == 0);
    assert(over(0, color_b as int, 0, px[2] as int) == 0);
    assert(over_alpha(0, 0, px[3] as int) == 0);
    assert(f(m, px) =~= seq![0u16, 0u16, 0u16, 0u16]);
    assert(channels_are(new, pv[j].1, f(m, px)));
}

/// A composite that gives the colour no weight and the background all of it
/// keeps the background channel.
proof fn lemma_zero_weight_keeps(target: int, cur: int)
    requires
        0 <= cur <= u16::MAX,
    ensures
        over(0, target, SCALE as int, cur) == cur,
        over_alpha(0, SCALE as int, cur) == cur,
{
    assert(0 * target == 0);
    assert((SCALE as int) * cur / (SCALE as int) == cur);
}

/// The un-premultiplied colour of a pixel.
pub open spec fn unpremultiplied_pixel(px: Seq<u16>) -> (u16, u16, u16) {
    (unpremultiplied(px[0], px[3]), unpremultiplied(px[1], px[3]), unpremultiplied(px[2], px[3]))
}

/// The colour `top` moved to the luminosity `bot_lum` (from `top_lum`) and
/// clipped back into range around that wanted luminosity, truncated to 16
/// bits per channel.
pub open spec fn lum_applied(top: (u16, u16, u16), bot_lum: u32, top_lum: u32) -> (u16, u16, u16) {
    let x = clip_high(lum_shifted(top, bot_lum, top_lum), (bot_lum as i32) as int);
    (x.0 as u16, x.1 as u16, x.2 as u16)
}

/// The shift by the luminosity difference fits 32-bit signed arithmetic.
pub open spec fn lum_shift_fits(bot_lum: u32, top_lum: u32) -> bool {
    i32::MIN <= (bot_lum as i32) - (top_lum as i32) <= i32::MAX - u16::MAX
}

/// Every step of the "color" mode at a pixel, for given luminosities, stays
/// within its machine types: the clipping and the three composites.
pub open spec fn color_steps_fit(
    top: (u16, u16, u16),
    m: u16,
    opacity: u16,
    px: Seq<u16>,
    bot_lum: u32,
    top_lum: u32,
) -> bool {
    let a = mask_opacity(m, opacity);
    let b = SCALE - a;
    let c = lum_applied(top, bot_lum, top_lum);
    &&& clip_defined(lum_shifted(top, bot_lum, top_lum), (bot_lum as i32) as int)
    &&& a * ((c.0 as int) * (px[3] as int) / (SCALE as int)) + b * px[0] <= u32::MAX
    &&& a * ((c.1 as int) * (px[3] as int) / (SCALE as int)) + b * px[1] <= u32::MAX
    &&& a * ((c.2 as int) * (px[3] as int) / (SCALE as int)) + b * px[2] <= u32::MAX
}

/// The "color" mode is defined at a pixel when the dab's opacity there is at
/// most one and, whatever luminosities `luma` returns for the pixel's colour
/// and the brush colour, no step leaves its machine type.
pub open spec fn color_defined<F: Fn(u16, u16, u16) -> u32>(
    color_r: u16,
    color_g: u16,
    color_b: u16,
    opacity: u16,
    luma: F,
) -> spec_fn(u16, Seq<u16>) -> bool {
    |m: u16, px: Seq<u16>|
        {
            let top = (color_r, color_g, color_b);
            let bot = unpremultiplied_pixel(px);
            &&& mask_opacity(m, opacity) <= SCALE
            &&& forall|bl: u32, tl: u32|
                #![trigger luma.ensures(bot, bl), luma.ensures(top, tl)]
                luma.ensures(bot, bl) && luma.ensures(top, tl) ==> {
                    &&& lum_shift_fits(bl, tl)
                    &&& color_steps_fit(top, m, opacity, px, bl, tl)
                }
        }
}

/// What the "color" mode makes of a pixel: for luminosities that `luma` may
/// return for the pixel's (un-premultiplied) colour and for the brush colour,
/// each colour channel is composited toward the brush colour moved to the
/// pixel's luminosity and premultiplied again by the pixel's alpha; alpha is
/// kept.
pub open spec fn color_pixel<F: Fn(u16, u16, u16) -> u32>(
    color_r: u16,
    color_g: u16,
    color_b: u16,
    opacity: u16,
    luma: F,
) -> spec_fn(u16, Seq<u16>, Seq<u16>) -> bool {
    |m: u16, px: Seq<u16>, np: Seq<u16>|
        {
            let top = (color_r, color_g, color_b);
            let bot = unpremultiplied_pixel(px);
            let a = mask_opacity(m, opacity);
            let b = SCALE - a;
            &&& np[3] == px[3]
            &&& exists|bl: u32, tl: u32|
                #![trigger luma.ensures(bot, bl), luma.ensures(top, tl)]
                {
                    let c = lum_applied(top, bl, tl);
                    &&& luma.ensures(bot, bl)
                    &&& luma.ensures(top, tl)
                    &&& np[0] == over(a, (c.0 as int) * (px[3] as int) / (SCALE as int), b, px[0] as int)
                    &&& np[1] == over(a, (c.1 as int) * (px[3] as int) / (SCALE as int), b, px[1] as int)
                    &&& np[2] == over(a, (c.2 as int) * (px[3] as int) / (SCALE as int), b, px[2] as int)
                }
        }
}

/// Setting the luminosity is defined for `top` and `bot`: whatever
/// luminosities `luma` returns for them, the shift and the clipping stay
/// within 32-bit signed arithmetic.
pub open spec fn lum_set_defined<F: Fn(u16, u16, u16) -> u32>(
    top: (u16, u16, u16),
    bot: (u16, u16, u16),
    luma: F,
) -> bool {
    forall|bl: u32, tl: u32|
        #![trigger luma.ensures(bot, bl), luma.ensures(top, tl)]
        luma.ensures(bot, bl) && luma.ensures(top, tl) ==> {
            &&& lum_shift_fits(bl, tl)
            &&& clip_defined(lum_shifted(top, bl, tl), (bl as i32) as int)
        }
}

/// Gives the colour in `bot_r`, `bot_g`, `bot_b` the hue and saturation of
/// `top` at its own luminosity (SetLum and ClipColor of the PDF blend modes):
/// `top` is shifted by the difference of the two luminosities, then clipped
/// back into range around the wanted luminosity, that of `bot`, so that the
/// clipping keeps it.
pub fn set_rgb16_lum_from_rgb16<F: Fn(u16, u16, u16) -> u32>(
    top_r: u16,
    top_g: u16,
    top_b: u16,
    bot_r: &mut u16,
    bot_g: &mut u16,
    bot_b: &mut u16,
    luma: &F,
)
    requires
        forall|r: u16, g: u16, b: u16| luma.requires((r, g, b)),
        lum_set_defined((top_r, top_g, top_b), (*old(bot_r), *old(bot_g), *old(bot_b)), *luma),
    ensures
        ({
            let top = (top_r, top_g, top_b);
            let bot = (*old(bot_r), *old(bot_g), *old(bot_b));
            exists|bl: u32, tl: u32|
                #![trigger luma.ensures(bot, bl), luma.ensures(top, tl)]
                {
                    &&& luma.ensures(bot, bl)
                    &&& luma.ensures(top, tl)
                    &&& (*final(bot_r), *final(bot_g), *final(bot_b)) == lum_applied(top, bl, tl)
                }
        }),
{
    let bot_lum = luma(*bot_r, *bot_g, *bot_b);
    let top_lum = luma(top_r, top_g, top_b);
    let (sr, sg, sb) = shift_lum(top_r, top_g, top_b, bot_lum, top_lum);
    let (cr, cg, cb) = clip_color(sr, sg, sb, bot_lum as i32);
    *bot_r = cr;
    *bot_g = cg;
    *bot_b = cb;
}

/// For colours whose channels are at most one and a luminosity measure that
/// never exceeds the largest channel, setting the luminosity is defined and
/// gives channels in `[0, SCALE]`.
pub proof fn lemma_lum_set_in_range<F: Fn(u16, u16, u16) -> u32>(
    top: (u16, u16, u16),
    bot: (u16, u16, u16),
    luma: F,
)
    requires
        luma_within_channels(luma),
        top.0 <= SCALE,
        top.1 <= SCALE,
        top.2 <= SCALE,
        bot.0 <= SCALE,
        bot.1 <= SCALE,
        bot.2 <= SCALE,
    ensures
        lum_set_defined(top, bot, luma),
        forall|bl: u32, tl: u32|
            #![trigger luma.ensures(bot, bl), luma.ensures(top, tl)]
            luma.ensures(bot, bl) && luma.ensures(top, tl) ==> {
                let c = lum_applied(top, bl, tl);
                c.0 <= SCALE && c.1 <= SCALE && c.2 <= SCALE
            },
{
    assert forall|bl: u32, tl: u32|
        #![trigger luma.ensures(bot, bl), luma.ensures(top, tl)]
        luma.ensures(bot, bl) && luma.ensures(top, tl) implies {
        &&& lum_shift_fits(bl, tl)
        &&& clip_defined(lum_shifted(top, bl, tl), (bl as i32) as int)
        &&& lum_applied(top, bl, tl).0 <= SCALE
        &&& lum_applied(top, bl, tl).1 <= SCALE
        &&& lum_applied(top, bl, tl).2 <= SCALE
    } by {
        assert(bl <= SCALE && tl <= max_channel(top) && tl <= SCALE);
        lemma_clip_color_in_range(lum_shifted(top, bl, tl), (bl as i32) as int);
    }
}

/// Color blend mode: gives every covered pixel the brush colour's hue and
/// saturation at the pixel's own luminosity (SetLum and ClipColor of the PDF
/// blend modes), composited with the dab's opacity; alpha is kept.
/// `luma(r, g, b)` measures the luminosity of a 16-bit colour.
#[verifier::spinoff_prover]
#[verifier::rlimit(40)]
pub fn draw_dab_pixels_color<F: Fn(u16, u16, u16) -> u32>(
    mask: &[u16],
    rgba: &mut [u16],
    color_r: u16,
    color_g: u16,
    color_b: u16,
    opacity: u16,
    luma: F,
)
    requires
        mask_fits(mask@, old(rgba)@.len() as int),
        dab_within(old(rgba)@, dab_pixels(mask@), color_defined(color_r, color_g, color_b, opacity, luma)),
        forall|r: u16, g: u16, b: u16| luma.requires((r, g, b)),
    ensures
        dab_related(
            old(rgba)@,
            final(rgba)@,
            dab_pixels(mask@),
            color_pixel(color_r, color_g, color_b, opacity, luma),
        ),
        alpha_kept(old(rgba)@, final(rgba)@),
{
    let ghost orig = rgba@;
    let ghost pv = dab_pixels(mask@);
    let ghost rel = color_pixel(color_r, color_g, color_b, opacity, luma);
    let ghost ok = color_defined(color_r, color_g, color_b, opacity, luma);
    let ghost top = (color_r, color_g, color_b);
    let pixels = decode_mask(mask, rgba.len());
    proof {
        lemma_dab_layout(mask@, orig.len() as int);
    }
    let mut j: usize = 0;
    while j < pixels.len()
        invariant
            pixel_view(pixels@) == pv,
            pixels_laid_out(pv, orig.len() as int),
            pixels_aligned(pv),
            j <= pixels@.len(),
            rgba@.len() == orig.len(),
            dab_related_upto(orig, rgba@, pv, rel, j as int),
            dab_within(orig, pv, ok),
            rel == color_pixel(color_r, color_g, color_b, opacity, luma),
            ok == color_defined(color_r, color_g, color_b, opacity, luma),
            top == (color_r, color_g, color_b),
            forall|r: u16, g: u16, b: u16| luma.requires((r, g, b)),
        decreases pixels@.len() - j,
    {
        let (m, o) = pixels[j];
        let ghost cur = rgba@;
        proof {
            assert(pv[j as int] == (m, o as int));
            lemma_related_pending(orig, cur, pv, rel, j as int);
            assert(ok(pv[j as int].0, pixel_at(orig, pv[j as int].1)));
        }
        let ghost px = pixel_at(orig, o as int);
        let (r, g, b, a) = (rgba[o], rgba[o + 1], rgba[o + 2], rgba[o + 3]);
        assert(px[0] == r && px[1] == g && px[2] == b && px[3] == a);
        let bot_r = unpremultiply(r, a);
        let bot_g = unpremultiply(g, a);
        let bot_b = unpremultiply(b, a);
        assert(unpremultiplied_pixel(px) == (bot_r, bot_g, bot_b));
        let (mut cr, mut cg, mut cb) = (bot_r, bot_g, bot_b);
        assert(lum_set_defined(top, unpremultiplied_pixel(px), luma));
        set_rgb16_lum_from_rgb16(color_r, color_g, color_b, &mut cr, &mut cg, &mut cb, &luma);
        let ghost (bl, tl) = choose|bl: u32, tl: u32|
            {
                &&& luma.ensures(unpremultiplied_pixel(px), bl)
                &&& luma.ensures(top, tl)
                &&& (cr, cg, cb) == lum_applied(top, bl, tl)
            };
        assert(color_steps_fit(top, m, opacity, px, bl, tl));
        let pr = premultiply(cr, a);
        let pg = premultiply(cg, a);
        let pb = premultiply(cb, a);
        let opa_a = dab_opacity(m, opacity);
        let opa_b = SCALE - opa_a;
        let nr = composite(opa_a, pr, opa_b, r);
        let ng = composite(opa_a, pg, opa_b, g);
        let nb = composite(opa_a, pb, opa_b, b);
        rgba[o] = nr;
        rgba[o + 1] = ng;
        rgba[o + 2] = nb;
        proof {
            let np = pixel_at(rgba@, o as int);
            assert(np[0] == nr && np[1] == ng && np[2] == nb && np[3] == px[3]);
            assert(rel(m, px, np));
            lemma_related_step(orig, cur, rgba@, pv, rel, j as int);
        }
        j = j + 1;
    }
    proof {
        lemma_related_alpha_kept(orig, rgba@, pv, rel);
    }
}

/// The largest of three 16-bit channels.
pub open spec fn max_channel(c: (u16, u16, u16)) -> int {
    max3((c.0 as int, c.1 as int, c.2 as int))
}

/// A luminosity measure that never exceeds the largest channel.
pub open spec fn luma_within_channels<F: Fn(u16, u16, u16) -> u32>(luma: F) -> bool {
    forall|c: (u16, u16, u16), v: u32| #[trigger] luma.ensures(c, v) ==> v <= max_channel(c)
}

/// Un-premultiplying a channel that does not exceed its alpha gives at most
/// one.
proof fn lemma_unpremultiplied_in_range(c: u16, a: u16)
    requires
        c <= a,
    ensures
        unpremultiplied(c, a) <= SCALE,
{
    if a != 0 {
        assert((SCALE as int) * (c as int) / (a as int) <= SCALE) by (nonlinear_arith)
            requires
                0 <= c <= a,
                a > 0,
        ;
    }
}

/// On a premultiplied pixel whose channels are at most one, with a brush
/// colour whose channels are at most one and a dab opacity of at most one,
/// the "color" mode is defined for every luminosity measure that never
/// exceeds the largest channel of its argument.
pub proof fn lemma_color_defined_in_domain<F: Fn(u16, u16, u16) -> u32>(
    color_r: u16,
    color_g: u16,
    color_b: u16,
    opacity: u16,
    luma: F,
    m: u16,
    px: Seq<u16>,
)
    requires
        luma_within_channels(luma),
        color_r <= SCALE,
        color_g <= SCALE,
        color_b <= SCALE,
        px.len() == 4,
        px[3] <= SCALE,
        px[0] <= px[3],
        px[1] <= px[3],
        px[2] <= px[3],
        mask_opacity(m, opacity) <= SCALE,
    ensures
        color_defined(color_r, color_g, color_b, opacity, luma)(m, px),
{
    let top = (color_r, color_g, color_b);
    let bot = unpremultiplied_pixel(px);
    lemma_unpremultiplied_in_range(px[0], px[3]);
    lemma_unpremultiplied_in_range(px[1], px[3]);
    lemma_unpremultiplied_in_range(px[2], px[3]);
    assert forall|bl: u32, tl: u32|
        #![trigger luma.ensures(bot, bl), luma.ensures(top, tl)]
        luma.ensures(bot, bl) && luma.ensures(top, tl) implies {
        &&& lum_shift_fits(bl, tl)
        &&& color_steps_fit(top, m, opacity, px, bl, tl)
    } by {
        assert(bl <= SCALE && tl <= max_channel(top) && tl <= SCALE);
        let sh = lum_shifted(top, bl, tl);
        lemma_clip_color_in_range(sh, (bl as i32) as int);
        let a = mask_opacity(m, opacity);
        let b = SCALE - a;
        let c = lum_applied(top, bl, tl);
        let x = clip_high(sh, (bl as i32) as int);
        assert(c.0 as int == x.0 && c.1 as int == x.1 && c.2 as int == x.2);
        assert(0 <= a) by (nonlinear_arith)
            requires
                a == (m as int) * (opacity as int) / (SCALE as int),
                0 <= m,
                0 <= opacity,
        ;
        assert forall|ch: u16| ch <= SCALE implies #[trigger] ((ch as int) * (px[3] as int) / (
        SCALE as int)) <= SCALE by {
            assert((ch as int) * (px[3] as int) / (SCALE as int) <= SCALE) by (nonlinear_arith)
                requires
                    0 <= ch <= SCALE,
                    0 <= px[3] <= SCALE,
            ;
        }
        let p0 = (c.0 as int) * (px[3] as int) / (SCALE as int);
        let p1 = (c.1 as int) * (px[3] as int) / (SCALE as int);
        let p2 = (c.2 as int) * (px[3] as int) / (SCALE as int);
        assert(0 <= p0 && 0 <= p1 && 0 <= p2) by (nonlinear_arith)
            requires
                p0 == (c.0 as int) * (px[3] as int) / (SCALE as int),
                p1 == (c.1 as int) * (px[3] as int) / (SCALE as int),
                p2 == (c.2 as int) * (px[3] as int) / (SCALE as int),
                0 <= c.0,
                0 <= c.1,
                0 <= c.2,
                0 <= px[3],
        ;
        lemma_composite_bound(a, b, p0, px[0] as int);
        lemma_composite_bound(a, b, p1, px[1] as int);
        lemma_composite_bound(a, b, p2, px[2] as int);
    }
}

/// A pixel where `ok` fails leaves the dab outside `ok`.
proof fn lemma_outside_dab(
    buf: Seq<u16>,
    pixels: Seq<(u16, int)>,
    ok: spec_fn(u16, Seq<u16>) -> bool,
    j: int,
)
    requires
        0 <= j < pixels.len(),
        !ok(pixels[j].0, pixel_at(buf, pixels[j].1)),
    ensures
        !dab_within(buf, pixels, ok),
{
}

/// Tells whether the dab's opacity is at most one at every covered pixel,
/// which the "normal", "posterize", "normal paint", "lock alpha paint" and
/// "normal and eraser paint" modes need.
pub fn dab_opacity_fits(mask: &[u16], rgba: &[u16], opacity: u16) -> (fits: bool)
    requires
        mask_fits(mask@, rgba@.len() as int),
    ensures
        fits == dab_within(rgba@, dab_pixels(mask@), normal_defined(opacity)),
{
    let ghost pv = dab_pixels(mask@);
    let ghost ok = normal_defined(opacity);
    let pixels = decode_mask(mask, rgba.len());
    let mut j: usize = 0;
    while j < pixels.len()
        invariant
            pixel_view(pixels@) == pv,
            pv == dab_pixels(mask@),
            j <= pixels@.len(),
            ok == normal_defined(opacity),
            forall|k: int| 0 <= k < j ==> ok(#[trigger] pv[k].0, pixel_at(rgba@, pv[k].1)),
        decreases pixels@.len() - j,
    {
        let (m, o) = pixels[j];
        assert(pv[j as int] == (m, o as int));
        if dab_opacity(m, opacity) > SCALE {
            proof {
                lemma_outside_dab(rgba@, pv, ok, j as int);
            }
            return false;
        }
        j = j + 1;
    }
    true
}

/// Tells whether the "normal and eraser" mode is defined at every covered
/// pixel.
pub fn eraser_dab_fits(
    mask: &[u16],
    rgba: &[u16],
    color_r: u16,
    color_g: u16,
    color_b: u16,
    color_a: u16,
    opacity: u16,
) -> (fits: bool)
    requires
        mask_fits(mask@, rgba@.len() as int),
    ensures
        fits == dab_within(
            rgba@,
            dab_pixels(mask@),
            eraser_defined(color_r, color_g, color_b, color_a, opacity),
        ),
{
    let ghost pv = dab_pixels(mask@);
    let ghost ok = eraser_defined(color_r, color_g, color_b, color_a, opacity);
    let pixels = decode_mask(mask, rgba.len());
    proof {
        lemma_dab_layout(mask@, rgba@.len() as int);
    }
    let mut j: usize = 0;
    while j < pixels.len()
        invariant
            pixel_view(pixels@) == pv,
            pv == dab_pixels(mask@),
            pixels_laid_out(pv, rgba@.len() as int),
            j <= pixels@.len(),
            ok == eraser_defined(color_r, color_g, color_b, color_a, opacity),
            forall|k: int| 0 <= k < j ==> ok(#[trigger] pv[k].0, pixel_at(rgba@, pv[k].1)),
        decreases pixels@.len() - j,
    {
        let (m, o) = pixels[j];
        assert(pv[j as int] == (m, o as int));
        let ghost px = pixel_at(rgba@, o as int);
        let a = dab_opacity(m, opacity);
        if a > SCALE {
            proof {
                lemma_outside_dab(rgba@, pv, ok, j as int);
            }
            return false;
        }
        let b = (SCALE - a) as u64;
        assert(0 <= a * color_a <= SCALE * u16::MAX) by (nonlinear_arith)
            requires
                0 <= a <= SCALE,
                0 <= color_a <= u16::MAX,
        ;
        let a2 = (a as u64) * (color_a as u64) / (SCALE as u64);
        assert(a2 <= 2 * SCALE);
        assert(a2 * u16::MAX <= 2 * SCALE * u16::MAX && b * u16::MAX <= SCALE * u16::MAX)
            by (nonlinear_arith)
            requires
                0 <= a2 <= 2 * SCALE,
                0 <= b <= SCALE,
        ;
        let (r, g, bl) = (rgba[o], rgba[o + 1], rgba[o + 2]);
        assert(px[0] == r && px[1] == g && px[2] == bl);
        assert(0 <= a2 * color_r <= a2 * u16::MAX && 0 <= a2 * color_g <= a2 * u16::MAX && 0 <= a2
            * color_b <= a2 * u16::MAX) by (nonlinear_arith)
            requires
                0 <= a2,
                0 <= color_r <= u16::MAX,
                0 <= color_g <= u16::MAX,
                0 <= color_b <= u16::MAX,
        ;
        assert(0 <= b * r <= b * u16::MAX && 0 <= b * g <= b * u16::MAX && 0 <= b * bl <= b
            * u16::MAX) by (nonlinear_arith)
            requires
                0 <= b,
                0 <= r <= u16::MAX,
                0 <= g <= u16::MAX,
                0 <= bl <= u16::MAX,
        ;
        let max = u32::MAX as u64;
        if a2 * (color_r as u64) + b * (r as u64) > max || a2 * (color_g as u64) + b * (g as u64)
            > max || a2 * (color_b as u64) + b * (bl as u64) > max {
            proof {
                lemma_outside_dab(rgba@, pv, ok, j as int);
            }
            return false;
        }
        assert(ok(pv[j as int].0, px));
        j = j + 1;
    }
    true
}

/// Tells whether the "lock alpha" mode is defined at every covered pixel.
pub fn lock_alpha_dab_fits(mask: &[u16], rgba: &[u16], opacity: u16) -> (fits: bool)
    requires
        mask_fits(mask@, rgba@.len() as int),
    ensures
        fits == dab_within(rgba@, dab_pixels(mask@), lock_alpha_defined(opacity)),
{
    let ghost pv = dab_pixels(mask@);
    let ghost ok = lock_alpha_defined(opacity);
    let pixels = decode_mask(mask, rgba.len());
    proof {
        lemma_dab_layout(mask@, rgba@.len() as int);
    }
    let mut j: usize = 0;
    while j < pixels.len()
        invariant
            pixel_view(pixels@) == pv,
            pv == dab_pixels(mask@),
            pixels_laid_out(pv, rgba@.len() as int),
            j <= pixels@.len(),
            ok == lock_alpha_defined(opacity),
            forall|k: int| 0 <= k < j ==> ok(#[trigger] pv[k].0, pixel_at(rgba@, pv[k].1)),
        decreases pixels@.len() - j,
    {
        let (m, o) = pixels[j];
        assert(pv[j as int] == (m, o as int));
        let ghost px = pixel_at(rgba@, o as int);
        let len = rgba.len();
        assert(pv[j as int].1 + 4 <= len);
        let a = dab_opacity(m, opacity);
        let alpha = rgba[o + 3];
        assert(px[3] == alpha);
        assert(a <= 4 * SCALE) by (nonlinear_arith)
            requires
                a == (m as int) * (opacity as int) / (SCALE as int),
                0 <= m <= u16::MAX,
                0 <= opacity <= u16::MAX,
        ;
        assert(0 <= a * alpha <= 4 * SCALE * u16::MAX) by (nonlinear_arith)
            requires
                0 <= a <= 4 * SCALE,
                0 <= alpha <= u16::MAX,
        ;
        let w = (a as u64) * (alpha as u64);
        if w > u32::MAX as u64 || w / (SCALE as u64) > SCALE as u64 {
            proof {
                lemma_outside_dab(rgba@, pv, ok, j as int);
            }
            return false;
        }
        assert(ok(pv[j as int].0, px));
        j = j + 1;
    }
    true
}

/// The documented domain of the "color" mode at a pixel: brush colour
/// channels at most one, the dab's opacity at most one, and a premultiplied
/// pixel whose alpha is at most one.
pub open spec fn color_in_domain(
    color_r: u16,
    color_g: u16,
    color_b: u16,
    opacity: u16,
) -> spec_fn(u16, Seq<u16>) -> bool {
    |m: u16, px: Seq<u16>|
        {
            &&& color_r <= SCALE
            &&& color_g <= SCALE
            &&& color_b <= SCALE
            &&& mask_opacity(m, opacity) <= SCALE
            &&& px[3] <= SCALE
            &&& px[0] <= px[3]
            &&& px[1] <= px[3]
            &&& px[2] <= px[3]
        }
}

/// Every covered pixel in the documented domain of the "color" mode is one
/// where the mode is defined, for every luminosity measure that never exceeds
/// the largest channel of its argument.
pub proof fn lemma_color_domain_defined<F: Fn(u16, u16, u16) -> u32>(
    buf: Seq<u16>,
    pixels: Seq<(u16, int)>,
    color_r: u16,
    color_g: u16,
    color_b: u16,
    opacity: u16,
    luma: F,
)
    requires
        luma_within_channels(luma),
        dab_within(buf, pixels, color_in_domain(color_r, color_g, color_b, opacity)),
        pixels_laid_out(pixels, buf.len() as int),
    ensures
        dab_within(buf, pixels, color_defined(color_r, color_g, color_b, opacity, luma)),
{
    assert forall|j: int| 0 <= j < pixels.len() implies color_defined(
        color_r,
        color_g,
        color_b,
        opacity,
        luma,
    )(#[trigger] pixels[j].0, pixel_at(buf, pixels[j].1)) by {
        let px = pixel_at(buf, pixels[j].1);
        assert(color_in_domain(color_r, color_g, color_b, opacity)(pixels[j].0, px));
        lemma_color_defined_in_domain(color_r, color_g, color_b, opacity, luma, pixels[j].0, px);
    }
}

/// A 64-bit value fits a 32-bit signed integer.
fn fits_in_i32(v: i64) -> (b: bool)
    ensures
        b == fits_i32(v as int),
{
    i32::MIN as i64 <= v && v <= i32::MAX as i64
}

/// `lum` plus `num / den` of the distance from `lum` to `v`, rounded toward
/// zero, in 64 bits.
fn pulled(v: i64, lum: i64, num: i64, den: i64) -> (r: i64)
    requires
        -0x1_0000_0000 <= v - lum <= 0x1_0000_0000,
        0 <= lum <= SCALE,
        0 <= num <= SCALE,
        den > 0,
    ensures
        r == lum + div_toward_zero((v - lum) * num, den as int),
{
    assert(-0x1_0000_0000 * SCALE <= (v - lum) * num <= 0x1_0000_0000 * SCALE) by (nonlinear_arith)
        requires
            -0x1_0000_0000 <= v - lum <= 0x1_0000_0000,
            0 <= num <= SCALE,
    ;
    let p = (v - lum) * num;
    if p >= 0 {
        assert(0 <= p / den <= p) by (nonlinear_arith)
            requires
                p >= 0,
                den > 0,
        ;
    } else {
        assert(0 <= (-p) / (den as int) <= -p) by (nonlinear_arith)
            requires
                p < 0,
                den > 0,
        ;
    }
    lum + p / den
}

/// Tells whether clipping the channels `r`, `g`, `b` around `lum` is defined:
/// the luminosity lies in `[0, SCALE]` and no intermediate value leaves 32
/// bits.
pub fn clip_fits(r: i32, g: i32, b: i32, lum: i32) -> (ok: bool)
    ensures
        ok == clip_defined((r as int, g as int, b as int), lum as int),
{
    let ghost c0 = (r as int, g as int, b as int);
    if lum < 0 || lum > SCALE as i32 {
        return false;
    }
    let cmin = if r <= g && r <= b {
        r
    } else if g <= b {
        g
    } else {
        b
    };
    let cmax = if r >= g && r >= b {
        r
    } else if g >= b {
        g
    } else {
        b
    };
    assert(cmin == min3(c0) && cmax == max3(c0));
    let l = lum as i64;
    let (mut lr, mut lg, mut lb) = (r as i64, g as i64, b as i64);
    if cmin < 0 {
        let d = l - cmin as i64;
        let (dr, dg, db) = (lr - l, lg - l, lb - l);
        let (nr, ng, nb) = (pulled(lr, l, l, d), pulled(lg, l, l, d), pulled(lb, l, l, d));
        assert(-0x1_0000_0000 * SCALE <= dr * l <= 0x1_0000_0000 * SCALE && -0x1_0000_0000 * SCALE
            <= dg * l <= 0x1_0000_0000 * SCALE && -0x1_0000_0000 * SCALE <= db * l <= 0x1_0000_0000
            * SCALE) by (nonlinear_arith)
            requires
                -0x1_0000_0000 <= dr <= 0x1_0000_0000,
                -0x1_0000_0000 <= dg <= 0x1_0000_0000,
                -0x1_0000_0000 <= db <= 0x1_0000_0000,
                0 <= l <= SCALE,
        ;
        if !(fits_in_i32(d) && fits_in_i32(dr) && fits_in_i32(dr * l) && fits_in_i32(nr)
            && fits_in_i32(dg) && fits_in_i32(dg * l) && fits_in_i32(ng) && fits_in_i32(db)
            && fits_in_i32(db * l) && fits_in_i32(nb)) {
            return false;
        }
        lr = nr;
        lg = ng;
        lb = nb;
    }
    assert((lr as int, lg as int, lb as int) == clip_low(c0, lum as int));
    if cmax > SCALE as i32 {
        let d = cmax as i64 - l;
        let room = SCALE as i64 - l;
        let (dr, dg, db) = (lr - l, lg - l, lb - l);
        let (nr, ng, nb) = (pulled(lr, l, room, d), pulled(lg, l, room, d), pulled(lb, l, room, d));
        assert(-0x1_0000_0000 * SCALE <= dr * room <= 0x1_0000_0000 * SCALE && -0x1_0000_0000
            * SCALE <= dg * room <= 0x1_0000_0000 * SCALE && -0x1_0000_0000 * SCALE <= db * room
            <= 0x1_0000_0000 * SCALE) by (nonlinear_arith)
            requires
                -0x1_0000_0000 <= dr <= 0x1_0000_0000,
                -0x1_0000_0000 <= dg <= 0x1_0000_0000,
                -0x1_0000_0000 <= db <= 0x1_0000_0000,
                0 <= room <= SCALE,
        ;
        if !(fits_in_i32(d) && fits_in_i32(room) && fits_in_i32(dr) && fits_in_i32(dr * room)
            && fits_in_i32(nr) && fits_in_i32(dg) && fits_in_i32(dg * room) && fits_in_i32(ng)
            && fits_in_i32(db) && fits_in_i32(db * room) && fits_in_i32(nb)) {
            return false;
        }
    }
    true
}

/// The luminosity measure gives one result for each colour.
pub open spec fn luma_deterministic<F: Fn(u16, u16, u16) -> u32>(luma: F) -> bool {
    forall|c: (u16, u16, u16), v: u32, w: u32|
        #![trigger luma.ensures(c, v), luma.ensures(c, w)]
        luma.ensures(c, v) && luma.ensures(c, w) ==> v == w
}

/// Tells whether the "color" mode is defined at the pixel whose first channel
/// is at `o`, for a luminosity measure that gives one result for each colour.
fn color_pixel_fits<F: Fn(u16, u16, u16) -> u32>(
    rgba: &[u16],
    o: usize,
    m: u16,
    color_r: u16,
    color_g: u16,
    color_b: u16,
    opacity: u16,
    luma: &F,
) -> (ok: bool)
    requires
        o + 4 <= rgba@.len(),
        forall|r: u16, g: u16, b: u16| luma.requires((r, g, b)),
        luma_deterministic(*luma),
    ensures
        ok == color_defined(color_r, color_g, color_b, opacity, *luma)(m, pixel_at(rgba@, o as int)),
{
    let ghost px = pixel_at(rgba@, o as int);
    let ghost top = (color_r, color_g, color_b);
    let ghost ok_spec = color_defined(color_r, color_g, color_b, opacity, *luma);
    let opa_a = dab_opacity(m, opacity);
    if opa_a > SCALE {
        return false;
    }
    let opa_b = SCALE - opa_a;
    let (r, g, b, a) = (rgba[o], rgba[o + 1], rgba[o + 2], rgba[o + 3]);
    assert(px[0] == r && px[1] == g && px[2] == b && px[3] == a);
    let bot_r = unpremultiply(r, a);
    let bot_g = unpremultiply(g, a);
    let bot_b = unpremultiply(b, a);
    let ghost bot = unpremultiplied_pixel(px);
    assert(bot == (bot_r, bot_g, bot_b));
    let bl = luma(bot_r, bot_g, bot_b);
    let tl = luma(color_r, color_g, color_b);
    assert(luma.ensures(bot, bl) && luma.ensures(top, tl));
    let steps_fit = {
        let d = (bl as i32) as i64 - (tl as i32) as i64;
        if d < i32::MIN as i64 || d > (i32::MAX - 65535) as i64 {
            false
        } else {
            let (sr, sg, sb) = shift_lum(color_r, color_g, color_b, bl, tl);
            if !clip_fits(sr, sg, sb, bl as i32) {
                false
            } else {
                let (cr, cg, cb) = clip_color(sr, sg, sb, bl as i32);
                assert(lum_applied(top, bl, tl) == (cr, cg, cb));
                let pr = premultiply(cr, a) as u64;
                let pg = premultiply(cg, a) as u64;
                let pb = premultiply(cb, a) as u64;
                assert(pr <= u16::MAX * u16::MAX && pg <= u16::MAX * u16::MAX && pb <= u16::MAX
                    * u16::MAX) by (nonlinear_arith)
                    requires
                        pr == (cr as int) * (a as int) / (SCALE as int),
                        pg == (cg as int) * (a as int) / (SCALE as int),
                        pb == (cb as int) * (a as int) / (SCALE as int),
                        0 <= cr <= u16::MAX,
                        0 <= cg <= u16::MAX,
                        0 <= cb <= u16::MAX,
                        0 <= a <= u16::MAX,
                ;
                let (wa, wb) = (opa_a as u64, opa_b as u64);
                assert(wa * pr <= SCALE * u16::MAX * u16::MAX && wa * pg <= SCALE * u16::MAX
                    * u16::MAX && wa * pb <= SCALE * u16::MAX * u16::MAX && wb * r <= SCALE
                    * u16::MAX && wb * g <= SCALE * u16::MAX && wb * b <= SCALE * u16::MAX)
                    by (nonlinear_arith)
                    requires
                        0 <= wa <= SCALE,
                        0 <= wb <= SCALE,
                        0 <= pr <= u16::MAX * u16::MAX,
                        0 <= pg <= u16::MAX * u16::MAX,
                        0 <= pb <= u16::MAX * u16::MAX,
                        0 <= r <= u16::MAX,
                        0 <= g <= u16::MAX,
                        0 <= b <= u16::MAX,
                ;
                let max = u32::MAX as u64;
                wa * pr + wb * (r as u64) <= max && wa * pg + wb * (g as u64) <= max && wa * pb + wb
                    * (b as u64) <= max
            }
        }
    };
    assert(steps_fit == (lum_shift_fits(bl, tl) && color_steps_fit(top, m, opacity, px, bl, tl)));
    assert forall|bl2: u32, tl2: u32|
        #![trigger luma.ensures(bot, bl2), luma.ensures(top, tl2)]
        luma.ensures(bot, bl2) && luma.ensures(top, tl2) implies bl2 == bl && tl2 == tl by {}
    steps_fit
}

/// Tells whether the "color" mode is defined at every covered pixel, for a
/// luminosity measure that gives one result for each colour.
pub fn color_dab_fits<F: Fn(u16, u16, u16) -> u32>(
    mask: &[u16],
    rgba: &[u16],
    color_r: u16,
    color_g: u16,
    color_b: u16,
    opacity: u16,
    luma: &F,
) -> (fits: bool)
    requires
        mask_fits(mask@, rgba@.len() as int),
        forall|r: u16, g: u16, b: u16| luma.requires((r, g, b)),
        luma_deterministic(*luma),
    ensures
        fits == dab_within(
            rgba@,
            dab_pixels(mask@),
            color_defined(color_r, color_g, color_b, opacity, *luma),
        ),
{
    let ghost pv = dab_pixels(mask@);
    let ghost ok = color_defined(color_r, color_g, color_b, opacity, *luma);
    let pixels = decode_mask(mask, rgba.len());
    proof {
        lemma_dab_layout(mask@, rgba@.len() as int);
    }
    let mut j: usize = 0;
    while j < pixels.len()
        invariant
            pixel_view(pixels@) == pv,
            pv == dab_pixels(mask@),
            pixels_laid_out(pv, rgba@.len() as int),
            j <= pixels@.len(),
            ok == color_defined(color_r, color_g, color_b, opacity, *luma),
            forall|r: u16, g: u16, b: u16| luma.requires((r, g, b)),
            luma_deterministic(*luma),
            forall|k: int| 0 <= k < j ==> ok(#[trigger] pv[k].0, pixel_at(rgba@, pv[k].1)),
        decreases pixels@.len() - j,
    {
        let (m, o) = pixels[j];
        assert(pv[j as int] == (m, o as int));
        assert(pv[j as int].1 + 4 <= rgba@.len());
        if !color_pixel_fits(rgba, o, m, color_r, color_g, color_b, opacity, luma) {
            proof {
                lemma_outside_dab(rgba@, pv, ok, j as int);
            }
            return false;
        }
        j = j + 1;
    }
    true
}

/// A composite whose weights add up to one, of a target and a background
/// channel that are both at most `bound`, is at most `bound`.
proof fn lemma_over_within(a: int, t: int, b: int, p: int, bound: int)
    requires
        0 <= a,
        0 <= b,
        a + b == SCALE,
        0 <= t <= bound,
        0 <= p <= bound,
        bound <= u16::MAX,
    ensures
        over(a, t, b, p) <= bound,
{
    assert(0 <= a * t + b * p <= (SCALE as int) * bound) by (nonlinear_arith)
        requires
            0 <= a,
            0 <= b,
            a + b == SCALE,
            0 <= t <= bound,
            0 <= p <= bound,
    ;
    assert(0 <= (a * t + b * p) / (SCALE as int) <= bound) by (nonlinear_arith)
        requires
            0 <= a * t + b * p <= (SCALE as int) * bound,
    ;
}

/// The "color" mode keeps premultiplied pixels premultiplied: over a pixel
/// whose colour channels are at most its alpha (itself at most one), with a
/// brush colour of channels at most one, a dab opacity of at most one and a
/// luminosity measure that never exceeds the largest channel, every new
/// colour channel is at most the pixel's alpha, and the alpha is kept. In
/// particular the colour written back is multiplied by the pixel's alpha.
pub proof fn lemma_color_keeps_premultiplied<F: Fn(u16, u16, u16) -> u32>(
    color_r: u16,
    color_g: u16,
    color_b: u16,
    opacity: u16,
    luma: F,
    m: u16,
    px: Seq<u16>,
    np: Seq<u16>,
)
    requires
        luma_within_channels(luma),
        color_r <= SCALE,
        color_g <= SCALE,
        color_b <= SCALE,
        px.len() == 4,
        px[3] <= SCALE,
        px[0] <= px[3],
        px[1] <= px[3],
        px[2] <= px[3],
        (m as int) * (opacity as int) / (SCALE as int) <= SCALE,
        color_pixel(color_r, color_g, color_b, opacity, luma)(m, px, np),
    ensures
        np[3] == px[3],
        np[0] <= px[3],
        np[1] <= px[3],
        np[2] <= px[3],
{
    let top = (color_r, color_g, color_b);
    let bot = unpremultiplied_pixel(px);
    lemma_unpremultiplied_in_range(px[0], px[3]);
    lemma_unpremultiplied_in_range(px[1], px[3]);
    lemma_unpremultiplied_in_range(px[2], px[3]);
    lemma_lum_set_in_range(top, bot, luma);
    let a = (m as int) * (opacity as int) / (SCALE as int);
    assert(0 <= a) by (nonlinear_arith)
        requires
            a == (m as int) * (opacity as int) / (SCALE as int),
            0 <= m,
            0 <= opacity,
    ;
    let (bl, tl) = choose|bl: u32, tl: u32|
        #![trigger luma.ensures(bot, bl), luma.ensures(top, tl)]
        {
            let c = lum_applied(top, bl, tl);
            &&& luma.ensures(bot, bl)
            &&& luma.ensures(top, tl)
            &&& np[0] == over(a, (c.0 as int) * (px[3] as int) / (SCALE as int), SCALE - a, px[0] as int)
            &&& np[1] == over(a, (c.1 as int) * (px[3] as int) / (SCALE as int), SCALE - a, px[1] as int)
            &&& np[2] == over(a, (c.2 as int) * (px[3] as int) / (SCALE as int), SCALE - a, px[2] as int)
        };
    let c = lum_applied(top, bl, tl);
    assert(c.0 <= SCALE && c.1 <= SCALE && c.2 <= SCALE);
    assert forall|ch: u16| ch <= SCALE implies 0 <= #[trigger] ((ch as int) * (px[3] as int) / (
    SCALE as int)) <= px[3] by {
        assert(0 <= (ch as int) * (px[3] as int) / (SCALE as int) <= px[3]) by (nonlinear_arith)
            requires
                0 <= ch <= SCALE,
                0 <= px[3],
        ;
    }
    lemma_over_within(a, (c.0 as int) * (px[3] as int) / (SCALE as int), SCALE - a, px[0] as int, px[3] as int);
    lemma_over_within(a, (c.1 as int) * (px[3] as int) / (SCALE as int), SCALE - a, px[1] as int, px[3] as int);
    lemma_over_within(a, (c.2 as int) * (px[3] as int) / (SCALE as int), SCALE - a, px[2] as int, px[3] as int);
}

/// At full opacity over an opaque pixel, the "lock alpha" mode moves each
/// colour channel toward the brush colour by the pixel's mask value: a pixel
/// at the dab's soft edge with mask value `m` gets
/// `(m * colour + (SCALE - m) * old) / SCALE`.
pub proof fn lemma_lock_alpha_follows_mask(
    color_r: u16,
    color_g: u16,
    color_b: u16,
    m: u16,
    px: Seq<u16>,
)
    requires
        m <= SCALE,
        px.len() == 4,
        px[3] == SCALE,
    ensures
        ({
            let np = lock_alpha_pixel(SCALE as u16, color_r, color_g, color_b)(m, px);
            &&& np[0] == (((m as int) * (color_r as int) + (SCALE - m) * (px[0] as int)) / (
            SCALE as int)) as u16
            &&& np[1] == (((m as int) * (color_g as int) + (SCALE - m) * (px[1] as int)) / (
            SCALE as int)) as u16
            &&& np[2] == (((m as int) * (color_b as int) + (SCALE - m) * (px[2] as int)) / (
            SCALE as int)) as u16
            &&& np[3] == px[3]
        }),
{
    assert((m as int) * (SCALE as int) / (SCALE as int) == m);
    assert((m as int) * (px[3] as int) / (SCALE as int) == m);
}

/// The "lock alpha" mode leaves a transparent pixel as it is: its weight is
/// scaled by the pixel's alpha, which is zero.
pub proof fn lemma_lock_alpha_transparent_unchanged(
    opacity: u16,
    color_r: u16,
    color_g: u16,
    color_b: u16,
    m: u16,
    px: Seq<u16>,
)
    requires
        px.len() == 4,
        px[3] == 0,
    ensures
        lock_alpha_pixel(opacity, color_r, color_g, color_b)(m, px) == px,
{
    let np = lock_alpha_pixel(opacity, color_r, color_g, color_b)(m, px);
    let w = (m as int) * (opacity as int) / (SCALE as int);
    assert(w * 0 == 0);
    lemma_zero_weight_keeps(color_r as int, px[0] as int);
    lemma_zero_weight_keeps(color_g as int, px[1] as int);
    lemma_zero_weight_keeps(color_b as int, px[2] as int);
    assert(np =~= px);
}

/// At opacity zero the "posterize" mode leaves every pixel as it is, whatever
/// levels the quantizer returns.
pub proof fn lemma_posterize_zero_opacity<F: Fn(u16, u16) -> u32>(
    posterize_num: u16,
    level: F,
    m: u16,
    px: Seq<u16>,
    np: Seq<u16>,
)
    requires
        px.len() == 4,
        np.len() == 4,
        posterize_pixel(0, posterize_num, level)(m, px, np),
    ensures
        np == px,
{
    assert((m as int) * 0 / (SCALE as int) == 0);
    assert forall|q: u32, c: u16| #[trigger] over(0, capped_level(q), SCALE as int, c as int) == c by {
        lemma_zero_weight_keeps(capped_level(q), c as int);
    }
    let q0 = choose|q: u32| #[trigger] level.ensures((px[0], posterize_num), q) && np[0] == over(0, capped_level(q), SCALE as int, px[0] as int);
    let q1 = choose|q: u32| #[trigger] level.ensures((px[1], posterize_num), q) && np[1] == over(0, capped_level(q), SCALE as int, px[1] as int);
    let q2 = choose|q: u32| #[trigger] level.ensures((px[2], posterize_num), q) && np[2] == over(0, capped_level(q), SCALE as int, px[2] as int);
    assert(np[0] == over(0, capped_level(q0), SCALE as int, px[0] as int));
    assert(np[1] == over(0, capped_level(q1), SCALE as int, px[1] as int));
    assert(np[2] == over(0, capped_level(q2), SCALE as int, px[2] as int));
    assert(np =~= px);
}

/// At half opacity under a full mask the "posterize" mode moves each colour
/// channel half-way toward a level that the quantizer returns for it.
pub proof fn lemma_posterize_half_opacity<F: Fn(u16, u16) -> u32>(
    posterize_num: u16,
    level: F,
    px: Seq<u16>,
    np: Seq<u16>,
)
    requires
        px.len() == 4,
        np.len() == 4,
        posterize_pixel((SCALE / 2) as u16, posterize_num, level)(SCALE as u16, px, np),
    ensures
        np[3] == px[3],
        exists|q: u32|
            #[trigger] level.ensures((px[0], posterize_num), q) && np[0] == ((capped_level(q)
                + px[0]) / 2) as u16,
        exists|q: u32|
            #[trigger] level.ensures((px[1], posterize_num), q) && np[1] == ((capped_level(q)
                + px[1]) / 2) as u16,
        exists|q: u32|
            #[trigger] level.ensures((px[2], posterize_num), q) && np[2] == ((capped_level(q)
                + px[2]) / 2) as u16,
{
    let h = (SCALE / 2) as int;
    assert((SCALE as int) * h / (SCALE as int) == h);
    assert forall|q: u32, c: u16| #[trigger] over(h, capped_level(q), h, c as int) == ((capped_level(q) + c) / 2) as u16 by {
        assert(h * capped_level(q) + h * c == h * (capped_level(q) + c)) by (nonlinear_arith);
        assert((h * (capped_level(q) + c)) / (SCALE as int) == (capped_level(q) + c) / 2) by (nonlinear_arith)
            requires
                h == 16384,
                0 <= capped_level(q) + c,
        ;
    }
}

/// Over a pixel with alpha, the "normal paint" mode hands the mixer the dab's
/// weight `m * opacity / SCALE` first and the background's weight (one minus
/// it) second, together with the pixel's channels and the new alpha, which is
/// composited with those same weights; the colour is what the mixer returns.
pub proof fn lemma_normal_paint_mixer_weights<F: Fn(u32, u32, u16, u16, u16, u16, u16) -> (u16, u16, u16)>(
    opacity: u16,
    color_r: u16,
    color_g: u16,
    color_b: u16,
    mix: F,
    m: u16,
    px: Seq<u16>,
    np: Seq<u16>,
)
    requires
        opacity >= PAINT_MIN_OPACITY,
        px.len() == 4,
        px[3] != 0,
        normal_paint_pixel(opacity, color_r, color_g, color_b, mix)(m, px, np),
    ensures
        ({
            let w = (m as int) * (opacity as int) / (SCALE as int);
            &&& np[3] == (w + (SCALE - w) * (px[3] as int) / (SCALE as int)) as u16
            &&& mix.ensures(
                (w as u32, (SCALE - w) as u32, px[0], px[1], px[2], px[3], np[3]),
                (np[0], np[1], np[2]),
            )
        }),
{
}

/// Over a pixel with alpha, the "lock alpha paint" mode hands the mixer the
/// dab's weight scaled by the pixel's alpha first and the background's weight
/// (one minus the unscaled dab weight) second, at an opacity raised to at
/// least [`PAINT_MIN_OPACITY`], with the pixel's channels and its kept alpha.
pub proof fn lemma_lock_alpha_paint_mixer_weights<F: Fn(u32, u32, u16, u16, u16, u16, u16) -> (u16, u16, u16)>(
    opacity: u16,
    color_r: u16,
    color_g: u16,
    color_b: u16,
    mix: F,
    m: u16,
    px: Seq<u16>,
    np: Seq<u16>,
)
    requires
        px.len() == 4,
        px[3] != 0,
        lock_alpha_paint_pixel(opacity, color_r, color_g, color_b, mix)(m, px, np),
    ensures
        ({
            let op: int = if opacity < 150 {
                150
            } else {
                opacity as int
            };
            let w = (m as int) * op / (SCALE as int);
            &&& np[3] == px[3]
            &&& mix.ensures(
                ((w * (px[3] as int) / (SCALE as int)) as u32, (SCALE - w) as u32, px[0], px[1], px[2], px[3], px[3]),
                (np[0], np[1], np[2]),
            )
        }),
{
}

/// Over a pixel with alpha, the "normal and eraser paint" mode hands the
/// mixer the dab's weight `m * opacity / SCALE`, the background's weight (one
/// minus it), the dab's weight scaled by `color_a`, the new alpha, the
/// additive composite of each channel with the scaled weight, and the pixel's
/// channels; the new alpha is the erasing composite.
pub proof fn lemma_eraser_paint_mixer_weights<F: Fn(u32, u32, u32, u32, (u32, u32, u32), u16, u16, u16, u16) -> (u32, u32, u32)>(
    color_r: u16,
    color_g: u16,
    color_b: u16,
    color_a: u16,
    opacity: u16,
    mix: F,
    m: u16,
    px: Seq<u16>,
    np: Seq<u16>,
)
    requires
        px.len() == 4,
        px[3] != 0,
        eraser_paint_pixel(color_r, color_g, color_b, color_a, opacity, mix)(m, px, np),
    ensures
        ({
            let w = (m as int) * (opacity as int) / (SCALE as int);
            let w2 = w * (color_a as int) / (SCALE as int);
            let out = w2 + (SCALE - w) * (px[3] as int) / (SCALE as int);
            let add = (
                ((w2 * (color_r as int) + (SCALE - w) * (px[0] as int)) / (SCALE as int)) as u32,
                ((w2 * (color_g as int) + (SCALE - w) * (px[1] as int)) / (SCALE as int)) as u32,
                ((w2 * (color_b as int) + (SCALE - w) * (px[2] as int)) / (SCALE as int)) as u32,
            );
            &&& np[3] == out as u16
            &&& exists|c: (u32, u32, u32)|
                #[trigger] mix.ensures(
                    (w as u32, (SCALE - w) as u32, w2 as u32, out as u32, add, px[0], px[1], px[2], px[3]),
                    c,
                ) && np[0] == c.0 as u16 && np[1] == c.1 as u16 && np[2] == c.2 as u16
        }),
{
}

/// Under a full mask at full opacity the "posterize" mode writes each colour
/// channel's level itself, capped at one: no channel ends above one, however
/// large a level the quantizer returns.
pub proof fn lemma_posterize_full_opacity_capped<F: Fn(u16, u16) -> u32>(
    posterize_num: u16,
    level: F,
    px: Seq<u16>,
    np: Seq<u16>,
)
    requires
        px.len() == 4,
        np.len() == 4,
        posterize_pixel(SCALE as u16, posterize_num, level)(SCALE as u16, px, np),
    ensures
        np[3] == px[3],
        np[0] <= SCALE,
        np[1] <= SCALE,
        np[2] <= SCALE,
{
    let s = SCALE as int;
    assert(s * s / s == s);
    assert forall|q: u32, c: u16| #[trigger] over(s, capped_level(q), 0, c as int) == capped_level(q) by {
        assert(s * capped_level(q) + 0 * (c as int) == s * capped_level(q)) by (nonlinear_arith);
        assert(s * capped_level(q) / s == capped_level(q)) by (nonlinear_arith)
            requires
                s == 32768,
        ;
    }
}

} // verus!
