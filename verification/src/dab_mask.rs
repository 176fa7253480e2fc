//! Run-length encoded dab masks.
//!
//! A mask is laid out as runs of non-zero pixel opacities, each run ended by a
//! `0`, followed by the number of pixels to skip before the next run. A skip
//! count of `0` ends the mask. The RGBA buffer that a mask is applied to holds
//! four `u16` channels per pixel, so walking one pixel moves the buffer cursor
//! by four.
use vstd::prelude::*;

verus! {

/// The pixels that the mask covers when walked from mask position `mi` with
/// the buffer cursor at `ri`: each as (mask value, offset of the pixel's
/// first channel).
pub open spec fn mask_walk(mask: Seq<u16>, mi: int, ri: int) -> Seq<(u16, int)>
    decreases mask.len() - mi,
{
    if mi < 0 || mi >= mask.len() {
        Seq::empty()
    } else if mask[mi] != 0 {
        seq![(mask[mi], ri)] + mask_walk(mask, mi + 1, ri + 4)
    } else if mi + 1 < mask.len() && mask[mi + 1] != 0 {
        mask_walk(mask, mi + 2, ri + 4 * mask[mi + 1])
    } else {
        Seq::empty()
    }
}

/// The pixels that a whole mask covers, in the order in which they are visited.
pub open spec fn dab_pixels(mask: Seq<u16>) -> Seq<(u16, int)> {
    mask_walk(mask, 0, 0)
}

/// The walk from (`mi`, `ri`) stays inside the mask, finds its terminator,
/// never moves the cursor past `usize::MAX`, and every pixel it visits lies
/// inside a buffer of `len` channels.
pub open spec fn mask_fits_from(mask: Seq<u16>, mi: int, ri: int, len: int) -> bool
    decreases mask.len() - mi,
{
    if 0 <= mi < mask.len() && 0 <= ri {
        if mask[mi] != 0 {
            ri + 4 <= len && mask_fits_from(mask, mi + 1, ri + 4, len)
        } else if mi + 1 < mask.len() {
            mask[mi + 1] == 0 || (ri + 4 * mask[mi + 1] <= usize::MAX && mask_fits_from(
                mask,
                mi + 2,
                ri + 4 * mask[mi + 1],
                len,
            ))
        } else {
            false
        }
    } else {
        false
    }
}

/// The mask is well formed for an RGBA buffer of `len` channels.
pub open spec fn mask_fits(mask: Seq<u16>, len: int) -> bool {
    mask_fits_from(mask, 0, 0, len)
}

/// A decoded pixel list, with offsets taken as integers.
pub open spec fn pixel_view(pixels: Seq<(u16, usize)>) -> Seq<(u16, int)> {
    pixels.map_values(|p: (u16, usize)| (p.0, p.1 as int))
}

/// The pixels lie in the buffer in increasing order without overlapping,
/// and each carries a non-zero mask value.
pub open spec fn pixels_laid_out(pixels: Seq<(u16, int)>, len: int) -> bool {
    &&& forall|k: int| 0 <= k < pixels.len() ==> 0 <= #[trigger] pixels[k].1 && pixels[k].1 + 4 <= len
    &&& forall|k: int| 0 <= k < pixels.len() ==> #[trigger] pixels[k].0 != 0
    &&& forall|j: int, k: int|
        0 <= j < k < pixels.len() ==> #[trigger] pixels[j].1 + 4 <= #[trigger] pixels[k].1
}

/// Every pixel starts at a multiple of four, so channel `k` of the buffer is
/// channel `k % 4` of its pixel.
pub open spec fn pixels_aligned(pixels: Seq<(u16, int)>) -> bool {
    forall|k: int| 0 <= k < pixels.len() ==> #[trigger] pixels[k].1 % 4 == 0
}

/// Walking a well-formed mask visits pixels in increasing, non-overlapping
/// order, all of them inside the buffer and at or after the starting cursor.
pub proof fn lemma_walk_layout(mask: Seq<u16>, mi: int, ri: int, len: int)
    requires
        mask_fits_from(mask, mi, ri, len),
    ensures
        pixels_laid_out(mask_walk(mask, mi, ri), len),
        forall|k: int|
            0 <= k < mask_walk(mask, mi, ri).len() ==> ri <= #[trigger] mask_walk(mask, mi, ri)[k].1,
        ri % 4 == 0 ==> pixels_aligned(mask_walk(mask, mi, ri)),
    decreases mask.len() - mi,
{
    let w = mask_walk(mask, mi, ri);
    if mask[mi] != 0 {
        lemma_walk_layout(mask, mi + 1, ri + 4, len);
        let rest = mask_walk(mask, mi + 1, ri + 4);
        assert(w =~= seq![(mask[mi], ri)] + rest);
        assert forall|k: int| 0 <= k < w.len() implies ri <= #[trigger] w[k].1 && 0 <= w[k].1 && w[k].1
            + 4 <= len && w[k].0 != 0 by {
            if k > 0 {
                assert(w[k] == rest[k - 1]);
            }
        }
        if ri % 4 == 0 {
            assert forall|k: int| 0 <= k < w.len() implies #[trigger] w[k].1 % 4 == 0 by {
                if k > 0 {
                    assert(w[k] == rest[k - 1]);
                }
            }
        }
        assert forall|j: int, k: int| 0 <= j < k < w.len() implies #[trigger] w[j].1 + 4
            <= #[trigger] w[k].1 by {
            assert(w[k] == rest[k - 1]);
            if j > 0 {
                assert(w[j] == rest[j - 1]);
            }
        }
    } else if mask[mi + 1] != 0 {
        lemma_walk_layout(mask, mi + 2, ri + 4 * mask[mi + 1], len);
    } else {
        assert(w.len() == 0);
    }
}

/// Every pixel that a well-formed mask covers lies in the buffer, in
/// increasing and non-overlapping order.
pub proof fn lemma_dab_layout(mask: Seq<u16>, len: int)
    requires
        mask_fits(mask, len),
    ensures
        pixels_laid_out(dab_pixels(mask), len),
        pixels_aligned(dab_pixels(mask)),
{
    lemma_walk_layout(mask, 0, 0, len);
}

/// Decodes a mask into the list of pixels that it covers, each as (mask
/// value, offset of the pixel's first channel in the RGBA buffer).
pub fn decode_mask(mask: &[u16], rgba_len: usize) -> (pixels: Vec<(u16, usize)>)
    requires
        mask_fits(mask@, rgba_len as int),
    ensures
        pixel_view(pixels@) == dab_pixels(mask@),
{
    let mut pixels: Vec<(u16, usize)> = Vec::new();
    let mut mi: usize = 0;
    let mut ri: usize = 0;
    loop
        invariant
            mask_fits_from(mask@, mi as int, ri as int, rgba_len as int),
            dab_pixels(mask@) == pixel_view(pixels@) + mask_walk(mask@, mi as int, ri as int),
        ensures
            dab_pixels(mask@) == pixel_view(pixels@),
        decreases mask@.len() - mi,
    {
        let ghost old_view = pixel_view(pixels@);
        if mask[mi] != 0 {
            let ghost rest = mask_walk(mask@, mi + 1, ri + 4);
            assert(mask_walk(mask@, mi as int, ri as int) == seq![(mask@[mi as int], ri as int)]
                + rest);
            pixels.push((mask[mi], ri));
            assert(pixel_view(pixels@) =~= old_view.push((mask@[mi as int], ri as int)));
            assert(pixel_view(pixels@) + rest =~= old_view + (seq![(mask@[mi as int], ri as int)]
                + rest));
            mi = mi + 1;
            ri = ri + 4;
        } else if mask[mi + 1] == 0 {
            assert(mask_walk(mask@, mi as int, ri as int) =~= Seq::<(u16, int)>::empty());
            assert(dab_pixels(mask@) =~= pixel_view(pixels@));
            break ;
        } else {
            ri = ri + 4 * (mask[mi + 1] as usize);
            mi = mi + 2;
        }
    }
    pixels
}

/// Tells whether a mask is well formed for an RGBA buffer of `rgba_len`
/// channels, so that a dab may be drawn with it.
pub fn mask_fits_buffer(mask: &[u16], rgba_len: usize) -> (fits: bool)
    ensures
        fits == mask_fits(mask@, rgba_len as int),
{
    let mut mi: usize = 0;
    let mut ri: usize = 0;
    loop
        invariant
            mask_fits(mask@, rgba_len as int) == mask_fits_from(
                mask@,
                mi as int,
                ri as int,
                rgba_len as int,
            ),
        decreases mask@.len() - mi,
    {
        if mi >= mask.len() {
            return false;
        }
        if mask[mi] != 0 {
            if ri > rgba_len || rgba_len - ri < 4 {
                return false;
            }
            mi = mi + 1;
            ri = ri + 4;
        } else {
            if mi + 1 >= mask.len() {
                return false;
            }
            if mask[mi + 1] == 0 {
                return true;
            }
            let skip = 4 * (mask[mi + 1] as usize);
            if ri > usize::MAX - skip {
                return false;
            }
            mi = mi + 2;
            ri = ri + skip;
        }
    }
}

} // verus!
