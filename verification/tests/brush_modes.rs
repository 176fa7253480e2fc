use mypaint_rs::brush_modes::{
    clip_color, color_dab_fits, clip_fits, color_pixel_sums, color_sums_fit_buffer, dab_opacity_fits,
    draw_dab_pixels_lock_alpha, eraser_dab_fits, lock_alpha_dab_fits,
    draw_dab_pixels_color, draw_dab_pixels_lock_alpha_paint, draw_dab_pixels_normal, draw_dab_pixels_normal_and_eraser,
    draw_dab_pixels_normal_and_eraser_paint, draw_dab_pixels_normal_paint,
    draw_dab_pixels_posterize, premultiply, set_rgb16_lum_from_rgb16, shift_lum, unpremultiply, PAINT_MIN_OPACITY, SCALE,
};
use mypaint_rs::dab_mask::{decode_mask, mask_fits_buffer};

/// A mask with one run of the given values followed by the two terminating zeros.
fn simple_mask(values: &[u16]) -> Vec<u16> {
    let mut m: Vec<u16> = values.to_vec();
    m.push(0);
    m.push(0);
    m
}

#[test]
fn test_normal_full_opacity_overwrites() {
    let mask = simple_mask(&[SCALE as u16]);
    let mut rgba = vec![100u16, 200, 50, SCALE as u16];
    draw_dab_pixels_normal(&mask, &mut rgba, 1000, 2000, 3000, SCALE as u16);
    assert_eq!(rgba[0], 1000);
    assert_eq!(rgba[1], 2000);
    assert_eq!(rgba[2], 3000);
    assert_eq!(rgba[3], SCALE as u16);
}

#[test]
fn test_normal_zero_opacity_no_change() {
    let mask = simple_mask(&[SCALE as u16]);
    let mut rgba = vec![100u16, 200, 50, 10000u16];
    let orig = rgba.clone();
    draw_dab_pixels_normal(&mask, &mut rgba, 1000, 2000, 3000, 0);
    assert_eq!(rgba, orig);
}

#[test]
fn test_lock_alpha_does_not_change_alpha() {
    let mask = simple_mask(&[SCALE as u16]);
    let alpha_before = 20000u16;
    let mut rgba = vec![100u16, 100, 100, alpha_before];
    draw_dab_pixels_lock_alpha(&mask, &mut rgba, 5000, 5000, 5000, SCALE as u16);
    assert_eq!(
        rgba[3], alpha_before,
        "alpha must not change in LockAlpha mode"
    );
}

#[test]
fn test_eraser_zero_color_a_clears_alpha() {
    let mask = simple_mask(&[SCALE as u16]);
    let mut rgba = vec![1000u16, 2000, 3000, SCALE as u16];
    draw_dab_pixels_normal_and_eraser(&mask, &mut rgba, 0, 0, 0, 0, SCALE as u16);
    assert_eq!(rgba[3], 0, "full erase should zero alpha");
}

#[test]
fn normal_half_opacity_blends_exactly() {
    // opa_a = 32768 * 16384 / 32768 = 16384, opa_b = 16384
    let mask = simple_mask(&[SCALE as u16]);
    let mut rgba = vec![1000u16, 2000, 3000, 0];
    draw_dab_pixels_normal(&mask, &mut rgba, 5000, 6000, 7001, (SCALE / 2) as u16);
    assert_eq!(rgba, vec![3000, 4000, 5000, 16384]);
}

#[test]
fn normal_skips_and_leaves_uncovered_pixels() {
    // run of one pixel, skip two pixels, run of one pixel, end
    let mask = vec![SCALE as u16, 0, 2, SCALE as u16, 0, 0];
    let mut rgba = vec![7u16; 16];
    draw_dab_pixels_normal(&mask, &mut rgba, 1, 2, 3, SCALE as u16);
    assert_eq!(&rgba[0..4], &[1, 2, 3, SCALE as u16]);
    assert_eq!(&rgba[4..12], &[7u16; 8]);
    assert_eq!(&rgba[12..16], &[1, 2, 3, SCALE as u16]);
}

#[test]
fn eraser_full_color_a_paints_like_normal() {
    let mask = simple_mask(&[SCALE as u16, SCALE as u16 / 4]);
    let mut a = vec![1000u16, 2000, 3000, 20000, 4000, 5000, 6000, 30000];
    let mut b = a.clone();
    draw_dab_pixels_normal(&mask, &mut a, 9000, 8000, 7000, SCALE as u16 / 2);
    draw_dab_pixels_normal_and_eraser(&mask, &mut b, 9000, 8000, 7000, SCALE as u16, SCALE as u16 / 2);
    assert_eq!(a, b);
}

#[test]
fn lock_alpha_weight_scales_with_alpha() {
    // opa = 32768 * 32768 / 32768 * 16384 / 32768 = 16384
    let mask = simple_mask(&[SCALE as u16]);
    let mut rgba = vec![1000u16, 1000, 1000, 16384];
    draw_dab_pixels_lock_alpha(&mask, &mut rgba, 3000, 5000, 0, SCALE as u16);
    assert_eq!(rgba, vec![2000, 3000, 500, 16384]);
}

#[test]
fn decode_mask_lists_covered_pixels() {
    let mask = vec![5u16, 6, 0, 3, 9, 0, 0];
    let pixels = decode_mask(&mask, 40);
    assert_eq!(pixels, vec![(5, 0), (6, 4), (9, 20)]);
    assert!(mask_fits_buffer(&mask, 24));
    assert!(!mask_fits_buffer(&mask, 23));
    assert!(!mask_fits_buffer(&[5u16, 0], 100));
    assert!(mask_fits_buffer(&[0u16, 0], 0));
}

#[test]
fn test_get_color_legacy_accumulates() {
    let mask = simple_mask(&[SCALE as u16, SCALE as u16]);
    let rgba = vec![
        10000u16,
        20000,
        5000,
        SCALE as u16,
        5000u16,
        10000,
        2500,
        SCALE as u16,
    ];
    let sums = color_pixel_sums(&mask, &rgba);
    assert!(sums.weight > 0);
    assert!(sums.r > 0);
    assert!(sums.a > 0);
}

#[test]
fn color_pixel_sums_exact() {
    let mask = simple_mask(&[SCALE as u16, SCALE as u16 / 2]);
    let rgba = vec![10000u16, 20000, 5000, 32768, 5000, 10000, 2500, 32768];
    let sums = color_pixel_sums(&mask, &rgba);
    assert_eq!(sums.weight, 49152);
    assert_eq!(sums.r, 10000 + 2500);
    assert_eq!(sums.g, 20000 + 5000);
    assert_eq!(sums.b, 5000 + 1250);
    assert_eq!(sums.a, 32768 + 16384);
}


/// The posterize quantizer: rounds the channel to `posterize_num` levels.
fn posterize_level(c: u16, posterize_num: u16) -> u32 {
    let pn = posterize_num as f32;
    let v = c as f32 / SCALE as f32;
    (SCALE as f32 * (v * pn).round() / pn) as u32
}

#[test]
fn test_posterize_preserves_alpha() {
    let mask = simple_mask(&[SCALE as u16]);
    let alpha_before = 15000u16;
    let mut rgba = vec![10000u16, 20000, 5000, alpha_before];
    draw_dab_pixels_posterize(&mask, &mut rgba, SCALE as u16, 4, posterize_level);
    assert_eq!(rgba[3], alpha_before, "posterize must not touch alpha");
}

#[test]
fn posterize_full_opacity_moves_to_the_level() {
    // 4 levels: 10000 -> round(1.2207) = 1 -> 8192; 20000 -> round(2.44) = 2 -> 16384;
    // 5000 -> round(0.61) = 1 -> 8192
    let mask = simple_mask(&[SCALE as u16]);
    let mut rgba = vec![10000u16, 20000, 5000, 15000];
    draw_dab_pixels_posterize(&mask, &mut rgba, SCALE as u16, 4, posterize_level);
    assert_eq!(rgba, vec![8192, 16384, 8192, 15000]);
}

#[test]
fn posterize_caps_levels_at_one() {
    let mask = simple_mask(&[SCALE as u16]);
    let mut rgba = vec![1u16, 2, 3, 4];
    draw_dab_pixels_posterize(&mask, &mut rgba, SCALE as u16, 4, |_, _| 1_000_000);
    assert_eq!(rgba, vec![SCALE as u16, SCALE as u16, SCALE as u16, 4]);
}

#[test]
fn test_normal_paint_transparent_bg_matches_normal() {
    let mask = simple_mask(&[SCALE as u16]);
    let color = (5000u16, 10000u16, 15000u16);
    let opacity = SCALE as u16 / 2;

    let mut rgba_normal = vec![0u16, 0, 0, 0];
    let mut rgba_paint = vec![0u16, 0, 0, 0];

    draw_dab_pixels_normal(&mask, &mut rgba_normal, color.0, color.1, color.2, opacity);
    draw_dab_pixels_normal_paint(
        &mask,
        &mut rgba_paint,
        color.0,
        color.1,
        color.2,
        opacity,
        |_, _, r, g, b, _, _| (r, g, b),
    );

    for i in 0..4 {
        let diff = (rgba_normal[i] as i32 - rgba_paint[i] as i32).abs();
        assert!(
            diff <= 1,
            "channel {i}: normal={} paint={}",
            rgba_normal[i],
            rgba_paint[i]
        );
    }
}

#[test]
fn normal_paint_low_opacity_is_the_normal_composite() {
    // opacity 1: opa_a = 32768 * 1 / 32768 = 1
    let mask = simple_mask(&[SCALE as u16]);
    let mut rgba = vec![0u16, 0, 0, 0];
    draw_dab_pixels_normal_paint(&mask, &mut rgba, 32768, 0, 0, 1, |_, _, _, _, _, _, _| {
        panic!("no pigment mixing below the minimum opacity")
    });
    assert_eq!(rgba, vec![1, 0, 0, 1]);

    // over an opaque pixel too, the dab is exactly the normal composite
    let mask = simple_mask(&[SCALE as u16, SCALE as u16 / 2]);
    let start = vec![100u16, 200, 300, 16384, 5000, 6000, 7000, 32768];
    let mut paint = start.clone();
    let mut normal = start.clone();
    let opacity = PAINT_MIN_OPACITY - 1;
    draw_dab_pixels_normal_paint(&mask, &mut paint, 1000, 2000, 3000, opacity, |_, _, _, _, _, _, _| {
        panic!("no pigment mixing below the minimum opacity")
    });
    draw_dab_pixels_normal(&mask, &mut normal, 1000, 2000, 3000, opacity);
    assert_eq!(paint, normal);
}

#[test]
fn lock_alpha_paint_raises_low_opacity() {
    let mask = simple_mask(&[SCALE as u16]);
    let mix = |a: u32, b: u32, r: u16, _: u16, _: u16, _: u16, _: u16| (a as u16, b as u16, r);
    let mut low = vec![100u16, 200, 300, 16384];
    let mut min = low.clone();
    draw_dab_pixels_lock_alpha_paint(&mask, &mut low, 1, 2, 3, 1, mix);
    draw_dab_pixels_lock_alpha_paint(&mask, &mut min, 1, 2, 3, PAINT_MIN_OPACITY, mix);
    // opa_a = 150 * 16384 / 32768 = 75, opa_b = 32768 - 150
    assert_eq!(low, vec![75, 32618, 100, 16384]);
    assert_eq!(low, min);
}

#[test]
fn normal_paint_hands_opaque_pixels_to_the_mixer() {
    let mask = simple_mask(&[SCALE as u16]);
    let mut rgba = vec![100u16, 200, 300, 16384];
    draw_dab_pixels_normal_paint(&mask, &mut rgba, 1, 2, 3, SCALE as u16 / 2, |a, b, r, g, bl, al, na| {
        assert_eq!((a, b, r, g, bl, al), (16384, 16384, 100, 200, 300, 16384));
        assert_eq!(na, 16384 + 8192);
        (11, 12, 13)
    });
    assert_eq!(rgba, vec![11, 12, 13, 24576]);
}

#[test]
fn lock_alpha_paint_keeps_alpha() {
    let mask = simple_mask(&[SCALE as u16, SCALE as u16]);
    let mut rgba = vec![100u16, 200, 300, 0, 400, 500, 600, 20000];
    draw_dab_pixels_lock_alpha_paint(&mask, &mut rgba, 1, 2, 3, SCALE as u16, |_, _, _, _, _, _, _| (7, 8, 9));
    // transparent pixel: weight 0, so the colour keeps only the background share
    assert_eq!(&rgba[0..4], &[0, 0, 0, 0]);
    assert_eq!(&rgba[4..8], &[7, 8, 9, 20000]);
}

#[test]
fn eraser_paint_sets_the_erasing_alpha() {
    let mask = simple_mask(&[SCALE as u16]);
    let mut rgba = vec![1000u16, 2000, 3000, SCALE as u16];
    draw_dab_pixels_normal_and_eraser_paint(
        &mask,
        &mut rgba,
        5000,
        6000,
        7000,
        0,
        SCALE as u16,
        |_, _, a2, out, add, _, _, _, _| {
            assert_eq!(a2, 0);
            assert_eq!(out, 0);
            assert_eq!(add, (0, 0, 0));
            (0, 0, 0)
        },
    );
    assert_eq!(rgba, vec![0, 0, 0, 0]);
}

#[test]
fn eraser_paint_composites_transparent_pixels_additively() {
    let mask = simple_mask(&[SCALE as u16, SCALE as u16]);
    let mut rgba = vec![0u16, 0, 0, 0, 1000, 2000, 3000, 16384];
    draw_dab_pixels_normal_and_eraser_paint(
        &mask,
        &mut rgba,
        8000,
        16000,
        24000,
        SCALE as u16 / 2,
        SCALE as u16 / 2,
        |a, b, a2, out, add, r, g, bl, al| {
            // only the pixel with alpha reaches the mixer
            assert_eq!((a, b, a2, out), (16384, 16384, 8192, 8192 + 8192));
            assert_eq!(add, ((8192 * 8000 + 16384 * 1000) / 32768, (8192 * 16000 + 16384 * 2000) / 32768, (8192 * 24000 + 16384 * 3000) / 32768));
            assert_eq!((r, g, bl, al), (1000, 2000, 3000, 16384));
            (1, 2, 3)
        },
    );
    // a = 16384, b = 16384, a2 = 8192: additive composite over the empty pixel
    assert_eq!(&rgba[0..4], &[2000, 4000, 6000, 8192]);
    assert_eq!(&rgba[4..8], &[1, 2, 3, 16384]);
}

#[test]
fn color_sums_fit_detects_overflow() {
    let mask = simple_mask(&[u16::MAX; 3]);
    let rgba = vec![u16::MAX; 12];
    assert!(color_sums_fit_buffer(&mask, &rgba));
    let many = vec![u16::MAX; 70_000];
    let mut big_mask = many.clone();
    big_mask.push(0);
    big_mask.push(0);
    let buffer = vec![0u16; 4 * 70_000];
    // 70000 * 65535 exceeds u32::MAX
    assert!(!color_sums_fit_buffer(&big_mask, &buffer));
}

#[test]
fn unpremultiply_and_premultiply() {
    assert_eq!(unpremultiply(8192, 16384), 16384);
    assert_eq!(unpremultiply(100, 0), 0);
    // not premultiplied: the quotient is truncated to 16 bits
    assert_eq!(unpremultiply(40000, 10000), ((32768u32 * 40000 / 10000) as u16));
    assert_eq!(premultiply(16384, 16384), 8192);
    assert_eq!(premultiply(u16::MAX, u16::MAX), 65535 * 65535 / 32768);
}

#[test]
fn shift_lum_moves_every_channel_by_the_difference() {
    assert_eq!(shift_lum(100, 200, 300, 1000, 400), (700, 800, 900));
    assert_eq!(shift_lum(100, 200, 300, 0, 400), (-300, -200, -100));
}

#[test]
fn clip_color_keeps_in_range_colours() {
    assert_eq!(clip_color(100, 200, 300, 180), (100, 200, 300));
}

#[test]
fn clip_color_lifts_negative_channels() {
    // cmin = -100, lum = 100, d = 200: r = 100 + (-200 * 100) / 200 = 0,
    // g = 100 + (0 * 100) / 200 = 100, b = 100 + (200 * 100) / 200 = 200
    assert_eq!(clip_color(-100, 100, 300, 100), (0, 100, 200));
}

#[test]
fn clip_color_lowers_channels_above_one() {
    // cmax = 40000, lum = 30000, d = 10000, room = 2768:
    // r = 30000 + (10000 * 2768) / 10000 = 32768; g = 30000; b = 30000 + (-10000 * 2768) / 10000 = 27232
    assert_eq!(clip_color(40000, 30000, 20000, 30000), (32768, 30000, 27232));
}

#[test]
fn clip_color_rounds_toward_zero() {
    // cmin = -1, lum = 2, d = 3: r = 2 + (-3 * 2) / 3 = 0; g = 2 + (-1 * 2) / 3 = 2 + 0 = 2;
    // b = 2 + (1 * 2) / 3 = 2
    assert_eq!(clip_color(-1, 1, 3, 2), (0, 2, 2));
}

/// A luminosity measure for tests: the plain average of the channels.
fn mean_luma(r: u16, g: u16, b: u16) -> u32 {
    (r as u32 + g as u32 + b as u32) / 3
}

#[test]
fn color_mode_moves_the_brush_colour_to_the_pixel_luminosity() {
    let mask = simple_mask(&[SCALE as u16]);
    let mut rgba = vec![1000u16, 2000, 3000, SCALE as u16];
    draw_dab_pixels_color(&mask, &mut rgba, SCALE as u16, 0, 0, SCALE as u16, mean_luma);
    // luminosity 2000 is kept: red shifted to it and lifted back into range
    assert_eq!(rgba, vec![6000, 0, 0, SCALE as u16]);
}

#[test]
fn color_mode_keeps_alpha_and_uncovered_pixels() {
    let mask = vec![0u16, 1, SCALE as u16 / 2, 0, 0];
    let mut rgba = vec![10u16, 20, 30, 40, 1000, 2000, 3000, 16384];
    draw_dab_pixels_color(&mask, &mut rgba, 100, 200, 300, SCALE as u16, mean_luma);
    assert_eq!(&rgba[0..4], &[10, 20, 30, 40]);
    assert_eq!(rgba[7], 16384);
}

#[test]
fn set_lum_lowers_channels_above_one() {
    let luma = |r: u16, g: u16, b: u16| (3 * r as u32 + 6 * g as u32 + b as u32) / 10;
    let (mut r, mut g, mut b) = (16384u16, 16384u16, 16384u16);
    set_rgb16_lum_from_rgb16(SCALE as u16, 0, 0, &mut r, &mut g, &mut b, &luma);
    assert_eq!((r, g, b), (32768, 9363, 9363));
}

#[test]
fn set_lum_lifts_negative_channels() {
    let luma = |r: u16, g: u16, b: u16| (3 * r as u32 + 6 * g as u32 + b as u32) / 10;
    let (mut r, mut g, mut b) = (1000u16, 1000u16, 1000u16);
    set_rgb16_lum_from_rgb16(0, 0, SCALE as u16, &mut r, &mut g, &mut b, &luma);
    assert_eq!((r, g, b), (0, 0, 10002));
}

/// Luminosity with the BT.709 weights, in `f32`.
fn bt709_luma(r: u16, g: u16, b: u16) -> u32 {
    let s = SCALE as f32;
    (r as f32 * (0.2126 * s) + g as f32 * (0.7152 * s) + b as f32 * (0.0722 * s)) as u32 / SCALE
}

#[test]
fn color_mode_keeps_the_canvas_luminance() {
    let mask = simple_mask(&[SCALE as u16]);
    let mut rgba = vec![16384u16, 16384, 16384, SCALE as u16];
    draw_dab_pixels_color(&mask, &mut rgba, SCALE as u16, 0, 0, SCALE as u16, bt709_luma);
    assert_eq!(rgba[3], SCALE as u16);
    assert!(rgba[0] > rgba[1] && rgba[1] == rgba[2]);
    let l = 0.2126 * rgba[0] as f64 + 0.7152 * rgba[1] as f64 + 0.0722 * rgba[2] as f64;
    assert!((l - 16384.0).abs() <= 3.0, "luminance {l}");
    assert_eq!(rgba, vec![32768, 11961, 11961, SCALE as u16]);
}

#[test]
fn fit_checks_find_the_failing_pixel() {
    let mask = simple_mask(&[SCALE as u16, u16::MAX]);
    let rgba = vec![0u16, 0, 0, 0, 100, 100, 100, 30000];
    assert!(dab_opacity_fits(&mask, &rgba, SCALE as u16 / 2));
    // 65535 * 32768 / 32768 exceeds one
    assert!(!dab_opacity_fits(&mask, &rgba, SCALE as u16));
    assert!(eraser_dab_fits(&mask, &rgba, 1, 2, 3, SCALE as u16, SCALE as u16 / 2));
    assert!(!eraser_dab_fits(&mask, &rgba, 1, 2, 3, SCALE as u16, SCALE as u16));
    // 65535 * 16384 / 32768 = 32767, scaled by alpha 30000 stays below one
    assert!(lock_alpha_dab_fits(&mask, &rgba, SCALE as u16 / 2));
    // 65535 * 32768 / 32768 = 65535, scaled by alpha 30000 gives 59999
    assert!(!lock_alpha_dab_fits(&mask, &rgba, SCALE as u16));
}

#[test]
fn color_fit_check_finds_overflowing_pixels() {
    let mask = simple_mask(&[SCALE as u16, SCALE as u16]);
    let premultiplied = vec![0u16, 0, 0, 0, 100, 100, 100, 20000];
    assert!(color_dab_fits(&mask, &premultiplied, 1, 2, 3, SCALE as u16 / 2, &bt709_luma));
    // a dab opacity above one
    assert!(!color_dab_fits(&mask, &premultiplied, 1, 2, 3, u16::MAX, &bt709_luma));
    // channels above their alpha un-premultiply to 49152, a luminosity above one
    let bright = vec![0u16, 0, 0, 0, 15000, 15000, 15000, 10000];
    assert!(!color_dab_fits(&mask, &bright, 0, 0, 0, SCALE as u16, &bt709_luma));
}

#[test]
fn clip_fits_matches_the_clipping_domain() {
    assert!(clip_fits(100, 200, 300, 180));
    assert!(clip_fits(-100, 100, 300, 100));
    assert!(clip_fits(40000, 30000, 20000, 30000));
    // a luminosity outside [0, SCALE]
    assert!(!clip_fits(100, 200, 300, -1));
    assert!(!clip_fits(100, 200, 300, SCALE as i32 + 1));
    // lifting multiplies the distance by the luminosity beyond 32 bits
    assert!(!clip_fits(-1, 2_000_000_000, 0, 30000));
}

#[test]
fn set_lum_stays_in_range_for_in_range_colours() {
    let steps = [0u16, 1, 1000, 9000, 16384, 25000, 32767, 32768];
    for &tr in &steps {
        for &tg in &[0u16, 16384, 32768] {
            for &br in &steps {
                for &bg in &[0u16, 7000, 32768] {
                    let (mut r, mut g, mut b) = (br, bg, 300u16);
                    set_rgb16_lum_from_rgb16(tr, tg, 500, &mut r, &mut g, &mut b, &bt709_luma);
                    assert!(r as u32 <= SCALE && g as u32 <= SCALE && b as u32 <= SCALE);
                }
            }
        }
    }
}

#[test]
fn eraser_paint_over_transparent_pixels_is_the_eraser_mode() {
    let mask = simple_mask(&[SCALE as u16, 20000, 5]);
    let start = vec![0u16; 12];
    let mut paint = start.clone();
    let mut eraser = start.clone();
    draw_dab_pixels_normal_and_eraser_paint(&mask, &mut paint, 30000, 100, 7000, 20000, 25000, |_, _, _, _, _, _, _, _, _| {
        panic!("transparent pixels are composited additively")
    });
    draw_dab_pixels_normal_and_eraser(&mask, &mut eraser, 30000, 100, 7000, 20000, 25000);
    assert_eq!(paint, eraser);
}
