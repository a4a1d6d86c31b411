use er_loading_portrait_core::bridge::{
    portrait_frame_is_masked, portrait_mask_share_ok, PortraitBridge, PublishedPortrait,
    PORTRAIT_MIN_TRANSPARENT_PCT,
};
use er_loading_portrait_core::portrait_overlay::{
    portrait_alpha_scan, portrait_onto, portrait_overlay_active, CropBounds, PortraitCropEnvelope,
    PortraitOnto, PortraitOntoStats, PORTRAIT_CROP_SEED_N,
};

fn red_source(keyed: bool) -> PublishedPortrait {
    let (sw, sh) = (8usize, 8usize);
    let mut px = vec![0u8; sw * sh * 4];
    for i in 0..sw * sh {
        let (x, y) = (i % sw, i / sw);
        let edge = x == 0 || y == 0 || x == sw - 1 || y == sh - 1;
        px[i * 4] = 255;
        px[i * 4 + 3] = if keyed && edge { 0 } else { 255 };
    }
    PublishedPortrait { width: sw as u32, height: sh as u32, pixels: px }
}

fn tall_source() -> PublishedPortrait {
    let (sw, sh) = (8usize, 8usize);
    let mut px = vec![0u8; sw * sh * 4];
    for i in 0..sw * sh {
        px[i * 4] = 255;
        px[i * 4 + 3] = if i % sw == 0 { 0 } else { 255 };
    }
    PublishedPortrait { width: sw as u32, height: sh as u32, pixels: px }
}

fn drawn(onto: PortraitOnto) -> er_loading_portrait_core::portrait_overlay::PortraitDraw {
    match onto {
        PortraitOnto::Drawn(d) => d,
        other => panic!("expected a drawn frame, got {other:?}"),
    }
}

#[test]
fn portrait_onto_refuses_unmasked_frame_and_draws_keyed_one() {
    let (w, h) = (16usize, 12usize);
    let mut bridge = PortraitBridge::new();
    let mut stats = PortraitOntoStats::new();

    bridge.rgba = Some(red_source(false));
    let seeded_before = bridge.crop.seed_frames;
    let mut buf = vec![0u8; w * h * 4];
    assert_eq!(portrait_onto(&mut bridge, &mut stats, &mut buf, w, h), PortraitOnto::RefusedUnmasked);
    assert!(buf.iter().all(|&b| b == 0), "a refused frame must leave the destination untouched");
    assert_eq!(bridge.crop.seed_frames, seeded_before, "a refused frame must not seed the envelope");
    assert_eq!(stats.draw_hits, 0, "a refused frame is not a draw hit");
    assert_eq!(stats.draw_refused_unmasked, 1, "the refusal must be counted");

    bridge.rgba = Some(red_source(true));
    assert!(matches!(portrait_onto(&mut bridge, &mut stats, &mut buf, w, h), PortraitOnto::Drawn(_)));
    let red = (0..w * h)
        .filter(|i| buf[i * 4] > 200 && buf[i * 4 + 1] < 30 && buf[i * 4 + 2] < 30 && buf[i * 4 + 3] == 255)
        .count();
    assert!(red > 0, "expected the keyed head to blend, got {red} red px");
    assert_eq!(stats.draw_refused_unmasked, 1, "a keyed frame must not be counted as a refusal");
    assert_eq!(stats.draw_hits, 1);
}

#[test]
fn crop_seed_counter_saturates_and_growth_counts_only_real_moves() {
    let (w, h) = (16usize, 12usize);
    let mut bridge = PortraitBridge::new();
    let mut stats = PortraitOntoStats::new();
    bridge.rgba = Some(red_source(true));
    let mut buf = vec![0u8; w * h * 4];
    let frames = PORTRAIT_CROP_SEED_N + 5;
    let mut growths = Vec::new();
    let mut frozen = 0;
    for _ in 0..frames {
        let d = drawn(portrait_onto(&mut bridge, &mut stats, &mut buf, w, h));
        if d.grew_from.is_some() {
            growths.push(d);
        }
        if d.seeded + 1 == PORTRAIT_CROP_SEED_N {
            frozen += 1;
            assert_eq!((d.rect.cminx, d.rect.cminy, d.rect.cmaxx, d.rect.cmaxy), (3, 3, 6, 6));
            assert_eq!(d.growth_events, 1);
        }
    }
    assert_eq!(bridge.crop.seed_frames, PORTRAIT_CROP_SEED_N, "the seed counter saturates at the window");
    assert_eq!(bridge.crop.growth_events, 1, "an unchanging source moves the envelope exactly once");
    assert_eq!(growths.len(), 1, "a steady envelope reports only its seed");
    assert_eq!(frozen, 1, "the freeze happens exactly once");
    let seed = growths[0];
    assert_eq!(seed.seeded, 0);
    assert_eq!((seed.rect.cminx, seed.rect.cminy, seed.rect.cmaxx, seed.rect.cmaxy), (3, 3, 6, 6));
    assert_eq!((seed.rect.crop_w, seed.rect.crop_h), (4, 4));
    assert_eq!(
        seed.grew_from,
        Some(CropBounds { minx: usize::MAX, miny: usize::MAX, maxx: 0, maxy: 0 })
    );

    bridge.crop = PortraitCropEnvelope::new();
    let first = drawn(portrait_onto(&mut bridge, &mut stats, &mut buf, w, h));
    assert!(first.grew_from.is_some());
    bridge.rgba = Some(tall_source());
    let grow = drawn(portrait_onto(&mut bridge, &mut stats, &mut buf, w, h));
    assert_eq!(grow.seeded, 1);
    assert_eq!(grow.growth_events, 2);
    assert_eq!((grow.rect.cminx, grow.rect.cminy, grow.rect.cmaxx, grow.rect.cmaxy), (3, 0, 6, 6));
    assert_eq!((grow.rect.crop_w, grow.rect.crop_h), (4, 7));
    let prev = grow.grew_from.expect("the taller head moved a bound");
    assert_eq!(prev, CropBounds { minx: 3, miny: 3, maxx: 6, maxy: 6 });
    assert!(grow.frame_box.miny < prev.miny, "the top of the head rose");
    assert_eq!(grow.frame_box.minx, prev.minx);
    assert_eq!(grow.frame_box.maxx, prev.maxx);
    assert_eq!(grow.frame_box.maxy, prev.maxy);
}

#[test]
fn mask_predicate_is_binary_and_fails_closed() {
    assert!(!portrait_frame_is_masked(&red_source(false).pixels));
    assert!(portrait_frame_is_masked(&red_source(true).pixels));
    assert!(!portrait_frame_is_masked(&[]));
    assert!(!portrait_mask_share_ok(0, 0));
    assert!(portrait_mask_share_ok(PORTRAIT_MIN_TRANSPARENT_PCT, 100));
    assert!(!portrait_mask_share_ok(PORTRAIT_MIN_TRANSPARENT_PCT - 1, 100));
}

#[test]
fn a_partial_trailing_texel_is_not_counted() {
    let mut px = red_source(true).pixels;
    px.extend_from_slice(&[0, 0, 0]);
    assert!(portrait_frame_is_masked(&px));
    assert!(!portrait_frame_is_masked(&[0, 0, 0]));
}

#[test]
fn the_alpha_scan_finds_the_box_on_the_stride_and_counts_samples() {
    let src = red_source(true);
    let scan = portrait_alpha_scan(&src.pixels, 8, 8);
    assert!(scan.any);
    assert_eq!((scan.minx, scan.miny, scan.maxx, scan.maxy), (3, 3, 6, 6));
    assert_eq!(scan.counted, 9);
    assert_eq!(scan.transparent, 5);
    let blank = vec![0u8; 8 * 8 * 4];
    let none = portrait_alpha_scan(&blank, 8, 8);
    assert!(!none.any);
    assert_eq!((none.minx, none.miny, none.maxx, none.maxy), (8, 8, 0, 0));
}

#[test]
fn nothing_published_or_no_canvas_draws_nothing() {
    let mut bridge = PortraitBridge::new();
    let mut stats = PortraitOntoStats::new();
    let mut buf = vec![7u8; 16 * 12 * 4];
    assert_eq!(portrait_onto(&mut bridge, &mut stats, &mut buf, 16, 12), PortraitOnto::Absent);
    bridge.rgba = Some(red_source(true));
    assert_eq!(portrait_onto(&mut bridge, &mut stats, &mut buf, 0, 12), PortraitOnto::Absent);
    bridge.rgba = Some(PublishedPortrait { width: 8, height: 8, pixels: vec![255; 10] });
    assert_eq!(portrait_onto(&mut bridge, &mut stats, &mut buf, 16, 12), PortraitOnto::Absent);
    assert!(buf.iter().all(|&b| b == 7));
    assert_eq!(stats.draw_refused_unmasked, 0);
}

#[test]
fn a_half_transparent_head_blends_over_the_canvas() {
    let mut src = red_source(true);
    for i in 0..64 {
        if src.pixels[i * 4 + 3] == 255 {
            src.pixels[i * 4 + 3] = 128;
        }
    }
    let mut bridge = PortraitBridge::new();
    bridge.rgba = Some(src);
    let mut stats = PortraitOntoStats::new();
    let (w, h) = (16usize, 12usize);
    let mut buf = vec![0u8; w * h * 4];
    for i in 0..w * h {
        buf[i * 4 + 2] = 255;
    }
    let d = drawn(portrait_onto(&mut bridge, &mut stats, &mut buf, w, h));
    // The rect sits at the screen's upper-left corner.
    let _ = d;
    let i = 0;
    assert_eq!(buf[i], (255 * 128 / 255) as u8);
    assert_eq!(buf[i + 2], (255 * 127 / 255) as u8);
    assert_eq!(buf[i + 3], 255);
    assert_eq!(stats.alpha_cover_pct, 4 * 4 * 100 / 64);
}

#[test]
fn the_overlay_lays_out_for_a_published_head_unless_the_picker_owns_the_screen() {
    let mut bridge = PortraitBridge::new();
    assert!(!portrait_overlay_active(false, &bridge));
    bridge.rgba = Some(red_source(false));
    assert!(portrait_overlay_active(false, &bridge), "geometry does not judge the mask");
    assert!(!portrait_overlay_active(true, &bridge));
    bridge.rgba = Some(PublishedPortrait { width: 0, height: 8, pixels: vec![1] });
    assert!(!portrait_overlay_active(false, &bridge));
}

#[test]
fn the_head_is_drawn_into_the_upper_left_rect() {
    let mut bridge = PortraitBridge::new();
    bridge.rgba = Some(red_source(true));
    let mut stats = PortraitOntoStats::new();
    let (w, h) = (16usize, 12usize);
    let mut buf = vec![0u8; w * h * 4];
    let d = drawn(portrait_onto(&mut bridge, &mut stats, &mut buf, w, h));
    assert_eq!(d.rect.dst_h, 9, "80% of 12 rows");
    for y in 0..h {
        for x in 0..w {
            let i = (y * w + x) * 4;
            if y >= d.rect.dst_h || x >= d.rect.dst_w {
                assert_eq!(&buf[i..i + 4], &[0, 0, 0, 0], "texel ({x}, {y}) lies outside the rect");
            }
        }
    }
    assert_eq!(&buf[0..4], &[255, 0, 0, 255], "the rect starts at the screen's origin");
}

#[test]
fn a_refused_or_absent_frame_needs_no_canvas_buffer() {
    let mut bridge = PortraitBridge::new();
    let mut stats = PortraitOntoStats::new();
    let mut buf: Vec<u8> = Vec::new();
    assert_eq!(portrait_onto(&mut bridge, &mut stats, &mut buf, 16, 12), PortraitOnto::Absent);
    bridge.rgba = Some(red_source(false));
    assert_eq!(portrait_onto(&mut bridge, &mut stats, &mut buf, 16, 12), PortraitOnto::RefusedUnmasked);
    assert!(buf.is_empty());
}
