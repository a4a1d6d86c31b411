use er_loading_portrait_core::bridge::{PortraitBridge, PublishedPortrait};
use er_loading_portrait_core::portrait_identity::BridgeHoldVerdict;
use er_loading_portrait_core::portrait_window::{loading_portrait_window_reset, PortraitWindowState};
use er_loading_portrait_core::portrait_shared::{
    invalidate_portrait_depth_mask, loading_portrait_bridge_hold_face_check,
    loading_portrait_bridge_hold_superseded_by_publish, loading_portrait_drop_published_bridge,
    loading_portrait_window_reset_for_switch,
    portrait_center_nonblack, portrait_looks_like_checker, portrait_name_hash_utf16,
    portrait_publish_fail_cause, publish_fail_cause_name, window_count_since, BridgeHoldState,
    DepthMaskCache, WindowPublishCounts, WindowPublishFailures,
};

fn utf16(s: &str) -> Vec<u16> {
    s.encode_utf16().collect()
}

#[test]
fn the_name_hash_is_fnv1a64_over_the_little_endian_units() {
    assert_eq!(portrait_name_hash_utf16(&[]), 0, "an empty name is unknown");
    assert_eq!(portrait_name_hash_utf16(&utf16("a")), 0x089b_e207_b544_f1e4);
    assert_eq!(portrait_name_hash_utf16(&utf16("Bean")), 0x3ed2_2982_3787_7f75);
    assert_eq!(portrait_name_hash_utf16(&utf16("褪")), 0x07e8_3b07_b4ac_b49c);
    assert_ne!(portrait_name_hash_utf16(&utf16("Bean")), portrait_name_hash_utf16(&utf16("Bea")));
}

fn image(w: usize, h: usize, fill: [u8; 4]) -> Vec<u8> {
    let mut px = Vec::with_capacity(w * h * 4);
    for _ in 0..w * h {
        px.extend_from_slice(&fill);
    }
    px
}

#[test]
fn a_black_centre_is_blank_and_one_bright_texel_is_enough() {
    let mut px = image(128, 128, [0, 0, 0, 255]);
    assert!(!portrait_center_nonblack(128, 128, &px));
    let i = (64 * 128 + 64) * 4;
    px[i + 1] = 25;
    assert!(portrait_center_nonblack(128, 128, &px));
    let mut edge = image(128, 128, [0, 0, 0, 255]);
    edge[0] = 255;
    assert!(!portrait_center_nonblack(128, 128, &edge), "only the centre region counts");
    assert!(!portrait_center_nonblack(0, 128, &px));
    assert!(!portrait_center_nonblack(128, 128, &px[..100]), "a short buffer is refused");
}

#[test]
fn a_two_colour_checker_is_a_placeholder_and_a_shaded_head_is_not() {
    let (w, h) = (64usize, 64usize);
    let mut checker = Vec::with_capacity(w * h * 4);
    for y in 0..h {
        for x in 0..w {
            if (x / 8 + y / 8) % 2 == 0 {
                checker.extend_from_slice(&[255, 0, 255, 255]);
            } else {
                checker.extend_from_slice(&[255, 255, 255, 255]);
            }
        }
    }
    assert!(portrait_looks_like_checker(w as u32, h as u32, &checker));
    let mut shaded = Vec::with_capacity(w * h * 4);
    for y in 0..h {
        for x in 0..w {
            shaded.extend_from_slice(&[(x * 3) as u8 + 20, (y * 3) as u8 + 20, 100, 255]);
        }
    }
    assert!(!portrait_looks_like_checker(w as u32, h as u32, &shaded));
    assert!(!portrait_looks_like_checker(0, 0, &[]));
}

fn strip(black: usize, others: usize) -> Vec<u8> {
    let mut px = Vec::new();
    for _ in 0..black {
        px.extend_from_slice(&[0, 0, 0, 255]);
    }
    for k in 0..others {
        px.extend_from_slice(&[(100 + 10 * k) as u8, 100, 100, 255]);
    }
    px
}

#[test]
fn the_checker_thresholds_are_85_and_70_percent() {
    assert!(portrait_looks_like_checker(20, 1, &strip(16, 4)), "top two colours cover exactly 85%");
    assert!(!portrait_looks_like_checker(20, 1, &strip(15, 5)), "80% is not enough");
    let mut gray = image(10, 1, [255, 255, 255, 255]);
    for i in 0..4 {
        gray[i * 4] = 128;
    }
    assert!(!portrait_looks_like_checker(10, 1, &gray), "two colours but only 60% pure");
}

fn published(bridge: &mut PortraitBridge, slot_tag: usize, hash: usize) {
    bridge.rgba = Some(PublishedPortrait { width: 1, height: 1, pixels: vec![1, 2, 3, 4] });
    bridge.have_keyed_frame = true;
    bridge.published_slot = slot_tag;
    bridge.published_name_hash = hash;
    bridge.crop.seed_frames = 40;
    bridge.crop.minx = 3;
}

#[test]
fn a_same_identity_switch_holds_the_head_until_it_is_proven_or_revoked() {
    let mut bridge = PortraitBridge::new();
    let mut hold = BridgeHoldState::new();
    let mut window = PortraitWindowState::new();
    let mut failures = WindowPublishFailures::new();
    published(&mut bridge, 1, 0xaaaa);

    let r = loading_portrait_window_reset_for_switch(&mut window, &mut bridge, &mut hold, &mut failures, &counts(), 0, 0xaaaa);
    assert_eq!(r.incoming_slot_tag, 1);
    assert_eq!(r.held, Some(1));
    assert_eq!(r.unproven, None);
    assert_eq!(hold.provisional, 1, "a hold on slot 0 is tag 1, never 'no hold'");
    assert!(bridge.rgba.is_some());
    assert_eq!(bridge.crop.minx, 3, "the frozen envelope survives a hold");

    assert!(loading_portrait_window_reset(&mut window, &mut bridge, &hold, &mut failures, &counts()).held, "a switch in flight keeps the bridge");
    assert!(bridge.rgba.is_some());

    let mut mask = DepthMaskCache { depth_pin: 9, has_mask: true, incarnation: 4 };
    let revoked = loading_portrait_bridge_hold_face_check(&mut bridge, &mut hold, &mut mask, 0, 0x11, 0x22);
    assert_eq!(revoked, Some(1));
    assert_eq!(hold.provisional, 0);
    assert!(bridge.rgba.is_none(), "a wrong face is worse than none");
    assert_eq!(bridge.published_slot, 0);
    assert_eq!(bridge.crop.seed_frames, 0);
    assert_eq!(bridge.crop.minx, usize::MAX);
    assert_eq!(mask, DepthMaskCache { depth_pin: 0, has_mask: false, incarnation: 0 });
    assert_eq!(
        loading_portrait_bridge_hold_face_check(&mut bridge, &mut hold, &mut mask, 0, 0x11, 0x22),
        None,
        "a second kick cannot revoke a head that is already gone"
    );
    assert_eq!(hold.revocations, 1);
}

#[test]
fn an_unproven_hold_gets_exactly_one_window() {
    let mut bridge = PortraitBridge::new();
    let mut hold = BridgeHoldState::new();
    let mut window = PortraitWindowState::new();
    let mut failures = WindowPublishFailures::new();
    published(&mut bridge, 3, 0xbeef);
    let first = loading_portrait_window_reset_for_switch(&mut window, &mut bridge, &mut hold, &mut failures, &counts(), 2, 0xbeef);
    assert_eq!(first.held, Some(1));
    let second = loading_portrait_window_reset_for_switch(&mut window, &mut bridge, &mut hold, &mut failures, &counts(), 2, 0xbeef);
    assert_eq!(second.unproven, Some(1));
    assert_eq!(second.refused_tag, 3);
    assert_eq!(second.held, None, "the same unchanged record is not held a second window");
    assert!(bridge.rgba.is_none());
    assert_eq!(hold.provisional, 0);
}

#[test]
fn a_publish_supersedes_the_hold_and_an_intact_record_keeps_it() {
    let mut bridge = PortraitBridge::new();
    let mut hold = BridgeHoldState::new();
    let mut window = PortraitWindowState::new();
    let mut failures = WindowPublishFailures::new();
    let mut mask = DepthMaskCache { depth_pin: 1, has_mask: true, incarnation: 1 };
    published(&mut bridge, 5, 0x77);
    loading_portrait_window_reset_for_switch(&mut window, &mut bridge, &mut hold, &mut failures, &counts(), 4, 0x77);
    assert_eq!(loading_portrait_bridge_hold_face_check(&mut bridge, &mut hold, &mut mask, 4, 0x5, 0x5), None);
    assert_eq!(hold.provisional, 5);
    loading_portrait_bridge_hold_superseded_by_publish(&mut hold);
    assert_eq!(hold.provisional, 0);
    let next = loading_portrait_window_reset_for_switch(&mut window, &mut bridge, &mut hold, &mut failures, &counts(), 4, 0x77);
    assert_eq!(next.unproven, None, "a proven hold is not counted unproven");
    assert_eq!(next.held, Some(2));
}

#[test]
fn a_different_character_or_a_normal_close_clears_the_bridge() {
    let mut bridge = PortraitBridge::new();
    let mut hold = BridgeHoldState::new();
    let mut window = PortraitWindowState::new();
    let mut failures = WindowPublishFailures::new();
    published(&mut bridge, 1, 0xaaaa);
    let r = loading_portrait_window_reset_for_switch(&mut window, &mut bridge, &mut hold, &mut failures, &counts(), 0, 0xbbbb);
    assert_eq!(r.held, None);
    assert!(bridge.rgba.is_none());
    published(&mut bridge, 1, 0xaaaa);
    let r = loading_portrait_window_reset_for_switch(&mut window, &mut bridge, &mut hold, &mut failures, &counts(), 12, 0xaaaa);
    assert_eq!(r.incoming_slot_tag, 0, "a slot outside the table has no tag");
    assert_eq!(r.held, None);
    published(&mut bridge, 1, 0xaaaa);
    assert!(!loading_portrait_window_reset(&mut window, &mut bridge, &hold, &mut failures, &counts()).held);
    assert!(bridge.rgba.is_none());
    assert!(!bridge.have_keyed_frame);
    published(&mut bridge, 1, 0xaaaa);
    loading_portrait_drop_published_bridge(&mut bridge);
    assert_eq!(bridge.published_name_hash, 0);
    let mut mask = DepthMaskCache { depth_pin: 7, has_mask: true, incarnation: 2 };
    invalidate_portrait_depth_mask(&mut mask);
    assert!(!mask.has_mask);
    let _ = BridgeHoldVerdict::NoHold;
}

fn counts() -> WindowPublishCounts {
    WindowPublishCounts {
        torn: 0,
        unkeyed: 0,
        badiou: 0,
        lowmask: 0,
        checker: 0,
        multi: 0,
        unpaired: 0,
        copies: 1,
        color_from_bundle: 1,
        color_from_scan: 0,
        depth_from_chain: 1,
        depth_from_bfs: 0,
    }
}

#[test]
fn the_dominant_publish_failure_cause_is_named() {
    assert_eq!(portrait_publish_fail_cause(&counts()), 0);
    assert_eq!(portrait_publish_fail_cause(&WindowPublishCounts { torn: 3, unkeyed: 3, ..counts() }), 1);
    assert_eq!(portrait_publish_fail_cause(&WindowPublishCounts { torn: 2, unkeyed: 3, ..counts() }), 2);
    assert_eq!(portrait_publish_fail_cause(&WindowPublishCounts { badiou: 4, lowmask: 4, ..counts() }), 3);
    assert_eq!(portrait_publish_fail_cause(&WindowPublishCounts { lowmask: 1, ..counts() }), 4);
    assert_eq!(portrait_publish_fail_cause(&WindowPublishCounts { checker: 1, multi: 9, ..counts() }), 5);
    assert_eq!(portrait_publish_fail_cause(&WindowPublishCounts { multi: 1, ..counts() }), 6);
    assert_eq!(portrait_publish_fail_cause(&WindowPublishCounts { unpaired: 1, ..counts() }), 7);
    assert_eq!(portrait_publish_fail_cause(&WindowPublishCounts { copies: 0, ..counts() }), 8);
    assert_eq!(
        portrait_publish_fail_cause(&WindowPublishCounts { color_from_bundle: 0, depth_from_chain: 0, ..counts() }),
        9
    );
    assert_eq!(publish_fail_cause_name(1), "torn");
    assert_eq!(publish_fail_cause_name(8), "no-copy");
    assert_eq!(publish_fail_cause_name(0), "unknown");
    assert_eq!(publish_fail_cause_name(42), "unknown");
}

#[test]
fn a_starved_window_is_counted_once() {
    let mut f = WindowPublishFailures::new();
    assert!(f.note_window_close(5, 100, &counts()).is_none());
    assert!(f.note_window_close(0, 0, &counts()).is_none(), "no model, no publish-gate fault");
    let first = f.note_window_close(0, 100, &WindowPublishCounts { torn: 2, ..counts() }).unwrap();
    assert_eq!((first.number, first.already_counted, first.cause), (1, false, 1));
    f.latched = true;
    let again = f.note_window_close(0, 50, &counts()).unwrap();
    assert_eq!((again.number, again.already_counted), (1, true));
    assert!(!f.latched);
}

#[test]
fn window_counts_are_deltas_that_never_wrap() {
    let mut mark = 10;
    assert_eq!(window_count_since(25, &mut mark), 15);
    assert_eq!(mark, 25);
    assert_eq!(window_count_since(3, &mut mark), 0);
    assert_eq!(mark, 3);
}
