use er_loading_portrait_core::bridge::{PortraitBridge, PublishedPortrait};
use er_loading_portrait_core::portrait_overlay::portrait_overlay_active;
use er_loading_portrait_core::portrait_shared::BridgeHoldState;
use er_loading_portrait_core::portrait_worker::{
    confirm_to_publish_latency, plane_mad, portrait_consume_route, portrait_mask_share,
    portrait_motion_planes, portrait_publish_class, portrait_publish_frame, rt_pin_moved,
    ConsumeRoute, MotionHistory, PublishClass, TearBaseline,
};

#[test]
fn the_checker_and_unpaired_and_stale_frames_never_reach_the_mask() {
    assert_eq!(portrait_consume_route(true, true, 3, 3), ConsumeRoute::Checker);
    assert_eq!(portrait_consume_route(false, false, 3, 3), ConsumeRoute::Unpaired);
    assert_eq!(portrait_consume_route(false, true, 4, 3), ConsumeRoute::Stale);
    assert_eq!(portrait_consume_route(false, true, 3, 3), ConsumeRoute::Proceed);
    assert!(!rt_pin_moved(0, 0x1000), "the first pin is not a move");
    assert!(!rt_pin_moved(0x1000, 0x1000));
    assert!(rt_pin_moved(0x1000, 0x2000));
}

fn frame(w: usize, h: usize, transparent: usize) -> Vec<u8> {
    let mut px = vec![200u8; w * h * 4];
    for i in 0..transparent {
        px[i * 4 + 3] = 0;
    }
    px
}

#[test]
fn the_mask_share_separates_keyed_partial_and_unkeyed_frames() {
    let keyed = portrait_mask_share(&frame(10, 10, 5));
    assert_eq!((keyed.total_px, keyed.transparent_px, keyed.share_pct), (100, 5, 5));
    assert!(keyed.keyed && !keyed.partial);
    let partial = portrait_mask_share(&frame(10, 10, 4));
    assert!(!partial.keyed && partial.partial);
    let unkeyed = portrait_mask_share(&frame(10, 10, 0));
    assert!(!unkeyed.keyed && !unkeyed.partial);
    let empty = portrait_mask_share(&[]);
    assert_eq!(empty.total_px, 1, "an empty frame divides by one, never by zero");
    assert!(!empty.keyed);
}

#[test]
fn the_tear_baseline_adapts_to_accepted_frames_only() {
    let mut t = TearBaseline::new();
    let first = t.judge(30, 16);
    assert_eq!(first.limit, 80, "a window's first frame gets five times the threshold");
    assert!(first.clean);
    assert_eq!(t.ema, 30);
    let textured = t.judge(39, 16);
    assert_eq!(textured.limit, 61);
    assert!(textured.clean);
    assert_eq!(t.ema, (30 * 7 + 39 + 7) / 8);
    let torn = t.judge(200, 16);
    assert!(!torn.clean);
    assert_eq!(t.ema, (30 * 7 + 39 + 7) / 8, "a torn frame never feeds the baseline");
    let mut smooth = TearBaseline::new();
    smooth.judge(0, 16);
    assert_eq!(smooth.ema, 1, "a perfect first frame still starts the baseline");
    assert_eq!(smooth.judge(20, 16).limit, 32);
    smooth.reset();
    assert_eq!(smooth.ema, 0);
}

#[test]
fn the_publish_gates_apply_in_order() {
    assert_eq!(portrait_publish_class(true, true, true, false), PublishClass::Publish);
    assert_eq!(portrait_publish_class(true, true, false, false), PublishClass::BadIou);
    assert_eq!(portrait_publish_class(true, false, true, false), PublishClass::Torn);
    assert_eq!(portrait_publish_class(false, true, true, true), PublishClass::LowMask);
    assert_eq!(portrait_publish_class(false, true, true, false), PublishClass::Unkeyed);
    assert_eq!(PublishClass::Publish.skip_class(), 0);
    assert_eq!(PublishClass::Torn.skip_class(), 1);
    assert_eq!(PublishClass::Unkeyed.skip_class(), 2);
    assert_eq!(PublishClass::BadIou.skip_class(), 3);
    assert_eq!(PublishClass::LowMask.skip_class(), 4);
}

#[test]
fn a_published_frame_is_what_the_overlay_then_lays_out_for() {
    let mut bridge = PortraitBridge::new();
    let mut hold = BridgeHoldState::new();
    hold.provisional = 3;
    assert!(!portrait_overlay_active(false, &bridge));
    let f = PublishedPortrait { width: 2, height: 1, pixels: vec![1, 2, 3, 4, 5, 6, 7, 0] };
    portrait_publish_frame(&mut bridge, &mut hold, f, 3, 0xabcd);
    assert!(portrait_overlay_active(false, &bridge));
    assert_eq!(bridge.rgba.as_ref().map(|p| p.pixels.clone()), Some(vec![1, 2, 3, 4, 5, 6, 7, 0]));
    assert_eq!(bridge.rgba_version, 1);
    assert_eq!((bridge.published_slot, bridge.published_name_hash), (3, 0xabcd));
    assert!(bridge.have_keyed_frame);
    assert_eq!(hold.provisional, 0, "this window now owns the bridge content");
}

#[test]
fn the_confirm_latency_is_measured_once() {
    assert_eq!(confirm_to_publish_latency(0, 5_000), None);
    assert_eq!(confirm_to_publish_latency(1_000, 3_500), Some(2_500));
    assert_eq!(confirm_to_publish_latency(9_000, 3_500), Some(0));
    assert_eq!(confirm_to_publish_latency(1, 0), Some(0));
}

#[test]
fn motion_is_the_alpha_change_and_flicker_the_luma_change() {
    let (w, h) = (64usize, 64usize);
    let mut a = vec![0u8; w * h * 4];
    for i in 0..w * h {
        a[i * 4] = 100;
        a[i * 4 + 1] = 100;
        a[i * 4 + 2] = 100;
        a[i * 4 + 3] = if i % w < 32 { 0 } else { 255 };
    }
    let pa = portrait_motion_planes(w as u32, h as u32, &a).expect("big enough");
    assert!(pa.keyed);
    assert_eq!(pa.alpha.len(), 1024);
    assert_eq!(pa.luma[0], 100);
    assert_eq!(pa.alpha[0], 0);
    assert_eq!(pa.alpha[31], 255);
    assert!(portrait_motion_planes(16, 64, &a).is_none());
    assert!(portrait_motion_planes(64, 64, &a[..100]).is_none());

    let mut b = a.clone();
    for i in 0..w * h {
        b[i * 4] = 110;
        b[i * 4 + 1] = 110;
        b[i * 4 + 2] = 110;
    }
    let pb = portrait_motion_planes(w as u32, h as u32, &b).unwrap();
    let mut hist = MotionHistory::new();
    hist.observe(pa.clone());
    assert_eq!(hist.flicker_last, 0, "the first frame has nothing to compare with");
    hist.observe(pb);
    assert_eq!(hist.flicker_last, 10_000);
    assert_eq!(hist.motion_last, 0, "the silhouette did not move");
    assert_eq!(hist.flicker_max, 10_000);
    assert_eq!(plane_mad(&[0, 10], &[10, 0]), 10_000);
    assert_eq!(plane_mad(&[5, 5, 5, 5], &[5, 5, 5, 7]), 500);
}
