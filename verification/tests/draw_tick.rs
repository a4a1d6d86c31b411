use er_loading_portrait_core::dlstring_lookat_math::{capture_renderer, gx_capture_ready};
use er_loading_portrait_core::gpu_draw_shared::{overlay_texture_slot_plan, TextureSlotPlan};
use er_loading_portrait_core::lookat_bone_hooks::{
    anim_rebind_due, drive_guard, idle_anim_bound, lookat_tick_plan, lookat_tick_start,
    model_live_transition, portrait_incarnation_tag, pump_gates, DriveGuard, LookatTickPlan,
    LookatTickStart,
};
use er_loading_portrait_core::lookat_stage_camera::{
    gx_pool_free, lookat_phase_selection, rt_center_maxima, rt_sample_changed, rt_sample_stream,
    RT_SAMPLE_SPARED_STREAM,
};

const NULL: usize = 0x1000;

#[test]
fn tick_idles_without_overlay_or_base() {
    assert_eq!(lookat_tick_start(false, 0x1400, NULL, 0, 0), LookatTickStart::Idle);
    assert_eq!(lookat_tick_start(true, 0, NULL, 0, 0), LookatTickStart::Idle);
    assert_eq!(lookat_tick_start(true, NULL, NULL, 0, 0), LookatTickStart::Idle);
}

#[test]
fn tick_stops_once_the_switch_epoch_is_in_world() {
    assert_eq!(lookat_tick_start(true, 0x1400, NULL, 3, 3), LookatTickStart::WorldLive);
    assert_eq!(lookat_tick_start(true, 0x1400, NULL, 3, 2), LookatTickStart::Run);
    // The boot epoch is exempt even when the world clock matches it.
    assert_eq!(lookat_tick_start(true, 0x1400, NULL, 0, 0), LookatTickStart::Run);
}

#[test]
fn tick_plan_follows_the_table() {
    assert_eq!(lookat_tick_plan(0, 0), LookatTickPlan { draw_step: true, pump: false });
    assert_eq!(lookat_tick_plan(2, 1), LookatTickPlan { draw_step: false, pump: true });
}

#[test]
fn incarnation_tag_is_slot_plus_one() {
    assert_eq!(portrait_incarnation_tag(0), 1);
    assert_eq!(portrait_incarnation_tag(9), 10);
    assert_eq!(portrait_incarnation_tag(-1), 0);
    assert_eq!(portrait_incarnation_tag(i32::MAX), i32::MAX as usize + 1);
}

#[test]
fn pump_blocks_name_the_failing_gate() {
    let vt = 0x7000;
    let g = pump_gates(0, NULL, 0, vt, 0, 0, false, true);
    assert!(g.block_renderer && !g.block_vtable && !g.drive);
    let g = pump_gates(0x2000, NULL, 0x6000, vt, 0x3000, 1, true, true);
    assert!(!g.block_renderer && g.block_vtable && !g.block_offscreen && !g.drive);
    let g = pump_gates(0x2000, NULL, vt, vt, NULL, 1, true, true);
    assert!(g.block_offscreen && !g.stable_target_only && !g.drive);
}

#[test]
fn pump_drives_only_the_single_live_model() {
    let vt = 0x7000;
    let g = pump_gates(0x2000, NULL, vt, vt, 0x3000, 1, true, true);
    assert!(g.drive && g.stable_target_only && !g.multi_model_skip && !g.block_multi);
    let g = pump_gates(0x2000, NULL, vt, vt, 0x3000, 0, true, true);
    assert!(g.drive && !g.stable_target_only && g.multi_model_skip && !g.block_multi);
    let g = pump_gates(0x2000, NULL, vt, vt, 0x3000, 3, true, true);
    assert!(!g.drive && g.multi_model_skip && g.block_multi);
    let g = pump_gates(0x2000, NULL, vt, vt, 0x3000, 1, false, true);
    assert!(!g.drive && g.block_offscreen_resource && g.stable_target_only);
    let g = pump_gates(0x2000, NULL, vt, vt, 0x3000, 1, true, false);
    assert!(!g.drive && g.stable_target_only);
}

#[test]
fn drive_stands_down_for_fence_then_cloth() {
    assert_eq!(drive_guard(1, 0, NULL), DriveGuard::FenceSkip);
    assert_eq!(drive_guard(0, 0, NULL), DriveGuard::ClothSkip);
    assert_eq!(drive_guard(0, NULL, NULL), DriveGuard::ClothSkip);
    assert_eq!(drive_guard(0, 0x5000, NULL), DriveGuard::Drive);
}

#[test]
fn idle_anim_binds_per_incarnation() {
    assert!(!anim_rebind_due(0x2000, 0x3000, 0x2000, 0x3000));
    assert!(anim_rebind_due(0x2000, 0x3000, 0x2100, 0x3000));
    assert!(anim_rebind_due(0x2000, 0x3000, 0x2000, 0x3100));
    assert!(idle_anim_bound(0x42, 0x99));
    assert!(!idle_anim_bound(0x99, 0x99));
    assert!(!idle_anim_bound(0xffff_ffff, 0x99));
}

#[test]
fn model_goes_live_once() {
    assert_eq!(model_live_transition(0, 0x4000, NULL), (1, true));
    assert_eq!(model_live_transition(1, 0x4000, NULL), (1, false));
    assert_eq!(model_live_transition(1, 0, NULL), (0, false));
    assert_eq!(model_live_transition(0, NULL, NULL), (0, false));
}

#[test]
fn phase_selector_text_parses_like_usize() {
    assert_eq!(lookat_phase_selection("3", 8), Some(3));
    assert_eq!(lookat_phase_selection("  5\n", 8), Some(5));
    assert_eq!(lookat_phase_selection("+2", 8), Some(2));
    assert_eq!(lookat_phase_selection("007", 8), Some(7));
    assert_eq!(lookat_phase_selection("8", 8), None);
    assert_eq!(lookat_phase_selection("", 8), None);
    assert_eq!(lookat_phase_selection("+", 8), None);
    assert_eq!(lookat_phase_selection("-1", 8), None);
    assert_eq!(lookat_phase_selection("2a", 8), None);
    assert_eq!(lookat_phase_selection("1 2", 8), None);
    assert_eq!(lookat_phase_selection("99999999999999999999999", usize::MAX), None);
    for text in ["0", " 4 ", "6\r\n", "+0"] {
        let want = text.trim().parse::<usize>().ok().filter(|v| *v < 8);
        assert_eq!(lookat_phase_selection(text, 8), want);
    }
}

#[test]
fn capture_prefers_the_spared_renderer() {
    assert_eq!(capture_renderer(0x2000, 0x3000, NULL), 0x2000);
    assert_eq!(capture_renderer(0, 0x3000, NULL), 0x3000);
    assert_eq!(capture_renderer(NULL, 0x3000, NULL), 0x3000);
}

#[test]
fn capture_needs_a_live_unmarked_texture() {
    assert!(gx_capture_ready(0, 0x10, 0x20, 0x30, NULL));
    assert!(!gx_capture_ready(1, 0x10, 0x20, 0x30, NULL));
    assert!(!gx_capture_ready(0, 0, 0x20, 0x30, NULL));
    assert!(!gx_capture_ready(0, 0x10, NULL, 0x30, NULL));
    assert!(!gx_capture_ready(0, 0x10, 0x20, 0, NULL));
}

#[test]
fn texture_slot_is_reused_only_at_the_same_size() {
    assert_eq!(overlay_texture_slot_plan(0, 10, 16384, 1, 1, 0, 10), TextureSlotPlan::Refuse);
    assert_eq!(overlay_texture_slot_plan(20000, 10, 16384, 1, 1, 20000, 10), TextureSlotPlan::Refuse);
    assert_eq!(overlay_texture_slot_plan(64, 32, 16384, 1, 1, 64, 32), TextureSlotPlan::Reuse);
    assert_eq!(overlay_texture_slot_plan(64, 32, 16384, 1, 1, 64, 33), TextureSlotPlan::Create);
    assert_eq!(overlay_texture_slot_plan(64, 32, 16384, 0, 1, 64, 32), TextureSlotPlan::Create);
}

#[test]
fn gx_pool_free_counts_eight_byte_entries() {
    assert_eq!(gx_pool_free(0x1000, 0x1040), Some(8));
    assert_eq!(gx_pool_free(0x1000, 0x1007), Some(0));
    assert_eq!(gx_pool_free(0, 0x1040), None);
    assert_eq!(gx_pool_free(0x1040, 0x1000), None);
}

#[test]
fn rt_sample_prefers_spared_then_first_live_slot() {
    assert_eq!(rt_sample_stream(true, &[true, true]), Some(RT_SAMPLE_SPARED_STREAM));
    assert_eq!(rt_sample_stream(false, &[false, false, true, true]), Some(2));
    assert_eq!(rt_sample_stream(false, &[false; 10]), None);
    assert!(rt_sample_changed(3, 3, 0xaa, 0xbb));
    assert!(!rt_sample_changed(3, 3, 0xaa, 0xaa));
    assert!(!rt_sample_changed(2, 3, 0xaa, 0xbb));
}

#[test]
fn rt_center_maxima_read_only_the_center_window() {
    // 100 x 2 frame: the centre window spans x 18..82, both rows.
    let (w, h) = (100usize, 2usize);
    let mut px = vec![0u8; w * h * 4];
    // Bright texels outside the window are ignored.
    px[(0 * w + 5) * 4] = 250;
    px[(1 * w + 90) * 4 + 3] = 255;
    // Inside it: green 40 and alpha 7.
    px[(1 * w + 50) * 4 + 1] = 40;
    px[(0 * w + 18) * 4 + 3] = 7;
    assert_eq!(rt_center_maxima(w as u32, h as u32, &px), Some((40, 7)));
    assert_eq!(rt_center_maxima(0, 2, &px), None);
    assert_eq!(rt_center_maxima(100, 3, &px), None);
}
