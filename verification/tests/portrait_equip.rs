use er_loading_portrait_core::chr_asm_layout::{
    CHR_ASM_EQUIPMENT_PARAM_IDS_OFFSET, CHR_ASM_PROTECTOR_HEAD_INDEX, CHR_ASM_PROTECTOR_SLOT_COUNT,
    CHR_ASM_SIZE,
};
use er_loading_portrait_core::portrait_equip::{
    portrait_effective_protector_id, portrait_equip_latch_first, portrait_equip_pack,
    portrait_equip_sample_bad_mask, portrait_equip_unpack, protector_default_param_id,
    PortraitEquipSample, PORTRAIT_EQUIP_BAD_CHEST, PORTRAIT_EQUIP_BAD_HANDS,
    PORTRAIT_EQUIP_BAD_HEAD, PORTRAIT_EQUIP_BAD_LEGS, PORTRAIT_EQUIP_BAD_OVERRIDE_ACTIVE,
    PORTRAIT_EQUIP_CAPTURE_BAD, PORTRAIT_EQUIP_CAPTURE_CLEAN, PORTRAIT_EQUIP_CAPTURE_NOT_SAMPLED,
    PORTRAIT_EQUIP_OVERRIDE_ABSENT, PORTRAIT_EQUIP_PROTECTOR_SLOT_COUNT, PORTRAIT_EQUIP_SLOT_CHEST,
    PORTRAIT_EQUIP_SLOT_HANDS, PORTRAIT_EQUIP_SLOT_HEAD, PORTRAIT_EQUIP_SLOT_LEGS,
    PORTRAIT_EQUIP_VALUE_UNSAMPLED,
};
use er_loading_portrait_core::portrait_equip_oracle::{
    chr_asm_protector_param_id_offset, portrait_equip_assemble_sample, PortraitEquipOracle,
};

fn sample(unk0: i32, unkd4: i32, unkd8: i32, param_ids: [i32; 4], record: [i32; 4]) -> PortraitEquipSample {
    let mut effective = [PORTRAIT_EQUIP_OVERRIDE_ABSENT; PORTRAIT_EQUIP_PROTECTOR_SLOT_COUNT];
    for slot in 0..PORTRAIT_EQUIP_PROTECTOR_SLOT_COUNT {
        effective[slot] = portrait_effective_protector_id(slot, param_ids[slot], unk0, unkd4, unkd8);
    }
    PortraitEquipSample { unk0, unkd4, unkd8, effective, record, model_ins: 0 }
}

#[test]
fn a_zeroed_chr_asm_resolves_every_protector_slot_to_a_bogus_row_and_is_flagged() {
    let s = sample(0, 0, 0, [21000, 21100, 10200, 10300], [21000, 21100, -1, -1]);
    assert_eq!(s.effective, [0, 100, 200, 300]);
    let mask = portrait_equip_sample_bad_mask(&s);
    assert!(mask & PORTRAIT_EQUIP_BAD_OVERRIDE_ACTIVE != 0);
    assert!(mask & PORTRAIT_EQUIP_BAD_HEAD != 0);
    assert!(mask & PORTRAIT_EQUIP_BAD_CHEST != 0);
    assert!(mask & PORTRAIT_EQUIP_BAD_HANDS != 0);
    assert!(mask & PORTRAIT_EQUIP_BAD_LEGS != 0);
}

#[test]
fn the_sentinel_image_resolves_the_records_own_armor_and_passes() {
    let s = sample(-1, -1, -1, [21000, 21100, 10200, 10300], [21000, 21100, -1, -1]);
    assert_eq!(s.effective, [21000, 21100, 10200, 10300]);
    assert_eq!(portrait_equip_sample_bad_mask(&s), 0);
}

#[test]
fn an_unarmored_character_is_not_a_failure() {
    let s = sample(-1, -1, -1, [-1, -1, 10200, 10300], [-1, -1, -1, -1]);
    assert_eq!(portrait_equip_sample_bad_mask(&s), 0);
}

#[test]
fn armor_lost_between_the_record_and_the_live_chr_asm_is_flagged() {
    let s = sample(-1, -1, -1, [-1, -1, 10200, 10300], [21000, 21100, -1, -1]);
    assert_eq!(portrait_equip_sample_bad_mask(&s), PORTRAIT_EQUIP_BAD_HEAD | PORTRAIT_EQUIP_BAD_CHEST);
}

#[test]
fn a_non_negative_unk0_overrides_hands_alone() {
    let s = sample(5, -1, -1, [21000, 21100, 10200, 10300], [21000, 21100, -1, -1]);
    assert_eq!(s.effective, [21000, 21100, 205, 10300]);
    assert_eq!(
        portrait_equip_sample_bad_mask(&s),
        PORTRAIT_EQUIP_BAD_OVERRIDE_ACTIVE | PORTRAIT_EQUIP_BAD_HANDS
    );
}

#[test]
fn an_unsampled_slot_never_decodes_to_a_plausible_param_id() {
    let mut cell: u64 = 0;
    assert_eq!(portrait_equip_unpack(cell), PORTRAIT_EQUIP_VALUE_UNSAMPLED);
    portrait_equip_latch_first(&mut cell, 0);
    assert_eq!(portrait_equip_unpack(cell), 0);
    portrait_equip_latch_first(&mut cell, 21000);
    assert_eq!(
        portrait_equip_unpack(cell),
        0,
        "first value must win; a later good sample cannot erase a bad one"
    );
}

#[test]
fn negative_param_ids_survive_the_pack_round_trip() {
    let mut cell: u64 = 0;
    portrait_equip_latch_first(&mut cell, PORTRAIT_EQUIP_OVERRIDE_ABSENT);
    assert_eq!(portrait_equip_unpack(cell), PORTRAIT_EQUIP_OVERRIDE_ABSENT);
}

#[test]
fn the_default_protector_rows_are_the_documented_switch_values() {
    assert_eq!(protector_default_param_id(PORTRAIT_EQUIP_SLOT_HEAD), 10000);
    assert_eq!(protector_default_param_id(PORTRAIT_EQUIP_SLOT_CHEST), 10100);
    assert_eq!(protector_default_param_id(PORTRAIT_EQUIP_SLOT_HANDS), 10200);
    assert_eq!(protector_default_param_id(PORTRAIT_EQUIP_SLOT_LEGS), 10300);
}

#[test]
fn protector_param_id_offsets_are_head_chest_hands_legs_and_stay_in_bounds() {
    let head = chr_asm_protector_param_id_offset(PORTRAIT_EQUIP_SLOT_HEAD);
    assert_eq!(head, CHR_ASM_EQUIPMENT_PARAM_IDS_OFFSET + CHR_ASM_PROTECTOR_HEAD_INDEX * 4);
    for slot in 1..CHR_ASM_PROTECTOR_SLOT_COUNT {
        assert_eq!(chr_asm_protector_param_id_offset(slot), head + slot * 4);
    }
    let last = chr_asm_protector_param_id_offset(CHR_ASM_PROTECTOR_SLOT_COUNT - 1);
    assert!(last + 4 <= CHR_ASM_SIZE);
}

#[test]
fn packing_keeps_the_presence_bit_and_the_value() {
    assert_eq!(portrait_equip_pack(0), 0x1_0000_0000);
    assert_eq!(portrait_equip_pack(-1), 0x1_ffff_ffff);
    assert_eq!(portrait_equip_unpack(portrait_equip_pack(i32::MIN + 1)), i32::MIN + 1);
}

#[test]
fn a_ctor_fresh_stage_zero_is_not_a_sample() {
    assert!(portrait_equip_assemble_sample(-1, -1, -1, [-1, -1, -1, -1], [0; 4], 7).is_none());
    let s = portrait_equip_assemble_sample(-1, -1, 3, [-1, -1, 10200, 10300], [1, 2, 3, 4], 7)
        .expect("hands and legs fed");
    assert_eq!(s.effective, [-1, 103, 203, 303]);
    assert_eq!(s.record, [1, 2, 3, 4]);
    assert_eq!(s.model_ins, 7);
}

#[test]
fn the_oracle_counts_a_window_and_latches_its_first_values() {
    let mut oracle = PortraitEquipOracle::new();
    oracle.portrait_equip_roll_window(1);
    assert!(oracle.cached_record_ids().is_none());
    let bad = sample(0, 0, 0, [21000, 21100, 10200, 10300], [21000, 21100, -1, -1]);
    let fold = oracle.fold_sample(&bad, 2, false);
    assert_eq!(fold.sampled, 1);
    assert!(fold.first_bad_frame);
    assert!(!fold.capture_latched);
    assert_eq!(oracle.oracle_slot, 3);
    assert_eq!(oracle.windows_sampled, 1);
    assert_eq!(oracle.windows_bad, 1);
    assert_eq!(oracle.bad_frames_total, 1);
    assert_eq!(portrait_equip_unpack(oracle.first_unk0), 0);
    assert_eq!(oracle.cached_record_ids(), Some([21000, 21100, -1, -1]));

    let good = sample(-1, -1, -1, [21000, 21100, 10200, 10300], [21000, 21100, -1, -1]);
    let fold = oracle.fold_sample(&good, 2, true);
    assert_eq!(fold.mask, 0);
    assert!(!fold.first_bad_frame);
    assert!(fold.capture_latched);
    assert_eq!(oracle.capture_verdict, PORTRAIT_EQUIP_CAPTURE_CLEAN);
    assert_eq!(oracle.bad_mask, fold.mask | portrait_equip_sample_bad_mask(&bad));
    assert_eq!(portrait_equip_unpack(oracle.first_unk0), 0, "the first value of the window sticks");
    assert_eq!(oracle.bad_frames, 1);

    let fold = oracle.fold_sample(&bad, 2, true);
    assert!(!fold.capture_latched, "the capture verdict latches once per window");
    assert_eq!(oracle.capture_verdict, PORTRAIT_EQUIP_CAPTURE_CLEAN);
    assert_eq!(oracle.bad_frames, 2);
    assert_eq!(oracle.windows_bad, 1);

    oracle.portrait_equip_roll_window(1);
    assert_eq!(oracle.sampled_frames, 3, "the same window again changes nothing");
    oracle.portrait_equip_roll_window(2);
    assert_eq!(oracle.sampled_frames, 0);
    assert_eq!(oracle.capture_verdict, PORTRAIT_EQUIP_CAPTURE_NOT_SAMPLED);
    assert_eq!(oracle.bad_frames_total, 2, "the session total is never rolled back");
    let fold = oracle.fold_sample(&bad, 0, true);
    assert_eq!(oracle.capture_verdict, PORTRAIT_EQUIP_CAPTURE_BAD);
    assert!(fold.first_bad_frame);
    assert_eq!(oracle.windows_bad, 2);
}
