use er_loading_portrait_core::portrait_equip_apply::{
    chr_asm_param_id_offset, portrait_equip_restore_writes, PortraitEquipRestoreCounters,
};
use er_loading_portrait_core::portrait_equip::portrait_equip_unpack;
use er_loading_portrait_core::portrait_equip_restore::{
    portrait_equip_restore_is_material, portrait_equip_restore_report, portrait_idle_anim_ids,
    CHR_ASM_ARM_STYLE_TWO_HANDED, PORTRAIT_EQUIP_AMMO_FIRST, PORTRAIT_EQUIP_EMPTY_ID,
    PORTRAIT_EQUIP_ENTRY_COUNT, PORTRAIT_EQUIP_PROTECTOR_FIRST, PORTRAIT_IDLE_ANIM_IDS,
    PORTRAIT_IDLE_ANIM_IDS_TWO_HANDED,
};

const DEFAULT_HANDS: i32 = 10200;
const DEFAULT_LEGS: i32 = 10300;

fn empty_array() -> [i32; PORTRAIT_EQUIP_ENTRY_COUNT] {
    [PORTRAIT_EQUIP_EMPTY_ID; PORTRAIT_EQUIP_ENTRY_COUNT]
}

fn dressed_record() -> [i32; PORTRAIT_EQUIP_ENTRY_COUNT] {
    let mut record = empty_array();
    record[0] = 3000000;
    record[1] = 2000000;
    record[PORTRAIT_EQUIP_PROTECTOR_FIRST] = 1000000;
    record[PORTRAIT_EQUIP_PROTECTOR_FIRST + 1] = 1000100;
    record[PORTRAIT_EQUIP_PROTECTOR_FIRST + 2] = 1000200;
    record[PORTRAIT_EQUIP_PROTECTOR_FIRST + 3] = 1000300;
    record
}

fn after_native_feed() -> [i32; PORTRAIT_EQUIP_ENTRY_COUNT] {
    let mut fed = dressed_record();
    fed[0] = PORTRAIT_EQUIP_EMPTY_ID;
    fed[1] = PORTRAIT_EQUIP_EMPTY_ID;
    fed[PORTRAIT_EQUIP_PROTECTOR_FIRST + 2] = DEFAULT_HANDS;
    fed[PORTRAIT_EQUIP_PROTECTOR_FIRST + 3] = DEFAULT_LEGS;
    fed
}

#[test]
fn two_handing_leads_with_the_two_handed_idle() {
    for arm_style in CHR_ASM_ARM_STYLE_TWO_HANDED {
        assert_eq!(portrait_idle_anim_ids(arm_style)[0], 12000000);
    }
}

#[test]
fn a_one_handed_arm_style_after_a_two_handed_one_selects_the_one_handed_idle() {
    assert_eq!(portrait_idle_anim_ids(3)[0], 12000000);
    assert_eq!(portrait_idle_anim_ids(1)[0], 3000000, "the later character wins");
    assert_eq!(portrait_idle_anim_ids(0)[0], 3000000);
}

#[test]
fn everything_else_keeps_the_one_handed_idle() {
    for arm_style in [-1, 0, 1, 4, 99] {
        assert_eq!(portrait_idle_anim_ids(arm_style)[0], 3000000);
    }
}

#[test]
fn both_lists_share_their_fallback_tail() {
    let one = PORTRAIT_IDLE_ANIM_IDS;
    let two = PORTRAIT_IDLE_ANIM_IDS_TWO_HANDED;
    assert_eq!(&two[two.len() - one.len()..], &one[..]);
}

#[test]
fn the_feeds_damage_is_reported_slot_for_slot() {
    let report = portrait_equip_restore_report(&dressed_record(), &after_native_feed()).unwrap();
    assert_eq!(report.weapon_slots_restored, 2);
    assert_eq!(report.ammo_slots_restored, 0);
    assert_eq!(report.protector_slots_restored, 2, "head and chest survive the feed");
    assert_eq!(report.right_weapon_id, 2000000);
    assert_eq!(report.left_weapon_id, 3000000);
    assert_eq!(report.hands_id, 1000200);
    assert_eq!(report.legs_id, 1000300);
    assert!(portrait_equip_restore_is_material(&report));
}

#[test]
fn a_genuinely_bare_character_needs_no_repair() {
    let mut record = empty_array();
    record[PORTRAIT_EQUIP_PROTECTOR_FIRST + 2] = DEFAULT_HANDS;
    record[PORTRAIT_EQUIP_PROTECTOR_FIRST + 3] = DEFAULT_LEGS;
    let report = portrait_equip_restore_report(&record, &record).unwrap();
    assert_eq!(report.weapon_slots_restored, 0);
    assert_eq!(report.protector_slots_restored, 0);
    assert_eq!(report.right_weapon_id, PORTRAIT_EQUIP_EMPTY_ID);
    assert!(!portrait_equip_restore_is_material(&report));
}

#[test]
fn the_hands_are_read_off_the_odd_even_split() {
    let mut record = empty_array();
    record[3] = 2200000;
    record[4] = 3300000;
    let report = portrait_equip_restore_report(&record, &empty_array()).unwrap();
    assert_eq!(report.right_weapon_id, 2200000);
    assert_eq!(report.left_weapon_id, 3300000);
}

#[test]
fn a_short_array_is_refused_rather_than_padded() {
    let short = [PORTRAIT_EQUIP_EMPTY_ID; PORTRAIT_EQUIP_ENTRY_COUNT - 1];
    assert!(portrait_equip_restore_report(&short, &empty_array()).is_none());
    assert!(portrait_equip_restore_report(&empty_array(), &short).is_none());
}

#[test]
fn the_ammo_base_agrees_with_the_build_importer() {
    assert_eq!(PORTRAIT_EQUIP_AMMO_FIRST as i32, 6);
    assert_eq!(PORTRAIT_EQUIP_PROTECTOR_FIRST as i32, 12);
}

#[test]
fn a_restore_writes_exactly_the_readable_differences() {
    let wanted: Vec<Option<i32>> = dressed_record().iter().map(|v| Some(*v)).collect();
    let mut have: Vec<Option<i32>> = after_native_feed().iter().map(|v| Some(*v)).collect();
    assert_eq!(portrait_equip_restore_writes(&wanted, &have), vec![0, 1, 14, 15]);
    have[14] = None;
    assert_eq!(portrait_equip_restore_writes(&wanted, &have), vec![0, 1, 15]);
    assert!(portrait_equip_restore_writes(&wanted, &wanted).is_empty());
    assert_eq!(chr_asm_param_id_offset(0), 0x7c);
    assert_eq!(chr_asm_param_id_offset(21), 0x7c + 21 * 4);
}

#[test]
fn the_restore_counters_count_kicks_and_latch_the_first_record() {
    let mut c = PortraitEquipRestoreCounters::new();
    let report = portrait_equip_restore_report(&dressed_record(), &after_native_feed()).unwrap();
    assert!(c.note_applied(&report));
    assert_eq!(c.kicks, 1);
    assert_eq!(c.weapon_slots, 2);
    assert_eq!(c.protector_slots, 2);
    assert_eq!(c.noop_kicks, 0);
    assert_eq!(portrait_equip_unpack(c.record_id[0]), 2000000);
    let bare = portrait_equip_restore_report(&empty_array(), &empty_array()).unwrap();
    for _ in 0..3 {
        assert!(c.note_applied(&bare));
    }
    assert!(!c.note_applied(&bare), "only the first four kicks are logged");
    assert_eq!(c.noop_kicks, 4);
    assert_eq!(portrait_equip_unpack(c.record_id[0]), 2000000, "the first restore's record sticks");
    c.note_failure();
    assert_eq!(c.failures, 1);
    c.note_record_arm_style(3);
    assert_eq!(portrait_equip_unpack(c.record_arm_style), 3);
    c.note_record_arm_style(1);
    assert_eq!(portrait_equip_unpack(c.record_arm_style), 1, "stored per kick, not latched");
}
