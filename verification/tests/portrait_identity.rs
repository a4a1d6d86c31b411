use er_loading_portrait_core::portrait_identity::PortraitSlotSource::{
    RequestSlot, SaveSlot, UserPick,
};
use er_loading_portrait_core::portrait_identity::{
    bridge_hold_face_verdict, loading_screen_stats_slot_source, name_looks_like_picker_row_label,
    packed_map_area_id, packed_map_is_plausible, packed_maps_disagree,
    portrait_target_slot_attributed, portrait_target_slot_from_sources, portrait_window_target_slot,
    portrait_window_target_slot_authoritative, portrait_window_target_slot_by_evidence,
    profile_record_character_verdict, published_identity_verdict, same_identity_bridge_hold,
    scan_live_records, BridgeHoldVerdict, LiveRecordSample, PortraitSlotSource, PublishedIdentity,
    RecordCharacterVerdict, StatsSlotSource, DEFAULT_MAP_C30,
};
#[test]
fn a_negative_word_is_rejected_as_implausible_not_treated_as_absent_evidence() {
    assert!(!packed_map_is_plausible(0xd139_52aau32 as i32));
    assert!(!packed_map_is_plausible(0xa504_8cb5u32 as i32));
    assert!(!packed_map_is_plausible(0x3e20_457cu32 as i32));
}

#[test]
fn a_random_word_can_still_land_inside_the_area_range() {
    assert!(packed_map_is_plausible(0x0e6d_7b38u32 as i32));
}

#[test]
fn real_corpus_area_ids_are_plausible() {
    for area in [
        0x0au8, 0x0b, 0x0c, 0x0d, 0x0e, 0x10, 0x14, 0x15, 0x1c, 0x20, 0x22, 0x23, 0x3c, 0x3d,
    ] {
        let map = ((u32::from(area) << 24) | 0x0002_0000) as i32;
        assert!(
            packed_map_is_plausible(map),
            "areaId 0x{area:02x} (map 0x{map:08x}) must be plausible"
        );
    }
    for map in [0x0c01_0000u32, 0x1c00_0000, 0x0e00_0000, 0x3d00_0000] {
        assert!(packed_map_is_plausible(map as i32), "map 0x{map:08x}");
    }
}

#[test]
fn the_new_game_sentinel_is_never_plausible() {
    assert!(!packed_map_is_plausible(DEFAULT_MAP_C30));
    assert_eq!(packed_map_area_id(DEFAULT_MAP_C30), 0x0a);
}

#[test]
fn implausible_values_yield_no_map_evidence_rather_than_a_mismatch() {
    let real_a = 0x0c01_0000u32 as i32;
    let real_b = 0x1c00_0000u32 as i32;
    let garbage = 0x3e20_457cu32 as i32;
    assert!(packed_maps_disagree(real_a, real_b));
    assert!(!packed_maps_disagree(real_a, garbage));
    assert!(!packed_maps_disagree(garbage, real_a));
    assert!(!packed_maps_disagree(real_a, real_a));
    assert!(!packed_maps_disagree(real_a, DEFAULT_MAP_C30));
}

#[test]
fn the_2026_08_02_wrong_face_window_is_a_slot_mismatch() {
    assert_eq!(
        published_identity_verdict(9 + 1, Some(5)),
        PublishedIdentity::SlotMismatch {
            published: 9,
            loaded: 5
        }
    );
    assert!(published_identity_verdict(9 + 1, Some(5)).is_mismatch());
}

#[test]
fn slot_zero_is_not_confused_with_nothing_published() {
    assert_eq!(
        published_identity_verdict(0, Some(0)),
        PublishedIdentity::NothingPublished
    );
    assert_eq!(
        published_identity_verdict(1, Some(0)),
        PublishedIdentity::Match
    );
    assert_eq!(
        published_identity_verdict(1, Some(3)),
        PublishedIdentity::SlotMismatch {
            published: 0,
            loaded: 3
        }
    );
    assert!(!published_identity_verdict(0, Some(0)).is_mismatch());
}

#[test]
fn with_no_completed_load_there_is_nothing_to_compare() {
    assert_eq!(
        published_identity_verdict(5, None),
        PublishedIdentity::NoLoadedSlot
    );
    assert!(!published_identity_verdict(5, None).is_mismatch());
}

#[test]
fn the_users_pick_outranks_every_inferred_slot() {
    assert_eq!(
        portrait_target_slot_from_sources(Some(5), Some(7), Some(9), 10),
        Some(5)
    );
}

#[test]
fn the_request_register_beats_a_stale_save_slot() {
    assert_eq!(
        portrait_target_slot_from_sources(None, Some(5), Some(9), 10),
        Some(5)
    );
}

#[test]
fn the_no_request_sentinel_falls_through_to_save_slot() {
    assert_eq!(
        portrait_target_slot_from_sources(None, Some(-1), Some(9), 10),
        Some(9)
    );
    assert_eq!(
        portrait_target_slot_from_sources(None, None, Some(9), 10),
        Some(9)
    );
    assert_eq!(
        portrait_target_slot_from_sources(None, Some(10), Some(9), 10),
        Some(9),
        "an out-of-range request must not win"
    );
}

#[test]
fn no_valid_source_yields_none_not_slot_zero() {
    assert_eq!(
        portrait_target_slot_from_sources(None, None, None, 10),
        None
    );
    assert_eq!(
        portrait_target_slot_from_sources(Some(-1), Some(-1), Some(-1), 10),
        None
    );
}

#[test]
fn a_window_that_committed_to_the_picked_slot_never_retargets_mid_load() {
    let resolved = portrait_target_slot_from_sources(Some(0), Some(-1), Some(0), 10);
    assert_eq!(resolved, Some(0));
    let (target, latching) = portrait_window_target_slot(None, resolved);
    assert_eq!(target, Some(0));
    assert!(latching, "the first resolution of a window must latch");

    let resolved_later = portrait_target_slot_from_sources(None, Some(-1), Some(9), 10);
    assert_eq!(
        resolved_later,
        Some(9),
        "precedence really does name slot 9 once the picker term is spent -- this is the input that caused the bug"
    );
    let (target_later, latching_later) = portrait_window_target_slot(target, resolved_later);
    assert_eq!(
        target_later,
        Some(0),
        "the window must keep the character the user clicked"
    );
    assert!(!latching_later);
}

#[test]
fn a_new_window_is_free_to_target_a_different_character() {
    let (first, _) = portrait_window_target_slot(None, Some(0));
    assert_eq!(first, Some(0));
    let (second, latching) = portrait_window_target_slot(None, Some(9));
    assert_eq!(second, Some(9));
    assert!(latching);
}

#[test]
fn a_guessed_window_latch_yields_to_the_users_pick() {
    assert_eq!(
        portrait_target_slot_from_sources(None, None, Some(-1), 10),
        None,
        "picker=None b78=None ac0=-1 names no slot -- slot 0 here is a guess, not a choice"
    );
    let boot = portrait_window_target_slot_authoritative(None, false, Some(0), false);
    assert_eq!(boot.slot, Some(0));
    assert!(boot.latching);
    assert!(!boot.promoted_by_pick);

    let resolved = portrait_target_slot_from_sources(Some(1), Some(-1), Some(-1), 10);
    assert_eq!(resolved, Some(1));

    let picked = portrait_window_target_slot_authoritative(boot.slot, false, resolved, true);
    assert_eq!(
        picked.slot,
        Some(1),
        "the pick must replace a latch that was adopted from a guess"
    );
    assert!(picked.latching);
    assert!(picked.promoted_by_pick);

    let after = portrait_window_target_slot_authoritative(picked.slot, true, Some(9), false);
    assert_eq!(after.slot, Some(1));
    assert!(!after.latching);
    assert!(!after.promoted_by_pick);
}

#[test]
fn a_picked_window_latch_never_yields() {
    let picked = portrait_window_target_slot_authoritative(None, false, Some(0), true);
    assert_eq!(picked.slot, Some(0));
    assert!(picked.latching);

    for (resolved, from_pick) in [(Some(9), false), (Some(9), true), (None, false)] {
        let held =
            portrait_window_target_slot_authoritative(picked.slot, true, resolved, from_pick);
        assert_eq!(
            held.slot,
            Some(0),
            "a window committed from the user's pick keeps it (resolved={resolved:?} from_pick={from_pick})"
        );
        assert!(!held.latching);
        assert!(!held.promoted_by_pick);
    }
}

#[test]
fn a_pick_matching_the_guess_is_not_a_promotion() {
    let boot = portrait_window_target_slot_authoritative(None, false, Some(4), false);
    assert_eq!(boot.slot, Some(4));
    let same = portrait_window_target_slot_authoritative(boot.slot, false, Some(4), true);
    assert_eq!(same.slot, Some(4));
    assert!(!same.latching);
    assert!(!same.promoted_by_pick);
}

#[test]
fn a_guessed_window_latch_still_refuses_game_inferred_retargets() {
    let boot = portrait_window_target_slot_authoritative(None, false, Some(0), false);
    for resolved in [Some(9), Some(1), None] {
        let held = portrait_window_target_slot_authoritative(boot.slot, false, resolved, false);
        assert_eq!(
            held.slot,
            Some(0),
            "ac0/b78 must never move a committed window (resolved={resolved:?})"
        );
        assert!(!held.latching);
    }
}

#[test]
fn a_window_with_no_measured_source_commits_to_nothing() {
    let at_open = portrait_target_slot_attributed(None, None, Some(-1), 10);
    assert_eq!(at_open, None, "picker=None b78=None ac0=-1 names no slot");

    let opened = portrait_window_target_slot_by_evidence(None, None, at_open);
    assert_eq!(
        opened.slot, None,
        "an uncommitted window must stay uncommitted -- rendering no portrait beats \
         committing the window to a config hint"
    );
    assert!(!opened.latching);
    assert_eq!(opened.source, None);

    let arrived = portrait_target_slot_attributed(None, Some(-1), Some(2), 10);
    assert_eq!(arrived, Some((2, PortraitSlotSource::SaveSlot)));
    let committed = portrait_window_target_slot_by_evidence(opened.slot, opened.source, arrived);
    assert_eq!(
        committed.slot,
        Some(2),
        "the first real measurement is what the window commits to"
    );
    assert!(committed.latching);
    assert_eq!(committed.source, Some(PortraitSlotSource::SaveSlot));
}

#[test]
fn a_latch_taken_off_a_stale_save_slot_yields_to_the_load_request() {
    let latched = portrait_window_target_slot_by_evidence(
        None,
        None,
        portrait_target_slot_attributed(None, Some(-1), Some(0), 10),
    );
    assert_eq!(latched.slot, Some(0));
    assert_eq!(latched.source, Some(PortraitSlotSource::SaveSlot));

    let fresh = portrait_target_slot_attributed(None, Some(1), Some(1), 10);
    assert_eq!(fresh, Some((1, PortraitSlotSource::RequestSlot)));
    let followed = portrait_window_target_slot_by_evidence(latched.slot, latched.source, fresh);
    assert_eq!(
        followed.slot,
        Some(1),
        "the load-REQUEST register outranks a save_slot read that is stale by definition"
    );
    assert!(followed.latching);
    assert!(
        !followed.promoted_by_pick,
        "this promotion is on evidence, not on a user pick -- it must not be counted as one"
    );

    let after = portrait_window_target_slot_by_evidence(
        followed.slot,
        followed.source,
        Some((0, PortraitSlotSource::SaveSlot)),
    );
    assert_eq!(after.slot, Some(1));
    assert!(!after.latching);
}

#[test]
fn equal_or_weaker_evidence_never_moves_a_committed_window() {
    for held_source in [SaveSlot, RequestSlot, UserPick] {
        for fresh_source in [SaveSlot, RequestSlot, UserPick] {
            if fresh_source > held_source {
                continue;
            }
            let held = portrait_window_target_slot_by_evidence(
                Some(3),
                Some(held_source),
                Some((9, fresh_source)),
            );
            assert_eq!(
                held.slot,
                Some(3),
                "{fresh_source:?} must not move a window committed from {held_source:?}"
            );
            assert!(!held.latching);
            assert_eq!(held.source, Some(held_source));
        }
    }
}

#[test]
fn agreeing_evidence_upgrades_the_latch_without_changing_the_face() {
    let confirmed = portrait_window_target_slot_by_evidence(
        Some(5),
        Some(PortraitSlotSource::SaveSlot),
        Some((5, PortraitSlotSource::UserPick)),
    );
    assert_eq!(confirmed.slot, Some(5));
    assert!(
        !confirmed.latching,
        "the face did not change; do not re-latch"
    );
    assert!(!confirmed.promoted_by_pick);
    assert_eq!(confirmed.source, Some(PortraitSlotSource::UserPick));

    let held = portrait_window_target_slot_by_evidence(
        confirmed.slot,
        confirmed.source,
        Some((7, PortraitSlotSource::RequestSlot)),
    );
    assert_eq!(
        held.slot,
        Some(5),
        "the upgraded latch is now pick-authority and nothing outranks it"
    );
}

#[test]
fn an_invalid_read_does_not_demote_an_established_latch() {
    let held =
        portrait_window_target_slot_by_evidence(Some(2), Some(PortraitSlotSource::UserPick), None);
    assert_eq!(held.slot, Some(2));
    assert_eq!(held.source, Some(PortraitSlotSource::UserPick));
    assert!(!held.latching);
}

#[test]
fn the_source_rank_wire_form_round_trips_and_zero_is_no_latch() {
    assert_eq!(PortraitSlotSource::from_rank(0), None);
    for source in [SaveSlot, RequestSlot, UserPick] {
        assert_eq!(PortraitSlotSource::from_rank(source.rank()), Some(source));
    }
    assert!(SaveSlot.rank() < RequestSlot.rank() && RequestSlot.rank() < UserPick.rank());
    assert_eq!(PortraitSlotSource::from_rank(usize::MAX), None);
}

#[test]
fn attribution_agrees_with_the_precedence_it_replaced() {
    for picker in [None, Some(-1), Some(4), Some(10)] {
        for request in [None, Some(-1), Some(5)] {
            for save in [None, Some(-1), Some(6)] {
                assert_eq!(
                    portrait_target_slot_attributed(picker, request, save, 10)
                        .map(|(slot, _)| slot),
                    portrait_target_slot_from_sources(picker, request, save, 10),
                    "picker={picker:?} request={request:?} save={save:?}"
                );
            }
        }
    }
    assert_eq!(
        portrait_target_slot_attributed(Some(4), Some(5), Some(6), 10),
        Some((4, PortraitSlotSource::UserPick))
    );
    assert_eq!(
        portrait_target_slot_attributed(Some(10), Some(5), Some(6), 10),
        Some((5, PortraitSlotSource::RequestSlot)),
        "an out-of-range picker falls through, it does not claim the answer"
    );
}

#[test]
fn the_legacy_pair_form_is_unchanged() {
    assert_eq!(portrait_window_target_slot(None, Some(3)), (Some(3), true));
    assert_eq!(
        portrait_window_target_slot(Some(0), Some(1)),
        (Some(0), false)
    );
    assert_eq!(portrait_window_target_slot(None, None), (None, false));
}

#[test]
fn a_picked_slot_other_than_zero_drives_the_stats_panel() {
    const SLOTS: i32 = 10;
    const SWITCH_UNSET: usize = usize::MAX;
    assert_eq!(
        loading_screen_stats_slot_source(SWITCH_UNSET, None, None, SLOTS),
        StatsSlotSource::BestActiveFallback
    );

    let boot = portrait_window_target_slot_authoritative(None, false, Some(0), false);
    assert_eq!(
        loading_screen_stats_slot_source(SWITCH_UNSET, boot.slot, None, SLOTS),
        StatsSlotSource::PortraitWindow(0)
    );

    let resolved = portrait_target_slot_from_sources(Some(1), Some(-1), Some(-1), SLOTS);
    let picked = portrait_window_target_slot_authoritative(boot.slot, false, resolved, true);
    assert!(picked.promoted_by_pick);
    assert_eq!(
        loading_screen_stats_slot_source(SWITCH_UNSET, picked.slot, None, SLOTS),
        StatsSlotSource::PortraitWindow(1),
        "the stats panel must describe the character the user picked, not the boot guess"
    );

    for slot in 1..SLOTS {
        let boot = portrait_window_target_slot_authoritative(None, false, Some(0), false);
        let picked = portrait_window_target_slot_authoritative(boot.slot, false, Some(slot), true);
        assert_eq!(
            loading_screen_stats_slot_source(SWITCH_UNSET, picked.slot, None, SLOTS),
            StatsSlotSource::PortraitWindow(slot)
        );
    }
}

#[test]
fn the_switch_selection_outranks_the_window_and_its_sentinels_do_not() {
    const SLOTS: i32 = 10;
    assert_eq!(
        loading_screen_stats_slot_source(3, Some(7), None, SLOTS),
        StatsSlotSource::SwitchSelection(3)
    );
    for sentinel in [
        usize::MAX,
        usize::MAX - 1,
        SLOTS as usize,
        i32::MAX as usize,
    ] {
        assert_eq!(
            loading_screen_stats_slot_source(sentinel, Some(7), None, SLOTS),
            StatsSlotSource::PortraitWindow(7),
            "sentinel {sentinel} must fall through, never resolve to a slot"
        );
    }
    assert_eq!(
        loading_screen_stats_slot_source(usize::MAX, Some(SLOTS), None, SLOTS),
        StatsSlotSource::BestActiveFallback
    );
    assert_eq!(
        loading_screen_stats_slot_source(usize::MAX, Some(-1), None, SLOTS),
        StatsSlotSource::BestActiveFallback
    );
}

#[test]
fn an_unresolved_window_latches_nothing() {
    assert_eq!(portrait_window_target_slot(None, None), (None, false));
    assert_eq!(portrait_window_target_slot(None, Some(3)), (Some(3), true));
}

const RUN_HELD_NAME_HASH: usize = 0x909a_2595_c413_a1b3;
const RUN_RECORD_FACE_HASH: usize = 0xbbd2_ad40_6f84_9c65;
const RUN_PREVIEW_FACE_HASH: usize = 0xc6af_b8c3_7ec7_b617;

#[test]
fn the_same_slot_repeat_hold_matches_even_when_the_record_is_wrong() {
    assert!(
        same_identity_bridge_hold(true, 1, RUN_HELD_NAME_HASH, 1, RUN_HELD_NAME_HASH),
        "a same-slot reselect always matches: this predicate compares one record with itself"
    );
}

#[test]
fn a_changed_name_or_slot_or_missing_head_still_clears() {
    assert!(!same_identity_bridge_hold(true, 1, 0xaaaa, 1, 0xbbbb));
    assert!(!same_identity_bridge_hold(true, 2, 0xaaaa, 1, 0xaaaa));
    assert!(!same_identity_bridge_hold(false, 1, 0xaaaa, 1, 0xaaaa));
    assert!(!same_identity_bridge_hold(true, 1, 0, 1, 0));
    assert!(!same_identity_bridge_hold(true, 0, 0xaaaa, 0, 0xaaaa));
}

#[test]
fn the_2026_08_22_face_mismatch_revokes_the_held_head() {
    let verdict = bridge_hold_face_verdict(1, 0, RUN_RECORD_FACE_HASH, RUN_PREVIEW_FACE_HASH);
    assert_eq!(verdict, BridgeHoldVerdict::Revoke);
    assert!(verdict.revokes());
}

#[test]
fn an_intact_record_does_not_revoke_a_legitimate_hold() {
    let verdict = bridge_hold_face_verdict(1, 0, RUN_PREVIEW_FACE_HASH, RUN_PREVIEW_FACE_HASH);
    assert_eq!(verdict, BridgeHoldVerdict::Unrefuted);
    assert!(!verdict.revokes());
}

#[test]
fn absent_or_unrelated_evidence_never_revokes() {
    assert_eq!(
        bridge_hold_face_verdict(0, 0, RUN_RECORD_FACE_HASH, RUN_PREVIEW_FACE_HASH),
        BridgeHoldVerdict::NoHold
    );
    assert_eq!(
        bridge_hold_face_verdict(1, 4, RUN_RECORD_FACE_HASH, RUN_PREVIEW_FACE_HASH),
        BridgeHoldVerdict::OtherSlot
    );
    assert_eq!(
        bridge_hold_face_verdict(1, -1, RUN_RECORD_FACE_HASH, RUN_PREVIEW_FACE_HASH),
        BridgeHoldVerdict::OtherSlot
    );
    assert_eq!(
        bridge_hold_face_verdict(1, 0, RUN_RECORD_FACE_HASH, 0),
        BridgeHoldVerdict::NoEvidence
    );
    for verdict in [
        BridgeHoldVerdict::NoHold,
        BridgeHoldVerdict::OtherSlot,
        BridgeHoldVerdict::NoEvidence,
    ] {
        assert!(!verdict.revokes());
    }
}

#[test]
fn a_hold_on_slot_zero_is_not_read_as_no_hold() {
    assert_eq!(
        bridge_hold_face_verdict(1, 0, RUN_RECORD_FACE_HASH, RUN_PREVIEW_FACE_HASH),
        BridgeHoldVerdict::Revoke
    );
    assert_eq!(
        bridge_hold_face_verdict(0, 0, RUN_RECORD_FACE_HASH, RUN_PREVIEW_FACE_HASH),
        BridgeHoldVerdict::NoHold,
        "tag 0 is 'no hold', never slot 0"
    );
}

#[test]
fn the_two_picker_labels_the_user_saw_are_not_characters() {
    assert_eq!(
        profile_record_character_verdict("[..] EldenRing", 0, 0),
        RecordCharacterVerdict::NoLevel
    );
    assert_eq!(
        profile_record_character_verdict("[ new ]", 0, 0),
        RecordCharacterVerdict::NoLevel
    );
    assert_eq!(
        profile_record_character_verdict("[..] EldenRing", 139, 0x0c01_0000),
        RecordCharacterVerdict::PickerRowLabel
    );
    assert_eq!(
        profile_record_character_verdict("[ new ]", 139, 0x0c01_0000),
        RecordCharacterVerdict::PickerRowLabel
    );
}

#[test]
fn the_remaining_picker_row_labels_are_refused_by_shape() {
    for label in [
        "[ .. up ]",
        "[ root ]",
        "[ SCROLL ^ ]",
        "[ SCROLL v ]",
        "[C:]",
        "saves/",
        "Z:\\",
    ] {
        assert_eq!(
            profile_record_character_verdict(label, 100, 0x0c01_0000),
            RecordCharacterVerdict::PickerRowLabel,
            "picker label {label:?} must not read as a character"
        );
    }
}

#[test]
fn a_zeroed_record_is_not_a_character() {
    assert_eq!(
        profile_record_character_verdict("", 0, 0),
        RecordCharacterVerdict::EmptyName
    );
    assert_eq!(
        profile_record_character_verdict("   ", 0, 0),
        RecordCharacterVerdict::EmptyName
    );
}

#[test]
fn a_real_character_passes_including_a_brand_new_one() {
    assert!(profile_record_character_verdict("Maddened Bean", 139, 0x0c01_0000).is_character());
    assert!(profile_record_character_verdict("Tarnished", 1, DEFAULT_MAP_C30).is_character());
    assert!(profile_record_character_verdict("Tarnished", 1, 0).is_character());
    assert!(profile_record_character_verdict("Ash[of]War", 60, 0x0c01_0000).is_character());
}

#[test]
fn a_populated_but_implausible_map_refutes_the_record() {
    assert_eq!(
        profile_record_character_verdict("Tarnished", 60, 0xd139_52aau32 as i32),
        RecordCharacterVerdict::ImplausibleMap
    );
    assert_eq!(
        profile_record_character_verdict("Tarnished", 60, 0x3e20_457cu32 as i32),
        RecordCharacterVerdict::ImplausibleMap
    );
}

#[test]
fn a_file_row_label_is_rejected_by_level_not_by_shape() {
    assert!(!name_looks_like_picker_row_label("ER0000.sl2"));
    assert_eq!(
        profile_record_character_verdict("ER0000.sl2", 0, 0),
        RecordCharacterVerdict::NoLevel
    );
}

fn character(name: &'static str, level: i32) -> LiveRecordSample<'static> {
    LiveRecordSample {
        occupied: true,
        name,
        level,
        map: 0x0c01_0000,
    }
}

fn empty_slot() -> LiveRecordSample<'static> {
    LiveRecordSample {
        occupied: false,
        name: "",
        level: 0,
        map: 0,
    }
}

fn staged_row(name: &'static str) -> LiveRecordSample<'static> {
    LiveRecordSample {
        occupied: true,
        name,
        level: 0,
        map: 0,
    }
}

#[test]
fn a_healthy_save_container_reports_no_orphaned_records() {
    let table = [
        character("Maddened Bean", 139),
        character("angrE", 90),
        character("Tarnished", 1),
        empty_slot(),
        empty_slot(),
        empty_slot(),
        empty_slot(),
        empty_slot(),
        empty_slot(),
        empty_slot(),
    ];
    let scan = scan_live_records(&table);
    assert_eq!(scan.orphaned_mask, 0);
    assert_eq!(
        scan.characters, 3,
        "the table is readable and holds three characters"
    );
}

#[test]
fn staged_browse_rows_left_behind_set_exactly_their_own_bits() {
    let table = [
        staged_row("[..] EldenRing"),
        staged_row("[ new ]"),
        staged_row("ER0000.sl2"),
        staged_row("saves/"),
        empty_slot(),
        empty_slot(),
        empty_slot(),
        empty_slot(),
        empty_slot(),
        empty_slot(),
    ];
    let scan = scan_live_records(&table);
    assert_eq!(
        scan.orphaned_mask, 0b1111,
        "the four staged rows, and only those"
    );
    assert_eq!(
        scan.characters, 0,
        "a fully staged table holds no character at all -- which is why the caller cannot use this \
         count alone to decide whether the table is worth judging"
    );
}

#[test]
fn an_unoccupied_slot_never_contributes_a_bit() {
    let table = [
        character("Maddened Bean", 139),
        LiveRecordSample {
            occupied: false,
            name: "[..] EldenRing",
            level: 0,
            map: 0,
        },
    ];
    assert_eq!(scan_live_records(&table).orphaned_mask, 0);
}

#[test]
fn a_record_naming_the_wrong_character_is_still_a_character() {
    let table = [
        character("Dark Moon Bean", 7),
        character("Maddened Bean", 139),
    ];
    assert_eq!(scan_live_records(&table).orphaned_mask, 0);
}

#[test]
fn an_empty_container_yields_neither_bits_nor_characters() {
    let scan = scan_live_records(&[empty_slot(); 10]);
    assert_eq!(scan.orphaned_mask, 0);
    assert_eq!(scan.characters, 0);
}

#[test]
fn the_configured_autoload_slot_beats_the_highest_level_scan() {
    const SLOTS: i32 = 10;
    const SWITCH_UNSET: usize = usize::MAX;
    assert_eq!(
        loading_screen_stats_slot_source(SWITCH_UNSET, None, Some(4), SLOTS),
        StatsSlotSource::ConfiguredAutoload(4),
        "the configured slot is the one the loader was told to use"
    );
    assert_eq!(
        loading_screen_stats_slot_source(SWITCH_UNSET, Some(2), Some(4), SLOTS),
        StatsSlotSource::PortraitWindow(2)
    );
    assert_eq!(
        loading_screen_stats_slot_source(6, Some(2), Some(4), SLOTS),
        StatsSlotSource::SwitchSelection(6)
    );
    assert_eq!(
        loading_screen_stats_slot_source(SWITCH_UNSET, None, None, SLOTS),
        StatsSlotSource::BestActiveFallback
    );
    for bad in [-1, SLOTS, i32::MIN, i32::MAX] {
        assert_eq!(
            loading_screen_stats_slot_source(SWITCH_UNSET, None, Some(bad), SLOTS),
            StatsSlotSource::BestActiveFallback,
            "configured slot {bad} is not a slot"
        );
    }
}
