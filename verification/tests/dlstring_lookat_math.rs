use er_loading_portrait_core::dlstring_lookat_math::{
    ascii_preview_byte, bounded_ascii_window_contains, copy_ascii_preview_bytes,
    portrait_renderer_table_entry, wide_ascii_preview_byte, wide_ascii_units_contain,
};

#[test]
fn the_renderer_table_entry_is_indexed_by_slot_and_falls_back_to_zero() {
    assert_eq!(portrait_renderer_table_entry(0x1_4000_0000, 0), 0x1_4000_0000 + 0x3d6d8d0);
    assert_eq!(portrait_renderer_table_entry(0x1_4000_0000, 9), 0x1_4000_0000 + 0x3d6d8d0 + 72);
    assert_eq!(portrait_renderer_table_entry(0x1_4000_0000, 10), 0x1_4000_0000 + 0x3d6d8d0);
    assert_eq!(portrait_renderer_table_entry(0x1_4000_0000, -1), 0x1_4000_0000 + 0x3d6d8d0);
}

#[test]
fn the_narrow_probe_matches_case_insensitively_within_its_window() {
    assert!(bounded_ascii_window_contains(b"MENU_Load_Screen", b"load"));
    assert!(!bounded_ascii_window_contains(b"MENU_Load_Screen", b"LOAD"), "the needle is not lowercased");
    assert!(!bounded_ascii_window_contains(b"abc", b""));
    assert!(!bounded_ascii_window_contains(b"ab", b"abc"));
    let long = [b'x'; 33];
    assert!(!bounded_ascii_window_contains(&long, &long), "a needle longer than the window never matches");
    let mut far = vec![b'.'; 80];
    far.extend_from_slice(b"Now");
    assert!(bounded_ascii_window_contains(&far, b"now"));
}

#[test]
fn the_wide_probe_folds_non_ascii_to_a_question_mark() {
    let units: Vec<u16> = "NowLoading".encode_utf16().collect();
    assert!(wide_ascii_units_contain(&units, b"nowloading"));
    let mixed: Vec<u16> = "a褪b".encode_utf16().collect();
    assert!(wide_ascii_units_contain(&mixed, b"a?b"));
    assert!(!wide_ascii_units_contain(&mixed, b""));
}

#[test]
fn previews_render_unprintable_bytes_as_question_marks_and_keep_a_terminator() {
    assert_eq!(ascii_preview_byte(b'A'), b'A');
    assert_eq!(ascii_preview_byte(b' '), b' ');
    assert_eq!(ascii_preview_byte(0x07), b'?');
    assert_eq!(ascii_preview_byte(0x80), b'?');
    assert_eq!(wide_ascii_preview_byte(0x7e), b'~');
    assert_eq!(wide_ascii_preview_byte(0x3042), b'?');
    let mut out = [0xffu8; 4];
    assert_eq!(copy_ascii_preview_bytes(b"hi\x01there", &mut out), 3);
    assert_eq!(out, [b'h', b'i', b'?', 0xff]);
    let mut empty: [u8; 0] = [];
    assert_eq!(copy_ascii_preview_bytes(b"abc", &mut empty), 0);
    let mut big = [0u8; 200];
    assert_eq!(copy_ascii_preview_bytes(&[b'z'; 150], &mut big), 80);
}
