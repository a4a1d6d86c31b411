use er_loading_portrait_core::profile_row_label::{
    expand_row_header, row_header_label, RowHeaderValues, MARKER_CHARACTER_NAME,
    MARKER_RUNE_LEVEL, MARKER_WEAPON_LEVEL, SHIPPED_ROW_HEADER_TEMPLATE,
};
#[test]
fn the_shipped_template_renders_name_level_and_weapon_level() {
    let v = RowHeaderValues::from_name("Maddened Bean")
        .with_rune_level(125)
        .with_weapon_level(25);
    assert_eq!(row_header_label(&v), "Maddened Bean, RL 125 WL 25");
}

#[test]
fn an_unknown_weapon_level_drops_its_group_without_trailing_space() {
    let v = RowHeaderValues::from_name("Maddened Bean").with_rune_level(125);
    assert_eq!(row_header_label(&v), "Maddened Bean, RL 125");
}

#[test]
fn an_unknown_level_leaves_the_bare_name() {
    let v = RowHeaderValues::from_name("Maddened Bean");
    assert_eq!(row_header_label(&v), "Maddened Bean");
}

#[test]
fn a_group_drops_entirely_when_any_marker_inside_it_is_unresolved() {
    let v = RowHeaderValues::from_name("Bean");
    assert_eq!(
        expand_row_header("%character_name[ RL %rune_level]", &v),
        "Bean"
    );
    assert_eq!(
        expand_row_header(
            "[%rune_level and %weapon_level]",
            &RowHeaderValues::default()
        ),
        ""
    );
}

#[test]
fn weapon_level_zero_renders_but_absent_weapon_level_does_not() {
    let base = RowHeaderValues::from_name("Bean").with_rune_level(1);
    assert_eq!(row_header_label(&base), "Bean, RL 1");
    assert_eq!(
        row_header_label(&base.clone().with_weapon_level(0)),
        "Bean, RL 1 WL 0"
    );
}

#[test]
fn implausible_values_are_refused_rather_than_rendered() {
    let v = RowHeaderValues::from_name("Bean")
        .with_rune_level(0)
        .with_weapon_level(26);
    assert_eq!(v.rune_level, None);
    assert_eq!(v.weapon_level, None);
    assert_eq!(row_header_label(&v), "Bean");

    let hi = RowHeaderValues::from_name("Bean")
        .with_rune_level(714)
        .with_weapon_level(-1);
    assert_eq!(hi.rune_level, None);
    assert_eq!(hi.weapon_level, None);

    let edges = RowHeaderValues::from_name("Bean")
        .with_rune_level(713)
        .with_weapon_level(25);
    assert_eq!(edges.rune_level, Some(713));
    assert_eq!(edges.weapon_level, Some(25));
}

#[test]
fn multibyte_names_and_templates_survive_expansion() {
    let v = RowHeaderValues::from_name("褪せ人・ツリー").with_rune_level(150);
    assert_eq!(row_header_label(&v), "褪せ人・ツリー, RL 150");
    assert_eq!(expand_row_header("★[ ☆%rune_level ☆]★", &v), "★ ☆150 ☆★");
}

#[test]
fn malformed_templates_degrade_instead_of_panicking() {
    let v = RowHeaderValues::from_name("Bean").with_rune_level(9);
    assert_eq!(
        expand_row_header("%character_name[ RL %rune_level", &v),
        "Bean RL 9"
    );
    assert_eq!(expand_row_header("%character_name]", &v), "Bean]");
    assert_eq!(expand_row_header("", &v), "");
    assert_eq!(expand_row_header("[]", &v), "");
    assert_eq!(expand_row_header("[literal]", &v), "literal");
}

#[test]
fn an_unresolved_marker_never_renders_its_own_name() {
    let out = expand_row_header("%character_name %rune_level", &RowHeaderValues::default());
    assert!(!out.contains('%'), "marker text leaked to the row: {out:?}");
    assert_eq!(out, " ");
}

#[test]
fn markers_are_matched_longest_first() {
    let v = RowHeaderValues::from_name("Bean")
        .with_rune_level(7)
        .with_weapon_level(3);
    assert_eq!(
        expand_row_header("%rune_level/%weapon_level/%character_name", &v),
        "7/3/Bean"
    );
}

#[test]
fn the_shipped_template_spells_its_markers() {
    assert_eq!(SHIPPED_ROW_HEADER_TEMPLATE, "%character_name[, RL %rune_level][ WL %weapon_level]");
    assert_eq!(MARKER_CHARACTER_NAME, "%character_name");
    assert_eq!(MARKER_RUNE_LEVEL, "%rune_level");
    assert_eq!(MARKER_WEAPON_LEVEL, "%weapon_level");
}

#[test]
fn a_weapon_level_without_a_rune_level_keeps_only_its_own_group() {
    let v = RowHeaderValues::from_name("Bean").with_weapon_level(12);
    assert_eq!(row_header_label(&v), "Bean WL 12");
    let nameless = RowHeaderValues::default().with_rune_level(40);
    assert_eq!(row_header_label(&nameless), ", RL 40");
}

#[test]
fn a_literal_group_and_an_unclosed_bracket_around_markers() {
    let v = RowHeaderValues::from_name("Bean");
    assert_eq!(expand_row_header("[%rune_level", &v), "");
    assert_eq!(expand_row_header("a[b]c]d", &v), "abc]d");
    assert_eq!(expand_row_header("%rune_lev", &v), "%rune_lev");
    assert_eq!(expand_row_header("%%character_name", &v), "%Bean");
}

#[test]
fn a_negative_or_large_level_renders_its_sign_and_digits() {
    let v = RowHeaderValues {
        character_name: None,
        rune_level: Some(-7),
        weapon_level: Some(1_000_000),
    };
    assert_eq!(expand_row_header("%rune_level/%weapon_level", &v), "-7/1000000");
}
