use omarchy_bible::translation::{TranslationId, ViewMode};

#[test]
fn cuv1919_label_is_shen_edition() {
    assert_eq!(TranslationId::Cuv1919.label(), "和合本 1919 神版");
}

#[test]
fn view_mode_single_has_one_lane() {
    let mode = ViewMode::single(TranslationId::Cuv1919);
    assert_eq!(mode.lane_count(), 1);
    assert_eq!(mode.lanes(), vec![TranslationId::Cuv1919]);
    assert!(mode.is_single());
    assert_eq!(mode.header_label(), "和合本 1919 神版");

    let kjv = ViewMode::single(TranslationId::Kjv);
    assert_eq!(kjv.lane_count(), 1);
    assert_eq!(kjv.header_label(), "KJV");
}

#[test]
fn view_mode_compare_renders_n_lanes() {
    let two = ViewMode::compare(vec![TranslationId::Cuv1919, TranslationId::Kjv]);
    assert_eq!(two.lane_count(), 2);
    assert!(two.is_compare());
    assert_eq!(two.header_label(), "和合本 1919 神版 · KJV");

    // A third id is just another lane — UI iterates this vec.
    let three = ViewMode::Compare(vec![
        TranslationId::Cuv1919,
        TranslationId::Kjv,
        TranslationId::Cuv1919,
    ]);
    assert_eq!(three.lane_count(), 3);

    assert_eq!(
        ViewMode::compare(vec![]).lane_count(),
        2,
        "empty compare sanitizes to default"
    );
    assert!(ViewMode::compare(vec![TranslationId::Kjv]).is_single());
}

#[test]
fn sanitized_twice_is_sanitized_once() {
    for mode in [
        ViewMode::Compare(vec![]),
        ViewMode::Compare(vec![TranslationId::Kjv]),
        ViewMode::Compare(vec![TranslationId::Kjv, TranslationId::Cuv1919]),
        ViewMode::Single(TranslationId::Cuv1919),
    ] {
        let once = mode.clone().sanitized();
        let twice = once.clone().sanitized();
        assert_eq!(once, twice);
    }
    assert_eq!(
        ViewMode::Compare(vec![TranslationId::Kjv]).sanitized(),
        ViewMode::Single(TranslationId::Kjv)
    );
    assert_eq!(ViewMode::default().lanes(), TranslationId::all());
}

#[test]
fn translation_flags() {
    assert!(TranslationId::Cuv1919.is_cjk());
    assert!(!TranslationId::Kjv.is_cjk());
    assert_eq!(TranslationId::Kjv.label(), "KJV");
    assert_eq!(TranslationId::all(), vec![TranslationId::Cuv1919, TranslationId::Kjv]);
    assert_eq!(ViewMode::Compare(vec![]).header_label(), "");
}
