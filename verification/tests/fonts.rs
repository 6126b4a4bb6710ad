use omarchy_bible::fonts::{cjk_font_candidates, pick_cjk_font};

fn names(v: &[&str]) -> Vec<String> {
    v.iter().map(|s| s.to_string()).collect()
}

#[test]
fn candidates_by_platform() {
    assert_eq!(cjk_font_candidates(false).len(), 6);
    assert_eq!(cjk_font_candidates(false)[0], "Noto Serif CJK TC");
    let mac = cjk_font_candidates(true);
    assert_eq!(mac.len(), 9);
    assert_eq!(&mac[..3], &["PingFang TC", "Songti TC", "Heiti TC"]);
}

#[test]
fn preferred_family_wins_ignoring_case() {
    let installed = names(&["Noto Sans CJK TC", "noto serif cjk tc"]);
    assert_eq!(pick_cjk_font(false, &installed), "Noto Serif CJK TC");
    let installed = names(&["Songti TC", "PingFang TC"]);
    assert_eq!(pick_cjk_font(true, &installed), "PingFang TC");
    assert_eq!(pick_cjk_font(false, &installed), "Songti TC", "off macOS only the name test finds it");
}

#[test]
fn cjk_looking_names_then_sans_serif() {
    assert_eq!(pick_cjk_font(false, &names(&["DejaVu", "Foo CJK TC Bold"])), "Foo CJK TC Bold");
    assert_eq!(pick_cjk_font(false, &names(&["DejaVu Sans"])), "sans-serif");
    assert_eq!(pick_cjk_font(true, &[]), "sans-serif");
}
