use omarchy_bible::settings::{
    colors_toml_mode, config_dir, omarchy_theme_from, palette_from_colors_toml, parse_hex_rgb, resolve_theme,
    omarchy_stamp, settings_location_note_zh, AppSettings, OmarchyTheme, Palette,
    ThemeDirStamps, ThemePreference, ThemeSource, FONT_DEFAULT, FONT_MAX, FONT_MIN,
};
use omarchy_bible::translation::{TranslationId, ViewMode};

#[test]
fn colors_toml_mode_and_palette() {
    let light = "mode = \"light\"\nbackground = \"#eff1f5\"\nforeground = \"#4c4f69\"\naccent = \"#1e66f5\"\n";
    assert_eq!(colors_toml_mode(light), Some(true));
    let pal = palette_from_colors_toml(light).expect("palette");
    assert_eq!(pal.bg, 0xeff1f5);
    assert_eq!(pal.accent, 0x1e66f5);
    assert_eq!(colors_toml_mode("mode = \"dark\"\n"), Some(false));
    assert_eq!(colors_toml_mode("accent = \"#fff\"\n"), None);
}

#[test]
fn colors_toml_details() {
    // Comments are skipped, the first mode line decides, quotes of either kind go.
    assert_eq!(colors_toml_mode("# mode = light\nmode='dark'\nmode = \"light\""), Some(false));
    assert_eq!(colors_toml_mode("mode = purple\nmode = light"), None);
    assert_eq!(colors_toml_mode("  mode=light\r\n"), Some(true));
    assert_eq!(colors_toml_mode(""), None);
    let t = "background = '#000001'\nforeground = 000002\nblue = \"#000003\"\nbackground = \"#000004\"\nlighter_background = \"#000005\"\nbright_foreground=#000006\n";
    let p = palette_from_colors_toml(t).unwrap();
    assert_eq!(
        p,
        Palette {
            bg: 4,
            bg_sidebar: 4,
            bg_hover: 5,
            fg: 2,
            fg_muted: 2,
            accent: 3,
            fg_primary: 6,
            border: 5,
        }
    );
    assert_eq!(palette_from_colors_toml("background = \"#000001\"\n"), None);
    assert_eq!(parse_hex_rgb(" \"#1A2b3C\" "), Some(0x1a2b3c));
    assert_eq!(parse_hex_rgb("#fff"), None);
    assert_eq!(parse_hex_rgb("#gggggg"), None);
    assert_eq!(parse_hex_rgb("+fffff"), Some(0xfffff));
}

#[test]
fn settings_clamp_and_defaults() {
    let d = AppSettings::default();
    assert_eq!(d.theme, ThemePreference::Dark);
    assert_eq!(d.font_size, FONT_DEFAULT);
    assert!(d.view_mode.is_compare());
    assert_eq!(d.view_mode.lane_count(), 2);

    let huge = AppSettings {
        theme: ThemePreference::Light,
        font_size: 99,
        view_mode: ViewMode::Compare(vec![]),
        sidebar_abbrev: false,
    }
    .clamp();
    assert_eq!(huge.font_size, FONT_MAX);
    assert_eq!(huge.view_mode.lane_count(), 2);

    let tiny = AppSettings {
        theme: ThemePreference::Dark,
        font_size: 1,
        view_mode: ViewMode::single(TranslationId::Cuv1919),
        sidebar_abbrev: true,
    }
    .clamp();
    assert_eq!(tiny.font_size, FONT_MIN);
    assert!(tiny.sidebar_abbrev);
    assert_eq!(ThemePreference::System.label_zh(), "跟隨系統");
}

#[test]
fn theme_resolution_order() {
    let dark = resolve_theme(ThemePreference::Dark, None, Some(false));
    assert_eq!((dark.dark, dark.palette, dark.source), (true, Palette::tokyo_night(), ThemeSource::BuiltinDark));
    let light = resolve_theme(ThemePreference::Light, None, None);
    assert_eq!((light.dark, light.palette, light.source), (false, Palette::light(), ThemeSource::BuiltinLight));
    let o = OmarchyTheme { dark: false, palette: None };
    let sys = resolve_theme(ThemePreference::System, Some(o), Some(true));
    assert_eq!((sys.dark, sys.palette, sys.source), (false, Palette::light(), ThemeSource::Omarchy));
    let sys = resolve_theme(ThemePreference::System, None, Some(false));
    assert_eq!(sys.source, ThemeSource::GpuiAppearance);
    assert!(!sys.dark);
    let sys = resolve_theme(ThemePreference::System, None, None);
    assert_eq!((sys.dark, sys.source), (true, ThemeSource::FallbackDark));
    assert_eq!(ThemeSource::Omarchy.note_zh(true), "系統外觀：深色（Omarchy）");
    assert_eq!(ThemeSource::GpuiAppearance.note_zh(false), "系統外觀：淺色（視窗外觀）");
    assert_eq!(ThemeSource::BuiltinDark.note_zh(true), "");
    assert_eq!(ThemeSource::FallbackDark.note_zh(true), "系統外觀無法偵測，已回退為深色");
}

#[test]
fn omarchy_theme_from_marker_and_colors() {
    let t = omarchy_theme_from(true, Some("mode = dark"));
    assert!(!t.dark);
    let t = omarchy_theme_from(false, Some("mode = light\nbackground=#000001\nforeground=#000002\naccent=#000003"));
    assert!(!t.dark);
    assert_eq!(t.palette.unwrap().accent, 3);
    let t = omarchy_theme_from(false, None);
    assert!(t.dark);
    assert_eq!(t.palette, None);
    assert!(settings_location_note_zh(true).contains("Application Support"));
    assert!(settings_location_note_zh(false).contains(".config"));
}

#[test]
fn config_path_follows_platform_and_environment() {
    assert_eq!(
        AppSettings::config_path(true, Some("/x"), Some("/Users/me")),
        "/Users/me/Library/Application Support/omarchy-bible/settings.json"
    );
    assert_eq!(
        AppSettings::config_path(true, None, None),
        "Library/Application Support/omarchy-bible/settings.json"
    );
    assert_eq!(
        AppSettings::config_path(false, Some("/xdg/"), Some("/home/me")),
        "/xdg/omarchy-bible/settings.json"
    );
    assert_eq!(
        AppSettings::config_path(false, None, Some("/home/me")),
        "/home/me/.config/omarchy-bible/settings.json"
    );
    assert_eq!(AppSettings::config_path(false, None, None), ".config/omarchy-bible/settings.json");
    assert_eq!(AppSettings::config_path(false, Some(""), None), "omarchy-bible/settings.json");
    assert_eq!(config_dir(false, None, Some("/home/me/")), "/home/me/.config/omarchy-bible");
    let linux = AppSettings::config_path(false, None, Some("/home/me"));
    assert!(!linux.contains(".local/state/omarchy"));
}

#[test]
fn load_clamps_or_falls_back_to_defaults() {
    let d = AppSettings::load(None);
    assert_eq!(d.theme, ThemePreference::Dark);
    assert_eq!(d.font_size, FONT_DEFAULT);
    assert_eq!(d.view_mode.lane_count(), 2);
    let parsed = AppSettings {
        theme: ThemePreference::System,
        font_size: 3,
        view_mode: ViewMode::Compare(vec![TranslationId::Kjv]),
        sidebar_abbrev: true,
    };
    let s = AppSettings::load(Some(parsed));
    assert_eq!(s.theme, ThemePreference::System);
    assert_eq!(s.font_size, FONT_MIN);
    assert_eq!(s.view_mode, ViewMode::Single(TranslationId::Kjv));
    assert!(s.sidebar_abbrev);
}

#[test]
fn omarchy_stamp_adds_times_and_marker() {
    assert_eq!(omarchy_stamp(None), None);
    let d = ThemeDirStamps { dir_mtime: Some(1000), colors_mtime: Some(20), light_marker: true };
    assert_eq!(omarchy_stamp(Some(d)), Some(1021));
    let d = ThemeDirStamps { dir_mtime: None, colors_mtime: None, light_marker: false };
    assert_eq!(omarchy_stamp(Some(d)), Some(0));
    let d = ThemeDirStamps { dir_mtime: Some(u128::MAX), colors_mtime: Some(5), light_marker: true };
    assert_eq!(omarchy_stamp(Some(d)), Some(u128::MAX));
}
