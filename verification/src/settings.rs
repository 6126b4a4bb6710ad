//! Reader settings, theme palettes, and reading an Omarchy `colors.toml`.

use vstd::prelude::*;

use crate::text;
use crate::text::{chars_of, parse_u32_slice_radix, slice_eq, trim_bounds};
use crate::translation;
use crate::translation::ViewMode;

verus! {

pub const FONT_MIN: u32 = 14;

pub const FONT_MAX: u32 = 28;

pub const FONT_DEFAULT: u32 = 18;

pub const FONT_SMALL: u32 = 14;

pub const FONT_MEDIUM: u32 = 18;

pub const FONT_LARGE: u32 = 22;

/// User preference. `System` follows the OS / Omarchy appearance.
#[derive(Debug, Clone, Copy, PartialEq, Eq, Structural)]
pub enum ThemePreference {
    Dark,
    Light,
    System,
}

impl Default for ThemePreference {
    fn default() -> (r: Self)
        ensures
            r == ThemePreference::Dark,
    {
        ThemePreference::Dark
    }
}

impl ThemePreference {
    /// `深色`, `淺色` or `跟隨系統`.
    pub fn label_zh(self) -> (r: &'static str)
        ensures
            r@ == (match self {
                ThemePreference::Dark => "深色"@,
                ThemePreference::Light => "淺色"@,
                ThemePreference::System => "跟隨系統"@,
            }),
    {
        match self {
            ThemePreference::Dark => "深色",
            ThemePreference::Light => "淺色",
            ThemePreference::System => "跟隨系統",
        }
    }
}

#[derive(Debug, Clone, PartialEq, Eq)]
pub struct AppSettings {
    pub theme: ThemePreference,
    pub font_size: u32,
    pub view_mode: ViewMode,
    /// When true, sidebar shows Traditional Chinese abbreviations (創／太／羅).
    pub sidebar_abbrev: bool,
}

impl Default for AppSettings {
    fn default() -> (r: Self)
        ensures
            r.theme == ThemePreference::Dark,
            r.font_size == FONT_DEFAULT,
            r.view_mode@ == translation::default_mode(),
            !r.sidebar_abbrev,
    {
        Self {
            theme: ThemePreference::Dark,
            font_size: FONT_DEFAULT,
            view_mode: ViewMode::default(),
            sidebar_abbrev: false,
        }
    }
}

/// `font_size.clamp(FONT_MIN, FONT_MAX)`.
pub open spec fn clamp_font(size: u32) -> u32 {
    if size < FONT_MIN {
        FONT_MIN
    } else if size > FONT_MAX {
        FONT_MAX
    } else {
        size
    }
}

impl AppSettings {
    /// Font size into `FONT_MIN..=FONT_MAX`, view mode sanitized; the rest unchanged.
    pub fn clamp(self) -> (r: Self)
        ensures
            r.theme == self.theme,
            r.font_size == clamp_font(self.font_size),
            r.view_mode@ == translation::sanitize_spec(self.view_mode@),
            r.sidebar_abbrev == self.sidebar_abbrev,
    {
        let font_size = if self.font_size < FONT_MIN {
            FONT_MIN
        } else if self.font_size > FONT_MAX {
            FONT_MAX
        } else {
            self.font_size
        };
        AppSettings {
            theme: self.theme,
            font_size,
            view_mode: self.view_mode.sanitized(),
            sidebar_abbrev: self.sidebar_abbrev,
        }
    }
}

/// Clamping puts the font size within `FONT_MIN..=FONT_MAX`, keeps a size already there,
/// and changes nothing the second time.
pub proof fn law_clamp_font(size: u32)
    ensures
        FONT_MIN <= clamp_font(size) <= FONT_MAX,
        FONT_MIN <= size <= FONT_MAX ==> clamp_font(size) == size,
        clamp_font(clamp_font(size)) == clamp_font(size),
{
}

/// `base` joined with the relative path `part`, as a path join does on Unix: no separator
/// after an empty base or one that already ends in `/`.
pub open spec fn path_join(base: Seq<char>, part: Seq<char>) -> Seq<char> {
    if base.len() == 0 {
        part
    } else if base.last() == '/' {
        base + part
    } else {
        base + "/"@ + part
    }
}

/// The settings directory: `~/Library/Application Support/omarchy-bible` on macOS;
/// elsewhere `$XDG_CONFIG_HOME/omarchy-bible`, else `~/.config/omarchy-bible`. Without a
/// home directory the base is relative.
pub open spec fn config_dir_spec(macos: bool, xdg_config_home: Option<Seq<char>>, home: Option<
    Seq<char>,
>) -> Seq<char> {
    let base = if macos {
        match home {
            Some(h) => path_join(h, "Library/Application Support"@),
            None => "Library/Application Support"@,
        }
    } else {
        match xdg_config_home {
            Some(x) => x,
            None => match home {
                Some(h) => path_join(h, ".config"@),
                None => ".config"@,
            },
        }
    };
    path_join(base, "omarchy-bible"@)
}

fn join_path(base: &str, part: &str) -> (r: String)
    ensures
        r@ == path_join(base@, part@),
{
    let n = base.unicode_len();
    let mut out = String::from_str(base);
    if n == 0 {
        return String::from_str(part);
    }
    if base.get_char(n - 1) != '/' {
        out.append("/");
    }
    out.append(part);
    out
}

/// The settings directory (see `config_dir_spec`). The caller hands in whether this is
/// macOS and the values of `XDG_CONFIG_HOME` and `HOME`.
pub fn config_dir(macos: bool, xdg_config_home: Option<&str>, home: Option<&str>) -> (r: String)
    ensures
        r@ == config_dir_spec(
            macos,
            match xdg_config_home {
                Some(x) => Some(x@),
                None => None,
            },
            match home {
                Some(h) => Some(h@),
                None => None,
            },
        ),
{
    let base = if macos {
        match home {
            Some(h) => join_path(h, "Library/Application Support"),
            None => String::from_str("Library/Application Support"),
        }
    } else {
        match xdg_config_home {
            Some(x) => String::from_str(x),
            None => match home {
                Some(h) => join_path(h, ".config"),
                None => String::from_str(".config"),
            },
        }
    };
    join_path(base.as_str(), "omarchy-bible")
}

impl AppSettings {
    /// Path of the settings file: `settings.json` in the settings directory.
    pub fn config_path(macos: bool, xdg_config_home: Option<&str>, home: Option<&str>) -> (r:
        String)
        ensures
            r@ == path_join(
                config_dir_spec(
                    macos,
                    match xdg_config_home {
                        Some(x) => Some(x@),
                        None => None,
                    },
                    match home {
                        Some(h) => Some(h@),
                        None => None,
                    },
                ),
                "settings.json"@,
            ),
    {
        let dir = config_dir(macos, xdg_config_home, home);
        join_path(dir.as_str(), "settings.json")
    }

    /// The settings that a read of the settings file gives: what parsed, clamped; the
    /// defaults when the file was missing or did not parse.
    pub fn load(parsed: Option<AppSettings>) -> (r: AppSettings)
        ensures
            match parsed {
                Some(p) => {
                    &&& r.theme == p.theme
                    &&& r.font_size == clamp_font(p.font_size)
                    &&& r.view_mode@ == translation::sanitize_spec(p.view_mode@)
                    &&& r.sidebar_abbrev == p.sidebar_abbrev
                },
                None => {
                    &&& r.theme == ThemePreference::Dark
                    &&& r.font_size == FONT_DEFAULT
                    &&& r.view_mode@ == translation::default_mode()
                    &&& !r.sidebar_abbrev
                },
            },
    {
        match parsed {
            Some(p) => p.clamp(),
            None => {
                let d = AppSettings::default();
                let r = d.clamp();
                assert(translation::sanitize_spec(translation::default_mode())
                    == translation::default_mode());
                r
            },
        }
    }
}

/// Short Chinese note shown in the settings panel, for macOS or elsewhere.
pub fn settings_location_note_zh(macos: bool) -> (r: &'static str)
    ensures
        r@ == (if macos {
            "設定儲存於 ~/Library/Application Support/omarchy-bible/settings.json"@
        } else {
            "設定儲存於 ~/.config/omarchy-bible/settings.json"@
        }),
{
    if macos {
        "設定儲存於 ~/Library/Application Support/omarchy-bible/settings.json"
    } else {
        "設定儲存於 ~/.config/omarchy-bible/settings.json"
    }
}

/// App chrome + verse colours. Dark is Tokyo Night; light is a paper/latte palette.
#[derive(Debug, Clone, Copy, PartialEq, Eq, Structural)]
pub struct Palette {
    pub bg: u32,
    pub bg_sidebar: u32,
    pub bg_hover: u32,
    pub fg: u32,
    pub fg_muted: u32,
    pub accent: u32,
    pub fg_primary: u32,
    pub border: u32,
}

pub open spec fn tokyo_night_spec() -> Palette {
    Palette {
        bg: 0x1a1b26,
        bg_sidebar: 0x16161e,
        bg_hover: 0x24283b,
        fg: 0xa9b1d6,
        fg_muted: 0x565f89,
        accent: 0x7aa2f7,
        fg_primary: 0xc0caf5,
        border: 0x292e42,
    }
}

pub open spec fn light_spec() -> Palette {
    Palette {
        bg: 0xeff1f5,
        bg_sidebar: 0xe6e9ef,
        bg_hover: 0xdce0e8,
        fg: 0x4c4f69,
        fg_muted: 0x8c8fa1,
        accent: 0x1e66f5,
        fg_primary: 0x4c4f69,
        border: 0xccd0da,
    }
}

impl Palette {
    /// Omarchy-like Tokyo Night.
    pub fn tokyo_night() -> (r: Self)
        ensures
            r == tokyo_night_spec(),
    {
        Self {
            bg: 0x1a1b26,
            bg_sidebar: 0x16161e,
            bg_hover: 0x24283b,
            fg: 0xa9b1d6,
            fg_muted: 0x565f89,
            accent: 0x7aa2f7,
            fg_primary: 0xc0caf5,
            border: 0x292e42,
        }
    }

    /// Readable light palette (Catppuccin Latte-inspired, not an invert).
    pub fn light() -> (r: Self)
        ensures
            r == light_spec(),
    {
        Self {
            bg: 0xeff1f5,
            bg_sidebar: 0xe6e9ef,
            bg_hover: 0xdce0e8,
            fg: 0x4c4f69,
            fg_muted: 0x8c8fa1,
            accent: 0x1e66f5,
            fg_primary: 0x4c4f69,
            border: 0xccd0da,
        }
    }
}

#[derive(Debug, Clone, Copy, PartialEq, Eq, Structural)]
pub enum ThemeSource {
    BuiltinDark,
    BuiltinLight,
    Omarchy,
    GpuiAppearance,
    FallbackDark,
}

impl ThemeSource {
    /// The note shown under the theme choice: where the system appearance came from.
    pub fn note_zh(self, dark: bool) -> (r: String)
        ensures
            r@ == (match self {
                ThemeSource::BuiltinDark | ThemeSource::BuiltinLight => Seq::<char>::empty(),
                ThemeSource::Omarchy => "系統外觀："@ + (if dark {
                    "深色"@
                } else {
                    "淺色"@
                }) + "（Omarchy）"@,
                ThemeSource::GpuiAppearance => "系統外觀："@ + (if dark {
                    "深色"@
                } else {
                    "淺色"@
                }) + "（視窗外觀）"@,
                ThemeSource::FallbackDark => "系統外觀無法偵測，已回退為深色"@,
            }),
    {
        let tone = if dark {
            "深色"
        } else {
            "淺色"
        };
        match self {
            ThemeSource::BuiltinDark | ThemeSource::BuiltinLight => String::new(),
            ThemeSource::Omarchy => {
                let mut s = String::from_str("系統外觀：");
                s.append(tone);
                s.append("（Omarchy）");
                s
            },
            ThemeSource::GpuiAppearance => {
                let mut s = String::from_str("系統外觀：");
                s.append(tone);
                s.append("（視窗外觀）");
                s
            },
            ThemeSource::FallbackDark => String::from_str("系統外觀無法偵測，已回退為深色"),
        }
    }
}

#[derive(Debug, Clone, Copy, PartialEq, Eq, Structural)]
pub struct ResolvedTheme {
    pub dark: bool,
    pub palette: Palette,
    pub source: ThemeSource,
}

/// What the current Omarchy theme directory says: light or dark, and its live colours when
/// `colors.toml` has them.
#[derive(Debug, Clone, Copy, PartialEq, Eq, Structural)]
pub struct OmarchyTheme {
    pub dark: bool,
    pub palette: Option<Palette>,
}

/// The built-in palette for a tone.
pub open spec fn builtin_palette(dark: bool) -> Palette {
    if dark {
        tokyo_night_spec()
    } else {
        light_spec()
    }
}

/// Theme resolution: a fixed preference picks its built-in palette; `System` prefers the
/// Omarchy theme, then the window appearance (`Some(dark)`), and falls back to dark.
pub open spec fn resolve_spec(
    pref: ThemePreference,
    omarchy: Option<OmarchyTheme>,
    appearance_dark: Option<bool>,
) -> ResolvedTheme {
    match pref {
        ThemePreference::Dark => ResolvedTheme {
            dark: true,
            palette: tokyo_night_spec(),
            source: ThemeSource::BuiltinDark,
        },
        ThemePreference::Light => ResolvedTheme {
            dark: false,
            palette: light_spec(),
            source: ThemeSource::BuiltinLight,
        },
        ThemePreference::System => match omarchy {
            Some(o) => ResolvedTheme {
                dark: o.dark,
                palette: match o.palette {
                    Some(p) => p,
                    None => builtin_palette(o.dark),
                },
                source: ThemeSource::Omarchy,
            },
            None => match appearance_dark {
                Some(d) => ResolvedTheme {
                    dark: d,
                    palette: builtin_palette(d),
                    source: ThemeSource::GpuiAppearance,
                },
                None => ResolvedTheme {
                    dark: true,
                    palette: tokyo_night_spec(),
                    source: ThemeSource::FallbackDark,
                },
            },
        },
    }
}

/// Resolve the theme to show for a preference, given what the Omarchy theme directory
/// and the window appearance report (each `None` when unavailable).
pub fn resolve_theme(
    pref: ThemePreference,
    omarchy: Option<OmarchyTheme>,
    appearance_dark: Option<bool>,
) -> (r: ResolvedTheme)
    ensures
        r == resolve_spec(pref, omarchy, appearance_dark),
{
    match pref {
        ThemePreference::Dark => ResolvedTheme {
            dark: true,
            palette: Palette::tokyo_night(),
            source: ThemeSource::BuiltinDark,
        },
        ThemePreference::Light => ResolvedTheme {
            dark: false,
            palette: Palette::light(),
            source: ThemeSource::BuiltinLight,
        },
        ThemePreference::System => match omarchy {
            Some(o) => ResolvedTheme {
                dark: o.dark,
                palette: match o.palette {
                    Some(p) => p,
                    None => if o.dark {
                        Palette::tokyo_night()
                    } else {
                        Palette::light()
                    },
                },
                source: ThemeSource::Omarchy,
            },
            None => match appearance_dark {
                Some(d) => ResolvedTheme {
                    dark: d,
                    palette: if d {
                        Palette::tokyo_night()
                    } else {
                        Palette::light()
                    },
                    source: ThemeSource::GpuiAppearance,
                },
                None => ResolvedTheme {
                    dark: true,
                    palette: Palette::tokyo_night(),
                    source: ThemeSource::FallbackDark,
                },
            },
        },
    }
}

// ---------------------------------------------------------------------------------------
// colors.toml
// ---------------------------------------------------------------------------------------

/// The index of the first `\n` in `s`, or its length when there is none.
pub open spec fn first_newline(s: Seq<char>) -> int
    decreases s.len(),
{
    if s.len() == 0 {
        0
    } else if s[0] == '\n' {
        0
    } else {
        1 + first_newline(s.drop_first())
    }
}

pub proof fn lemma_first_newline_bounds(s: Seq<char>)
    ensures
        0 <= first_newline(s) <= s.len(),
    decreases s.len(),
{
    if s.len() > 0 && s[0] != '\n' {
        lemma_first_newline_bounds(s.drop_first());
    }
}

proof fn lemma_first_newline_at(s: Seq<char>, i: int)
    requires
        0 <= i <= s.len(),
        forall|k: int| 0 <= k < i ==> s[k] != '\n',
        i == s.len() || s[i] == '\n',
    ensures
        first_newline(s) == i,
    decreases i,
{
    if i > 0 {
        let t = s.drop_first();
        assert forall|k: int| 0 <= k < i - 1 implies t[k] != '\n' by {
            assert(t[k] == s[k + 1]);
        }
        if i - 1 < t.len() {
            assert(t[i - 1] == s[i]);
        }
        lemma_first_newline_at(t, i - 1);
    }
}

/// A line without its line ending: one `\r` dropped from its end.
pub open spec fn strip_cr(line: Seq<char>) -> Seq<char> {
    if line.len() > 0 && line.last() == '\r' {
        line.drop_last()
    } else {
        line
    }
}

/// `str::lines`: split at `\n`, dropping one `\r` before it; a last line without `\n` is
/// kept as it is; the empty string has no lines.
pub open spec fn lines(s: Seq<char>) -> Seq<Seq<char>>
    decreases s.len(),
{
    if s.len() == 0 {
        Seq::empty()
    } else {
        let i = first_newline(s);
        proof {
            lemma_first_newline_bounds(s);
        }
        if i < s.len() {
            seq![strip_cr(s.take(i))] + lines(s.skip(i + 1))
        } else {
            seq![s]
        }
    }
}

/// `str::trim_matches(c)`: every leading and trailing `c` removed.
pub open spec fn trim_matches(s: Seq<char>, c: char) -> Seq<char>
    decreases s.len(),
{
    if s.len() > 0 && s[0] == c {
        trim_matches(s.drop_first(), c)
    } else if s.len() > 0 && s.last() == c {
        trim_matches(s.drop_last(), c)
    } else {
        s
    }
}

/// A TOML value with its surrounding spaces and quotes removed.
pub open spec fn unquote(v: Seq<char>) -> Seq<char> {
    trim_matches(trim_matches(text::trim(v), '"'), '\'')
}

/// `str::split_once('=')`: the text before and after the first `=`.
pub open spec fn split_eq(line: Seq<char>) -> Option<(Seq<char>, Seq<char>)> {
    match text::find(line, seq!['=']) {
        Some(i) => Some((line.take(i), line.skip(i + 1))),
        None => None,
    }
}

/// What the first `mode = …` line (outside comments) says: `light` → `Some(true)`,
/// `dark` → `Some(false)`, anything else `None`; `None` without such a line.
pub open spec fn mode_of_lines(ls: Seq<Seq<char>>) -> Option<bool>
    decreases ls.len(),
{
    if ls.len() == 0 {
        None
    } else {
        let line = text::trim(ls[0]);
        if line.len() > 0 && line[0] == '#' {
            mode_of_lines(ls.drop_first())
        } else {
            match split_eq(line) {
                None => mode_of_lines(ls.drop_first()),
                Some((key, value)) => if text::trim(key) != "mode"@ {
                    mode_of_lines(ls.drop_first())
                } else {
                    let v = unquote(value);
                    if v == "light"@ {
                        Some(true)
                    } else if v == "dark"@ {
                        Some(false)
                    } else {
                        None
                    }
                },
            }
        }
    }
}

/// `colors.toml` `mode = "light" | "dark"`.
pub open spec fn colors_toml_mode_spec(text: Seq<char>) -> Option<bool> {
    mode_of_lines(lines(text))
}

/// `"#rrggbb"` (quotes and `#` optional) as a number; `None` unless six hex digits remain.
pub open spec fn hex_rgb_spec(value: Seq<char>) -> Option<u32> {
    let v = unquote(value);
    let hex = if v.len() > 0 && v[0] == '#' {
        v.drop_first()
    } else {
        v
    };
    if hex.len() != 6 {
        None
    } else {
        text::parse_u32_radix(hex, 16)
    }
}

/// The `key = #rrggbb` assignments of `ls`, in order, skipping blank and comment lines
/// and values that are not colours.
pub open spec fn color_entries(ls: Seq<Seq<char>>) -> Seq<(Seq<char>, u32)>
    decreases ls.len(),
{
    if ls.len() == 0 {
        Seq::empty()
    } else {
        let line = text::trim(ls[0]);
        let rest = color_entries(ls.drop_first());
        if line.len() == 0 || line[0] == '#' {
            rest
        } else {
            match split_eq(line) {
                None => rest,
                Some((key, value)) => match hex_rgb_spec(value) {
                    Some(hex) => seq![(text::trim(key), hex)] + rest,
                    None => rest,
                },
            }
        }
    }
}

/// The colour last assigned to `key`.
pub open spec fn last_color(entries: Seq<(Seq<char>, u32)>, key: Seq<char>) -> Option<u32>
    decreases entries.len(),
{
    if entries.len() == 0 {
        None
    } else if entries.last().0 == key {
        Some(entries.last().1)
    } else {
        last_color(entries.drop_last(), key)
    }
}

/// `a`, else `b`.
pub open spec fn or_else(a: Option<u32>, b: Option<u32>) -> Option<u32> {
    match a {
        Some(x) => Some(x),
        None => b,
    }
}

/// A palette from `colors.toml`: `background`, `foreground` and `accent` (or `blue`) are
/// needed; the other roles fall back to them.
pub open spec fn palette_spec(text: Seq<char>) -> Option<Palette> {
    let e = color_entries(lines(text));
    let hover = or_else(last_color(e, "darker_background"@), last_color(e, "lighter_background"@));
    match (
        last_color(e, "background"@),
        last_color(e, "foreground"@),
        or_else(last_color(e, "accent"@), last_color(e, "blue"@)),
    ) {
        (Some(bg), Some(fg), Some(accent)) => Some(
            Palette {
                bg,
                bg_sidebar: last_color(e, "dark_background"@).unwrap_or(bg),
                bg_hover: hover.unwrap_or(bg),
                fg,
                fg_muted: last_color(e, "dark_foreground"@).unwrap_or(fg),
                accent,
                fg_primary: or_else(
                    last_color(e, "bright_foreground"@),
                    last_color(e, "light_foreground"@),
                ).unwrap_or(fg),
                border: hover.unwrap_or(bg),
            },
        ),
        _ => None,
    }
}

/// A palette is read exactly when `colors.toml` gives a background, a foreground, and an
/// accent or a blue; its accent is the last `accent` given, the last `blue` only when
/// there is no `accent`; background and foreground are the last ones given, and the
/// other roles fall back to them.
pub proof fn law_palette_roles(text: Seq<char>)
    ensures
        ({
            let e = color_entries(lines(text));
            &&& palette_spec(text) is Some <==> (last_color(e, "background"@) is Some
                && last_color(e, "foreground"@) is Some && (last_color(e, "accent"@) is Some
                || last_color(e, "blue"@) is Some))
            &&& palette_spec(text) matches Some(p) ==> {
                &&& last_color(e, "background"@) == Some(p.bg)
                &&& last_color(e, "foreground"@) == Some(p.fg)
                &&& (last_color(e, "accent"@) matches Some(a) ==> p.accent == a)
                &&& (last_color(e, "accent"@) is None ==> last_color(e, "blue"@) == Some(p.accent))
                &&& (last_color(e, "dark_background"@) is None ==> p.bg_sidebar == p.bg)
                &&& (last_color(e, "dark_background"@) matches Some(c) ==> p.bg_sidebar == c)
                &&& (last_color(e, "dark_foreground"@) is None ==> p.fg_muted == p.fg)
                &&& (last_color(e, "dark_foreground"@) matches Some(c) ==> p.fg_muted == c)
                &&& p.border == p.bg_hover
            }
        }),
{
}

/// The lines of `s` as character vectors.
pub fn split_lines(s: &[char]) -> (r: Vec<Vec<char>>)
    ensures
        r.deep_view() == lines(s@),
{
    let n = s.len();
    let mut out: Vec<Vec<char>> = Vec::new();
    let mut start: usize = 0;
    assert(s@.skip(0) =~= s@);
    assert(out.deep_view() + lines(s@.skip(0)) =~= lines(s@));
    while start < n
        invariant
            start <= n,
            n == s@.len(),
            out.deep_view() + lines(s@.skip(start as int)) == lines(s@),
        decreases n - start,
    {
        let ghost rest = s@.skip(start as int);
        let mut j: usize = start;
        while j < n && s[j] != '\n'
            invariant
                start <= j <= n,
                n == s@.len(),
                forall|k: int| start <= k < j ==> s@[k] != '\n',
            decreases n - j,
        {
            j = j + 1;
        }
        proof {
            assert forall|k: int| 0 <= k < j - start implies rest[k] != '\n' by {
                assert(rest[k] == s@[start + k]);
            }
            if j < n {
                assert(rest[j - start] == s@[j as int]);
            }
            lemma_first_newline_at(rest, j - start);
        }
        let ghost before = out.deep_view();
        if j < n {
            let mut end = j;
            if end > start && s[end - 1] == '\r' {
                end = end - 1;
            }
            let line = vstd::slice::slice_to_vec(vstd::slice::slice_subrange(s, start, end));
            out.push(line);
            proof {
                let l0 = rest.take(j - start);
                assert(l0 =~= s@.subrange(start as int, j as int));
                assert(line@ =~= strip_cr(l0));
                assert(line.deep_view() =~= line@);
                assert(rest.skip(j - start + 1) =~= s@.skip(j + 1));
                assert(out.deep_view() =~= before.push(strip_cr(l0)));
                assert(lines(rest) == seq![strip_cr(l0)] + lines(rest.skip(j - start + 1)));
                assert(out.deep_view() + lines(s@.skip(j + 1)) =~= before + lines(rest));
            }
            start = j + 1;
        } else {
            let line = vstd::slice::slice_to_vec(vstd::slice::slice_subrange(s, start, n));
            out.push(line);
            proof {
                assert(line@ =~= rest);
                assert(line.deep_view() =~= line@);
                assert(lines(rest) == seq![rest]);
                assert(out.deep_view() =~= before + lines(rest));
                assert(s@.skip(n as int) =~= Seq::<char>::empty());
                assert(out.deep_view() + lines(s@.skip(n as int)) =~= out.deep_view());
            }
            start = n;
        }
    }
    assert(s@.skip(n as int) =~= Seq::<char>::empty());
    assert(out.deep_view() + lines(s@.skip(n as int)) =~= out.deep_view());
    out
}

fn trim_matches_slice(s: &[char], c: char) -> (r: &[char])
    ensures
        r@ == trim_matches(s@, c),
{
    let n = s.len();
    let mut a: usize = 0;
    assert(s@.skip(0) =~= s@);
    while a < n && s[a] == c
        invariant
            a <= n,
            n == s@.len(),
            trim_matches(s@, c) == trim_matches(s@.skip(a as int), c),
        decreases n - a,
    {
        proof {
            assert(s@.skip(a as int).drop_first() =~= s@.skip(a + 1));
        }
        a = a + 1;
    }
    let mut b: usize = n;
    assert(s@.subrange(a as int, n as int) =~= s@.skip(a as int));
    while b > a && s[b - 1] == c
        invariant
            a <= b <= n,
            n == s@.len(),
            a == n || s@[a as int] != c,
            trim_matches(s@, c) == trim_matches(s@.subrange(a as int, b as int), c),
        decreases b - a,
    {
        proof {
            let t = s@.subrange(a as int, b as int);
            assert(t.drop_last() =~= s@.subrange(a as int, b - 1));
            assert(t[0] == s@[a as int]);
        }
        b = b - 1;
    }
    proof {
        let t = s@.subrange(a as int, b as int);
        if t.len() > 0 {
            assert(t[0] == s@[a as int]);
            assert(t.last() == s@[b - 1]);
        }
    }
    vstd::slice::slice_subrange(s, a, b)
}

fn unquote_slice(v: &[char]) -> (r: &[char])
    ensures
        r@ == unquote(v@),
{
    let (a, b) = trim_bounds(v);
    let t = vstd::slice::slice_subrange(v, a, b);
    let t = trim_matches_slice(t, '"');
    trim_matches_slice(t, '\'')
}

fn split_eq_slice(line: &[char]) -> (r: Option<(&[char], &[char])>)
    ensures
        match r {
            Some((k, v)) => split_eq(line@) == Some((k@, v@)),
            None => split_eq(line@) is None,
        },
{
    let eq: Vec<char> = vec!['='];
    assert(eq@ =~= seq!['=']);
    match crate::text::find_slice(line, eq.as_slice()) {
        Some(i) => {
            assert(crate::text::occurs_at(line@, eq@, i as int));
            let ll = line.len();
            assert(i + 1 <= ll);
            let k = vstd::slice::slice_subrange(line, 0, i);
            let v = vstd::slice::slice_subrange(line, i + 1, ll);
            assert(k@ =~= line@.take(i as int));
            assert(v@ =~= line@.skip(i + 1));
            Some((k, v))
        },
        None => None,
    }
}

/// `#rrggbb` (optionally quoted) as a number.
pub fn parse_hex_rgb(value: &str) -> (r: Option<u32>)
    ensures
        r == hex_rgb_spec(value@),
{
    let c = chars_of(value);
    parse_hex_rgb_slice(c.as_slice())
}

fn parse_hex_rgb_slice(value: &[char]) -> (r: Option<u32>)
    ensures
        r == hex_rgb_spec(value@),
{
    let v = unquote_slice(value);
    let hex = if v.len() > 0 && v[0] == '#' {
        let h = vstd::slice::slice_subrange(v, 1, v.len());
        assert(h@ =~= v@.drop_first());
        h
    } else {
        v
    };
    if hex.len() != 6 {
        return None;
    }
    parse_u32_slice_radix(hex, 16)
}

fn literal_chars(s: &str) -> (r: Vec<char>)
    ensures
        r@ == s@,
{
    chars_of(s)
}

/// `colors.toml` `mode`: `Some(true)` for light, `Some(false)` for dark.
pub fn colors_toml_mode(text: &str) -> (r: Option<bool>)
    ensures
        r == colors_toml_mode_spec(text@),
{
    let c = chars_of(text);
    let ls = split_lines(c.as_slice());
    let mode = literal_chars("mode");
    let light = literal_chars("light");
    let dark = literal_chars("dark");
    let ghost lv = ls.deep_view();
    let mut i: usize = 0;
    assert(lv.skip(0) =~= lv);
    while i < ls.len()
        invariant
            i <= lv.len(),
            lv == ls.deep_view(),
            lv == lines(text@),
            mode@ == "mode"@,
            light@ == "light"@,
            dark@ == "dark"@,
            mode_of_lines(lv) == mode_of_lines(lv.skip(i as int)),
        decreases lv.len() - i,
    {
        let ghost rest = lv.skip(i as int);
        assert(rest[0] == ls@[i as int]@);
        assert(rest.drop_first() =~= lv.skip(i + 1));
        let raw = ls[i].as_slice();
        let (a, b) = trim_bounds(raw);
        let line = vstd::slice::slice_subrange(raw, a, b);
        if line.len() > 0 && line[0] == '#' {
            i = i + 1;
            continue;
        }
        match split_eq_slice(line) {
            None => {
                i = i + 1;
                continue;
            },
            Some((key, value)) => {
                let (ka, kb) = trim_bounds(key);
                let k = vstd::slice::slice_subrange(key, ka, kb);
                if !slice_eq(k, mode.as_slice()) {
                    i = i + 1;
                    continue;
                }
                let v = unquote_slice(value);
                if slice_eq(v, light.as_slice()) {
                    return Some(true);
                } else if slice_eq(v, dark.as_slice()) {
                    return Some(false);
                } else {
                    return None;
                }
            },
        }
    }
    None
}

fn last_color_exec(entries: &Vec<(Vec<char>, u32)>, key: &str) -> (r: Option<u32>)
    ensures
        r == last_color(entries.deep_view(), key@),
{
    let k = chars_of(key);
    let ghost ev = entries.deep_view();
    let mut n: usize = entries.len();
    assert(ev.take(n as int) =~= ev);
    while n > 0
        invariant
            n <= entries@.len(),
            ev == entries.deep_view(),
            k@ == key@,
            last_color(ev, key@) == last_color(ev.take(n as int), key@),
        decreases n,
    {
        let ghost p = ev.take(n as int);
        assert(p.drop_last() =~= ev.take(n - 1));
        assert(p.last() == (entries@[n - 1].0@, entries@[n - 1].1));
        if slice_eq(entries[n - 1].0.as_slice(), k.as_slice()) {
            return Some(entries[n - 1].1);
        }
        n = n - 1;
    }
    None
}

fn or_else_exec(a: Option<u32>, b: Option<u32>) -> (r: Option<u32>)
    ensures
        r == or_else(a, b),
{
    match a {
        Some(x) => Some(x),
        None => b,
    }
}

/// Live colours from an Omarchy `colors.toml`, when it names at least a background, a
/// foreground and an accent.
pub fn palette_from_colors_toml(text: &str) -> (r: Option<Palette>)
    ensures
        r == palette_spec(text@),
{
    let c = chars_of(text);
    let ls = split_lines(c.as_slice());
    let ghost lv = ls.deep_view();
    let mut entries: Vec<(Vec<char>, u32)> = Vec::new();
    let mut i: usize = 0;
    assert(lv.skip(0) =~= lv);
    assert(entries.deep_view() + color_entries(lv.skip(0)) =~= color_entries(lv));
    while i < ls.len()
        invariant
            i <= lv.len(),
            lv == ls.deep_view(),
            lv == lines(text@),
            color_entries(lv) == entries.deep_view() + color_entries(lv.skip(i as int)),
        decreases lv.len() - i,
    {
        let ghost rest = lv.skip(i as int);
        assert(rest[0] == ls@[i as int]@);
        assert(rest.drop_first() =~= lv.skip(i + 1));
        let ghost before = entries.deep_view();
        let raw = ls[i].as_slice();
        let (a, b) = trim_bounds(raw);
        let line = vstd::slice::slice_subrange(raw, a, b);
        if line.len() > 0 && line[0] != '#' {
            match split_eq_slice(line) {
                Some((key, value)) => match parse_hex_rgb_slice(value) {
                    Some(hex) => {
                        let (ka, kb) = trim_bounds(key);
                        let k = vstd::slice::slice_to_vec(vstd::slice::slice_subrange(key, ka, kb));
                        entries.push((k, hex));
                        proof {
                            assert(k.deep_view() =~= k@);
                            assert(entries.deep_view() =~= before.push((k@, hex)));
                            assert(color_entries(rest) == seq![(k@, hex)] + color_entries(
                                lv.skip(i + 1),
                            ));
                            assert(before + (seq![(k@, hex)] + color_entries(lv.skip(i + 1)))
                                =~= entries.deep_view() + color_entries(lv.skip(i + 1)));
                        }
                    },
                    None => {},
                },
                None => {},
            }
        }
        i = i + 1;
    }
    assert(lv.skip(lv.len() as int) =~= Seq::<Seq<char>>::empty());
    assert(entries.deep_view() + Seq::<(Seq<char>, u32)>::empty() =~= entries.deep_view());
    let bg = last_color_exec(&entries, "background");
    let fg = last_color_exec(&entries, "foreground");
    let accent = or_else_exec(last_color_exec(&entries, "accent"), last_color_exec(&entries, "blue"));
    let hover = or_else_exec(
        last_color_exec(&entries, "darker_background"),
        last_color_exec(&entries, "lighter_background"),
    );
    match (bg, fg, accent) {
        (Some(bg), Some(fg), Some(accent)) => {
            let sidebar = match last_color_exec(&entries, "dark_background") {
                Some(x) => x,
                None => bg,
            };
            let hov = match hover {
                Some(x) => x,
                None => bg,
            };
            let muted = match last_color_exec(&entries, "dark_foreground") {
                Some(x) => x,
                None => fg,
            };
            let primary = match or_else_exec(
                last_color_exec(&entries, "bright_foreground"),
                last_color_exec(&entries, "light_foreground"),
            ) {
                Some(x) => x,
                None => fg,
            };
            Some(
                Palette {
                    bg,
                    bg_sidebar: sidebar,
                    bg_hover: hov,
                    fg,
                    fg_muted: muted,
                    accent,
                    fg_primary: primary,
                    border: hov,
                },
            )
        },
        _ => None,
    }
}

/// The Omarchy theme from what its current theme directory holds: a `light.mode` marker
/// means light; else `colors.toml`'s `mode`; else dark. Its colours come from
/// `colors.toml` when that names them.
pub fn omarchy_theme_from(light_marker: bool, colors: Option<&str>) -> (r: OmarchyTheme)
    ensures
        r.dark == (if light_marker {
            false
        } else {
            match colors {
                Some(t) => match colors_toml_mode_spec(t@) {
                    Some(is_light) => !is_light,
                    None => true,
                },
                None => true,
            }
        }),
        r.palette == (match colors {
            Some(t) => palette_spec(t@),
            None => None,
        }),
{
    let toml_mode = match colors {
        Some(t) => colors_toml_mode(t),
        None => None,
    };
    let dark = if light_marker {
        false
    } else {
        match toml_mode {
            Some(is_light) => !is_light,
            None => true,
        }
    };
    let palette = match colors {
        Some(t) => palette_from_colors_toml(t),
        None => None,
    };
    OmarchyTheme { dark, palette }
}

/// What the Omarchy theme directory shows of its modification times, in milliseconds
/// since the Unix epoch: the directory's, `colors.toml`'s when it has one, and whether it
/// holds a `light.mode` marker.
#[derive(Debug, Clone, Copy, PartialEq, Eq, Structural)]
pub struct ThemeDirStamps {
    pub dir_mtime: Option<u128>,
    pub colors_mtime: Option<u128>,
    pub light_marker: bool,
}

/// The stamp of a theme directory: its time (0 when unknown), plus `colors.toml`'s time,
/// plus one for a light marker, each addition saturating.
pub open spec fn stamp_spec(d: ThemeDirStamps) -> u128 {
    let base: u128 = match d.dir_mtime {
        Some(m) => m,
        None => 0,
    };
    let with_colors: u128 = match d.colors_mtime {
        Some(m) => base.saturating_add(m),
        None => base,
    };
    if d.light_marker {
        with_colors.saturating_add(1)
    } else {
        with_colors
    }
}

/// Cheap stamp so the UI can poll Omarchy theme switches: `None` where there is no
/// Omarchy theme directory (and off Linux, where none is looked for).
pub fn omarchy_stamp(dir: Option<ThemeDirStamps>) -> (r: Option<u128>)
    ensures
        r == (match dir {
            Some(d) => Some(stamp_spec(d)),
            None => None,
        }),
{
    match dir {
        None => None,
        Some(d) => {
            let mut stamp: u128 = match d.dir_mtime {
                Some(m) => m,
                None => 0,
            };
            match d.colors_mtime {
                Some(m) => {
                    stamp = stamp.saturating_add(m);
                },
                None => {},
            }
            if d.light_marker {
                stamp = stamp.saturating_add(1);
            }
            Some(stamp)
        },
    }
}

} // verus!
