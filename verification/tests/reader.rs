use omarchy_bible::bible::{Bible, FileAlignedBook, FileAlignedChapter, FileAlignedVerse, FileStore};
use omarchy_bible::catalog::{canon, Testament};
use omarchy_bible::hebrew::{HebrewStore, HebrewWord, OT_BOOK_COUNT};
use omarchy_bible::json::JsonValue;
use omarchy_bible::reader::{
    default_hebrew_detail_section, hebrew_opt_or_dash, word_detail_rows, BibleView,
    HebrewDetailSection,
    BOOK_GRID_PAGE_SIZE, SEARCH_DISPLAY_CAP,
};
use omarchy_bible::selection::VerseUnit;
use omarchy_bible::settings::{AppSettings, ThemePreference, FONT_MAX, FONT_MIN};
use omarchy_bible::translation::{TranslationId, ViewMode};

fn verse(n: u32, zh: &str, en: &str) -> FileAlignedVerse {
    FileAlignedVerse { n, zh: zh.to_string(), en: en.to_string() }
}

fn chapter(c: u32, verses: u32, zh: &str, en: &str) -> FileAlignedChapter {
    FileAlignedChapter {
        c,
        v: (1..=verses)
            .map(|n| verse(n, &format!("{zh}{c}章{n}節，神說。"), &format!("{en} {c}:{n} and God said.")))
            .collect(),
    }
}

fn book(osis: &str, id: u32, chapters: Vec<FileAlignedChapter>) -> FileAlignedBook {
    FileAlignedBook { book: osis.to_string(), book_id: id, chapters }
}

/// Genesis (2 chapters), Exodus (1) and Matthew (3).
fn store() -> FileStore {
    FileStore {
        books: vec![
            book("Gen", 1, vec![chapter(1, 3, "創", "Gen"), chapter(2, 2, "創", "Gen")]),
            book("Exod", 2, vec![chapter(1, 2, "出", "Exod")]),
            book(
                "Matt",
                40,
                vec![chapter(1, 2, "太", "Matt"), chapter(2, 2, "太", "Matt"), chapter(3, 4, "太", "Matt")],
            ),
        ],
    }
}

fn hebrew() -> HebrewStore {
    let word = |t: &str, s: &str, m: &str| {
        JsonValue::Array(vec![
            JsonValue::Str(t.to_string()),
            JsonValue::Str(s.to_string()),
            JsonValue::Str(m.to_string()),
        ])
    };
    let mut members = Vec::new();
    for meta in canon().into_iter().take(OT_BOOK_COUNT) {
        let value = if meta.osis == "Gen" {
            JsonValue::Array(vec![JsonValue::Array(vec![JsonValue::Array(vec![
                word("בְּרֵאשִׁית", "b/H7225", "HR/Ncfsa"),
                word("בָּרָא", " ", "HVqp3ms"),
                JsonValue::Array(vec![JsonValue::Str("אֵת".to_string())]),
            ])])])
        } else {
            JsonValue::Array(vec![])
        };
        members.push((meta.osis.to_string(), value));
    }
    HebrewStore::from_json(&JsonValue::Object(members)).unwrap()
}

fn reader() -> BibleView {
    let bible = Bible::from_store(store(), hebrew()).unwrap();
    BibleView::new(bible, AppSettings::default()).unwrap()
}

fn at(r: &BibleView) -> (usize, u32) {
    (r.book_index(), r.chapter().chapter)
}

#[test]
fn opens_on_the_first_chapter() {
    let r = reader();
    assert_eq!(at(&r), (0, 1));
    assert_eq!(r.chapter().book, "Gen");
    let p = r.panels();
    assert!(!p.settings_open && !p.search_open && !p.select_mode);
    assert_eq!(p.book_picker_testament, Testament::Old);
    assert!(r.selected_units().is_empty());
    assert_eq!(r.search_total(), 0);
    // A store without books cannot open.
    let empty = Bible::from_store(FileStore { books: vec![book("Gen", 1, vec![])] }, HebrewStore::empty())
        .unwrap();
    assert!(BibleView::new(empty, AppSettings::default()).is_err());
}

#[test]
fn chapter_turns_cross_books() {
    let mut r = reader();
    r.prev_chapter();
    assert_eq!(at(&r), (0, 1), "nothing before Genesis 1");
    r.next_chapter();
    assert_eq!(at(&r), (0, 2));
    r.next_chapter();
    assert_eq!(at(&r), (1, 1), "Genesis 2 → Exodus 1");
    r.prev_chapter();
    assert_eq!(at(&r), (0, 2), "Exodus 1 → Genesis 2");
    r.next_chapter();
    r.next_chapter();
    assert_eq!(at(&r), (2, 1));
    r.goto_chapter(3);
    assert_eq!(at(&r), (2, 3));
    r.next_chapter();
    assert_eq!(at(&r), (2, 3), "nothing after the last chapter");
    r.goto_chapter(9);
    assert_eq!(at(&r), (2, 3), "a missing chapter does not move");
    // An open search holds the turns.
    r.open_search();
    r.prev_chapter();
    assert_eq!(at(&r), (2, 3));
    assert!(r.close_search());
    r.prev_chapter();
    assert_eq!(at(&r), (2, 2));
    r.select_book(1);
    assert_eq!(at(&r), (1, 1));
}

#[test]
fn esc_closes_the_innermost_panel() {
    let mut r = reader();
    r.toggle_settings();
    r.open_search();
    r.open_hebrew_view(1);
    r.toggle_chapter_picker();
    assert!(r.close_settings());
    assert_eq!(r.panels().hebrew_verse, None);
    assert_eq!(r.panels().highlight_verse, Some(1));
    assert!(r.close_settings());
    assert!(!r.panels().chapter_picker_open);
    let seq = r.panels().search_seq;
    assert!(r.close_settings());
    assert!(!r.panels().search_open);
    assert_eq!(r.panels().search_seq, seq + 1);
    assert!(r.close_settings());
    assert!(!r.panels().settings_open);
    assert!(!r.close_settings());
    r.toggle_select_mode();
    assert!(r.panels().select_mode);
    assert!(!r.close_settings(), "leaving select mode keeps the focus");
    assert!(!r.panels().select_mode);
}

#[test]
fn select_mode_taps_and_copy() {
    let mut r = reader();
    r.on_verse_select(1, TranslationId::Kjv);
    assert!(r.selected_units().is_empty(), "taps count only in select mode");
    r.toggle_select_mode();
    r.on_verse_select(1, TranslationId::Kjv);
    r.on_verse_select(3, TranslationId::Kjv);
    assert_eq!(
        r.selected_units(),
        vec![
            VerseUnit::new(1, TranslationId::Kjv),
            VerseUnit::new(2, TranslationId::Kjv),
            VerseUnit::new(3, TranslationId::Kjv)
        ]
    );
    r.on_verse_select(2, TranslationId::Cuv1919);
    let text = r.copy_selection().unwrap();
    assert_eq!(
        text,
        "創世記 1:2（和合本 1919 神版）\n2 創1章2節，神說。\n\nGenesis 1:1–3 (KJV)\n1 Gen 1:1 and God said.\n2 Gen 1:2 and God said.\n3 Gen 1:3 and God said.\n"
    );
    // Showing only CUV drops the KJV units.
    r.set_view_mode(ViewMode::single(TranslationId::Cuv1919));
    assert_eq!(r.selected_units(), vec![VerseUnit::new(2, TranslationId::Cuv1919)]);
    r.on_verse_select(1, TranslationId::Kjv);
    assert_eq!(r.selected_units().len(), 1, "a lane off screen ignores taps");
    r.toggle_select_mode();
    assert!(r.selected_units().is_empty());
    assert_eq!(r.copy_selection(), None);
    // Moving to another chapter clears the selection.
    r.toggle_select_mode();
    r.on_verse_select(1, TranslationId::Cuv1919);
    r.next_chapter();
    assert!(r.selected_units().is_empty());
}

#[test]
fn typed_references_jump() {
    let mut r = reader();
    assert!(r.submit_jump("出 1:2"));
    assert_eq!(at(&r), (1, 1));
    assert_eq!(r.panels().highlight_verse, Some(2));
    assert_eq!(r.panels().pending_scroll_verse, Some(2));
    // Matthew's number (40) is past the three loaded books.
    assert!(!r.submit_jump("太 99"));
    // Leviticus' number (3) points at Matthew, and no book here is Leviticus.
    assert!(!r.submit_jump("利 1"));
    assert!(!r.submit_jump("約 3:16"), "John is not loaded");
    assert!(!r.submit_jump("xyz 1"));
    assert!(!r.submit_jump(""));
    assert_eq!(at(&r), (1, 1));
    assert_eq!(r.take_scroll_target(), Some(1));
    assert_eq!(r.take_scroll_target(), None, "the scroll happens once");
    assert!(r.submit_jump("Gen 99:3"));
    assert_eq!(at(&r), (0, 2), "the chapter is kept within the book");
    assert_eq!(r.take_scroll_target(), None, "Genesis 2 has no verse 3");
    assert!(r.submit_jump("Gen 1:3"));
    assert_eq!(r.take_scroll_target(), Some(2));
}

#[test]
fn typed_references_find_a_book_out_of_place() {
    let files = FileStore {
        books: vec![
            book("Exod", 2, vec![chapter(1, 2, "出", "Exod")]),
            book("Gen", 1, vec![chapter(1, 3, "創", "Gen")]),
        ],
    };
    let bible = Bible::from_store(files, HebrewStore::empty()).unwrap();
    let mut r = BibleView::new(bible, AppSettings::default()).unwrap();
    assert_eq!(r.chapter().book, "Exod");
    // Genesis' number points at Exodus; the OSIS id finds Genesis second.
    assert!(r.submit_jump("創 1:2"));
    assert_eq!(at(&r), (1, 1));
    assert_eq!(r.chapter().book, "Gen");
    // Exodus' number (2) points at Genesis; Exodus is found first.
    assert!(r.submit_jump("Exod 5"));
    assert_eq!(at(&r), (0, 1));
}

#[test]
fn search_is_debounced_and_capped() {
    let mut r = reader();
    r.open_search();
    assert_eq!(r.on_search_input_change("   "), None);
    let seq = r.on_search_input_change("god").unwrap();
    assert!(r.search_still_wanted(seq));
    let later = r.on_search_input_change("God said").unwrap();
    assert!(!r.search_still_wanted(seq), "a later change drops the pending search");
    assert!(r.search_still_wanted(later));
    r.run_search("God said");
    // Fifteen verses, one hit each.
    assert_eq!(r.search_total(), 15);
    assert_eq!(r.search_hits().len(), 15);
    assert!(r.search_hits().len() <= SEARCH_DISPLAY_CAP);
    assert_eq!(r.search_status(false), "15 筆");
    assert_eq!(r.search_status(true), "輸入關鍵字（預設搜尋目前譯本）");
    r.run_search("nothing like this");
    assert_eq!(r.search_status(false), "沒有符合的經文");
    r.set_search_all_lanes(true, "太3章4節");
    assert_eq!(r.search_total(), 1);
    assert!(r.jump_first_search_hit());
    assert_eq!(at(&r), (2, 3));
    assert_eq!(r.panels().highlight_verse, Some(4));
    assert!(!r.panels().search_open);
    assert!(!r.search_still_wanted(later));
    r.on_search_input_change("");
    assert!(!r.jump_first_search_hit());
}

#[test]
fn book_picker_pages() {
    let mut r = reader();
    r.toggle_chapter_picker();
    r.open_book_picker();
    let p = r.panels();
    assert!(p.book_picker_open && !p.chapter_picker_open);
    assert_eq!(p.book_picker_testament, Testament::Old);
    assert_eq!(p.book_picker_page, 0);
    assert_eq!(r.book_picker_page_count(), 1);
    let books: Vec<&str> = r.book_picker_page_books().iter().map(|e| e.meta.osis).collect();
    assert_eq!(books, vec!["Gen", "Exod"]);
    r.shift_book_picker_page(-1);
    assert_eq!(r.panels().book_picker_page, 0);
    r.set_book_picker_testament(Testament::New);
    let books: Vec<&str> = r.book_picker_page_books().iter().map(|e| e.meta.osis).collect();
    assert_eq!(books, vec!["Matt"]);
    r.open_book_picker();
    assert!(!r.panels().book_picker_open);
    r.select_book(2);
    r.open_book_picker();
    assert_eq!(r.panels().book_picker_testament, Testament::New);
    assert_eq!(BOOK_GRID_PAGE_SIZE, 16);
}

#[test]
fn book_picker_wraps_over_full_canon() {
    let books = canon()
        .into_iter()
        .map(|m| book(m.osis, m.book_id, vec![chapter(1, 1, m.name_zh_short, m.osis)]))
        .collect();
    let bible = Bible::from_store(FileStore { books }, HebrewStore::empty()).unwrap();
    let mut r = BibleView::new(bible, AppSettings::default()).unwrap();
    r.select_book(65);
    r.open_book_picker();
    assert_eq!(r.panels().book_picker_testament, Testament::New);
    assert_eq!(r.book_picker_page_count(), 2);
    assert_eq!(r.panels().book_picker_page, 1, "Revelation is the 27th New Testament book");
    assert_eq!(r.book_picker_page_books().len(), 11);
    r.shift_book_picker_page(1);
    assert_eq!(r.panels().book_picker_page, 0);
    r.shift_book_picker_page(-3);
    assert_eq!(r.panels().book_picker_page, 1);
    r.set_book_picker_page(0);
    assert_eq!(r.book_picker_page_books().len(), 16);
    r.set_book_picker_testament(Testament::Old);
    assert_eq!(r.book_picker_page_count(), 3);
    r.shift_book_picker_page(2);
    assert_eq!(r.panels().book_picker_page, 2);
    r.shift_book_picker_page(-2);
    assert_eq!(r.panels().book_picker_page, 0, "turning back undoes the turn");
    assert_eq!(r.book_chip_label(), "新約 · 啟");
}

#[test]
fn hebrew_word_panel() {
    let mut r = reader();
    r.open_hebrew_view(1);
    assert_eq!(r.hebrew_view_title(), "創世記 1:1 · 希伯來文");
    r.select_hebrew_word(0);
    assert_eq!(r.panels().hebrew_word_idx, Some(0));
    assert_eq!(r.panels().hebrew_detail_section, Some(HebrewDetailSection::Strongs));
    r.select_hebrew_word(1);
    assert_eq!(r.panels().hebrew_detail_section, Some(HebrewDetailSection::Morph));
    r.select_hebrew_word(2);
    assert_eq!(r.panels().hebrew_detail_section, None);
    r.select_hebrew_word(2);
    assert_eq!(r.panels().hebrew_word_idx, None);
    r.select_hebrew_word(0);
    r.toggle_hebrew_detail_section(HebrewDetailSection::Pos);
    assert_eq!(r.panels().hebrew_detail_section, Some(HebrewDetailSection::Pos));
    r.toggle_hebrew_detail_section(HebrewDetailSection::Pos);
    assert_eq!(r.panels().hebrew_detail_section, None);
    r.close_hebrew_view();
    assert_eq!(r.panels().hebrew_word_idx, None);
    assert_eq!(r.panels().highlight_verse, Some(1));
}

#[test]
fn hebrew_field_helpers() {
    assert_eq!(hebrew_opt_or_dash(&Some("  H7225 ".to_string())), "H7225");
    assert_eq!(hebrew_opt_or_dash(&Some("   ".to_string())), "—");
    assert_eq!(hebrew_opt_or_dash(&None), "—");
    let w = HebrewWord { text: "x".to_string(), strongs: Some(" ".to_string()), morph: Some("HC".to_string()) };
    assert_eq!(default_hebrew_detail_section(&w), Some(HebrewDetailSection::Morph));
    let w = HebrewWord { text: "x".to_string(), strongs: None, morph: None };
    assert_eq!(default_hebrew_detail_section(&w), None);
}

#[test]
fn settings_changes_are_clamped() {
    let mut r = reader();
    r.bump_font(100);
    assert_eq!(r.settings().font_size, FONT_MAX);
    r.bump_font(-1);
    assert_eq!(r.settings().font_size, FONT_MAX - 1);
    r.set_font_size(1);
    assert_eq!(r.settings().font_size, FONT_MIN);
    r.set_theme_pref(ThemePreference::Light);
    assert_eq!(r.settings().theme, ThemePreference::Light);
    r.set_view_mode(ViewMode::Compare(vec![]));
    assert_eq!(r.settings().view_mode.lane_count(), 2);
    assert_eq!(r.chapter_position_label(), "1/2");
}

#[test]
fn word_panel_rows_and_words() {
    let w = HebrewWord {
        text: "x".to_string(),
        strongs: Some(" b/H7225 ".to_string()),
        morph: Some(" HR/Ncfsa".to_string()),
    };
    assert_eq!(
        word_detail_rows(&w),
        vec![
            (HebrewDetailSection::Strongs, "b/H7225".to_string()),
            (HebrewDetailSection::Morph, "HR/Ncfsa".to_string()),
            (HebrewDetailSection::Pos, "名詞".to_string()),
        ]
    );
    let w = HebrewWord { text: "x".to_string(), strongs: None, morph: Some("HXx".to_string()) };
    assert_eq!(word_detail_rows(&w), vec![(HebrewDetailSection::Morph, "HXx".to_string())]);
    let w = HebrewWord { text: "x".to_string(), strongs: Some("".to_string()), morph: None };
    assert!(word_detail_rows(&w).is_empty());

    let mut r = reader();
    assert_eq!(r.hebrew_panel_words().len(), 3, "verse 1 when none is set");
    r.open_hebrew_view(2);
    assert!(r.hebrew_panel_words().is_empty());
    r.select_hebrew_word(1);
    assert_eq!(r.selected_hebrew_word(), None, "verse 2 has no words");
    r.open_hebrew_view(1);
    r.select_hebrew_word(2);
    assert_eq!(r.selected_hebrew_word(), Some(2));
    assert_eq!(r.hebrew_panel_words()[0].text, "בְּרֵאשִׁית");
    assert_eq!(r.hebrew_original_line(), "בְּרֵאשִׁית בָּרָא אֵת");
    r.open_hebrew_view(2);
    assert_eq!(r.hebrew_original_line(), "（無 MorphHB 資料）");
}

#[test]
fn view_mode_chips() {
    let mut r = reader();
    assert_eq!(r.current_single_lane(), TranslationId::Cuv1919);
    r.toggle_select_mode();
    r.on_verse_select(1, TranslationId::Kjv);
    r.on_verse_select(1, TranslationId::Cuv1919);
    r.choose_single_mode();
    assert_eq!(r.settings().view_mode, ViewMode::Single(TranslationId::Cuv1919));
    assert_eq!(r.selected_units(), vec![VerseUnit::new(1, TranslationId::Cuv1919)]);
    r.set_view_mode(ViewMode::Compare(vec![TranslationId::Kjv, TranslationId::Cuv1919]));
    assert_eq!(r.current_single_lane(), TranslationId::Kjv);
    r.choose_compare_mode();
    assert_eq!(r.settings().view_mode.lanes(), vec![TranslationId::Cuv1919, TranslationId::Kjv]);
    assert_eq!(r.selected_units(), vec![VerseUnit::new(1, TranslationId::Cuv1919)]);
}
