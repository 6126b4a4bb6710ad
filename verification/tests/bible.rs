use omarchy_bible::bible::{
    align_chapter, load_aligned_chapter, Bible, FileAlignedBook, FileAlignedChapter,
    FileAlignedVerse, FileBook, FileBookChapter, FileBookVerse, FileChapter, FileStore, FileVerse, LoadError,
};
use omarchy_bible::catalog::{canon, Testament};
use omarchy_bible::chapter::{Chapter, Verse};
use omarchy_bible::hebrew::{has_hebrew_notes, HebrewStore, OT_BOOK_COUNT};
use omarchy_bible::json::JsonValue;
use omarchy_bible::selection::{
    apply_verse_tap, format_ref_en, format_ref_zh, format_selection_summary, format_verse_copy,
    selected_verse_range, translation_short_label, VerseSelection, VerseUnit,
};
use omarchy_bible::translation::TranslationId;

const GEN_1_1_ZH: &str = "起初，神創造天地。";
const GEN_1_1_EN: &str = "In the beginning God created the heaven and the earth.";
const JOHN_3_16_ZH: &str = "神愛世人，甚至將他的獨生子賜給他們，叫一切信他的，不至滅亡，反得永生。";
const JOHN_3_16_EN: &str = "For God so loved the world, that he gave his only begotten Son, that whosoever believeth in him should not perish, but have everlasting life.";
const JOHN_3_17_ZH: &str = "因為神差他的兒子降世，不是要定世人的罪，乃是要叫世人因他得救。";
const JOHN_3_17_EN: &str = "For God sent not his Son into the world to condemn the world; but that the world through him might be saved.";
const JOHN_3_18_ZH: &str = "信他的人，不被定罪；不信的人，罪已經定了，因為他不信神獨生子的名。";
const JOHN_3_18_EN: &str = "He that believeth on him is not condemned: but he that believeth not is condemned already, because he hath not believed in the name of the only begotten Son of God.";

/// Chapter counts of the 66 books, Genesis first.
const CHAPTERS: [u32; 66] = [
    50, 40, 27, 36, 34, 24, 21, 4, 31, 24, 22, 25, 29, 36, 10, 13, 10, 42, 150, 31, 12, 8, 66,
    52, 5, 48, 12, 14, 3, 9, 1, 4, 7, 3, 3, 3, 2, 14, 4, 28, 16, 24, 21, 28, 16, 16, 13, 6, 6,
    4, 4, 5, 3, 6, 4, 3, 1, 13, 5, 5, 3, 5, 1, 1, 1, 22,
];

fn verse(n: u32, zh: &str, en: &str) -> FileAlignedVerse {
    FileAlignedVerse { n, zh: zh.to_string(), en: en.to_string() }
}

fn chapter_verses(osis: &str, c: u32) -> Vec<FileAlignedVerse> {
    match (osis, c) {
        ("Gen", 1) => {
            let mut v = vec![verse(1, GEN_1_1_ZH, GEN_1_1_EN)];
            for n in 2..=31 {
                v.push(verse(n, &format!("創世記一章{n}節。"), &format!("Genesis one verse {n}.")));
            }
            v
        }
        ("John", 3) => (1..=36)
            .map(|n| match n {
                16 => verse(16, JOHN_3_16_ZH, JOHN_3_16_EN),
                17 => verse(17, JOHN_3_17_ZH, JOHN_3_17_EN),
                18 => verse(18, JOHN_3_18_ZH, JOHN_3_18_EN),
                _ => verse(n, &format!("約翰福音三章{n}節。"), &format!("John three verse {n}.")),
            })
            .collect(),
        _ => vec![verse(1, &format!("{osis} {c} 中文。"), &format!("{osis} {c} English."))],
    }
}

/// A store with all 66 books and their chapter counts; a few verses carry real text.
fn fixture_store() -> FileStore {
    let books = canon()
        .into_iter()
        .enumerate()
        .map(|(i, meta)| FileAlignedBook {
            book: meta.osis.to_string(),
            book_id: meta.book_id,
            chapters: (1..=CHAPTERS[i])
                .map(|c| FileAlignedChapter { c, v: chapter_verses(meta.osis, c) })
                .collect(),
        })
        .collect();
    FileStore { books }
}

fn word(parts: &[&str]) -> JsonValue {
    JsonValue::Array(parts.iter().map(|p| JsonValue::Str(p.to_string())).collect())
}

/// Hebrew words for every verse of Genesis 1 only.
fn fixture_hebrew() -> HebrewStore {
    let gen1: Vec<JsonValue> = (1..=31)
        .map(|n| JsonValue::Array(vec![word(&[&format!("מִלָּה{n}"), "H7225", "HNcfsa"])]))
        .collect();
    let mut members = Vec::new();
    for (i, meta) in canon().into_iter().take(OT_BOOK_COUNT).enumerate() {
        let value = if i == 0 {
            JsonValue::Array(vec![JsonValue::Array(gen1.clone_tree())])
        } else {
            JsonValue::Array(vec![])
        };
        members.push((meta.osis.to_string(), value));
    }
    HebrewStore::from_json(&JsonValue::Object(members)).unwrap()
}

trait CloneTree {
    fn clone_tree(&self) -> Vec<JsonValue>;
}

impl CloneTree for Vec<JsonValue> {
    fn clone_tree(&self) -> Vec<JsonValue> {
        fn one(v: &JsonValue) -> JsonValue {
            match v {
                JsonValue::Null => JsonValue::Null,
                JsonValue::Bool(b) => JsonValue::Bool(*b),
                JsonValue::Number(n) => JsonValue::Number(n.clone()),
                JsonValue::Str(s) => JsonValue::Str(s.clone()),
                JsonValue::Array(a) => JsonValue::Array(a.iter().map(one).collect()),
                JsonValue::Object(m) => {
                    JsonValue::Object(m.iter().map(|(k, v)| (k.clone(), one(v))).collect())
                }
            }
        }
        self.iter().map(one).collect()
    }
}

fn load_bible() -> Result<Bible, LoadError> {
    Bible::from_store(fixture_store(), fixture_hebrew())
}

#[test]
fn catalog_has_66_books() {
    assert_eq!(canon().len(), 66);
    let bible = load_bible().expect("embedded bible");
    assert_eq!(bible.len(), 66);
    assert_eq!(bible.catalog().len(), 66);
    assert_eq!(bible.book_at(0).unwrap().meta.name_zh, "創世記");
    assert_eq!(bible.book_at(65).unwrap().meta.name_zh, "啟示錄");
    assert_eq!(bible.book_at(0).unwrap().chapter_count, 50);
    assert_eq!(bible.book_at(65).unwrap().chapter_count, 22);
    let ot = bible
        .catalog()
        .into_iter()
        .filter(|b| b.meta.testament == Testament::Old)
        .count();
    let nt = bible
        .catalog()
        .into_iter()
        .filter(|b| b.meta.testament == Testament::New)
        .count();
    assert_eq!(ot, 39);
    assert_eq!(nt, 27);
}

#[test]
fn john_3_and_revelation_last_load() {
    let bible = load_bible().expect("embedded bible");
    let john = bible.load_chapter("John", 3).expect("John 3");
    assert_eq!(john.book_name_zh, "約翰福音");
    assert_eq!(john.chapter, 3);
    assert!(!john.verses.is_empty());
    assert!(john.verses.iter().any(|v| v.number == 16));
    assert!(
        john.verses
            .iter()
            .all(|v| { !v.get(TranslationId::Cuv1919).unwrap_or("").contains("上帝") }),
        "no 上帝 in John 3"
    );

    let john_zh = bible.load_chapter("約翰福音", 3).expect("約翰福音 3");
    assert_eq!(john.verses.len(), john_zh.verses.len());

    let rev_meta = bible.book_at(bible.index_of("Rev").unwrap()).unwrap();
    let last = rev_meta.chapter_count;
    let rev = bible.load_chapter("Rev", last).expect("Revelation last");
    assert_eq!(rev.book_name_zh, "啟示錄");
    assert_eq!(rev.chapter, last);
    assert!(!rev.verses.is_empty());
    assert_eq!(last, 22);
}

fn genesis_1_file() -> FileChapter {
    FileChapter {
        book: "Gen".to_string(),
        book_id: 1,
        book_name_zh: "創世記".to_string(),
        book_name_en: "Genesis".to_string(),
        chapter: 1,
        chinese_label: "創世記 1".to_string(),
        english_label: "Genesis 1".to_string(),
        verses: chapter_verses("Gen", 1)
            .into_iter()
            .map(|v| FileVerse { number: v.n, zh: v.zh, en: v.en })
            .collect(),
    }
}

#[test]
fn load_chapter_gen_1_matches_helper() {
    let from_store = load_bible()
        .unwrap()
        .load_chapter("Gen", 1)
        .expect("Gen 1 from store");
    let from_helper = load_aligned_chapter(genesis_1_file(), &fixture_hebrew()).unwrap();
    assert_eq!(from_store.verses.len(), from_helper.verses.len());
    assert_eq!(
        from_store.verses[0].get(TranslationId::Cuv1919),
        from_helper.verses[0].get(TranslationId::Cuv1919)
    );
    assert_eq!(
        from_store.available_translations()[0].label(),
        "和合本 1919 神版"
    );
}

#[test]
fn search_qichu_finds_genesis_1_1_cuv() {
    let bible = load_bible().expect("embedded bible");
    let hits = bible.search("起初", &[TranslationId::Cuv1919]);
    assert!(
        hits.iter().any(|h| {
            h.book == "Gen"
                && h.book_name_zh == "創世記"
                && h.chapter == 1
                && h.verse == 1
                && h.translation == TranslationId::Cuv1919
        }),
        "expected 創世記 1:1 CUV in {hits:?}"
    );
    assert!(
        hits[0].snippet.contains("起初"),
        "snippet should include the query, got {:?}",
        hits[0].snippet
    );
    assert!(
        bible.search("起初", &[TranslationId::Kjv]).is_empty(),
        "KJV lane should not match CJK substring"
    );
}

#[test]
fn search_in_the_beginning_any_case_finds_genesis_1_1_kjv() {
    let bible = load_bible().expect("embedded bible");
    for q in ["In the beginning", "in the beginning", "IN THE BEGINNING"] {
        let hits = bible.search(q, &[TranslationId::Kjv]);
        assert!(
            hits.iter().any(|h| {
                h.book == "Gen" && h.chapter == 1 && h.verse == 1 && h.translation == TranslationId::Kjv
            }),
            "expected Gen 1:1 KJV for {q:?}, got {hits:?}"
        );
    }
    let both = bible.search("In the beginning", &TranslationId::all());
    assert!(both.iter().any(|h| h.book == "Gen" && h.chapter == 1 && h.verse == 1));
}

#[test]
fn search_god_so_loved_finds_john_3_16_kjv() {
    let bible = load_bible().expect("embedded bible");
    let hits = bible.search("God so loved", &[TranslationId::Kjv]);
    assert!(
        hits.iter().any(|h| h.book == "John" && h.chapter == 3 && h.verse == 16),
        "{hits:?}"
    );
}

#[test]
fn search_shen_ai_shi_ren_finds_john_3_16_cuv() {
    let bible = load_bible().expect("embedded bible");
    let hits = bible.search("神愛世人", &[TranslationId::Cuv1919]);
    assert!(
        hits.iter().any(|h| {
            h.book == "John"
                && h.book_name_zh == "約翰福音"
                && h.chapter == 3
                && h.verse == 16
                && h.translation == TranslationId::Cuv1919
        }),
        "expected 約翰福音 3:16 CUV in {hits:?}"
    );
    assert_eq!(hits[0].ref_zh(), "約翰福音 3:16");
}

#[test]
fn search_empty_query_returns_no_hits() {
    let bible = load_bible().expect("embedded bible");
    assert!(bible.search("", &TranslationId::all()).is_empty());
    assert!(bible.search("   ", &TranslationId::all()).is_empty());
    assert!(bible.search("\t\n", &TranslationId::all()).is_empty());
}

#[test]
fn search_does_not_introduce_shangdi() {
    let bible = load_bible().expect("embedded bible");
    let hits = bible.search("神", &[TranslationId::Cuv1919]);
    assert!(!hits.is_empty());
    for hit in &hits {
        assert!(
            !hit.snippet.contains("上帝"),
            "no 上帝 in search snippet: {} {:?}",
            hit.ref_zh(),
            hit.snippet
        );
    }
    let john = bible.load_chapter("John", 3).unwrap();
    assert!(john
        .verses
        .iter()
        .all(|v| !v.get(TranslationId::Cuv1919).unwrap_or("").contains("上帝")));
}

#[test]
fn search_one_hit_per_verse_and_snippets() {
    let bible = load_bible().unwrap();
    // Both lanes match John 3:16; the hit takes the first lane asked for.
    let hits = bible.search("God", &[TranslationId::Kjv, TranslationId::Kjv, TranslationId::Cuv1919]);
    let j316: Vec<_> = hits.iter().filter(|h| h.book == "John" && h.verse == 16).collect();
    assert_eq!(j316.len(), 1);
    assert_eq!(j316[0].translation, TranslationId::Kjv);
    assert_eq!(j316[0].book_index, 42);
    // Snippet: 24 characters of context in a non-CJK lane, with ellipses.
    let hits = bible.search("whosoever", &[TranslationId::Kjv]);
    assert_eq!(hits.len(), 1);
    assert_eq!(
        hits[0].snippet,
        "…only begotten Son, that whosoever believeth in him should…"
    );
    // 12 characters of context in a CJK lane.
    let hits = bible.search("獨生子", &[TranslationId::Cuv1919]);
    assert_eq!(hits[0].snippet, "神愛世人，甚至將他的獨生子賜給他們，叫一切信他的，…");
    // No lanes, no hits.
    assert!(bible.search("God", &[]).is_empty());
}

fn john_verse_numbers(john: &Chapter) -> Vec<u32> {
    john.verses.iter().map(|v| v.number).collect()
}

fn units(pairs: &[(u32, TranslationId)]) -> Vec<VerseUnit> {
    pairs.iter().map(|&(n, id)| VerseUnit::new(n, id)).collect()
}

fn lane(sel: &VerseSelection, id: TranslationId) -> Vec<u32> {
    sel.units().iter().filter(|u| u.translation == id).map(|u| u.number).collect()
}

#[test]
fn apply_verse_tap_toggles_and_fills_range_per_translation() {
    let bible = load_bible().expect("bible");
    let john = bible.load_chapter("John", 3).expect("John 3");
    let nums = john_verse_numbers(&john);
    let mut sel = VerseSelection::new();

    apply_verse_tap(&mut sel, 16, TranslationId::Cuv1919, &nums);
    assert_eq!(sel.len(), 1);

    apply_verse_tap(&mut sel, 18, TranslationId::Cuv1919, &nums);
    assert_eq!(lane(&sel, TranslationId::Cuv1919), vec![16, 17, 18]);

    apply_verse_tap(&mut sel, 21, TranslationId::Cuv1919, &nums);
    assert_eq!(
        lane(&sel, TranslationId::Cuv1919),
        vec![16, 17, 18, 21],
        "further taps toggle only, never wipe"
    );

    apply_verse_tap(&mut sel, 17, TranslationId::Cuv1919, &nums);
    assert!(!sel.contains(VerseUnit::new(17, TranslationId::Cuv1919)));
    assert!(sel.contains(VerseUnit::new(16, TranslationId::Cuv1919)));
    assert!(sel.contains(VerseUnit::new(18, TranslationId::Cuv1919)));

    apply_verse_tap(&mut sel, 16, TranslationId::Kjv, &nums);
    assert!(sel.contains(VerseUnit::new(16, TranslationId::Cuv1919)));
    assert!(sel.contains(VerseUnit::new(16, TranslationId::Kjv)));
    assert!(!sel.contains(VerseUnit::new(17, TranslationId::Kjv)));

    apply_verse_tap(&mut sel, 18, TranslationId::Kjv, &nums);
    assert_eq!(lane(&sel, TranslationId::Kjv), vec![16, 17, 18]);
    assert!(
        sel.contains(VerseUnit::new(21, TranslationId::Cuv1919)),
        "range fill must not uncheck other translations or verses outside the range"
    );
}

#[test]
fn tap_range_fill_goes_downwards_and_skips_missing_numbers() {
    let mut sel = VerseSelection::new();
    apply_verse_tap(&mut sel, 5, TranslationId::Kjv, &[1, 2, 4, 5]);
    apply_verse_tap(&mut sel, 1, TranslationId::Kjv, &[1, 2, 4, 5]);
    assert_eq!(lane(&sel, TranslationId::Kjv), vec![1, 2, 4, 5]);
    // Tapping a selected unit toggles it off again.
    apply_verse_tap(&mut sel, 4, TranslationId::Kjv, &[1, 2, 4, 5]);
    assert_eq!(lane(&sel, TranslationId::Kjv), vec![1, 2, 5]);
    // A range whose tapped end is not a listed verse does not select that end.
    let mut other = VerseSelection::new();
    apply_verse_tap(&mut other, 2, TranslationId::Cuv1919, &[1, 2, 3]);
    apply_verse_tap(&mut other, 9, TranslationId::Cuv1919, &[1, 2, 3]);
    assert_eq!(lane(&other, TranslationId::Cuv1919), vec![2, 3]);
}

#[test]
fn format_verse_copy_single_and_compare() {
    let bible = load_bible().expect("bible");
    let john = bible.load_chapter("John", 3).expect("John 3");
    let nums = [16u32, 17, 18];
    let cuv = units(&[
        (16, TranslationId::Cuv1919),
        (17, TranslationId::Cuv1919),
        (18, TranslationId::Cuv1919),
    ]);
    let single = format_verse_copy(&john, &cuv);
    assert!(single.starts_with("約翰福音 3:16–18（和合本 1919 神版）"), "{single}");
    assert!(single.contains("16 "), "{single}");
    assert!(single.contains("17 "), "{single}");
    assert!(single.contains("18 "), "{single}");
    assert!(!single.contains("KJV"), "{single}");
    assert!(!single.contains("John 3"), "{single}");

    let both_units = units(&[
        (16, TranslationId::Cuv1919),
        (17, TranslationId::Cuv1919),
        (18, TranslationId::Cuv1919),
        (16, TranslationId::Kjv),
        (17, TranslationId::Kjv),
        (18, TranslationId::Kjv),
    ]);
    let both = format_verse_copy(&john, &both_units);
    assert!(both.starts_with("約翰福音 3:16–18（和合本 1919 神版）"), "{both}");
    assert!(both.contains("John 3:16–18 (KJV)"), "{both}");
    assert!(both.contains("God so loved") || both.to_lowercase().contains("god so loved"));
    assert_eq!(format_ref_zh(&john, &nums), "約翰福音 3:16–18");
    assert_eq!(format_ref_zh(&john, &[16]), "約翰福音 3:16");
    assert_eq!(format_ref_en(&john, &nums), "John 3:16–18");
    assert_eq!(
        format_selection_summary(&john, &both_units),
        "已選 中文 3 節 · 英文 3 節 · 約翰福音 3:16–18 · John 3:16–18"
    );
    assert_eq!(
        format_selection_summary(&john, &cuv),
        "已選 中文 3 節 · 約翰福音 3:16–18"
    );
    let kjv_only = units(&[(16, TranslationId::Kjv)]);
    let kjv_copy = format_verse_copy(&john, &kjv_only);
    assert!(kjv_copy.starts_with("John 3:16 (KJV)"), "{kjv_copy}");
    assert!(!kjv_copy.contains("和合本"), "{kjv_copy}");
    assert_eq!(
        format_selection_summary(&john, &kjv_only),
        "已選 英文 1 節 · John 3:16"
    );
}

#[test]
fn copy_text_exact_layout() {
    let bible = load_bible().unwrap();
    let john = bible.load_chapter("John", 3).unwrap();
    let sel = units(&[(17, TranslationId::Kjv), (16, TranslationId::Cuv1919), (16, TranslationId::Kjv)]);
    assert_eq!(
        format_verse_copy(&john, &sel),
        format!(
            "約翰福音 3:16（和合本 1919 神版）\n16 {JOHN_3_16_ZH}\n\nJohn 3:16–17 (KJV)\n16 {JOHN_3_16_EN}\n17 {JOHN_3_17_EN}\n"
        )
    );
    assert_eq!(format_selection_summary(&john, &[]), "已選 0 節");
    assert_eq!(format_verse_copy(&john, &[]), "");
    assert_eq!(format_ref_zh(&john, &[]), "約翰福音 3");
    assert_eq!(format_ref_en(&john, &[18, 16, 16]), "John 3:16–18");
    assert_eq!(selected_verse_range(&[9, 3, 7]), Some((3, 9)));
    assert_eq!(selected_verse_range(&[]), None);
    assert_eq!(translation_short_label(TranslationId::Cuv1919), "中文");
    assert_eq!(translation_short_label(TranslationId::Kjv), "英文");
}

#[test]
fn genesis_1_verses_expose_hebrew_marker() {
    let hebrew = fixture_hebrew();
    let chapter = load_bible().unwrap().load_chapter("Gen", 1).unwrap();
    assert!(has_hebrew_notes(&hebrew, "Gen", 1, 1));
    assert!(chapter.verses[0].hebrew.is_some());
    assert!(chapter.verses[30].hebrew.is_some());
    assert_eq!(chapter.verses.iter().filter(|v| v.hebrew.is_some()).count(), 31);
    let john = load_bible().unwrap().load_chapter("John", 3).unwrap();
    assert!(john.verses.iter().all(|v| v.hebrew.is_none()));
}

#[test]
fn load_errors() {
    let bible = load_bible().unwrap();
    assert_eq!(bible.load_chapter("Gen", 0).unwrap_err().message(), "missing Gen chapter 0");
    assert_eq!(bible.load_chapter("Gen", 51).unwrap_err().message(), "missing Gen chapter 51");
    assert_eq!(bible.load_chapter("Nope", 1).unwrap_err().message(), "unknown book: Nope");
    assert_eq!(bible.load_chapter_at(66, 1).unwrap_err().message(), "unknown book: 66");
    // Book lookup by number and name, ignoring case; abbreviations are not store names.
    assert_eq!(bible.index_of("43"), Some(42));
    assert_eq!(bible.index_of(" john "), Some(42));
    assert_eq!(bible.index_of("約"), None);
    assert!(Bible::from_store(FileStore { books: vec![] }, HebrewStore::empty()).is_err());
    assert_eq!(LoadError::Empty.message(), "chapter contains no verses");
}

#[test]
fn store_places_chapters_by_number() {
    let raw = FileAlignedBook {
        book: "Ruth".to_string(),
        book_id: 0,
        chapters: vec![
            FileAlignedChapter { c: 3, v: vec![verse(1, "三", "three")] },
            FileAlignedChapter { c: 0, v: vec![verse(1, "零", "zero")] },
            FileAlignedChapter { c: 1, v: vec![verse(1, "一", "one")] },
        ],
    };
    let bible = Bible::from_store(FileStore { books: vec![raw] }, HebrewStore::empty()).unwrap();
    let entry = bible.book_at(0).unwrap();
    assert_eq!(entry.chapter_count, 3);
    assert_eq!(entry.meta.book_id, 8);
    assert_eq!(entry.meta.osis, "Ruth");
    assert!(matches!(bible.load_chapter_at(0, 2), Err(LoadError::Empty)));
    let c3 = bible.load_chapter_at(0, 3).unwrap();
    assert_eq!(c3.verses[0].get(TranslationId::Kjv), Some("three"));
    assert_eq!(c3.title_zh(), "路得記 3");
    assert_eq!(c3.title_en(), "Ruth 3");
}

fn file_book(book: &str, verses: &[(u32, &str)]) -> FileBook {
    FileBook {
        version: "x".to_string(),
        book: book.to_string(),
        book_id: 1,
        english_name: "Genesis".to_string(),
        testament: "OT".to_string(),
        chapters: vec![FileBookChapter {
            chapter: 1,
            verses: verses
                .iter()
                .map(|&(number, text)| FileBookVerse { number, text: text.to_string() })
                .collect(),
        }],
    }
}

#[test]
fn align_chapter_replaces_shangdi_and_pairs_by_number() {
    let zh = file_book("Gen", &[(1, "起初上帝創造天地。"), (2, "地是空虛混沌。"), (3, "上帝說上帝")]);
    let en = file_book("Gen", &[(1, "In the beginning"), (3, "old"), (3, "And God said")]);
    let ch = align_chapter(&zh, &en, 1).unwrap();
    assert_eq!(ch.book_name_zh, "創世記");
    assert_eq!(ch.verses.len(), 2);
    assert_eq!(ch.verses[0].get(TranslationId::Cuv1919), Some("起初神創造天地。"));
    assert_eq!(ch.verses[1].number, 3);
    assert_eq!(ch.verses[1].get(TranslationId::Cuv1919), Some("神說神"));
    assert_eq!(ch.verses[1].get(TranslationId::Kjv), Some("And God said"));
    assert!(matches!(align_chapter(&zh, &en, 2), Err(LoadError::Empty)));
    let none = file_book("Gen", &[(9, "x")]);
    assert!(matches!(align_chapter(&zh, &none, 1), Err(LoadError::Empty)));
    let unknown = file_book("Zzz", &[(1, "一")]);
    let unknown_en = file_book("Zzz", &[(1, "one")]);
    let c = align_chapter(&unknown, &unknown_en, 1).unwrap();
    assert_eq!(c.book_name_zh, "創世記");
    assert_eq!(c.book_name_en, "Genesis");
}

#[test]
fn verse_lanes_and_folds() {
    let v = Verse::bilingual(7, "中文", "MiXed Case");
    assert_eq!(v.get(TranslationId::Kjv), Some("MiXed Case"));
    assert_eq!(v.folded_get(TranslationId::Kjv), Some("mixed case"));
    assert_eq!(v.folded_get(TranslationId::Cuv1919), None);
    assert_eq!(
        v.texts_for(&[TranslationId::Kjv, TranslationId::Cuv1919]),
        vec![(TranslationId::Kjv, "MiXed Case"), (TranslationId::Cuv1919, "中文")]
    );
    assert_eq!(v.stored_string_count(), 3);
    assert_eq!(v.stored_string_bytes(), 6 + 10 + 10);
}

fn load_genesis_1() -> Result<Chapter, LoadError> {
    load_aligned_chapter(genesis_1_file(), &fixture_hebrew())
}

#[test]
fn genesis_1_has_31_aligned_verses() {
    let chapter = load_genesis_1().expect("embedded Genesis 1 JSON");
    assert_eq!(chapter.chapter, 1);
    assert_eq!(chapter.verses.len(), 31, "Genesis 1 has 31 verses");
    let v1 = &chapter.verses[0];
    assert_eq!(v1.number, 1);
    assert_eq!(v1.get(TranslationId::Cuv1919), Some("起初，神創造天地。"));
    assert_eq!(v1.texts.len(), 2, "embedded verses expose CUV + KJV lanes");
    assert!(
        v1.get(TranslationId::Cuv1919).unwrap().starts_with("起初，神"),
        "CUV 神版 1:1 should start with 起初，神, got {:?}",
        v1.get(TranslationId::Cuv1919)
    );
    assert!(
        v1.get(TranslationId::Kjv).unwrap().contains("In the beginning"),
        "KJV 1:1 should contain 'In the beginning', got {:?}",
        v1.get(TranslationId::Kjv)
    );
    for (i, verse) in chapter.verses.iter().enumerate() {
        assert_eq!(verse.number, (i as u32) + 1);
        let zh = verse.get(TranslationId::Cuv1919).unwrap_or("");
        let en = verse.get(TranslationId::Kjv).unwrap_or("");
        assert!(!zh.is_empty());
        assert!(!en.is_empty());
        assert!(
            !zh.contains("上帝"),
            "no 上帝 in Chinese scripture: {}:{} {:?}",
            chapter.chapter,
            verse.number,
            zh
        );
    }
    assert_eq!(
        chapter.available_translations(),
        vec![TranslationId::Cuv1919, TranslationId::Kjv]
    );
}

#[test]
fn summary_and_copy_ignore_order_and_repeats() {
    let bible = load_bible().unwrap();
    let john = bible.load_chapter("John", 3).unwrap();
    let sorted = units(&[(16, TranslationId::Cuv1919), (18, TranslationId::Cuv1919), (17, TranslationId::Kjv)]);
    let shuffled = units(&[
        (17, TranslationId::Kjv),
        (18, TranslationId::Cuv1919),
        (16, TranslationId::Cuv1919),
        (18, TranslationId::Cuv1919),
    ]);
    assert_eq!(format_selection_summary(&john, &sorted), format_selection_summary(&john, &shuffled));
    assert_eq!(
        format_selection_summary(&john, &shuffled),
        "已選 中文 2 節 · 英文 1 節 · 約翰福音 3:16–18 · John 3:17"
    );
    assert_eq!(format_verse_copy(&john, &sorted), format_verse_copy(&john, &shuffled));
    assert_eq!(format_selection_summary(&john, &[]), "已選 0 節");
}
