use omarchy_bible::hebrew::{
    hebrew_pack_text, has_hebrew_notes, hebrew_book_count, hebrew_verse, load_book_value, morph_pos_label,
    parse_word, pos_letter_label, word_from_json, HebrewStore, HebrewWord, OT_BOOK_COUNT,
};
use omarchy_bible::catalog::canon;
use omarchy_bible::json::{parse_json, JsonValue};

#[test]
fn hebrew_morph_pos_label_from_prefix() {
    assert_eq!(morph_pos_label("HNcmpa"), Some("名詞"));
    assert_eq!(morph_pos_label("HVqp3ms"), Some("動詞"));
    assert_eq!(morph_pos_label("HAamsa"), Some("形容詞"));
    assert_eq!(morph_pos_label("HR/Ncfsa"), Some("名詞"));
    assert_eq!(morph_pos_label("HC/To"), Some("助詞"));
    assert_eq!(morph_pos_label("HTd/Ncmpa"), Some("名詞"));
    assert_eq!(morph_pos_label("HR/Ncmsc/Sp3ms"), Some("名詞"));
    assert_eq!(morph_pos_label("HC"), Some("連接詞"));
    assert_eq!(morph_pos_label(""), None);
    assert_eq!(morph_pos_label("   "), None);
}

#[test]
fn morph_pos_label_suffix_and_unknown() {
    assert_eq!(morph_pos_label("HXx"), None);
    assert_eq!(morph_pos_label("HSp3ms"), Some("詞綴"));
    assert_eq!(morph_pos_label("Sp3ms"), Some("詞綴"));
    assert_eq!(morph_pos_label("ANcmsa"), Some("名詞"));
    assert_eq!(morph_pos_label("Ncmsa"), Some("名詞"));
    assert_eq!(morph_pos_label("H/"), None);
    assert_eq!(morph_pos_label("  HD  "), Some("副詞"));
    assert_eq!(pos_letter_label('P'), Some("代名詞"));
    assert_eq!(pos_letter_label('R'), Some("介詞"));
    assert_eq!(pos_letter_label('x'), None);
}

fn s(v: &str) -> JsonValue {
    JsonValue::Str(v.to_string())
}

fn word(parts: &[&str]) -> JsonValue {
    JsonValue::Array(parts.iter().map(|p| s(p)).collect())
}

fn book(chapters: Vec<Vec<Vec<JsonValue>>>) -> JsonValue {
    JsonValue::Array(
        chapters
            .into_iter()
            .map(|ch| JsonValue::Array(ch.into_iter().map(JsonValue::Array).collect()))
            .collect(),
    )
}

#[test]
fn parse_word_trims_and_drops_blank_fields() {
    let w = parse_word(&[" בְּ ".to_string(), " H7225 ".to_string(), "".to_string()]).unwrap();
    assert_eq!(
        w,
        HebrewWord { text: "בְּ".to_string(), strongs: Some("H7225".to_string()), morph: None }
    );
    assert!(parse_word(&[]).is_none());
    assert!(parse_word(&["  ".to_string(), "H1".to_string()]).is_none());
    let only_text = parse_word(&["x".to_string()]).unwrap();
    assert_eq!(only_text.strongs, None);
    assert_eq!(only_text.morph, None);
}

#[test]
fn word_from_json_skips_non_strings() {
    let v = JsonValue::Array(vec![s("אֱלֹהִים"), JsonValue::Null, s("H430"), s("HNcmpa")]);
    let w = word_from_json(&v).unwrap();
    assert_eq!(w.strongs.as_deref(), Some("H430"));
    assert_eq!(w.morph.as_deref(), Some("HNcmpa"));
    assert!(word_from_json(&s("x")).is_none());
}

#[test]
fn load_book_value_reports_the_first_bad_level() {
    assert_eq!(load_book_value(&s("x")).unwrap_err(), "hebrew book JSON must be an array of chapters");
    let bad_chapter = JsonValue::Array(vec![JsonValue::Null]);
    assert_eq!(load_book_value(&bad_chapter).unwrap_err(), "chapter must be an array of verses");
    let bad_verse = JsonValue::Array(vec![JsonValue::Array(vec![JsonValue::Null])]);
    assert_eq!(load_book_value(&bad_verse).unwrap_err(), "verse must be an array of words");
    let ok = book(vec![vec![vec![word(&["a", "H1", "HNcmsa"]), JsonValue::Null], vec![]]]);
    let b = load_book_value(&ok).unwrap();
    assert_eq!(b.len(), 1);
    assert_eq!(b[0].len(), 2);
    assert_eq!(b[0][0].len(), 1);
    assert!(b[0][1].is_empty());
}

fn store_root(genesis: JsonValue) -> JsonValue {
    let mut members = Vec::new();
    for (i, meta) in canon().into_iter().take(OT_BOOK_COUNT).enumerate() {
        let value = if i == 0 { JsonValue::Null } else { JsonValue::Array(vec![]) };
        members.push((meta.osis.to_string(), value));
    }
    members[0].1 = genesis;
    JsonValue::Object(members)
}

#[test]
fn store_lookup_follows_chapter_and_verse() {
    let gen = book(vec![vec![
        vec![word(&["בְּרֵאשִׁית", "H7225", "HR/Ncfsa"])],
        vec![],
    ]]);
    let store = HebrewStore::from_json(&store_root(gen)).unwrap();
    assert_eq!(hebrew_book_count(&store), 39);
    let words = hebrew_verse(&store, "Gen", 1, 1).expect("Gen 1:1");
    assert!(words[0].strongs.as_deref().unwrap().contains("7225"));
    assert_eq!(words[0].text.chars().next(), Some('ב'));
    assert!(has_hebrew_notes(&store, "Gen", 1, 1));
    // An empty verse, a missing verse or chapter, a zero, and the New Testament have none.
    assert!(hebrew_verse(&store, "Gen", 1, 2).is_none());
    assert!(hebrew_verse(&store, "Gen", 1, 3).is_none());
    assert!(hebrew_verse(&store, "Gen", 2, 1).is_none());
    assert!(hebrew_verse(&store, "Gen", 0, 1).is_none());
    assert!(hebrew_verse(&store, "Exod", 1, 1).is_none());
    assert!(hebrew_verse(&store, "John", 3, 16).is_none());
    assert!(!has_hebrew_notes(&store, "John", 3, 16));
    assert_eq!(hebrew_book_count(&HebrewStore::empty()), 0);
}

#[test]
fn store_errors_name_the_book() {
    assert_eq!(
        HebrewStore::from_json(&JsonValue::Array(vec![])).err().unwrap(),
        "morphhb-ot.json.gz root must be an object keyed by OSIS"
    );
    assert_eq!(
        HebrewStore::from_json(&JsonValue::Object(vec![])).err().unwrap(),
        "morphhb-ot.json.gz missing book Gen"
    );
    assert_eq!(
        HebrewStore::from_json(&store_root(JsonValue::Null)).err().unwrap(),
        "hebrew book Gen: hebrew book JSON must be an array of chapters"
    );
}

/// A pack of the 39 books in which Genesis 1:1, Exodus 1:1 and Psalm 23:1 carry their
/// opening words (the pack shipped with the application is not part of this crate).
fn opening_words_pack() -> HebrewStore {
    let mut members = Vec::new();
    for meta in canon().into_iter().take(OT_BOOK_COUNT) {
        let first_verse = match meta.osis {
            "Gen" => Some(vec![
                word(&["בְּרֵאשִׁית", "b/H7225", "HR/Ncfsa"]),
                word(&["בָּרָא", "H1254", "HVqp3ms"]),
                word(&["אֱלֹהִים", "H430", "HNcmpa"]),
            ]),
            "Exod" => Some(vec![
                word(&["וְאֵלֶּה", "c/H428", "HC/Pdxcp"]),
                word(&["שְׁמוֹת", "H8034", "HNcmpc"]),
            ]),
            "Ps" => Some(vec![
                word(&["מִזְמוֹר", "H4210", "HNcmsa"]),
                word(&["לְדָוִד", "l/H1732", "HR/Np"]),
            ]),
            _ => None,
        };
        let value = match (meta.osis, first_verse) {
            ("Ps", Some(v)) => {
                let mut chapters: Vec<Vec<Vec<JsonValue>>> = (1..23).map(|_| vec![]).collect();
                chapters.push(vec![v]);
                book(chapters)
            }
            (_, Some(v)) => book(vec![vec![v]]),
            (_, None) => JsonValue::Array(vec![]),
        };
        members.push((meta.osis.to_string(), value));
    }
    HebrewStore::from_json(&JsonValue::Object(members)).unwrap()
}

#[test]
fn gen_1_1_has_words_and_h7225() {
    let store = opening_words_pack();
    let words = hebrew_verse(&store, "Gen", 1, 1).expect("Gen 1:1");
    assert!(!words.is_empty());
    let strongs = words[0].strongs.as_deref().unwrap_or("");
    assert!(strongs.contains("7225"), "expected Strong's containing 7225, got {strongs:?}");
    assert_eq!(words[0].text.chars().next(), Some('ב'));
    assert!(has_hebrew_notes(&store, "Gen", 1, 1));
}

#[test]
fn hebrew_book_count_is_39() {
    let store = opening_words_pack();
    assert_eq!(hebrew_book_count(&store), 39);
    assert_eq!(hebrew_book_count(&store), OT_BOOK_COUNT);
}

#[test]
fn ps_23_1_and_exod_1_1_are_some() {
    let store = opening_words_pack();
    let exod = hebrew_verse(&store, "Exod", 1, 1).expect("Exod 1:1");
    assert!(!exod.is_empty());
    let ps = hebrew_verse(&store, "Ps", 23, 1).expect("Ps 23:1");
    assert!(!ps.is_empty());
}

#[test]
fn john_3_16_is_none() {
    let store = opening_words_pack();
    assert!(hebrew_verse(&store, "John", 3, 16).is_none());
    assert!(!has_hebrew_notes(&store, "John", 3, 16));
}

#[test]
fn pack_text_decompresses_gzip() {
    let mut enc = flate2::write::GzEncoder::new(Vec::new(), flate2::Compression::default());
    std::io::Write::write_all(&mut enc, "{\"Gen\": []}".as_bytes()).unwrap();
    let gz = enc.finish().unwrap();
    assert_eq!(hebrew_pack_text(&gz).unwrap(), "{\"Gen\": []}");
    let err = hebrew_pack_text(b"not gzip at all").unwrap_err();
    assert!(err.starts_with("decompress morphhb-ot.json.gz: "), "{err}");
    assert!(err.len() > "decompress morphhb-ot.json.gz: ".len());
}

#[test]
fn lib_morph_pos_label_from_prefix() {
    assert_eq!(morph_pos_label("HNcmpa"), Some("名詞"));
    assert_eq!(morph_pos_label("HVqp3ms"), Some("動詞"));
    assert_eq!(morph_pos_label("HAamsa"), Some("形容詞"));
    assert_eq!(morph_pos_label("HR/Ncfsa"), Some("名詞"));
    assert_eq!(morph_pos_label("HC/To"), Some("助詞"));
    assert_eq!(morph_pos_label("HTd/Ncmpa"), Some("名詞"));
    assert_eq!(morph_pos_label("HR/Ncmsc/Sp3ms"), Some("名詞"));
    assert_eq!(morph_pos_label("HC"), Some("連接詞"));
    assert_eq!(morph_pos_label(""), None);
    assert_eq!(morph_pos_label("   "), None);
    assert_eq!(morph_pos_label("HXx"), None);
}

fn gzip(text: &str) -> Vec<u8> {
    let mut enc = flate2::write::GzEncoder::new(Vec::new(), flate2::Compression::default());
    std::io::Write::write_all(&mut enc, text.as_bytes()).unwrap();
    enc.finish().unwrap()
}

#[test]
fn store_from_pack_decompresses_parses_and_reads() {
    let mut json = String::from("{");
    for (i, meta) in canon().into_iter().take(OT_BOOK_COUNT).enumerate() {
        if i > 0 {
            json.push(',');
        }
        if meta.osis == "Gen" {
            json.push_str("\"Gen\": [[[[\"בְּרֵאשִׁית\", \"b/H7225\", \"HR/Ncfsa\"]]]]");
        } else {
            json.push_str(&format!("\"{}\": []", meta.osis));
        }
    }
    json.push_str(", \"Matt\": 1}");
    let store = HebrewStore::from_pack(&gzip(&json)).unwrap();
    assert_eq!(hebrew_book_count(&store), 39);
    let words = hebrew_verse(&store, "Gen", 1, 1).unwrap();
    assert_eq!(words[0].strongs.as_deref(), Some("b/H7225"));
    assert!(!has_hebrew_notes(&store, "Matt", 1, 1));

    let err = HebrewStore::from_pack(&gzip("{\"Gen\": ")).err().unwrap();
    assert!(err.starts_with("parse morphhb-ot.json.gz: "), "{err}");
    let err = HebrewStore::from_pack(&gzip("[]")).err().unwrap();
    assert_eq!(err, "morphhb-ot.json.gz root must be an object keyed by OSIS");
    let err = HebrewStore::from_pack(b"plain bytes").err().unwrap();
    assert!(err.starts_with("decompress morphhb-ot.json.gz: "), "{err}");
}

#[test]
fn parse_json_sorts_members_and_keeps_the_last_repeat() {
    let v = parse_json("{\"b\": 1, \"a\": [true, null, \"x\"], \"b\": 2.5}").unwrap();
    assert_eq!(
        v,
        JsonValue::Object(vec![
            ("a".to_string(), JsonValue::Array(vec![JsonValue::Bool(true), JsonValue::Null, s("x")])),
            ("b".to_string(), JsonValue::Number("2.5".to_string())),
        ])
    );
    assert_eq!(v.get("b"), Some(&JsonValue::Number("2.5".to_string())));
    assert!(parse_json("[1,").is_err());
}
