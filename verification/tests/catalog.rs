use omarchy_bible::catalog::{canon, canon_at, lookup_canon, parse_bible_ref, Testament, CANON_LEN};
use std::collections::BTreeSet;

#[test]
fn short_names_unique_and_lookup() {
    let mut seen = BTreeSet::new();
    for b in canon() {
        assert!(seen.insert(b.name_zh_short), "dup {}", b.name_zh_short);
        assert_eq!(lookup_canon(b.name_zh_short).map(|m| m.osis), Some(b.osis));
        assert_eq!(lookup_canon(b.osis).map(|m| m.osis), Some(b.osis));
    }
    assert_eq!(lookup_canon("約").unwrap().osis, "John");
    assert_eq!(lookup_canon("約一").unwrap().osis, "1John");
    assert_eq!(lookup_canon("jn").unwrap().osis, "John");
    assert_eq!(lookup_canon("1jn").unwrap().osis, "1John");
}

#[test]
fn parse_common_refs() {
    let r = parse_bible_ref("約3:16").unwrap();
    assert_eq!(r.book.osis, "John");
    assert_eq!(r.chapter, 3);
    assert_eq!(r.verse, Some(16));

    let r = parse_bible_ref("創 1").unwrap();
    assert_eq!(r.book.osis, "Gen");
    assert_eq!(r.chapter, 1);
    assert_eq!(r.verse, None);

    let r = parse_bible_ref("Gen 1:1").unwrap();
    assert_eq!(r.book.osis, "Gen");
    assert_eq!(r.chapter, 1);
    assert_eq!(r.verse, Some(1));

    let r = parse_bible_ref("1Cor13:4").unwrap();
    assert_eq!(r.book.osis, "1Cor");
    assert_eq!(r.chapter, 13);
    assert_eq!(r.verse, Some(4));

    let r = parse_bible_ref("詩150").unwrap();
    assert_eq!(r.book.osis, "Ps");
    assert_eq!(r.chapter, 150);
    assert!(parse_bible_ref("").is_none());
    assert!(parse_bible_ref("xyz 1").is_none());
}

#[test]
fn canon_has_66_books_in_order() {
    let all = canon();
    assert_eq!(all.len(), 66);
    assert_eq!(CANON_LEN, 66);
    assert_eq!(all[0].name_zh, "創世記");
    assert_eq!(all[65].name_zh, "啟示錄");
    for (i, b) in all.iter().enumerate() {
        assert_eq!(b.book_id as usize, i + 1);
    }
    assert_eq!(all.iter().filter(|b| b.testament == Testament::Old).count(), 39);
    assert_eq!(all.iter().filter(|b| b.testament == Testament::New).count(), 27);
    assert!(canon_at(66).is_none());
}

#[test]
fn lookup_by_name_number_and_case() {
    assert_eq!(lookup_canon("  genesis ").unwrap().osis, "Gen");
    assert_eq!(lookup_canon("GEN").unwrap().osis, "Gen");
    assert_eq!(lookup_canon("創世記").unwrap().osis, "Gen");
    assert_eq!(lookup_canon("43").unwrap().osis, "John");
    assert_eq!(lookup_canon("+43").unwrap().osis, "John");
    assert_eq!(lookup_canon("043").unwrap().osis, "John");
    assert!(lookup_canon("0").is_none());
    assert!(lookup_canon("67").is_none());
    assert!(lookup_canon("99999999999").is_none());
    assert!(lookup_canon("   ").is_none());
    // A Chinese alias must match exactly.
    assert_eq!(lookup_canon("約翰").unwrap().osis, "John");
    assert_eq!(lookup_canon("PSALM").unwrap().osis, "Ps");
    // `jud` is listed for Judges before Jude.
    assert_eq!(lookup_canon("jud").unwrap().osis, "Judg");
}

#[test]
fn parse_ref_edges() {
    // A zero verse or chapter is refused.
    assert!(parse_bible_ref("Gen 1:0").is_none());
    assert!(parse_bible_ref("Gen 0").is_none());
    // Text after the last colon that is not digits keeps the colon in the head.
    assert!(parse_bible_ref("Gen 1:x").is_none());
    // Spaces around the parts are allowed.
    let r = parse_bible_ref("  Gen 1 : 3  ").unwrap();
    assert_eq!((r.book.osis, r.chapter, r.verse), ("Gen", 1, Some(3)));
    // No chapter digits.
    assert!(parse_bible_ref("Gen").is_none());
    // No book key.
    assert!(parse_bible_ref("12").is_none());
    // Overflowing numbers.
    assert!(parse_bible_ref("Gen 1:99999999999").is_none());
    assert!(parse_bible_ref("Gen 99999999999").is_none());
    // A colon with nothing after it stays in the head, which then ends in no digits.
    assert!(parse_bible_ref("Gen 1:").is_none());
    let r = parse_bible_ref("約翰 3:16").unwrap();
    assert_eq!((r.book.osis, r.chapter, r.verse), ("John", 3, Some(16)));
}

#[test]
fn testament_labels_and_codes() {
    assert_eq!(Testament::Old.label_zh(), "舊約");
    assert_eq!(Testament::New.label_zh(), "新約");
    assert_eq!(Testament::from_code("OT"), Some(Testament::Old));
    assert_eq!(Testament::from_code("ot"), Some(Testament::Old));
    assert_eq!(Testament::from_code("NT"), Some(Testament::New));
    assert_eq!(Testament::from_code("nt"), Some(Testament::New));
    assert_eq!(Testament::from_code("Ot"), None);
    assert_eq!(Testament::from_code(""), None);
}

#[test]
fn every_book_found_by_osis_and_abbreviation() {
    for (i, b) in canon().into_iter().enumerate() {
        assert_eq!(lookup_canon(b.osis), canon_at(i));
        assert_eq!(lookup_canon(b.name_zh_short), canon_at(i));
    }
}
