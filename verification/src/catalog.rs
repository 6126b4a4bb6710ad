//! The Protestant 66-book canon with Traditional Chinese names (和合本), book lookup by
//! OSIS id, name, abbreviation, number or alias, and parsing of jump references such as
//! `約3:16`, `創 1`, `Gen 1:1` or `1Cor13:4`.

use vstd::prelude::*;

use crate::text;
use crate::text::{
    char_is_digit, chars_of, parse_u32_slice, rfind_char, slice_all_ascii, slice_all_digits,
    slice_eq, slice_eq_ic, str_eq, trim_bounds, trim_end_index,
};

verus! {

/// Old or New Testament.
#[derive(Debug, Clone, Copy, PartialEq, Eq, Hash, Structural)]
pub enum Testament {
    Old,
    New,
}

impl Testament {
    /// `舊約` or `新約`.
    pub fn label_zh(self) -> (r: &'static str)
        ensures
            r@ == (match self {
                Testament::Old => "舊約"@,
                Testament::New => "新約"@,
            }),
    {
        match self {
            Testament::Old => "舊約",
            Testament::New => "新約",
        }
    }

    /// `OT`/`ot` is the Old Testament, `NT`/`nt` the New; anything else is unknown.
    pub fn from_code(code: &str) -> (r: Option<Testament>)
        ensures
            r == (if code@ == seq!['O', 'T'] || code@ == seq!['o', 't'] {
                Some(Testament::Old)
            } else if code@ == seq!['N', 'T'] || code@ == seq!['n', 't'] {
                Some(Testament::New)
            } else {
                None
            }),
    {
        let c = chars_of(code);
        if c.len() != 2 {
            return None;
        }
        if (c[0] == 'O' && c[1] == 'T') || (c[0] == 'o' && c[1] == 't') {
            assert(c@ =~= seq![c@[0], c@[1]]);
            Some(Testament::Old)
        } else if (c[0] == 'N' && c[1] == 'T') || (c[0] == 'n' && c[1] == 't') {
            assert(c@ =~= seq![c@[0], c@[1]]);
            Some(Testament::New)
        } else {
            None
        }
    }
}

/// Static metadata for one of the 66 canonical books.
#[derive(Debug, Clone, Copy, PartialEq, Eq, Hash)]
pub struct BookMeta {
    /// OSIS-style identifier (e.g. `"Gen"`, `"1Sam"`, `"Rev"`).
    pub osis: &'static str,
    /// 1-based canonical index (Genesis = 1, Revelation = 66).
    pub book_id: u32,
    pub name_zh: &'static str,
    /// Traditional Chinese abbreviation (e.g. `"創"`, `"太"`, `"林前"`).
    pub name_zh_short: &'static str,
    pub name_en: &'static str,
    pub testament: Testament,
}

/// Number of books in the canon.
pub const CANON_LEN: usize = 66;

/// Book `i` (0-based) of the canon, Genesis first.
pub open spec fn canon_spec(i: int) -> BookMeta {
    if i == 0 {
        BookMeta { osis: "Gen", book_id: 1, name_zh: "創世記", name_zh_short: "創", name_en: "Genesis", testament: Testament::Old }
    } else if i == 1 {
        BookMeta { osis: "Exod", book_id: 2, name_zh: "出埃及記", name_zh_short: "出", name_en: "Exodus", testament: Testament::Old }
    } else if i == 2 {
        BookMeta { osis: "Lev", book_id: 3, name_zh: "利未記", name_zh_short: "利", name_en: "Leviticus", testament: Testament::Old }
    } else if i == 3 {
        BookMeta { osis: "Num", book_id: 4, name_zh: "民數記", name_zh_short: "民", name_en: "Numbers", testament: Testament::Old }
    } else if i == 4 {
        BookMeta { osis: "Deut", book_id: 5, name_zh: "申命記", name_zh_short: "申", name_en: "Deuteronomy", testament: Testament::Old }
    } else if i == 5 {
        BookMeta { osis: "Josh", book_id: 6, name_zh: "約書亞記", name_zh_short: "書", name_en: "Joshua", testament: Testament::Old }
    } else if i == 6 {
        BookMeta { osis: "Judg", book_id: 7, name_zh: "士師記", name_zh_short: "士", name_en: "Judges", testament: Testament::Old }
    } else if i == 7 {
        BookMeta { osis: "Ruth", book_id: 8, name_zh: "路得記", name_zh_short: "得", name_en: "Ruth", testament: Testament::Old }
    } else if i == 8 {
        BookMeta { osis: "1Sam", book_id: 9, name_zh: "撒母耳記上", name_zh_short: "撒上", name_en: "1 Samuel", testament: Testament::Old }
    } else if i == 9 {
        BookMeta { osis: "2Sam", book_id: 10, name_zh: "撒母耳記下", name_zh_short: "撒下", name_en: "2 Samuel", testament: Testament::Old }
    } else if i == 10 {
        BookMeta { osis: "1Kgs", book_id: 11, name_zh: "列王紀上", name_zh_short: "王上", name_en: "1 Kings", testament: Testament::Old }
    } else if i == 11 {
        BookMeta { osis: "2Kgs", book_id: 12, name_zh: "列王紀下", name_zh_short: "王下", name_en: "2 Kings", testament: Testament::Old }
    } else if i == 12 {
        BookMeta { osis: "1Chr", book_id: 13, name_zh: "歷代志上", name_zh_short: "代上", name_en: "1 Chronicles", testament: Testament::Old }
    } else if i == 13 {
        BookMeta { osis: "2Chr", book_id: 14, name_zh: "歷代志下", name_zh_short: "代下", name_en: "2 Chronicles", testament: Testament::Old }
    } else if i == 14 {
        BookMeta { osis: "Ezra", book_id: 15, name_zh: "以斯拉記", name_zh_short: "拉", name_en: "Ezra", testament: Testament::Old }
    } else if i == 15 {
        BookMeta { osis: "Neh", book_id: 16, name_zh: "尼希米記", name_zh_short: "尼", name_en: "Nehemiah", testament: Testament::Old }
    } else if i == 16 {
        BookMeta { osis: "Esth", book_id: 17, name_zh: "以斯帖記", name_zh_short: "斯", name_en: "Esther", testament: Testament::Old }
    } else if i == 17 {
        BookMeta { osis: "Job", book_id: 18, name_zh: "約伯記", name_zh_short: "伯", name_en: "Job", testament: Testament::Old }
    } else if i == 18 {
        BookMeta { osis: "Ps", book_id: 19, name_zh: "詩篇", name_zh_short: "詩", name_en: "Psalms", testament: Testament::Old }
    } else if i == 19 {
        BookMeta { osis: "Prov", book_id: 20, name_zh: "箴言", name_zh_short: "箴", name_en: "Proverbs", testament: Testament::Old }
    } else if i == 20 {
        BookMeta { osis: "Eccl", book_id: 21, name_zh: "傳道書", name_zh_short: "傳", name_en: "Ecclesiastes", testament: Testament::Old }
    } else if i == 21 {
        BookMeta { osis: "Song", book_id: 22, name_zh: "雅歌", name_zh_short: "歌", name_en: "Song of Solomon", testament: Testament::Old }
    } else if i == 22 {
        BookMeta { osis: "Isa", book_id: 23, name_zh: "以賽亞書", name_zh_short: "賽", name_en: "Isaiah", testament: Testament::Old }
    } else if i == 23 {
        BookMeta { osis: "Jer", book_id: 24, name_zh: "耶利米書", name_zh_short: "耶", name_en: "Jeremiah", testament: Testament::Old }
    } else if i == 24 {
        BookMeta { osis: "Lam", book_id: 25, name_zh: "耶利米哀歌", name_zh_short: "哀", name_en: "Lamentations", testament: Testament::Old }
    } else if i == 25 {
        BookMeta { osis: "Ezek", book_id: 26, name_zh: "以西結書", name_zh_short: "結", name_en: "Ezekiel", testament: Testament::Old }
    } else if i == 26 {
        BookMeta { osis: "Dan", book_id: 27, name_zh: "但以理書", name_zh_short: "但", name_en: "Daniel", testament: Testament::Old }
    } else if i == 27 {
        BookMeta { osis: "Hos", book_id: 28, name_zh: "何西阿書", name_zh_short: "何", name_en: "Hosea", testament: Testament::Old }
    } else if i == 28 {
        BookMeta { osis: "Joel", book_id: 29, name_zh: "約珥書", name_zh_short: "珥", name_en: "Joel", testament: Testament::Old }
    } else if i == 29 {
        BookMeta { osis: "Amos", book_id: 30, name_zh: "阿摩司書", name_zh_short: "摩", name_en: "Amos", testament: Testament::Old }
    } else if i == 30 {
        BookMeta { osis: "Obad", book_id: 31, name_zh: "俄巴底亞書", name_zh_short: "俄", name_en: "Obadiah", testament: Testament::Old }
    } else if i == 31 {
        BookMeta { osis: "Jonah", book_id: 32, name_zh: "約拿書", name_zh_short: "拿", name_en: "Jonah", testament: Testament::Old }
    } else if i == 32 {
        BookMeta { osis: "Mic", book_id: 33, name_zh: "彌迦書", name_zh_short: "彌", name_en: "Micah", testament: Testament::Old }
    } else if i == 33 {
        BookMeta { osis: "Nah", book_id: 34, name_zh: "那鴻書", name_zh_short: "鴻", name_en: "Nahum", testament: Testament::Old }
    } else if i == 34 {
        BookMeta { osis: "Hab", book_id: 35, name_zh: "哈巴谷書", name_zh_short: "哈", name_en: "Habakkuk", testament: Testament::Old }
    } else if i == 35 {
        BookMeta { osis: "Zeph", book_id: 36, name_zh: "西番雅書", name_zh_short: "番", name_en: "Zephaniah", testament: Testament::Old }
    } else if i == 36 {
        BookMeta { osis: "Hag", book_id: 37, name_zh: "哈該書", name_zh_short: "該", name_en: "Haggai", testament: Testament::Old }
    } else if i == 37 {
        BookMeta { osis: "Zech", book_id: 38, name_zh: "撒迦利亞書", name_zh_short: "亞", name_en: "Zechariah", testament: Testament::Old }
    } else if i == 38 {
        BookMeta { osis: "Mal", book_id: 39, name_zh: "瑪拉基書", name_zh_short: "瑪", name_en: "Malachi", testament: Testament::Old }
    } else if i == 39 {
        BookMeta { osis: "Matt", book_id: 40, name_zh: "馬太福音", name_zh_short: "太", name_en: "Matthew", testament: Testament::New }
    } else if i == 40 {
        BookMeta { osis: "Mark", book_id: 41, name_zh: "馬可福音", name_zh_short: "可", name_en: "Mark", testament: Testament::New }
    } else if i == 41 {
        BookMeta { osis: "Luke", book_id: 42, name_zh: "路加福音", name_zh_short: "路", name_en: "Luke", testament: Testament::New }
    } else if i == 42 {
        BookMeta { osis: "John", book_id: 43, name_zh: "約翰福音", name_zh_short: "約", name_en: "John", testament: Testament::New }
    } else if i == 43 {
        BookMeta { osis: "Acts", book_id: 44, name_zh: "使徒行傳", name_zh_short: "徒", name_en: "Acts", testament: Testament::New }
    } else if i == 44 {
        BookMeta { osis: "Rom", book_id: 45, name_zh: "羅馬書", name_zh_short: "羅", name_en: "Romans", testament: Testament::New }
    } else if i == 45 {
        BookMeta { osis: "1Cor", book_id: 46, name_zh: "哥林多前書", name_zh_short: "林前", name_en: "1 Corinthians", testament: Testament::New }
    } else if i == 46 {
        BookMeta { osis: "2Cor", book_id: 47, name_zh: "哥林多後書", name_zh_short: "林後", name_en: "2 Corinthians", testament: Testament::New }
    } else if i == 47 {
        BookMeta { osis: "Gal", book_id: 48, name_zh: "加拉太書", name_zh_short: "加", name_en: "Galatians", testament: Testament::New }
    } else if i == 48 {
        BookMeta { osis: "Eph", book_id: 49, name_zh: "以弗所書", name_zh_short: "弗", name_en: "Ephesians", testament: Testament::New }
    } else if i == 49 {
        BookMeta { osis: "Phil", book_id: 50, name_zh: "腓立比書", name_zh_short: "腓", name_en: "Philippians", testament: Testament::New }
    } else if i == 50 {
        BookMeta { osis: "Col", book_id: 51, name_zh: "歌羅西書", name_zh_short: "西", name_en: "Colossians", testament: Testament::New }
    } else if i == 51 {
        BookMeta { osis: "1Thess", book_id: 52, name_zh: "帖撒羅尼迦前書", name_zh_short: "帖前", name_en: "1 Thessalonians", testament: Testament::New }
    } else if i == 52 {
        BookMeta { osis: "2Thess", book_id: 53, name_zh: "帖撒羅尼迦後書", name_zh_short: "帖後", name_en: "2 Thessalonians", testament: Testament::New }
    } else if i == 53 {
        BookMeta { osis: "1Tim", book_id: 54, name_zh: "提摩太前書", name_zh_short: "提前", name_en: "1 Timothy", testament: Testament::New }
    } else if i == 54 {
        BookMeta { osis: "2Tim", book_id: 55, name_zh: "提摩太後書", name_zh_short: "提後", name_en: "2 Timothy", testament: Testament::New }
    } else if i == 55 {
        BookMeta { osis: "Titus", book_id: 56, name_zh: "提多書", name_zh_short: "多", name_en: "Titus", testament: Testament::New }
    } else if i == 56 {
        BookMeta { osis: "Phlm", book_id: 57, name_zh: "腓利門書", name_zh_short: "門", name_en: "Philemon", testament: Testament::New }
    } else if i == 57 {
        BookMeta { osis: "Heb", book_id: 58, name_zh: "希伯來書", name_zh_short: "來", name_en: "Hebrews", testament: Testament::New }
    } else if i == 58 {
        BookMeta { osis: "Jas", book_id: 59, name_zh: "雅各書", name_zh_short: "雅", name_en: "James", testament: Testament::New }
    } else if i == 59 {
        BookMeta { osis: "1Pet", book_id: 60, name_zh: "彼得前書", name_zh_short: "彼前", name_en: "1 Peter", testament: Testament::New }
    } else if i == 60 {
        BookMeta { osis: "2Pet", book_id: 61, name_zh: "彼得後書", name_zh_short: "彼後", name_en: "2 Peter", testament: Testament::New }
    } else if i == 61 {
        BookMeta { osis: "1John", book_id: 62, name_zh: "約翰一書", name_zh_short: "約一", name_en: "1 John", testament: Testament::New }
    } else if i == 62 {
        BookMeta { osis: "2John", book_id: 63, name_zh: "約翰二書", name_zh_short: "約二", name_en: "2 John", testament: Testament::New }
    } else if i == 63 {
        BookMeta { osis: "3John", book_id: 64, name_zh: "約翰三書", name_zh_short: "約三", name_en: "3 John", testament: Testament::New }
    } else if i == 64 {
        BookMeta { osis: "Jude", book_id: 65, name_zh: "猶大書", name_zh_short: "猶", name_en: "Jude", testament: Testament::New }
    } else if i == 65 {
        BookMeta { osis: "Rev", book_id: 66, name_zh: "啟示錄", name_zh_short: "啟", name_en: "Revelation", testament: Testament::New }
    } else {
        BookMeta { osis: "Gen", book_id: 1, name_zh: "創世記", name_zh_short: "創", name_en: "Genesis", testament: Testament::Old }
    }
}

/// Book `index` (0-based) of the canon, or `None` past Revelation.
pub fn canon_at(index: usize) -> (r: Option<BookMeta>)
    ensures
        index < CANON_LEN ==> r == Some(canon_spec(index as int)),
        index >= CANON_LEN ==> r is None,
{
    match index {
        0 => Some(BookMeta { osis: "Gen", book_id: 1, name_zh: "創世記", name_zh_short: "創", name_en: "Genesis", testament: Testament::Old }),
        1 => Some(BookMeta { osis: "Exod", book_id: 2, name_zh: "出埃及記", name_zh_short: "出", name_en: "Exodus", testament: Testament::Old }),
        2 => Some(BookMeta { osis: "Lev", book_id: 3, name_zh: "利未記", name_zh_short: "利", name_en: "Leviticus", testament: Testament::Old }),
        3 => Some(BookMeta { osis: "Num", book_id: 4, name_zh: "民數記", name_zh_short: "民", name_en: "Numbers", testament: Testament::Old }),
        4 => Some(BookMeta { osis: "Deut", book_id: 5, name_zh: "申命記", name_zh_short: "申", name_en: "Deuteronomy", testament: Testament::Old }),
        5 => Some(BookMeta { osis: "Josh", book_id: 6, name_zh: "約書亞記", name_zh_short: "書", name_en: "Joshua", testament: Testament::Old }),
        6 => Some(BookMeta { osis: "Judg", book_id: 7, name_zh: "士師記", name_zh_short: "士", name_en: "Judges", testament: Testament::Old }),
        7 => Some(BookMeta { osis: "Ruth", book_id: 8, name_zh: "路得記", name_zh_short: "得", name_en: "Ruth", testament: Testament::Old }),
        8 => Some(BookMeta { osis: "1Sam", book_id: 9, name_zh: "撒母耳記上", name_zh_short: "撒上", name_en: "1 Samuel", testament: Testament::Old }),
        9 => Some(BookMeta { osis: "2Sam", book_id: 10, name_zh: "撒母耳記下", name_zh_short: "撒下", name_en: "2 Samuel", testament: Testament::Old }),
        10 => Some(BookMeta { osis: "1Kgs", book_id: 11, name_zh: "列王紀上", name_zh_short: "王上", name_en: "1 Kings", testament: Testament::Old }),
        11 => Some(BookMeta { osis: "2Kgs", book_id: 12, name_zh: "列王紀下", name_zh_short: "王下", name_en: "2 Kings", testament: Testament::Old }),
        12 => Some(BookMeta { osis: "1Chr", book_id: 13, name_zh: "歷代志上", name_zh_short: "代上", name_en: "1 Chronicles", testament: Testament::Old }),
        13 => Some(BookMeta { osis: "2Chr", book_id: 14, name_zh: "歷代志下", name_zh_short: "代下", name_en: "2 Chronicles", testament: Testament::Old }),
        14 => Some(BookMeta { osis: "Ezra", book_id: 15, name_zh: "以斯拉記", name_zh_short: "拉", name_en: "Ezra", testament: Testament::Old }),
        15 => Some(BookMeta { osis: "Neh", book_id: 16, name_zh: "尼希米記", name_zh_short: "尼", name_en: "Nehemiah", testament: Testament::Old }),
        16 => Some(BookMeta { osis: "Esth", book_id: 17, name_zh: "以斯帖記", name_zh_short: "斯", name_en: "Esther", testament: Testament::Old }),
        17 => Some(BookMeta { osis: "Job", book_id: 18, name_zh: "約伯記", name_zh_short: "伯", name_en: "Job", testament: Testament::Old }),
        18 => Some(BookMeta { osis: "Ps", book_id: 19, name_zh: "詩篇", name_zh_short: "詩", name_en: "Psalms", testament: Testament::Old }),
        19 => Some(BookMeta { osis: "Prov", book_id: 20, name_zh: "箴言", name_zh_short: "箴", name_en: "Proverbs", testament: Testament::Old }),
        20 => Some(BookMeta { osis: "Eccl", book_id: 21, name_zh: "傳道書", name_zh_short: "傳", name_en: "Ecclesiastes", testament: Testament::Old }),
        21 => Some(BookMeta { osis: "Song", book_id: 22, name_zh: "雅歌", name_zh_short: "歌", name_en: "Song of Solomon", testament: Testament::Old }),
        22 => Some(BookMeta { osis: "Isa", book_id: 23, name_zh: "以賽亞書", name_zh_short: "賽", name_en: "Isaiah", testament: Testament::Old }),
        23 => Some(BookMeta { osis: "Jer", book_id: 24, name_zh: "耶利米書", name_zh_short: "耶", name_en: "Jeremiah", testament: Testament::Old }),
        24 => Some(BookMeta { osis: "Lam", book_id: 25, name_zh: "耶利米哀歌", name_zh_short: "哀", name_en: "Lamentations", testament: Testament::Old }),
        25 => Some(BookMeta { osis: "Ezek", book_id: 26, name_zh: "以西結書", name_zh_short: "結", name_en: "Ezekiel", testament: Testament::Old }),
        26 => Some(BookMeta { osis: "Dan", book_id: 27, name_zh: "但以理書", name_zh_short: "但", name_en: "Daniel", testament: Testament::Old }),
        27 => Some(BookMeta { osis: "Hos", book_id: 28, name_zh: "何西阿書", name_zh_short: "何", name_en: "Hosea", testament: Testament::Old }),
        28 => Some(BookMeta { osis: "Joel", book_id: 29, name_zh: "約珥書", name_zh_short: "珥", name_en: "Joel", testament: Testament::Old }),
        29 => Some(BookMeta { osis: "Amos", book_id: 30, name_zh: "阿摩司書", name_zh_short: "摩", name_en: "Amos", testament: Testament::Old }),
        30 => Some(BookMeta { osis: "Obad", book_id: 31, name_zh: "俄巴底亞書", name_zh_short: "俄", name_en: "Obadiah", testament: Testament::Old }),
        31 => Some(BookMeta { osis: "Jonah", book_id: 32, name_zh: "約拿書", name_zh_short: "拿", name_en: "Jonah", testament: Testament::Old }),
        32 => Some(BookMeta { osis: "Mic", book_id: 33, name_zh: "彌迦書", name_zh_short: "彌", name_en: "Micah", testament: Testament::Old }),
        33 => Some(BookMeta { osis: "Nah", book_id: 34, name_zh: "那鴻書", name_zh_short: "鴻", name_en: "Nahum", testament: Testament::Old }),
        34 => Some(BookMeta { osis: "Hab", book_id: 35, name_zh: "哈巴谷書", name_zh_short: "哈", name_en: "Habakkuk", testament: Testament::Old }),
        35 => Some(BookMeta { osis: "Zeph", book_id: 36, name_zh: "西番雅書", name_zh_short: "番", name_en: "Zephaniah", testament: Testament::Old }),
        36 => Some(BookMeta { osis: "Hag", book_id: 37, name_zh: "哈該書", name_zh_short: "該", name_en: "Haggai", testament: Testament::Old }),
        37 => Some(BookMeta { osis: "Zech", book_id: 38, name_zh: "撒迦利亞書", name_zh_short: "亞", name_en: "Zechariah", testament: Testament::Old }),
        38 => Some(BookMeta { osis: "Mal", book_id: 39, name_zh: "瑪拉基書", name_zh_short: "瑪", name_en: "Malachi", testament: Testament::Old }),
        39 => Some(BookMeta { osis: "Matt", book_id: 40, name_zh: "馬太福音", name_zh_short: "太", name_en: "Matthew", testament: Testament::New }),
        40 => Some(BookMeta { osis: "Mark", book_id: 41, name_zh: "馬可福音", name_zh_short: "可", name_en: "Mark", testament: Testament::New }),
        41 => Some(BookMeta { osis: "Luke", book_id: 42, name_zh: "路加福音", name_zh_short: "路", name_en: "Luke", testament: Testament::New }),
        42 => Some(BookMeta { osis: "John", book_id: 43, name_zh: "約翰福音", name_zh_short: "約", name_en: "John", testament: Testament::New }),
        43 => Some(BookMeta { osis: "Acts", book_id: 44, name_zh: "使徒行傳", name_zh_short: "徒", name_en: "Acts", testament: Testament::New }),
        44 => Some(BookMeta { osis: "Rom", book_id: 45, name_zh: "羅馬書", name_zh_short: "羅", name_en: "Romans", testament: Testament::New }),
        45 => Some(BookMeta { osis: "1Cor", book_id: 46, name_zh: "哥林多前書", name_zh_short: "林前", name_en: "1 Corinthians", testament: Testament::New }),
        46 => Some(BookMeta { osis: "2Cor", book_id: 47, name_zh: "哥林多後書", name_zh_short: "林後", name_en: "2 Corinthians", testament: Testament::New }),
        47 => Some(BookMeta { osis: "Gal", book_id: 48, name_zh: "加拉太書", name_zh_short: "加", name_en: "Galatians", testament: Testament::New }),
        48 => Some(BookMeta { osis: "Eph", book_id: 49, name_zh: "以弗所書", name_zh_short: "弗", name_en: "Ephesians", testament: Testament::New }),
        49 => Some(BookMeta { osis: "Phil", book_id: 50, name_zh: "腓立比書", name_zh_short: "腓", name_en: "Philippians", testament: Testament::New }),
        50 => Some(BookMeta { osis: "Col", book_id: 51, name_zh: "歌羅西書", name_zh_short: "西", name_en: "Colossians", testament: Testament::New }),
        51 => Some(BookMeta { osis: "1Thess", book_id: 52, name_zh: "帖撒羅尼迦前書", name_zh_short: "帖前", name_en: "1 Thessalonians", testament: Testament::New }),
        52 => Some(BookMeta { osis: "2Thess", book_id: 53, name_zh: "帖撒羅尼迦後書", name_zh_short: "帖後", name_en: "2 Thessalonians", testament: Testament::New }),
        53 => Some(BookMeta { osis: "1Tim", book_id: 54, name_zh: "提摩太前書", name_zh_short: "提前", name_en: "1 Timothy", testament: Testament::New }),
        54 => Some(BookMeta { osis: "2Tim", book_id: 55, name_zh: "提摩太後書", name_zh_short: "提後", name_en: "2 Timothy", testament: Testament::New }),
        55 => Some(BookMeta { osis: "Titus", book_id: 56, name_zh: "提多書", name_zh_short: "多", name_en: "Titus", testament: Testament::New }),
        56 => Some(BookMeta { osis: "Phlm", book_id: 57, name_zh: "腓利門書", name_zh_short: "門", name_en: "Philemon", testament: Testament::New }),
        57 => Some(BookMeta { osis: "Heb", book_id: 58, name_zh: "希伯來書", name_zh_short: "來", name_en: "Hebrews", testament: Testament::New }),
        58 => Some(BookMeta { osis: "Jas", book_id: 59, name_zh: "雅各書", name_zh_short: "雅", name_en: "James", testament: Testament::New }),
        59 => Some(BookMeta { osis: "1Pet", book_id: 60, name_zh: "彼得前書", name_zh_short: "彼前", name_en: "1 Peter", testament: Testament::New }),
        60 => Some(BookMeta { osis: "2Pet", book_id: 61, name_zh: "彼得後書", name_zh_short: "彼後", name_en: "2 Peter", testament: Testament::New }),
        61 => Some(BookMeta { osis: "1John", book_id: 62, name_zh: "約翰一書", name_zh_short: "約一", name_en: "1 John", testament: Testament::New }),
        62 => Some(BookMeta { osis: "2John", book_id: 63, name_zh: "約翰二書", name_zh_short: "約二", name_en: "2 John", testament: Testament::New }),
        63 => Some(BookMeta { osis: "3John", book_id: 64, name_zh: "約翰三書", name_zh_short: "約三", name_en: "3 John", testament: Testament::New }),
        64 => Some(BookMeta { osis: "Jude", book_id: 65, name_zh: "猶大書", name_zh_short: "猶", name_en: "Jude", testament: Testament::New }),
        65 => Some(BookMeta { osis: "Rev", book_id: 66, name_zh: "啟示錄", name_zh_short: "啟", name_en: "Revelation", testament: Testament::New }),
        _ => None,
    }
}

/// The whole canon, in order.
pub fn canon() -> (r: Vec<BookMeta>)
    ensures
        r@.len() == CANON_LEN,
        forall|i: int| 0 <= i < CANON_LEN ==> #[trigger] r@[i] == canon_spec(i),
{
    let mut out: Vec<BookMeta> = Vec::new();
    let mut i: usize = 0;
    while i < CANON_LEN
        invariant
            i <= CANON_LEN,
            out@.len() == i,
            forall|j: int| 0 <= j < i ==> #[trigger] out@[j] == canon_spec(j),
        decreases CANON_LEN - i,
    {
        let b = canon_at(i);
        match b {
            Some(m) => out.push(m),
            None => {},
        }
        i = i + 1;
    }
    out
}

/// Number of entries in the alias table.
pub const ALIAS_COUNT: usize = 181;

/// Alias `i`: a common abbreviation and the OSIS id it stands for.
pub open spec fn alias_spec(i: int) -> (&'static str, &'static str) {
    if i == 0 {
        ("ge", "Gen")
    } else if i == 1 {
        ("gn", "Gen")
    } else if i == 2 {
        ("genesis", "Gen")
    } else if i == 3 {
        ("ex", "Exod")
    } else if i == 4 {
        ("exo", "Exod")
    } else if i == 5 {
        ("exodus", "Exod")
    } else if i == 6 {
        ("lev", "Lev")
    } else if i == 7 {
        ("le", "Lev")
    } else if i == 8 {
        ("nu", "Num")
    } else if i == 9 {
        ("nm", "Num")
    } else if i == 10 {
        ("numb", "Num")
    } else if i == 11 {
        ("dt", "Deut")
    } else if i == 12 {
        ("deu", "Deut")
    } else if i == 13 {
        ("deut", "Deut")
    } else if i == 14 {
        ("jos", "Josh")
    } else if i == 15 {
        ("josh", "Josh")
    } else if i == 16 {
        ("jdg", "Judg")
    } else if i == 17 {
        ("jud", "Judg")
    } else if i == 18 {
        ("jdgs", "Judg")
    } else if i == 19 {
        ("judg", "Judg")
    } else if i == 20 {
        ("ru", "Ruth")
    } else if i == 21 {
        ("rut", "Ruth")
    } else if i == 22 {
        ("1sa", "1Sam")
    } else if i == 23 {
        ("1sam", "1Sam")
    } else if i == 24 {
        ("1sm", "1Sam")
    } else if i == 25 {
        ("2sa", "2Sam")
    } else if i == 26 {
        ("2sam", "2Sam")
    } else if i == 27 {
        ("2sm", "2Sam")
    } else if i == 28 {
        ("1ki", "1Kgs")
    } else if i == 29 {
        ("1kg", "1Kgs")
    } else if i == 30 {
        ("1kgs", "1Kgs")
    } else if i == 31 {
        ("1kin", "1Kgs")
    } else if i == 32 {
        ("2ki", "2Kgs")
    } else if i == 33 {
        ("2kg", "2Kgs")
    } else if i == 34 {
        ("2kgs", "2Kgs")
    } else if i == 35 {
        ("2kin", "2Kgs")
    } else if i == 36 {
        ("1ch", "1Chr")
    } else if i == 37 {
        ("1chr", "1Chr")
    } else if i == 38 {
        ("1chron", "1Chr")
    } else if i == 39 {
        ("2ch", "2Chr")
    } else if i == 40 {
        ("2chr", "2Chr")
    } else if i == 41 {
        ("2chron", "2Chr")
    } else if i == 42 {
        ("ezr", "Ezra")
    } else if i == 43 {
        ("ezra", "Ezra")
    } else if i == 44 {
        ("ne", "Neh")
    } else if i == 45 {
        ("neh", "Neh")
    } else if i == 46 {
        ("es", "Esth")
    } else if i == 47 {
        ("est", "Esth")
    } else if i == 48 {
        ("esth", "Esth")
    } else if i == 49 {
        ("job", "Job")
    } else if i == 50 {
        ("ps", "Ps")
    } else if i == 51 {
        ("psa", "Ps")
    } else if i == 52 {
        ("psm", "Ps")
    } else if i == 53 {
        ("psalm", "Ps")
    } else if i == 54 {
        ("psalms", "Ps")
    } else if i == 55 {
        ("pr", "Prov")
    } else if i == 56 {
        ("pro", "Prov")
    } else if i == 57 {
        ("prv", "Prov")
    } else if i == 58 {
        ("prov", "Prov")
    } else if i == 59 {
        ("ec", "Eccl")
    } else if i == 60 {
        ("ecc", "Eccl")
    } else if i == 61 {
        ("eccl", "Eccl")
    } else if i == 62 {
        ("qoh", "Eccl")
    } else if i == 63 {
        ("so", "Song")
    } else if i == 64 {
        ("sos", "Song")
    } else if i == 65 {
        ("song", "Song")
    } else if i == 66 {
        ("cant", "Song")
    } else if i == 67 {
        ("ss", "Song")
    } else if i == 68 {
        ("is", "Isa")
    } else if i == 69 {
        ("isa", "Isa")
    } else if i == 70 {
        ("je", "Jer")
    } else if i == 71 {
        ("jer", "Jer")
    } else if i == 72 {
        ("la", "Lam")
    } else if i == 73 {
        ("lam", "Lam")
    } else if i == 74 {
        ("eze", "Ezek")
    } else if i == 75 {
        ("ezk", "Ezek")
    } else if i == 76 {
        ("ezek", "Ezek")
    } else if i == 77 {
        ("da", "Dan")
    } else if i == 78 {
        ("dan", "Dan")
    } else if i == 79 {
        ("ho", "Hos")
    } else if i == 80 {
        ("hos", "Hos")
    } else if i == 81 {
        ("joe", "Joel")
    } else if i == 82 {
        ("joel", "Joel")
    } else if i == 83 {
        ("am", "Amos")
    } else if i == 84 {
        ("amo", "Amos")
    } else if i == 85 {
        ("amos", "Amos")
    } else if i == 86 {
        ("ob", "Obad")
    } else if i == 87 {
        ("oba", "Obad")
    } else if i == 88 {
        ("obad", "Obad")
    } else if i == 89 {
        ("jon", "Jonah")
    } else if i == 90 {
        ("jnh", "Jonah")
    } else if i == 91 {
        ("jonah", "Jonah")
    } else if i == 92 {
        ("mi", "Mic")
    } else if i == 93 {
        ("mic", "Mic")
    } else if i == 94 {
        ("na", "Nah")
    } else if i == 95 {
        ("nah", "Nah")
    } else if i == 96 {
        ("hab", "Hab")
    } else if i == 97 {
        ("zep", "Zeph")
    } else if i == 98 {
        ("zeph", "Zeph")
    } else if i == 99 {
        ("hag", "Hag")
    } else if i == 100 {
        ("zec", "Zech")
    } else if i == 101 {
        ("zech", "Zech")
    } else if i == 102 {
        ("mal", "Mal")
    } else if i == 103 {
        ("mt", "Matt")
    } else if i == 104 {
        ("mat", "Matt")
    } else if i == 105 {
        ("matt", "Matt")
    } else if i == 106 {
        ("mk", "Mark")
    } else if i == 107 {
        ("mr", "Mark")
    } else if i == 108 {
        ("mar", "Mark")
    } else if i == 109 {
        ("mrk", "Mark")
    } else if i == 110 {
        ("lk", "Luke")
    } else if i == 111 {
        ("lu", "Luke")
    } else if i == 112 {
        ("luk", "Luke")
    } else if i == 113 {
        ("jn", "John")
    } else if i == 114 {
        ("joh", "John")
    } else if i == 115 {
        ("jhn", "John")
    } else if i == 116 {
        ("ac", "Acts")
    } else if i == 117 {
        ("act", "Acts")
    } else if i == 118 {
        ("ro", "Rom")
    } else if i == 119 {
        ("rm", "Rom")
    } else if i == 120 {
        ("rom", "Rom")
    } else if i == 121 {
        ("1co", "1Cor")
    } else if i == 122 {
        ("1cor", "1Cor")
    } else if i == 123 {
        ("2co", "2Cor")
    } else if i == 124 {
        ("2cor", "2Cor")
    } else if i == 125 {
        ("ga", "Gal")
    } else if i == 126 {
        ("gal", "Gal")
    } else if i == 127 {
        ("ep", "Eph")
    } else if i == 128 {
        ("eph", "Eph")
    } else if i == 129 {
        ("php", "Phil")
    } else if i == 130 {
        ("phi", "Phil")
    } else if i == 131 {
        ("phil", "Phil")
    } else if i == 132 {
        ("col", "Col")
    } else if i == 133 {
        ("1th", "1Thess")
    } else if i == 134 {
        ("1thess", "1Thess")
    } else if i == 135 {
        ("1thes", "1Thess")
    } else if i == 136 {
        ("2th", "2Thess")
    } else if i == 137 {
        ("2thess", "2Thess")
    } else if i == 138 {
        ("2thes", "2Thess")
    } else if i == 139 {
        ("1ti", "1Tim")
    } else if i == 140 {
        ("1tim", "1Tim")
    } else if i == 141 {
        ("1tm", "1Tim")
    } else if i == 142 {
        ("2ti", "2Tim")
    } else if i == 143 {
        ("2tim", "2Tim")
    } else if i == 144 {
        ("2tm", "2Tim")
    } else if i == 145 {
        ("tit", "Titus")
    } else if i == 146 {
        ("ti", "Titus")
    } else if i == 147 {
        ("phm", "Phlm")
    } else if i == 148 {
        ("phlm", "Phlm")
    } else if i == 149 {
        ("heb", "Heb")
    } else if i == 150 {
        ("jas", "Jas")
    } else if i == 151 {
        ("jam", "Jas")
    } else if i == 152 {
        ("jm", "Jas")
    } else if i == 153 {
        ("1pe", "1Pet")
    } else if i == 154 {
        ("1pet", "1Pet")
    } else if i == 155 {
        ("1pt", "1Pet")
    } else if i == 156 {
        ("2pe", "2Pet")
    } else if i == 157 {
        ("2pet", "2Pet")
    } else if i == 158 {
        ("2pt", "2Pet")
    } else if i == 159 {
        ("1jn", "1John")
    } else if i == 160 {
        ("1jo", "1John")
    } else if i == 161 {
        ("1jhn", "1John")
    } else if i == 162 {
        ("1john", "1John")
    } else if i == 163 {
        ("2jn", "2John")
    } else if i == 164 {
        ("2jo", "2John")
    } else if i == 165 {
        ("2jhn", "2John")
    } else if i == 166 {
        ("2john", "2John")
    } else if i == 167 {
        ("3jn", "3John")
    } else if i == 168 {
        ("3jo", "3John")
    } else if i == 169 {
        ("3jhn", "3John")
    } else if i == 170 {
        ("3john", "3John")
    } else if i == 171 {
        ("jud", "Jude")
    } else if i == 172 {
        ("jude", "Jude")
    } else if i == 173 {
        ("re", "Rev")
    } else if i == 174 {
        ("rev", "Rev")
    } else if i == 175 {
        ("rv", "Rev")
    } else if i == 176 {
        ("約翰", "John")
    } else if i == 177 {
        ("馬太", "Matt")
    } else if i == 178 {
        ("馬可", "Mark")
    } else if i == 179 {
        ("路加", "Luke")
    } else if i == 180 {
        ("詩篇", "Ps")
    } else {
        ("ge", "Gen")
    }
}

fn alias_at(i: usize) -> (r: Option<(&'static str, &'static str)>)
    ensures
        i < ALIAS_COUNT ==> r == Some(alias_spec(i as int)),
{
    match i {
        0 => Some(("ge", "Gen")),
        1 => Some(("gn", "Gen")),
        2 => Some(("genesis", "Gen")),
        3 => Some(("ex", "Exod")),
        4 => Some(("exo", "Exod")),
        5 => Some(("exodus", "Exod")),
        6 => Some(("lev", "Lev")),
        7 => Some(("le", "Lev")),
        8 => Some(("nu", "Num")),
        9 => Some(("nm", "Num")),
        10 => Some(("numb", "Num")),
        11 => Some(("dt", "Deut")),
        12 => Some(("deu", "Deut")),
        13 => Some(("deut", "Deut")),
        14 => Some(("jos", "Josh")),
        15 => Some(("josh", "Josh")),
        16 => Some(("jdg", "Judg")),
        17 => Some(("jud", "Judg")),
        18 => Some(("jdgs", "Judg")),
        19 => Some(("judg", "Judg")),
        20 => Some(("ru", "Ruth")),
        21 => Some(("rut", "Ruth")),
        22 => Some(("1sa", "1Sam")),
        23 => Some(("1sam", "1Sam")),
        24 => Some(("1sm", "1Sam")),
        25 => Some(("2sa", "2Sam")),
        26 => Some(("2sam", "2Sam")),
        27 => Some(("2sm", "2Sam")),
        28 => Some(("1ki", "1Kgs")),
        29 => Some(("1kg", "1Kgs")),
        30 => Some(("1kgs", "1Kgs")),
        31 => Some(("1kin", "1Kgs")),
        32 => Some(("2ki", "2Kgs")),
        33 => Some(("2kg", "2Kgs")),
        34 => Some(("2kgs", "2Kgs")),
        35 => Some(("2kin", "2Kgs")),
        36 => Some(("1ch", "1Chr")),
        37 => Some(("1chr", "1Chr")),
        38 => Some(("1chron", "1Chr")),
        39 => Some(("2ch", "2Chr")),
        40 => Some(("2chr", "2Chr")),
        41 => Some(("2chron", "2Chr")),
        42 => Some(("ezr", "Ezra")),
        43 => Some(("ezra", "Ezra")),
        44 => Some(("ne", "Neh")),
        45 => Some(("neh", "Neh")),
        46 => Some(("es", "Esth")),
        47 => Some(("est", "Esth")),
        48 => Some(("esth", "Esth")),
        49 => Some(("job", "Job")),
        50 => Some(("ps", "Ps")),
        51 => Some(("psa", "Ps")),
        52 => Some(("psm", "Ps")),
        53 => Some(("psalm", "Ps")),
        54 => Some(("psalms", "Ps")),
        55 => Some(("pr", "Prov")),
        56 => Some(("pro", "Prov")),
        57 => Some(("prv", "Prov")),
        58 => Some(("prov", "Prov")),
        59 => Some(("ec", "Eccl")),
        60 => Some(("ecc", "Eccl")),
        61 => Some(("eccl", "Eccl")),
        62 => Some(("qoh", "Eccl")),
        63 => Some(("so", "Song")),
        64 => Some(("sos", "Song")),
        65 => Some(("song", "Song")),
        66 => Some(("cant", "Song")),
        67 => Some(("ss", "Song")),
        68 => Some(("is", "Isa")),
        69 => Some(("isa", "Isa")),
        70 => Some(("je", "Jer")),
        71 => Some(("jer", "Jer")),
        72 => Some(("la", "Lam")),
        73 => Some(("lam", "Lam")),
        74 => Some(("eze", "Ezek")),
        75 => Some(("ezk", "Ezek")),
        76 => Some(("ezek", "Ezek")),
        77 => Some(("da", "Dan")),
        78 => Some(("dan", "Dan")),
        79 => Some(("ho", "Hos")),
        80 => Some(("hos", "Hos")),
        81 => Some(("joe", "Joel")),
        82 => Some(("joel", "Joel")),
        83 => Some(("am", "Amos")),
        84 => Some(("amo", "Amos")),
        85 => Some(("amos", "Amos")),
        86 => Some(("ob", "Obad")),
        87 => Some(("oba", "Obad")),
        88 => Some(("obad", "Obad")),
        89 => Some(("jon", "Jonah")),
        90 => Some(("jnh", "Jonah")),
        91 => Some(("jonah", "Jonah")),
        92 => Some(("mi", "Mic")),
        93 => Some(("mic", "Mic")),
        94 => Some(("na", "Nah")),
        95 => Some(("nah", "Nah")),
        96 => Some(("hab", "Hab")),
        97 => Some(("zep", "Zeph")),
        98 => Some(("zeph", "Zeph")),
        99 => Some(("hag", "Hag")),
        100 => Some(("zec", "Zech")),
        101 => Some(("zech", "Zech")),
        102 => Some(("mal", "Mal")),
        103 => Some(("mt", "Matt")),
        104 => Some(("mat", "Matt")),
        105 => Some(("matt", "Matt")),
        106 => Some(("mk", "Mark")),
        107 => Some(("mr", "Mark")),
        108 => Some(("mar", "Mark")),
        109 => Some(("mrk", "Mark")),
        110 => Some(("lk", "Luke")),
        111 => Some(("lu", "Luke")),
        112 => Some(("luk", "Luke")),
        113 => Some(("jn", "John")),
        114 => Some(("joh", "John")),
        115 => Some(("jhn", "John")),
        116 => Some(("ac", "Acts")),
        117 => Some(("act", "Acts")),
        118 => Some(("ro", "Rom")),
        119 => Some(("rm", "Rom")),
        120 => Some(("rom", "Rom")),
        121 => Some(("1co", "1Cor")),
        122 => Some(("1cor", "1Cor")),
        123 => Some(("2co", "2Cor")),
        124 => Some(("2cor", "2Cor")),
        125 => Some(("ga", "Gal")),
        126 => Some(("gal", "Gal")),
        127 => Some(("ep", "Eph")),
        128 => Some(("eph", "Eph")),
        129 => Some(("php", "Phil")),
        130 => Some(("phi", "Phil")),
        131 => Some(("phil", "Phil")),
        132 => Some(("col", "Col")),
        133 => Some(("1th", "1Thess")),
        134 => Some(("1thess", "1Thess")),
        135 => Some(("1thes", "1Thess")),
        136 => Some(("2th", "2Thess")),
        137 => Some(("2thess", "2Thess")),
        138 => Some(("2thes", "2Thess")),
        139 => Some(("1ti", "1Tim")),
        140 => Some(("1tim", "1Tim")),
        141 => Some(("1tm", "1Tim")),
        142 => Some(("2ti", "2Tim")),
        143 => Some(("2tim", "2Tim")),
        144 => Some(("2tm", "2Tim")),
        145 => Some(("tit", "Titus")),
        146 => Some(("ti", "Titus")),
        147 => Some(("phm", "Phlm")),
        148 => Some(("phlm", "Phlm")),
        149 => Some(("heb", "Heb")),
        150 => Some(("jas", "Jas")),
        151 => Some(("jam", "Jas")),
        152 => Some(("jm", "Jas")),
        153 => Some(("1pe", "1Pet")),
        154 => Some(("1pet", "1Pet")),
        155 => Some(("1pt", "1Pet")),
        156 => Some(("2pe", "2Pet")),
        157 => Some(("2pet", "2Pet")),
        158 => Some(("2pt", "2Pet")),
        159 => Some(("1jn", "1John")),
        160 => Some(("1jo", "1John")),
        161 => Some(("1jhn", "1John")),
        162 => Some(("1john", "1John")),
        163 => Some(("2jn", "2John")),
        164 => Some(("2jo", "2John")),
        165 => Some(("2jhn", "2John")),
        166 => Some(("2john", "2John")),
        167 => Some(("3jn", "3John")),
        168 => Some(("3jo", "3John")),
        169 => Some(("3jhn", "3John")),
        170 => Some(("3john", "3John")),
        171 => Some(("jud", "Jude")),
        172 => Some(("jude", "Jude")),
        173 => Some(("re", "Rev")),
        174 => Some(("rev", "Rev")),
        175 => Some(("rv", "Rev")),
        176 => Some(("約翰", "John")),
        177 => Some(("馬太", "Matt")),
        178 => Some(("馬可", "Mark")),
        179 => Some(("路加", "Luke")),
        180 => Some(("詩篇", "Ps")),
        _ => None,
    }
}

/// Whether `key` (already trimmed) names book `b`: its OSIS id or English name ignoring
/// ASCII case, its Chinese name or abbreviation exactly, or its number.
pub open spec fn book_matches(b: BookMeta, key: Seq<char>) -> bool {
    ||| text::eq_ic(b.osis@, key)
    ||| b.name_zh@ == key
    ||| b.name_zh_short@ == key
    ||| text::eq_ic(b.name_en@, key)
    ||| text::parse_u32(key) == Some(b.book_id)
}

/// The first book at or after `i` that `key` names.
pub open spec fn first_book_match(key: Seq<char>, i: int) -> Option<int>
    decreases CANON_LEN - i,
{
    if i < 0 || i >= CANON_LEN {
        None
    } else if book_matches(canon_spec(i), key) {
        Some(i)
    } else {
        first_book_match(key, i + 1)
    }
}

/// An ASCII key matches an alias ignoring ASCII case; any other key must be equal.
pub open spec fn alias_matches(alias: Seq<char>, key: Seq<char>) -> bool {
    if text::all_ascii(key) {
        text::eq_ic(alias, key)
    } else {
        alias == key
    }
}

/// The first alias at or after `j` that matches `key`.
pub open spec fn first_alias_match(key: Seq<char>, j: int) -> Option<int>
    decreases ALIAS_COUNT - j,
{
    if j < 0 || j >= ALIAS_COUNT {
        None
    } else if alias_matches(alias_spec(j).0@, key) {
        Some(j)
    } else {
        first_alias_match(key, j + 1)
    }
}

/// The first book at or after `i` whose OSIS id is exactly `osis`.
pub open spec fn first_osis_match(osis: Seq<char>, i: int) -> Option<int>
    decreases CANON_LEN - i,
{
    if i < 0 || i >= CANON_LEN {
        None
    } else if canon_spec(i).osis@ == osis {
        Some(i)
    } else {
        first_osis_match(osis, i + 1)
    }
}

/// What `lookup_canon` finds for `key`: the first book that the trimmed key names, else
/// the book of the first alias that it matches; nothing for a blank key.
pub open spec fn lookup_canon_spec(key: Seq<char>) -> Option<BookMeta> {
    let k = text::trim(key);
    if k.len() == 0 {
        None
    } else {
        match first_book_match(k, 0) {
            Some(i) => Some(canon_spec(i)),
            None => match first_alias_match(k, 0) {
                Some(j) => match first_osis_match(alias_spec(j).1@, 0) {
                    Some(i) => Some(canon_spec(i)),
                    None => None,
                },
                None => None,
            },
        }
    }
}

fn book_matches_exec(b: &BookMeta, key: &[char], key_num: Option<u32>) -> (r: bool)
    requires
        key_num == text::parse_u32(key@),
    ensures
        r == book_matches(*b, key@),
{
    let osis = chars_of(b.osis);
    if slice_eq_ic(osis.as_slice(), key) {
        return true;
    }
    let zh = chars_of(b.name_zh);
    if slice_eq(zh.as_slice(), key) {
        return true;
    }
    let short = chars_of(b.name_zh_short);
    if slice_eq(short.as_slice(), key) {
        return true;
    }
    let en = chars_of(b.name_en);
    if slice_eq_ic(en.as_slice(), key) {
        return true;
    }
    match key_num {
        Some(n) => n == b.book_id,
        None => false,
    }
}

/// `lookup_canon` on the characters of a key.
pub fn lookup_canon_chars(key: &[char]) -> (r: Option<BookMeta>)
    ensures
        r == lookup_canon_spec(key@),
{
    let (a, b) = trim_bounds(key);
    let k = vstd::slice::slice_subrange(key, a, b);
    if k.len() == 0 {
        return None;
    }
    let key_num = parse_u32_slice(k);
    let mut i: usize = 0;
    while i < CANON_LEN
        invariant
            i <= CANON_LEN,
            k@ == text::trim(key@),
            k@.len() > 0,
            key_num == text::parse_u32(k@),
            first_book_match(k@, 0) == first_book_match(k@, i as int),
        decreases CANON_LEN - i,
    {
        let book = canon_at(i).unwrap();
        if book_matches_exec(&book, k, key_num) {
            return Some(book);
        }
        i = i + 1;
    }
    let ascii = slice_all_ascii(k);
    let mut j: usize = 0;
    while j < ALIAS_COUNT
        invariant
            j <= ALIAS_COUNT,
            k@ == text::trim(key@),
            k@.len() > 0,
            ascii == text::all_ascii(k@),
            first_book_match(k@, 0) is None,
            first_alias_match(k@, 0) == first_alias_match(k@, j as int),
        decreases ALIAS_COUNT - j,
    {
        let (alias, osis) = alias_at(j).unwrap();
        let ac = chars_of(alias);
        let hit = if ascii {
            slice_eq_ic(ac.as_slice(), k)
        } else {
            slice_eq(ac.as_slice(), k)
        };
        if hit {
            assert(first_alias_match(k@, j as int) == Some(j as int));
            let mut n: usize = 0;
            while n < CANON_LEN
                invariant
                    n <= CANON_LEN,
                    osis@ == alias_spec(j as int).1@,
                    k@ == text::trim(key@),
                    k@.len() > 0,
                    first_book_match(k@, 0) is None,
                    first_alias_match(k@, 0) == Some(j as int),
                    first_osis_match(osis@, 0) == first_osis_match(osis@, n as int),
                decreases CANON_LEN - n,
            {
                let book = canon_at(n).unwrap();
                if str_eq(book.osis, osis) {
                    return Some(book);
                }
                n = n + 1;
            }
            return None;
        }
        j = j + 1;
    }
    None
}

/// Look up a book by OSIS id or English name (ignoring ASCII case), Chinese name or
/// abbreviation, 1-based number, or a common alias such as `jn` or `約翰`.
pub fn lookup_canon(key: &str) -> (r: Option<BookMeta>)
    ensures
        r == lookup_canon_spec(key@),
{
    let c = chars_of(key);
    lookup_canon_chars(c.as_slice())
}

/// Parsed scripture reference from user jump input.
#[derive(Debug, Clone, Copy, PartialEq, Eq)]
pub struct BibleRef {
    pub book: BookMeta,
    pub chapter: u32,
    pub verse: Option<u32>,
}

/// Length of the run of ASCII digits at the end of `s`.
pub open spec fn trailing_digits(s: Seq<char>) -> nat
    decreases s.len(),
{
    if s.len() > 0 && text::is_digit(s.last()) {
        1 + trailing_digits(s.drop_last())
    } else {
        0
    }
}

proof fn lemma_trailing_digits_at(s: Seq<char>, k: int)
    requires
        0 <= k <= s.len(),
        forall|i: int| k <= i < s.len() ==> text::is_digit(#[trigger] s[i]),
        k == 0 || !text::is_digit(s[k - 1]),
    ensures
        trailing_digits(s) == s.len() - k,
    decreases s.len() - k,
{
    if k < s.len() {
        let t = s.drop_last();
        assert forall|i: int| k <= i < t.len() implies text::is_digit(#[trigger] t[i]) by {
            assert(t[i] == s[i]);
        }
        if k > 0 {
            assert(t[k - 1] == s[k - 1]);
        }
        lemma_trailing_digits_at(t, k);
    }
}

/// The head of a reference and its verse, split at the last `:` when what follows it
/// (trimmed) is a non-empty run of ASCII digits; `None` when that verse is 0 or too large.
pub open spec fn split_verse(s: Seq<char>) -> Option<(Seq<char>, Option<u32>)> {
    match text::last_index_of(s, ':') {
        Some(idx) => {
            let after = text::trim(s.skip(idx + 1));
            if after.len() == 0 || !text::all_digits(after) {
                Some((s, None))
            } else {
                match text::parse_u32(after) {
                    Some(v) => if v == 0 {
                        None
                    } else {
                        Some((text::trim_end(s.take(idx)), Some(v)))
                    },
                    None => None,
                }
            }
        },
        None => Some((s, None)),
    }
}

/// What `parse_bible_ref` returns for `raw`: the trimmed input is split into a head and
/// an optional verse; the head (trimmed at its end) must end in a chapter number (ASCII
/// digits, not 0, fitting `u32`) preceded by a non-blank book key that `lookup_canon` knows.
pub open spec fn parse_ref_spec(raw: Seq<char>) -> Option<BibleRef> {
    let s = text::trim(raw);
    if s.len() == 0 {
        None
    } else {
        match split_verse(s) {
            None => None,
            Some((head0, verse)) => {
                let head = text::trim_end(head0);
                let n = trailing_digits(head);
                let cs = head.len() - n;
                if n == 0 {
                    None
                } else {
                    match text::parse_u32(head.skip(cs)) {
                        None => None,
                        Some(chapter) => if chapter == 0 {
                            None
                        } else {
                            let key = text::trim(head.take(cs));
                            if key.len() == 0 {
                                None
                            } else {
                                match lookup_canon_spec(key) {
                                    None => None,
                                    Some(book) => Some(BibleRef { book, chapter, verse }),
                                }
                            }
                        },
                    }
                }
            },
        }
    }
}

/// A parsed reference never names chapter 0 or verse 0, and its book is one that
/// `lookup_canon` finds.
pub proof fn law_refs_count_from_one(raw: Seq<char>)
    ensures
        parse_ref_spec(raw) matches Some(r) ==> {
            &&& r.chapter > 0
            &&& (r.verse matches Some(v) ==> v > 0)
            &&& exists|key: Seq<char>| lookup_canon_spec(key) == Some(r.book)
        },
{
    let s = text::trim(raw);
    if let Some(r) = parse_ref_spec(raw) {
        let (head0, verse) = split_verse(s).unwrap();
        let head = text::trim_end(head0);
        let cs = head.len() - trailing_digits(head);
        let key = text::trim(head.take(cs));
        assert(lookup_canon_spec(key) == Some(r.book));
    }
}

proof fn lemma_digit_char(d: nat)
    requires
        d < 10,
    ensures
        text::is_digit(text::digit_char(d)),
        !text::is_ws(text::digit_char(d)),
        text::digit_value(text::digit_char(d), 10) == Some(d),
{
}

proof fn lemma_decimal_reads_back(n: nat)
    ensures
        text::decimal(n).len() > 0,
        forall|i: int| 0 <= i < text::decimal(n).len() ==> text::is_digit(#[trigger] text::decimal(n)[i]),
        text::all_radix_digits(text::decimal(n), 10),
        text::radix_value(text::decimal(n), 10) == n,
    decreases n,
{
    let s = text::decimal(n);
    if n < 10 {
        lemma_digit_char(n);
        assert(s.drop_last() =~= Seq::<char>::empty());
        assert(text::radix_value(s.drop_last(), 10) == 0);
        assert(text::radix_value(s, 10) == text::radix_value(s.drop_last(), 10) * 10
            + text::digit_value(s.last(), 10).unwrap_or(0));
    } else {
        lemma_decimal_reads_back(n / 10);
        lemma_digit_char(n % 10);
        let p = text::decimal(n / 10);
        assert(s.drop_last() =~= p);
        assert(s.last() == text::digit_char(n % 10));
        assert forall|i: int| 0 <= i < s.len() implies text::is_digit(#[trigger] s[i]) by {
            if i < p.len() {
                assert(s[i] == p[i]);
            }
        }
        assert forall|i: int| 0 <= i < s.len() implies (#[trigger] text::digit_value(s[i], 10)) is Some by {
            if i < p.len() {
                assert(s[i] == p[i]);
                assert(text::digit_value(p[i], 10) is Some);
            }
        }
        assert(n == (n / 10) * 10 + n % 10) by (nonlinear_arith);
        assert(text::radix_value(s, 10) == text::radix_value(p, 10) * 10
            + text::digit_value(s.last(), 10).unwrap_or(0));
        assert(text::radix_value(p, 10) * 10 == (n / 10) * 10);
    }
}

proof fn lemma_decimal_parses(n: u32)
    ensures
        text::parse_u32(text::decimal(n as nat)) == Some(n),
        text::trim(text::decimal(n as nat)) == text::decimal(n as nat),
        text::all_digits(text::decimal(n as nat)),
{
    lemma_decimal_reads_back(n as nat);
    let s = text::decimal(n as nat);
    assert(text::is_digit(s[0]));
    assert(text::is_digit(s.last()));
}

/// Parsing reads back a reference written as a book key, a space, a chapter, a colon and
/// a verse: the book is the one that the whole key names (`1 John` is First John, not
/// John), with that chapter and verse. The key is one that `lookup_canon` knows, with no
/// space at either end and not ending in a digit.
pub proof fn law_parse_reads_what_was_written(key: Seq<char>, c: u32, v: u32)
    requires
        lookup_canon_spec(key) is Some,
        key.len() > 0,
        !text::is_ws(key[0]),
        !text::is_ws(key.last()),
        !text::is_digit(key.last()),
        c > 0,
        v > 0,
    ensures
        parse_ref_spec(key + " "@ + text::decimal(c as nat) + ":"@ + text::decimal(v as nat))
            == Some(BibleRef { book: lookup_canon_spec(key).unwrap(), chapter: c, verse: Some(v) }),
{
    reveal_strlit(" ");
    reveal_strlit(":");
    let dc = text::decimal(c as nat);
    let dv = text::decimal(v as nat);
    lemma_decimal_parses(c);
    lemma_decimal_parses(v);
    let k2 = key + " "@;
    let a = k2 + dc;
    let s = a + ":"@ + dv;
    let la = a.len() as int;
    // the text is already trimmed
    assert(s[0] == key[0]);
    assert(s.last() == dv.last());
    assert(text::is_digit(dv[dv.len() - 1]));
    assert(text::trim_start(s) == s);
    assert(text::trim_end(s) == s);
    assert(text::trim(s) == s);
    // the last colon is the one before the verse
    assert(s[la] == ':');
    assert forall|j: int| la < j < s.len() implies s[j] != ':' by {
        assert(s[j] == dv[j - la - 1]);
        assert(text::is_digit(dv[j - la - 1]));
    }
    let i = choose|i: int| 0 <= i < s.len() && s[i] == ':' && forall|j: int| i < j < s.len() ==> s[j] != ':';
    assert(i == la) by {
        if i < la {
            assert(s[la] == ':');
        } else if i > la {
            assert(s[i] != ':');
        }
    }
    assert(text::last_index_of(s, ':') == Some(la));
    assert(s.skip(la + 1) =~= dv);
    assert(s.take(la) =~= a);
    assert(a.last() == dc.last());
    assert(text::is_digit(dc[dc.len() - 1]));
    assert(text::trim_end(a) == a);
    assert(split_verse(s) == Some((a, Some(v))));
    // the chapter is the run of digits after the space
    let ks = k2.len() as int;
    assert forall|j: int| ks <= j < a.len() implies text::is_digit(#[trigger] a[j]) by {
        assert(a[j] == dc[j - ks]);
    }
    assert(a[ks - 1] == ' ');
    lemma_trailing_digits_at(a, ks);
    assert(a.skip(ks) =~= dc);
    assert(a.take(ks) =~= k2);
    // the key is everything before that space
    assert(k2[0] == key[0]);
    assert(text::trim_start(k2) == k2);
    assert(k2.drop_last() =~= key);
    assert(text::trim_end(key) == key);
    assert(text::trim_end(k2) == text::trim_end(k2.drop_last()));
    assert(text::trim(k2) == key);
}

proof fn lemma_book_named_from(key: Seq<char>, i: int, s: int)
    requires
        0 <= s <= i < CANON_LEN,
        book_matches(canon_spec(i), key),
    ensures
        first_book_match(key, s) matches Some(j) && s <= j <= i,
    decreases i - s,
{
    if s < i && !book_matches(canon_spec(s), key) {
        lemma_book_named_from(key, i, s + 1);
    }
}

/// A key that names canonical book `i` (trimmed: its OSIS id or English name in any ASCII
/// case, its Chinese name or abbreviation, or its number) always finds a book: book `i`
/// or one before it.
pub proof fn law_lookup_finds_named_book(key: Seq<char>, i: int)
    requires
        0 <= i < CANON_LEN,
        text::trim(key).len() > 0,
        ({
            let k = text::trim(key);
            let m = canon_spec(i);
            ||| text::eq_ic(m.osis@, k)
            ||| m.name_zh@ == k
            ||| m.name_zh_short@ == k
            ||| text::eq_ic(m.name_en@, k)
            ||| text::parse_u32(k) == Some(m.book_id)
        }),
    ensures
        exists|j: int| 0 <= j <= i && lookup_canon_spec(key) == Some(canon_spec(j)),
{
    lemma_book_named_from(text::trim(key), i, 0);
    let j = first_book_match(text::trim(key), 0).unwrap();
    assert(lookup_canon_spec(key) == Some(canon_spec(j)));
}

fn trailing_digit_start(s: &[char]) -> (k: usize)
    ensures
        k <= s@.len(),
        trailing_digits(s@) == s@.len() - k,
{
    let mut k: usize = s.len();
    while k > 0 && char_is_digit(s[k - 1])
        invariant
            k <= s@.len(),
            forall|i: int| k <= i < s@.len() ==> text::is_digit(#[trigger] s@[i]),
        decreases k,
    {
        k = k - 1;
    }
    proof {
        lemma_trailing_digits_at(s@, k as int);
    }
    k
}

/// Parse refs like `約3:16`, `創 1`, `Gen 1:1`, `1Cor13:4`.
pub fn parse_bible_ref(raw: &str) -> (r: Option<BibleRef>)
    ensures
        r == parse_ref_spec(raw@),
{
    let c = chars_of(raw);
    let (a, b) = trim_bounds(c.as_slice());
    let s = vstd::slice::slice_subrange(c.as_slice(), a, b);
    if s.len() == 0 {
        return None;
    }
    let (head0, verse): (&[char], Option<u32>) = match rfind_char(s, ':') {
        Some(idx) => {
            let after_full = vstd::slice::slice_subrange(s, idx + 1, s.len());
            assert(after_full@ =~= s@.skip(idx + 1));
            let (x, y) = trim_bounds(after_full);
            let after = vstd::slice::slice_subrange(after_full, x, y);
            if after.len() == 0 || !slice_all_digits(after) {
                (s, None)
            } else {
                match parse_u32_slice(after) {
                    Some(v) => {
                        if v == 0 {
                            return None;
                        }
                        let before = vstd::slice::slice_subrange(s, 0, idx);
                        assert(before@ =~= s@.take(idx as int));
                        let e = trim_end_index(before);
                        let h = vstd::slice::slice_subrange(before, 0, e);
                        assert(h@ =~= before@.take(e as int));
                        (h, Some(v))
                    },
                    None => {
                        return None;
                    },
                }
            }
        },
        None => (s, None),
    };
    assert(split_verse(s@) == Some((head0@, verse)));
    let e = trim_end_index(head0);
    let head = vstd::slice::slice_subrange(head0, 0, e);
    assert(head@ =~= head0@.take(e as int));
    let cs = trailing_digit_start(head);
    if cs == head.len() {
        return None;
    }
    let digits = vstd::slice::slice_subrange(head, cs, head.len());
    assert(digits@ =~= head@.skip(cs as int));
    let chapter = match parse_u32_slice(digits) {
        Some(ch) => ch,
        None => {
            return None;
        },
    };
    if chapter == 0 {
        return None;
    }
    let before = vstd::slice::slice_subrange(head, 0, cs);
    assert(before@ =~= head@.take(cs as int));
    let (ka, kb) = trim_bounds(before);
    if ka == kb {
        return None;
    }
    let key = vstd::slice::slice_subrange(before, ka, kb);
    match lookup_canon_chars(key) {
        Some(book) => Some(BibleRef { book, chapter, verse }),
        None => None,
    }
}

} // verus!
