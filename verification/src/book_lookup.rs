//! Every canonical book is found by its OSIS id, its Chinese abbreviation and its English
//! name.

use vstd::prelude::*;

use crate::catalog::{book_matches, canon_spec, first_book_match, lookup_canon_spec, CANON_LEN};
use crate::text;

verus! {

proof fn lemma_not_eq_ic(a: Seq<char>, b: Seq<char>, m: int)
    requires
        a.len() != b.len() || (0 <= m < a.len() && text::ascii_fold(a[m]) != text::ascii_fold(b[m])),
    ensures
        !text::eq_ic(a, b),
{
}

proof fn lemma_not_same(a: Seq<char>, b: Seq<char>, m: int)
    requires
        a.len() != b.len() || (0 <= m < a.len() && a[m] != b[m]),
    ensures
        a != b,
{
}

proof fn lemma_not_number(s: Seq<char>, m: int)
    requires
        0 <= m < s.len(),
        !text::is_digit(s[m]),
        s[0] != '+',
    ensures
        text::parse_u32(s) is None,
{
    assert(text::digit_value(s[m], 10) is None);
}

proof fn lemma_plain_key(s: Seq<char>)
    requires
        s.len() > 0,
        !text::is_ws(s[0]),
        !text::is_ws(s.last()),
    ensures
        text::trim(s) == s,
{
}

proof fn book_0()
    ensures
        canon_spec(0).osis@.len() == 3,
        canon_spec(0).osis@[0] == 'G',
        canon_spec(0).osis@[1] == 'e',
        canon_spec(0).osis@[2] == 'n',
        canon_spec(0).name_zh@.len() == 3,
        canon_spec(0).name_zh@[0] == '創',
        canon_spec(0).name_zh@[1] == '世',
        canon_spec(0).name_zh@[2] == '記',
        canon_spec(0).name_zh_short@.len() == 1,
        canon_spec(0).name_zh_short@[0] == '創',
        canon_spec(0).name_en@.len() == 7,
        canon_spec(0).name_en@[0] == 'G',
        canon_spec(0).name_en@[1] == 'e',
        canon_spec(0).name_en@[2] == 'n',
        canon_spec(0).name_en@[3] == 'e',
        canon_spec(0).name_en@[4] == 's',
        canon_spec(0).name_en@[5] == 'i',
        canon_spec(0).name_en@[6] == 's',
{
    reveal_strlit("Gen");
    reveal_strlit("創世記");
    reveal_strlit("創");
    reveal_strlit("Genesis");
}

proof fn book_1()
    ensures
        canon_spec(1).osis@.len() == 4,
        canon_spec(1).osis@[0] == 'E',
        canon_spec(1).osis@[1] == 'x',
        canon_spec(1).osis@[2] == 'o',
        canon_spec(1).osis@[3] == 'd',
        canon_spec(1).name_zh@.len() == 4,
        canon_spec(1).name_zh@[0] == '出',
        canon_spec(1).name_zh@[1] == '埃',
        canon_spec(1).name_zh@[2] == '及',
        canon_spec(1).name_zh@[3] == '記',
        canon_spec(1).name_zh_short@.len() == 1,
        canon_spec(1).name_zh_short@[0] == '出',
        canon_spec(1).name_en@.len() == 6,
        canon_spec(1).name_en@[0] == 'E',
        canon_spec(1).name_en@[1] == 'x',
        canon_spec(1).name_en@[2] == 'o',
        canon_spec(1).name_en@[3] == 'd',
        canon_spec(1).name_en@[4] == 'u',
        canon_spec(1).name_en@[5] == 's',
{
    reveal_strlit("Exod");
    reveal_strlit("出埃及記");
    reveal_strlit("出");
    reveal_strlit("Exodus");
}

proof fn book_2()
    ensures
        canon_spec(2).osis@.len() == 3,
        canon_spec(2).osis@[0] == 'L',
        canon_spec(2).osis@[1] == 'e',
        canon_spec(2).osis@[2] == 'v',
        canon_spec(2).name_zh@.len() == 3,
        canon_spec(2).name_zh@[0] == '利',
        canon_spec(2).name_zh@[1] == '未',
        canon_spec(2).name_zh@[2] == '記',
        canon_spec(2).name_zh_short@.len() == 1,
        canon_spec(2).name_zh_short@[0] == '利',
        canon_spec(2).name_en@.len() == 9,
        canon_spec(2).name_en@[0] == 'L',
        canon_spec(2).name_en@[1] == 'e',
        canon_spec(2).name_en@[2] == 'v',
        canon_spec(2).name_en@[3] == 'i',
        canon_spec(2).name_en@[4] == 't',
        canon_spec(2).name_en@[5] == 'i',
        canon_spec(2).name_en@[6] == 'c',
        canon_spec(2).name_en@[7] == 'u',
        canon_spec(2).name_en@[8] == 's',
{
    reveal_strlit("Lev");
    reveal_strlit("利未記");
    reveal_strlit("利");
    reveal_strlit("Leviticus");
}

proof fn book_3()
    ensures
        canon_spec(3).osis@.len() == 3,
        canon_spec(3).osis@[0] == 'N',
        canon_spec(3).osis@[1] == 'u',
        canon_spec(3).osis@[2] == 'm',
        canon_spec(3).name_zh@.len() == 3,
        canon_spec(3).name_zh@[0] == '民',
        canon_spec(3).name_zh@[1] == '數',
        canon_spec(3).name_zh@[2] == '記',
        canon_spec(3).name_zh_short@.len() == 1,
        canon_spec(3).name_zh_short@[0] == '民',
        canon_spec(3).name_en@.len() == 7,
        canon_spec(3).name_en@[0] == 'N',
        canon_spec(3).name_en@[1] == 'u',
        canon_spec(3).name_en@[2] == 'm',
        canon_spec(3).name_en@[3] == 'b',
        canon_spec(3).name_en@[4] == 'e',
        canon_spec(3).name_en@[5] == 'r',
        canon_spec(3).name_en@[6] == 's',
{
    reveal_strlit("Num");
    reveal_strlit("民數記");
    reveal_strlit("民");
    reveal_strlit("Numbers");
}

proof fn book_4()
    ensures
        canon_spec(4).osis@.len() == 4,
        canon_spec(4).osis@[0] == 'D',
        canon_spec(4).osis@[1] == 'e',
        canon_spec(4).osis@[2] == 'u',
        canon_spec(4).osis@[3] == 't',
        canon_spec(4).name_zh@.len() == 3,
        canon_spec(4).name_zh@[0] == '申',
        canon_spec(4).name_zh@[1] == '命',
        canon_spec(4).name_zh@[2] == '記',
        canon_spec(4).name_zh_short@.len() == 1,
        canon_spec(4).name_zh_short@[0] == '申',
        canon_spec(4).name_en@.len() == 11,
        canon_spec(4).name_en@[0] == 'D',
        canon_spec(4).name_en@[1] == 'e',
        canon_spec(4).name_en@[2] == 'u',
        canon_spec(4).name_en@[3] == 't',
        canon_spec(4).name_en@[4] == 'e',
        canon_spec(4).name_en@[5] == 'r',
        canon_spec(4).name_en@[6] == 'o',
        canon_spec(4).name_en@[7] == 'n',
        canon_spec(4).name_en@[8] == 'o',
        canon_spec(4).name_en@[9] == 'm',
        canon_spec(4).name_en@[10] == 'y',
{
    reveal_strlit("Deut");
    reveal_strlit("申命記");
    reveal_strlit("申");
    reveal_strlit("Deuteronomy");
}

proof fn book_5()
    ensures
        canon_spec(5).osis@.len() == 4,
        canon_spec(5).osis@[0] == 'J',
        canon_spec(5).osis@[1] == 'o',
        canon_spec(5).osis@[2] == 's',
        canon_spec(5).osis@[3] == 'h',
        canon_spec(5).name_zh@.len() == 4,
        canon_spec(5).name_zh@[0] == '約',
        canon_spec(5).name_zh@[1] == '書',
        canon_spec(5).name_zh@[2] == '亞',
        canon_spec(5).name_zh@[3] == '記',
        canon_spec(5).name_zh_short@.len() == 1,
        canon_spec(5).name_zh_short@[0] == '書',
        canon_spec(5).name_en@.len() == 6,
        canon_spec(5).name_en@[0] == 'J',
        canon_spec(5).name_en@[1] == 'o',
        canon_spec(5).name_en@[2] == 's',
        canon_spec(5).name_en@[3] == 'h',
        canon_spec(5).name_en@[4] == 'u',
        canon_spec(5).name_en@[5] == 'a',
{
    reveal_strlit("Josh");
    reveal_strlit("約書亞記");
    reveal_strlit("書");
    reveal_strlit("Joshua");
}

proof fn book_6()
    ensures
        canon_spec(6).osis@.len() == 4,
        canon_spec(6).osis@[0] == 'J',
        canon_spec(6).osis@[1] == 'u',
        canon_spec(6).osis@[2] == 'd',
        canon_spec(6).osis@[3] == 'g',
        canon_spec(6).name_zh@.len() == 3,
        canon_spec(6).name_zh@[0] == '士',
        canon_spec(6).name_zh@[1] == '師',
        canon_spec(6).name_zh@[2] == '記',
        canon_spec(6).name_zh_short@.len() == 1,
        canon_spec(6).name_zh_short@[0] == '士',
        canon_spec(6).name_en@.len() == 6,
        canon_spec(6).name_en@[0] == 'J',
        canon_spec(6).name_en@[1] == 'u',
        canon_spec(6).name_en@[2] == 'd',
        canon_spec(6).name_en@[3] == 'g',
        canon_spec(6).name_en@[4] == 'e',
        canon_spec(6).name_en@[5] == 's',
{
    reveal_strlit("Judg");
    reveal_strlit("士師記");
    reveal_strlit("士");
    reveal_strlit("Judges");
}

proof fn book_7()
    ensures
        canon_spec(7).osis@.len() == 4,
        canon_spec(7).osis@[0] == 'R',
        canon_spec(7).osis@[1] == 'u',
        canon_spec(7).osis@[2] == 't',
        canon_spec(7).osis@[3] == 'h',
        canon_spec(7).name_zh@.len() == 3,
        canon_spec(7).name_zh@[0] == '路',
        canon_spec(7).name_zh@[1] == '得',
        canon_spec(7).name_zh@[2] == '記',
        canon_spec(7).name_zh_short@.len() == 1,
        canon_spec(7).name_zh_short@[0] == '得',
        canon_spec(7).name_en@.len() == 4,
        canon_spec(7).name_en@[0] == 'R',
        canon_spec(7).name_en@[1] == 'u',
        canon_spec(7).name_en@[2] == 't',
        canon_spec(7).name_en@[3] == 'h',
{
    reveal_strlit("Ruth");
    reveal_strlit("路得記");
    reveal_strlit("得");
    reveal_strlit("Ruth");
}

proof fn book_8()
    ensures
        canon_spec(8).osis@.len() == 4,
        canon_spec(8).osis@[0] == '1',
        canon_spec(8).osis@[1] == 'S',
        canon_spec(8).osis@[2] == 'a',
        canon_spec(8).osis@[3] == 'm',
        canon_spec(8).name_zh@.len() == 5,
        canon_spec(8).name_zh@[0] == '撒',
        canon_spec(8).name_zh@[1] == '母',
        canon_spec(8).name_zh@[2] == '耳',
        canon_spec(8).name_zh@[3] == '記',
        canon_spec(8).name_zh@[4] == '上',
        canon_spec(8).name_zh_short@.len() == 2,
        canon_spec(8).name_zh_short@[0] == '撒',
        canon_spec(8).name_zh_short@[1] == '上',
        canon_spec(8).name_en@.len() == 8,
        canon_spec(8).name_en@[0] == '1',
        canon_spec(8).name_en@[1] == ' ',
        canon_spec(8).name_en@[2] == 'S',
        canon_spec(8).name_en@[3] == 'a',
        canon_spec(8).name_en@[4] == 'm',
        canon_spec(8).name_en@[5] == 'u',
        canon_spec(8).name_en@[6] == 'e',
        canon_spec(8).name_en@[7] == 'l',
{
    reveal_strlit("1Sam");
    reveal_strlit("撒母耳記上");
    reveal_strlit("撒上");
    reveal_strlit("1 Samuel");
}

proof fn book_9()
    ensures
        canon_spec(9).osis@.len() == 4,
        canon_spec(9).osis@[0] == '2',
        canon_spec(9).osis@[1] == 'S',
        canon_spec(9).osis@[2] == 'a',
        canon_spec(9).osis@[3] == 'm',
        canon_spec(9).name_zh@.len() == 5,
        canon_spec(9).name_zh@[0] == '撒',
        canon_spec(9).name_zh@[1] == '母',
        canon_spec(9).name_zh@[2] == '耳',
        canon_spec(9).name_zh@[3] == '記',
        canon_spec(9).name_zh@[4] == '下',
        canon_spec(9).name_zh_short@.len() == 2,
        canon_spec(9).name_zh_short@[0] == '撒',
        canon_spec(9).name_zh_short@[1] == '下',
        canon_spec(9).name_en@.len() == 8,
        canon_spec(9).name_en@[0] == '2',
        canon_spec(9).name_en@[1] == ' ',
        canon_spec(9).name_en@[2] == 'S',
        canon_spec(9).name_en@[3] == 'a',
        canon_spec(9).name_en@[4] == 'm',
        canon_spec(9).name_en@[5] == 'u',
        canon_spec(9).name_en@[6] == 'e',
        canon_spec(9).name_en@[7] == 'l',
{
    reveal_strlit("2Sam");
    reveal_strlit("撒母耳記下");
    reveal_strlit("撒下");
    reveal_strlit("2 Samuel");
}

proof fn book_10()
    ensures
        canon_spec(10).osis@.len() == 4,
        canon_spec(10).osis@[0] == '1',
        canon_spec(10).osis@[1] == 'K',
        canon_spec(10).osis@[2] == 'g',
        canon_spec(10).osis@[3] == 's',
        canon_spec(10).name_zh@.len() == 4,
        canon_spec(10).name_zh@[0] == '列',
        canon_spec(10).name_zh@[1] == '王',
        canon_spec(10).name_zh@[2] == '紀',
        canon_spec(10).name_zh@[3] == '上',
        canon_spec(10).name_zh_short@.len() == 2,
        canon_spec(10).name_zh_short@[0] == '王',
        canon_spec(10).name_zh_short@[1] == '上',
        canon_spec(10).name_en@.len() == 7,
        canon_spec(10).name_en@[0] == '1',
        canon_spec(10).name_en@[1] == ' ',
        canon_spec(10).name_en@[2] == 'K',
        canon_spec(10).name_en@[3] == 'i',
        canon_spec(10).name_en@[4] == 'n',
        canon_spec(10).name_en@[5] == 'g',
        canon_spec(10).name_en@[6] == 's',
{
    reveal_strlit("1Kgs");
    reveal_strlit("列王紀上");
    reveal_strlit("王上");
    reveal_strlit("1 Kings");
}

proof fn book_11()
    ensures
        canon_spec(11).osis@.len() == 4,
        canon_spec(11).osis@[0] == '2',
        canon_spec(11).osis@[1] == 'K',
        canon_spec(11).osis@[2] == 'g',
        canon_spec(11).osis@[3] == 's',
        canon_spec(11).name_zh@.len() == 4,
        canon_spec(11).name_zh@[0] == '列',
        canon_spec(11).name_zh@[1] == '王',
        canon_spec(11).name_zh@[2] == '紀',
        canon_spec(11).name_zh@[3] == '下',
        canon_spec(11).name_zh_short@.len() == 2,
        canon_spec(11).name_zh_short@[0] == '王',
        canon_spec(11).name_zh_short@[1] == '下',
        canon_spec(11).name_en@.len() == 7,
        canon_spec(11).name_en@[0] == '2',
        canon_spec(11).name_en@[1] == ' ',
        canon_spec(11).name_en@[2] == 'K',
        canon_spec(11).name_en@[3] == 'i',
        canon_spec(11).name_en@[4] == 'n',
        canon_spec(11).name_en@[5] == 'g',
        canon_spec(11).name_en@[6] == 's',
{
    reveal_strlit("2Kgs");
    reveal_strlit("列王紀下");
    reveal_strlit("王下");
    reveal_strlit("2 Kings");
}

proof fn book_12()
    ensures
        canon_spec(12).osis@.len() == 4,
        canon_spec(12).osis@[0] == '1',
        canon_spec(12).osis@[1] == 'C',
        canon_spec(12).osis@[2] == 'h',
        canon_spec(12).osis@[3] == 'r',
        canon_spec(12).name_zh@.len() == 4,
        canon_spec(12).name_zh@[0] == '歷',
        canon_spec(12).name_zh@[1] == '代',
        canon_spec(12).name_zh@[2] == '志',
        canon_spec(12).name_zh@[3] == '上',
        canon_spec(12).name_zh_short@.len() == 2,
        canon_spec(12).name_zh_short@[0] == '代',
        canon_spec(12).name_zh_short@[1] == '上',
        canon_spec(12).name_en@.len() == 12,
        canon_spec(12).name_en@[0] == '1',
        canon_spec(12).name_en@[1] == ' ',
        canon_spec(12).name_en@[2] == 'C',
        canon_spec(12).name_en@[3] == 'h',
        canon_spec(12).name_en@[4] == 'r',
        canon_spec(12).name_en@[5] == 'o',
        canon_spec(12).name_en@[6] == 'n',
        canon_spec(12).name_en@[7] == 'i',
        canon_spec(12).name_en@[8] == 'c',
        canon_spec(12).name_en@[9] == 'l',
        canon_spec(12).name_en@[10] == 'e',
        canon_spec(12).name_en@[11] == 's',
{
    reveal_strlit("1Chr");
    reveal_strlit("歷代志上");
    reveal_strlit("代上");
    reveal_strlit("1 Chronicles");
}

proof fn book_13()
    ensures
        canon_spec(13).osis@.len() == 4,
        canon_spec(13).osis@[0] == '2',
        canon_spec(13).osis@[1] == 'C',
        canon_spec(13).osis@[2] == 'h',
        canon_spec(13).osis@[3] == 'r',
        canon_spec(13).name_zh@.len() == 4,
        canon_spec(13).name_zh@[0] == '歷',
        canon_spec(13).name_zh@[1] == '代',
        canon_spec(13).name_zh@[2] == '志',
        canon_spec(13).name_zh@[3] == '下',
        canon_spec(13).name_zh_short@.len() == 2,
        canon_spec(13).name_zh_short@[0] == '代',
        canon_spec(13).name_zh_short@[1] == '下',
        canon_spec(13).name_en@.len() == 12,
        canon_spec(13).name_en@[0] == '2',
        canon_spec(13).name_en@[1] == ' ',
        canon_spec(13).name_en@[2] == 'C',
        canon_spec(13).name_en@[3] == 'h',
        canon_spec(13).name_en@[4] == 'r',
        canon_spec(13).name_en@[5] == 'o',
        canon_spec(13).name_en@[6] == 'n',
        canon_spec(13).name_en@[7] == 'i',
        canon_spec(13).name_en@[8] == 'c',
        canon_spec(13).name_en@[9] == 'l',
        canon_spec(13).name_en@[10] == 'e',
        canon_spec(13).name_en@[11] == 's',
{
    reveal_strlit("2Chr");
    reveal_strlit("歷代志下");
    reveal_strlit("代下");
    reveal_strlit("2 Chronicles");
}

proof fn book_14()
    ensures
        canon_spec(14).osis@.len() == 4,
        canon_spec(14).osis@[0] == 'E',
        canon_spec(14).osis@[1] == 'z',
        canon_spec(14).osis@[2] == 'r',
        canon_spec(14).osis@[3] == 'a',
        canon_spec(14).name_zh@.len() == 4,
        canon_spec(14).name_zh@[0] == '以',
        canon_spec(14).name_zh@[1] == '斯',
        canon_spec(14).name_zh@[2] == '拉',
        canon_spec(14).name_zh@[3] == '記',
        canon_spec(14).name_zh_short@.len() == 1,
        canon_spec(14).name_zh_short@[0] == '拉',
        canon_spec(14).name_en@.len() == 4,
        canon_spec(14).name_en@[0] == 'E',
        canon_spec(14).name_en@[1] == 'z',
        canon_spec(14).name_en@[2] == 'r',
        canon_spec(14).name_en@[3] == 'a',
{
    reveal_strlit("Ezra");
    reveal_strlit("以斯拉記");
    reveal_strlit("拉");
    reveal_strlit("Ezra");
}

proof fn book_15()
    ensures
        canon_spec(15).osis@.len() == 3,
        canon_spec(15).osis@[0] == 'N',
        canon_spec(15).osis@[1] == 'e',
        canon_spec(15).osis@[2] == 'h',
        canon_spec(15).name_zh@.len() == 4,
        canon_spec(15).name_zh@[0] == '尼',
        canon_spec(15).name_zh@[1] == '希',
        canon_spec(15).name_zh@[2] == '米',
        canon_spec(15).name_zh@[3] == '記',
        canon_spec(15).name_zh_short@.len() == 1,
        canon_spec(15).name_zh_short@[0] == '尼',
        canon_spec(15).name_en@.len() == 8,
        canon_spec(15).name_en@[0] == 'N',
        canon_spec(15).name_en@[1] == 'e',
        canon_spec(15).name_en@[2] == 'h',
        canon_spec(15).name_en@[3] == 'e',
        canon_spec(15).name_en@[4] == 'm',
        canon_spec(15).name_en@[5] == 'i',
        canon_spec(15).name_en@[6] == 'a',
        canon_spec(15).name_en@[7] == 'h',
{
    reveal_strlit("Neh");
    reveal_strlit("尼希米記");
    reveal_strlit("尼");
    reveal_strlit("Nehemiah");
}

proof fn book_16()
    ensures
        canon_spec(16).osis@.len() == 4,
        canon_spec(16).osis@[0] == 'E',
        canon_spec(16).osis@[1] == 's',
        canon_spec(16).osis@[2] == 't',
        canon_spec(16).osis@[3] == 'h',
        canon_spec(16).name_zh@.len() == 4,
        canon_spec(16).name_zh@[0] == '以',
        canon_spec(16).name_zh@[1] == '斯',
        canon_spec(16).name_zh@[2] == '帖',
        canon_spec(16).name_zh@[3] == '記',
        canon_spec(16).name_zh_short@.len() == 1,
        canon_spec(16).name_zh_short@[0] == '斯',
        canon_spec(16).name_en@.len() == 6,
        canon_spec(16).name_en@[0] == 'E',
        canon_spec(16).name_en@[1] == 's',
        canon_spec(16).name_en@[2] == 't',
        canon_spec(16).name_en@[3] == 'h',
        canon_spec(16).name_en@[4] == 'e',
        canon_spec(16).name_en@[5] == 'r',
{
    reveal_strlit("Esth");
    reveal_strlit("以斯帖記");
    reveal_strlit("斯");
    reveal_strlit("Esther");
}

proof fn book_17()
    ensures
        canon_spec(17).osis@.len() == 3,
        canon_spec(17).osis@[0] == 'J',
        canon_spec(17).osis@[1] == 'o',
        canon_spec(17).osis@[2] == 'b',
        canon_spec(17).name_zh@.len() == 3,
        canon_spec(17).name_zh@[0] == '約',
        canon_spec(17).name_zh@[1] == '伯',
        canon_spec(17).name_zh@[2] == '記',
        canon_spec(17).name_zh_short@.len() == 1,
        canon_spec(17).name_zh_short@[0] == '伯',
        canon_spec(17).name_en@.len() == 3,
        canon_spec(17).name_en@[0] == 'J',
        canon_spec(17).name_en@[1] == 'o',
        canon_spec(17).name_en@[2] == 'b',
{
    reveal_strlit("Job");
    reveal_strlit("約伯記");
    reveal_strlit("伯");
    reveal_strlit("Job");
}

proof fn book_18()
    ensures
        canon_spec(18).osis@.len() == 2,
        canon_spec(18).osis@[0] == 'P',
        canon_spec(18).osis@[1] == 's',
        canon_spec(18).name_zh@.len() == 2,
        canon_spec(18).name_zh@[0] == '詩',
        canon_spec(18).name_zh@[1] == '篇',
        canon_spec(18).name_zh_short@.len() == 1,
        canon_spec(18).name_zh_short@[0] == '詩',
        canon_spec(18).name_en@.len() == 6,
        canon_spec(18).name_en@[0] == 'P',
        canon_spec(18).name_en@[1] == 's',
        canon_spec(18).name_en@[2] == 'a',
        canon_spec(18).name_en@[3] == 'l',
        canon_spec(18).name_en@[4] == 'm',
        canon_spec(18).name_en@[5] == 's',
{
    reveal_strlit("Ps");
    reveal_strlit("詩篇");
    reveal_strlit("詩");
    reveal_strlit("Psalms");
}

proof fn book_19()
    ensures
        canon_spec(19).osis@.len() == 4,
        canon_spec(19).osis@[0] == 'P',
        canon_spec(19).osis@[1] == 'r',
        canon_spec(19).osis@[2] == 'o',
        canon_spec(19).osis@[3] == 'v',
        canon_spec(19).name_zh@.len() == 2,
        canon_spec(19).name_zh@[0] == '箴',
        canon_spec(19).name_zh@[1] == '言',
        canon_spec(19).name_zh_short@.len() == 1,
        canon_spec(19).name_zh_short@[0] == '箴',
        canon_spec(19).name_en@.len() == 8,
        canon_spec(19).name_en@[0] == 'P',
        canon_spec(19).name_en@[1] == 'r',
        canon_spec(19).name_en@[2] == 'o',
        canon_spec(19).name_en@[3] == 'v',
        canon_spec(19).name_en@[4] == 'e',
        canon_spec(19).name_en@[5] == 'r',
        canon_spec(19).name_en@[6] == 'b',
        canon_spec(19).name_en@[7] == 's',
{
    reveal_strlit("Prov");
    reveal_strlit("箴言");
    reveal_strlit("箴");
    reveal_strlit("Proverbs");
}

proof fn book_20()
    ensures
        canon_spec(20).osis@.len() == 4,
        canon_spec(20).osis@[0] == 'E',
        canon_spec(20).osis@[1] == 'c',
        canon_spec(20).osis@[2] == 'c',
        canon_spec(20).osis@[3] == 'l',
        canon_spec(20).name_zh@.len() == 3,
        canon_spec(20).name_zh@[0] == '傳',
        canon_spec(20).name_zh@[1] == '道',
        canon_spec(20).name_zh@[2] == '書',
        canon_spec(20).name_zh_short@.len() == 1,
        canon_spec(20).name_zh_short@[0] == '傳',
        canon_spec(20).name_en@.len() == 12,
        canon_spec(20).name_en@[0] == 'E',
        canon_spec(20).name_en@[1] == 'c',
        canon_spec(20).name_en@[2] == 'c',
        canon_spec(20).name_en@[3] == 'l',
        canon_spec(20).name_en@[4] == 'e',
        canon_spec(20).name_en@[5] == 's',
        canon_spec(20).name_en@[6] == 'i',
        canon_spec(20).name_en@[7] == 'a',
        canon_spec(20).name_en@[8] == 's',
        canon_spec(20).name_en@[9] == 't',
        canon_spec(20).name_en@[10] == 'e',
        canon_spec(20).name_en@[11] == 's',
{
    reveal_strlit("Eccl");
    reveal_strlit("傳道書");
    reveal_strlit("傳");
    reveal_strlit("Ecclesiastes");
}

proof fn book_21()
    ensures
        canon_spec(21).osis@.len() == 4,
        canon_spec(21).osis@[0] == 'S',
        canon_spec(21).osis@[1] == 'o',
        canon_spec(21).osis@[2] == 'n',
        canon_spec(21).osis@[3] == 'g',
        canon_spec(21).name_zh@.len() == 2,
        canon_spec(21).name_zh@[0] == '雅',
        canon_spec(21).name_zh@[1] == '歌',
        canon_spec(21).name_zh_short@.len() == 1,
        canon_spec(21).name_zh_short@[0] == '歌',
        canon_spec(21).name_en@.len() == 15,
        canon_spec(21).name_en@[0] == 'S',
        canon_spec(21).name_en@[1] == 'o',
        canon_spec(21).name_en@[2] == 'n',
        canon_spec(21).name_en@[3] == 'g',
        canon_spec(21).name_en@[4] == ' ',
        canon_spec(21).name_en@[5] == 'o',
        canon_spec(21).name_en@[6] == 'f',
        canon_spec(21).name_en@[7] == ' ',
        canon_spec(21).name_en@[8] == 'S',
        canon_spec(21).name_en@[9] == 'o',
        canon_spec(21).name_en@[10] == 'l',
        canon_spec(21).name_en@[11] == 'o',
        canon_spec(21).name_en@[12] == 'm',
        canon_spec(21).name_en@[13] == 'o',
        canon_spec(21).name_en@[14] == 'n',
{
    reveal_strlit("Song");
    reveal_strlit("雅歌");
    reveal_strlit("歌");
    reveal_strlit("Song of Solomon");
}

proof fn book_22()
    ensures
        canon_spec(22).osis@.len() == 3,
        canon_spec(22).osis@[0] == 'I',
        canon_spec(22).osis@[1] == 's',
        canon_spec(22).osis@[2] == 'a',
        canon_spec(22).name_zh@.len() == 4,
        canon_spec(22).name_zh@[0] == '以',
        canon_spec(22).name_zh@[1] == '賽',
        canon_spec(22).name_zh@[2] == '亞',
        canon_spec(22).name_zh@[3] == '書',
        canon_spec(22).name_zh_short@.len() == 1,
        canon_spec(22).name_zh_short@[0] == '賽',
        canon_spec(22).name_en@.len() == 6,
        canon_spec(22).name_en@[0] == 'I',
        canon_spec(22).name_en@[1] == 's',
        canon_spec(22).name_en@[2] == 'a',
        canon_spec(22).name_en@[3] == 'i',
        canon_spec(22).name_en@[4] == 'a',
        canon_spec(22).name_en@[5] == 'h',
{
    reveal_strlit("Isa");
    reveal_strlit("以賽亞書");
    reveal_strlit("賽");
    reveal_strlit("Isaiah");
}

proof fn book_23()
    ensures
        canon_spec(23).osis@.len() == 3,
        canon_spec(23).osis@[0] == 'J',
        canon_spec(23).osis@[1] == 'e',
        canon_spec(23).osis@[2] == 'r',
        canon_spec(23).name_zh@.len() == 4,
        canon_spec(23).name_zh@[0] == '耶',
        canon_spec(23).name_zh@[1] == '利',
        canon_spec(23).name_zh@[2] == '米',
        canon_spec(23).name_zh@[3] == '書',
        canon_spec(23).name_zh_short@.len() == 1,
        canon_spec(23).name_zh_short@[0] == '耶',
        canon_spec(23).name_en@.len() == 8,
        canon_spec(23).name_en@[0] == 'J',
        canon_spec(23).name_en@[1] == 'e',
        canon_spec(23).name_en@[2] == 'r',
        canon_spec(23).name_en@[3] == 'e',
        canon_spec(23).name_en@[4] == 'm',
        canon_spec(23).name_en@[5] == 'i',
        canon_spec(23).name_en@[6] == 'a',
        canon_spec(23).name_en@[7] == 'h',
{
    reveal_strlit("Jer");
    reveal_strlit("耶利米書");
    reveal_strlit("耶");
    reveal_strlit("Jeremiah");
}

proof fn book_24()
    ensures
        canon_spec(24).osis@.len() == 3,
        canon_spec(24).osis@[0] == 'L',
        canon_spec(24).osis@[1] == 'a',
        canon_spec(24).osis@[2] == 'm',
        canon_spec(24).name_zh@.len() == 5,
        canon_spec(24).name_zh@[0] == '耶',
        canon_spec(24).name_zh@[1] == '利',
        canon_spec(24).name_zh@[2] == '米',
        canon_spec(24).name_zh@[3] == '哀',
        canon_spec(24).name_zh@[4] == '歌',
        canon_spec(24).name_zh_short@.len() == 1,
        canon_spec(24).name_zh_short@[0] == '哀',
        canon_spec(24).name_en@.len() == 12,
        canon_spec(24).name_en@[0] == 'L',
        canon_spec(24).name_en@[1] == 'a',
        canon_spec(24).name_en@[2] == 'm',
        canon_spec(24).name_en@[3] == 'e',
        canon_spec(24).name_en@[4] == 'n',
        canon_spec(24).name_en@[5] == 't',
        canon_spec(24).name_en@[6] == 'a',
        canon_spec(24).name_en@[7] == 't',
        canon_spec(24).name_en@[8] == 'i',
        canon_spec(24).name_en@[9] == 'o',
        canon_spec(24).name_en@[10] == 'n',
        canon_spec(24).name_en@[11] == 's',
{
    reveal_strlit("Lam");
    reveal_strlit("耶利米哀歌");
    reveal_strlit("哀");
    reveal_strlit("Lamentations");
}

proof fn book_25()
    ensures
        canon_spec(25).osis@.len() == 4,
        canon_spec(25).osis@[0] == 'E',
        canon_spec(25).osis@[1] == 'z',
        canon_spec(25).osis@[2] == 'e',
        canon_spec(25).osis@[3] == 'k',
        canon_spec(25).name_zh@.len() == 4,
        canon_spec(25).name_zh@[0] == '以',
        canon_spec(25).name_zh@[1] == '西',
        canon_spec(25).name_zh@[2] == '結',
        canon_spec(25).name_zh@[3] == '書',
        canon_spec(25).name_zh_short@.len() == 1,
        canon_spec(25).name_zh_short@[0] == '結',
        canon_spec(25).name_en@.len() == 7,
        canon_spec(25).name_en@[0] == 'E',
        canon_spec(25).name_en@[1] == 'z',
        canon_spec(25).name_en@[2] == 'e',
        canon_spec(25).name_en@[3] == 'k',
        canon_spec(25).name_en@[4] == 'i',
        canon_spec(25).name_en@[5] == 'e',
        canon_spec(25).name_en@[6] == 'l',
{
    reveal_strlit("Ezek");
    reveal_strlit("以西結書");
    reveal_strlit("結");
    reveal_strlit("Ezekiel");
}

proof fn book_26()
    ensures
        canon_spec(26).osis@.len() == 3,
        canon_spec(26).osis@[0] == 'D',
        canon_spec(26).osis@[1] == 'a',
        canon_spec(26).osis@[2] == 'n',
        canon_spec(26).name_zh@.len() == 4,
        canon_spec(26).name_zh@[0] == '但',
        canon_spec(26).name_zh@[1] == '以',
        canon_spec(26).name_zh@[2] == '理',
        canon_spec(26).name_zh@[3] == '書',
        canon_spec(26).name_zh_short@.len() == 1,
        canon_spec(26).name_zh_short@[0] == '但',
        canon_spec(26).name_en@.len() == 6,
        canon_spec(26).name_en@[0] == 'D',
        canon_spec(26).name_en@[1] == 'a',
        canon_spec(26).name_en@[2] == 'n',
        canon_spec(26).name_en@[3] == 'i',
        canon_spec(26).name_en@[4] == 'e',
        canon_spec(26).name_en@[5] == 'l',
{
    reveal_strlit("Dan");
    reveal_strlit("但以理書");
    reveal_strlit("但");
    reveal_strlit("Daniel");
}

proof fn book_27()
    ensures
        canon_spec(27).osis@.len() == 3,
        canon_spec(27).osis@[0] == 'H',
        canon_spec(27).osis@[1] == 'o',
        canon_spec(27).osis@[2] == 's',
        canon_spec(27).name_zh@.len() == 4,
        canon_spec(27).name_zh@[0] == '何',
        canon_spec(27).name_zh@[1] == '西',
        canon_spec(27).name_zh@[2] == '阿',
        canon_spec(27).name_zh@[3] == '書',
        canon_spec(27).name_zh_short@.len() == 1,
        canon_spec(27).name_zh_short@[0] == '何',
        canon_spec(27).name_en@.len() == 5,
        canon_spec(27).name_en@[0] == 'H',
        canon_spec(27).name_en@[1] == 'o',
        canon_spec(27).name_en@[2] == 's',
        canon_spec(27).name_en@[3] == 'e',
        canon_spec(27).name_en@[4] == 'a',
{
    reveal_strlit("Hos");
    reveal_strlit("何西阿書");
    reveal_strlit("何");
    reveal_strlit("Hosea");
}

proof fn book_28()
    ensures
        canon_spec(28).osis@.len() == 4,
        canon_spec(28).osis@[0] == 'J',
        canon_spec(28).osis@[1] == 'o',
        canon_spec(28).osis@[2] == 'e',
        canon_spec(28).osis@[3] == 'l',
        canon_spec(28).name_zh@.len() == 3,
        canon_spec(28).name_zh@[0] == '約',
        canon_spec(28).name_zh@[1] == '珥',
        canon_spec(28).name_zh@[2] == '書',
        canon_spec(28).name_zh_short@.len() == 1,
        canon_spec(28).name_zh_short@[0] == '珥',
        canon_spec(28).name_en@.len() == 4,
        canon_spec(28).name_en@[0] == 'J',
        canon_spec(28).name_en@[1] == 'o',
        canon_spec(28).name_en@[2] == 'e',
        canon_spec(28).name_en@[3] == 'l',
{
    reveal_strlit("Joel");
    reveal_strlit("約珥書");
    reveal_strlit("珥");
    reveal_strlit("Joel");
}

proof fn book_29()
    ensures
        canon_spec(29).osis@.len() == 4,
        canon_spec(29).osis@[0] == 'A',
        canon_spec(29).osis@[1] == 'm',
        canon_spec(29).osis@[2] == 'o',
        canon_spec(29).osis@[3] == 's',
        canon_spec(29).name_zh@.len() == 4,
        canon_spec(29).name_zh@[0] == '阿',
        canon_spec(29).name_zh@[1] == '摩',
        canon_spec(29).name_zh@[2] == '司',
        canon_spec(29).name_zh@[3] == '書',
        canon_spec(29).name_zh_short@.len() == 1,
        canon_spec(29).name_zh_short@[0] == '摩',
        canon_spec(29).name_en@.len() == 4,
        canon_spec(29).name_en@[0] == 'A',
        canon_spec(29).name_en@[1] == 'm',
        canon_spec(29).name_en@[2] == 'o',
        canon_spec(29).name_en@[3] == 's',
{
    reveal_strlit("Amos");
    reveal_strlit("阿摩司書");
    reveal_strlit("摩");
    reveal_strlit("Amos");
}

proof fn book_30()
    ensures
        canon_spec(30).osis@.len() == 4,
        canon_spec(30).osis@[0] == 'O',
        canon_spec(30).osis@[1] == 'b',
        canon_spec(30).osis@[2] == 'a',
        canon_spec(30).osis@[3] == 'd',
        canon_spec(30).name_zh@.len() == 5,
        canon_spec(30).name_zh@[0] == '俄',
        canon_spec(30).name_zh@[1] == '巴',
        canon_spec(30).name_zh@[2] == '底',
        canon_spec(30).name_zh@[3] == '亞',
        canon_spec(30).name_zh@[4] == '書',
        canon_spec(30).name_zh_short@.len() == 1,
        canon_spec(30).name_zh_short@[0] == '俄',
        canon_spec(30).name_en@.len() == 7,
        canon_spec(30).name_en@[0] == 'O',
        canon_spec(30).name_en@[1] == 'b',
        canon_spec(30).name_en@[2] == 'a',
        canon_spec(30).name_en@[3] == 'd',
        canon_spec(30).name_en@[4] == 'i',
        canon_spec(30).name_en@[5] == 'a',
        canon_spec(30).name_en@[6] == 'h',
{
    reveal_strlit("Obad");
    reveal_strlit("俄巴底亞書");
    reveal_strlit("俄");
    reveal_strlit("Obadiah");
}

proof fn book_31()
    ensures
        canon_spec(31).osis@.len() == 5,
        canon_spec(31).osis@[0] == 'J',
        canon_spec(31).osis@[1] == 'o',
        canon_spec(31).osis@[2] == 'n',
        canon_spec(31).osis@[3] == 'a',
        canon_spec(31).osis@[4] == 'h',
        canon_spec(31).name_zh@.len() == 3,
        canon_spec(31).name_zh@[0] == '約',
        canon_spec(31).name_zh@[1] == '拿',
        canon_spec(31).name_zh@[2] == '書',
        canon_spec(31).name_zh_short@.len() == 1,
        canon_spec(31).name_zh_short@[0] == '拿',
        canon_spec(31).name_en@.len() == 5,
        canon_spec(31).name_en@[0] == 'J',
        canon_spec(31).name_en@[1] == 'o',
        canon_spec(31).name_en@[2] == 'n',
        canon_spec(31).name_en@[3] == 'a',
        canon_spec(31).name_en@[4] == 'h',
{
    reveal_strlit("Jonah");
    reveal_strlit("約拿書");
    reveal_strlit("拿");
    reveal_strlit("Jonah");
}

proof fn book_32()
    ensures
        canon_spec(32).osis@.len() == 3,
        canon_spec(32).osis@[0] == 'M',
        canon_spec(32).osis@[1] == 'i',
        canon_spec(32).osis@[2] == 'c',
        canon_spec(32).name_zh@.len() == 3,
        canon_spec(32).name_zh@[0] == '彌',
        canon_spec(32).name_zh@[1] == '迦',
        canon_spec(32).name_zh@[2] == '書',
        canon_spec(32).name_zh_short@.len() == 1,
        canon_spec(32).name_zh_short@[0] == '彌',
        canon_spec(32).name_en@.len() == 5,
        canon_spec(32).name_en@[0] == 'M',
        canon_spec(32).name_en@[1] == 'i',
        canon_spec(32).name_en@[2] == 'c',
        canon_spec(32).name_en@[3] == 'a',
        canon_spec(32).name_en@[4] == 'h',
{
    reveal_strlit("Mic");
    reveal_strlit("彌迦書");
    reveal_strlit("彌");
    reveal_strlit("Micah");
}

proof fn book_33()
    ensures
        canon_spec(33).osis@.len() == 3,
        canon_spec(33).osis@[0] == 'N',
        canon_spec(33).osis@[1] == 'a',
        canon_spec(33).osis@[2] == 'h',
        canon_spec(33).name_zh@.len() == 3,
        canon_spec(33).name_zh@[0] == '那',
        canon_spec(33).name_zh@[1] == '鴻',
        canon_spec(33).name_zh@[2] == '書',
        canon_spec(33).name_zh_short@.len() == 1,
        canon_spec(33).name_zh_short@[0] == '鴻',
        canon_spec(33).name_en@.len() == 5,
        canon_spec(33).name_en@[0] == 'N',
        canon_spec(33).name_en@[1] == 'a',
        canon_spec(33).name_en@[2] == 'h',
        canon_spec(33).name_en@[3] == 'u',
        canon_spec(33).name_en@[4] == 'm',
{
    reveal_strlit("Nah");
    reveal_strlit("那鴻書");
    reveal_strlit("鴻");
    reveal_strlit("Nahum");
}

proof fn book_34()
    ensures
        canon_spec(34).osis@.len() == 3,
        canon_spec(34).osis@[0] == 'H',
        canon_spec(34).osis@[1] == 'a',
        canon_spec(34).osis@[2] == 'b',
        canon_spec(34).name_zh@.len() == 4,
        canon_spec(34).name_zh@[0] == '哈',
        canon_spec(34).name_zh@[1] == '巴',
        canon_spec(34).name_zh@[2] == '谷',
        canon_spec(34).name_zh@[3] == '書',
        canon_spec(34).name_zh_short@.len() == 1,
        canon_spec(34).name_zh_short@[0] == '哈',
        canon_spec(34).name_en@.len() == 8,
        canon_spec(34).name_en@[0] == 'H',
        canon_spec(34).name_en@[1] == 'a',
        canon_spec(34).name_en@[2] == 'b',
        canon_spec(34).name_en@[3] == 'a',
        canon_spec(34).name_en@[4] == 'k',
        canon_spec(34).name_en@[5] == 'k',
        canon_spec(34).name_en@[6] == 'u',
        canon_spec(34).name_en@[7] == 'k',
{
    reveal_strlit("Hab");
    reveal_strlit("哈巴谷書");
    reveal_strlit("哈");
    reveal_strlit("Habakkuk");
}

proof fn book_35()
    ensures
        canon_spec(35).osis@.len() == 4,
        canon_spec(35).osis@[0] == 'Z',
        canon_spec(35).osis@[1] == 'e',
        canon_spec(35).osis@[2] == 'p',
        canon_spec(35).osis@[3] == 'h',
        canon_spec(35).name_zh@.len() == 4,
        canon_spec(35).name_zh@[0] == '西',
        canon_spec(35).name_zh@[1] == '番',
        canon_spec(35).name_zh@[2] == '雅',
        canon_spec(35).name_zh@[3] == '書',
        canon_spec(35).name_zh_short@.len() == 1,
        canon_spec(35).name_zh_short@[0] == '番',
        canon_spec(35).name_en@.len() == 9,
        canon_spec(35).name_en@[0] == 'Z',
        canon_spec(35).name_en@[1] == 'e',
        canon_spec(35).name_en@[2] == 'p',
        canon_spec(35).name_en@[3] == 'h',
        canon_spec(35).name_en@[4] == 'a',
        canon_spec(35).name_en@[5] == 'n',
        canon_spec(35).name_en@[6] == 'i',
        canon_spec(35).name_en@[7] == 'a',
        canon_spec(35).name_en@[8] == 'h',
{
    reveal_strlit("Zeph");
    reveal_strlit("西番雅書");
    reveal_strlit("番");
    reveal_strlit("Zephaniah");
}

proof fn book_36()
    ensures
        canon_spec(36).osis@.len() == 3,
        canon_spec(36).osis@[0] == 'H',
        canon_spec(36).osis@[1] == 'a',
        canon_spec(36).osis@[2] == 'g',
        canon_spec(36).name_zh@.len() == 3,
        canon_spec(36).name_zh@[0] == '哈',
        canon_spec(36).name_zh@[1] == '該',
        canon_spec(36).name_zh@[2] == '書',
        canon_spec(36).name_zh_short@.len() == 1,
        canon_spec(36).name_zh_short@[0] == '該',
        canon_spec(36).name_en@.len() == 6,
        canon_spec(36).name_en@[0] == 'H',
        canon_spec(36).name_en@[1] == 'a',
        canon_spec(36).name_en@[2] == 'g',
        canon_spec(36).name_en@[3] == 'g',
        canon_spec(36).name_en@[4] == 'a',
        canon_spec(36).name_en@[5] == 'i',
{
    reveal_strlit("Hag");
    reveal_strlit("哈該書");
    reveal_strlit("該");
    reveal_strlit("Haggai");
}

proof fn book_37()
    ensures
        canon_spec(37).osis@.len() == 4,
        canon_spec(37).osis@[0] == 'Z',
        canon_spec(37).osis@[1] == 'e',
        canon_spec(37).osis@[2] == 'c',
        canon_spec(37).osis@[3] == 'h',
        canon_spec(37).name_zh@.len() == 5,
        canon_spec(37).name_zh@[0] == '撒',
        canon_spec(37).name_zh@[1] == '迦',
        canon_spec(37).name_zh@[2] == '利',
        canon_spec(37).name_zh@[3] == '亞',
        canon_spec(37).name_zh@[4] == '書',
        canon_spec(37).name_zh_short@.len() == 1,
        canon_spec(37).name_zh_short@[0] == '亞',
        canon_spec(37).name_en@.len() == 9,
        canon_spec(37).name_en@[0] == 'Z',
        canon_spec(37).name_en@[1] == 'e',
        canon_spec(37).name_en@[2] == 'c',
        canon_spec(37).name_en@[3] == 'h',
        canon_spec(37).name_en@[4] == 'a',
        canon_spec(37).name_en@[5] == 'r',
        canon_spec(37).name_en@[6] == 'i',
        canon_spec(37).name_en@[7] == 'a',
        canon_spec(37).name_en@[8] == 'h',
{
    reveal_strlit("Zech");
    reveal_strlit("撒迦利亞書");
    reveal_strlit("亞");
    reveal_strlit("Zechariah");
}

proof fn book_38()
    ensures
        canon_spec(38).osis@.len() == 3,
        canon_spec(38).osis@[0] == 'M',
        canon_spec(38).osis@[1] == 'a',
        canon_spec(38).osis@[2] == 'l',
        canon_spec(38).name_zh@.len() == 4,
        canon_spec(38).name_zh@[0] == '瑪',
        canon_spec(38).name_zh@[1] == '拉',
        canon_spec(38).name_zh@[2] == '基',
        canon_spec(38).name_zh@[3] == '書',
        canon_spec(38).name_zh_short@.len() == 1,
        canon_spec(38).name_zh_short@[0] == '瑪',
        canon_spec(38).name_en@.len() == 7,
        canon_spec(38).name_en@[0] == 'M',
        canon_spec(38).name_en@[1] == 'a',
        canon_spec(38).name_en@[2] == 'l',
        canon_spec(38).name_en@[3] == 'a',
        canon_spec(38).name_en@[4] == 'c',
        canon_spec(38).name_en@[5] == 'h',
        canon_spec(38).name_en@[6] == 'i',
{
    reveal_strlit("Mal");
    reveal_strlit("瑪拉基書");
    reveal_strlit("瑪");
    reveal_strlit("Malachi");
}

proof fn book_39()
    ensures
        canon_spec(39).osis@.len() == 4,
        canon_spec(39).osis@[0] == 'M',
        canon_spec(39).osis@[1] == 'a',
        canon_spec(39).osis@[2] == 't',
        canon_spec(39).osis@[3] == 't',
        canon_spec(39).name_zh@.len() == 4,
        canon_spec(39).name_zh@[0] == '馬',
        canon_spec(39).name_zh@[1] == '太',
        canon_spec(39).name_zh@[2] == '福',
        canon_spec(39).name_zh@[3] == '音',
        canon_spec(39).name_zh_short@.len() == 1,
        canon_spec(39).name_zh_short@[0] == '太',
        canon_spec(39).name_en@.len() == 7,
        canon_spec(39).name_en@[0] == 'M',
        canon_spec(39).name_en@[1] == 'a',
        canon_spec(39).name_en@[2] == 't',
        canon_spec(39).name_en@[3] == 't',
        canon_spec(39).name_en@[4] == 'h',
        canon_spec(39).name_en@[5] == 'e',
        canon_spec(39).name_en@[6] == 'w',
{
    reveal_strlit("Matt");
    reveal_strlit("馬太福音");
    reveal_strlit("太");
    reveal_strlit("Matthew");
}

proof fn book_40()
    ensures
        canon_spec(40).osis@.len() == 4,
        canon_spec(40).osis@[0] == 'M',
        canon_spec(40).osis@[1] == 'a',
        canon_spec(40).osis@[2] == 'r',
        canon_spec(40).osis@[3] == 'k',
        canon_spec(40).name_zh@.len() == 4,
        canon_spec(40).name_zh@[0] == '馬',
        canon_spec(40).name_zh@[1] == '可',
        canon_spec(40).name_zh@[2] == '福',
        canon_spec(40).name_zh@[3] == '音',
        canon_spec(40).name_zh_short@.len() == 1,
        canon_spec(40).name_zh_short@[0] == '可',
        canon_spec(40).name_en@.len() == 4,
        canon_spec(40).name_en@[0] == 'M',
        canon_spec(40).name_en@[1] == 'a',
        canon_spec(40).name_en@[2] == 'r',
        canon_spec(40).name_en@[3] == 'k',
{
    reveal_strlit("Mark");
    reveal_strlit("馬可福音");
    reveal_strlit("可");
    reveal_strlit("Mark");
}

proof fn book_41()
    ensures
        canon_spec(41).osis@.len() == 4,
        canon_spec(41).osis@[0] == 'L',
        canon_spec(41).osis@[1] == 'u',
        canon_spec(41).osis@[2] == 'k',
        canon_spec(41).osis@[3] == 'e',
        canon_spec(41).name_zh@.len() == 4,
        canon_spec(41).name_zh@[0] == '路',
        canon_spec(41).name_zh@[1] == '加',
        canon_spec(41).name_zh@[2] == '福',
        canon_spec(41).name_zh@[3] == '音',
        canon_spec(41).name_zh_short@.len() == 1,
        canon_spec(41).name_zh_short@[0] == '路',
        canon_spec(41).name_en@.len() == 4,
        canon_spec(41).name_en@[0] == 'L',
        canon_spec(41).name_en@[1] == 'u',
        canon_spec(41).name_en@[2] == 'k',
        canon_spec(41).name_en@[3] == 'e',
{
    reveal_strlit("Luke");
    reveal_strlit("路加福音");
    reveal_strlit("路");
    reveal_strlit("Luke");
}

proof fn book_42()
    ensures
        canon_spec(42).osis@.len() == 4,
        canon_spec(42).osis@[0] == 'J',
        canon_spec(42).osis@[1] == 'o',
        canon_spec(42).osis@[2] == 'h',
        canon_spec(42).osis@[3] == 'n',
        canon_spec(42).name_zh@.len() == 4,
        canon_spec(42).name_zh@[0] == '約',
        canon_spec(42).name_zh@[1] == '翰',
        canon_spec(42).name_zh@[2] == '福',
        canon_spec(42).name_zh@[3] == '音',
        canon_spec(42).name_zh_short@.len() == 1,
        canon_spec(42).name_zh_short@[0] == '約',
        canon_spec(42).name_en@.len() == 4,
        canon_spec(42).name_en@[0] == 'J',
        canon_spec(42).name_en@[1] == 'o',
        canon_spec(42).name_en@[2] == 'h',
        canon_spec(42).name_en@[3] == 'n',
{
    reveal_strlit("John");
    reveal_strlit("約翰福音");
    reveal_strlit("約");
    reveal_strlit("John");
}

proof fn book_43()
    ensures
        canon_spec(43).osis@.len() == 4,
        canon_spec(43).osis@[0] == 'A',
        canon_spec(43).osis@[1] == 'c',
        canon_spec(43).osis@[2] == 't',
        canon_spec(43).osis@[3] == 's',
        canon_spec(43).name_zh@.len() == 4,
        canon_spec(43).name_zh@[0] == '使',
        canon_spec(43).name_zh@[1] == '徒',
        canon_spec(43).name_zh@[2] == '行',
        canon_spec(43).name_zh@[3] == '傳',
        canon_spec(43).name_zh_short@.len() == 1,
        canon_spec(43).name_zh_short@[0] == '徒',
        canon_spec(43).name_en@.len() == 4,
        canon_spec(43).name_en@[0] == 'A',
        canon_spec(43).name_en@[1] == 'c',
        canon_spec(43).name_en@[2] == 't',
        canon_spec(43).name_en@[3] == 's',
{
    reveal_strlit("Acts");
    reveal_strlit("使徒行傳");
    reveal_strlit("徒");
    reveal_strlit("Acts");
}

proof fn book_44()
    ensures
        canon_spec(44).osis@.len() == 3,
        canon_spec(44).osis@[0] == 'R',
        canon_spec(44).osis@[1] == 'o',
        canon_spec(44).osis@[2] == 'm',
        canon_spec(44).name_zh@.len() == 3,
        canon_spec(44).name_zh@[0] == '羅',
        canon_spec(44).name_zh@[1] == '馬',
        canon_spec(44).name_zh@[2] == '書',
        canon_spec(44).name_zh_short@.len() == 1,
        canon_spec(44).name_zh_short@[0] == '羅',
        canon_spec(44).name_en@.len() == 6,
        canon_spec(44).name_en@[0] == 'R',
        canon_spec(44).name_en@[1] == 'o',
        canon_spec(44).name_en@[2] == 'm',
        canon_spec(44).name_en@[3] == 'a',
        canon_spec(44).name_en@[4] == 'n',
        canon_spec(44).name_en@[5] == 's',
{
    reveal_strlit("Rom");
    reveal_strlit("羅馬書");
    reveal_strlit("羅");
    reveal_strlit("Romans");
}

proof fn book_45()
    ensures
        canon_spec(45).osis@.len() == 4,
        canon_spec(45).osis@[0] == '1',
        canon_spec(45).osis@[1] == 'C',
        canon_spec(45).osis@[2] == 'o',
        canon_spec(45).osis@[3] == 'r',
        canon_spec(45).name_zh@.len() == 5,
        canon_spec(45).name_zh@[0] == '哥',
        canon_spec(45).name_zh@[1] == '林',
        canon_spec(45).name_zh@[2] == '多',
        canon_spec(45).name_zh@[3] == '前',
        canon_spec(45).name_zh@[4] == '書',
        canon_spec(45).name_zh_short@.len() == 2,
        canon_spec(45).name_zh_short@[0] == '林',
        canon_spec(45).name_zh_short@[1] == '前',
        canon_spec(45).name_en@.len() == 13,
        canon_spec(45).name_en@[0] == '1',
        canon_spec(45).name_en@[1] == ' ',
        canon_spec(45).name_en@[2] == 'C',
        canon_spec(45).name_en@[3] == 'o',
        canon_spec(45).name_en@[4] == 'r',
        canon_spec(45).name_en@[5] == 'i',
        canon_spec(45).name_en@[6] == 'n',
        canon_spec(45).name_en@[7] == 't',
        canon_spec(45).name_en@[8] == 'h',
        canon_spec(45).name_en@[9] == 'i',
        canon_spec(45).name_en@[10] == 'a',
        canon_spec(45).name_en@[11] == 'n',
        canon_spec(45).name_en@[12] == 's',
{
    reveal_strlit("1Cor");
    reveal_strlit("哥林多前書");
    reveal_strlit("林前");
    reveal_strlit("1 Corinthians");
}

proof fn book_46()
    ensures
        canon_spec(46).osis@.len() == 4,
        canon_spec(46).osis@[0] == '2',
        canon_spec(46).osis@[1] == 'C',
        canon_spec(46).osis@[2] == 'o',
        canon_spec(46).osis@[3] == 'r',
        canon_spec(46).name_zh@.len() == 5,
        canon_spec(46).name_zh@[0] == '哥',
        canon_spec(46).name_zh@[1] == '林',
        canon_spec(46).name_zh@[2] == '多',
        canon_spec(46).name_zh@[3] == '後',
        canon_spec(46).name_zh@[4] == '書',
        canon_spec(46).name_zh_short@.len() == 2,
        canon_spec(46).name_zh_short@[0] == '林',
        canon_spec(46).name_zh_short@[1] == '後',
        canon_spec(46).name_en@.len() == 13,
        canon_spec(46).name_en@[0] == '2',
        canon_spec(46).name_en@[1] == ' ',
        canon_spec(46).name_en@[2] == 'C',
        canon_spec(46).name_en@[3] == 'o',
        canon_spec(46).name_en@[4] == 'r',
        canon_spec(46).name_en@[5] == 'i',
        canon_spec(46).name_en@[6] == 'n',
        canon_spec(46).name_en@[7] == 't',
        canon_spec(46).name_en@[8] == 'h',
        canon_spec(46).name_en@[9] == 'i',
        canon_spec(46).name_en@[10] == 'a',
        canon_spec(46).name_en@[11] == 'n',
        canon_spec(46).name_en@[12] == 's',
{
    reveal_strlit("2Cor");
    reveal_strlit("哥林多後書");
    reveal_strlit("林後");
    reveal_strlit("2 Corinthians");
}

proof fn book_47()
    ensures
        canon_spec(47).osis@.len() == 3,
        canon_spec(47).osis@[0] == 'G',
        canon_spec(47).osis@[1] == 'a',
        canon_spec(47).osis@[2] == 'l',
        canon_spec(47).name_zh@.len() == 4,
        canon_spec(47).name_zh@[0] == '加',
        canon_spec(47).name_zh@[1] == '拉',
        canon_spec(47).name_zh@[2] == '太',
        canon_spec(47).name_zh@[3] == '書',
        canon_spec(47).name_zh_short@.len() == 1,
        canon_spec(47).name_zh_short@[0] == '加',
        canon_spec(47).name_en@.len() == 9,
        canon_spec(47).name_en@[0] == 'G',
        canon_spec(47).name_en@[1] == 'a',
        canon_spec(47).name_en@[2] == 'l',
        canon_spec(47).name_en@[3] == 'a',
        canon_spec(47).name_en@[4] == 't',
        canon_spec(47).name_en@[5] == 'i',
        canon_spec(47).name_en@[6] == 'a',
        canon_spec(47).name_en@[7] == 'n',
        canon_spec(47).name_en@[8] == 's',
{
    reveal_strlit("Gal");
    reveal_strlit("加拉太書");
    reveal_strlit("加");
    reveal_strlit("Galatians");
}

proof fn book_48()
    ensures
        canon_spec(48).osis@.len() == 3,
        canon_spec(48).osis@[0] == 'E',
        canon_spec(48).osis@[1] == 'p',
        canon_spec(48).osis@[2] == 'h',
        canon_spec(48).name_zh@.len() == 4,
        canon_spec(48).name_zh@[0] == '以',
        canon_spec(48).name_zh@[1] == '弗',
        canon_spec(48).name_zh@[2] == '所',
        canon_spec(48).name_zh@[3] == '書',
        canon_spec(48).name_zh_short@.len() == 1,
        canon_spec(48).name_zh_short@[0] == '弗',
        canon_spec(48).name_en@.len() == 9,
        canon_spec(48).name_en@[0] == 'E',
        canon_spec(48).name_en@[1] == 'p',
        canon_spec(48).name_en@[2] == 'h',
        canon_spec(48).name_en@[3] == 'e',
        canon_spec(48).name_en@[4] == 's',
        canon_spec(48).name_en@[5] == 'i',
        canon_spec(48).name_en@[6] == 'a',
        canon_spec(48).name_en@[7] == 'n',
        canon_spec(48).name_en@[8] == 's',
{
    reveal_strlit("Eph");
    reveal_strlit("以弗所書");
    reveal_strlit("弗");
    reveal_strlit("Ephesians");
}

proof fn book_49()
    ensures
        canon_spec(49).osis@.len() == 4,
        canon_spec(49).osis@[0] == 'P',
        canon_spec(49).osis@[1] == 'h',
        canon_spec(49).osis@[2] == 'i',
        canon_spec(49).osis@[3] == 'l',
        canon_spec(49).name_zh@.len() == 4,
        canon_spec(49).name_zh@[0] == '腓',
        canon_spec(49).name_zh@[1] == '立',
        canon_spec(49).name_zh@[2] == '比',
        canon_spec(49).name_zh@[3] == '書',
        canon_spec(49).name_zh_short@.len() == 1,
        canon_spec(49).name_zh_short@[0] == '腓',
        canon_spec(49).name_en@.len() == 11,
        canon_spec(49).name_en@[0] == 'P',
        canon_spec(49).name_en@[1] == 'h',
        canon_spec(49).name_en@[2] == 'i',
        canon_spec(49).name_en@[3] == 'l',
        canon_spec(49).name_en@[4] == 'i',
        canon_spec(49).name_en@[5] == 'p',
        canon_spec(49).name_en@[6] == 'p',
        canon_spec(49).name_en@[7] == 'i',
        canon_spec(49).name_en@[8] == 'a',
        canon_spec(49).name_en@[9] == 'n',
        canon_spec(49).name_en@[10] == 's',
{
    reveal_strlit("Phil");
    reveal_strlit("腓立比書");
    reveal_strlit("腓");
    reveal_strlit("Philippians");
}

proof fn book_50()
    ensures
        canon_spec(50).osis@.len() == 3,
        canon_spec(50).osis@[0] == 'C',
        canon_spec(50).osis@[1] == 'o',
        canon_spec(50).osis@[2] == 'l',
        canon_spec(50).name_zh@.len() == 4,
        canon_spec(50).name_zh@[0] == '歌',
        canon_spec(50).name_zh@[1] == '羅',
        canon_spec(50).name_zh@[2] == '西',
        canon_spec(50).name_zh@[3] == '書',
        canon_spec(50).name_zh_short@.len() == 1,
        canon_spec(50).name_zh_short@[0] == '西',
        canon_spec(50).name_en@.len() == 10,
        canon_spec(50).name_en@[0] == 'C',
        canon_spec(50).name_en@[1] == 'o',
        canon_spec(50).name_en@[2] == 'l',
        canon_spec(50).name_en@[3] == 'o',
        canon_spec(50).name_en@[4] == 's',
        canon_spec(50).name_en@[5] == 's',
        canon_spec(50).name_en@[6] == 'i',
        canon_spec(50).name_en@[7] == 'a',
        canon_spec(50).name_en@[8] == 'n',
        canon_spec(50).name_en@[9] == 's',
{
    reveal_strlit("Col");
    reveal_strlit("歌羅西書");
    reveal_strlit("西");
    reveal_strlit("Colossians");
}

proof fn book_51()
    ensures
        canon_spec(51).osis@.len() == 6,
        canon_spec(51).osis@[0] == '1',
        canon_spec(51).osis@[1] == 'T',
        canon_spec(51).osis@[2] == 'h',
        canon_spec(51).osis@[3] == 'e',
        canon_spec(51).osis@[4] == 's',
        canon_spec(51).osis@[5] == 's',
        canon_spec(51).name_zh@.len() == 7,
        canon_spec(51).name_zh@[0] == '帖',
        canon_spec(51).name_zh@[1] == '撒',
        canon_spec(51).name_zh@[2] == '羅',
        canon_spec(51).name_zh@[3] == '尼',
        canon_spec(51).name_zh@[4] == '迦',
        canon_spec(51).name_zh@[5] == '前',
        canon_spec(51).name_zh@[6] == '書',
        canon_spec(51).name_zh_short@.len() == 2,
        canon_spec(51).name_zh_short@[0] == '帖',
        canon_spec(51).name_zh_short@[1] == '前',
        canon_spec(51).name_en@.len() == 15,
        canon_spec(51).name_en@[0] == '1',
        canon_spec(51).name_en@[1] == ' ',
        canon_spec(51).name_en@[2] == 'T',
        canon_spec(51).name_en@[3] == 'h',
        canon_spec(51).name_en@[4] == 'e',
        canon_spec(51).name_en@[5] == 's',
        canon_spec(51).name_en@[6] == 's',
        canon_spec(51).name_en@[7] == 'a',
        canon_spec(51).name_en@[8] == 'l',
        canon_spec(51).name_en@[9] == 'o',
        canon_spec(51).name_en@[10] == 'n',
        canon_spec(51).name_en@[11] == 'i',
        canon_spec(51).name_en@[12] == 'a',
        canon_spec(51).name_en@[13] == 'n',
        canon_spec(51).name_en@[14] == 's',
{
    reveal_strlit("1Thess");
    reveal_strlit("帖撒羅尼迦前書");
    reveal_strlit("帖前");
    reveal_strlit("1 Thessalonians");
}

proof fn book_52()
    ensures
        canon_spec(52).osis@.len() == 6,
        canon_spec(52).osis@[0] == '2',
        canon_spec(52).osis@[1] == 'T',
        canon_spec(52).osis@[2] == 'h',
        canon_spec(52).osis@[3] == 'e',
        canon_spec(52).osis@[4] == 's',
        canon_spec(52).osis@[5] == 's',
        canon_spec(52).name_zh@.len() == 7,
        canon_spec(52).name_zh@[0] == '帖',
        canon_spec(52).name_zh@[1] == '撒',
        canon_spec(52).name_zh@[2] == '羅',
        canon_spec(52).name_zh@[3] == '尼',
        canon_spec(52).name_zh@[4] == '迦',
        canon_spec(52).name_zh@[5] == '後',
        canon_spec(52).name_zh@[6] == '書',
        canon_spec(52).name_zh_short@.len() == 2,
        canon_spec(52).name_zh_short@[0] == '帖',
        canon_spec(52).name_zh_short@[1] == '後',
        canon_spec(52).name_en@.len() == 15,
        canon_spec(52).name_en@[0] == '2',
        canon_spec(52).name_en@[1] == ' ',
        canon_spec(52).name_en@[2] == 'T',
        canon_spec(52).name_en@[3] == 'h',
        canon_spec(52).name_en@[4] == 'e',
        canon_spec(52).name_en@[5] == 's',
        canon_spec(52).name_en@[6] == 's',
        canon_spec(52).name_en@[7] == 'a',
        canon_spec(52).name_en@[8] == 'l',
        canon_spec(52).name_en@[9] == 'o',
        canon_spec(52).name_en@[10] == 'n',
        canon_spec(52).name_en@[11] == 'i',
        canon_spec(52).name_en@[12] == 'a',
        canon_spec(52).name_en@[13] == 'n',
        canon_spec(52).name_en@[14] == 's',
{
    reveal_strlit("2Thess");
    reveal_strlit("帖撒羅尼迦後書");
    reveal_strlit("帖後");
    reveal_strlit("2 Thessalonians");
}

proof fn book_53()
    ensures
        canon_spec(53).osis@.len() == 4,
        canon_spec(53).osis@[0] == '1',
        canon_spec(53).osis@[1] == 'T',
        canon_spec(53).osis@[2] == 'i',
        canon_spec(53).osis@[3] == 'm',
        canon_spec(53).name_zh@.len() == 5,
        canon_spec(53).name_zh@[0] == '提',
        canon_spec(53).name_zh@[1] == '摩',
        canon_spec(53).name_zh@[2] == '太',
        canon_spec(53).name_zh@[3] == '前',
        canon_spec(53).name_zh@[4] == '書',
        canon_spec(53).name_zh_short@.len() == 2,
        canon_spec(53).name_zh_short@[0] == '提',
        canon_spec(53).name_zh_short@[1] == '前',
        canon_spec(53).name_en@.len() == 9,
        canon_spec(53).name_en@[0] == '1',
        canon_spec(53).name_en@[1] == ' ',
        canon_spec(53).name_en@[2] == 'T',
        canon_spec(53).name_en@[3] == 'i',
        canon_spec(53).name_en@[4] == 'm',
        canon_spec(53).name_en@[5] == 'o',
        canon_spec(53).name_en@[6] == 't',
        canon_spec(53).name_en@[7] == 'h',
        canon_spec(53).name_en@[8] == 'y',
{
    reveal_strlit("1Tim");
    reveal_strlit("提摩太前書");
    reveal_strlit("提前");
    reveal_strlit("1 Timothy");
}

proof fn book_54()
    ensures
        canon_spec(54).osis@.len() == 4,
        canon_spec(54).osis@[0] == '2',
        canon_spec(54).osis@[1] == 'T',
        canon_spec(54).osis@[2] == 'i',
        canon_spec(54).osis@[3] == 'm',
        canon_spec(54).name_zh@.len() == 5,
        canon_spec(54).name_zh@[0] == '提',
        canon_spec(54).name_zh@[1] == '摩',
        canon_spec(54).name_zh@[2] == '太',
        canon_spec(54).name_zh@[3] == '後',
        canon_spec(54).name_zh@[4] == '書',
        canon_spec(54).name_zh_short@.len() == 2,
        canon_spec(54).name_zh_short@[0] == '提',
        canon_spec(54).name_zh_short@[1] == '後',
        canon_spec(54).name_en@.len() == 9,
        canon_spec(54).name_en@[0] == '2',
        canon_spec(54).name_en@[1] == ' ',
        canon_spec(54).name_en@[2] == 'T',
        canon_spec(54).name_en@[3] == 'i',
        canon_spec(54).name_en@[4] == 'm',
        canon_spec(54).name_en@[5] == 'o',
        canon_spec(54).name_en@[6] == 't',
        canon_spec(54).name_en@[7] == 'h',
        canon_spec(54).name_en@[8] == 'y',
{
    reveal_strlit("2Tim");
    reveal_strlit("提摩太後書");
    reveal_strlit("提後");
    reveal_strlit("2 Timothy");
}

proof fn book_55()
    ensures
        canon_spec(55).osis@.len() == 5,
        canon_spec(55).osis@[0] == 'T',
        canon_spec(55).osis@[1] == 'i',
        canon_spec(55).osis@[2] == 't',
        canon_spec(55).osis@[3] == 'u',
        canon_spec(55).osis@[4] == 's',
        canon_spec(55).name_zh@.len() == 3,
        canon_spec(55).name_zh@[0] == '提',
        canon_spec(55).name_zh@[1] == '多',
        canon_spec(55).name_zh@[2] == '書',
        canon_spec(55).name_zh_short@.len() == 1,
        canon_spec(55).name_zh_short@[0] == '多',
        canon_spec(55).name_en@.len() == 5,
        canon_spec(55).name_en@[0] == 'T',
        canon_spec(55).name_en@[1] == 'i',
        canon_spec(55).name_en@[2] == 't',
        canon_spec(55).name_en@[3] == 'u',
        canon_spec(55).name_en@[4] == 's',
{
    reveal_strlit("Titus");
    reveal_strlit("提多書");
    reveal_strlit("多");
    reveal_strlit("Titus");
}

proof fn book_56()
    ensures
        canon_spec(56).osis@.len() == 4,
        canon_spec(56).osis@[0] == 'P',
        canon_spec(56).osis@[1] == 'h',
        canon_spec(56).osis@[2] == 'l',
        canon_spec(56).osis@[3] == 'm',
        canon_spec(56).name_zh@.len() == 4,
        canon_spec(56).name_zh@[0] == '腓',
        canon_spec(56).name_zh@[1] == '利',
        canon_spec(56).name_zh@[2] == '門',
        canon_spec(56).name_zh@[3] == '書',
        canon_spec(56).name_zh_short@.len() == 1,
        canon_spec(56).name_zh_short@[0] == '門',
        canon_spec(56).name_en@.len() == 8,
        canon_spec(56).name_en@[0] == 'P',
        canon_spec(56).name_en@[1] == 'h',
        canon_spec(56).name_en@[2] == 'i',
        canon_spec(56).name_en@[3] == 'l',
        canon_spec(56).name_en@[4] == 'e',
        canon_spec(56).name_en@[5] == 'm',
        canon_spec(56).name_en@[6] == 'o',
        canon_spec(56).name_en@[7] == 'n',
{
    reveal_strlit("Phlm");
    reveal_strlit("腓利門書");
    reveal_strlit("門");
    reveal_strlit("Philemon");
}

proof fn book_57()
    ensures
        canon_spec(57).osis@.len() == 3,
        canon_spec(57).osis@[0] == 'H',
        canon_spec(57).osis@[1] == 'e',
        canon_spec(57).osis@[2] == 'b',
        canon_spec(57).name_zh@.len() == 4,
        canon_spec(57).name_zh@[0] == '希',
        canon_spec(57).name_zh@[1] == '伯',
        canon_spec(57).name_zh@[2] == '來',
        canon_spec(57).name_zh@[3] == '書',
        canon_spec(57).name_zh_short@.len() == 1,
        canon_spec(57).name_zh_short@[0] == '來',
        canon_spec(57).name_en@.len() == 7,
        canon_spec(57).name_en@[0] == 'H',
        canon_spec(57).name_en@[1] == 'e',
        canon_spec(57).name_en@[2] == 'b',
        canon_spec(57).name_en@[3] == 'r',
        canon_spec(57).name_en@[4] == 'e',
        canon_spec(57).name_en@[5] == 'w',
        canon_spec(57).name_en@[6] == 's',
{
    reveal_strlit("Heb");
    reveal_strlit("希伯來書");
    reveal_strlit("來");
    reveal_strlit("Hebrews");
}

proof fn book_58()
    ensures
        canon_spec(58).osis@.len() == 3,
        canon_spec(58).osis@[0] == 'J',
        canon_spec(58).osis@[1] == 'a',
        canon_spec(58).osis@[2] == 's',
        canon_spec(58).name_zh@.len() == 3,
        canon_spec(58).name_zh@[0] == '雅',
        canon_spec(58).name_zh@[1] == '各',
        canon_spec(58).name_zh@[2] == '書',
        canon_spec(58).name_zh_short@.len() == 1,
        canon_spec(58).name_zh_short@[0] == '雅',
        canon_spec(58).name_en@.len() == 5,
        canon_spec(58).name_en@[0] == 'J',
        canon_spec(58).name_en@[1] == 'a',
        canon_spec(58).name_en@[2] == 'm',
        canon_spec(58).name_en@[3] == 'e',
        canon_spec(58).name_en@[4] == 's',
{
    reveal_strlit("Jas");
    reveal_strlit("雅各書");
    reveal_strlit("雅");
    reveal_strlit("James");
}

proof fn book_59()
    ensures
        canon_spec(59).osis@.len() == 4,
        canon_spec(59).osis@[0] == '1',
        canon_spec(59).osis@[1] == 'P',
        canon_spec(59).osis@[2] == 'e',
        canon_spec(59).osis@[3] == 't',
        canon_spec(59).name_zh@.len() == 4,
        canon_spec(59).name_zh@[0] == '彼',
        canon_spec(59).name_zh@[1] == '得',
        canon_spec(59).name_zh@[2] == '前',
        canon_spec(59).name_zh@[3] == '書',
        canon_spec(59).name_zh_short@.len() == 2,
        canon_spec(59).name_zh_short@[0] == '彼',
        canon_spec(59).name_zh_short@[1] == '前',
        canon_spec(59).name_en@.len() == 7,
        canon_spec(59).name_en@[0] == '1',
        canon_spec(59).name_en@[1] == ' ',
        canon_spec(59).name_en@[2] == 'P',
        canon_spec(59).name_en@[3] == 'e',
        canon_spec(59).name_en@[4] == 't',
        canon_spec(59).name_en@[5] == 'e',
        canon_spec(59).name_en@[6] == 'r',
{
    reveal_strlit("1Pet");
    reveal_strlit("彼得前書");
    reveal_strlit("彼前");
    reveal_strlit("1 Peter");
}

proof fn book_60()
    ensures
        canon_spec(60).osis@.len() == 4,
        canon_spec(60).osis@[0] == '2',
        canon_spec(60).osis@[1] == 'P',
        canon_spec(60).osis@[2] == 'e',
        canon_spec(60).osis@[3] == 't',
        canon_spec(60).name_zh@.len() == 4,
        canon_spec(60).name_zh@[0] == '彼',
        canon_spec(60).name_zh@[1] == '得',
        canon_spec(60).name_zh@[2] == '後',
        canon_spec(60).name_zh@[3] == '書',
        canon_spec(60).name_zh_short@.len() == 2,
        canon_spec(60).name_zh_short@[0] == '彼',
        canon_spec(60).name_zh_short@[1] == '後',
        canon_spec(60).name_en@.len() == 7,
        canon_spec(60).name_en@[0] == '2',
        canon_spec(60).name_en@[1] == ' ',
        canon_spec(60).name_en@[2] == 'P',
        canon_spec(60).name_en@[3] == 'e',
        canon_spec(60).name_en@[4] == 't',
        canon_spec(60).name_en@[5] == 'e',
        canon_spec(60).name_en@[6] == 'r',
{
    reveal_strlit("2Pet");
    reveal_strlit("彼得後書");
    reveal_strlit("彼後");
    reveal_strlit("2 Peter");
}

proof fn book_61()
    ensures
        canon_spec(61).osis@.len() == 5,
        canon_spec(61).osis@[0] == '1',
        canon_spec(61).osis@[1] == 'J',
        canon_spec(61).osis@[2] == 'o',
        canon_spec(61).osis@[3] == 'h',
        canon_spec(61).osis@[4] == 'n',
        canon_spec(61).name_zh@.len() == 4,
        canon_spec(61).name_zh@[0] == '約',
        canon_spec(61).name_zh@[1] == '翰',
        canon_spec(61).name_zh@[2] == '一',
        canon_spec(61).name_zh@[3] == '書',
        canon_spec(61).name_zh_short@.len() == 2,
        canon_spec(61).name_zh_short@[0] == '約',
        canon_spec(61).name_zh_short@[1] == '一',
        canon_spec(61).name_en@.len() == 6,
        canon_spec(61).name_en@[0] == '1',
        canon_spec(61).name_en@[1] == ' ',
        canon_spec(61).name_en@[2] == 'J',
        canon_spec(61).name_en@[3] == 'o',
        canon_spec(61).name_en@[4] == 'h',
        canon_spec(61).name_en@[5] == 'n',
{
    reveal_strlit("1John");
    reveal_strlit("約翰一書");
    reveal_strlit("約一");
    reveal_strlit("1 John");
}

proof fn book_62()
    ensures
        canon_spec(62).osis@.len() == 5,
        canon_spec(62).osis@[0] == '2',
        canon_spec(62).osis@[1] == 'J',
        canon_spec(62).osis@[2] == 'o',
        canon_spec(62).osis@[3] == 'h',
        canon_spec(62).osis@[4] == 'n',
        canon_spec(62).name_zh@.len() == 4,
        canon_spec(62).name_zh@[0] == '約',
        canon_spec(62).name_zh@[1] == '翰',
        canon_spec(62).name_zh@[2] == '二',
        canon_spec(62).name_zh@[3] == '書',
        canon_spec(62).name_zh_short@.len() == 2,
        canon_spec(62).name_zh_short@[0] == '約',
        canon_spec(62).name_zh_short@[1] == '二',
        canon_spec(62).name_en@.len() == 6,
        canon_spec(62).name_en@[0] == '2',
        canon_spec(62).name_en@[1] == ' ',
        canon_spec(62).name_en@[2] == 'J',
        canon_spec(62).name_en@[3] == 'o',
        canon_spec(62).name_en@[4] == 'h',
        canon_spec(62).name_en@[5] == 'n',
{
    reveal_strlit("2John");
    reveal_strlit("約翰二書");
    reveal_strlit("約二");
    reveal_strlit("2 John");
}

proof fn book_63()
    ensures
        canon_spec(63).osis@.len() == 5,
        canon_spec(63).osis@[0] == '3',
        canon_spec(63).osis@[1] == 'J',
        canon_spec(63).osis@[2] == 'o',
        canon_spec(63).osis@[3] == 'h',
        canon_spec(63).osis@[4] == 'n',
        canon_spec(63).name_zh@.len() == 4,
        canon_spec(63).name_zh@[0] == '約',
        canon_spec(63).name_zh@[1] == '翰',
        canon_spec(63).name_zh@[2] == '三',
        canon_spec(63).name_zh@[3] == '書',
        canon_spec(63).name_zh_short@.len() == 2,
        canon_spec(63).name_zh_short@[0] == '約',
        canon_spec(63).name_zh_short@[1] == '三',
        canon_spec(63).name_en@.len() == 6,
        canon_spec(63).name_en@[0] == '3',
        canon_spec(63).name_en@[1] == ' ',
        canon_spec(63).name_en@[2] == 'J',
        canon_spec(63).name_en@[3] == 'o',
        canon_spec(63).name_en@[4] == 'h',
        canon_spec(63).name_en@[5] == 'n',
{
    reveal_strlit("3John");
    reveal_strlit("約翰三書");
    reveal_strlit("約三");
    reveal_strlit("3 John");
}

proof fn book_64()
    ensures
        canon_spec(64).osis@.len() == 4,
        canon_spec(64).osis@[0] == 'J',
        canon_spec(64).osis@[1] == 'u',
        canon_spec(64).osis@[2] == 'd',
        canon_spec(64).osis@[3] == 'e',
        canon_spec(64).name_zh@.len() == 3,
        canon_spec(64).name_zh@[0] == '猶',
        canon_spec(64).name_zh@[1] == '大',
        canon_spec(64).name_zh@[2] == '書',
        canon_spec(64).name_zh_short@.len() == 1,
        canon_spec(64).name_zh_short@[0] == '猶',
        canon_spec(64).name_en@.len() == 4,
        canon_spec(64).name_en@[0] == 'J',
        canon_spec(64).name_en@[1] == 'u',
        canon_spec(64).name_en@[2] == 'd',
        canon_spec(64).name_en@[3] == 'e',
{
    reveal_strlit("Jude");
    reveal_strlit("猶大書");
    reveal_strlit("猶");
    reveal_strlit("Jude");
}

proof fn book_65()
    ensures
        canon_spec(65).osis@.len() == 3,
        canon_spec(65).osis@[0] == 'R',
        canon_spec(65).osis@[1] == 'e',
        canon_spec(65).osis@[2] == 'v',
        canon_spec(65).name_zh@.len() == 3,
        canon_spec(65).name_zh@[0] == '啟',
        canon_spec(65).name_zh@[1] == '示',
        canon_spec(65).name_zh@[2] == '錄',
        canon_spec(65).name_zh_short@.len() == 1,
        canon_spec(65).name_zh_short@[0] == '啟',
        canon_spec(65).name_en@.len() == 10,
        canon_spec(65).name_en@[0] == 'R',
        canon_spec(65).name_en@[1] == 'e',
        canon_spec(65).name_en@[2] == 'v',
        canon_spec(65).name_en@[3] == 'e',
        canon_spec(65).name_en@[4] == 'l',
        canon_spec(65).name_en@[5] == 'a',
        canon_spec(65).name_en@[6] == 't',
        canon_spec(65).name_en@[7] == 'i',
        canon_spec(65).name_en@[8] == 'o',
        canon_spec(65).name_en@[9] == 'n',
{
    reveal_strlit("Rev");
    reveal_strlit("啟示錄");
    reveal_strlit("啟");
    reveal_strlit("Revelation");
}

proof fn found_by_osis_0()
    ensures
        lookup_canon_spec(canon_spec(0).osis@) == Some(canon_spec(0)),
{
    book_0();
    let k = canon_spec(0).osis@;
    lemma_plain_key(k);
    lemma_not_number(k, 0);
    assert(first_book_match(k, 0) == Some(0int));
}

proof fn found_by_abbreviation_0()
    ensures
        lookup_canon_spec(canon_spec(0).name_zh_short@) == Some(canon_spec(0)),
{
    book_0();
    let k = canon_spec(0).name_zh_short@;
    lemma_plain_key(k);
    lemma_not_number(k, 0);
    assert(first_book_match(k, 0) == Some(0int));
}

proof fn found_by_english_0()
    ensures
        lookup_canon_spec(canon_spec(0).name_en@) == Some(canon_spec(0)),
{
    book_0();
    let k = canon_spec(0).name_en@;
    lemma_plain_key(k);
    lemma_not_number(k, 0);
    assert(first_book_match(k, 0) == Some(0int));
}

#[verifier::rlimit(40)]
proof fn misses_osis_1_0()
    ensures
        first_book_match(canon_spec(1).osis@, 0) == first_book_match(canon_spec(1).osis@, 1),
{
    book_1();
    let k = canon_spec(1).osis@;
    book_0();
    assert(first_book_match(k, 0) == first_book_match(k, 1));
}

proof fn found_by_osis_1()
    ensures
        lookup_canon_spec(canon_spec(1).osis@) == Some(canon_spec(1)),
{
    book_1();
    let k = canon_spec(1).osis@;
    lemma_plain_key(k);
    lemma_not_number(k, 0);
    misses_osis_1_0();
    assert(first_book_match(k, 1) == Some(1int));
}

#[verifier::rlimit(40)]
proof fn misses_abbreviation_1_0()
    ensures
        first_book_match(canon_spec(1).name_zh_short@, 0) == first_book_match(canon_spec(1).name_zh_short@, 1),
{
    book_1();
    let k = canon_spec(1).name_zh_short@;
    book_0();
    lemma_not_same(canon_spec(0).name_zh_short@, k, 0);
    assert(first_book_match(k, 0) == first_book_match(k, 1));
}

proof fn found_by_abbreviation_1()
    ensures
        lookup_canon_spec(canon_spec(1).name_zh_short@) == Some(canon_spec(1)),
{
    book_1();
    let k = canon_spec(1).name_zh_short@;
    lemma_plain_key(k);
    lemma_not_number(k, 0);
    misses_abbreviation_1_0();
    assert(first_book_match(k, 1) == Some(1int));
}

#[verifier::rlimit(40)]
proof fn misses_english_1_0()
    ensures
        first_book_match(canon_spec(1).name_en@, 0) == first_book_match(canon_spec(1).name_en@, 1),
{
    book_1();
    let k = canon_spec(1).name_en@;
    book_0();
    assert(first_book_match(k, 0) == first_book_match(k, 1));
}

proof fn found_by_english_1()
    ensures
        lookup_canon_spec(canon_spec(1).name_en@) == Some(canon_spec(1)),
{
    book_1();
    let k = canon_spec(1).name_en@;
    lemma_plain_key(k);
    lemma_not_number(k, 0);
    misses_english_1_0();
    assert(first_book_match(k, 1) == Some(1int));
}

#[verifier::rlimit(40)]
proof fn misses_osis_2_0()
    ensures
        first_book_match(canon_spec(2).osis@, 0) == first_book_match(canon_spec(2).osis@, 2),
{
    book_2();
    let k = canon_spec(2).osis@;
    book_0();
    lemma_not_eq_ic(canon_spec(0).osis@, k, 0);
    lemma_not_same(canon_spec(0).name_zh@, k, 0);
    book_1();
    assert(first_book_match(k, 1) == first_book_match(k, 2));
    assert(first_book_match(k, 0) == first_book_match(k, 2));
}

proof fn found_by_osis_2()
    ensures
        lookup_canon_spec(canon_spec(2).osis@) == Some(canon_spec(2)),
{
    book_2();
    let k = canon_spec(2).osis@;
    lemma_plain_key(k);
    lemma_not_number(k, 0);
    misses_osis_2_0();
    assert(first_book_match(k, 2) == Some(2int));
}

#[verifier::rlimit(40)]
proof fn misses_abbreviation_2_0()
    ensures
        first_book_match(canon_spec(2).name_zh_short@, 0) == first_book_match(canon_spec(2).name_zh_short@, 2),
{
    book_2();
    let k = canon_spec(2).name_zh_short@;
    book_0();
    lemma_not_same(canon_spec(0).name_zh_short@, k, 0);
    book_1();
    lemma_not_same(canon_spec(1).name_zh_short@, k, 0);
    assert(first_book_match(k, 1) == first_book_match(k, 2));
    assert(first_book_match(k, 0) == first_book_match(k, 2));
}

proof fn found_by_abbreviation_2()
    ensures
        lookup_canon_spec(canon_spec(2).name_zh_short@) == Some(canon_spec(2)),
{
    book_2();
    let k = canon_spec(2).name_zh_short@;
    lemma_plain_key(k);
    lemma_not_number(k, 0);
    misses_abbreviation_2_0();
    assert(first_book_match(k, 2) == Some(2int));
}

#[verifier::rlimit(40)]
proof fn misses_english_2_0()
    ensures
        first_book_match(canon_spec(2).name_en@, 0) == first_book_match(canon_spec(2).name_en@, 2),
{
    book_2();
    let k = canon_spec(2).name_en@;
    book_0();
    book_1();
    assert(first_book_match(k, 1) == first_book_match(k, 2));
    assert(first_book_match(k, 0) == first_book_match(k, 2));
}

proof fn found_by_english_2()
    ensures
        lookup_canon_spec(canon_spec(2).name_en@) == Some(canon_spec(2)),
{
    book_2();
    let k = canon_spec(2).name_en@;
    lemma_plain_key(k);
    lemma_not_number(k, 0);
    misses_english_2_0();
    assert(first_book_match(k, 2) == Some(2int));
}

#[verifier::rlimit(40)]
proof fn misses_osis_3_0()
    ensures
        first_book_match(canon_spec(3).osis@, 0) == first_book_match(canon_spec(3).osis@, 3),
{
    book_3();
    let k = canon_spec(3).osis@;
    book_0();
    lemma_not_eq_ic(canon_spec(0).osis@, k, 0);
    lemma_not_same(canon_spec(0).name_zh@, k, 0);
    book_1();
    book_2();
    lemma_not_eq_ic(canon_spec(2).osis@, k, 0);
    lemma_not_same(canon_spec(2).name_zh@, k, 0);
    assert(first_book_match(k, 2) == first_book_match(k, 3));
    assert(first_book_match(k, 1) == first_book_match(k, 3));
    assert(first_book_match(k, 0) == first_book_match(k, 3));
}

proof fn found_by_osis_3()
    ensures
        lookup_canon_spec(canon_spec(3).osis@) == Some(canon_spec(3)),
{
    book_3();
    let k = canon_spec(3).osis@;
    lemma_plain_key(k);
    lemma_not_number(k, 0);
    misses_osis_3_0();
    assert(first_book_match(k, 3) == Some(3int));
}

#[verifier::rlimit(40)]
proof fn misses_abbreviation_3_0()
    ensures
        first_book_match(canon_spec(3).name_zh_short@, 0) == first_book_match(canon_spec(3).name_zh_short@, 3),
{
    book_3();
    let k = canon_spec(3).name_zh_short@;
    book_0();
    lemma_not_same(canon_spec(0).name_zh_short@, k, 0);
    book_1();
    lemma_not_same(canon_spec(1).name_zh_short@, k, 0);
    book_2();
    lemma_not_same(canon_spec(2).name_zh_short@, k, 0);
    assert(first_book_match(k, 2) == first_book_match(k, 3));
    assert(first_book_match(k, 1) == first_book_match(k, 3));
    assert(first_book_match(k, 0) == first_book_match(k, 3));
}

proof fn found_by_abbreviation_3()
    ensures
        lookup_canon_spec(canon_spec(3).name_zh_short@) == Some(canon_spec(3)),
{
    book_3();
    let k = canon_spec(3).name_zh_short@;
    lemma_plain_key(k);
    lemma_not_number(k, 0);
    misses_abbreviation_3_0();
    assert(first_book_match(k, 3) == Some(3int));
}

#[verifier::rlimit(40)]
proof fn misses_english_3_0()
    ensures
        first_book_match(canon_spec(3).name_en@, 0) == first_book_match(canon_spec(3).name_en@, 3),
{
    book_3();
    let k = canon_spec(3).name_en@;
    book_0();
    lemma_not_eq_ic(canon_spec(0).name_en@, k, 0);
    book_1();
    book_2();
    assert(first_book_match(k, 2) == first_book_match(k, 3));
    assert(first_book_match(k, 1) == first_book_match(k, 3));
    assert(first_book_match(k, 0) == first_book_match(k, 3));
}

proof fn found_by_english_3()
    ensures
        lookup_canon_spec(canon_spec(3).name_en@) == Some(canon_spec(3)),
{
    book_3();
    let k = canon_spec(3).name_en@;
    lemma_plain_key(k);
    lemma_not_number(k, 0);
    misses_english_3_0();
    assert(first_book_match(k, 3) == Some(3int));
}

#[verifier::rlimit(40)]
proof fn misses_osis_4_0()
    ensures
        first_book_match(canon_spec(4).osis@, 0) == first_book_match(canon_spec(4).osis@, 4),
{
    book_4();
    let k = canon_spec(4).osis@;
    book_0();
    book_1();
    lemma_not_eq_ic(canon_spec(1).osis@, k, 0);
    lemma_not_same(canon_spec(1).name_zh@, k, 0);
    book_2();
    book_3();
    assert(first_book_match(k, 3) == first_book_match(k, 4));
    assert(first_book_match(k, 2) == first_book_match(k, 4));
    assert(first_book_match(k, 1) == first_book_match(k, 4));
    assert(first_book_match(k, 0) == first_book_match(k, 4));
}

proof fn found_by_osis_4()
    ensures
        lookup_canon_spec(canon_spec(4).osis@) == Some(canon_spec(4)),
{
    book_4();
    let k = canon_spec(4).osis@;
    lemma_plain_key(k);
    lemma_not_number(k, 0);
    misses_osis_4_0();
    assert(first_book_match(k, 4) == Some(4int));
}

#[verifier::rlimit(40)]
proof fn misses_abbreviation_4_0()
    ensures
        first_book_match(canon_spec(4).name_zh_short@, 0) == first_book_match(canon_spec(4).name_zh_short@, 4),
{
    book_4();
    let k = canon_spec(4).name_zh_short@;
    book_0();
    lemma_not_same(canon_spec(0).name_zh_short@, k, 0);
    book_1();
    lemma_not_same(canon_spec(1).name_zh_short@, k, 0);
    book_2();
    lemma_not_same(canon_spec(2).name_zh_short@, k, 0);
    book_3();
    lemma_not_same(canon_spec(3).name_zh_short@, k, 0);
    assert(first_book_match(k, 3) == first_book_match(k, 4));
    assert(first_book_match(k, 2) == first_book_match(k, 4));
    assert(first_book_match(k, 1) == first_book_match(k, 4));
    assert(first_book_match(k, 0) == first_book_match(k, 4));
}

proof fn found_by_abbreviation_4()
    ensures
        lookup_canon_spec(canon_spec(4).name_zh_short@) == Some(canon_spec(4)),
{
    book_4();
    let k = canon_spec(4).name_zh_short@;
    lemma_plain_key(k);
    lemma_not_number(k, 0);
    misses_abbreviation_4_0();
    assert(first_book_match(k, 4) == Some(4int));
}

#[verifier::rlimit(40)]
proof fn misses_english_4_0()
    ensures
        first_book_match(canon_spec(4).name_en@, 0) == first_book_match(canon_spec(4).name_en@, 4),
{
    book_4();
    let k = canon_spec(4).name_en@;
    book_0();
    book_1();
    book_2();
    book_3();
    assert(first_book_match(k, 3) == first_book_match(k, 4));
    assert(first_book_match(k, 2) == first_book_match(k, 4));
    assert(first_book_match(k, 1) == first_book_match(k, 4));
    assert(first_book_match(k, 0) == first_book_match(k, 4));
}

proof fn found_by_english_4()
    ensures
        lookup_canon_spec(canon_spec(4).name_en@) == Some(canon_spec(4)),
{
    book_4();
    let k = canon_spec(4).name_en@;
    lemma_plain_key(k);
    lemma_not_number(k, 0);
    misses_english_4_0();
    assert(first_book_match(k, 4) == Some(4int));
}

#[verifier::rlimit(40)]
proof fn misses_osis_5_0()
    ensures
        first_book_match(canon_spec(5).osis@, 0) == first_book_match(canon_spec(5).osis@, 5),
{
    book_5();
    let k = canon_spec(5).osis@;
    book_0();
    book_1();
    lemma_not_eq_ic(canon_spec(1).osis@, k, 0);
    lemma_not_same(canon_spec(1).name_zh@, k, 0);
    book_2();
    book_3();
    book_4();
    lemma_not_eq_ic(canon_spec(4).osis@, k, 0);
    assert(first_book_match(k, 4) == first_book_match(k, 5));
    assert(first_book_match(k, 3) == first_book_match(k, 5));
    assert(first_book_match(k, 2) == first_book_match(k, 5));
    assert(first_book_match(k, 1) == first_book_match(k, 5));
    assert(first_book_match(k, 0) == first_book_match(k, 5));
}

proof fn found_by_osis_5()
    ensures
        lookup_canon_spec(canon_spec(5).osis@) == Some(canon_spec(5)),
{
    book_5();
    let k = canon_spec(5).osis@;
    lemma_plain_key(k);
    lemma_not_number(k, 0);
    misses_osis_5_0();
    assert(first_book_match(k, 5) == Some(5int));
}

#[verifier::rlimit(40)]
proof fn misses_abbreviation_5_0()
    ensures
        first_book_match(canon_spec(5).name_zh_short@, 0) == first_book_match(canon_spec(5).name_zh_short@, 5),
{
    book_5();
    let k = canon_spec(5).name_zh_short@;
    book_0();
    lemma_not_same(canon_spec(0).name_zh_short@, k, 0);
    book_1();
    lemma_not_same(canon_spec(1).name_zh_short@, k, 0);
    book_2();
    lemma_not_same(canon_spec(2).name_zh_short@, k, 0);
    book_3();
    lemma_not_same(canon_spec(3).name_zh_short@, k, 0);
    book_4();
    lemma_not_same(canon_spec(4).name_zh_short@, k, 0);
    assert(first_book_match(k, 4) == first_book_match(k, 5));
    assert(first_book_match(k, 3) == first_book_match(k, 5));
    assert(first_book_match(k, 2) == first_book_match(k, 5));
    assert(first_book_match(k, 1) == first_book_match(k, 5));
    assert(first_book_match(k, 0) == first_book_match(k, 5));
}

proof fn found_by_abbreviation_5()
    ensures
        lookup_canon_spec(canon_spec(5).name_zh_short@) == Some(canon_spec(5)),
{
    book_5();
    let k = canon_spec(5).name_zh_short@;
    lemma_plain_key(k);
    lemma_not_number(k, 0);
    misses_abbreviation_5_0();
    assert(first_book_match(k, 5) == Some(5int));
}

#[verifier::rlimit(40)]
proof fn misses_english_5_0()
    ensures
        first_book_match(canon_spec(5).name_en@, 0) == first_book_match(canon_spec(5).name_en@, 5),
{
    book_5();
    let k = canon_spec(5).name_en@;
    book_0();
    book_1();
    lemma_not_eq_ic(canon_spec(1).name_en@, k, 0);
    book_2();
    book_3();
    book_4();
    assert(first_book_match(k, 4) == first_book_match(k, 5));
    assert(first_book_match(k, 3) == first_book_match(k, 5));
    assert(first_book_match(k, 2) == first_book_match(k, 5));
    assert(first_book_match(k, 1) == first_book_match(k, 5));
    assert(first_book_match(k, 0) == first_book_match(k, 5));
}

proof fn found_by_english_5()
    ensures
        lookup_canon_spec(canon_spec(5).name_en@) == Some(canon_spec(5)),
{
    book_5();
    let k = canon_spec(5).name_en@;
    lemma_plain_key(k);
    lemma_not_number(k, 0);
    misses_english_5_0();
    assert(first_book_match(k, 5) == Some(5int));
}

#[verifier::rlimit(40)]
proof fn misses_osis_6_0()
    ensures
        first_book_match(canon_spec(6).osis@, 0) == first_book_match(canon_spec(6).osis@, 6),
{
    book_6();
    let k = canon_spec(6).osis@;
    book_0();
    book_1();
    lemma_not_eq_ic(canon_spec(1).osis@, k, 0);
    lemma_not_same(canon_spec(1).name_zh@, k, 0);
    book_2();
    book_3();
    book_4();
    lemma_not_eq_ic(canon_spec(4).osis@, k, 0);
    book_5();
    lemma_not_eq_ic(canon_spec(5).osis@, k, 1);
    lemma_not_same(canon_spec(5).name_zh@, k, 0);
    assert(first_book_match(k, 5) == first_book_match(k, 6));
    assert(first_book_match(k, 4) == first_book_match(k, 6));
    assert(first_book_match(k, 3) == first_book_match(k, 6));
    assert(first_book_match(k, 2) == first_book_match(k, 6));
    assert(first_book_match(k, 1) == first_book_match(k, 6));
    assert(first_book_match(k, 0) == first_book_match(k, 6));
}

proof fn found_by_osis_6()
    ensures
        lookup_canon_spec(canon_spec(6).osis@) == Some(canon_spec(6)),
{
    book_6();
    let k = canon_spec(6).osis@;
    lemma_plain_key(k);
    lemma_not_number(k, 0);
    misses_osis_6_0();
    assert(first_book_match(k, 6) == Some(6int));
}

#[verifier::rlimit(40)]
proof fn misses_abbreviation_6_0()
    ensures
        first_book_match(canon_spec(6).name_zh_short@, 0) == first_book_match(canon_spec(6).name_zh_short@, 6),
{
    book_6();
    let k = canon_spec(6).name_zh_short@;
    book_0();
    lemma_not_same(canon_spec(0).name_zh_short@, k, 0);
    book_1();
    lemma_not_same(canon_spec(1).name_zh_short@, k, 0);
    book_2();
    lemma_not_same(canon_spec(2).name_zh_short@, k, 0);
    book_3();
    lemma_not_same(canon_spec(3).name_zh_short@, k, 0);
    book_4();
    lemma_not_same(canon_spec(4).name_zh_short@, k, 0);
    book_5();
    lemma_not_same(canon_spec(5).name_zh_short@, k, 0);
    assert(first_book_match(k, 5) == first_book_match(k, 6));
    assert(first_book_match(k, 4) == first_book_match(k, 6));
    assert(first_book_match(k, 3) == first_book_match(k, 6));
    assert(first_book_match(k, 2) == first_book_match(k, 6));
    assert(first_book_match(k, 1) == first_book_match(k, 6));
    assert(first_book_match(k, 0) == first_book_match(k, 6));
}

proof fn found_by_abbreviation_6()
    ensures
        lookup_canon_spec(canon_spec(6).name_zh_short@) == Some(canon_spec(6)),
{
    book_6();
    let k = canon_spec(6).name_zh_short@;
    lemma_plain_key(k);
    lemma_not_number(k, 0);
    misses_abbreviation_6_0();
    assert(first_book_match(k, 6) == Some(6int));
}

#[verifier::rlimit(40)]
proof fn misses_english_6_0()
    ensures
        first_book_match(canon_spec(6).name_en@, 0) == first_book_match(canon_spec(6).name_en@, 6),
{
    book_6();
    let k = canon_spec(6).name_en@;
    book_0();
    book_1();
    lemma_not_eq_ic(canon_spec(1).name_en@, k, 0);
    book_2();
    book_3();
    book_4();
    book_5();
    lemma_not_eq_ic(canon_spec(5).name_en@, k, 1);
    assert(first_book_match(k, 5) == first_book_match(k, 6));
    assert(first_book_match(k, 4) == first_book_match(k, 6));
    assert(first_book_match(k, 3) == first_book_match(k, 6));
    assert(first_book_match(k, 2) == first_book_match(k, 6));
    assert(first_book_match(k, 1) == first_book_match(k, 6));
    assert(first_book_match(k, 0) == first_book_match(k, 6));
}

proof fn found_by_english_6()
    ensures
        lookup_canon_spec(canon_spec(6).name_en@) == Some(canon_spec(6)),
{
    book_6();
    let k = canon_spec(6).name_en@;
    lemma_plain_key(k);
    lemma_not_number(k, 0);
    misses_english_6_0();
    assert(first_book_match(k, 6) == Some(6int));
}

#[verifier::rlimit(40)]
proof fn misses_osis_7_0()
    ensures
        first_book_match(canon_spec(7).osis@, 0) == first_book_match(canon_spec(7).osis@, 7),
{
    book_7();
    let k = canon_spec(7).osis@;
    book_0();
    book_1();
    lemma_not_eq_ic(canon_spec(1).osis@, k, 0);
    lemma_not_same(canon_spec(1).name_zh@, k, 0);
    book_2();
    book_3();
    book_4();
    lemma_not_eq_ic(canon_spec(4).osis@, k, 0);
    book_5();
    lemma_not_eq_ic(canon_spec(5).osis@, k, 0);
    lemma_not_same(canon_spec(5).name_zh@, k, 0);
    book_6();
    lemma_not_eq_ic(canon_spec(6).osis@, k, 0);
    assert(first_book_match(k, 6) == first_book_match(k, 7));
    assert(first_book_match(k, 5) == first_book_match(k, 7));
    assert(first_book_match(k, 4) == first_book_match(k, 7));
    assert(first_book_match(k, 3) == first_book_match(k, 7));
    assert(first_book_match(k, 2) == first_book_match(k, 7));
    assert(first_book_match(k, 1) == first_book_match(k, 7));
    assert(first_book_match(k, 0) == first_book_match(k, 7));
}

proof fn found_by_osis_7()
    ensures
        lookup_canon_spec(canon_spec(7).osis@) == Some(canon_spec(7)),
{
    book_7();
    let k = canon_spec(7).osis@;
    lemma_plain_key(k);
    lemma_not_number(k, 0);
    misses_osis_7_0();
    assert(first_book_match(k, 7) == Some(7int));
}

#[verifier::rlimit(40)]
proof fn misses_abbreviation_7_0()
    ensures
        first_book_match(canon_spec(7).name_zh_short@, 0) == first_book_match(canon_spec(7).name_zh_short@, 7),
{
    book_7();
    let k = canon_spec(7).name_zh_short@;
    book_0();
    lemma_not_same(canon_spec(0).name_zh_short@, k, 0);
    book_1();
    lemma_not_same(canon_spec(1).name_zh_short@, k, 0);
    book_2();
    lemma_not_same(canon_spec(2).name_zh_short@, k, 0);
    book_3();
    lemma_not_same(canon_spec(3).name_zh_short@, k, 0);
    book_4();
    lemma_not_same(canon_spec(4).name_zh_short@, k, 0);
    book_5();
    lemma_not_same(canon_spec(5).name_zh_short@, k, 0);
    book_6();
    lemma_not_same(canon_spec(6).name_zh_short@, k, 0);
    assert(first_book_match(k, 6) == first_book_match(k, 7));
    assert(first_book_match(k, 5) == first_book_match(k, 7));
    assert(first_book_match(k, 4) == first_book_match(k, 7));
    assert(first_book_match(k, 3) == first_book_match(k, 7));
    assert(first_book_match(k, 2) == first_book_match(k, 7));
    assert(first_book_match(k, 1) == first_book_match(k, 7));
    assert(first_book_match(k, 0) == first_book_match(k, 7));
}

proof fn found_by_abbreviation_7()
    ensures
        lookup_canon_spec(canon_spec(7).name_zh_short@) == Some(canon_spec(7)),
{
    book_7();
    let k = canon_spec(7).name_zh_short@;
    lemma_plain_key(k);
    lemma_not_number(k, 0);
    misses_abbreviation_7_0();
    assert(first_book_match(k, 7) == Some(7int));
}

#[verifier::rlimit(40)]
proof fn misses_english_7_0()
    ensures
        first_book_match(canon_spec(7).name_en@, 0) == first_book_match(canon_spec(7).name_en@, 7),
{
    book_7();
    let k = canon_spec(7).name_en@;
    book_0();
    book_1();
    lemma_not_eq_ic(canon_spec(1).osis@, k, 0);
    lemma_not_same(canon_spec(1).name_zh@, k, 0);
    book_2();
    book_3();
    book_4();
    lemma_not_eq_ic(canon_spec(4).osis@, k, 0);
    book_5();
    lemma_not_eq_ic(canon_spec(5).osis@, k, 0);
    lemma_not_same(canon_spec(5).name_zh@, k, 0);
    book_6();
    lemma_not_eq_ic(canon_spec(6).osis@, k, 0);
    assert(first_book_match(k, 6) == first_book_match(k, 7));
    assert(first_book_match(k, 5) == first_book_match(k, 7));
    assert(first_book_match(k, 4) == first_book_match(k, 7));
    assert(first_book_match(k, 3) == first_book_match(k, 7));
    assert(first_book_match(k, 2) == first_book_match(k, 7));
    assert(first_book_match(k, 1) == first_book_match(k, 7));
    assert(first_book_match(k, 0) == first_book_match(k, 7));
}

proof fn found_by_english_7()
    ensures
        lookup_canon_spec(canon_spec(7).name_en@) == Some(canon_spec(7)),
{
    book_7();
    let k = canon_spec(7).name_en@;
    lemma_plain_key(k);
    lemma_not_number(k, 0);
    misses_english_7_0();
    assert(first_book_match(k, 7) == Some(7int));
}

#[verifier::rlimit(40)]
proof fn misses_osis_8_0()
    ensures
        first_book_match(canon_spec(8).osis@, 0) == first_book_match(canon_spec(8).osis@, 8),
{
    book_8();
    let k = canon_spec(8).osis@;
    book_0();
    book_1();
    lemma_not_eq_ic(canon_spec(1).osis@, k, 0);
    lemma_not_same(canon_spec(1).name_zh@, k, 0);
    book_2();
    book_3();
    book_4();
    lemma_not_eq_ic(canon_spec(4).osis@, k, 0);
    book_5();
    lemma_not_eq_ic(canon_spec(5).osis@, k, 0);
    lemma_not_same(canon_spec(5).name_zh@, k, 0);
    book_6();
    lemma_not_eq_ic(canon_spec(6).osis@, k, 0);
    book_7();
    lemma_not_eq_ic(canon_spec(7).osis@, k, 0);
    lemma_not_eq_ic(canon_spec(7).name_en@, k, 0);
    assert(first_book_match(k, 7) == first_book_match(k, 8));
    assert(first_book_match(k, 6) == first_book_match(k, 8));
    assert(first_book_match(k, 5) == first_book_match(k, 8));
    assert(first_book_match(k, 4) == first_book_match(k, 8));
    assert(first_book_match(k, 3) == first_book_match(k, 8));
    assert(first_book_match(k, 2) == first_book_match(k, 8));
    assert(first_book_match(k, 1) == first_book_match(k, 8));
    assert(first_book_match(k, 0) == first_book_match(k, 8));
}

proof fn found_by_osis_8()
    ensures
        lookup_canon_spec(canon_spec(8).osis@) == Some(canon_spec(8)),
{
    book_8();
    let k = canon_spec(8).osis@;
    lemma_plain_key(k);
    lemma_not_number(k, 1);
    misses_osis_8_0();
    assert(first_book_match(k, 8) == Some(8int));
}

#[verifier::rlimit(40)]
proof fn misses_abbreviation_8_0()
    ensures
        first_book_match(canon_spec(8).name_zh_short@, 0) == first_book_match(canon_spec(8).name_zh_short@, 8),
{
    book_8();
    let k = canon_spec(8).name_zh_short@;
    book_0();
    book_1();
    book_2();
    book_3();
    book_4();
    book_5();
    book_6();
    book_7();
    assert(first_book_match(k, 7) == first_book_match(k, 8));
    assert(first_book_match(k, 6) == first_book_match(k, 8));
    assert(first_book_match(k, 5) == first_book_match(k, 8));
    assert(first_book_match(k, 4) == first_book_match(k, 8));
    assert(first_book_match(k, 3) == first_book_match(k, 8));
    assert(first_book_match(k, 2) == first_book_match(k, 8));
    assert(first_book_match(k, 1) == first_book_match(k, 8));
    assert(first_book_match(k, 0) == first_book_match(k, 8));
}

proof fn found_by_abbreviation_8()
    ensures
        lookup_canon_spec(canon_spec(8).name_zh_short@) == Some(canon_spec(8)),
{
    book_8();
    let k = canon_spec(8).name_zh_short@;
    lemma_plain_key(k);
    lemma_not_number(k, 0);
    misses_abbreviation_8_0();
    assert(first_book_match(k, 8) == Some(8int));
}

#[verifier::rlimit(40)]
proof fn misses_english_8_0()
    ensures
        first_book_match(canon_spec(8).name_en@, 0) == first_book_match(canon_spec(8).name_en@, 8),
{
    book_8();
    let k = canon_spec(8).name_en@;
    book_0();
    book_1();
    book_2();
    book_3();
    book_4();
    book_5();
    book_6();
    book_7();
    assert(first_book_match(k, 7) == first_book_match(k, 8));
    assert(first_book_match(k, 6) == first_book_match(k, 8));
    assert(first_book_match(k, 5) == first_book_match(k, 8));
    assert(first_book_match(k, 4) == first_book_match(k, 8));
    assert(first_book_match(k, 3) == first_book_match(k, 8));
    assert(first_book_match(k, 2) == first_book_match(k, 8));
    assert(first_book_match(k, 1) == first_book_match(k, 8));
    assert(first_book_match(k, 0) == first_book_match(k, 8));
}

proof fn found_by_english_8()
    ensures
        lookup_canon_spec(canon_spec(8).name_en@) == Some(canon_spec(8)),
{
    book_8();
    let k = canon_spec(8).name_en@;
    lemma_plain_key(k);
    lemma_not_number(k, 1);
    misses_english_8_0();
    assert(first_book_match(k, 8) == Some(8int));
}

#[verifier::rlimit(40)]
proof fn misses_osis_9_0()
    ensures
        first_book_match(canon_spec(9).osis@, 0) == first_book_match(canon_spec(9).osis@, 9),
{
    book_9();
    let k = canon_spec(9).osis@;
    book_0();
    book_1();
    lemma_not_eq_ic(canon_spec(1).osis@, k, 0);
    lemma_not_same(canon_spec(1).name_zh@, k, 0);
    book_2();
    book_3();
    book_4();
    lemma_not_eq_ic(canon_spec(4).osis@, k, 0);
    book_5();
    lemma_not_eq_ic(canon_spec(5).osis@, k, 0);
    lemma_not_same(canon_spec(5).name_zh@, k, 0);
    book_6();
    lemma_not_eq_ic(canon_spec(6).osis@, k, 0);
    book_7();
    lemma_not_eq_ic(canon_spec(7).osis@, k, 0);
    lemma_not_eq_ic(canon_spec(7).name_en@, k, 0);
    book_8();
    lemma_not_eq_ic(canon_spec(8).osis@, k, 0);
    assert(first_book_match(k, 8) == first_book_match(k, 9));
    assert(first_book_match(k, 7) == first_book_match(k, 9));
    assert(first_book_match(k, 6) == first_book_match(k, 9));
    assert(first_book_match(k, 5) == first_book_match(k, 9));
    assert(first_book_match(k, 4) == first_book_match(k, 9));
    assert(first_book_match(k, 3) == first_book_match(k, 9));
    assert(first_book_match(k, 2) == first_book_match(k, 9));
    assert(first_book_match(k, 1) == first_book_match(k, 9));
    assert(first_book_match(k, 0) == first_book_match(k, 9));
}

proof fn found_by_osis_9()
    ensures
        lookup_canon_spec(canon_spec(9).osis@) == Some(canon_spec(9)),
{
    book_9();
    let k = canon_spec(9).osis@;
    lemma_plain_key(k);
    lemma_not_number(k, 1);
    misses_osis_9_0();
    assert(first_book_match(k, 9) == Some(9int));
}

#[verifier::rlimit(40)]
proof fn misses_abbreviation_9_0()
    ensures
        first_book_match(canon_spec(9).name_zh_short@, 0) == first_book_match(canon_spec(9).name_zh_short@, 9),
{
    book_9();
    let k = canon_spec(9).name_zh_short@;
    book_0();
    book_1();
    book_2();
    book_3();
    book_4();
    book_5();
    book_6();
    book_7();
    book_8();
    lemma_not_same(canon_spec(8).name_zh_short@, k, 1);
    assert(first_book_match(k, 8) == first_book_match(k, 9));
    assert(first_book_match(k, 7) == first_book_match(k, 9));
    assert(first_book_match(k, 6) == first_book_match(k, 9));
    assert(first_book_match(k, 5) == first_book_match(k, 9));
    assert(first_book_match(k, 4) == first_book_match(k, 9));
    assert(first_book_match(k, 3) == first_book_match(k, 9));
    assert(first_book_match(k, 2) == first_book_match(k, 9));
    assert(first_book_match(k, 1) == first_book_match(k, 9));
    assert(first_book_match(k, 0) == first_book_match(k, 9));
}

proof fn found_by_abbreviation_9()
    ensures
        lookup_canon_spec(canon_spec(9).name_zh_short@) == Some(canon_spec(9)),
{
    book_9();
    let k = canon_spec(9).name_zh_short@;
    lemma_plain_key(k);
    lemma_not_number(k, 0);
    misses_abbreviation_9_0();
    assert(first_book_match(k, 9) == Some(9int));
}

#[verifier::rlimit(40)]
proof fn misses_english_9_0()
    ensures
        first_book_match(canon_spec(9).name_en@, 0) == first_book_match(canon_spec(9).name_en@, 9),
{
    book_9();
    let k = canon_spec(9).name_en@;
    book_0();
    book_1();
    book_2();
    book_3();
    book_4();
    book_5();
    book_6();
    book_7();
    book_8();
    lemma_not_eq_ic(canon_spec(8).name_en@, k, 0);
    assert(first_book_match(k, 8) == first_book_match(k, 9));
    assert(first_book_match(k, 7) == first_book_match(k, 9));
    assert(first_book_match(k, 6) == first_book_match(k, 9));
    assert(first_book_match(k, 5) == first_book_match(k, 9));
    assert(first_book_match(k, 4) == first_book_match(k, 9));
    assert(first_book_match(k, 3) == first_book_match(k, 9));
    assert(first_book_match(k, 2) == first_book_match(k, 9));
    assert(first_book_match(k, 1) == first_book_match(k, 9));
    assert(first_book_match(k, 0) == first_book_match(k, 9));
}

proof fn found_by_english_9()
    ensures
        lookup_canon_spec(canon_spec(9).name_en@) == Some(canon_spec(9)),
{
    book_9();
    let k = canon_spec(9).name_en@;
    lemma_plain_key(k);
    lemma_not_number(k, 1);
    misses_english_9_0();
    assert(first_book_match(k, 9) == Some(9int));
}

#[verifier::rlimit(40)]
proof fn misses_osis_10_0()
    ensures
        first_book_match(canon_spec(10).osis@, 0) == first_book_match(canon_spec(10).osis@, 10),
{
    book_10();
    let k = canon_spec(10).osis@;
    book_0();
    book_1();
    lemma_not_eq_ic(canon_spec(1).osis@, k, 0);
    lemma_not_same(canon_spec(1).name_zh@, k, 0);
    book_2();
    book_3();
    book_4();
    lemma_not_eq_ic(canon_spec(4).osis@, k, 0);
    book_5();
    lemma_not_eq_ic(canon_spec(5).osis@, k, 0);
    lemma_not_same(canon_spec(5).name_zh@, k, 0);
    book_6();
    lemma_not_eq_ic(canon_spec(6).osis@, k, 0);
    book_7();
    lemma_not_eq_ic(canon_spec(7).osis@, k, 0);
    lemma_not_eq_ic(canon_spec(7).name_en@, k, 0);
    book_8();
    lemma_not_eq_ic(canon_spec(8).osis@, k, 1);
    book_9();
    lemma_not_eq_ic(canon_spec(9).osis@, k, 0);
    assert(first_book_match(k, 9) == first_book_match(k, 10));
    assert(first_book_match(k, 8) == first_book_match(k, 10));
    assert(first_book_match(k, 7) == first_book_match(k, 10));
    assert(first_book_match(k, 6) == first_book_match(k, 10));
    assert(first_book_match(k, 5) == first_book_match(k, 10));
    assert(first_book_match(k, 4) == first_book_match(k, 10));
    assert(first_book_match(k, 3) == first_book_match(k, 10));
    assert(first_book_match(k, 2) == first_book_match(k, 10));
    assert(first_book_match(k, 1) == first_book_match(k, 10));
    assert(first_book_match(k, 0) == first_book_match(k, 10));
}

proof fn found_by_osis_10()
    ensures
        lookup_canon_spec(canon_spec(10).osis@) == Some(canon_spec(10)),
{
    book_10();
    let k = canon_spec(10).osis@;
    lemma_plain_key(k);
    lemma_not_number(k, 1);
    misses_osis_10_0();
    assert(first_book_match(k, 10) == Some(10int));
}

#[verifier::rlimit(40)]
proof fn misses_abbreviation_10_0()
    ensures
        first_book_match(canon_spec(10).name_zh_short@, 0) == first_book_match(canon_spec(10).name_zh_short@, 10),
{
    book_10();
    let k = canon_spec(10).name_zh_short@;
    book_0();
    book_1();
    book_2();
    book_3();
    book_4();
    book_5();
    book_6();
    book_7();
    book_8();
    lemma_not_same(canon_spec(8).name_zh_short@, k, 0);
    book_9();
    lemma_not_same(canon_spec(9).name_zh_short@, k, 0);
    assert(first_book_match(k, 9) == first_book_match(k, 10));
    assert(first_book_match(k, 8) == first_book_match(k, 10));
    assert(first_book_match(k, 7) == first_book_match(k, 10));
    assert(first_book_match(k, 6) == first_book_match(k, 10));
    assert(first_book_match(k, 5) == first_book_match(k, 10));
    assert(first_book_match(k, 4) == first_book_match(k, 10));
    assert(first_book_match(k, 3) == first_book_match(k, 10));
    assert(first_book_match(k, 2) == first_book_match(k, 10));
    assert(first_book_match(k, 1) == first_book_match(k, 10));
    assert(first_book_match(k, 0) == first_book_match(k, 10));
}

proof fn found_by_abbreviation_10()
    ensures
        lookup_canon_spec(canon_spec(10).name_zh_short@) == Some(canon_spec(10)),
{
    book_10();
    let k = canon_spec(10).name_zh_short@;
    lemma_plain_key(k);
    lemma_not_number(k, 0);
    misses_abbreviation_10_0();
    assert(first_book_match(k, 10) == Some(10int));
}

#[verifier::rlimit(40)]
proof fn misses_english_10_0()
    ensures
        first_book_match(canon_spec(10).name_en@, 0) == first_book_match(canon_spec(10).name_en@, 10),
{
    book_10();
    let k = canon_spec(10).name_en@;
    book_0();
    lemma_not_eq_ic(canon_spec(0).name_en@, k, 0);
    book_1();
    book_2();
    book_3();
    lemma_not_eq_ic(canon_spec(3).name_en@, k, 0);
    book_4();
    book_5();
    book_6();
    book_7();
    book_8();
    book_9();
    assert(first_book_match(k, 9) == first_book_match(k, 10));
    assert(first_book_match(k, 8) == first_book_match(k, 10));
    assert(first_book_match(k, 7) == first_book_match(k, 10));
    assert(first_book_match(k, 6) == first_book_match(k, 10));
    assert(first_book_match(k, 5) == first_book_match(k, 10));
    assert(first_book_match(k, 4) == first_book_match(k, 10));
    assert(first_book_match(k, 3) == first_book_match(k, 10));
    assert(first_book_match(k, 2) == first_book_match(k, 10));
    assert(first_book_match(k, 1) == first_book_match(k, 10));
    assert(first_book_match(k, 0) == first_book_match(k, 10));
}

proof fn found_by_english_10()
    ensures
        lookup_canon_spec(canon_spec(10).name_en@) == Some(canon_spec(10)),
{
    book_10();
    let k = canon_spec(10).name_en@;
    lemma_plain_key(k);
    lemma_not_number(k, 1);
    misses_english_10_0();
    assert(first_book_match(k, 10) == Some(10int));
}

#[verifier::rlimit(40)]
proof fn misses_osis_11_0()
    ensures
        first_book_match(canon_spec(11).osis@, 0) == first_book_match(canon_spec(11).osis@, 11),
{
    book_11();
    let k = canon_spec(11).osis@;
    book_0();
    book_1();
    lemma_not_eq_ic(canon_spec(1).osis@, k, 0);
    lemma_not_same(canon_spec(1).name_zh@, k, 0);
    book_2();
    book_3();
    book_4();
    lemma_not_eq_ic(canon_spec(4).osis@, k, 0);
    book_5();
    lemma_not_eq_ic(canon_spec(5).osis@, k, 0);
    lemma_not_same(canon_spec(5).name_zh@, k, 0);
    book_6();
    lemma_not_eq_ic(canon_spec(6).osis@, k, 0);
    book_7();
    lemma_not_eq_ic(canon_spec(7).osis@, k, 0);
    lemma_not_eq_ic(canon_spec(7).name_en@, k, 0);
    book_8();
    lemma_not_eq_ic(canon_spec(8).osis@, k, 0);
    book_9();
    lemma_not_eq_ic(canon_spec(9).osis@, k, 1);
    book_10();
    lemma_not_eq_ic(canon_spec(10).osis@, k, 0);
    lemma_not_same(canon_spec(10).name_zh@, k, 0);
    assert(first_book_match(k, 10) == first_book_match(k, 11));
    assert(first_book_match(k, 9) == first_book_match(k, 11));
    assert(first_book_match(k, 8) == first_book_match(k, 11));
    assert(first_book_match(k, 7) == first_book_match(k, 11));
    assert(first_book_match(k, 6) == first_book_match(k, 11));
    assert(first_book_match(k, 5) == first_book_match(k, 11));
    assert(first_book_match(k, 4) == first_book_match(k, 11));
    assert(first_book_match(k, 3) == first_book_match(k, 11));
    assert(first_book_match(k, 2) == first_book_match(k, 11));
    assert(first_book_match(k, 1) == first_book_match(k, 11));
    assert(first_book_match(k, 0) == first_book_match(k, 11));
}

proof fn found_by_osis_11()
    ensures
        lookup_canon_spec(canon_spec(11).osis@) == Some(canon_spec(11)),
{
    book_11();
    let k = canon_spec(11).osis@;
    lemma_plain_key(k);
    lemma_not_number(k, 1);
    misses_osis_11_0();
    assert(first_book_match(k, 11) == Some(11int));
}

#[verifier::rlimit(40)]
proof fn misses_abbreviation_11_0()
    ensures
        first_book_match(canon_spec(11).name_zh_short@, 0) == first_book_match(canon_spec(11).name_zh_short@, 11),
{
    book_11();
    let k = canon_spec(11).name_zh_short@;
    book_0();
    book_1();
    book_2();
    book_3();
    book_4();
    book_5();
    book_6();
    book_7();
    book_8();
    lemma_not_same(canon_spec(8).name_zh_short@, k, 0);
    book_9();
    lemma_not_same(canon_spec(9).name_zh_short@, k, 0);
    book_10();
    lemma_not_same(canon_spec(10).name_zh_short@, k, 1);
    assert(first_book_match(k, 10) == first_book_match(k, 11));
    assert(first_book_match(k, 9) == first_book_match(k, 11));
    assert(first_book_match(k, 8) == first_book_match(k, 11));
    assert(first_book_match(k, 7) == first_book_match(k, 11));
    assert(first_book_match(k, 6) == first_book_match(k, 11));
    assert(first_book_match(k, 5) == first_book_match(k, 11));
    assert(first_book_match(k, 4) == first_book_match(k, 11));
    assert(first_book_match(k, 3) == first_book_match(k, 11));
    assert(first_book_match(k, 2) == first_book_match(k, 11));
    assert(first_book_match(k, 1) == first_book_match(k, 11));
    assert(first_book_match(k, 0) == first_book_match(k, 11));
}

proof fn found_by_abbreviation_11()
    ensures
        lookup_canon_spec(canon_spec(11).name_zh_short@) == Some(canon_spec(11)),
{
    book_11();
    let k = canon_spec(11).name_zh_short@;
    lemma_plain_key(k);
    lemma_not_number(k, 0);
    misses_abbreviation_11_0();
    assert(first_book_match(k, 11) == Some(11int));
}

#[verifier::rlimit(40)]
proof fn misses_english_11_0()
    ensures
        first_book_match(canon_spec(11).name_en@, 0) == first_book_match(canon_spec(11).name_en@, 11),
{
    book_11();
    let k = canon_spec(11).name_en@;
    book_0();
    lemma_not_eq_ic(canon_spec(0).name_en@, k, 0);
    book_1();
    book_2();
    book_3();
    lemma_not_eq_ic(canon_spec(3).name_en@, k, 0);
    book_4();
    book_5();
    book_6();
    book_7();
    book_8();
    book_9();
    book_10();
    lemma_not_eq_ic(canon_spec(10).name_en@, k, 0);
    assert(first_book_match(k, 10) == first_book_match(k, 11));
    assert(first_book_match(k, 9) == first_book_match(k, 11));
    assert(first_book_match(k, 8) == first_book_match(k, 11));
    assert(first_book_match(k, 7) == first_book_match(k, 11));
    assert(first_book_match(k, 6) == first_book_match(k, 11));
    assert(first_book_match(k, 5) == first_book_match(k, 11));
    assert(first_book_match(k, 4) == first_book_match(k, 11));
    assert(first_book_match(k, 3) == first_book_match(k, 11));
    assert(first_book_match(k, 2) == first_book_match(k, 11));
    assert(first_book_match(k, 1) == first_book_match(k, 11));
    assert(first_book_match(k, 0) == first_book_match(k, 11));
}

proof fn found_by_english_11()
    ensures
        lookup_canon_spec(canon_spec(11).name_en@) == Some(canon_spec(11)),
{
    book_11();
    let k = canon_spec(11).name_en@;
    lemma_plain_key(k);
    lemma_not_number(k, 1);
    misses_english_11_0();
    assert(first_book_match(k, 11) == Some(11int));
}

#[verifier::rlimit(40)]
proof fn misses_osis_12_0()
    ensures
        first_book_match(canon_spec(12).osis@, 0) == first_book_match(canon_spec(12).osis@, 12),
{
    book_12();
    let k = canon_spec(12).osis@;
    book_0();
    book_1();
    lemma_not_eq_ic(canon_spec(1).osis@, k, 0);
    lemma_not_same(canon_spec(1).name_zh@, k, 0);
    book_2();
    book_3();
    book_4();
    lemma_not_eq_ic(canon_spec(4).osis@, k, 0);
    book_5();
    lemma_not_eq_ic(canon_spec(5).osis@, k, 0);
    lemma_not_same(canon_spec(5).name_zh@, k, 0);
    book_6();
    lemma_not_eq_ic(canon_spec(6).osis@, k, 0);
    book_7();
    lemma_not_eq_ic(canon_spec(7).osis@, k, 0);
    lemma_not_eq_ic(canon_spec(7).name_en@, k, 0);
    book_8();
    lemma_not_eq_ic(canon_spec(8).osis@, k, 1);
    book_9();
    lemma_not_eq_ic(canon_spec(9).osis@, k, 0);
    book_10();
    lemma_not_eq_ic(canon_spec(10).osis@, k, 1);
    lemma_not_same(canon_spec(10).name_zh@, k, 0);
    book_11();
    lemma_not_eq_ic(canon_spec(11).osis@, k, 0);
    lemma_not_same(canon_spec(11).name_zh@, k, 0);
    assert(first_book_match(k, 11) == first_book_match(k, 12));
    assert(first_book_match(k, 10) == first_book_match(k, 12));
    assert(first_book_match(k, 9) == first_book_match(k, 12));
    assert(first_book_match(k, 8) == first_book_match(k, 12));
    assert(first_book_match(k, 7) == first_book_match(k, 12));
    assert(first_book_match(k, 6) == first_book_match(k, 12));
    assert(first_book_match(k, 5) == first_book_match(k, 12));
    assert(first_book_match(k, 4) == first_book_match(k, 12));
    assert(first_book_match(k, 3) == first_book_match(k, 12));
    assert(first_book_match(k, 2) == first_book_match(k, 12));
    assert(first_book_match(k, 1) == first_book_match(k, 12));
    assert(first_book_match(k, 0) == first_book_match(k, 12));
}

proof fn found_by_osis_12()
    ensures
        lookup_canon_spec(canon_spec(12).osis@) == Some(canon_spec(12)),
{
    book_12();
    let k = canon_spec(12).osis@;
    lemma_plain_key(k);
    lemma_not_number(k, 1);
    misses_osis_12_0();
    assert(first_book_match(k, 12) == Some(12int));
}

#[verifier::rlimit(40)]
proof fn misses_abbreviation_12_0()
    ensures
        first_book_match(canon_spec(12).name_zh_short@, 0) == first_book_match(canon_spec(12).name_zh_short@, 12),
{
    book_12();
    let k = canon_spec(12).name_zh_short@;
    book_0();
    book_1();
    book_2();
    book_3();
    book_4();
    book_5();
    book_6();
    book_7();
    book_8();
    lemma_not_same(canon_spec(8).name_zh_short@, k, 0);
    book_9();
    lemma_not_same(canon_spec(9).name_zh_short@, k, 0);
    book_10();
    lemma_not_same(canon_spec(10).name_zh_short@, k, 0);
    book_11();
    lemma_not_same(canon_spec(11).name_zh_short@, k, 0);
    assert(first_book_match(k, 11) == first_book_match(k, 12));
    assert(first_book_match(k, 10) == first_book_match(k, 12));
    assert(first_book_match(k, 9) == first_book_match(k, 12));
    assert(first_book_match(k, 8) == first_book_match(k, 12));
    assert(first_book_match(k, 7) == first_book_match(k, 12));
    assert(first_book_match(k, 6) == first_book_match(k, 12));
    assert(first_book_match(k, 5) == first_book_match(k, 12));
    assert(first_book_match(k, 4) == first_book_match(k, 12));
    assert(first_book_match(k, 3) == first_book_match(k, 12));
    assert(first_book_match(k, 2) == first_book_match(k, 12));
    assert(first_book_match(k, 1) == first_book_match(k, 12));
    assert(first_book_match(k, 0) == first_book_match(k, 12));
}

proof fn found_by_abbreviation_12()
    ensures
        lookup_canon_spec(canon_spec(12).name_zh_short@) == Some(canon_spec(12)),
{
    book_12();
    let k = canon_spec(12).name_zh_short@;
    lemma_plain_key(k);
    lemma_not_number(k, 0);
    misses_abbreviation_12_0();
    assert(first_book_match(k, 12) == Some(12int));
}

#[verifier::rlimit(40)]
proof fn misses_english_12_0()
    ensures
        first_book_match(canon_spec(12).name_en@, 0) == first_book_match(canon_spec(12).name_en@, 12),
{
    book_12();
    let k = canon_spec(12).name_en@;
    book_0();
    book_1();
    book_2();
    book_3();
    book_4();
    book_5();
    book_6();
    book_7();
    book_8();
    book_9();
    book_10();
    book_11();
    assert(first_book_match(k, 11) == first_book_match(k, 12));
    assert(first_book_match(k, 10) == first_book_match(k, 12));
    assert(first_book_match(k, 9) == first_book_match(k, 12));
    assert(first_book_match(k, 8) == first_book_match(k, 12));
    assert(first_book_match(k, 7) == first_book_match(k, 12));
    assert(first_book_match(k, 6) == first_book_match(k, 12));
    assert(first_book_match(k, 5) == first_book_match(k, 12));
    assert(first_book_match(k, 4) == first_book_match(k, 12));
    assert(first_book_match(k, 3) == first_book_match(k, 12));
    assert(first_book_match(k, 2) == first_book_match(k, 12));
    assert(first_book_match(k, 1) == first_book_match(k, 12));
    assert(first_book_match(k, 0) == first_book_match(k, 12));
}

proof fn found_by_english_12()
    ensures
        lookup_canon_spec(canon_spec(12).name_en@) == Some(canon_spec(12)),
{
    book_12();
    let k = canon_spec(12).name_en@;
    lemma_plain_key(k);
    lemma_not_number(k, 1);
    misses_english_12_0();
    assert(first_book_match(k, 12) == Some(12int));
}

#[verifier::rlimit(40)]
proof fn misses_osis_13_0()
    ensures
        first_book_match(canon_spec(13).osis@, 0) == first_book_match(canon_spec(13).osis@, 13),
{
    book_13();
    let k = canon_spec(13).osis@;
    book_0();
    book_1();
    lemma_not_eq_ic(canon_spec(1).osis@, k, 0);
    lemma_not_same(canon_spec(1).name_zh@, k, 0);
    book_2();
    book_3();
    book_4();
    lemma_not_eq_ic(canon_spec(4).osis@, k, 0);
    book_5();
    lemma_not_eq_ic(canon_spec(5).osis@, k, 0);
    lemma_not_same(canon_spec(5).name_zh@, k, 0);
    book_6();
    lemma_not_eq_ic(canon_spec(6).osis@, k, 0);
    book_7();
    lemma_not_eq_ic(canon_spec(7).osis@, k, 0);
    lemma_not_eq_ic(canon_spec(7).name_en@, k, 0);
    book_8();
    lemma_not_eq_ic(canon_spec(8).osis@, k, 0);
    book_9();
    lemma_not_eq_ic(canon_spec(9).osis@, k, 1);
    book_10();
    lemma_not_eq_ic(canon_spec(10).osis@, k, 0);
    lemma_not_same(canon_spec(10).name_zh@, k, 0);
    book_11();
    lemma_not_eq_ic(canon_spec(11).osis@, k, 1);
    lemma_not_same(canon_spec(11).name_zh@, k, 0);
    book_12();
    lemma_not_eq_ic(canon_spec(12).osis@, k, 0);
    lemma_not_same(canon_spec(12).name_zh@, k, 0);
    assert(first_book_match(k, 12) == first_book_match(k, 13));
    assert(first_book_match(k, 11) == first_book_match(k, 13));
    assert(first_book_match(k, 10) == first_book_match(k, 13));
    assert(first_book_match(k, 9) == first_book_match(k, 13));
    assert(first_book_match(k, 8) == first_book_match(k, 13));
    assert(first_book_match(k, 7) == first_book_match(k, 13));
    assert(first_book_match(k, 6) == first_book_match(k, 13));
    assert(first_book_match(k, 5) == first_book_match(k, 13));
    assert(first_book_match(k, 4) == first_book_match(k, 13));
    assert(first_book_match(k, 3) == first_book_match(k, 13));
    assert(first_book_match(k, 2) == first_book_match(k, 13));
    assert(first_book_match(k, 1) == first_book_match(k, 13));
    assert(first_book_match(k, 0) == first_book_match(k, 13));
}

proof fn found_by_osis_13()
    ensures
        lookup_canon_spec(canon_spec(13).osis@) == Some(canon_spec(13)),
{
    book_13();
    let k = canon_spec(13).osis@;
    lemma_plain_key(k);
    lemma_not_number(k, 1);
    misses_osis_13_0();
    assert(first_book_match(k, 13) == Some(13int));
}

#[verifier::rlimit(40)]
proof fn misses_abbreviation_13_0()
    ensures
        first_book_match(canon_spec(13).name_zh_short@, 0) == first_book_match(canon_spec(13).name_zh_short@, 13),
{
    book_13();
    let k = canon_spec(13).name_zh_short@;
    book_0();
    book_1();
    book_2();
    book_3();
    book_4();
    book_5();
    book_6();
    book_7();
    book_8();
    lemma_not_same(canon_spec(8).name_zh_short@, k, 0);
    book_9();
    lemma_not_same(canon_spec(9).name_zh_short@, k, 0);
    book_10();
    lemma_not_same(canon_spec(10).name_zh_short@, k, 0);
    book_11();
    lemma_not_same(canon_spec(11).name_zh_short@, k, 0);
    book_12();
    lemma_not_same(canon_spec(12).name_zh_short@, k, 1);
    assert(first_book_match(k, 12) == first_book_match(k, 13));
    assert(first_book_match(k, 11) == first_book_match(k, 13));
    assert(first_book_match(k, 10) == first_book_match(k, 13));
    assert(first_book_match(k, 9) == first_book_match(k, 13));
    assert(first_book_match(k, 8) == first_book_match(k, 13));
    assert(first_book_match(k, 7) == first_book_match(k, 13));
    assert(first_book_match(k, 6) == first_book_match(k, 13));
    assert(first_book_match(k, 5) == first_book_match(k, 13));
    assert(first_book_match(k, 4) == first_book_match(k, 13));
    assert(first_book_match(k, 3) == first_book_match(k, 13));
    assert(first_book_match(k, 2) == first_book_match(k, 13));
    assert(first_book_match(k, 1) == first_book_match(k, 13));
    assert(first_book_match(k, 0) == first_book_match(k, 13));
}

proof fn found_by_abbreviation_13()
    ensures
        lookup_canon_spec(canon_spec(13).name_zh_short@) == Some(canon_spec(13)),
{
    book_13();
    let k = canon_spec(13).name_zh_short@;
    lemma_plain_key(k);
    lemma_not_number(k, 0);
    misses_abbreviation_13_0();
    assert(first_book_match(k, 13) == Some(13int));
}

#[verifier::rlimit(40)]
proof fn misses_english_13_0()
    ensures
        first_book_match(canon_spec(13).name_en@, 0) == first_book_match(canon_spec(13).name_en@, 13),
{
    book_13();
    let k = canon_spec(13).name_en@;
    book_0();
    book_1();
    book_2();
    book_3();
    book_4();
    book_5();
    book_6();
    book_7();
    book_8();
    book_9();
    book_10();
    book_11();
    book_12();
    lemma_not_eq_ic(canon_spec(12).name_en@, k, 0);
    assert(first_book_match(k, 12) == first_book_match(k, 13));
    assert(first_book_match(k, 11) == first_book_match(k, 13));
    assert(first_book_match(k, 10) == first_book_match(k, 13));
    assert(first_book_match(k, 9) == first_book_match(k, 13));
    assert(first_book_match(k, 8) == first_book_match(k, 13));
    assert(first_book_match(k, 7) == first_book_match(k, 13));
    assert(first_book_match(k, 6) == first_book_match(k, 13));
    assert(first_book_match(k, 5) == first_book_match(k, 13));
    assert(first_book_match(k, 4) == first_book_match(k, 13));
    assert(first_book_match(k, 3) == first_book_match(k, 13));
    assert(first_book_match(k, 2) == first_book_match(k, 13));
    assert(first_book_match(k, 1) == first_book_match(k, 13));
    assert(first_book_match(k, 0) == first_book_match(k, 13));
}

proof fn found_by_english_13()
    ensures
        lookup_canon_spec(canon_spec(13).name_en@) == Some(canon_spec(13)),
{
    book_13();
    let k = canon_spec(13).name_en@;
    lemma_plain_key(k);
    lemma_not_number(k, 1);
    misses_english_13_0();
    assert(first_book_match(k, 13) == Some(13int));
}

#[verifier::rlimit(40)]
proof fn misses_osis_14_0()
    ensures
        first_book_match(canon_spec(14).osis@, 0) == first_book_match(canon_spec(14).osis@, 14),
{
    book_14();
    let k = canon_spec(14).osis@;
    book_0();
    book_1();
    lemma_not_eq_ic(canon_spec(1).osis@, k, 1);
    lemma_not_same(canon_spec(1).name_zh@, k, 0);
    book_2();
    book_3();
    book_4();
    lemma_not_eq_ic(canon_spec(4).osis@, k, 0);
    book_5();
    lemma_not_eq_ic(canon_spec(5).osis@, k, 0);
    lemma_not_same(canon_spec(5).name_zh@, k, 0);
    book_6();
    lemma_not_eq_ic(canon_spec(6).osis@, k, 0);
    book_7();
    lemma_not_eq_ic(canon_spec(7).osis@, k, 0);
    lemma_not_eq_ic(canon_spec(7).name_en@, k, 0);
    book_8();
    lemma_not_eq_ic(canon_spec(8).osis@, k, 0);
    book_9();
    lemma_not_eq_ic(canon_spec(9).osis@, k, 0);
    book_10();
    lemma_not_eq_ic(canon_spec(10).osis@, k, 0);
    lemma_not_same(canon_spec(10).name_zh@, k, 0);
    book_11();
    lemma_not_eq_ic(canon_spec(11).osis@, k, 0);
    lemma_not_same(canon_spec(11).name_zh@, k, 0);
    book_12();
    lemma_not_eq_ic(canon_spec(12).osis@, k, 0);
    lemma_not_same(canon_spec(12).name_zh@, k, 0);
    book_13();
    lemma_not_eq_ic(canon_spec(13).osis@, k, 0);
    lemma_not_same(canon_spec(13).name_zh@, k, 0);
    assert(first_book_match(k, 13) == first_book_match(k, 14));
    assert(first_book_match(k, 12) == first_book_match(k, 14));
    assert(first_book_match(k, 11) == first_book_match(k, 14));
    assert(first_book_match(k, 10) == first_book_match(k, 14));
    assert(first_book_match(k, 9) == first_book_match(k, 14));
    assert(first_book_match(k, 8) == first_book_match(k, 14));
    assert(first_book_match(k, 7) == first_book_match(k, 14));
    assert(first_book_match(k, 6) == first_book_match(k, 14));
    assert(first_book_match(k, 5) == first_book_match(k, 14));
    assert(first_book_match(k, 4) == first_book_match(k, 14));
    assert(first_book_match(k, 3) == first_book_match(k, 14));
    assert(first_book_match(k, 2) == first_book_match(k, 14));
    assert(first_book_match(k, 1) == first_book_match(k, 14));
    assert(first_book_match(k, 0) == first_book_match(k, 14));
}

proof fn found_by_osis_14()
    ensures
        lookup_canon_spec(canon_spec(14).osis@) == Some(canon_spec(14)),
{
    book_14();
    let k = canon_spec(14).osis@;
    lemma_plain_key(k);
    lemma_not_number(k, 0);
    misses_osis_14_0();
    assert(first_book_match(k, 14) == Some(14int));
}

#[verifier::rlimit(40)]
proof fn misses_abbreviation_14_0()
    ensures
        first_book_match(canon_spec(14).name_zh_short@, 0) == first_book_match(canon_spec(14).name_zh_short@, 14),
{
    book_14();
    let k = canon_spec(14).name_zh_short@;
    book_0();
    lemma_not_same(canon_spec(0).name_zh_short@, k, 0);
    book_1();
    lemma_not_same(canon_spec(1).name_zh_short@, k, 0);
    book_2();
    lemma_not_same(canon_spec(2).name_zh_short@, k, 0);
    book_3();
    lemma_not_same(canon_spec(3).name_zh_short@, k, 0);
    book_4();
    lemma_not_same(canon_spec(4).name_zh_short@, k, 0);
    book_5();
    lemma_not_same(canon_spec(5).name_zh_short@, k, 0);
    book_6();
    lemma_not_same(canon_spec(6).name_zh_short@, k, 0);
    book_7();
    lemma_not_same(canon_spec(7).name_zh_short@, k, 0);
    book_8();
    book_9();
    book_10();
    book_11();
    book_12();
    book_13();
    assert(first_book_match(k, 13) == first_book_match(k, 14));
    assert(first_book_match(k, 12) == first_book_match(k, 14));
    assert(first_book_match(k, 11) == first_book_match(k, 14));
    assert(first_book_match(k, 10) == first_book_match(k, 14));
    assert(first_book_match(k, 9) == first_book_match(k, 14));
    assert(first_book_match(k, 8) == first_book_match(k, 14));
    assert(first_book_match(k, 7) == first_book_match(k, 14));
    assert(first_book_match(k, 6) == first_book_match(k, 14));
    assert(first_book_match(k, 5) == first_book_match(k, 14));
    assert(first_book_match(k, 4) == first_book_match(k, 14));
    assert(first_book_match(k, 3) == first_book_match(k, 14));
    assert(first_book_match(k, 2) == first_book_match(k, 14));
    assert(first_book_match(k, 1) == first_book_match(k, 14));
    assert(first_book_match(k, 0) == first_book_match(k, 14));
}

proof fn found_by_abbreviation_14()
    ensures
        lookup_canon_spec(canon_spec(14).name_zh_short@) == Some(canon_spec(14)),
{
    book_14();
    let k = canon_spec(14).name_zh_short@;
    lemma_plain_key(k);
    lemma_not_number(k, 0);
    misses_abbreviation_14_0();
    assert(first_book_match(k, 14) == Some(14int));
}

#[verifier::rlimit(40)]
proof fn misses_english_14_0()
    ensures
        first_book_match(canon_spec(14).name_en@, 0) == first_book_match(canon_spec(14).name_en@, 14),
{
    book_14();
    let k = canon_spec(14).name_en@;
    book_0();
    book_1();
    lemma_not_eq_ic(canon_spec(1).osis@, k, 1);
    lemma_not_same(canon_spec(1).name_zh@, k, 0);
    book_2();
    book_3();
    book_4();
    lemma_not_eq_ic(canon_spec(4).osis@, k, 0);
    book_5();
    lemma_not_eq_ic(canon_spec(5).osis@, k, 0);
    lemma_not_same(canon_spec(5).name_zh@, k, 0);
    book_6();
    lemma_not_eq_ic(canon_spec(6).osis@, k, 0);
    book_7();
    lemma_not_eq_ic(canon_spec(7).osis@, k, 0);
    lemma_not_eq_ic(canon_spec(7).name_en@, k, 0);
    book_8();
    lemma_not_eq_ic(canon_spec(8).osis@, k, 0);
    book_9();
    lemma_not_eq_ic(canon_spec(9).osis@, k, 0);
    book_10();
    lemma_not_eq_ic(canon_spec(10).osis@, k, 0);
    lemma_not_same(canon_spec(10).name_zh@, k, 0);
    book_11();
    lemma_not_eq_ic(canon_spec(11).osis@, k, 0);
    lemma_not_same(canon_spec(11).name_zh@, k, 0);
    book_12();
    lemma_not_eq_ic(canon_spec(12).osis@, k, 0);
    lemma_not_same(canon_spec(12).name_zh@, k, 0);
    book_13();
    lemma_not_eq_ic(canon_spec(13).osis@, k, 0);
    lemma_not_same(canon_spec(13).name_zh@, k, 0);
    assert(first_book_match(k, 13) == first_book_match(k, 14));
    assert(first_book_match(k, 12) == first_book_match(k, 14));
    assert(first_book_match(k, 11) == first_book_match(k, 14));
    assert(first_book_match(k, 10) == first_book_match(k, 14));
    assert(first_book_match(k, 9) == first_book_match(k, 14));
    assert(first_book_match(k, 8) == first_book_match(k, 14));
    assert(first_book_match(k, 7) == first_book_match(k, 14));
    assert(first_book_match(k, 6) == first_book_match(k, 14));
    assert(first_book_match(k, 5) == first_book_match(k, 14));
    assert(first_book_match(k, 4) == first_book_match(k, 14));
    assert(first_book_match(k, 3) == first_book_match(k, 14));
    assert(first_book_match(k, 2) == first_book_match(k, 14));
    assert(first_book_match(k, 1) == first_book_match(k, 14));
    assert(first_book_match(k, 0) == first_book_match(k, 14));
}

proof fn found_by_english_14()
    ensures
        lookup_canon_spec(canon_spec(14).name_en@) == Some(canon_spec(14)),
{
    book_14();
    let k = canon_spec(14).name_en@;
    lemma_plain_key(k);
    lemma_not_number(k, 0);
    misses_english_14_0();
    assert(first_book_match(k, 14) == Some(14int));
}

#[verifier::rlimit(40)]
proof fn misses_osis_15_0()
    ensures
        first_book_match(canon_spec(15).osis@, 0) == first_book_match(canon_spec(15).osis@, 15),
{
    book_15();
    let k = canon_spec(15).osis@;
    book_0();
    lemma_not_eq_ic(canon_spec(0).osis@, k, 0);
    lemma_not_same(canon_spec(0).name_zh@, k, 0);
    book_1();
    book_2();
    lemma_not_eq_ic(canon_spec(2).osis@, k, 0);
    lemma_not_same(canon_spec(2).name_zh@, k, 0);
    book_3();
    lemma_not_eq_ic(canon_spec(3).osis@, k, 1);
    lemma_not_same(canon_spec(3).name_zh@, k, 0);
    book_4();
    lemma_not_same(canon_spec(4).name_zh@, k, 0);
    book_5();
    book_6();
    lemma_not_same(canon_spec(6).name_zh@, k, 0);
    book_7();
    lemma_not_same(canon_spec(7).name_zh@, k, 0);
    book_8();
    book_9();
    book_10();
    book_11();
    book_12();
    book_13();
    book_14();
    assert(first_book_match(k, 14) == first_book_match(k, 15));
    assert(first_book_match(k, 13) == first_book_match(k, 15));
    assert(first_book_match(k, 12) == first_book_match(k, 15));
    assert(first_book_match(k, 11) == first_book_match(k, 15));
    assert(first_book_match(k, 10) == first_book_match(k, 15));
    assert(first_book_match(k, 9) == first_book_match(k, 15));
    assert(first_book_match(k, 8) == first_book_match(k, 15));
    assert(first_book_match(k, 7) == first_book_match(k, 15));
    assert(first_book_match(k, 6) == first_book_match(k, 15));
    assert(first_book_match(k, 5) == first_book_match(k, 15));
    assert(first_book_match(k, 4) == first_book_match(k, 15));
    assert(first_book_match(k, 3) == first_book_match(k, 15));
    assert(first_book_match(k, 2) == first_book_match(k, 15));
    assert(first_book_match(k, 1) == first_book_match(k, 15));
    assert(first_book_match(k, 0) == first_book_match(k, 15));
}

proof fn found_by_osis_15()
    ensures
        lookup_canon_spec(canon_spec(15).osis@) == Some(canon_spec(15)),
{
    book_15();
    let k = canon_spec(15).osis@;
    lemma_plain_key(k);
    lemma_not_number(k, 0);
    misses_osis_15_0();
    assert(first_book_match(k, 15) == Some(15int));
}

#[verifier::rlimit(40)]
proof fn misses_abbreviation_15_0()
    ensures
        first_book_match(canon_spec(15).name_zh_short@, 0) == first_book_match(canon_spec(15).name_zh_short@, 15),
{
    book_15();
    let k = canon_spec(15).name_zh_short@;
    book_0();
    lemma_not_same(canon_spec(0).name_zh_short@, k, 0);
    book_1();
    lemma_not_same(canon_spec(1).name_zh_short@, k, 0);
    book_2();
    lemma_not_same(canon_spec(2).name_zh_short@, k, 0);
    book_3();
    lemma_not_same(canon_spec(3).name_zh_short@, k, 0);
    book_4();
    lemma_not_same(canon_spec(4).name_zh_short@, k, 0);
    book_5();
    lemma_not_same(canon_spec(5).name_zh_short@, k, 0);
    book_6();
    lemma_not_same(canon_spec(6).name_zh_short@, k, 0);
    book_7();
    lemma_not_same(canon_spec(7).name_zh_short@, k, 0);
    book_8();
    book_9();
    book_10();
    book_11();
    book_12();
    book_13();
    book_14();
    lemma_not_same(canon_spec(14).name_zh_short@, k, 0);
    assert(first_book_match(k, 14) == first_book_match(k, 15));
    assert(first_book_match(k, 13) == first_book_match(k, 15));
    assert(first_book_match(k, 12) == first_book_match(k, 15));
    assert(first_book_match(k, 11) == first_book_match(k, 15));
    assert(first_book_match(k, 10) == first_book_match(k, 15));
    assert(first_book_match(k, 9) == first_book_match(k, 15));
    assert(first_book_match(k, 8) == first_book_match(k, 15));
    assert(first_book_match(k, 7) == first_book_match(k, 15));
    assert(first_book_match(k, 6) == first_book_match(k, 15));
    assert(first_book_match(k, 5) == first_book_match(k, 15));
    assert(first_book_match(k, 4) == first_book_match(k, 15));
    assert(first_book_match(k, 3) == first_book_match(k, 15));
    assert(first_book_match(k, 2) == first_book_match(k, 15));
    assert(first_book_match(k, 1) == first_book_match(k, 15));
    assert(first_book_match(k, 0) == first_book_match(k, 15));
}

proof fn found_by_abbreviation_15()
    ensures
        lookup_canon_spec(canon_spec(15).name_zh_short@) == Some(canon_spec(15)),
{
    book_15();
    let k = canon_spec(15).name_zh_short@;
    lemma_plain_key(k);
    lemma_not_number(k, 0);
    misses_abbreviation_15_0();
    assert(first_book_match(k, 15) == Some(15int));
}

#[verifier::rlimit(40)]
proof fn misses_english_15_0()
    ensures
        first_book_match(canon_spec(15).name_en@, 0) == first_book_match(canon_spec(15).name_en@, 15),
{
    book_15();
    let k = canon_spec(15).name_en@;
    book_0();
    book_1();
    book_2();
    book_3();
    book_4();
    book_5();
    book_6();
    book_7();
    book_8();
    lemma_not_eq_ic(canon_spec(8).name_en@, k, 0);
    book_9();
    lemma_not_eq_ic(canon_spec(9).name_en@, k, 0);
    book_10();
    book_11();
    book_12();
    book_13();
    book_14();
    assert(first_book_match(k, 14) == first_book_match(k, 15));
    assert(first_book_match(k, 13) == first_book_match(k, 15));
    assert(first_book_match(k, 12) == first_book_match(k, 15));
    assert(first_book_match(k, 11) == first_book_match(k, 15));
    assert(first_book_match(k, 10) == first_book_match(k, 15));
    assert(first_book_match(k, 9) == first_book_match(k, 15));
    assert(first_book_match(k, 8) == first_book_match(k, 15));
    assert(first_book_match(k, 7) == first_book_match(k, 15));
    assert(first_book_match(k, 6) == first_book_match(k, 15));
    assert(first_book_match(k, 5) == first_book_match(k, 15));
    assert(first_book_match(k, 4) == first_book_match(k, 15));
    assert(first_book_match(k, 3) == first_book_match(k, 15));
    assert(first_book_match(k, 2) == first_book_match(k, 15));
    assert(first_book_match(k, 1) == first_book_match(k, 15));
    assert(first_book_match(k, 0) == first_book_match(k, 15));
}

proof fn found_by_english_15()
    ensures
        lookup_canon_spec(canon_spec(15).name_en@) == Some(canon_spec(15)),
{
    book_15();
    let k = canon_spec(15).name_en@;
    lemma_plain_key(k);
    lemma_not_number(k, 0);
    misses_english_15_0();
    assert(first_book_match(k, 15) == Some(15int));
}

#[verifier::rlimit(40)]
proof fn misses_osis_16_0()
    ensures
        first_book_match(canon_spec(16).osis@, 0) == first_book_match(canon_spec(16).osis@, 16),
{
    book_16();
    let k = canon_spec(16).osis@;
    book_0();
    book_1();
    lemma_not_eq_ic(canon_spec(1).osis@, k, 1);
    lemma_not_same(canon_spec(1).name_zh@, k, 0);
    book_2();
    book_3();
    book_4();
    lemma_not_eq_ic(canon_spec(4).osis@, k, 0);
    book_5();
    lemma_not_eq_ic(canon_spec(5).osis@, k, 0);
    lemma_not_same(canon_spec(5).name_zh@, k, 0);
    book_6();
    lemma_not_eq_ic(canon_spec(6).osis@, k, 0);
    book_7();
    lemma_not_eq_ic(canon_spec(7).osis@, k, 0);
    lemma_not_eq_ic(canon_spec(7).name_en@, k, 0);
    book_8();
    lemma_not_eq_ic(canon_spec(8).osis@, k, 0);
    book_9();
    lemma_not_eq_ic(canon_spec(9).osis@, k, 0);
    book_10();
    lemma_not_eq_ic(canon_spec(10).osis@, k, 0);
    lemma_not_same(canon_spec(10).name_zh@, k, 0);
    book_11();
    lemma_not_eq_ic(canon_spec(11).osis@, k, 0);
    lemma_not_same(canon_spec(11).name_zh@, k, 0);
    book_12();
    lemma_not_eq_ic(canon_spec(12).osis@, k, 0);
    lemma_not_same(canon_spec(12).name_zh@, k, 0);
    book_13();
    lemma_not_eq_ic(canon_spec(13).osis@, k, 0);
    lemma_not_same(canon_spec(13).name_zh@, k, 0);
    book_14();
    lemma_not_eq_ic(canon_spec(14).osis@, k, 1);
    lemma_not_same(canon_spec(14).name_zh@, k, 0);
    lemma_not_eq_ic(canon_spec(14).name_en@, k, 1);
    book_15();
    lemma_not_same(canon_spec(15).name_zh@, k, 0);
    assert(first_book_match(k, 15) == first_book_match(k, 16));
    assert(first_book_match(k, 14) == first_book_match(k, 16));
    assert(first_book_match(k, 13) == first_book_match(k, 16));
    assert(first_book_match(k, 12) == first_book_match(k, 16));
    assert(first_book_match(k, 11) == first_book_match(k, 16));
    assert(first_book_match(k, 10) == first_book_match(k, 16));
    assert(first_book_match(k, 9) == first_book_match(k, 16));
    assert(first_book_match(k, 8) == first_book_match(k, 16));
    assert(first_book_match(k, 7) == first_book_match(k, 16));
    assert(first_book_match(k, 6) == first_book_match(k, 16));
    assert(first_book_match(k, 5) == first_book_match(k, 16));
    assert(first_book_match(k, 4) == first_book_match(k, 16));
    assert(first_book_match(k, 3) == first_book_match(k, 16));
    assert(first_book_match(k, 2) == first_book_match(k, 16));
    assert(first_book_match(k, 1) == first_book_match(k, 16));
    assert(first_book_match(k, 0) == first_book_match(k, 16));
}

proof fn found_by_osis_16()
    ensures
        lookup_canon_spec(canon_spec(16).osis@) == Some(canon_spec(16)),
{
    book_16();
    let k = canon_spec(16).osis@;
    lemma_plain_key(k);
    lemma_not_number(k, 0);
    misses_osis_16_0();
    assert(first_book_match(k, 16) == Some(16int));
}

#[verifier::rlimit(40)]
proof fn misses_abbreviation_16_0()
    ensures
        first_book_match(canon_spec(16).name_zh_short@, 0) == first_book_match(canon_spec(16).name_zh_short@, 16),
{
    book_16();
    let k = canon_spec(16).name_zh_short@;
    book_0();
    lemma_not_same(canon_spec(0).name_zh_short@, k, 0);
    book_1();
    lemma_not_same(canon_spec(1).name_zh_short@, k, 0);
    book_2();
    lemma_not_same(canon_spec(2).name_zh_short@, k, 0);
    book_3();
    lemma_not_same(canon_spec(3).name_zh_short@, k, 0);
    book_4();
    lemma_not_same(canon_spec(4).name_zh_short@, k, 0);
    book_5();
    lemma_not_same(canon_spec(5).name_zh_short@, k, 0);
    book_6();
    lemma_not_same(canon_spec(6).name_zh_short@, k, 0);
    book_7();
    lemma_not_same(canon_spec(7).name_zh_short@, k, 0);
    book_8();
    book_9();
    book_10();
    book_11();
    book_12();
    book_13();
    book_14();
    lemma_not_same(canon_spec(14).name_zh_short@, k, 0);
    book_15();
    lemma_not_same(canon_spec(15).name_zh_short@, k, 0);
    assert(first_book_match(k, 15) == first_book_match(k, 16));
    assert(first_book_match(k, 14) == first_book_match(k, 16));
    assert(first_book_match(k, 13) == first_book_match(k, 16));
    assert(first_book_match(k, 12) == first_book_match(k, 16));
    assert(first_book_match(k, 11) == first_book_match(k, 16));
    assert(first_book_match(k, 10) == first_book_match(k, 16));
    assert(first_book_match(k, 9) == first_book_match(k, 16));
    assert(first_book_match(k, 8) == first_book_match(k, 16));
    assert(first_book_match(k, 7) == first_book_match(k, 16));
    assert(first_book_match(k, 6) == first_book_match(k, 16));
    assert(first_book_match(k, 5) == first_book_match(k, 16));
    assert(first_book_match(k, 4) == first_book_match(k, 16));
    assert(first_book_match(k, 3) == first_book_match(k, 16));
    assert(first_book_match(k, 2) == first_book_match(k, 16));
    assert(first_book_match(k, 1) == first_book_match(k, 16));
    assert(first_book_match(k, 0) == first_book_match(k, 16));
}

proof fn found_by_abbreviation_16()
    ensures
        lookup_canon_spec(canon_spec(16).name_zh_short@) == Some(canon_spec(16)),
{
    book_16();
    let k = canon_spec(16).name_zh_short@;
    lemma_plain_key(k);
    lemma_not_number(k, 0);
    misses_abbreviation_16_0();
    assert(first_book_match(k, 16) == Some(16int));
}

#[verifier::rlimit(40)]
proof fn misses_english_16_0()
    ensures
        first_book_match(canon_spec(16).name_en@, 0) == first_book_match(canon_spec(16).name_en@, 16),
{
    book_16();
    let k = canon_spec(16).name_en@;
    book_0();
    book_1();
    lemma_not_eq_ic(canon_spec(1).name_en@, k, 1);
    book_2();
    book_3();
    book_4();
    book_5();
    lemma_not_eq_ic(canon_spec(5).name_en@, k, 0);
    book_6();
    lemma_not_eq_ic(canon_spec(6).name_en@, k, 0);
    book_7();
    book_8();
    book_9();
    book_10();
    book_11();
    book_12();
    book_13();
    book_14();
    book_15();
    assert(first_book_match(k, 15) == first_book_match(k, 16));
    assert(first_book_match(k, 14) == first_book_match(k, 16));
    assert(first_book_match(k, 13) == first_book_match(k, 16));
    assert(first_book_match(k, 12) == first_book_match(k, 16));
    assert(first_book_match(k, 11) == first_book_match(k, 16));
    assert(first_book_match(k, 10) == first_book_match(k, 16));
    assert(first_book_match(k, 9) == first_book_match(k, 16));
    assert(first_book_match(k, 8) == first_book_match(k, 16));
    assert(first_book_match(k, 7) == first_book_match(k, 16));
    assert(first_book_match(k, 6) == first_book_match(k, 16));
    assert(first_book_match(k, 5) == first_book_match(k, 16));
    assert(first_book_match(k, 4) == first_book_match(k, 16));
    assert(first_book_match(k, 3) == first_book_match(k, 16));
    assert(first_book_match(k, 2) == first_book_match(k, 16));
    assert(first_book_match(k, 1) == first_book_match(k, 16));
    assert(first_book_match(k, 0) == first_book_match(k, 16));
}

proof fn found_by_english_16()
    ensures
        lookup_canon_spec(canon_spec(16).name_en@) == Some(canon_spec(16)),
{
    book_16();
    let k = canon_spec(16).name_en@;
    lemma_plain_key(k);
    lemma_not_number(k, 0);
    misses_english_16_0();
    assert(first_book_match(k, 16) == Some(16int));
}

#[verifier::rlimit(40)]
proof fn misses_osis_17_0()
    ensures
        first_book_match(canon_spec(17).osis@, 0) == first_book_match(canon_spec(17).osis@, 16),
{
    book_17();
    let k = canon_spec(17).osis@;
    book_0();
    lemma_not_eq_ic(canon_spec(0).osis@, k, 0);
    lemma_not_same(canon_spec(0).name_zh@, k, 0);
    book_1();
    book_2();
    lemma_not_eq_ic(canon_spec(2).osis@, k, 0);
    lemma_not_same(canon_spec(2).name_zh@, k, 0);
    book_3();
    lemma_not_eq_ic(canon_spec(3).osis@, k, 0);
    lemma_not_same(canon_spec(3).name_zh@, k, 0);
    book_4();
    lemma_not_same(canon_spec(4).name_zh@, k, 0);
    book_5();
    book_6();
    lemma_not_same(canon_spec(6).name_zh@, k, 0);
    book_7();
    lemma_not_same(canon_spec(7).name_zh@, k, 0);
    book_8();
    book_9();
    book_10();
    book_11();
    book_12();
    book_13();
    book_14();
    book_15();
    lemma_not_eq_ic(canon_spec(15).osis@, k, 0);
    assert(first_book_match(k, 15) == first_book_match(k, 16));
    assert(first_book_match(k, 14) == first_book_match(k, 16));
    assert(first_book_match(k, 13) == first_book_match(k, 16));
    assert(first_book_match(k, 12) == first_book_match(k, 16));
    assert(first_book_match(k, 11) == first_book_match(k, 16));
    assert(first_book_match(k, 10) == first_book_match(k, 16));
    assert(first_book_match(k, 9) == first_book_match(k, 16));
    assert(first_book_match(k, 8) == first_book_match(k, 16));
    assert(first_book_match(k, 7) == first_book_match(k, 16));
    assert(first_book_match(k, 6) == first_book_match(k, 16));
    assert(first_book_match(k, 5) == first_book_match(k, 16));
    assert(first_book_match(k, 4) == first_book_match(k, 16));
    assert(first_book_match(k, 3) == first_book_match(k, 16));
    assert(first_book_match(k, 2) == first_book_match(k, 16));
    assert(first_book_match(k, 1) == first_book_match(k, 16));
    assert(first_book_match(k, 0) == first_book_match(k, 16));
}

#[verifier::rlimit(40)]
proof fn misses_osis_17_16()
    ensures
        first_book_match(canon_spec(17).osis@, 16) == first_book_match(canon_spec(17).osis@, 17),
{
    book_17();
    let k = canon_spec(17).osis@;
    book_16();
    assert(first_book_match(k, 16) == first_book_match(k, 17));
}

proof fn found_by_osis_17()
    ensures
        lookup_canon_spec(canon_spec(17).osis@) == Some(canon_spec(17)),
{
    book_17();
    let k = canon_spec(17).osis@;
    lemma_plain_key(k);
    lemma_not_number(k, 0);
    misses_osis_17_0();
    misses_osis_17_16();
    assert(first_book_match(k, 17) == Some(17int));
}

#[verifier::rlimit(40)]
proof fn misses_abbreviation_17_0()
    ensures
        first_book_match(canon_spec(17).name_zh_short@, 0) == first_book_match(canon_spec(17).name_zh_short@, 16),
{
    book_17();
    let k = canon_spec(17).name_zh_short@;
    book_0();
    lemma_not_same(canon_spec(0).name_zh_short@, k, 0);
    book_1();
    lemma_not_same(canon_spec(1).name_zh_short@, k, 0);
    book_2();
    lemma_not_same(canon_spec(2).name_zh_short@, k, 0);
    book_3();
    lemma_not_same(canon_spec(3).name_zh_short@, k, 0);
    book_4();
    lemma_not_same(canon_spec(4).name_zh_short@, k, 0);
    book_5();
    lemma_not_same(canon_spec(5).name_zh_short@, k, 0);
    book_6();
    lemma_not_same(canon_spec(6).name_zh_short@, k, 0);
    book_7();
    lemma_not_same(canon_spec(7).name_zh_short@, k, 0);
    book_8();
    book_9();
    book_10();
    book_11();
    book_12();
    book_13();
    book_14();
    lemma_not_same(canon_spec(14).name_zh_short@, k, 0);
    book_15();
    lemma_not_same(canon_spec(15).name_zh_short@, k, 0);
    assert(first_book_match(k, 15) == first_book_match(k, 16));
    assert(first_book_match(k, 14) == first_book_match(k, 16));
    assert(first_book_match(k, 13) == first_book_match(k, 16));
    assert(first_book_match(k, 12) == first_book_match(k, 16));
    assert(first_book_match(k, 11) == first_book_match(k, 16));
    assert(first_book_match(k, 10) == first_book_match(k, 16));
    assert(first_book_match(k, 9) == first_book_match(k, 16));
    assert(first_book_match(k, 8) == first_book_match(k, 16));
    assert(first_book_match(k, 7) == first_book_match(k, 16));
    assert(first_book_match(k, 6) == first_book_match(k, 16));
    assert(first_book_match(k, 5) == first_book_match(k, 16));
    assert(first_book_match(k, 4) == first_book_match(k, 16));
    assert(first_book_match(k, 3) == first_book_match(k, 16));
    assert(first_book_match(k, 2) == first_book_match(k, 16));
    assert(first_book_match(k, 1) == first_book_match(k, 16));
    assert(first_book_match(k, 0) == first_book_match(k, 16));
}

#[verifier::rlimit(40)]
proof fn misses_abbreviation_17_16()
    ensures
        first_book_match(canon_spec(17).name_zh_short@, 16) == first_book_match(canon_spec(17).name_zh_short@, 17),
{
    book_17();
    let k = canon_spec(17).name_zh_short@;
    book_16();
    lemma_not_same(canon_spec(16).name_zh_short@, k, 0);
    assert(first_book_match(k, 16) == first_book_match(k, 17));
}

proof fn found_by_abbreviation_17()
    ensures
        lookup_canon_spec(canon_spec(17).name_zh_short@) == Some(canon_spec(17)),
{
    book_17();
    let k = canon_spec(17).name_zh_short@;
    lemma_plain_key(k);
    lemma_not_number(k, 0);
    misses_abbreviation_17_0();
    misses_abbreviation_17_16();
    assert(first_book_match(k, 17) == Some(17int));
}

#[verifier::rlimit(40)]
proof fn misses_english_17_0()
    ensures
        first_book_match(canon_spec(17).name_en@, 0) == first_book_match(canon_spec(17).name_en@, 16),
{
    book_17();
    let k = canon_spec(17).name_en@;
    book_0();
    lemma_not_eq_ic(canon_spec(0).osis@, k, 0);
    lemma_not_same(canon_spec(0).name_zh@, k, 0);
    book_1();
    book_2();
    lemma_not_eq_ic(canon_spec(2).osis@, k, 0);
    lemma_not_same(canon_spec(2).name_zh@, k, 0);
    book_3();
    lemma_not_eq_ic(canon_spec(3).osis@, k, 0);
    lemma_not_same(canon_spec(3).name_zh@, k, 0);
    book_4();
    lemma_not_same(canon_spec(4).name_zh@, k, 0);
    book_5();
    book_6();
    lemma_not_same(canon_spec(6).name_zh@, k, 0);
    book_7();
    lemma_not_same(canon_spec(7).name_zh@, k, 0);
    book_8();
    book_9();
    book_10();
    book_11();
    book_12();
    book_13();
    book_14();
    book_15();
    lemma_not_eq_ic(canon_spec(15).osis@, k, 0);
    assert(first_book_match(k, 15) == first_book_match(k, 16));
    assert(first_book_match(k, 14) == first_book_match(k, 16));
    assert(first_book_match(k, 13) == first_book_match(k, 16));
    assert(first_book_match(k, 12) == first_book_match(k, 16));
    assert(first_book_match(k, 11) == first_book_match(k, 16));
    assert(first_book_match(k, 10) == first_book_match(k, 16));
    assert(first_book_match(k, 9) == first_book_match(k, 16));
    assert(first_book_match(k, 8) == first_book_match(k, 16));
    assert(first_book_match(k, 7) == first_book_match(k, 16));
    assert(first_book_match(k, 6) == first_book_match(k, 16));
    assert(first_book_match(k, 5) == first_book_match(k, 16));
    assert(first_book_match(k, 4) == first_book_match(k, 16));
    assert(first_book_match(k, 3) == first_book_match(k, 16));
    assert(first_book_match(k, 2) == first_book_match(k, 16));
    assert(first_book_match(k, 1) == first_book_match(k, 16));
    assert(first_book_match(k, 0) == first_book_match(k, 16));
}

#[verifier::rlimit(40)]
proof fn misses_english_17_16()
    ensures
        first_book_match(canon_spec(17).name_en@, 16) == first_book_match(canon_spec(17).name_en@, 17),
{
    book_17();
    let k = canon_spec(17).name_en@;
    book_16();
    assert(first_book_match(k, 16) == first_book_match(k, 17));
}

proof fn found_by_english_17()
    ensures
        lookup_canon_spec(canon_spec(17).name_en@) == Some(canon_spec(17)),
{
    book_17();
    let k = canon_spec(17).name_en@;
    lemma_plain_key(k);
    lemma_not_number(k, 0);
    misses_english_17_0();
    misses_english_17_16();
    assert(first_book_match(k, 17) == Some(17int));
}

#[verifier::rlimit(40)]
proof fn misses_osis_18_0()
    ensures
        first_book_match(canon_spec(18).osis@, 0) == first_book_match(canon_spec(18).osis@, 16),
{
    book_18();
    let k = canon_spec(18).osis@;
    book_0();
    book_1();
    book_2();
    book_3();
    book_4();
    book_5();
    book_6();
    book_7();
    book_8();
    lemma_not_same(canon_spec(8).name_zh_short@, k, 0);
    book_9();
    lemma_not_same(canon_spec(9).name_zh_short@, k, 0);
    book_10();
    lemma_not_same(canon_spec(10).name_zh_short@, k, 0);
    book_11();
    lemma_not_same(canon_spec(11).name_zh_short@, k, 0);
    book_12();
    lemma_not_same(canon_spec(12).name_zh_short@, k, 0);
    book_13();
    lemma_not_same(canon_spec(13).name_zh_short@, k, 0);
    book_14();
    book_15();
    assert(first_book_match(k, 15) == first_book_match(k, 16));
    assert(first_book_match(k, 14) == first_book_match(k, 16));
    assert(first_book_match(k, 13) == first_book_match(k, 16));
    assert(first_book_match(k, 12) == first_book_match(k, 16));
    assert(first_book_match(k, 11) == first_book_match(k, 16));
    assert(first_book_match(k, 10) == first_book_match(k, 16));
    assert(first_book_match(k, 9) == first_book_match(k, 16));
    assert(first_book_match(k, 8) == first_book_match(k, 16));
    assert(first_book_match(k, 7) == first_book_match(k, 16));
    assert(first_book_match(k, 6) == first_book_match(k, 16));
    assert(first_book_match(k, 5) == first_book_match(k, 16));
    assert(first_book_match(k, 4) == first_book_match(k, 16));
    assert(first_book_match(k, 3) == first_book_match(k, 16));
    assert(first_book_match(k, 2) == first_book_match(k, 16));
    assert(first_book_match(k, 1) == first_book_match(k, 16));
    assert(first_book_match(k, 0) == first_book_match(k, 16));
}

#[verifier::rlimit(40)]
proof fn misses_osis_18_16()
    ensures
        first_book_match(canon_spec(18).osis@, 16) == first_book_match(canon_spec(18).osis@, 18),
{
    book_18();
    let k = canon_spec(18).osis@;
    book_16();
    book_17();
    assert(first_book_match(k, 17) == first_book_match(k, 18));
    assert(first_book_match(k, 16) == first_book_match(k, 18));
}

proof fn found_by_osis_18()
    ensures
        lookup_canon_spec(canon_spec(18).osis@) == Some(canon_spec(18)),
{
    book_18();
    let k = canon_spec(18).osis@;
    lemma_plain_key(k);
    lemma_not_number(k, 0);
    misses_osis_18_0();
    misses_osis_18_16();
    assert(first_book_match(k, 18) == Some(18int));
}

#[verifier::rlimit(40)]
proof fn misses_abbreviation_18_0()
    ensures
        first_book_match(canon_spec(18).name_zh_short@, 0) == first_book_match(canon_spec(18).name_zh_short@, 16),
{
    book_18();
    let k = canon_spec(18).name_zh_short@;
    book_0();
    lemma_not_same(canon_spec(0).name_zh_short@, k, 0);
    book_1();
    lemma_not_same(canon_spec(1).name_zh_short@, k, 0);
    book_2();
    lemma_not_same(canon_spec(2).name_zh_short@, k, 0);
    book_3();
    lemma_not_same(canon_spec(3).name_zh_short@, k, 0);
    book_4();
    lemma_not_same(canon_spec(4).name_zh_short@, k, 0);
    book_5();
    lemma_not_same(canon_spec(5).name_zh_short@, k, 0);
    book_6();
    lemma_not_same(canon_spec(6).name_zh_short@, k, 0);
    book_7();
    lemma_not_same(canon_spec(7).name_zh_short@, k, 0);
    book_8();
    book_9();
    book_10();
    book_11();
    book_12();
    book_13();
    book_14();
    lemma_not_same(canon_spec(14).name_zh_short@, k, 0);
    book_15();
    lemma_not_same(canon_spec(15).name_zh_short@, k, 0);
    assert(first_book_match(k, 15) == first_book_match(k, 16));
    assert(first_book_match(k, 14) == first_book_match(k, 16));
    assert(first_book_match(k, 13) == first_book_match(k, 16));
    assert(first_book_match(k, 12) == first_book_match(k, 16));
    assert(first_book_match(k, 11) == first_book_match(k, 16));
    assert(first_book_match(k, 10) == first_book_match(k, 16));
    assert(first_book_match(k, 9) == first_book_match(k, 16));
    assert(first_book_match(k, 8) == first_book_match(k, 16));
    assert(first_book_match(k, 7) == first_book_match(k, 16));
    assert(first_book_match(k, 6) == first_book_match(k, 16));
    assert(first_book_match(k, 5) == first_book_match(k, 16));
    assert(first_book_match(k, 4) == first_book_match(k, 16));
    assert(first_book_match(k, 3) == first_book_match(k, 16));
    assert(first_book_match(k, 2) == first_book_match(k, 16));
    assert(first_book_match(k, 1) == first_book_match(k, 16));
    assert(first_book_match(k, 0) == first_book_match(k, 16));
}

#[verifier::rlimit(40)]
proof fn misses_abbreviation_18_16()
    ensures
        first_book_match(canon_spec(18).name_zh_short@, 16) == first_book_match(canon_spec(18).name_zh_short@, 18),
{
    book_18();
    let k = canon_spec(18).name_zh_short@;
    book_16();
    lemma_not_same(canon_spec(16).name_zh_short@, k, 0);
    book_17();
    lemma_not_same(canon_spec(17).name_zh_short@, k, 0);
    assert(first_book_match(k, 17) == first_book_match(k, 18));
    assert(first_book_match(k, 16) == first_book_match(k, 18));
}

proof fn found_by_abbreviation_18()
    ensures
        lookup_canon_spec(canon_spec(18).name_zh_short@) == Some(canon_spec(18)),
{
    book_18();
    let k = canon_spec(18).name_zh_short@;
    lemma_plain_key(k);
    lemma_not_number(k, 0);
    misses_abbreviation_18_0();
    misses_abbreviation_18_16();
    assert(first_book_match(k, 18) == Some(18int));
}

#[verifier::rlimit(40)]
proof fn misses_english_18_0()
    ensures
        first_book_match(canon_spec(18).name_en@, 0) == first_book_match(canon_spec(18).name_en@, 16),
{
    book_18();
    let k = canon_spec(18).name_en@;
    book_0();
    book_1();
    lemma_not_eq_ic(canon_spec(1).name_en@, k, 0);
    book_2();
    book_3();
    book_4();
    book_5();
    lemma_not_eq_ic(canon_spec(5).name_en@, k, 0);
    book_6();
    lemma_not_eq_ic(canon_spec(6).name_en@, k, 0);
    book_7();
    book_8();
    book_9();
    book_10();
    book_11();
    book_12();
    book_13();
    book_14();
    book_15();
    assert(first_book_match(k, 15) == first_book_match(k, 16));
    assert(first_book_match(k, 14) == first_book_match(k, 16));
    assert(first_book_match(k, 13) == first_book_match(k, 16));
    assert(first_book_match(k, 12) == first_book_match(k, 16));
    assert(first_book_match(k, 11) == first_book_match(k, 16));
    assert(first_book_match(k, 10) == first_book_match(k, 16));
    assert(first_book_match(k, 9) == first_book_match(k, 16));
    assert(first_book_match(k, 8) == first_book_match(k, 16));
    assert(first_book_match(k, 7) == first_book_match(k, 16));
    assert(first_book_match(k, 6) == first_book_match(k, 16));
    assert(first_book_match(k, 5) == first_book_match(k, 16));
    assert(first_book_match(k, 4) == first_book_match(k, 16));
    assert(first_book_match(k, 3) == first_book_match(k, 16));
    assert(first_book_match(k, 2) == first_book_match(k, 16));
    assert(first_book_match(k, 1) == first_book_match(k, 16));
    assert(first_book_match(k, 0) == first_book_match(k, 16));
}

#[verifier::rlimit(40)]
proof fn misses_english_18_16()
    ensures
        first_book_match(canon_spec(18).name_en@, 16) == first_book_match(canon_spec(18).name_en@, 18),
{
    book_18();
    let k = canon_spec(18).name_en@;
    book_16();
    lemma_not_eq_ic(canon_spec(16).name_en@, k, 0);
    book_17();
    assert(first_book_match(k, 17) == first_book_match(k, 18));
    assert(first_book_match(k, 16) == first_book_match(k, 18));
}

proof fn found_by_english_18()
    ensures
        lookup_canon_spec(canon_spec(18).name_en@) == Some(canon_spec(18)),
{
    book_18();
    let k = canon_spec(18).name_en@;
    lemma_plain_key(k);
    lemma_not_number(k, 0);
    misses_english_18_0();
    misses_english_18_16();
    assert(first_book_match(k, 18) == Some(18int));
}

#[verifier::rlimit(40)]
proof fn misses_osis_19_0()
    ensures
        first_book_match(canon_spec(19).osis@, 0) == first_book_match(canon_spec(19).osis@, 16),
{
    book_19();
    let k = canon_spec(19).osis@;
    book_0();
    book_1();
    lemma_not_eq_ic(canon_spec(1).osis@, k, 0);
    lemma_not_same(canon_spec(1).name_zh@, k, 0);
    book_2();
    book_3();
    book_4();
    lemma_not_eq_ic(canon_spec(4).osis@, k, 0);
    book_5();
    lemma_not_eq_ic(canon_spec(5).osis@, k, 0);
    lemma_not_same(canon_spec(5).name_zh@, k, 0);
    book_6();
    lemma_not_eq_ic(canon_spec(6).osis@, k, 0);
    book_7();
    lemma_not_eq_ic(canon_spec(7).osis@, k, 0);
    lemma_not_eq_ic(canon_spec(7).name_en@, k, 0);
    book_8();
    lemma_not_eq_ic(canon_spec(8).osis@, k, 0);
    book_9();
    lemma_not_eq_ic(canon_spec(9).osis@, k, 0);
    book_10();
    lemma_not_eq_ic(canon_spec(10).osis@, k, 0);
    lemma_not_same(canon_spec(10).name_zh@, k, 0);
    book_11();
    lemma_not_eq_ic(canon_spec(11).osis@, k, 0);
    lemma_not_same(canon_spec(11).name_zh@, k, 0);
    book_12();
    lemma_not_eq_ic(canon_spec(12).osis@, k, 0);
    lemma_not_same(canon_spec(12).name_zh@, k, 0);
    book_13();
    lemma_not_eq_ic(canon_spec(13).osis@, k, 0);
    lemma_not_same(canon_spec(13).name_zh@, k, 0);
    book_14();
    lemma_not_eq_ic(canon_spec(14).osis@, k, 0);
    lemma_not_same(canon_spec(14).name_zh@, k, 0);
    lemma_not_eq_ic(canon_spec(14).name_en@, k, 0);
    book_15();
    lemma_not_same(canon_spec(15).name_zh@, k, 0);
    assert(first_book_match(k, 15) == first_book_match(k, 16));
    assert(first_book_match(k, 14) == first_book_match(k, 16));
    assert(first_book_match(k, 13) == first_book_match(k, 16));
    assert(first_book_match(k, 12) == first_book_match(k, 16));
    assert(first_book_match(k, 11) == first_book_match(k, 16));
    assert(first_book_match(k, 10) == first_book_match(k, 16));
    assert(first_book_match(k, 9) == first_book_match(k, 16));
    assert(first_book_match(k, 8) == first_book_match(k, 16));
    assert(first_book_match(k, 7) == first_book_match(k, 16));
    assert(first_book_match(k, 6) == first_book_match(k, 16));
    assert(first_book_match(k, 5) == first_book_match(k, 16));
    assert(first_book_match(k, 4) == first_book_match(k, 16));
    assert(first_book_match(k, 3) == first_book_match(k, 16));
    assert(first_book_match(k, 2) == first_book_match(k, 16));
    assert(first_book_match(k, 1) == first_book_match(k, 16));
    assert(first_book_match(k, 0) == first_book_match(k, 16));
}

#[verifier::rlimit(40)]
proof fn misses_osis_19_16()
    ensures
        first_book_match(canon_spec(19).osis@, 16) == first_book_match(canon_spec(19).osis@, 19),
{
    book_19();
    let k = canon_spec(19).osis@;
    book_16();
    lemma_not_eq_ic(canon_spec(16).osis@, k, 0);
    lemma_not_same(canon_spec(16).name_zh@, k, 0);
    book_17();
    book_18();
    assert(first_book_match(k, 18) == first_book_match(k, 19));
    assert(first_book_match(k, 17) == first_book_match(k, 19));
    assert(first_book_match(k, 16) == first_book_match(k, 19));
}

proof fn found_by_osis_19()
    ensures
        lookup_canon_spec(canon_spec(19).osis@) == Some(canon_spec(19)),
{
    book_19();
    let k = canon_spec(19).osis@;
    lemma_plain_key(k);
    lemma_not_number(k, 0);
    misses_osis_19_0();
    misses_osis_19_16();
    assert(first_book_match(k, 19) == Some(19int));
}

#[verifier::rlimit(40)]
proof fn misses_abbreviation_19_0()
    ensures
        first_book_match(canon_spec(19).name_zh_short@, 0) == first_book_match(canon_spec(19).name_zh_short@, 16),
{
    book_19();
    let k = canon_spec(19).name_zh_short@;
    book_0();
    lemma_not_same(canon_spec(0).name_zh_short@, k, 0);
    book_1();
    lemma_not_same(canon_spec(1).name_zh_short@, k, 0);
    book_2();
    lemma_not_same(canon_spec(2).name_zh_short@, k, 0);
    book_3();
    lemma_not_same(canon_spec(3).name_zh_short@, k, 0);
    book_4();
    lemma_not_same(canon_spec(4).name_zh_short@, k, 0);
    book_5();
    lemma_not_same(canon_spec(5).name_zh_short@, k, 0);
    book_6();
    lemma_not_same(canon_spec(6).name_zh_short@, k, 0);
    book_7();
    lemma_not_same(canon_spec(7).name_zh_short@, k, 0);
    book_8();
    book_9();
    book_10();
    book_11();
    book_12();
    book_13();
    book_14();
    lemma_not_same(canon_spec(14).name_zh_short@, k, 0);
    book_15();
    lemma_not_same(canon_spec(15).name_zh_short@, k, 0);
    assert(first_book_match(k, 15) == first_book_match(k, 16));
    assert(first_book_match(k, 14) == first_book_match(k, 16));
    assert(first_book_match(k, 13) == first_book_match(k, 16));
    assert(first_book_match(k, 12) == first_book_match(k, 16));
    assert(first_book_match(k, 11) == first_book_match(k, 16));
    assert(first_book_match(k, 10) == first_book_match(k, 16));
    assert(first_book_match(k, 9) == first_book_match(k, 16));
    assert(first_book_match(k, 8) == first_book_match(k, 16));
    assert(first_book_match(k, 7) == first_book_match(k, 16));
    assert(first_book_match(k, 6) == first_book_match(k, 16));
    assert(first_book_match(k, 5) == first_book_match(k, 16));
    assert(first_book_match(k, 4) == first_book_match(k, 16));
    assert(first_book_match(k, 3) == first_book_match(k, 16));
    assert(first_book_match(k, 2) == first_book_match(k, 16));
    assert(first_book_match(k, 1) == first_book_match(k, 16));
    assert(first_book_match(k, 0) == first_book_match(k, 16));
}

#[verifier::rlimit(40)]
proof fn misses_abbreviation_19_16()
    ensures
        first_book_match(canon_spec(19).name_zh_short@, 16) == first_book_match(canon_spec(19).name_zh_short@, 19),
{
    book_19();
    let k = canon_spec(19).name_zh_short@;
    book_16();
    lemma_not_same(canon_spec(16).name_zh_short@, k, 0);
    book_17();
    lemma_not_same(canon_spec(17).name_zh_short@, k, 0);
    book_18();
    lemma_not_same(canon_spec(18).name_zh_short@, k, 0);
    assert(first_book_match(k, 18) == first_book_match(k, 19));
    assert(first_book_match(k, 17) == first_book_match(k, 19));
    assert(first_book_match(k, 16) == first_book_match(k, 19));
}

proof fn found_by_abbreviation_19()
    ensures
        lookup_canon_spec(canon_spec(19).name_zh_short@) == Some(canon_spec(19)),
{
    book_19();
    let k = canon_spec(19).name_zh_short@;
    lemma_plain_key(k);
    lemma_not_number(k, 0);
    misses_abbreviation_19_0();
    misses_abbreviation_19_16();
    assert(first_book_match(k, 19) == Some(19int));
}

#[verifier::rlimit(40)]
proof fn misses_english_19_0()
    ensures
        first_book_match(canon_spec(19).name_en@, 0) == first_book_match(canon_spec(19).name_en@, 16),
{
    book_19();
    let k = canon_spec(19).name_en@;
    book_0();
    book_1();
    book_2();
    book_3();
    book_4();
    book_5();
    book_6();
    book_7();
    book_8();
    lemma_not_eq_ic(canon_spec(8).name_en@, k, 0);
    book_9();
    lemma_not_eq_ic(canon_spec(9).name_en@, k, 0);
    book_10();
    book_11();
    book_12();
    book_13();
    book_14();
    book_15();
    lemma_not_eq_ic(canon_spec(15).name_en@, k, 0);
    assert(first_book_match(k, 15) == first_book_match(k, 16));
    assert(first_book_match(k, 14) == first_book_match(k, 16));
    assert(first_book_match(k, 13) == first_book_match(k, 16));
    assert(first_book_match(k, 12) == first_book_match(k, 16));
    assert(first_book_match(k, 11) == first_book_match(k, 16));
    assert(first_book_match(k, 10) == first_book_match(k, 16));
    assert(first_book_match(k, 9) == first_book_match(k, 16));
    assert(first_book_match(k, 8) == first_book_match(k, 16));
    assert(first_book_match(k, 7) == first_book_match(k, 16));
    assert(first_book_match(k, 6) == first_book_match(k, 16));
    assert(first_book_match(k, 5) == first_book_match(k, 16));
    assert(first_book_match(k, 4) == first_book_match(k, 16));
    assert(first_book_match(k, 3) == first_book_match(k, 16));
    assert(first_book_match(k, 2) == first_book_match(k, 16));
    assert(first_book_match(k, 1) == first_book_match(k, 16));
    assert(first_book_match(k, 0) == first_book_match(k, 16));
}

#[verifier::rlimit(40)]
proof fn misses_english_19_16()
    ensures
        first_book_match(canon_spec(19).name_en@, 16) == first_book_match(canon_spec(19).name_en@, 19),
{
    book_19();
    let k = canon_spec(19).name_en@;
    book_16();
    book_17();
    book_18();
    assert(first_book_match(k, 18) == first_book_match(k, 19));
    assert(first_book_match(k, 17) == first_book_match(k, 19));
    assert(first_book_match(k, 16) == first_book_match(k, 19));
}

proof fn found_by_english_19()
    ensures
        lookup_canon_spec(canon_spec(19).name_en@) == Some(canon_spec(19)),
{
    book_19();
    let k = canon_spec(19).name_en@;
    lemma_plain_key(k);
    lemma_not_number(k, 0);
    misses_english_19_0();
    misses_english_19_16();
    assert(first_book_match(k, 19) == Some(19int));
}

#[verifier::rlimit(40)]
proof fn misses_osis_20_0()
    ensures
        first_book_match(canon_spec(20).osis@, 0) == first_book_match(canon_spec(20).osis@, 16),
{
    book_20();
    let k = canon_spec(20).osis@;
    book_0();
    book_1();
    lemma_not_eq_ic(canon_spec(1).osis@, k, 1);
    lemma_not_same(canon_spec(1).name_zh@, k, 0);
    book_2();
    book_3();
    book_4();
    lemma_not_eq_ic(canon_spec(4).osis@, k, 0);
    book_5();
    lemma_not_eq_ic(canon_spec(5).osis@, k, 0);
    lemma_not_same(canon_spec(5).name_zh@, k, 0);
    book_6();
    lemma_not_eq_ic(canon_spec(6).osis@, k, 0);
    book_7();
    lemma_not_eq_ic(canon_spec(7).osis@, k, 0);
    lemma_not_eq_ic(canon_spec(7).name_en@, k, 0);
    book_8();
    lemma_not_eq_ic(canon_spec(8).osis@, k, 0);
    book_9();
    lemma_not_eq_ic(canon_spec(9).osis@, k, 0);
    book_10();
    lemma_not_eq_ic(canon_spec(10).osis@, k, 0);
    lemma_not_same(canon_spec(10).name_zh@, k, 0);
    book_11();
    lemma_not_eq_ic(canon_spec(11).osis@, k, 0);
    lemma_not_same(canon_spec(11).name_zh@, k, 0);
    book_12();
    lemma_not_eq_ic(canon_spec(12).osis@, k, 0);
    lemma_not_same(canon_spec(12).name_zh@, k, 0);
    book_13();
    lemma_not_eq_ic(canon_spec(13).osis@, k, 0);
    lemma_not_same(canon_spec(13).name_zh@, k, 0);
    book_14();
    lemma_not_eq_ic(canon_spec(14).osis@, k, 1);
    lemma_not_same(canon_spec(14).name_zh@, k, 0);
    lemma_not_eq_ic(canon_spec(14).name_en@, k, 1);
    book_15();
    lemma_not_same(canon_spec(15).name_zh@, k, 0);
    assert(first_book_match(k, 15) == first_book_match(k, 16));
    assert(first_book_match(k, 14) == first_book_match(k, 16));
    assert(first_book_match(k, 13) == first_book_match(k, 16));
    assert(first_book_match(k, 12) == first_book_match(k, 16));
    assert(first_book_match(k, 11) == first_book_match(k, 16));
    assert(first_book_match(k, 10) == first_book_match(k, 16));
    assert(first_book_match(k, 9) == first_book_match(k, 16));
    assert(first_book_match(k, 8) == first_book_match(k, 16));
    assert(first_book_match(k, 7) == first_book_match(k, 16));
    assert(first_book_match(k, 6) == first_book_match(k, 16));
    assert(first_book_match(k, 5) == first_book_match(k, 16));
    assert(first_book_match(k, 4) == first_book_match(k, 16));
    assert(first_book_match(k, 3) == first_book_match(k, 16));
    assert(first_book_match(k, 2) == first_book_match(k, 16));
    assert(first_book_match(k, 1) == first_book_match(k, 16));
    assert(first_book_match(k, 0) == first_book_match(k, 16));
}

#[verifier::rlimit(40)]
proof fn misses_osis_20_16()
    ensures
        first_book_match(canon_spec(20).osis@, 16) == first_book_match(canon_spec(20).osis@, 20),
{
    book_20();
    let k = canon_spec(20).osis@;
    book_16();
    lemma_not_eq_ic(canon_spec(16).osis@, k, 1);
    lemma_not_same(canon_spec(16).name_zh@, k, 0);
    book_17();
    book_18();
    book_19();
    lemma_not_eq_ic(canon_spec(19).osis@, k, 0);
    assert(first_book_match(k, 19) == first_book_match(k, 20));
    assert(first_book_match(k, 18) == first_book_match(k, 20));
    assert(first_book_match(k, 17) == first_book_match(k, 20));
    assert(first_book_match(k, 16) == first_book_match(k, 20));
}

proof fn found_by_osis_20()
    ensures
        lookup_canon_spec(canon_spec(20).osis@) == Some(canon_spec(20)),
{
    book_20();
    let k = canon_spec(20).osis@;
    lemma_plain_key(k);
    lemma_not_number(k, 0);
    misses_osis_20_0();
    misses_osis_20_16();
    assert(first_book_match(k, 20) == Some(20int));
}

#[verifier::rlimit(40)]
proof fn misses_abbreviation_20_0()
    ensures
        first_book_match(canon_spec(20).name_zh_short@, 0) == first_book_match(canon_spec(20).name_zh_short@, 16),
{
    book_20();
    let k = canon_spec(20).name_zh_short@;
    book_0();
    lemma_not_same(canon_spec(0).name_zh_short@, k, 0);
    book_1();
    lemma_not_same(canon_spec(1).name_zh_short@, k, 0);
    book_2();
    lemma_not_same(canon_spec(2).name_zh_short@, k, 0);
    book_3();
    lemma_not_same(canon_spec(3).name_zh_short@, k, 0);
    book_4();
    lemma_not_same(canon_spec(4).name_zh_short@, k, 0);
    book_5();
    lemma_not_same(canon_spec(5).name_zh_short@, k, 0);
    book_6();
    lemma_not_same(canon_spec(6).name_zh_short@, k, 0);
    book_7();
    lemma_not_same(canon_spec(7).name_zh_short@, k, 0);
    book_8();
    book_9();
    book_10();
    book_11();
    book_12();
    book_13();
    book_14();
    lemma_not_same(canon_spec(14).name_zh_short@, k, 0);
    book_15();
    lemma_not_same(canon_spec(15).name_zh_short@, k, 0);
    assert(first_book_match(k, 15) == first_book_match(k, 16));
    assert(first_book_match(k, 14) == first_book_match(k, 16));
    assert(first_book_match(k, 13) == first_book_match(k, 16));
    assert(first_book_match(k, 12) == first_book_match(k, 16));
    assert(first_book_match(k, 11) == first_book_match(k, 16));
    assert(first_book_match(k, 10) == first_book_match(k, 16));
    assert(first_book_match(k, 9) == first_book_match(k, 16));
    assert(first_book_match(k, 8) == first_book_match(k, 16));
    assert(first_book_match(k, 7) == first_book_match(k, 16));
    assert(first_book_match(k, 6) == first_book_match(k, 16));
    assert(first_book_match(k, 5) == first_book_match(k, 16));
    assert(first_book_match(k, 4) == first_book_match(k, 16));
    assert(first_book_match(k, 3) == first_book_match(k, 16));
    assert(first_book_match(k, 2) == first_book_match(k, 16));
    assert(first_book_match(k, 1) == first_book_match(k, 16));
    assert(first_book_match(k, 0) == first_book_match(k, 16));
}

#[verifier::rlimit(40)]
proof fn misses_abbreviation_20_16()
    ensures
        first_book_match(canon_spec(20).name_zh_short@, 16) == first_book_match(canon_spec(20).name_zh_short@, 20),
{
    book_20();
    let k = canon_spec(20).name_zh_short@;
    book_16();
    lemma_not_same(canon_spec(16).name_zh_short@, k, 0);
    book_17();
    lemma_not_same(canon_spec(17).name_zh_short@, k, 0);
    book_18();
    lemma_not_same(canon_spec(18).name_zh_short@, k, 0);
    book_19();
    lemma_not_same(canon_spec(19).name_zh_short@, k, 0);
    assert(first_book_match(k, 19) == first_book_match(k, 20));
    assert(first_book_match(k, 18) == first_book_match(k, 20));
    assert(first_book_match(k, 17) == first_book_match(k, 20));
    assert(first_book_match(k, 16) == first_book_match(k, 20));
}

proof fn found_by_abbreviation_20()
    ensures
        lookup_canon_spec(canon_spec(20).name_zh_short@) == Some(canon_spec(20)),
{
    book_20();
    let k = canon_spec(20).name_zh_short@;
    lemma_plain_key(k);
    lemma_not_number(k, 0);
    misses_abbreviation_20_0();
    misses_abbreviation_20_16();
    assert(first_book_match(k, 20) == Some(20int));
}

#[verifier::rlimit(40)]
proof fn misses_english_20_0()
    ensures
        first_book_match(canon_spec(20).name_en@, 0) == first_book_match(canon_spec(20).name_en@, 16),
{
    book_20();
    let k = canon_spec(20).name_en@;
    book_0();
    book_1();
    book_2();
    book_3();
    book_4();
    book_5();
    book_6();
    book_7();
    book_8();
    book_9();
    book_10();
    book_11();
    book_12();
    lemma_not_eq_ic(canon_spec(12).name_en@, k, 0);
    book_13();
    lemma_not_eq_ic(canon_spec(13).name_en@, k, 0);
    book_14();
    book_15();
    assert(first_book_match(k, 15) == first_book_match(k, 16));
    assert(first_book_match(k, 14) == first_book_match(k, 16));
    assert(first_book_match(k, 13) == first_book_match(k, 16));
    assert(first_book_match(k, 12) == first_book_match(k, 16));
    assert(first_book_match(k, 11) == first_book_match(k, 16));
    assert(first_book_match(k, 10) == first_book_match(k, 16));
    assert(first_book_match(k, 9) == first_book_match(k, 16));
    assert(first_book_match(k, 8) == first_book_match(k, 16));
    assert(first_book_match(k, 7) == first_book_match(k, 16));
    assert(first_book_match(k, 6) == first_book_match(k, 16));
    assert(first_book_match(k, 5) == first_book_match(k, 16));
    assert(first_book_match(k, 4) == first_book_match(k, 16));
    assert(first_book_match(k, 3) == first_book_match(k, 16));
    assert(first_book_match(k, 2) == first_book_match(k, 16));
    assert(first_book_match(k, 1) == first_book_match(k, 16));
    assert(first_book_match(k, 0) == first_book_match(k, 16));
}

#[verifier::rlimit(40)]
proof fn misses_english_20_16()
    ensures
        first_book_match(canon_spec(20).name_en@, 16) == first_book_match(canon_spec(20).name_en@, 20),
{
    book_20();
    let k = canon_spec(20).name_en@;
    book_16();
    book_17();
    book_18();
    book_19();
    assert(first_book_match(k, 19) == first_book_match(k, 20));
    assert(first_book_match(k, 18) == first_book_match(k, 20));
    assert(first_book_match(k, 17) == first_book_match(k, 20));
    assert(first_book_match(k, 16) == first_book_match(k, 20));
}

proof fn found_by_english_20()
    ensures
        lookup_canon_spec(canon_spec(20).name_en@) == Some(canon_spec(20)),
{
    book_20();
    let k = canon_spec(20).name_en@;
    lemma_plain_key(k);
    lemma_not_number(k, 0);
    misses_english_20_0();
    misses_english_20_16();
    assert(first_book_match(k, 20) == Some(20int));
}

#[verifier::rlimit(40)]
proof fn misses_osis_21_0()
    ensures
        first_book_match(canon_spec(21).osis@, 0) == first_book_match(canon_spec(21).osis@, 16),
{
    book_21();
    let k = canon_spec(21).osis@;
    book_0();
    book_1();
    lemma_not_eq_ic(canon_spec(1).osis@, k, 0);
    lemma_not_same(canon_spec(1).name_zh@, k, 0);
    book_2();
    book_3();
    book_4();
    lemma_not_eq_ic(canon_spec(4).osis@, k, 0);
    book_5();
    lemma_not_eq_ic(canon_spec(5).osis@, k, 0);
    lemma_not_same(canon_spec(5).name_zh@, k, 0);
    book_6();
    lemma_not_eq_ic(canon_spec(6).osis@, k, 0);
    book_7();
    lemma_not_eq_ic(canon_spec(7).osis@, k, 0);
    lemma_not_eq_ic(canon_spec(7).name_en@, k, 0);
    book_8();
    lemma_not_eq_ic(canon_spec(8).osis@, k, 0);
    book_9();
    lemma_not_eq_ic(canon_spec(9).osis@, k, 0);
    book_10();
    lemma_not_eq_ic(canon_spec(10).osis@, k, 0);
    lemma_not_same(canon_spec(10).name_zh@, k, 0);
    book_11();
    lemma_not_eq_ic(canon_spec(11).osis@, k, 0);
    lemma_not_same(canon_spec(11).name_zh@, k, 0);
    book_12();
    lemma_not_eq_ic(canon_spec(12).osis@, k, 0);
    lemma_not_same(canon_spec(12).name_zh@, k, 0);
    book_13();
    lemma_not_eq_ic(canon_spec(13).osis@, k, 0);
    lemma_not_same(canon_spec(13).name_zh@, k, 0);
    book_14();
    lemma_not_eq_ic(canon_spec(14).osis@, k, 0);
    lemma_not_same(canon_spec(14).name_zh@, k, 0);
    lemma_not_eq_ic(canon_spec(14).name_en@, k, 0);
    book_15();
    lemma_not_same(canon_spec(15).name_zh@, k, 0);
    assert(first_book_match(k, 15) == first_book_match(k, 16));
    assert(first_book_match(k, 14) == first_book_match(k, 16));
    assert(first_book_match(k, 13) == first_book_match(k, 16));
    assert(first_book_match(k, 12) == first_book_match(k, 16));
    assert(first_book_match(k, 11) == first_book_match(k, 16));
    assert(first_book_match(k, 10) == first_book_match(k, 16));
    assert(first_book_match(k, 9) == first_book_match(k, 16));
    assert(first_book_match(k, 8) == first_book_match(k, 16));
    assert(first_book_match(k, 7) == first_book_match(k, 16));
    assert(first_book_match(k, 6) == first_book_match(k, 16));
    assert(first_book_match(k, 5) == first_book_match(k, 16));
    assert(first_book_match(k, 4) == first_book_match(k, 16));
    assert(first_book_match(k, 3) == first_book_match(k, 16));
    assert(first_book_match(k, 2) == first_book_match(k, 16));
    assert(first_book_match(k, 1) == first_book_match(k, 16));
    assert(first_book_match(k, 0) == first_book_match(k, 16));
}

#[verifier::rlimit(40)]
proof fn misses_osis_21_16()
    ensures
        first_book_match(canon_spec(21).osis@, 16) == first_book_match(canon_spec(21).osis@, 21),
{
    book_21();
    let k = canon_spec(21).osis@;
    book_16();
    lemma_not_eq_ic(canon_spec(16).osis@, k, 0);
    lemma_not_same(canon_spec(16).name_zh@, k, 0);
    book_17();
    book_18();
    book_19();
    lemma_not_eq_ic(canon_spec(19).osis@, k, 0);
    book_20();
    lemma_not_eq_ic(canon_spec(20).osis@, k, 0);
    assert(first_book_match(k, 20) == first_book_match(k, 21));
    assert(first_book_match(k, 19) == first_book_match(k, 21));
    assert(first_book_match(k, 18) == first_book_match(k, 21));
    assert(first_book_match(k, 17) == first_book_match(k, 21));
    assert(first_book_match(k, 16) == first_book_match(k, 21));
}

proof fn found_by_osis_21()
    ensures
        lookup_canon_spec(canon_spec(21).osis@) == Some(canon_spec(21)),
{
    book_21();
    let k = canon_spec(21).osis@;
    lemma_plain_key(k);
    lemma_not_number(k, 0);
    misses_osis_21_0();
    misses_osis_21_16();
    assert(first_book_match(k, 21) == Some(21int));
}

#[verifier::rlimit(40)]
proof fn misses_abbreviation_21_0()
    ensures
        first_book_match(canon_spec(21).name_zh_short@, 0) == first_book_match(canon_spec(21).name_zh_short@, 16),
{
    book_21();
    let k = canon_spec(21).name_zh_short@;
    book_0();
    lemma_not_same(canon_spec(0).name_zh_short@, k, 0);
    book_1();
    lemma_not_same(canon_spec(1).name_zh_short@, k, 0);
    book_2();
    lemma_not_same(canon_spec(2).name_zh_short@, k, 0);
    book_3();
    lemma_not_same(canon_spec(3).name_zh_short@, k, 0);
    book_4();
    lemma_not_same(canon_spec(4).name_zh_short@, k, 0);
    book_5();
    lemma_not_same(canon_spec(5).name_zh_short@, k, 0);
    book_6();
    lemma_not_same(canon_spec(6).name_zh_short@, k, 0);
    book_7();
    lemma_not_same(canon_spec(7).name_zh_short@, k, 0);
    book_8();
    book_9();
    book_10();
    book_11();
    book_12();
    book_13();
    book_14();
    lemma_not_same(canon_spec(14).name_zh_short@, k, 0);
    book_15();
    lemma_not_same(canon_spec(15).name_zh_short@, k, 0);
    assert(first_book_match(k, 15) == first_book_match(k, 16));
    assert(first_book_match(k, 14) == first_book_match(k, 16));
    assert(first_book_match(k, 13) == first_book_match(k, 16));
    assert(first_book_match(k, 12) == first_book_match(k, 16));
    assert(first_book_match(k, 11) == first_book_match(k, 16));
    assert(first_book_match(k, 10) == first_book_match(k, 16));
    assert(first_book_match(k, 9) == first_book_match(k, 16));
    assert(first_book_match(k, 8) == first_book_match(k, 16));
    assert(first_book_match(k, 7) == first_book_match(k, 16));
    assert(first_book_match(k, 6) == first_book_match(k, 16));
    assert(first_book_match(k, 5) == first_book_match(k, 16));
    assert(first_book_match(k, 4) == first_book_match(k, 16));
    assert(first_book_match(k, 3) == first_book_match(k, 16));
    assert(first_book_match(k, 2) == first_book_match(k, 16));
    assert(first_book_match(k, 1) == first_book_match(k, 16));
    assert(first_book_match(k, 0) == first_book_match(k, 16));
}

#[verifier::rlimit(40)]
proof fn misses_abbreviation_21_16()
    ensures
        first_book_match(canon_spec(21).name_zh_short@, 16) == first_book_match(canon_spec(21).name_zh_short@, 21),
{
    book_21();
    let k = canon_spec(21).name_zh_short@;
    book_16();
    lemma_not_same(canon_spec(16).name_zh_short@, k, 0);
    book_17();
    lemma_not_same(canon_spec(17).name_zh_short@, k, 0);
    book_18();
    lemma_not_same(canon_spec(18).name_zh_short@, k, 0);
    book_19();
    lemma_not_same(canon_spec(19).name_zh_short@, k, 0);
    book_20();
    lemma_not_same(canon_spec(20).name_zh_short@, k, 0);
    assert(first_book_match(k, 20) == first_book_match(k, 21));
    assert(first_book_match(k, 19) == first_book_match(k, 21));
    assert(first_book_match(k, 18) == first_book_match(k, 21));
    assert(first_book_match(k, 17) == first_book_match(k, 21));
    assert(first_book_match(k, 16) == first_book_match(k, 21));
}

proof fn found_by_abbreviation_21()
    ensures
        lookup_canon_spec(canon_spec(21).name_zh_short@) == Some(canon_spec(21)),
{
    book_21();
    let k = canon_spec(21).name_zh_short@;
    lemma_plain_key(k);
    lemma_not_number(k, 0);
    misses_abbreviation_21_0();
    misses_abbreviation_21_16();
    assert(first_book_match(k, 21) == Some(21int));
}

#[verifier::rlimit(40)]
proof fn misses_english_21_0()
    ensures
        first_book_match(canon_spec(21).name_en@, 0) == first_book_match(canon_spec(21).name_en@, 16),
{
    book_21();
    let k = canon_spec(21).name_en@;
    book_0();
    book_1();
    book_2();
    book_3();
    book_4();
    book_5();
    book_6();
    book_7();
    book_8();
    book_9();
    book_10();
    book_11();
    book_12();
    book_13();
    book_14();
    book_15();
    assert(first_book_match(k, 15) == first_book_match(k, 16));
    assert(first_book_match(k, 14) == first_book_match(k, 16));
    assert(first_book_match(k, 13) == first_book_match(k, 16));
    assert(first_book_match(k, 12) == first_book_match(k, 16));
    assert(first_book_match(k, 11) == first_book_match(k, 16));
    assert(first_book_match(k, 10) == first_book_match(k, 16));
    assert(first_book_match(k, 9) == first_book_match(k, 16));
    assert(first_book_match(k, 8) == first_book_match(k, 16));
    assert(first_book_match(k, 7) == first_book_match(k, 16));
    assert(first_book_match(k, 6) == first_book_match(k, 16));
    assert(first_book_match(k, 5) == first_book_match(k, 16));
    assert(first_book_match(k, 4) == first_book_match(k, 16));
    assert(first_book_match(k, 3) == first_book_match(k, 16));
    assert(first_book_match(k, 2) == first_book_match(k, 16));
    assert(first_book_match(k, 1) == first_book_match(k, 16));
    assert(first_book_match(k, 0) == first_book_match(k, 16));
}

#[verifier::rlimit(40)]
proof fn misses_english_21_16()
    ensures
        first_book_match(canon_spec(21).name_en@, 16) == first_book_match(canon_spec(21).name_en@, 21),
{
    book_21();
    let k = canon_spec(21).name_en@;
    book_16();
    book_17();
    book_18();
    book_19();
    book_20();
    assert(first_book_match(k, 20) == first_book_match(k, 21));
    assert(first_book_match(k, 19) == first_book_match(k, 21));
    assert(first_book_match(k, 18) == first_book_match(k, 21));
    assert(first_book_match(k, 17) == first_book_match(k, 21));
    assert(first_book_match(k, 16) == first_book_match(k, 21));
}

proof fn found_by_english_21()
    ensures
        lookup_canon_spec(canon_spec(21).name_en@) == Some(canon_spec(21)),
{
    book_21();
    let k = canon_spec(21).name_en@;
    lemma_plain_key(k);
    lemma_not_number(k, 0);
    misses_english_21_0();
    misses_english_21_16();
    assert(first_book_match(k, 21) == Some(21int));
}

#[verifier::rlimit(40)]
proof fn misses_osis_22_0()
    ensures
        first_book_match(canon_spec(22).osis@, 0) == first_book_match(canon_spec(22).osis@, 16),
{
    book_22();
    let k = canon_spec(22).osis@;
    book_0();
    lemma_not_eq_ic(canon_spec(0).osis@, k, 0);
    lemma_not_same(canon_spec(0).name_zh@, k, 0);
    book_1();
    book_2();
    lemma_not_eq_ic(canon_spec(2).osis@, k, 0);
    lemma_not_same(canon_spec(2).name_zh@, k, 0);
    book_3();
    lemma_not_eq_ic(canon_spec(3).osis@, k, 0);
    lemma_not_same(canon_spec(3).name_zh@, k, 0);
    book_4();
    lemma_not_same(canon_spec(4).name_zh@, k, 0);
    book_5();
    book_6();
    lemma_not_same(canon_spec(6).name_zh@, k, 0);
    book_7();
    lemma_not_same(canon_spec(7).name_zh@, k, 0);
    book_8();
    book_9();
    book_10();
    book_11();
    book_12();
    book_13();
    book_14();
    book_15();
    lemma_not_eq_ic(canon_spec(15).osis@, k, 0);
    assert(first_book_match(k, 15) == first_book_match(k, 16));
    assert(first_book_match(k, 14) == first_book_match(k, 16));
    assert(first_book_match(k, 13) == first_book_match(k, 16));
    assert(first_book_match(k, 12) == first_book_match(k, 16));
    assert(first_book_match(k, 11) == first_book_match(k, 16));
    assert(first_book_match(k, 10) == first_book_match(k, 16));
    assert(first_book_match(k, 9) == first_book_match(k, 16));
    assert(first_book_match(k, 8) == first_book_match(k, 16));
    assert(first_book_match(k, 7) == first_book_match(k, 16));
    assert(first_book_match(k, 6) == first_book_match(k, 16));
    assert(first_book_match(k, 5) == first_book_match(k, 16));
    assert(first_book_match(k, 4) == first_book_match(k, 16));
    assert(first_book_match(k, 3) == first_book_match(k, 16));
    assert(first_book_match(k, 2) == first_book_match(k, 16));
    assert(first_book_match(k, 1) == first_book_match(k, 16));
    assert(first_book_match(k, 0) == first_book_match(k, 16));
}

#[verifier::rlimit(40)]
proof fn misses_osis_22_16()
    ensures
        first_book_match(canon_spec(22).osis@, 16) == first_book_match(canon_spec(22).osis@, 22),
{
    book_22();
    let k = canon_spec(22).osis@;
    book_16();
    book_17();
    lemma_not_eq_ic(canon_spec(17).osis@, k, 0);
    lemma_not_same(canon_spec(17).name_zh@, k, 0);
    lemma_not_eq_ic(canon_spec(17).name_en@, k, 0);
    book_18();
    book_19();
    book_20();
    lemma_not_same(canon_spec(20).name_zh@, k, 0);
    book_21();
    assert(first_book_match(k, 21) == first_book_match(k, 22));
    assert(first_book_match(k, 20) == first_book_match(k, 22));
    assert(first_book_match(k, 19) == first_book_match(k, 22));
    assert(first_book_match(k, 18) == first_book_match(k, 22));
    assert(first_book_match(k, 17) == first_book_match(k, 22));
    assert(first_book_match(k, 16) == first_book_match(k, 22));
}

proof fn found_by_osis_22()
    ensures
        lookup_canon_spec(canon_spec(22).osis@) == Some(canon_spec(22)),
{
    book_22();
    let k = canon_spec(22).osis@;
    lemma_plain_key(k);
    lemma_not_number(k, 0);
    misses_osis_22_0();
    misses_osis_22_16();
    assert(first_book_match(k, 22) == Some(22int));
}

#[verifier::rlimit(40)]
proof fn misses_abbreviation_22_0()
    ensures
        first_book_match(canon_spec(22).name_zh_short@, 0) == first_book_match(canon_spec(22).name_zh_short@, 16),
{
    book_22();
    let k = canon_spec(22).name_zh_short@;
    book_0();
    lemma_not_same(canon_spec(0).name_zh_short@, k, 0);
    book_1();
    lemma_not_same(canon_spec(1).name_zh_short@, k, 0);
    book_2();
    lemma_not_same(canon_spec(2).name_zh_short@, k, 0);
    book_3();
    lemma_not_same(canon_spec(3).name_zh_short@, k, 0);
    book_4();
    lemma_not_same(canon_spec(4).name_zh_short@, k, 0);
    book_5();
    lemma_not_same(canon_spec(5).name_zh_short@, k, 0);
    book_6();
    lemma_not_same(canon_spec(6).name_zh_short@, k, 0);
    book_7();
    lemma_not_same(canon_spec(7).name_zh_short@, k, 0);
    book_8();
    book_9();
    book_10();
    book_11();
    book_12();
    book_13();
    book_14();
    lemma_not_same(canon_spec(14).name_zh_short@, k, 0);
    book_15();
    lemma_not_same(canon_spec(15).name_zh_short@, k, 0);
    assert(first_book_match(k, 15) == first_book_match(k, 16));
    assert(first_book_match(k, 14) == first_book_match(k, 16));
    assert(first_book_match(k, 13) == first_book_match(k, 16));
    assert(first_book_match(k, 12) == first_book_match(k, 16));
    assert(first_book_match(k, 11) == first_book_match(k, 16));
    assert(first_book_match(k, 10) == first_book_match(k, 16));
    assert(first_book_match(k, 9) == first_book_match(k, 16));
    assert(first_book_match(k, 8) == first_book_match(k, 16));
    assert(first_book_match(k, 7) == first_book_match(k, 16));
    assert(first_book_match(k, 6) == first_book_match(k, 16));
    assert(first_book_match(k, 5) == first_book_match(k, 16));
    assert(first_book_match(k, 4) == first_book_match(k, 16));
    assert(first_book_match(k, 3) == first_book_match(k, 16));
    assert(first_book_match(k, 2) == first_book_match(k, 16));
    assert(first_book_match(k, 1) == first_book_match(k, 16));
    assert(first_book_match(k, 0) == first_book_match(k, 16));
}

#[verifier::rlimit(40)]
proof fn misses_abbreviation_22_16()
    ensures
        first_book_match(canon_spec(22).name_zh_short@, 16) == first_book_match(canon_spec(22).name_zh_short@, 22),
{
    book_22();
    let k = canon_spec(22).name_zh_short@;
    book_16();
    lemma_not_same(canon_spec(16).name_zh_short@, k, 0);
    book_17();
    lemma_not_same(canon_spec(17).name_zh_short@, k, 0);
    book_18();
    lemma_not_same(canon_spec(18).name_zh_short@, k, 0);
    book_19();
    lemma_not_same(canon_spec(19).name_zh_short@, k, 0);
    book_20();
    lemma_not_same(canon_spec(20).name_zh_short@, k, 0);
    book_21();
    lemma_not_same(canon_spec(21).name_zh_short@, k, 0);
    assert(first_book_match(k, 21) == first_book_match(k, 22));
    assert(first_book_match(k, 20) == first_book_match(k, 22));
    assert(first_book_match(k, 19) == first_book_match(k, 22));
    assert(first_book_match(k, 18) == first_book_match(k, 22));
    assert(first_book_match(k, 17) == first_book_match(k, 22));
    assert(first_book_match(k, 16) == first_book_match(k, 22));
}

proof fn found_by_abbreviation_22()
    ensures
        lookup_canon_spec(canon_spec(22).name_zh_short@) == Some(canon_spec(22)),
{
    book_22();
    let k = canon_spec(22).name_zh_short@;
    lemma_plain_key(k);
    lemma_not_number(k, 0);
    misses_abbreviation_22_0();
    misses_abbreviation_22_16();
    assert(first_book_match(k, 22) == Some(22int));
}

#[verifier::rlimit(40)]
proof fn misses_english_22_0()
    ensures
        first_book_match(canon_spec(22).name_en@, 0) == first_book_match(canon_spec(22).name_en@, 16),
{
    book_22();
    let k = canon_spec(22).name_en@;
    book_0();
    book_1();
    lemma_not_eq_ic(canon_spec(1).name_en@, k, 0);
    book_2();
    book_3();
    book_4();
    book_5();
    lemma_not_eq_ic(canon_spec(5).name_en@, k, 0);
    book_6();
    lemma_not_eq_ic(canon_spec(6).name_en@, k, 0);
    book_7();
    book_8();
    book_9();
    book_10();
    book_11();
    book_12();
    book_13();
    book_14();
    book_15();
    assert(first_book_match(k, 15) == first_book_match(k, 16));
    assert(first_book_match(k, 14) == first_book_match(k, 16));
    assert(first_book_match(k, 13) == first_book_match(k, 16));
    assert(first_book_match(k, 12) == first_book_match(k, 16));
    assert(first_book_match(k, 11) == first_book_match(k, 16));
    assert(first_book_match(k, 10) == first_book_match(k, 16));
    assert(first_book_match(k, 9) == first_book_match(k, 16));
    assert(first_book_match(k, 8) == first_book_match(k, 16));
    assert(first_book_match(k, 7) == first_book_match(k, 16));
    assert(first_book_match(k, 6) == first_book_match(k, 16));
    assert(first_book_match(k, 5) == first_book_match(k, 16));
    assert(first_book_match(k, 4) == first_book_match(k, 16));
    assert(first_book_match(k, 3) == first_book_match(k, 16));
    assert(first_book_match(k, 2) == first_book_match(k, 16));
    assert(first_book_match(k, 1) == first_book_match(k, 16));
    assert(first_book_match(k, 0) == first_book_match(k, 16));
}

#[verifier::rlimit(40)]
proof fn misses_english_22_16()
    ensures
        first_book_match(canon_spec(22).name_en@, 16) == first_book_match(canon_spec(22).name_en@, 22),
{
    book_22();
    let k = canon_spec(22).name_en@;
    book_16();
    lemma_not_eq_ic(canon_spec(16).name_en@, k, 0);
    book_17();
    book_18();
    lemma_not_eq_ic(canon_spec(18).name_en@, k, 0);
    book_19();
    book_20();
    book_21();
    assert(first_book_match(k, 21) == first_book_match(k, 22));
    assert(first_book_match(k, 20) == first_book_match(k, 22));
    assert(first_book_match(k, 19) == first_book_match(k, 22));
    assert(first_book_match(k, 18) == first_book_match(k, 22));
    assert(first_book_match(k, 17) == first_book_match(k, 22));
    assert(first_book_match(k, 16) == first_book_match(k, 22));
}

proof fn found_by_english_22()
    ensures
        lookup_canon_spec(canon_spec(22).name_en@) == Some(canon_spec(22)),
{
    book_22();
    let k = canon_spec(22).name_en@;
    lemma_plain_key(k);
    lemma_not_number(k, 0);
    misses_english_22_0();
    misses_english_22_16();
    assert(first_book_match(k, 22) == Some(22int));
}

#[verifier::rlimit(40)]
proof fn misses_osis_23_0()
    ensures
        first_book_match(canon_spec(23).osis@, 0) == first_book_match(canon_spec(23).osis@, 16),
{
    book_23();
    let k = canon_spec(23).osis@;
    book_0();
    lemma_not_eq_ic(canon_spec(0).osis@, k, 0);
    lemma_not_same(canon_spec(0).name_zh@, k, 0);
    book_1();
    book_2();
    lemma_not_eq_ic(canon_spec(2).osis@, k, 0);
    lemma_not_same(canon_spec(2).name_zh@, k, 0);
    book_3();
    lemma_not_eq_ic(canon_spec(3).osis@, k, 0);
    lemma_not_same(canon_spec(3).name_zh@, k, 0);
    book_4();
    lemma_not_same(canon_spec(4).name_zh@, k, 0);
    book_5();
    book_6();
    lemma_not_same(canon_spec(6).name_zh@, k, 0);
    book_7();
    lemma_not_same(canon_spec(7).name_zh@, k, 0);
    book_8();
    book_9();
    book_10();
    book_11();
    book_12();
    book_13();
    book_14();
    book_15();
    lemma_not_eq_ic(canon_spec(15).osis@, k, 0);
    assert(first_book_match(k, 15) == first_book_match(k, 16));
    assert(first_book_match(k, 14) == first_book_match(k, 16));
    assert(first_book_match(k, 13) == first_book_match(k, 16));
    assert(first_book_match(k, 12) == first_book_match(k, 16));
    assert(first_book_match(k, 11) == first_book_match(k, 16));
    assert(first_book_match(k, 10) == first_book_match(k, 16));
    assert(first_book_match(k, 9) == first_book_match(k, 16));
    assert(first_book_match(k, 8) == first_book_match(k, 16));
    assert(first_book_match(k, 7) == first_book_match(k, 16));
    assert(first_book_match(k, 6) == first_book_match(k, 16));
    assert(first_book_match(k, 5) == first_book_match(k, 16));
    assert(first_book_match(k, 4) == first_book_match(k, 16));
    assert(first_book_match(k, 3) == first_book_match(k, 16));
    assert(first_book_match(k, 2) == first_book_match(k, 16));
    assert(first_book_match(k, 1) == first_book_match(k, 16));
    assert(first_book_match(k, 0) == first_book_match(k, 16));
}

#[verifier::rlimit(40)]
proof fn misses_osis_23_16()
    ensures
        first_book_match(canon_spec(23).osis@, 16) == first_book_match(canon_spec(23).osis@, 23),
{
    book_23();
    let k = canon_spec(23).osis@;
    book_16();
    book_17();
    lemma_not_eq_ic(canon_spec(17).osis@, k, 1);
    lemma_not_same(canon_spec(17).name_zh@, k, 0);
    lemma_not_eq_ic(canon_spec(17).name_en@, k, 1);
    book_18();
    book_19();
    book_20();
    lemma_not_same(canon_spec(20).name_zh@, k, 0);
    book_21();
    book_22();
    lemma_not_eq_ic(canon_spec(22).osis@, k, 0);
    assert(first_book_match(k, 22) == first_book_match(k, 23));
    assert(first_book_match(k, 21) == first_book_match(k, 23));
    assert(first_book_match(k, 20) == first_book_match(k, 23));
    assert(first_book_match(k, 19) == first_book_match(k, 23));
    assert(first_book_match(k, 18) == first_book_match(k, 23));
    assert(first_book_match(k, 17) == first_book_match(k, 23));
    assert(first_book_match(k, 16) == first_book_match(k, 23));
}

proof fn found_by_osis_23()
    ensures
        lookup_canon_spec(canon_spec(23).osis@) == Some(canon_spec(23)),
{
    book_23();
    let k = canon_spec(23).osis@;
    lemma_plain_key(k);
    lemma_not_number(k, 0);
    misses_osis_23_0();
    misses_osis_23_16();
    assert(first_book_match(k, 23) == Some(23int));
}

#[verifier::rlimit(40)]
proof fn misses_abbreviation_23_0()
    ensures
        first_book_match(canon_spec(23).name_zh_short@, 0) == first_book_match(canon_spec(23).name_zh_short@, 16),
{
    book_23();
    let k = canon_spec(23).name_zh_short@;
    book_0();
    lemma_not_same(canon_spec(0).name_zh_short@, k, 0);
    book_1();
    lemma_not_same(canon_spec(1).name_zh_short@, k, 0);
    book_2();
    lemma_not_same(canon_spec(2).name_zh_short@, k, 0);
    book_3();
    lemma_not_same(canon_spec(3).name_zh_short@, k, 0);
    book_4();
    lemma_not_same(canon_spec(4).name_zh_short@, k, 0);
    book_5();
    lemma_not_same(canon_spec(5).name_zh_short@, k, 0);
    book_6();
    lemma_not_same(canon_spec(6).name_zh_short@, k, 0);
    book_7();
    lemma_not_same(canon_spec(7).name_zh_short@, k, 0);
    book_8();
    book_9();
    book_10();
    book_11();
    book_12();
    book_13();
    book_14();
    lemma_not_same(canon_spec(14).name_zh_short@, k, 0);
    book_15();
    lemma_not_same(canon_spec(15).name_zh_short@, k, 0);
    assert(first_book_match(k, 15) == first_book_match(k, 16));
    assert(first_book_match(k, 14) == first_book_match(k, 16));
    assert(first_book_match(k, 13) == first_book_match(k, 16));
    assert(first_book_match(k, 12) == first_book_match(k, 16));
    assert(first_book_match(k, 11) == first_book_match(k, 16));
    assert(first_book_match(k, 10) == first_book_match(k, 16));
    assert(first_book_match(k, 9) == first_book_match(k, 16));
    assert(first_book_match(k, 8) == first_book_match(k, 16));
    assert(first_book_match(k, 7) == first_book_match(k, 16));
    assert(first_book_match(k, 6) == first_book_match(k, 16));
    assert(first_book_match(k, 5) == first_book_match(k, 16));
    assert(first_book_match(k, 4) == first_book_match(k, 16));
    assert(first_book_match(k, 3) == first_book_match(k, 16));
    assert(first_book_match(k, 2) == first_book_match(k, 16));
    assert(first_book_match(k, 1) == first_book_match(k, 16));
    assert(first_book_match(k, 0) == first_book_match(k, 16));
}

#[verifier::rlimit(40)]
proof fn misses_abbreviation_23_16()
    ensures
        first_book_match(canon_spec(23).name_zh_short@, 16) == first_book_match(canon_spec(23).name_zh_short@, 23),
{
    book_23();
    let k = canon_spec(23).name_zh_short@;
    book_16();
    lemma_not_same(canon_spec(16).name_zh_short@, k, 0);
    book_17();
    lemma_not_same(canon_spec(17).name_zh_short@, k, 0);
    book_18();
    lemma_not_same(canon_spec(18).name_zh_short@, k, 0);
    book_19();
    lemma_not_same(canon_spec(19).name_zh_short@, k, 0);
    book_20();
    lemma_not_same(canon_spec(20).name_zh_short@, k, 0);
    book_21();
    lemma_not_same(canon_spec(21).name_zh_short@, k, 0);
    book_22();
    lemma_not_same(canon_spec(22).name_zh_short@, k, 0);
    assert(first_book_match(k, 22) == first_book_match(k, 23));
    assert(first_book_match(k, 21) == first_book_match(k, 23));
    assert(first_book_match(k, 20) == first_book_match(k, 23));
    assert(first_book_match(k, 19) == first_book_match(k, 23));
    assert(first_book_match(k, 18) == first_book_match(k, 23));
    assert(first_book_match(k, 17) == first_book_match(k, 23));
    assert(first_book_match(k, 16) == first_book_match(k, 23));
}

proof fn found_by_abbreviation_23()
    ensures
        lookup_canon_spec(canon_spec(23).name_zh_short@) == Some(canon_spec(23)),
{
    book_23();
    let k = canon_spec(23).name_zh_short@;
    lemma_plain_key(k);
    lemma_not_number(k, 0);
    misses_abbreviation_23_0();
    misses_abbreviation_23_16();
    assert(first_book_match(k, 23) == Some(23int));
}

#[verifier::rlimit(40)]
proof fn misses_english_23_0()
    ensures
        first_book_match(canon_spec(23).name_en@, 0) == first_book_match(canon_spec(23).name_en@, 16),
{
    book_23();
    let k = canon_spec(23).name_en@;
    book_0();
    book_1();
    book_2();
    book_3();
    book_4();
    book_5();
    book_6();
    book_7();
    book_8();
    lemma_not_eq_ic(canon_spec(8).name_en@, k, 0);
    book_9();
    lemma_not_eq_ic(canon_spec(9).name_en@, k, 0);
    book_10();
    book_11();
    book_12();
    book_13();
    book_14();
    book_15();
    lemma_not_eq_ic(canon_spec(15).name_en@, k, 0);
    assert(first_book_match(k, 15) == first_book_match(k, 16));
    assert(first_book_match(k, 14) == first_book_match(k, 16));
    assert(first_book_match(k, 13) == first_book_match(k, 16));
    assert(first_book_match(k, 12) == first_book_match(k, 16));
    assert(first_book_match(k, 11) == first_book_match(k, 16));
    assert(first_book_match(k, 10) == first_book_match(k, 16));
    assert(first_book_match(k, 9) == first_book_match(k, 16));
    assert(first_book_match(k, 8) == first_book_match(k, 16));
    assert(first_book_match(k, 7) == first_book_match(k, 16));
    assert(first_book_match(k, 6) == first_book_match(k, 16));
    assert(first_book_match(k, 5) == first_book_match(k, 16));
    assert(first_book_match(k, 4) == first_book_match(k, 16));
    assert(first_book_match(k, 3) == first_book_match(k, 16));
    assert(first_book_match(k, 2) == first_book_match(k, 16));
    assert(first_book_match(k, 1) == first_book_match(k, 16));
    assert(first_book_match(k, 0) == first_book_match(k, 16));
}

#[verifier::rlimit(40)]
proof fn misses_english_23_16()
    ensures
        first_book_match(canon_spec(23).name_en@, 16) == first_book_match(canon_spec(23).name_en@, 23),
{
    book_23();
    let k = canon_spec(23).name_en@;
    book_16();
    book_17();
    book_18();
    book_19();
    lemma_not_eq_ic(canon_spec(19).name_en@, k, 0);
    book_20();
    book_21();
    book_22();
    assert(first_book_match(k, 22) == first_book_match(k, 23));
    assert(first_book_match(k, 21) == first_book_match(k, 23));
    assert(first_book_match(k, 20) == first_book_match(k, 23));
    assert(first_book_match(k, 19) == first_book_match(k, 23));
    assert(first_book_match(k, 18) == first_book_match(k, 23));
    assert(first_book_match(k, 17) == first_book_match(k, 23));
    assert(first_book_match(k, 16) == first_book_match(k, 23));
}

proof fn found_by_english_23()
    ensures
        lookup_canon_spec(canon_spec(23).name_en@) == Some(canon_spec(23)),
{
    book_23();
    let k = canon_spec(23).name_en@;
    lemma_plain_key(k);
    lemma_not_number(k, 0);
    misses_english_23_0();
    misses_english_23_16();
    assert(first_book_match(k, 23) == Some(23int));
}

#[verifier::rlimit(40)]
proof fn misses_osis_24_0()
    ensures
        first_book_match(canon_spec(24).osis@, 0) == first_book_match(canon_spec(24).osis@, 16),
{
    book_24();
    let k = canon_spec(24).osis@;
    book_0();
    lemma_not_eq_ic(canon_spec(0).osis@, k, 0);
    lemma_not_same(canon_spec(0).name_zh@, k, 0);
    book_1();
    book_2();
    lemma_not_eq_ic(canon_spec(2).osis@, k, 1);
    lemma_not_same(canon_spec(2).name_zh@, k, 0);
    book_3();
    lemma_not_eq_ic(canon_spec(3).osis@, k, 0);
    lemma_not_same(canon_spec(3).name_zh@, k, 0);
    book_4();
    lemma_not_same(canon_spec(4).name_zh@, k, 0);
    book_5();
    book_6();
    lemma_not_same(canon_spec(6).name_zh@, k, 0);
    book_7();
    lemma_not_same(canon_spec(7).name_zh@, k, 0);
    book_8();
    book_9();
    book_10();
    book_11();
    book_12();
    book_13();
    book_14();
    book_15();
    lemma_not_eq_ic(canon_spec(15).osis@, k, 0);
    assert(first_book_match(k, 15) == first_book_match(k, 16));
    assert(first_book_match(k, 14) == first_book_match(k, 16));
    assert(first_book_match(k, 13) == first_book_match(k, 16));
    assert(first_book_match(k, 12) == first_book_match(k, 16));
    assert(first_book_match(k, 11) == first_book_match(k, 16));
    assert(first_book_match(k, 10) == first_book_match(k, 16));
    assert(first_book_match(k, 9) == first_book_match(k, 16));
    assert(first_book_match(k, 8) == first_book_match(k, 16));
    assert(first_book_match(k, 7) == first_book_match(k, 16));
    assert(first_book_match(k, 6) == first_book_match(k, 16));
    assert(first_book_match(k, 5) == first_book_match(k, 16));
    assert(first_book_match(k, 4) == first_book_match(k, 16));
    assert(first_book_match(k, 3) == first_book_match(k, 16));
    assert(first_book_match(k, 2) == first_book_match(k, 16));
    assert(first_book_match(k, 1) == first_book_match(k, 16));
    assert(first_book_match(k, 0) == first_book_match(k, 16));
}

#[verifier::rlimit(40)]
proof fn misses_osis_24_16()
    ensures
        first_book_match(canon_spec(24).osis@, 16) == first_book_match(canon_spec(24).osis@, 24),
{
    book_24();
    let k = canon_spec(24).osis@;
    book_16();
    book_17();
    lemma_not_eq_ic(canon_spec(17).osis@, k, 0);
    lemma_not_same(canon_spec(17).name_zh@, k, 0);
    lemma_not_eq_ic(canon_spec(17).name_en@, k, 0);
    book_18();
    book_19();
    book_20();
    lemma_not_same(canon_spec(20).name_zh@, k, 0);
    book_21();
    book_22();
    lemma_not_eq_ic(canon_spec(22).osis@, k, 0);
    book_23();
    lemma_not_eq_ic(canon_spec(23).osis@, k, 0);
    assert(first_book_match(k, 23) == first_book_match(k, 24));
    assert(first_book_match(k, 22) == first_book_match(k, 24));
    assert(first_book_match(k, 21) == first_book_match(k, 24));
    assert(first_book_match(k, 20) == first_book_match(k, 24));
    assert(first_book_match(k, 19) == first_book_match(k, 24));
    assert(first_book_match(k, 18) == first_book_match(k, 24));
    assert(first_book_match(k, 17) == first_book_match(k, 24));
    assert(first_book_match(k, 16) == first_book_match(k, 24));
}

proof fn found_by_osis_24()
    ensures
        lookup_canon_spec(canon_spec(24).osis@) == Some(canon_spec(24)),
{
    book_24();
    let k = canon_spec(24).osis@;
    lemma_plain_key(k);
    lemma_not_number(k, 0);
    misses_osis_24_0();
    misses_osis_24_16();
    assert(first_book_match(k, 24) == Some(24int));
}

#[verifier::rlimit(40)]
proof fn misses_abbreviation_24_0()
    ensures
        first_book_match(canon_spec(24).name_zh_short@, 0) == first_book_match(canon_spec(24).name_zh_short@, 16),
{
    book_24();
    let k = canon_spec(24).name_zh_short@;
    book_0();
    lemma_not_same(canon_spec(0).name_zh_short@, k, 0);
    book_1();
    lemma_not_same(canon_spec(1).name_zh_short@, k, 0);
    book_2();
    lemma_not_same(canon_spec(2).name_zh_short@, k, 0);
    book_3();
    lemma_not_same(canon_spec(3).name_zh_short@, k, 0);
    book_4();
    lemma_not_same(canon_spec(4).name_zh_short@, k, 0);
    book_5();
    lemma_not_same(canon_spec(5).name_zh_short@, k, 0);
    book_6();
    lemma_not_same(canon_spec(6).name_zh_short@, k, 0);
    book_7();
    lemma_not_same(canon_spec(7).name_zh_short@, k, 0);
    book_8();
    book_9();
    book_10();
    book_11();
    book_12();
    book_13();
    book_14();
    lemma_not_same(canon_spec(14).name_zh_short@, k, 0);
    book_15();
    lemma_not_same(canon_spec(15).name_zh_short@, k, 0);
    assert(first_book_match(k, 15) == first_book_match(k, 16));
    assert(first_book_match(k, 14) == first_book_match(k, 16));
    assert(first_book_match(k, 13) == first_book_match(k, 16));
    assert(first_book_match(k, 12) == first_book_match(k, 16));
    assert(first_book_match(k, 11) == first_book_match(k, 16));
    assert(first_book_match(k, 10) == first_book_match(k, 16));
    assert(first_book_match(k, 9) == first_book_match(k, 16));
    assert(first_book_match(k, 8) == first_book_match(k, 16));
    assert(first_book_match(k, 7) == first_book_match(k, 16));
    assert(first_book_match(k, 6) == first_book_match(k, 16));
    assert(first_book_match(k, 5) == first_book_match(k, 16));
    assert(first_book_match(k, 4) == first_book_match(k, 16));
    assert(first_book_match(k, 3) == first_book_match(k, 16));
    assert(first_book_match(k, 2) == first_book_match(k, 16));
    assert(first_book_match(k, 1) == first_book_match(k, 16));
    assert(first_book_match(k, 0) == first_book_match(k, 16));
}

#[verifier::rlimit(40)]
proof fn misses_abbreviation_24_16()
    ensures
        first_book_match(canon_spec(24).name_zh_short@, 16) == first_book_match(canon_spec(24).name_zh_short@, 24),
{
    book_24();
    let k = canon_spec(24).name_zh_short@;
    book_16();
    lemma_not_same(canon_spec(16).name_zh_short@, k, 0);
    book_17();
    lemma_not_same(canon_spec(17).name_zh_short@, k, 0);
    book_18();
    lemma_not_same(canon_spec(18).name_zh_short@, k, 0);
    book_19();
    lemma_not_same(canon_spec(19).name_zh_short@, k, 0);
    book_20();
    lemma_not_same(canon_spec(20).name_zh_short@, k, 0);
    book_21();
    lemma_not_same(canon_spec(21).name_zh_short@, k, 0);
    book_22();
    lemma_not_same(canon_spec(22).name_zh_short@, k, 0);
    book_23();
    lemma_not_same(canon_spec(23).name_zh_short@, k, 0);
    assert(first_book_match(k, 23) == first_book_match(k, 24));
    assert(first_book_match(k, 22) == first_book_match(k, 24));
    assert(first_book_match(k, 21) == first_book_match(k, 24));
    assert(first_book_match(k, 20) == first_book_match(k, 24));
    assert(first_book_match(k, 19) == first_book_match(k, 24));
    assert(first_book_match(k, 18) == first_book_match(k, 24));
    assert(first_book_match(k, 17) == first_book_match(k, 24));
    assert(first_book_match(k, 16) == first_book_match(k, 24));
}

proof fn found_by_abbreviation_24()
    ensures
        lookup_canon_spec(canon_spec(24).name_zh_short@) == Some(canon_spec(24)),
{
    book_24();
    let k = canon_spec(24).name_zh_short@;
    lemma_plain_key(k);
    lemma_not_number(k, 0);
    misses_abbreviation_24_0();
    misses_abbreviation_24_16();
    assert(first_book_match(k, 24) == Some(24int));
}

#[verifier::rlimit(40)]
proof fn misses_english_24_0()
    ensures
        first_book_match(canon_spec(24).name_en@, 0) == first_book_match(canon_spec(24).name_en@, 16),
{
    book_24();
    let k = canon_spec(24).name_en@;
    book_0();
    book_1();
    book_2();
    book_3();
    book_4();
    book_5();
    book_6();
    book_7();
    book_8();
    book_9();
    book_10();
    book_11();
    book_12();
    lemma_not_eq_ic(canon_spec(12).name_en@, k, 0);
    book_13();
    lemma_not_eq_ic(canon_spec(13).name_en@, k, 0);
    book_14();
    book_15();
    assert(first_book_match(k, 15) == first_book_match(k, 16));
    assert(first_book_match(k, 14) == first_book_match(k, 16));
    assert(first_book_match(k, 13) == first_book_match(k, 16));
    assert(first_book_match(k, 12) == first_book_match(k, 16));
    assert(first_book_match(k, 11) == first_book_match(k, 16));
    assert(first_book_match(k, 10) == first_book_match(k, 16));
    assert(first_book_match(k, 9) == first_book_match(k, 16));
    assert(first_book_match(k, 8) == first_book_match(k, 16));
    assert(first_book_match(k, 7) == first_book_match(k, 16));
    assert(first_book_match(k, 6) == first_book_match(k, 16));
    assert(first_book_match(k, 5) == first_book_match(k, 16));
    assert(first_book_match(k, 4) == first_book_match(k, 16));
    assert(first_book_match(k, 3) == first_book_match(k, 16));
    assert(first_book_match(k, 2) == first_book_match(k, 16));
    assert(first_book_match(k, 1) == first_book_match(k, 16));
    assert(first_book_match(k, 0) == first_book_match(k, 16));
}

#[verifier::rlimit(40)]
proof fn misses_english_24_16()
    ensures
        first_book_match(canon_spec(24).name_en@, 16) == first_book_match(canon_spec(24).name_en@, 24),
{
    book_24();
    let k = canon_spec(24).name_en@;
    book_16();
    book_17();
    book_18();
    book_19();
    book_20();
    lemma_not_eq_ic(canon_spec(20).name_en@, k, 0);
    book_21();
    book_22();
    book_23();
    assert(first_book_match(k, 23) == first_book_match(k, 24));
    assert(first_book_match(k, 22) == first_book_match(k, 24));
    assert(first_book_match(k, 21) == first_book_match(k, 24));
    assert(first_book_match(k, 20) == first_book_match(k, 24));
    assert(first_book_match(k, 19) == first_book_match(k, 24));
    assert(first_book_match(k, 18) == first_book_match(k, 24));
    assert(first_book_match(k, 17) == first_book_match(k, 24));
    assert(first_book_match(k, 16) == first_book_match(k, 24));
}

proof fn found_by_english_24()
    ensures
        lookup_canon_spec(canon_spec(24).name_en@) == Some(canon_spec(24)),
{
    book_24();
    let k = canon_spec(24).name_en@;
    lemma_plain_key(k);
    lemma_not_number(k, 0);
    misses_english_24_0();
    misses_english_24_16();
    assert(first_book_match(k, 24) == Some(24int));
}

#[verifier::rlimit(40)]
proof fn misses_osis_25_0()
    ensures
        first_book_match(canon_spec(25).osis@, 0) == first_book_match(canon_spec(25).osis@, 16),
{
    book_25();
    let k = canon_spec(25).osis@;
    book_0();
    book_1();
    lemma_not_eq_ic(canon_spec(1).osis@, k, 1);
    lemma_not_same(canon_spec(1).name_zh@, k, 0);
    book_2();
    book_3();
    book_4();
    lemma_not_eq_ic(canon_spec(4).osis@, k, 0);
    book_5();
    lemma_not_eq_ic(canon_spec(5).osis@, k, 0);
    lemma_not_same(canon_spec(5).name_zh@, k, 0);
    book_6();
    lemma_not_eq_ic(canon_spec(6).osis@, k, 0);
    book_7();
    lemma_not_eq_ic(canon_spec(7).osis@, k, 0);
    lemma_not_eq_ic(canon_spec(7).name_en@, k, 0);
    book_8();
    lemma_not_eq_ic(canon_spec(8).osis@, k, 0);
    book_9();
    lemma_not_eq_ic(canon_spec(9).osis@, k, 0);
    book_10();
    lemma_not_eq_ic(canon_spec(10).osis@, k, 0);
    lemma_not_same(canon_spec(10).name_zh@, k, 0);
    book_11();
    lemma_not_eq_ic(canon_spec(11).osis@, k, 0);
    lemma_not_same(canon_spec(11).name_zh@, k, 0);
    book_12();
    lemma_not_eq_ic(canon_spec(12).osis@, k, 0);
    lemma_not_same(canon_spec(12).name_zh@, k, 0);
    book_13();
    lemma_not_eq_ic(canon_spec(13).osis@, k, 0);
    lemma_not_same(canon_spec(13).name_zh@, k, 0);
    book_14();
    lemma_not_eq_ic(canon_spec(14).osis@, k, 2);
    lemma_not_same(canon_spec(14).name_zh@, k, 0);
    lemma_not_eq_ic(canon_spec(14).name_en@, k, 2);
    book_15();
    lemma_not_same(canon_spec(15).name_zh@, k, 0);
    assert(first_book_match(k, 15) == first_book_match(k, 16));
    assert(first_book_match(k, 14) == first_book_match(k, 16));
    assert(first_book_match(k, 13) == first_book_match(k, 16));
    assert(first_book_match(k, 12) == first_book_match(k, 16));
    assert(first_book_match(k, 11) == first_book_match(k, 16));
    assert(first_book_match(k, 10) == first_book_match(k, 16));
    assert(first_book_match(k, 9) == first_book_match(k, 16));
    assert(first_book_match(k, 8) == first_book_match(k, 16));
    assert(first_book_match(k, 7) == first_book_match(k, 16));
    assert(first_book_match(k, 6) == first_book_match(k, 16));
    assert(first_book_match(k, 5) == first_book_match(k, 16));
    assert(first_book_match(k, 4) == first_book_match(k, 16));
    assert(first_book_match(k, 3) == first_book_match(k, 16));
    assert(first_book_match(k, 2) == first_book_match(k, 16));
    assert(first_book_match(k, 1) == first_book_match(k, 16));
    assert(first_book_match(k, 0) == first_book_match(k, 16));
}

#[verifier::rlimit(40)]
proof fn misses_osis_25_16()
    ensures
        first_book_match(canon_spec(25).osis@, 16) == first_book_match(canon_spec(25).osis@, 25),
{
    book_25();
    let k = canon_spec(25).osis@;
    book_16();
    lemma_not_eq_ic(canon_spec(16).osis@, k, 1);
    lemma_not_same(canon_spec(16).name_zh@, k, 0);
    book_17();
    book_18();
    book_19();
    lemma_not_eq_ic(canon_spec(19).osis@, k, 0);
    book_20();
    lemma_not_eq_ic(canon_spec(20).osis@, k, 1);
    book_21();
    lemma_not_eq_ic(canon_spec(21).osis@, k, 0);
    book_22();
    lemma_not_same(canon_spec(22).name_zh@, k, 0);
    book_23();
    lemma_not_same(canon_spec(23).name_zh@, k, 0);
    book_24();
    assert(first_book_match(k, 24) == first_book_match(k, 25));
    assert(first_book_match(k, 23) == first_book_match(k, 25));
    assert(first_book_match(k, 22) == first_book_match(k, 25));
    assert(first_book_match(k, 21) == first_book_match(k, 25));
    assert(first_book_match(k, 20) == first_book_match(k, 25));
    assert(first_book_match(k, 19) == first_book_match(k, 25));
    assert(first_book_match(k, 18) == first_book_match(k, 25));
    assert(first_book_match(k, 17) == first_book_match(k, 25));
    assert(first_book_match(k, 16) == first_book_match(k, 25));
}

proof fn found_by_osis_25()
    ensures
        lookup_canon_spec(canon_spec(25).osis@) == Some(canon_spec(25)),
{
    book_25();
    let k = canon_spec(25).osis@;
    lemma_plain_key(k);
    lemma_not_number(k, 0);
    misses_osis_25_0();
    misses_osis_25_16();
    assert(first_book_match(k, 25) == Some(25int));
}

#[verifier::rlimit(40)]
proof fn misses_abbreviation_25_0()
    ensures
        first_book_match(canon_spec(25).name_zh_short@, 0) == first_book_match(canon_spec(25).name_zh_short@, 16),
{
    book_25();
    let k = canon_spec(25).name_zh_short@;
    book_0();
    lemma_not_same(canon_spec(0).name_zh_short@, k, 0);
    book_1();
    lemma_not_same(canon_spec(1).name_zh_short@, k, 0);
    book_2();
    lemma_not_same(canon_spec(2).name_zh_short@, k, 0);
    book_3();
    lemma_not_same(canon_spec(3).name_zh_short@, k, 0);
    book_4();
    lemma_not_same(canon_spec(4).name_zh_short@, k, 0);
    book_5();
    lemma_not_same(canon_spec(5).name_zh_short@, k, 0);
    book_6();
    lemma_not_same(canon_spec(6).name_zh_short@, k, 0);
    book_7();
    lemma_not_same(canon_spec(7).name_zh_short@, k, 0);
    book_8();
    book_9();
    book_10();
    book_11();
    book_12();
    book_13();
    book_14();
    lemma_not_same(canon_spec(14).name_zh_short@, k, 0);
    book_15();
    lemma_not_same(canon_spec(15).name_zh_short@, k, 0);
    assert(first_book_match(k, 15) == first_book_match(k, 16));
    assert(first_book_match(k, 14) == first_book_match(k, 16));
    assert(first_book_match(k, 13) == first_book_match(k, 16));
    assert(first_book_match(k, 12) == first_book_match(k, 16));
    assert(first_book_match(k, 11) == first_book_match(k, 16));
    assert(first_book_match(k, 10) == first_book_match(k, 16));
    assert(first_book_match(k, 9) == first_book_match(k, 16));
    assert(first_book_match(k, 8) == first_book_match(k, 16));
    assert(first_book_match(k, 7) == first_book_match(k, 16));
    assert(first_book_match(k, 6) == first_book_match(k, 16));
    assert(first_book_match(k, 5) == first_book_match(k, 16));
    assert(first_book_match(k, 4) == first_book_match(k, 16));
    assert(first_book_match(k, 3) == first_book_match(k, 16));
    assert(first_book_match(k, 2) == first_book_match(k, 16));
    assert(first_book_match(k, 1) == first_book_match(k, 16));
    assert(first_book_match(k, 0) == first_book_match(k, 16));
}

#[verifier::rlimit(40)]
proof fn misses_abbreviation_25_16()
    ensures
        first_book_match(canon_spec(25).name_zh_short@, 16) == first_book_match(canon_spec(25).name_zh_short@, 25),
{
    book_25();
    let k = canon_spec(25).name_zh_short@;
    book_16();
    lemma_not_same(canon_spec(16).name_zh_short@, k, 0);
    book_17();
    lemma_not_same(canon_spec(17).name_zh_short@, k, 0);
    book_18();
    lemma_not_same(canon_spec(18).name_zh_short@, k, 0);
    book_19();
    lemma_not_same(canon_spec(19).name_zh_short@, k, 0);
    book_20();
    lemma_not_same(canon_spec(20).name_zh_short@, k, 0);
    book_21();
    lemma_not_same(canon_spec(21).name_zh_short@, k, 0);
    book_22();
    lemma_not_same(canon_spec(22).name_zh_short@, k, 0);
    book_23();
    lemma_not_same(canon_spec(23).name_zh_short@, k, 0);
    book_24();
    lemma_not_same(canon_spec(24).name_zh_short@, k, 0);
    assert(first_book_match(k, 24) == first_book_match(k, 25));
    assert(first_book_match(k, 23) == first_book_match(k, 25));
    assert(first_book_match(k, 22) == first_book_match(k, 25));
    assert(first_book_match(k, 21) == first_book_match(k, 25));
    assert(first_book_match(k, 20) == first_book_match(k, 25));
    assert(first_book_match(k, 19) == first_book_match(k, 25));
    assert(first_book_match(k, 18) == first_book_match(k, 25));
    assert(first_book_match(k, 17) == first_book_match(k, 25));
    assert(first_book_match(k, 16) == first_book_match(k, 25));
}

proof fn found_by_abbreviation_25()
    ensures
        lookup_canon_spec(canon_spec(25).name_zh_short@) == Some(canon_spec(25)),
{
    book_25();
    let k = canon_spec(25).name_zh_short@;
    lemma_plain_key(k);
    lemma_not_number(k, 0);
    misses_abbreviation_25_0();
    misses_abbreviation_25_16();
    assert(first_book_match(k, 25) == Some(25int));
}

#[verifier::rlimit(40)]
proof fn misses_english_25_0()
    ensures
        first_book_match(canon_spec(25).name_en@, 0) == first_book_match(canon_spec(25).name_en@, 16),
{
    book_25();
    let k = canon_spec(25).name_en@;
    book_0();
    lemma_not_eq_ic(canon_spec(0).name_en@, k, 0);
    book_1();
    book_2();
    book_3();
    lemma_not_eq_ic(canon_spec(3).name_en@, k, 0);
    book_4();
    book_5();
    book_6();
    book_7();
    book_8();
    book_9();
    book_10();
    lemma_not_eq_ic(canon_spec(10).name_en@, k, 0);
    book_11();
    lemma_not_eq_ic(canon_spec(11).name_en@, k, 0);
    book_12();
    book_13();
    book_14();
    book_15();
    assert(first_book_match(k, 15) == first_book_match(k, 16));
    assert(first_book_match(k, 14) == first_book_match(k, 16));
    assert(first_book_match(k, 13) == first_book_match(k, 16));
    assert(first_book_match(k, 12) == first_book_match(k, 16));
    assert(first_book_match(k, 11) == first_book_match(k, 16));
    assert(first_book_match(k, 10) == first_book_match(k, 16));
    assert(first_book_match(k, 9) == first_book_match(k, 16));
    assert(first_book_match(k, 8) == first_book_match(k, 16));
    assert(first_book_match(k, 7) == first_book_match(k, 16));
    assert(first_book_match(k, 6) == first_book_match(k, 16));
    assert(first_book_match(k, 5) == first_book_match(k, 16));
    assert(first_book_match(k, 4) == first_book_match(k, 16));
    assert(first_book_match(k, 3) == first_book_match(k, 16));
    assert(first_book_match(k, 2) == first_book_match(k, 16));
    assert(first_book_match(k, 1) == first_book_match(k, 16));
    assert(first_book_match(k, 0) == first_book_match(k, 16));
}

#[verifier::rlimit(40)]
proof fn misses_english_25_16()
    ensures
        first_book_match(canon_spec(25).name_en@, 16) == first_book_match(canon_spec(25).name_en@, 25),
{
    book_25();
    let k = canon_spec(25).name_en@;
    book_16();
    book_17();
    book_18();
    book_19();
    book_20();
    book_21();
    book_22();
    book_23();
    book_24();
    assert(first_book_match(k, 24) == first_book_match(k, 25));
    assert(first_book_match(k, 23) == first_book_match(k, 25));
    assert(first_book_match(k, 22) == first_book_match(k, 25));
    assert(first_book_match(k, 21) == first_book_match(k, 25));
    assert(first_book_match(k, 20) == first_book_match(k, 25));
    assert(first_book_match(k, 19) == first_book_match(k, 25));
    assert(first_book_match(k, 18) == first_book_match(k, 25));
    assert(first_book_match(k, 17) == first_book_match(k, 25));
    assert(first_book_match(k, 16) == first_book_match(k, 25));
}

proof fn found_by_english_25()
    ensures
        lookup_canon_spec(canon_spec(25).name_en@) == Some(canon_spec(25)),
{
    book_25();
    let k = canon_spec(25).name_en@;
    lemma_plain_key(k);
    lemma_not_number(k, 0);
    misses_english_25_0();
    misses_english_25_16();
    assert(first_book_match(k, 25) == Some(25int));
}

#[verifier::rlimit(40)]
proof fn misses_osis_26_0()
    ensures
        first_book_match(canon_spec(26).osis@, 0) == first_book_match(canon_spec(26).osis@, 16),
{
    book_26();
    let k = canon_spec(26).osis@;
    book_0();
    lemma_not_eq_ic(canon_spec(0).osis@, k, 0);
    lemma_not_same(canon_spec(0).name_zh@, k, 0);
    book_1();
    book_2();
    lemma_not_eq_ic(canon_spec(2).osis@, k, 0);
    lemma_not_same(canon_spec(2).name_zh@, k, 0);
    book_3();
    lemma_not_eq_ic(canon_spec(3).osis@, k, 0);
    lemma_not_same(canon_spec(3).name_zh@, k, 0);
    book_4();
    lemma_not_same(canon_spec(4).name_zh@, k, 0);
    book_5();
    book_6();
    lemma_not_same(canon_spec(6).name_zh@, k, 0);
    book_7();
    lemma_not_same(canon_spec(7).name_zh@, k, 0);
    book_8();
    book_9();
    book_10();
    book_11();
    book_12();
    book_13();
    book_14();
    book_15();
    lemma_not_eq_ic(canon_spec(15).osis@, k, 0);
    assert(first_book_match(k, 15) == first_book_match(k, 16));
    assert(first_book_match(k, 14) == first_book_match(k, 16));
    assert(first_book_match(k, 13) == first_book_match(k, 16));
    assert(first_book_match(k, 12) == first_book_match(k, 16));
    assert(first_book_match(k, 11) == first_book_match(k, 16));
    assert(first_book_match(k, 10) == first_book_match(k, 16));
    assert(first_book_match(k, 9) == first_book_match(k, 16));
    assert(first_book_match(k, 8) == first_book_match(k, 16));
    assert(first_book_match(k, 7) == first_book_match(k, 16));
    assert(first_book_match(k, 6) == first_book_match(k, 16));
    assert(first_book_match(k, 5) == first_book_match(k, 16));
    assert(first_book_match(k, 4) == first_book_match(k, 16));
    assert(first_book_match(k, 3) == first_book_match(k, 16));
    assert(first_book_match(k, 2) == first_book_match(k, 16));
    assert(first_book_match(k, 1) == first_book_match(k, 16));
    assert(first_book_match(k, 0) == first_book_match(k, 16));
}

#[verifier::rlimit(40)]
proof fn misses_osis_26_16()
    ensures
        first_book_match(canon_spec(26).osis@, 16) == first_book_match(canon_spec(26).osis@, 26),
{
    book_26();
    let k = canon_spec(26).osis@;
    book_16();
    book_17();
    lemma_not_eq_ic(canon_spec(17).osis@, k, 0);
    lemma_not_same(canon_spec(17).name_zh@, k, 0);
    lemma_not_eq_ic(canon_spec(17).name_en@, k, 0);
    book_18();
    book_19();
    book_20();
    lemma_not_same(canon_spec(20).name_zh@, k, 0);
    book_21();
    book_22();
    lemma_not_eq_ic(canon_spec(22).osis@, k, 0);
    book_23();
    lemma_not_eq_ic(canon_spec(23).osis@, k, 0);
    book_24();
    lemma_not_eq_ic(canon_spec(24).osis@, k, 0);
    book_25();
    assert(first_book_match(k, 25) == first_book_match(k, 26));
    assert(first_book_match(k, 24) == first_book_match(k, 26));
    assert(first_book_match(k, 23) == first_book_match(k, 26));
    assert(first_book_match(k, 22) == first_book_match(k, 26));
    assert(first_book_match(k, 21) == first_book_match(k, 26));
    assert(first_book_match(k, 20) == first_book_match(k, 26));
    assert(first_book_match(k, 19) == first_book_match(k, 26));
    assert(first_book_match(k, 18) == first_book_match(k, 26));
    assert(first_book_match(k, 17) == first_book_match(k, 26));
    assert(first_book_match(k, 16) == first_book_match(k, 26));
}

proof fn found_by_osis_26()
    ensures
        lookup_canon_spec(canon_spec(26).osis@) == Some(canon_spec(26)),
{
    book_26();
    let k = canon_spec(26).osis@;
    lemma_plain_key(k);
    lemma_not_number(k, 0);
    misses_osis_26_0();
    misses_osis_26_16();
    assert(first_book_match(k, 26) == Some(26int));
}

#[verifier::rlimit(40)]
proof fn misses_abbreviation_26_0()
    ensures
        first_book_match(canon_spec(26).name_zh_short@, 0) == first_book_match(canon_spec(26).name_zh_short@, 16),
{
    book_26();
    let k = canon_spec(26).name_zh_short@;
    book_0();
    lemma_not_same(canon_spec(0).name_zh_short@, k, 0);
    book_1();
    lemma_not_same(canon_spec(1).name_zh_short@, k, 0);
    book_2();
    lemma_not_same(canon_spec(2).name_zh_short@, k, 0);
    book_3();
    lemma_not_same(canon_spec(3).name_zh_short@, k, 0);
    book_4();
    lemma_not_same(canon_spec(4).name_zh_short@, k, 0);
    book_5();
    lemma_not_same(canon_spec(5).name_zh_short@, k, 0);
    book_6();
    lemma_not_same(canon_spec(6).name_zh_short@, k, 0);
    book_7();
    lemma_not_same(canon_spec(7).name_zh_short@, k, 0);
    book_8();
    book_9();
    book_10();
    book_11();
    book_12();
    book_13();
    book_14();
    lemma_not_same(canon_spec(14).name_zh_short@, k, 0);
    book_15();
    lemma_not_same(canon_spec(15).name_zh_short@, k, 0);
    assert(first_book_match(k, 15) == first_book_match(k, 16));
    assert(first_book_match(k, 14) == first_book_match(k, 16));
    assert(first_book_match(k, 13) == first_book_match(k, 16));
    assert(first_book_match(k, 12) == first_book_match(k, 16));
    assert(first_book_match(k, 11) == first_book_match(k, 16));
    assert(first_book_match(k, 10) == first_book_match(k, 16));
    assert(first_book_match(k, 9) == first_book_match(k, 16));
    assert(first_book_match(k, 8) == first_book_match(k, 16));
    assert(first_book_match(k, 7) == first_book_match(k, 16));
    assert(first_book_match(k, 6) == first_book_match(k, 16));
    assert(first_book_match(k, 5) == first_book_match(k, 16));
    assert(first_book_match(k, 4) == first_book_match(k, 16));
    assert(first_book_match(k, 3) == first_book_match(k, 16));
    assert(first_book_match(k, 2) == first_book_match(k, 16));
    assert(first_book_match(k, 1) == first_book_match(k, 16));
    assert(first_book_match(k, 0) == first_book_match(k, 16));
}

#[verifier::rlimit(40)]
proof fn misses_abbreviation_26_16()
    ensures
        first_book_match(canon_spec(26).name_zh_short@, 16) == first_book_match(canon_spec(26).name_zh_short@, 26),
{
    book_26();
    let k = canon_spec(26).name_zh_short@;
    book_16();
    lemma_not_same(canon_spec(16).name_zh_short@, k, 0);
    book_17();
    lemma_not_same(canon_spec(17).name_zh_short@, k, 0);
    book_18();
    lemma_not_same(canon_spec(18).name_zh_short@, k, 0);
    book_19();
    lemma_not_same(canon_spec(19).name_zh_short@, k, 0);
    book_20();
    lemma_not_same(canon_spec(20).name_zh_short@, k, 0);
    book_21();
    lemma_not_same(canon_spec(21).name_zh_short@, k, 0);
    book_22();
    lemma_not_same(canon_spec(22).name_zh_short@, k, 0);
    book_23();
    lemma_not_same(canon_spec(23).name_zh_short@, k, 0);
    book_24();
    lemma_not_same(canon_spec(24).name_zh_short@, k, 0);
    book_25();
    lemma_not_same(canon_spec(25).name_zh_short@, k, 0);
    assert(first_book_match(k, 25) == first_book_match(k, 26));
    assert(first_book_match(k, 24) == first_book_match(k, 26));
    assert(first_book_match(k, 23) == first_book_match(k, 26));
    assert(first_book_match(k, 22) == first_book_match(k, 26));
    assert(first_book_match(k, 21) == first_book_match(k, 26));
    assert(first_book_match(k, 20) == first_book_match(k, 26));
    assert(first_book_match(k, 19) == first_book_match(k, 26));
    assert(first_book_match(k, 18) == first_book_match(k, 26));
    assert(first_book_match(k, 17) == first_book_match(k, 26));
    assert(first_book_match(k, 16) == first_book_match(k, 26));
}

proof fn found_by_abbreviation_26()
    ensures
        lookup_canon_spec(canon_spec(26).name_zh_short@) == Some(canon_spec(26)),
{
    book_26();
    let k = canon_spec(26).name_zh_short@;
    lemma_plain_key(k);
    lemma_not_number(k, 0);
    misses_abbreviation_26_0();
    misses_abbreviation_26_16();
    assert(first_book_match(k, 26) == Some(26int));
}

#[verifier::rlimit(40)]
proof fn misses_english_26_0()
    ensures
        first_book_match(canon_spec(26).name_en@, 0) == first_book_match(canon_spec(26).name_en@, 16),
{
    book_26();
    let k = canon_spec(26).name_en@;
    book_0();
    book_1();
    lemma_not_eq_ic(canon_spec(1).name_en@, k, 0);
    book_2();
    book_3();
    book_4();
    book_5();
    lemma_not_eq_ic(canon_spec(5).name_en@, k, 0);
    book_6();
    lemma_not_eq_ic(canon_spec(6).name_en@, k, 0);
    book_7();
    book_8();
    book_9();
    book_10();
    book_11();
    book_12();
    book_13();
    book_14();
    book_15();
    assert(first_book_match(k, 15) == first_book_match(k, 16));
    assert(first_book_match(k, 14) == first_book_match(k, 16));
    assert(first_book_match(k, 13) == first_book_match(k, 16));
    assert(first_book_match(k, 12) == first_book_match(k, 16));
    assert(first_book_match(k, 11) == first_book_match(k, 16));
    assert(first_book_match(k, 10) == first_book_match(k, 16));
    assert(first_book_match(k, 9) == first_book_match(k, 16));
    assert(first_book_match(k, 8) == first_book_match(k, 16));
    assert(first_book_match(k, 7) == first_book_match(k, 16));
    assert(first_book_match(k, 6) == first_book_match(k, 16));
    assert(first_book_match(k, 5) == first_book_match(k, 16));
    assert(first_book_match(k, 4) == first_book_match(k, 16));
    assert(first_book_match(k, 3) == first_book_match(k, 16));
    assert(first_book_match(k, 2) == first_book_match(k, 16));
    assert(first_book_match(k, 1) == first_book_match(k, 16));
    assert(first_book_match(k, 0) == first_book_match(k, 16));
}

#[verifier::rlimit(40)]
proof fn misses_english_26_16()
    ensures
        first_book_match(canon_spec(26).name_en@, 16) == first_book_match(canon_spec(26).name_en@, 26),
{
    book_26();
    let k = canon_spec(26).name_en@;
    book_16();
    lemma_not_eq_ic(canon_spec(16).name_en@, k, 0);
    book_17();
    book_18();
    lemma_not_eq_ic(canon_spec(18).name_en@, k, 0);
    book_19();
    book_20();
    book_21();
    book_22();
    lemma_not_eq_ic(canon_spec(22).name_en@, k, 0);
    book_23();
    book_24();
    book_25();
    assert(first_book_match(k, 25) == first_book_match(k, 26));
    assert(first_book_match(k, 24) == first_book_match(k, 26));
    assert(first_book_match(k, 23) == first_book_match(k, 26));
    assert(first_book_match(k, 22) == first_book_match(k, 26));
    assert(first_book_match(k, 21) == first_book_match(k, 26));
    assert(first_book_match(k, 20) == first_book_match(k, 26));
    assert(first_book_match(k, 19) == first_book_match(k, 26));
    assert(first_book_match(k, 18) == first_book_match(k, 26));
    assert(first_book_match(k, 17) == first_book_match(k, 26));
    assert(first_book_match(k, 16) == first_book_match(k, 26));
}

proof fn found_by_english_26()
    ensures
        lookup_canon_spec(canon_spec(26).name_en@) == Some(canon_spec(26)),
{
    book_26();
    let k = canon_spec(26).name_en@;
    lemma_plain_key(k);
    lemma_not_number(k, 0);
    misses_english_26_0();
    misses_english_26_16();
    assert(first_book_match(k, 26) == Some(26int));
}

#[verifier::rlimit(40)]
proof fn misses_osis_27_0()
    ensures
        first_book_match(canon_spec(27).osis@, 0) == first_book_match(canon_spec(27).osis@, 16),
{
    book_27();
    let k = canon_spec(27).osis@;
    book_0();
    lemma_not_eq_ic(canon_spec(0).osis@, k, 0);
    lemma_not_same(canon_spec(0).name_zh@, k, 0);
    book_1();
    book_2();
    lemma_not_eq_ic(canon_spec(2).osis@, k, 0);
    lemma_not_same(canon_spec(2).name_zh@, k, 0);
    book_3();
    lemma_not_eq_ic(canon_spec(3).osis@, k, 0);
    lemma_not_same(canon_spec(3).name_zh@, k, 0);
    book_4();
    lemma_not_same(canon_spec(4).name_zh@, k, 0);
    book_5();
    book_6();
    lemma_not_same(canon_spec(6).name_zh@, k, 0);
    book_7();
    lemma_not_same(canon_spec(7).name_zh@, k, 0);
    book_8();
    book_9();
    book_10();
    book_11();
    book_12();
    book_13();
    book_14();
    book_15();
    lemma_not_eq_ic(canon_spec(15).osis@, k, 0);
    assert(first_book_match(k, 15) == first_book_match(k, 16));
    assert(first_book_match(k, 14) == first_book_match(k, 16));
    assert(first_book_match(k, 13) == first_book_match(k, 16));
    assert(first_book_match(k, 12) == first_book_match(k, 16));
    assert(first_book_match(k, 11) == first_book_match(k, 16));
    assert(first_book_match(k, 10) == first_book_match(k, 16));
    assert(first_book_match(k, 9) == first_book_match(k, 16));
    assert(first_book_match(k, 8) == first_book_match(k, 16));
    assert(first_book_match(k, 7) == first_book_match(k, 16));
    assert(first_book_match(k, 6) == first_book_match(k, 16));
    assert(first_book_match(k, 5) == first_book_match(k, 16));
    assert(first_book_match(k, 4) == first_book_match(k, 16));
    assert(first_book_match(k, 3) == first_book_match(k, 16));
    assert(first_book_match(k, 2) == first_book_match(k, 16));
    assert(first_book_match(k, 1) == first_book_match(k, 16));
    assert(first_book_match(k, 0) == first_book_match(k, 16));
}

#[verifier::rlimit(40)]
proof fn misses_osis_27_16()
    ensures
        first_book_match(canon_spec(27).osis@, 16) == first_book_match(canon_spec(27).osis@, 27),
{
    book_27();
    let k = canon_spec(27).osis@;
    book_16();
    book_17();
    lemma_not_eq_ic(canon_spec(17).osis@, k, 0);
    lemma_not_same(canon_spec(17).name_zh@, k, 0);
    lemma_not_eq_ic(canon_spec(17).name_en@, k, 0);
    book_18();
    book_19();
    book_20();
    lemma_not_same(canon_spec(20).name_zh@, k, 0);
    book_21();
    book_22();
    lemma_not_eq_ic(canon_spec(22).osis@, k, 0);
    book_23();
    lemma_not_eq_ic(canon_spec(23).osis@, k, 0);
    book_24();
    lemma_not_eq_ic(canon_spec(24).osis@, k, 0);
    book_25();
    book_26();
    lemma_not_eq_ic(canon_spec(26).osis@, k, 0);
    assert(first_book_match(k, 26) == first_book_match(k, 27));
    assert(first_book_match(k, 25) == first_book_match(k, 27));
    assert(first_book_match(k, 24) == first_book_match(k, 27));
    assert(first_book_match(k, 23) == first_book_match(k, 27));
    assert(first_book_match(k, 22) == first_book_match(k, 27));
    assert(first_book_match(k, 21) == first_book_match(k, 27));
    assert(first_book_match(k, 20) == first_book_match(k, 27));
    assert(first_book_match(k, 19) == first_book_match(k, 27));
    assert(first_book_match(k, 18) == first_book_match(k, 27));
    assert(first_book_match(k, 17) == first_book_match(k, 27));
    assert(first_book_match(k, 16) == first_book_match(k, 27));
}

proof fn found_by_osis_27()
    ensures
        lookup_canon_spec(canon_spec(27).osis@) == Some(canon_spec(27)),
{
    book_27();
    let k = canon_spec(27).osis@;
    lemma_plain_key(k);
    lemma_not_number(k, 0);
    misses_osis_27_0();
    misses_osis_27_16();
    assert(first_book_match(k, 27) == Some(27int));
}

#[verifier::rlimit(40)]
proof fn misses_abbreviation_27_0()
    ensures
        first_book_match(canon_spec(27).name_zh_short@, 0) == first_book_match(canon_spec(27).name_zh_short@, 16),
{
    book_27();
    let k = canon_spec(27).name_zh_short@;
    book_0();
    lemma_not_same(canon_spec(0).name_zh_short@, k, 0);
    book_1();
    lemma_not_same(canon_spec(1).name_zh_short@, k, 0);
    book_2();
    lemma_not_same(canon_spec(2).name_zh_short@, k, 0);
    book_3();
    lemma_not_same(canon_spec(3).name_zh_short@, k, 0);
    book_4();
    lemma_not_same(canon_spec(4).name_zh_short@, k, 0);
    book_5();
    lemma_not_same(canon_spec(5).name_zh_short@, k, 0);
    book_6();
    lemma_not_same(canon_spec(6).name_zh_short@, k, 0);
    book_7();
    lemma_not_same(canon_spec(7).name_zh_short@, k, 0);
    book_8();
    book_9();
    book_10();
    book_11();
    book_12();
    book_13();
    book_14();
    lemma_not_same(canon_spec(14).name_zh_short@, k, 0);
    book_15();
    lemma_not_same(canon_spec(15).name_zh_short@, k, 0);
    assert(first_book_match(k, 15) == first_book_match(k, 16));
    assert(first_book_match(k, 14) == first_book_match(k, 16));
    assert(first_book_match(k, 13) == first_book_match(k, 16));
    assert(first_book_match(k, 12) == first_book_match(k, 16));
    assert(first_book_match(k, 11) == first_book_match(k, 16));
    assert(first_book_match(k, 10) == first_book_match(k, 16));
    assert(first_book_match(k, 9) == first_book_match(k, 16));
    assert(first_book_match(k, 8) == first_book_match(k, 16));
    assert(first_book_match(k, 7) == first_book_match(k, 16));
    assert(first_book_match(k, 6) == first_book_match(k, 16));
    assert(first_book_match(k, 5) == first_book_match(k, 16));
    assert(first_book_match(k, 4) == first_book_match(k, 16));
    assert(first_book_match(k, 3) == first_book_match(k, 16));
    assert(first_book_match(k, 2) == first_book_match(k, 16));
    assert(first_book_match(k, 1) == first_book_match(k, 16));
    assert(first_book_match(k, 0) == first_book_match(k, 16));
}

#[verifier::rlimit(40)]
proof fn misses_abbreviation_27_16()
    ensures
        first_book_match(canon_spec(27).name_zh_short@, 16) == first_book_match(canon_spec(27).name_zh_short@, 27),
{
    book_27();
    let k = canon_spec(27).name_zh_short@;
    book_16();
    lemma_not_same(canon_spec(16).name_zh_short@, k, 0);
    book_17();
    lemma_not_same(canon_spec(17).name_zh_short@, k, 0);
    book_18();
    lemma_not_same(canon_spec(18).name_zh_short@, k, 0);
    book_19();
    lemma_not_same(canon_spec(19).name_zh_short@, k, 0);
    book_20();
    lemma_not_same(canon_spec(20).name_zh_short@, k, 0);
    book_21();
    lemma_not_same(canon_spec(21).name_zh_short@, k, 0);
    book_22();
    lemma_not_same(canon_spec(22).name_zh_short@, k, 0);
    book_23();
    lemma_not_same(canon_spec(23).name_zh_short@, k, 0);
    book_24();
    lemma_not_same(canon_spec(24).name_zh_short@, k, 0);
    book_25();
    lemma_not_same(canon_spec(25).name_zh_short@, k, 0);
    book_26();
    lemma_not_same(canon_spec(26).name_zh_short@, k, 0);
    assert(first_book_match(k, 26) == first_book_match(k, 27));
    assert(first_book_match(k, 25) == first_book_match(k, 27));
    assert(first_book_match(k, 24) == first_book_match(k, 27));
    assert(first_book_match(k, 23) == first_book_match(k, 27));
    assert(first_book_match(k, 22) == first_book_match(k, 27));
    assert(first_book_match(k, 21) == first_book_match(k, 27));
    assert(first_book_match(k, 20) == first_book_match(k, 27));
    assert(first_book_match(k, 19) == first_book_match(k, 27));
    assert(first_book_match(k, 18) == first_book_match(k, 27));
    assert(first_book_match(k, 17) == first_book_match(k, 27));
    assert(first_book_match(k, 16) == first_book_match(k, 27));
}

proof fn found_by_abbreviation_27()
    ensures
        lookup_canon_spec(canon_spec(27).name_zh_short@) == Some(canon_spec(27)),
{
    book_27();
    let k = canon_spec(27).name_zh_short@;
    lemma_plain_key(k);
    lemma_not_number(k, 0);
    misses_abbreviation_27_0();
    misses_abbreviation_27_16();
    assert(first_book_match(k, 27) == Some(27int));
}

#[verifier::rlimit(40)]
proof fn misses_english_27_0()
    ensures
        first_book_match(canon_spec(27).name_en@, 0) == first_book_match(canon_spec(27).name_en@, 16),
{
    book_27();
    let k = canon_spec(27).name_en@;
    book_0();
    book_1();
    book_2();
    book_3();
    book_4();
    book_5();
    book_6();
    book_7();
    book_8();
    lemma_not_same(canon_spec(8).name_zh@, k, 0);
    book_9();
    lemma_not_same(canon_spec(9).name_zh@, k, 0);
    book_10();
    book_11();
    book_12();
    book_13();
    book_14();
    book_15();
    assert(first_book_match(k, 15) == first_book_match(k, 16));
    assert(first_book_match(k, 14) == first_book_match(k, 16));
    assert(first_book_match(k, 13) == first_book_match(k, 16));
    assert(first_book_match(k, 12) == first_book_match(k, 16));
    assert(first_book_match(k, 11) == first_book_match(k, 16));
    assert(first_book_match(k, 10) == first_book_match(k, 16));
    assert(first_book_match(k, 9) == first_book_match(k, 16));
    assert(first_book_match(k, 8) == first_book_match(k, 16));
    assert(first_book_match(k, 7) == first_book_match(k, 16));
    assert(first_book_match(k, 6) == first_book_match(k, 16));
    assert(first_book_match(k, 5) == first_book_match(k, 16));
    assert(first_book_match(k, 4) == first_book_match(k, 16));
    assert(first_book_match(k, 3) == first_book_match(k, 16));
    assert(first_book_match(k, 2) == first_book_match(k, 16));
    assert(first_book_match(k, 1) == first_book_match(k, 16));
    assert(first_book_match(k, 0) == first_book_match(k, 16));
}

#[verifier::rlimit(40)]
proof fn misses_english_27_16()
    ensures
        first_book_match(canon_spec(27).name_en@, 16) == first_book_match(canon_spec(27).name_en@, 27),
{
    book_27();
    let k = canon_spec(27).name_en@;
    book_16();
    book_17();
    book_18();
    book_19();
    book_20();
    book_21();
    book_22();
    book_23();
    book_24();
    lemma_not_same(canon_spec(24).name_zh@, k, 0);
    book_25();
    book_26();
    assert(first_book_match(k, 26) == first_book_match(k, 27));
    assert(first_book_match(k, 25) == first_book_match(k, 27));
    assert(first_book_match(k, 24) == first_book_match(k, 27));
    assert(first_book_match(k, 23) == first_book_match(k, 27));
    assert(first_book_match(k, 22) == first_book_match(k, 27));
    assert(first_book_match(k, 21) == first_book_match(k, 27));
    assert(first_book_match(k, 20) == first_book_match(k, 27));
    assert(first_book_match(k, 19) == first_book_match(k, 27));
    assert(first_book_match(k, 18) == first_book_match(k, 27));
    assert(first_book_match(k, 17) == first_book_match(k, 27));
    assert(first_book_match(k, 16) == first_book_match(k, 27));
}

proof fn found_by_english_27()
    ensures
        lookup_canon_spec(canon_spec(27).name_en@) == Some(canon_spec(27)),
{
    book_27();
    let k = canon_spec(27).name_en@;
    lemma_plain_key(k);
    lemma_not_number(k, 0);
    misses_english_27_0();
    misses_english_27_16();
    assert(first_book_match(k, 27) == Some(27int));
}

#[verifier::rlimit(40)]
proof fn misses_osis_28_0()
    ensures
        first_book_match(canon_spec(28).osis@, 0) == first_book_match(canon_spec(28).osis@, 16),
{
    book_28();
    let k = canon_spec(28).osis@;
    book_0();
    book_1();
    lemma_not_eq_ic(canon_spec(1).osis@, k, 0);
    lemma_not_same(canon_spec(1).name_zh@, k, 0);
    book_2();
    book_3();
    book_4();
    lemma_not_eq_ic(canon_spec(4).osis@, k, 0);
    book_5();
    lemma_not_eq_ic(canon_spec(5).osis@, k, 2);
    lemma_not_same(canon_spec(5).name_zh@, k, 0);
    book_6();
    lemma_not_eq_ic(canon_spec(6).osis@, k, 1);
    book_7();
    lemma_not_eq_ic(canon_spec(7).osis@, k, 0);
    lemma_not_eq_ic(canon_spec(7).name_en@, k, 0);
    book_8();
    lemma_not_eq_ic(canon_spec(8).osis@, k, 0);
    book_9();
    lemma_not_eq_ic(canon_spec(9).osis@, k, 0);
    book_10();
    lemma_not_eq_ic(canon_spec(10).osis@, k, 0);
    lemma_not_same(canon_spec(10).name_zh@, k, 0);
    book_11();
    lemma_not_eq_ic(canon_spec(11).osis@, k, 0);
    lemma_not_same(canon_spec(11).name_zh@, k, 0);
    book_12();
    lemma_not_eq_ic(canon_spec(12).osis@, k, 0);
    lemma_not_same(canon_spec(12).name_zh@, k, 0);
    book_13();
    lemma_not_eq_ic(canon_spec(13).osis@, k, 0);
    lemma_not_same(canon_spec(13).name_zh@, k, 0);
    book_14();
    lemma_not_eq_ic(canon_spec(14).osis@, k, 0);
    lemma_not_same(canon_spec(14).name_zh@, k, 0);
    lemma_not_eq_ic(canon_spec(14).name_en@, k, 0);
    book_15();
    lemma_not_same(canon_spec(15).name_zh@, k, 0);
    assert(first_book_match(k, 15) == first_book_match(k, 16));
    assert(first_book_match(k, 14) == first_book_match(k, 16));
    assert(first_book_match(k, 13) == first_book_match(k, 16));
    assert(first_book_match(k, 12) == first_book_match(k, 16));
    assert(first_book_match(k, 11) == first_book_match(k, 16));
    assert(first_book_match(k, 10) == first_book_match(k, 16));
    assert(first_book_match(k, 9) == first_book_match(k, 16));
    assert(first_book_match(k, 8) == first_book_match(k, 16));
    assert(first_book_match(k, 7) == first_book_match(k, 16));
    assert(first_book_match(k, 6) == first_book_match(k, 16));
    assert(first_book_match(k, 5) == first_book_match(k, 16));
    assert(first_book_match(k, 4) == first_book_match(k, 16));
    assert(first_book_match(k, 3) == first_book_match(k, 16));
    assert(first_book_match(k, 2) == first_book_match(k, 16));
    assert(first_book_match(k, 1) == first_book_match(k, 16));
    assert(first_book_match(k, 0) == first_book_match(k, 16));
}

#[verifier::rlimit(40)]
proof fn misses_osis_28_16()
    ensures
        first_book_match(canon_spec(28).osis@, 16) == first_book_match(canon_spec(28).osis@, 28),
{
    book_28();
    let k = canon_spec(28).osis@;
    book_16();
    lemma_not_eq_ic(canon_spec(16).osis@, k, 0);
    lemma_not_same(canon_spec(16).name_zh@, k, 0);
    book_17();
    book_18();
    book_19();
    lemma_not_eq_ic(canon_spec(19).osis@, k, 0);
    book_20();
    lemma_not_eq_ic(canon_spec(20).osis@, k, 0);
    book_21();
    lemma_not_eq_ic(canon_spec(21).osis@, k, 0);
    book_22();
    lemma_not_same(canon_spec(22).name_zh@, k, 0);
    book_23();
    lemma_not_same(canon_spec(23).name_zh@, k, 0);
    book_24();
    book_25();
    lemma_not_eq_ic(canon_spec(25).osis@, k, 0);
    lemma_not_same(canon_spec(25).name_zh@, k, 0);
    book_26();
    lemma_not_same(canon_spec(26).name_zh@, k, 0);
    book_27();
    lemma_not_same(canon_spec(27).name_zh@, k, 0);
    assert(first_book_match(k, 27) == first_book_match(k, 28));
    assert(first_book_match(k, 26) == first_book_match(k, 28));
    assert(first_book_match(k, 25) == first_book_match(k, 28));
    assert(first_book_match(k, 24) == first_book_match(k, 28));
    assert(first_book_match(k, 23) == first_book_match(k, 28));
    assert(first_book_match(k, 22) == first_book_match(k, 28));
    assert(first_book_match(k, 21) == first_book_match(k, 28));
    assert(first_book_match(k, 20) == first_book_match(k, 28));
    assert(first_book_match(k, 19) == first_book_match(k, 28));
    assert(first_book_match(k, 18) == first_book_match(k, 28));
    assert(first_book_match(k, 17) == first_book_match(k, 28));
    assert(first_book_match(k, 16) == first_book_match(k, 28));
}

proof fn found_by_osis_28()
    ensures
        lookup_canon_spec(canon_spec(28).osis@) == Some(canon_spec(28)),
{
    book_28();
    let k = canon_spec(28).osis@;
    lemma_plain_key(k);
    lemma_not_number(k, 0);
    misses_osis_28_0();
    misses_osis_28_16();
    assert(first_book_match(k, 28) == Some(28int));
}

#[verifier::rlimit(40)]
proof fn misses_abbreviation_28_0()
    ensures
        first_book_match(canon_spec(28).name_zh_short@, 0) == first_book_match(canon_spec(28).name_zh_short@, 16),
{
    book_28();
    let k = canon_spec(28).name_zh_short@;
    book_0();
    lemma_not_same(canon_spec(0).name_zh_short@, k, 0);
    book_1();
    lemma_not_same(canon_spec(1).name_zh_short@, k, 0);
    book_2();
    lemma_not_same(canon_spec(2).name_zh_short@, k, 0);
    book_3();
    lemma_not_same(canon_spec(3).name_zh_short@, k, 0);
    book_4();
    lemma_not_same(canon_spec(4).name_zh_short@, k, 0);
    book_5();
    lemma_not_same(canon_spec(5).name_zh_short@, k, 0);
    book_6();
    lemma_not_same(canon_spec(6).name_zh_short@, k, 0);
    book_7();
    lemma_not_same(canon_spec(7).name_zh_short@, k, 0);
    book_8();
    book_9();
    book_10();
    book_11();
    book_12();
    book_13();
    book_14();
    lemma_not_same(canon_spec(14).name_zh_short@, k, 0);
    book_15();
    lemma_not_same(canon_spec(15).name_zh_short@, k, 0);
    assert(first_book_match(k, 15) == first_book_match(k, 16));
    assert(first_book_match(k, 14) == first_book_match(k, 16));
    assert(first_book_match(k, 13) == first_book_match(k, 16));
    assert(first_book_match(k, 12) == first_book_match(k, 16));
    assert(first_book_match(k, 11) == first_book_match(k, 16));
    assert(first_book_match(k, 10) == first_book_match(k, 16));
    assert(first_book_match(k, 9) == first_book_match(k, 16));
    assert(first_book_match(k, 8) == first_book_match(k, 16));
    assert(first_book_match(k, 7) == first_book_match(k, 16));
    assert(first_book_match(k, 6) == first_book_match(k, 16));
    assert(first_book_match(k, 5) == first_book_match(k, 16));
    assert(first_book_match(k, 4) == first_book_match(k, 16));
    assert(first_book_match(k, 3) == first_book_match(k, 16));
    assert(first_book_match(k, 2) == first_book_match(k, 16));
    assert(first_book_match(k, 1) == first_book_match(k, 16));
    assert(first_book_match(k, 0) == first_book_match(k, 16));
}

#[verifier::rlimit(40)]
proof fn misses_abbreviation_28_16()
    ensures
        first_book_match(canon_spec(28).name_zh_short@, 16) == first_book_match(canon_spec(28).name_zh_short@, 28),
{
    book_28();
    let k = canon_spec(28).name_zh_short@;
    book_16();
    lemma_not_same(canon_spec(16).name_zh_short@, k, 0);
    book_17();
    lemma_not_same(canon_spec(17).name_zh_short@, k, 0);
    book_18();
    lemma_not_same(canon_spec(18).name_zh_short@, k, 0);
    book_19();
    lemma_not_same(canon_spec(19).name_zh_short@, k, 0);
    book_20();
    lemma_not_same(canon_spec(20).name_zh_short@, k, 0);
    book_21();
    lemma_not_same(canon_spec(21).name_zh_short@, k, 0);
    book_22();
    lemma_not_same(canon_spec(22).name_zh_short@, k, 0);
    book_23();
    lemma_not_same(canon_spec(23).name_zh_short@, k, 0);
    book_24();
    lemma_not_same(canon_spec(24).name_zh_short@, k, 0);
    book_25();
    lemma_not_same(canon_spec(25).name_zh_short@, k, 0);
    book_26();
    lemma_not_same(canon_spec(26).name_zh_short@, k, 0);
    book_27();
    lemma_not_same(canon_spec(27).name_zh_short@, k, 0);
    assert(first_book_match(k, 27) == first_book_match(k, 28));
    assert(first_book_match(k, 26) == first_book_match(k, 28));
    assert(first_book_match(k, 25) == first_book_match(k, 28));
    assert(first_book_match(k, 24) == first_book_match(k, 28));
    assert(first_book_match(k, 23) == first_book_match(k, 28));
    assert(first_book_match(k, 22) == first_book_match(k, 28));
    assert(first_book_match(k, 21) == first_book_match(k, 28));
    assert(first_book_match(k, 20) == first_book_match(k, 28));
    assert(first_book_match(k, 19) == first_book_match(k, 28));
    assert(first_book_match(k, 18) == first_book_match(k, 28));
    assert(first_book_match(k, 17) == first_book_match(k, 28));
    assert(first_book_match(k, 16) == first_book_match(k, 28));
}

proof fn found_by_abbreviation_28()
    ensures
        lookup_canon_spec(canon_spec(28).name_zh_short@) == Some(canon_spec(28)),
{
    book_28();
    let k = canon_spec(28).name_zh_short@;
    lemma_plain_key(k);
    lemma_not_number(k, 0);
    misses_abbreviation_28_0();
    misses_abbreviation_28_16();
    assert(first_book_match(k, 28) == Some(28int));
}

#[verifier::rlimit(40)]
proof fn misses_english_28_0()
    ensures
        first_book_match(canon_spec(28).name_en@, 0) == first_book_match(canon_spec(28).name_en@, 16),
{
    book_28();
    let k = canon_spec(28).name_en@;
    book_0();
    book_1();
    lemma_not_eq_ic(canon_spec(1).osis@, k, 0);
    lemma_not_same(canon_spec(1).name_zh@, k, 0);
    book_2();
    book_3();
    book_4();
    lemma_not_eq_ic(canon_spec(4).osis@, k, 0);
    book_5();
    lemma_not_eq_ic(canon_spec(5).osis@, k, 2);
    lemma_not_same(canon_spec(5).name_zh@, k, 0);
    book_6();
    lemma_not_eq_ic(canon_spec(6).osis@, k, 1);
    book_7();
    lemma_not_eq_ic(canon_spec(7).osis@, k, 0);
    lemma_not_eq_ic(canon_spec(7).name_en@, k, 0);
    book_8();
    lemma_not_eq_ic(canon_spec(8).osis@, k, 0);
    book_9();
    lemma_not_eq_ic(canon_spec(9).osis@, k, 0);
    book_10();
    lemma_not_eq_ic(canon_spec(10).osis@, k, 0);
    lemma_not_same(canon_spec(10).name_zh@, k, 0);
    book_11();
    lemma_not_eq_ic(canon_spec(11).osis@, k, 0);
    lemma_not_same(canon_spec(11).name_zh@, k, 0);
    book_12();
    lemma_not_eq_ic(canon_spec(12).osis@, k, 0);
    lemma_not_same(canon_spec(12).name_zh@, k, 0);
    book_13();
    lemma_not_eq_ic(canon_spec(13).osis@, k, 0);
    lemma_not_same(canon_spec(13).name_zh@, k, 0);
    book_14();
    lemma_not_eq_ic(canon_spec(14).osis@, k, 0);
    lemma_not_same(canon_spec(14).name_zh@, k, 0);
    lemma_not_eq_ic(canon_spec(14).name_en@, k, 0);
    book_15();
    lemma_not_same(canon_spec(15).name_zh@, k, 0);
    assert(first_book_match(k, 15) == first_book_match(k, 16));
    assert(first_book_match(k, 14) == first_book_match(k, 16));
    assert(first_book_match(k, 13) == first_book_match(k, 16));
    assert(first_book_match(k, 12) == first_book_match(k, 16));
    assert(first_book_match(k, 11) == first_book_match(k, 16));
    assert(first_book_match(k, 10) == first_book_match(k, 16));
    assert(first_book_match(k, 9) == first_book_match(k, 16));
    assert(first_book_match(k, 8) == first_book_match(k, 16));
    assert(first_book_match(k, 7) == first_book_match(k, 16));
    assert(first_book_match(k, 6) == first_book_match(k, 16));
    assert(first_book_match(k, 5) == first_book_match(k, 16));
    assert(first_book_match(k, 4) == first_book_match(k, 16));
    assert(first_book_match(k, 3) == first_book_match(k, 16));
    assert(first_book_match(k, 2) == first_book_match(k, 16));
    assert(first_book_match(k, 1) == first_book_match(k, 16));
    assert(first_book_match(k, 0) == first_book_match(k, 16));
}

#[verifier::rlimit(40)]
proof fn misses_english_28_16()
    ensures
        first_book_match(canon_spec(28).name_en@, 16) == first_book_match(canon_spec(28).name_en@, 28),
{
    book_28();
    let k = canon_spec(28).name_en@;
    book_16();
    lemma_not_eq_ic(canon_spec(16).osis@, k, 0);
    lemma_not_same(canon_spec(16).name_zh@, k, 0);
    book_17();
    book_18();
    book_19();
    lemma_not_eq_ic(canon_spec(19).osis@, k, 0);
    book_20();
    lemma_not_eq_ic(canon_spec(20).osis@, k, 0);
    book_21();
    lemma_not_eq_ic(canon_spec(21).osis@, k, 0);
    book_22();
    lemma_not_same(canon_spec(22).name_zh@, k, 0);
    book_23();
    lemma_not_same(canon_spec(23).name_zh@, k, 0);
    book_24();
    book_25();
    lemma_not_eq_ic(canon_spec(25).osis@, k, 0);
    lemma_not_same(canon_spec(25).name_zh@, k, 0);
    book_26();
    lemma_not_same(canon_spec(26).name_zh@, k, 0);
    book_27();
    lemma_not_same(canon_spec(27).name_zh@, k, 0);
    assert(first_book_match(k, 27) == first_book_match(k, 28));
    assert(first_book_match(k, 26) == first_book_match(k, 28));
    assert(first_book_match(k, 25) == first_book_match(k, 28));
    assert(first_book_match(k, 24) == first_book_match(k, 28));
    assert(first_book_match(k, 23) == first_book_match(k, 28));
    assert(first_book_match(k, 22) == first_book_match(k, 28));
    assert(first_book_match(k, 21) == first_book_match(k, 28));
    assert(first_book_match(k, 20) == first_book_match(k, 28));
    assert(first_book_match(k, 19) == first_book_match(k, 28));
    assert(first_book_match(k, 18) == first_book_match(k, 28));
    assert(first_book_match(k, 17) == first_book_match(k, 28));
    assert(first_book_match(k, 16) == first_book_match(k, 28));
}

proof fn found_by_english_28()
    ensures
        lookup_canon_spec(canon_spec(28).name_en@) == Some(canon_spec(28)),
{
    book_28();
    let k = canon_spec(28).name_en@;
    lemma_plain_key(k);
    lemma_not_number(k, 0);
    misses_english_28_0();
    misses_english_28_16();
    assert(first_book_match(k, 28) == Some(28int));
}

#[verifier::rlimit(40)]
proof fn misses_osis_29_0()
    ensures
        first_book_match(canon_spec(29).osis@, 0) == first_book_match(canon_spec(29).osis@, 16),
{
    book_29();
    let k = canon_spec(29).osis@;
    book_0();
    book_1();
    lemma_not_eq_ic(canon_spec(1).osis@, k, 0);
    lemma_not_same(canon_spec(1).name_zh@, k, 0);
    book_2();
    book_3();
    book_4();
    lemma_not_eq_ic(canon_spec(4).osis@, k, 0);
    book_5();
    lemma_not_eq_ic(canon_spec(5).osis@, k, 0);
    lemma_not_same(canon_spec(5).name_zh@, k, 0);
    book_6();
    lemma_not_eq_ic(canon_spec(6).osis@, k, 0);
    book_7();
    lemma_not_eq_ic(canon_spec(7).osis@, k, 0);
    lemma_not_eq_ic(canon_spec(7).name_en@, k, 0);
    book_8();
    lemma_not_eq_ic(canon_spec(8).osis@, k, 0);
    book_9();
    lemma_not_eq_ic(canon_spec(9).osis@, k, 0);
    book_10();
    lemma_not_eq_ic(canon_spec(10).osis@, k, 0);
    lemma_not_same(canon_spec(10).name_zh@, k, 0);
    book_11();
    lemma_not_eq_ic(canon_spec(11).osis@, k, 0);
    lemma_not_same(canon_spec(11).name_zh@, k, 0);
    book_12();
    lemma_not_eq_ic(canon_spec(12).osis@, k, 0);
    lemma_not_same(canon_spec(12).name_zh@, k, 0);
    book_13();
    lemma_not_eq_ic(canon_spec(13).osis@, k, 0);
    lemma_not_same(canon_spec(13).name_zh@, k, 0);
    book_14();
    lemma_not_eq_ic(canon_spec(14).osis@, k, 0);
    lemma_not_same(canon_spec(14).name_zh@, k, 0);
    lemma_not_eq_ic(canon_spec(14).name_en@, k, 0);
    book_15();
    lemma_not_same(canon_spec(15).name_zh@, k, 0);
    assert(first_book_match(k, 15) == first_book_match(k, 16));
    assert(first_book_match(k, 14) == first_book_match(k, 16));
    assert(first_book_match(k, 13) == first_book_match(k, 16));
    assert(first_book_match(k, 12) == first_book_match(k, 16));
    assert(first_book_match(k, 11) == first_book_match(k, 16));
    assert(first_book_match(k, 10) == first_book_match(k, 16));
    assert(first_book_match(k, 9) == first_book_match(k, 16));
    assert(first_book_match(k, 8) == first_book_match(k, 16));
    assert(first_book_match(k, 7) == first_book_match(k, 16));
    assert(first_book_match(k, 6) == first_book_match(k, 16));
    assert(first_book_match(k, 5) == first_book_match(k, 16));
    assert(first_book_match(k, 4) == first_book_match(k, 16));
    assert(first_book_match(k, 3) == first_book_match(k, 16));
    assert(first_book_match(k, 2) == first_book_match(k, 16));
    assert(first_book_match(k, 1) == first_book_match(k, 16));
    assert(first_book_match(k, 0) == first_book_match(k, 16));
}

#[verifier::rlimit(40)]
proof fn misses_osis_29_16()
    ensures
        first_book_match(canon_spec(29).osis@, 16) == first_book_match(canon_spec(29).osis@, 29),
{
    book_29();
    let k = canon_spec(29).osis@;
    book_16();
    lemma_not_eq_ic(canon_spec(16).osis@, k, 0);
    lemma_not_same(canon_spec(16).name_zh@, k, 0);
    book_17();
    book_18();
    book_19();
    lemma_not_eq_ic(canon_spec(19).osis@, k, 0);
    book_20();
    lemma_not_eq_ic(canon_spec(20).osis@, k, 0);
    book_21();
    lemma_not_eq_ic(canon_spec(21).osis@, k, 0);
    book_22();
    lemma_not_same(canon_spec(22).name_zh@, k, 0);
    book_23();
    lemma_not_same(canon_spec(23).name_zh@, k, 0);
    book_24();
    book_25();
    lemma_not_eq_ic(canon_spec(25).osis@, k, 0);
    lemma_not_same(canon_spec(25).name_zh@, k, 0);
    book_26();
    lemma_not_same(canon_spec(26).name_zh@, k, 0);
    book_27();
    lemma_not_same(canon_spec(27).name_zh@, k, 0);
    book_28();
    lemma_not_eq_ic(canon_spec(28).osis@, k, 0);
    lemma_not_eq_ic(canon_spec(28).name_en@, k, 0);
    assert(first_book_match(k, 28) == first_book_match(k, 29));
    assert(first_book_match(k, 27) == first_book_match(k, 29));
    assert(first_book_match(k, 26) == first_book_match(k, 29));
    assert(first_book_match(k, 25) == first_book_match(k, 29));
    assert(first_book_match(k, 24) == first_book_match(k, 29));
    assert(first_book_match(k, 23) == first_book_match(k, 29));
    assert(first_book_match(k, 22) == first_book_match(k, 29));
    assert(first_book_match(k, 21) == first_book_match(k, 29));
    assert(first_book_match(k, 20) == first_book_match(k, 29));
    assert(first_book_match(k, 19) == first_book_match(k, 29));
    assert(first_book_match(k, 18) == first_book_match(k, 29));
    assert(first_book_match(k, 17) == first_book_match(k, 29));
    assert(first_book_match(k, 16) == first_book_match(k, 29));
}

proof fn found_by_osis_29()
    ensures
        lookup_canon_spec(canon_spec(29).osis@) == Some(canon_spec(29)),
{
    book_29();
    let k = canon_spec(29).osis@;
    lemma_plain_key(k);
    lemma_not_number(k, 0);
    misses_osis_29_0();
    misses_osis_29_16();
    assert(first_book_match(k, 29) == Some(29int));
}

#[verifier::rlimit(40)]
proof fn misses_abbreviation_29_0()
    ensures
        first_book_match(canon_spec(29).name_zh_short@, 0) == first_book_match(canon_spec(29).name_zh_short@, 16),
{
    book_29();
    let k = canon_spec(29).name_zh_short@;
    book_0();
    lemma_not_same(canon_spec(0).name_zh_short@, k, 0);
    book_1();
    lemma_not_same(canon_spec(1).name_zh_short@, k, 0);
    book_2();
    lemma_not_same(canon_spec(2).name_zh_short@, k, 0);
    book_3();
    lemma_not_same(canon_spec(3).name_zh_short@, k, 0);
    book_4();
    lemma_not_same(canon_spec(4).name_zh_short@, k, 0);
    book_5();
    lemma_not_same(canon_spec(5).name_zh_short@, k, 0);
    book_6();
    lemma_not_same(canon_spec(6).name_zh_short@, k, 0);
    book_7();
    lemma_not_same(canon_spec(7).name_zh_short@, k, 0);
    book_8();
    book_9();
    book_10();
    book_11();
    book_12();
    book_13();
    book_14();
    lemma_not_same(canon_spec(14).name_zh_short@, k, 0);
    book_15();
    lemma_not_same(canon_spec(15).name_zh_short@, k, 0);
    assert(first_book_match(k, 15) == first_book_match(k, 16));
    assert(first_book_match(k, 14) == first_book_match(k, 16));
    assert(first_book_match(k, 13) == first_book_match(k, 16));
    assert(first_book_match(k, 12) == first_book_match(k, 16));
    assert(first_book_match(k, 11) == first_book_match(k, 16));
    assert(first_book_match(k, 10) == first_book_match(k, 16));
    assert(first_book_match(k, 9) == first_book_match(k, 16));
    assert(first_book_match(k, 8) == first_book_match(k, 16));
    assert(first_book_match(k, 7) == first_book_match(k, 16));
    assert(first_book_match(k, 6) == first_book_match(k, 16));
    assert(first_book_match(k, 5) == first_book_match(k, 16));
    assert(first_book_match(k, 4) == first_book_match(k, 16));
    assert(first_book_match(k, 3) == first_book_match(k, 16));
    assert(first_book_match(k, 2) == first_book_match(k, 16));
    assert(first_book_match(k, 1) == first_book_match(k, 16));
    assert(first_book_match(k, 0) == first_book_match(k, 16));
}

#[verifier::rlimit(40)]
proof fn misses_abbreviation_29_16()
    ensures
        first_book_match(canon_spec(29).name_zh_short@, 16) == first_book_match(canon_spec(29).name_zh_short@, 29),
{
    book_29();
    let k = canon_spec(29).name_zh_short@;
    book_16();
    lemma_not_same(canon_spec(16).name_zh_short@, k, 0);
    book_17();
    lemma_not_same(canon_spec(17).name_zh_short@, k, 0);
    book_18();
    lemma_not_same(canon_spec(18).name_zh_short@, k, 0);
    book_19();
    lemma_not_same(canon_spec(19).name_zh_short@, k, 0);
    book_20();
    lemma_not_same(canon_spec(20).name_zh_short@, k, 0);
    book_21();
    lemma_not_same(canon_spec(21).name_zh_short@, k, 0);
    book_22();
    lemma_not_same(canon_spec(22).name_zh_short@, k, 0);
    book_23();
    lemma_not_same(canon_spec(23).name_zh_short@, k, 0);
    book_24();
    lemma_not_same(canon_spec(24).name_zh_short@, k, 0);
    book_25();
    lemma_not_same(canon_spec(25).name_zh_short@, k, 0);
    book_26();
    lemma_not_same(canon_spec(26).name_zh_short@, k, 0);
    book_27();
    lemma_not_same(canon_spec(27).name_zh_short@, k, 0);
    book_28();
    lemma_not_same(canon_spec(28).name_zh_short@, k, 0);
    assert(first_book_match(k, 28) == first_book_match(k, 29));
    assert(first_book_match(k, 27) == first_book_match(k, 29));
    assert(first_book_match(k, 26) == first_book_match(k, 29));
    assert(first_book_match(k, 25) == first_book_match(k, 29));
    assert(first_book_match(k, 24) == first_book_match(k, 29));
    assert(first_book_match(k, 23) == first_book_match(k, 29));
    assert(first_book_match(k, 22) == first_book_match(k, 29));
    assert(first_book_match(k, 21) == first_book_match(k, 29));
    assert(first_book_match(k, 20) == first_book_match(k, 29));
    assert(first_book_match(k, 19) == first_book_match(k, 29));
    assert(first_book_match(k, 18) == first_book_match(k, 29));
    assert(first_book_match(k, 17) == first_book_match(k, 29));
    assert(first_book_match(k, 16) == first_book_match(k, 29));
}

proof fn found_by_abbreviation_29()
    ensures
        lookup_canon_spec(canon_spec(29).name_zh_short@) == Some(canon_spec(29)),
{
    book_29();
    let k = canon_spec(29).name_zh_short@;
    lemma_plain_key(k);
    lemma_not_number(k, 0);
    misses_abbreviation_29_0();
    misses_abbreviation_29_16();
    assert(first_book_match(k, 29) == Some(29int));
}

#[verifier::rlimit(40)]
proof fn misses_english_29_0()
    ensures
        first_book_match(canon_spec(29).name_en@, 0) == first_book_match(canon_spec(29).name_en@, 16),
{
    book_29();
    let k = canon_spec(29).name_en@;
    book_0();
    book_1();
    lemma_not_eq_ic(canon_spec(1).osis@, k, 0);
    lemma_not_same(canon_spec(1).name_zh@, k, 0);
    book_2();
    book_3();
    book_4();
    lemma_not_eq_ic(canon_spec(4).osis@, k, 0);
    book_5();
    lemma_not_eq_ic(canon_spec(5).osis@, k, 0);
    lemma_not_same(canon_spec(5).name_zh@, k, 0);
    book_6();
    lemma_not_eq_ic(canon_spec(6).osis@, k, 0);
    book_7();
    lemma_not_eq_ic(canon_spec(7).osis@, k, 0);
    lemma_not_eq_ic(canon_spec(7).name_en@, k, 0);
    book_8();
    lemma_not_eq_ic(canon_spec(8).osis@, k, 0);
    book_9();
    lemma_not_eq_ic(canon_spec(9).osis@, k, 0);
    book_10();
    lemma_not_eq_ic(canon_spec(10).osis@, k, 0);
    lemma_not_same(canon_spec(10).name_zh@, k, 0);
    book_11();
    lemma_not_eq_ic(canon_spec(11).osis@, k, 0);
    lemma_not_same(canon_spec(11).name_zh@, k, 0);
    book_12();
    lemma_not_eq_ic(canon_spec(12).osis@, k, 0);
    lemma_not_same(canon_spec(12).name_zh@, k, 0);
    book_13();
    lemma_not_eq_ic(canon_spec(13).osis@, k, 0);
    lemma_not_same(canon_spec(13).name_zh@, k, 0);
    book_14();
    lemma_not_eq_ic(canon_spec(14).osis@, k, 0);
    lemma_not_same(canon_spec(14).name_zh@, k, 0);
    lemma_not_eq_ic(canon_spec(14).name_en@, k, 0);
    book_15();
    lemma_not_same(canon_spec(15).name_zh@, k, 0);
    assert(first_book_match(k, 15) == first_book_match(k, 16));
    assert(first_book_match(k, 14) == first_book_match(k, 16));
    assert(first_book_match(k, 13) == first_book_match(k, 16));
    assert(first_book_match(k, 12) == first_book_match(k, 16));
    assert(first_book_match(k, 11) == first_book_match(k, 16));
    assert(first_book_match(k, 10) == first_book_match(k, 16));
    assert(first_book_match(k, 9) == first_book_match(k, 16));
    assert(first_book_match(k, 8) == first_book_match(k, 16));
    assert(first_book_match(k, 7) == first_book_match(k, 16));
    assert(first_book_match(k, 6) == first_book_match(k, 16));
    assert(first_book_match(k, 5) == first_book_match(k, 16));
    assert(first_book_match(k, 4) == first_book_match(k, 16));
    assert(first_book_match(k, 3) == first_book_match(k, 16));
    assert(first_book_match(k, 2) == first_book_match(k, 16));
    assert(first_book_match(k, 1) == first_book_match(k, 16));
    assert(first_book_match(k, 0) == first_book_match(k, 16));
}

#[verifier::rlimit(40)]
proof fn misses_english_29_16()
    ensures
        first_book_match(canon_spec(29).name_en@, 16) == first_book_match(canon_spec(29).name_en@, 29),
{
    book_29();
    let k = canon_spec(29).name_en@;
    book_16();
    lemma_not_eq_ic(canon_spec(16).osis@, k, 0);
    lemma_not_same(canon_spec(16).name_zh@, k, 0);
    book_17();
    book_18();
    book_19();
    lemma_not_eq_ic(canon_spec(19).osis@, k, 0);
    book_20();
    lemma_not_eq_ic(canon_spec(20).osis@, k, 0);
    book_21();
    lemma_not_eq_ic(canon_spec(21).osis@, k, 0);
    book_22();
    lemma_not_same(canon_spec(22).name_zh@, k, 0);
    book_23();
    lemma_not_same(canon_spec(23).name_zh@, k, 0);
    book_24();
    book_25();
    lemma_not_eq_ic(canon_spec(25).osis@, k, 0);
    lemma_not_same(canon_spec(25).name_zh@, k, 0);
    book_26();
    lemma_not_same(canon_spec(26).name_zh@, k, 0);
    book_27();
    lemma_not_same(canon_spec(27).name_zh@, k, 0);
    book_28();
    lemma_not_eq_ic(canon_spec(28).osis@, k, 0);
    lemma_not_eq_ic(canon_spec(28).name_en@, k, 0);
    assert(first_book_match(k, 28) == first_book_match(k, 29));
    assert(first_book_match(k, 27) == first_book_match(k, 29));
    assert(first_book_match(k, 26) == first_book_match(k, 29));
    assert(first_book_match(k, 25) == first_book_match(k, 29));
    assert(first_book_match(k, 24) == first_book_match(k, 29));
    assert(first_book_match(k, 23) == first_book_match(k, 29));
    assert(first_book_match(k, 22) == first_book_match(k, 29));
    assert(first_book_match(k, 21) == first_book_match(k, 29));
    assert(first_book_match(k, 20) == first_book_match(k, 29));
    assert(first_book_match(k, 19) == first_book_match(k, 29));
    assert(first_book_match(k, 18) == first_book_match(k, 29));
    assert(first_book_match(k, 17) == first_book_match(k, 29));
    assert(first_book_match(k, 16) == first_book_match(k, 29));
}

proof fn found_by_english_29()
    ensures
        lookup_canon_spec(canon_spec(29).name_en@) == Some(canon_spec(29)),
{
    book_29();
    let k = canon_spec(29).name_en@;
    lemma_plain_key(k);
    lemma_not_number(k, 0);
    misses_english_29_0();
    misses_english_29_16();
    assert(first_book_match(k, 29) == Some(29int));
}

#[verifier::rlimit(40)]
proof fn misses_osis_30_0()
    ensures
        first_book_match(canon_spec(30).osis@, 0) == first_book_match(canon_spec(30).osis@, 16),
{
    book_30();
    let k = canon_spec(30).osis@;
    book_0();
    book_1();
    lemma_not_eq_ic(canon_spec(1).osis@, k, 0);
    lemma_not_same(canon_spec(1).name_zh@, k, 0);
    book_2();
    book_3();
    book_4();
    lemma_not_eq_ic(canon_spec(4).osis@, k, 0);
    book_5();
    lemma_not_eq_ic(canon_spec(5).osis@, k, 0);
    lemma_not_same(canon_spec(5).name_zh@, k, 0);
    book_6();
    lemma_not_eq_ic(canon_spec(6).osis@, k, 0);
    book_7();
    lemma_not_eq_ic(canon_spec(7).osis@, k, 0);
    lemma_not_eq_ic(canon_spec(7).name_en@, k, 0);
    book_8();
    lemma_not_eq_ic(canon_spec(8).osis@, k, 0);
    book_9();
    lemma_not_eq_ic(canon_spec(9).osis@, k, 0);
    book_10();
    lemma_not_eq_ic(canon_spec(10).osis@, k, 0);
    lemma_not_same(canon_spec(10).name_zh@, k, 0);
    book_11();
    lemma_not_eq_ic(canon_spec(11).osis@, k, 0);
    lemma_not_same(canon_spec(11).name_zh@, k, 0);
    book_12();
    lemma_not_eq_ic(canon_spec(12).osis@, k, 0);
    lemma_not_same(canon_spec(12).name_zh@, k, 0);
    book_13();
    lemma_not_eq_ic(canon_spec(13).osis@, k, 0);
    lemma_not_same(canon_spec(13).name_zh@, k, 0);
    book_14();
    lemma_not_eq_ic(canon_spec(14).osis@, k, 0);
    lemma_not_same(canon_spec(14).name_zh@, k, 0);
    lemma_not_eq_ic(canon_spec(14).name_en@, k, 0);
    book_15();
    lemma_not_same(canon_spec(15).name_zh@, k, 0);
    assert(first_book_match(k, 15) == first_book_match(k, 16));
    assert(first_book_match(k, 14) == first_book_match(k, 16));
    assert(first_book_match(k, 13) == first_book_match(k, 16));
    assert(first_book_match(k, 12) == first_book_match(k, 16));
    assert(first_book_match(k, 11) == first_book_match(k, 16));
    assert(first_book_match(k, 10) == first_book_match(k, 16));
    assert(first_book_match(k, 9) == first_book_match(k, 16));
    assert(first_book_match(k, 8) == first_book_match(k, 16));
    assert(first_book_match(k, 7) == first_book_match(k, 16));
    assert(first_book_match(k, 6) == first_book_match(k, 16));
    assert(first_book_match(k, 5) == first_book_match(k, 16));
    assert(first_book_match(k, 4) == first_book_match(k, 16));
    assert(first_book_match(k, 3) == first_book_match(k, 16));
    assert(first_book_match(k, 2) == first_book_match(k, 16));
    assert(first_book_match(k, 1) == first_book_match(k, 16));
    assert(first_book_match(k, 0) == first_book_match(k, 16));
}

#[verifier::rlimit(40)]
proof fn misses_osis_30_16()
    ensures
        first_book_match(canon_spec(30).osis@, 16) == first_book_match(canon_spec(30).osis@, 30),
{
    book_30();
    let k = canon_spec(30).osis@;
    book_16();
    lemma_not_eq_ic(canon_spec(16).osis@, k, 0);
    lemma_not_same(canon_spec(16).name_zh@, k, 0);
    book_17();
    book_18();
    book_19();
    lemma_not_eq_ic(canon_spec(19).osis@, k, 0);
    book_20();
    lemma_not_eq_ic(canon_spec(20).osis@, k, 0);
    book_21();
    lemma_not_eq_ic(canon_spec(21).osis@, k, 0);
    book_22();
    lemma_not_same(canon_spec(22).name_zh@, k, 0);
    book_23();
    lemma_not_same(canon_spec(23).name_zh@, k, 0);
    book_24();
    book_25();
    lemma_not_eq_ic(canon_spec(25).osis@, k, 0);
    lemma_not_same(canon_spec(25).name_zh@, k, 0);
    book_26();
    lemma_not_same(canon_spec(26).name_zh@, k, 0);
    book_27();
    lemma_not_same(canon_spec(27).name_zh@, k, 0);
    book_28();
    lemma_not_eq_ic(canon_spec(28).osis@, k, 0);
    lemma_not_eq_ic(canon_spec(28).name_en@, k, 0);
    book_29();
    lemma_not_eq_ic(canon_spec(29).osis@, k, 0);
    lemma_not_same(canon_spec(29).name_zh@, k, 0);
    lemma_not_eq_ic(canon_spec(29).name_en@, k, 0);
    assert(first_book_match(k, 29) == first_book_match(k, 30));
    assert(first_book_match(k, 28) == first_book_match(k, 30));
    assert(first_book_match(k, 27) == first_book_match(k, 30));
    assert(first_book_match(k, 26) == first_book_match(k, 30));
    assert(first_book_match(k, 25) == first_book_match(k, 30));
    assert(first_book_match(k, 24) == first_book_match(k, 30));
    assert(first_book_match(k, 23) == first_book_match(k, 30));
    assert(first_book_match(k, 22) == first_book_match(k, 30));
    assert(first_book_match(k, 21) == first_book_match(k, 30));
    assert(first_book_match(k, 20) == first_book_match(k, 30));
    assert(first_book_match(k, 19) == first_book_match(k, 30));
    assert(first_book_match(k, 18) == first_book_match(k, 30));
    assert(first_book_match(k, 17) == first_book_match(k, 30));
    assert(first_book_match(k, 16) == first_book_match(k, 30));
}

proof fn found_by_osis_30()
    ensures
        lookup_canon_spec(canon_spec(30).osis@) == Some(canon_spec(30)),
{
    book_30();
    let k = canon_spec(30).osis@;
    lemma_plain_key(k);
    lemma_not_number(k, 0);
    misses_osis_30_0();
    misses_osis_30_16();
    assert(first_book_match(k, 30) == Some(30int));
}

#[verifier::rlimit(40)]
proof fn misses_abbreviation_30_0()
    ensures
        first_book_match(canon_spec(30).name_zh_short@, 0) == first_book_match(canon_spec(30).name_zh_short@, 16),
{
    book_30();
    let k = canon_spec(30).name_zh_short@;
    book_0();
    lemma_not_same(canon_spec(0).name_zh_short@, k, 0);
    book_1();
    lemma_not_same(canon_spec(1).name_zh_short@, k, 0);
    book_2();
    lemma_not_same(canon_spec(2).name_zh_short@, k, 0);
    book_3();
    lemma_not_same(canon_spec(3).name_zh_short@, k, 0);
    book_4();
    lemma_not_same(canon_spec(4).name_zh_short@, k, 0);
    book_5();
    lemma_not_same(canon_spec(5).name_zh_short@, k, 0);
    book_6();
    lemma_not_same(canon_spec(6).name_zh_short@, k, 0);
    book_7();
    lemma_not_same(canon_spec(7).name_zh_short@, k, 0);
    book_8();
    book_9();
    book_10();
    book_11();
    book_12();
    book_13();
    book_14();
    lemma_not_same(canon_spec(14).name_zh_short@, k, 0);
    book_15();
    lemma_not_same(canon_spec(15).name_zh_short@, k, 0);
    assert(first_book_match(k, 15) == first_book_match(k, 16));
    assert(first_book_match(k, 14) == first_book_match(k, 16));
    assert(first_book_match(k, 13) == first_book_match(k, 16));
    assert(first_book_match(k, 12) == first_book_match(k, 16));
    assert(first_book_match(k, 11) == first_book_match(k, 16));
    assert(first_book_match(k, 10) == first_book_match(k, 16));
    assert(first_book_match(k, 9) == first_book_match(k, 16));
    assert(first_book_match(k, 8) == first_book_match(k, 16));
    assert(first_book_match(k, 7) == first_book_match(k, 16));
    assert(first_book_match(k, 6) == first_book_match(k, 16));
    assert(first_book_match(k, 5) == first_book_match(k, 16));
    assert(first_book_match(k, 4) == first_book_match(k, 16));
    assert(first_book_match(k, 3) == first_book_match(k, 16));
    assert(first_book_match(k, 2) == first_book_match(k, 16));
    assert(first_book_match(k, 1) == first_book_match(k, 16));
    assert(first_book_match(k, 0) == first_book_match(k, 16));
}

#[verifier::rlimit(40)]
proof fn misses_abbreviation_30_16()
    ensures
        first_book_match(canon_spec(30).name_zh_short@, 16) == first_book_match(canon_spec(30).name_zh_short@, 30),
{
    book_30();
    let k = canon_spec(30).name_zh_short@;
    book_16();
    lemma_not_same(canon_spec(16).name_zh_short@, k, 0);
    book_17();
    lemma_not_same(canon_spec(17).name_zh_short@, k, 0);
    book_18();
    lemma_not_same(canon_spec(18).name_zh_short@, k, 0);
    book_19();
    lemma_not_same(canon_spec(19).name_zh_short@, k, 0);
    book_20();
    lemma_not_same(canon_spec(20).name_zh_short@, k, 0);
    book_21();
    lemma_not_same(canon_spec(21).name_zh_short@, k, 0);
    book_22();
    lemma_not_same(canon_spec(22).name_zh_short@, k, 0);
    book_23();
    lemma_not_same(canon_spec(23).name_zh_short@, k, 0);
    book_24();
    lemma_not_same(canon_spec(24).name_zh_short@, k, 0);
    book_25();
    lemma_not_same(canon_spec(25).name_zh_short@, k, 0);
    book_26();
    lemma_not_same(canon_spec(26).name_zh_short@, k, 0);
    book_27();
    lemma_not_same(canon_spec(27).name_zh_short@, k, 0);
    book_28();
    lemma_not_same(canon_spec(28).name_zh_short@, k, 0);
    book_29();
    lemma_not_same(canon_spec(29).name_zh_short@, k, 0);
    assert(first_book_match(k, 29) == first_book_match(k, 30));
    assert(first_book_match(k, 28) == first_book_match(k, 30));
    assert(first_book_match(k, 27) == first_book_match(k, 30));
    assert(first_book_match(k, 26) == first_book_match(k, 30));
    assert(first_book_match(k, 25) == first_book_match(k, 30));
    assert(first_book_match(k, 24) == first_book_match(k, 30));
    assert(first_book_match(k, 23) == first_book_match(k, 30));
    assert(first_book_match(k, 22) == first_book_match(k, 30));
    assert(first_book_match(k, 21) == first_book_match(k, 30));
    assert(first_book_match(k, 20) == first_book_match(k, 30));
    assert(first_book_match(k, 19) == first_book_match(k, 30));
    assert(first_book_match(k, 18) == first_book_match(k, 30));
    assert(first_book_match(k, 17) == first_book_match(k, 30));
    assert(first_book_match(k, 16) == first_book_match(k, 30));
}

proof fn found_by_abbreviation_30()
    ensures
        lookup_canon_spec(canon_spec(30).name_zh_short@) == Some(canon_spec(30)),
{
    book_30();
    let k = canon_spec(30).name_zh_short@;
    lemma_plain_key(k);
    lemma_not_number(k, 0);
    misses_abbreviation_30_0();
    misses_abbreviation_30_16();
    assert(first_book_match(k, 30) == Some(30int));
}

#[verifier::rlimit(40)]
proof fn misses_english_30_0()
    ensures
        first_book_match(canon_spec(30).name_en@, 0) == first_book_match(canon_spec(30).name_en@, 16),
{
    book_30();
    let k = canon_spec(30).name_en@;
    book_0();
    lemma_not_eq_ic(canon_spec(0).name_en@, k, 0);
    book_1();
    book_2();
    book_3();
    lemma_not_eq_ic(canon_spec(3).name_en@, k, 0);
    book_4();
    book_5();
    book_6();
    book_7();
    book_8();
    book_9();
    book_10();
    lemma_not_eq_ic(canon_spec(10).name_en@, k, 0);
    book_11();
    lemma_not_eq_ic(canon_spec(11).name_en@, k, 0);
    book_12();
    book_13();
    book_14();
    book_15();
    assert(first_book_match(k, 15) == first_book_match(k, 16));
    assert(first_book_match(k, 14) == first_book_match(k, 16));
    assert(first_book_match(k, 13) == first_book_match(k, 16));
    assert(first_book_match(k, 12) == first_book_match(k, 16));
    assert(first_book_match(k, 11) == first_book_match(k, 16));
    assert(first_book_match(k, 10) == first_book_match(k, 16));
    assert(first_book_match(k, 9) == first_book_match(k, 16));
    assert(first_book_match(k, 8) == first_book_match(k, 16));
    assert(first_book_match(k, 7) == first_book_match(k, 16));
    assert(first_book_match(k, 6) == first_book_match(k, 16));
    assert(first_book_match(k, 5) == first_book_match(k, 16));
    assert(first_book_match(k, 4) == first_book_match(k, 16));
    assert(first_book_match(k, 3) == first_book_match(k, 16));
    assert(first_book_match(k, 2) == first_book_match(k, 16));
    assert(first_book_match(k, 1) == first_book_match(k, 16));
    assert(first_book_match(k, 0) == first_book_match(k, 16));
}

#[verifier::rlimit(40)]
proof fn misses_english_30_16()
    ensures
        first_book_match(canon_spec(30).name_en@, 16) == first_book_match(canon_spec(30).name_en@, 30),
{
    book_30();
    let k = canon_spec(30).name_en@;
    book_16();
    book_17();
    book_18();
    book_19();
    book_20();
    book_21();
    book_22();
    book_23();
    book_24();
    book_25();
    lemma_not_eq_ic(canon_spec(25).name_en@, k, 0);
    book_26();
    book_27();
    book_28();
    book_29();
    assert(first_book_match(k, 29) == first_book_match(k, 30));
    assert(first_book_match(k, 28) == first_book_match(k, 30));
    assert(first_book_match(k, 27) == first_book_match(k, 30));
    assert(first_book_match(k, 26) == first_book_match(k, 30));
    assert(first_book_match(k, 25) == first_book_match(k, 30));
    assert(first_book_match(k, 24) == first_book_match(k, 30));
    assert(first_book_match(k, 23) == first_book_match(k, 30));
    assert(first_book_match(k, 22) == first_book_match(k, 30));
    assert(first_book_match(k, 21) == first_book_match(k, 30));
    assert(first_book_match(k, 20) == first_book_match(k, 30));
    assert(first_book_match(k, 19) == first_book_match(k, 30));
    assert(first_book_match(k, 18) == first_book_match(k, 30));
    assert(first_book_match(k, 17) == first_book_match(k, 30));
    assert(first_book_match(k, 16) == first_book_match(k, 30));
}

proof fn found_by_english_30()
    ensures
        lookup_canon_spec(canon_spec(30).name_en@) == Some(canon_spec(30)),
{
    book_30();
    let k = canon_spec(30).name_en@;
    lemma_plain_key(k);
    lemma_not_number(k, 0);
    misses_english_30_0();
    misses_english_30_16();
    assert(first_book_match(k, 30) == Some(30int));
}

#[verifier::rlimit(40)]
proof fn misses_osis_31_0()
    ensures
        first_book_match(canon_spec(31).osis@, 0) == first_book_match(canon_spec(31).osis@, 16),
{
    book_31();
    let k = canon_spec(31).osis@;
    book_0();
    book_1();
    book_2();
    book_3();
    book_4();
    book_5();
    book_6();
    book_7();
    book_8();
    lemma_not_same(canon_spec(8).name_zh@, k, 0);
    book_9();
    lemma_not_same(canon_spec(9).name_zh@, k, 0);
    book_10();
    book_11();
    book_12();
    book_13();
    book_14();
    book_15();
    assert(first_book_match(k, 15) == first_book_match(k, 16));
    assert(first_book_match(k, 14) == first_book_match(k, 16));
    assert(first_book_match(k, 13) == first_book_match(k, 16));
    assert(first_book_match(k, 12) == first_book_match(k, 16));
    assert(first_book_match(k, 11) == first_book_match(k, 16));
    assert(first_book_match(k, 10) == first_book_match(k, 16));
    assert(first_book_match(k, 9) == first_book_match(k, 16));
    assert(first_book_match(k, 8) == first_book_match(k, 16));
    assert(first_book_match(k, 7) == first_book_match(k, 16));
    assert(first_book_match(k, 6) == first_book_match(k, 16));
    assert(first_book_match(k, 5) == first_book_match(k, 16));
    assert(first_book_match(k, 4) == first_book_match(k, 16));
    assert(first_book_match(k, 3) == first_book_match(k, 16));
    assert(first_book_match(k, 2) == first_book_match(k, 16));
    assert(first_book_match(k, 1) == first_book_match(k, 16));
    assert(first_book_match(k, 0) == first_book_match(k, 16));
}

#[verifier::rlimit(40)]
proof fn misses_osis_31_16()
    ensures
        first_book_match(canon_spec(31).osis@, 16) == first_book_match(canon_spec(31).osis@, 31),
{
    book_31();
    let k = canon_spec(31).osis@;
    book_16();
    book_17();
    book_18();
    book_19();
    book_20();
    book_21();
    book_22();
    book_23();
    book_24();
    lemma_not_same(canon_spec(24).name_zh@, k, 0);
    book_25();
    book_26();
    book_27();
    lemma_not_eq_ic(canon_spec(27).name_en@, k, 0);
    book_28();
    book_29();
    book_30();
    lemma_not_same(canon_spec(30).name_zh@, k, 0);
    assert(first_book_match(k, 30) == first_book_match(k, 31));
    assert(first_book_match(k, 29) == first_book_match(k, 31));
    assert(first_book_match(k, 28) == first_book_match(k, 31));
    assert(first_book_match(k, 27) == first_book_match(k, 31));
    assert(first_book_match(k, 26) == first_book_match(k, 31));
    assert(first_book_match(k, 25) == first_book_match(k, 31));
    assert(first_book_match(k, 24) == first_book_match(k, 31));
    assert(first_book_match(k, 23) == first_book_match(k, 31));
    assert(first_book_match(k, 22) == first_book_match(k, 31));
    assert(first_book_match(k, 21) == first_book_match(k, 31));
    assert(first_book_match(k, 20) == first_book_match(k, 31));
    assert(first_book_match(k, 19) == first_book_match(k, 31));
    assert(first_book_match(k, 18) == first_book_match(k, 31));
    assert(first_book_match(k, 17) == first_book_match(k, 31));
    assert(first_book_match(k, 16) == first_book_match(k, 31));
}

proof fn found_by_osis_31()
    ensures
        lookup_canon_spec(canon_spec(31).osis@) == Some(canon_spec(31)),
{
    book_31();
    let k = canon_spec(31).osis@;
    lemma_plain_key(k);
    lemma_not_number(k, 0);
    misses_osis_31_0();
    misses_osis_31_16();
    assert(first_book_match(k, 31) == Some(31int));
}

#[verifier::rlimit(40)]
proof fn misses_abbreviation_31_0()
    ensures
        first_book_match(canon_spec(31).name_zh_short@, 0) == first_book_match(canon_spec(31).name_zh_short@, 16),
{
    book_31();
    let k = canon_spec(31).name_zh_short@;
    book_0();
    lemma_not_same(canon_spec(0).name_zh_short@, k, 0);
    book_1();
    lemma_not_same(canon_spec(1).name_zh_short@, k, 0);
    book_2();
    lemma_not_same(canon_spec(2).name_zh_short@, k, 0);
    book_3();
    lemma_not_same(canon_spec(3).name_zh_short@, k, 0);
    book_4();
    lemma_not_same(canon_spec(4).name_zh_short@, k, 0);
    book_5();
    lemma_not_same(canon_spec(5).name_zh_short@, k, 0);
    book_6();
    lemma_not_same(canon_spec(6).name_zh_short@, k, 0);
    book_7();
    lemma_not_same(canon_spec(7).name_zh_short@, k, 0);
    book_8();
    book_9();
    book_10();
    book_11();
    book_12();
    book_13();
    book_14();
    lemma_not_same(canon_spec(14).name_zh_short@, k, 0);
    book_15();
    lemma_not_same(canon_spec(15).name_zh_short@, k, 0);
    assert(first_book_match(k, 15) == first_book_match(k, 16));
    assert(first_book_match(k, 14) == first_book_match(k, 16));
    assert(first_book_match(k, 13) == first_book_match(k, 16));
    assert(first_book_match(k, 12) == first_book_match(k, 16));
    assert(first_book_match(k, 11) == first_book_match(k, 16));
    assert(first_book_match(k, 10) == first_book_match(k, 16));
    assert(first_book_match(k, 9) == first_book_match(k, 16));
    assert(first_book_match(k, 8) == first_book_match(k, 16));
    assert(first_book_match(k, 7) == first_book_match(k, 16));
    assert(first_book_match(k, 6) == first_book_match(k, 16));
    assert(first_book_match(k, 5) == first_book_match(k, 16));
    assert(first_book_match(k, 4) == first_book_match(k, 16));
    assert(first_book_match(k, 3) == first_book_match(k, 16));
    assert(first_book_match(k, 2) == first_book_match(k, 16));
    assert(first_book_match(k, 1) == first_book_match(k, 16));
    assert(first_book_match(k, 0) == first_book_match(k, 16));
}

#[verifier::rlimit(40)]
proof fn misses_abbreviation_31_16()
    ensures
        first_book_match(canon_spec(31).name_zh_short@, 16) == first_book_match(canon_spec(31).name_zh_short@, 31),
{
    book_31();
    let k = canon_spec(31).name_zh_short@;
    book_16();
    lemma_not_same(canon_spec(16).name_zh_short@, k, 0);
    book_17();
    lemma_not_same(canon_spec(17).name_zh_short@, k, 0);
    book_18();
    lemma_not_same(canon_spec(18).name_zh_short@, k, 0);
    book_19();
    lemma_not_same(canon_spec(19).name_zh_short@, k, 0);
    book_20();
    lemma_not_same(canon_spec(20).name_zh_short@, k, 0);
    book_21();
    lemma_not_same(canon_spec(21).name_zh_short@, k, 0);
    book_22();
    lemma_not_same(canon_spec(22).name_zh_short@, k, 0);
    book_23();
    lemma_not_same(canon_spec(23).name_zh_short@, k, 0);
    book_24();
    lemma_not_same(canon_spec(24).name_zh_short@, k, 0);
    book_25();
    lemma_not_same(canon_spec(25).name_zh_short@, k, 0);
    book_26();
    lemma_not_same(canon_spec(26).name_zh_short@, k, 0);
    book_27();
    lemma_not_same(canon_spec(27).name_zh_short@, k, 0);
    book_28();
    lemma_not_same(canon_spec(28).name_zh_short@, k, 0);
    book_29();
    lemma_not_same(canon_spec(29).name_zh_short@, k, 0);
    book_30();
    lemma_not_same(canon_spec(30).name_zh_short@, k, 0);
    assert(first_book_match(k, 30) == first_book_match(k, 31));
    assert(first_book_match(k, 29) == first_book_match(k, 31));
    assert(first_book_match(k, 28) == first_book_match(k, 31));
    assert(first_book_match(k, 27) == first_book_match(k, 31));
    assert(first_book_match(k, 26) == first_book_match(k, 31));
    assert(first_book_match(k, 25) == first_book_match(k, 31));
    assert(first_book_match(k, 24) == first_book_match(k, 31));
    assert(first_book_match(k, 23) == first_book_match(k, 31));
    assert(first_book_match(k, 22) == first_book_match(k, 31));
    assert(first_book_match(k, 21) == first_book_match(k, 31));
    assert(first_book_match(k, 20) == first_book_match(k, 31));
    assert(first_book_match(k, 19) == first_book_match(k, 31));
    assert(first_book_match(k, 18) == first_book_match(k, 31));
    assert(first_book_match(k, 17) == first_book_match(k, 31));
    assert(first_book_match(k, 16) == first_book_match(k, 31));
}

proof fn found_by_abbreviation_31()
    ensures
        lookup_canon_spec(canon_spec(31).name_zh_short@) == Some(canon_spec(31)),
{
    book_31();
    let k = canon_spec(31).name_zh_short@;
    lemma_plain_key(k);
    lemma_not_number(k, 0);
    misses_abbreviation_31_0();
    misses_abbreviation_31_16();
    assert(first_book_match(k, 31) == Some(31int));
}

#[verifier::rlimit(40)]
proof fn misses_english_31_0()
    ensures
        first_book_match(canon_spec(31).name_en@, 0) == first_book_match(canon_spec(31).name_en@, 16),
{
    book_31();
    let k = canon_spec(31).name_en@;
    book_0();
    book_1();
    book_2();
    book_3();
    book_4();
    book_5();
    book_6();
    book_7();
    book_8();
    lemma_not_same(canon_spec(8).name_zh@, k, 0);
    book_9();
    lemma_not_same(canon_spec(9).name_zh@, k, 0);
    book_10();
    book_11();
    book_12();
    book_13();
    book_14();
    book_15();
    assert(first_book_match(k, 15) == first_book_match(k, 16));
    assert(first_book_match(k, 14) == first_book_match(k, 16));
    assert(first_book_match(k, 13) == first_book_match(k, 16));
    assert(first_book_match(k, 12) == first_book_match(k, 16));
    assert(first_book_match(k, 11) == first_book_match(k, 16));
    assert(first_book_match(k, 10) == first_book_match(k, 16));
    assert(first_book_match(k, 9) == first_book_match(k, 16));
    assert(first_book_match(k, 8) == first_book_match(k, 16));
    assert(first_book_match(k, 7) == first_book_match(k, 16));
    assert(first_book_match(k, 6) == first_book_match(k, 16));
    assert(first_book_match(k, 5) == first_book_match(k, 16));
    assert(first_book_match(k, 4) == first_book_match(k, 16));
    assert(first_book_match(k, 3) == first_book_match(k, 16));
    assert(first_book_match(k, 2) == first_book_match(k, 16));
    assert(first_book_match(k, 1) == first_book_match(k, 16));
    assert(first_book_match(k, 0) == first_book_match(k, 16));
}

#[verifier::rlimit(40)]
proof fn misses_english_31_16()
    ensures
        first_book_match(canon_spec(31).name_en@, 16) == first_book_match(canon_spec(31).name_en@, 31),
{
    book_31();
    let k = canon_spec(31).name_en@;
    book_16();
    book_17();
    book_18();
    book_19();
    book_20();
    book_21();
    book_22();
    book_23();
    book_24();
    lemma_not_same(canon_spec(24).name_zh@, k, 0);
    book_25();
    book_26();
    book_27();
    lemma_not_eq_ic(canon_spec(27).name_en@, k, 0);
    book_28();
    book_29();
    book_30();
    lemma_not_same(canon_spec(30).name_zh@, k, 0);
    assert(first_book_match(k, 30) == first_book_match(k, 31));
    assert(first_book_match(k, 29) == first_book_match(k, 31));
    assert(first_book_match(k, 28) == first_book_match(k, 31));
    assert(first_book_match(k, 27) == first_book_match(k, 31));
    assert(first_book_match(k, 26) == first_book_match(k, 31));
    assert(first_book_match(k, 25) == first_book_match(k, 31));
    assert(first_book_match(k, 24) == first_book_match(k, 31));
    assert(first_book_match(k, 23) == first_book_match(k, 31));
    assert(first_book_match(k, 22) == first_book_match(k, 31));
    assert(first_book_match(k, 21) == first_book_match(k, 31));
    assert(first_book_match(k, 20) == first_book_match(k, 31));
    assert(first_book_match(k, 19) == first_book_match(k, 31));
    assert(first_book_match(k, 18) == first_book_match(k, 31));
    assert(first_book_match(k, 17) == first_book_match(k, 31));
    assert(first_book_match(k, 16) == first_book_match(k, 31));
}

proof fn found_by_english_31()
    ensures
        lookup_canon_spec(canon_spec(31).name_en@) == Some(canon_spec(31)),
{
    book_31();
    let k = canon_spec(31).name_en@;
    lemma_plain_key(k);
    lemma_not_number(k, 0);
    misses_english_31_0();
    misses_english_31_16();
    assert(first_book_match(k, 31) == Some(31int));
}

#[verifier::rlimit(40)]
proof fn misses_osis_32_0()
    ensures
        first_book_match(canon_spec(32).osis@, 0) == first_book_match(canon_spec(32).osis@, 16),
{
    book_32();
    let k = canon_spec(32).osis@;
    book_0();
    lemma_not_eq_ic(canon_spec(0).osis@, k, 0);
    lemma_not_same(canon_spec(0).name_zh@, k, 0);
    book_1();
    book_2();
    lemma_not_eq_ic(canon_spec(2).osis@, k, 0);
    lemma_not_same(canon_spec(2).name_zh@, k, 0);
    book_3();
    lemma_not_eq_ic(canon_spec(3).osis@, k, 0);
    lemma_not_same(canon_spec(3).name_zh@, k, 0);
    book_4();
    lemma_not_same(canon_spec(4).name_zh@, k, 0);
    book_5();
    book_6();
    lemma_not_same(canon_spec(6).name_zh@, k, 0);
    book_7();
    lemma_not_same(canon_spec(7).name_zh@, k, 0);
    book_8();
    book_9();
    book_10();
    book_11();
    book_12();
    book_13();
    book_14();
    book_15();
    lemma_not_eq_ic(canon_spec(15).osis@, k, 0);
    assert(first_book_match(k, 15) == first_book_match(k, 16));
    assert(first_book_match(k, 14) == first_book_match(k, 16));
    assert(first_book_match(k, 13) == first_book_match(k, 16));
    assert(first_book_match(k, 12) == first_book_match(k, 16));
    assert(first_book_match(k, 11) == first_book_match(k, 16));
    assert(first_book_match(k, 10) == first_book_match(k, 16));
    assert(first_book_match(k, 9) == first_book_match(k, 16));
    assert(first_book_match(k, 8) == first_book_match(k, 16));
    assert(first_book_match(k, 7) == first_book_match(k, 16));
    assert(first_book_match(k, 6) == first_book_match(k, 16));
    assert(first_book_match(k, 5) == first_book_match(k, 16));
    assert(first_book_match(k, 4) == first_book_match(k, 16));
    assert(first_book_match(k, 3) == first_book_match(k, 16));
    assert(first_book_match(k, 2) == first_book_match(k, 16));
    assert(first_book_match(k, 1) == first_book_match(k, 16));
    assert(first_book_match(k, 0) == first_book_match(k, 16));
}

#[verifier::rlimit(40)]
proof fn misses_osis_32_16()
    ensures
        first_book_match(canon_spec(32).osis@, 16) == first_book_match(canon_spec(32).osis@, 32),
{
    book_32();
    let k = canon_spec(32).osis@;
    book_16();
    book_17();
    lemma_not_eq_ic(canon_spec(17).osis@, k, 0);
    lemma_not_same(canon_spec(17).name_zh@, k, 0);
    lemma_not_eq_ic(canon_spec(17).name_en@, k, 0);
    book_18();
    book_19();
    book_20();
    lemma_not_same(canon_spec(20).name_zh@, k, 0);
    book_21();
    book_22();
    lemma_not_eq_ic(canon_spec(22).osis@, k, 0);
    book_23();
    lemma_not_eq_ic(canon_spec(23).osis@, k, 0);
    book_24();
    lemma_not_eq_ic(canon_spec(24).osis@, k, 0);
    book_25();
    book_26();
    lemma_not_eq_ic(canon_spec(26).osis@, k, 0);
    book_27();
    lemma_not_eq_ic(canon_spec(27).osis@, k, 0);
    book_28();
    lemma_not_same(canon_spec(28).name_zh@, k, 0);
    book_29();
    book_30();
    book_31();
    lemma_not_same(canon_spec(31).name_zh@, k, 0);
    assert(first_book_match(k, 31) == first_book_match(k, 32));
    assert(first_book_match(k, 30) == first_book_match(k, 32));
    assert(first_book_match(k, 29) == first_book_match(k, 32));
    assert(first_book_match(k, 28) == first_book_match(k, 32));
    assert(first_book_match(k, 27) == first_book_match(k, 32));
    assert(first_book_match(k, 26) == first_book_match(k, 32));
    assert(first_book_match(k, 25) == first_book_match(k, 32));
    assert(first_book_match(k, 24) == first_book_match(k, 32));
    assert(first_book_match(k, 23) == first_book_match(k, 32));
    assert(first_book_match(k, 22) == first_book_match(k, 32));
    assert(first_book_match(k, 21) == first_book_match(k, 32));
    assert(first_book_match(k, 20) == first_book_match(k, 32));
    assert(first_book_match(k, 19) == first_book_match(k, 32));
    assert(first_book_match(k, 18) == first_book_match(k, 32));
    assert(first_book_match(k, 17) == first_book_match(k, 32));
    assert(first_book_match(k, 16) == first_book_match(k, 32));
}

proof fn found_by_osis_32()
    ensures
        lookup_canon_spec(canon_spec(32).osis@) == Some(canon_spec(32)),
{
    book_32();
    let k = canon_spec(32).osis@;
    lemma_plain_key(k);
    lemma_not_number(k, 0);
    misses_osis_32_0();
    misses_osis_32_16();
    assert(first_book_match(k, 32) == Some(32int));
}

#[verifier::rlimit(40)]
proof fn misses_abbreviation_32_0()
    ensures
        first_book_match(canon_spec(32).name_zh_short@, 0) == first_book_match(canon_spec(32).name_zh_short@, 16),
{
    book_32();
    let k = canon_spec(32).name_zh_short@;
    book_0();
    lemma_not_same(canon_spec(0).name_zh_short@, k, 0);
    book_1();
    lemma_not_same(canon_spec(1).name_zh_short@, k, 0);
    book_2();
    lemma_not_same(canon_spec(2).name_zh_short@, k, 0);
    book_3();
    lemma_not_same(canon_spec(3).name_zh_short@, k, 0);
    book_4();
    lemma_not_same(canon_spec(4).name_zh_short@, k, 0);
    book_5();
    lemma_not_same(canon_spec(5).name_zh_short@, k, 0);
    book_6();
    lemma_not_same(canon_spec(6).name_zh_short@, k, 0);
    book_7();
    lemma_not_same(canon_spec(7).name_zh_short@, k, 0);
    book_8();
    book_9();
    book_10();
    book_11();
    book_12();
    book_13();
    book_14();
    lemma_not_same(canon_spec(14).name_zh_short@, k, 0);
    book_15();
    lemma_not_same(canon_spec(15).name_zh_short@, k, 0);
    assert(first_book_match(k, 15) == first_book_match(k, 16));
    assert(first_book_match(k, 14) == first_book_match(k, 16));
    assert(first_book_match(k, 13) == first_book_match(k, 16));
    assert(first_book_match(k, 12) == first_book_match(k, 16));
    assert(first_book_match(k, 11) == first_book_match(k, 16));
    assert(first_book_match(k, 10) == first_book_match(k, 16));
    assert(first_book_match(k, 9) == first_book_match(k, 16));
    assert(first_book_match(k, 8) == first_book_match(k, 16));
    assert(first_book_match(k, 7) == first_book_match(k, 16));
    assert(first_book_match(k, 6) == first_book_match(k, 16));
    assert(first_book_match(k, 5) == first_book_match(k, 16));
    assert(first_book_match(k, 4) == first_book_match(k, 16));
    assert(first_book_match(k, 3) == first_book_match(k, 16));
    assert(first_book_match(k, 2) == first_book_match(k, 16));
    assert(first_book_match(k, 1) == first_book_match(k, 16));
    assert(first_book_match(k, 0) == first_book_match(k, 16));
}

#[verifier::rlimit(40)]
proof fn misses_abbreviation_32_16()
    ensures
        first_book_match(canon_spec(32).name_zh_short@, 16) == first_book_match(canon_spec(32).name_zh_short@, 32),
{
    book_32();
    let k = canon_spec(32).name_zh_short@;
    book_16();
    lemma_not_same(canon_spec(16).name_zh_short@, k, 0);
    book_17();
    lemma_not_same(canon_spec(17).name_zh_short@, k, 0);
    book_18();
    lemma_not_same(canon_spec(18).name_zh_short@, k, 0);
    book_19();
    lemma_not_same(canon_spec(19).name_zh_short@, k, 0);
    book_20();
    lemma_not_same(canon_spec(20).name_zh_short@, k, 0);
    book_21();
    lemma_not_same(canon_spec(21).name_zh_short@, k, 0);
    book_22();
    lemma_not_same(canon_spec(22).name_zh_short@, k, 0);
    book_23();
    lemma_not_same(canon_spec(23).name_zh_short@, k, 0);
    book_24();
    lemma_not_same(canon_spec(24).name_zh_short@, k, 0);
    book_25();
    lemma_not_same(canon_spec(25).name_zh_short@, k, 0);
    book_26();
    lemma_not_same(canon_spec(26).name_zh_short@, k, 0);
    book_27();
    lemma_not_same(canon_spec(27).name_zh_short@, k, 0);
    book_28();
    lemma_not_same(canon_spec(28).name_zh_short@, k, 0);
    book_29();
    lemma_not_same(canon_spec(29).name_zh_short@, k, 0);
    book_30();
    lemma_not_same(canon_spec(30).name_zh_short@, k, 0);
    book_31();
    lemma_not_same(canon_spec(31).name_zh_short@, k, 0);
    assert(first_book_match(k, 31) == first_book_match(k, 32));
    assert(first_book_match(k, 30) == first_book_match(k, 32));
    assert(first_book_match(k, 29) == first_book_match(k, 32));
    assert(first_book_match(k, 28) == first_book_match(k, 32));
    assert(first_book_match(k, 27) == first_book_match(k, 32));
    assert(first_book_match(k, 26) == first_book_match(k, 32));
    assert(first_book_match(k, 25) == first_book_match(k, 32));
    assert(first_book_match(k, 24) == first_book_match(k, 32));
    assert(first_book_match(k, 23) == first_book_match(k, 32));
    assert(first_book_match(k, 22) == first_book_match(k, 32));
    assert(first_book_match(k, 21) == first_book_match(k, 32));
    assert(first_book_match(k, 20) == first_book_match(k, 32));
    assert(first_book_match(k, 19) == first_book_match(k, 32));
    assert(first_book_match(k, 18) == first_book_match(k, 32));
    assert(first_book_match(k, 17) == first_book_match(k, 32));
    assert(first_book_match(k, 16) == first_book_match(k, 32));
}

proof fn found_by_abbreviation_32()
    ensures
        lookup_canon_spec(canon_spec(32).name_zh_short@) == Some(canon_spec(32)),
{
    book_32();
    let k = canon_spec(32).name_zh_short@;
    lemma_plain_key(k);
    lemma_not_number(k, 0);
    misses_abbreviation_32_0();
    misses_abbreviation_32_16();
    assert(first_book_match(k, 32) == Some(32int));
}

#[verifier::rlimit(40)]
proof fn misses_english_32_0()
    ensures
        first_book_match(canon_spec(32).name_en@, 0) == first_book_match(canon_spec(32).name_en@, 16),
{
    book_32();
    let k = canon_spec(32).name_en@;
    book_0();
    book_1();
    book_2();
    book_3();
    book_4();
    book_5();
    book_6();
    book_7();
    book_8();
    lemma_not_same(canon_spec(8).name_zh@, k, 0);
    book_9();
    lemma_not_same(canon_spec(9).name_zh@, k, 0);
    book_10();
    book_11();
    book_12();
    book_13();
    book_14();
    book_15();
    assert(first_book_match(k, 15) == first_book_match(k, 16));
    assert(first_book_match(k, 14) == first_book_match(k, 16));
    assert(first_book_match(k, 13) == first_book_match(k, 16));
    assert(first_book_match(k, 12) == first_book_match(k, 16));
    assert(first_book_match(k, 11) == first_book_match(k, 16));
    assert(first_book_match(k, 10) == first_book_match(k, 16));
    assert(first_book_match(k, 9) == first_book_match(k, 16));
    assert(first_book_match(k, 8) == first_book_match(k, 16));
    assert(first_book_match(k, 7) == first_book_match(k, 16));
    assert(first_book_match(k, 6) == first_book_match(k, 16));
    assert(first_book_match(k, 5) == first_book_match(k, 16));
    assert(first_book_match(k, 4) == first_book_match(k, 16));
    assert(first_book_match(k, 3) == first_book_match(k, 16));
    assert(first_book_match(k, 2) == first_book_match(k, 16));
    assert(first_book_match(k, 1) == first_book_match(k, 16));
    assert(first_book_match(k, 0) == first_book_match(k, 16));
}

#[verifier::rlimit(40)]
proof fn misses_english_32_16()
    ensures
        first_book_match(canon_spec(32).name_en@, 16) == first_book_match(canon_spec(32).name_en@, 32),
{
    book_32();
    let k = canon_spec(32).name_en@;
    book_16();
    book_17();
    book_18();
    book_19();
    book_20();
    book_21();
    book_22();
    book_23();
    book_24();
    lemma_not_same(canon_spec(24).name_zh@, k, 0);
    book_25();
    book_26();
    book_27();
    lemma_not_eq_ic(canon_spec(27).name_en@, k, 0);
    book_28();
    book_29();
    book_30();
    lemma_not_same(canon_spec(30).name_zh@, k, 0);
    book_31();
    lemma_not_eq_ic(canon_spec(31).osis@, k, 0);
    lemma_not_eq_ic(canon_spec(31).name_en@, k, 0);
    assert(first_book_match(k, 31) == first_book_match(k, 32));
    assert(first_book_match(k, 30) == first_book_match(k, 32));
    assert(first_book_match(k, 29) == first_book_match(k, 32));
    assert(first_book_match(k, 28) == first_book_match(k, 32));
    assert(first_book_match(k, 27) == first_book_match(k, 32));
    assert(first_book_match(k, 26) == first_book_match(k, 32));
    assert(first_book_match(k, 25) == first_book_match(k, 32));
    assert(first_book_match(k, 24) == first_book_match(k, 32));
    assert(first_book_match(k, 23) == first_book_match(k, 32));
    assert(first_book_match(k, 22) == first_book_match(k, 32));
    assert(first_book_match(k, 21) == first_book_match(k, 32));
    assert(first_book_match(k, 20) == first_book_match(k, 32));
    assert(first_book_match(k, 19) == first_book_match(k, 32));
    assert(first_book_match(k, 18) == first_book_match(k, 32));
    assert(first_book_match(k, 17) == first_book_match(k, 32));
    assert(first_book_match(k, 16) == first_book_match(k, 32));
}

proof fn found_by_english_32()
    ensures
        lookup_canon_spec(canon_spec(32).name_en@) == Some(canon_spec(32)),
{
    book_32();
    let k = canon_spec(32).name_en@;
    lemma_plain_key(k);
    lemma_not_number(k, 0);
    misses_english_32_0();
    misses_english_32_16();
    assert(first_book_match(k, 32) == Some(32int));
}

#[verifier::rlimit(40)]
proof fn misses_osis_33_0()
    ensures
        first_book_match(canon_spec(33).osis@, 0) == first_book_match(canon_spec(33).osis@, 16),
{
    book_33();
    let k = canon_spec(33).osis@;
    book_0();
    lemma_not_eq_ic(canon_spec(0).osis@, k, 0);
    lemma_not_same(canon_spec(0).name_zh@, k, 0);
    book_1();
    book_2();
    lemma_not_eq_ic(canon_spec(2).osis@, k, 0);
    lemma_not_same(canon_spec(2).name_zh@, k, 0);
    book_3();
    lemma_not_eq_ic(canon_spec(3).osis@, k, 1);
    lemma_not_same(canon_spec(3).name_zh@, k, 0);
    book_4();
    lemma_not_same(canon_spec(4).name_zh@, k, 0);
    book_5();
    book_6();
    lemma_not_same(canon_spec(6).name_zh@, k, 0);
    book_7();
    lemma_not_same(canon_spec(7).name_zh@, k, 0);
    book_8();
    book_9();
    book_10();
    book_11();
    book_12();
    book_13();
    book_14();
    book_15();
    lemma_not_eq_ic(canon_spec(15).osis@, k, 1);
    assert(first_book_match(k, 15) == first_book_match(k, 16));
    assert(first_book_match(k, 14) == first_book_match(k, 16));
    assert(first_book_match(k, 13) == first_book_match(k, 16));
    assert(first_book_match(k, 12) == first_book_match(k, 16));
    assert(first_book_match(k, 11) == first_book_match(k, 16));
    assert(first_book_match(k, 10) == first_book_match(k, 16));
    assert(first_book_match(k, 9) == first_book_match(k, 16));
    assert(first_book_match(k, 8) == first_book_match(k, 16));
    assert(first_book_match(k, 7) == first_book_match(k, 16));
    assert(first_book_match(k, 6) == first_book_match(k, 16));
    assert(first_book_match(k, 5) == first_book_match(k, 16));
    assert(first_book_match(k, 4) == first_book_match(k, 16));
    assert(first_book_match(k, 3) == first_book_match(k, 16));
    assert(first_book_match(k, 2) == first_book_match(k, 16));
    assert(first_book_match(k, 1) == first_book_match(k, 16));
    assert(first_book_match(k, 0) == first_book_match(k, 16));
}

#[verifier::rlimit(40)]
proof fn misses_osis_33_16()
    ensures
        first_book_match(canon_spec(33).osis@, 16) == first_book_match(canon_spec(33).osis@, 32),
{
    book_33();
    let k = canon_spec(33).osis@;
    book_16();
    book_17();
    lemma_not_eq_ic(canon_spec(17).osis@, k, 0);
    lemma_not_same(canon_spec(17).name_zh@, k, 0);
    lemma_not_eq_ic(canon_spec(17).name_en@, k, 0);
    book_18();
    book_19();
    book_20();
    lemma_not_same(canon_spec(20).name_zh@, k, 0);
    book_21();
    book_22();
    lemma_not_eq_ic(canon_spec(22).osis@, k, 0);
    book_23();
    lemma_not_eq_ic(canon_spec(23).osis@, k, 0);
    book_24();
    lemma_not_eq_ic(canon_spec(24).osis@, k, 0);
    book_25();
    book_26();
    lemma_not_eq_ic(canon_spec(26).osis@, k, 0);
    book_27();
    lemma_not_eq_ic(canon_spec(27).osis@, k, 0);
    book_28();
    lemma_not_same(canon_spec(28).name_zh@, k, 0);
    book_29();
    book_30();
    book_31();
    lemma_not_same(canon_spec(31).name_zh@, k, 0);
    assert(first_book_match(k, 31) == first_book_match(k, 32));
    assert(first_book_match(k, 30) == first_book_match(k, 32));
    assert(first_book_match(k, 29) == first_book_match(k, 32));
    assert(first_book_match(k, 28) == first_book_match(k, 32));
    assert(first_book_match(k, 27) == first_book_match(k, 32));
    assert(first_book_match(k, 26) == first_book_match(k, 32));
    assert(first_book_match(k, 25) == first_book_match(k, 32));
    assert(first_book_match(k, 24) == first_book_match(k, 32));
    assert(first_book_match(k, 23) == first_book_match(k, 32));
    assert(first_book_match(k, 22) == first_book_match(k, 32));
    assert(first_book_match(k, 21) == first_book_match(k, 32));
    assert(first_book_match(k, 20) == first_book_match(k, 32));
    assert(first_book_match(k, 19) == first_book_match(k, 32));
    assert(first_book_match(k, 18) == first_book_match(k, 32));
    assert(first_book_match(k, 17) == first_book_match(k, 32));
    assert(first_book_match(k, 16) == first_book_match(k, 32));
}

#[verifier::rlimit(40)]
proof fn misses_osis_33_32()
    ensures
        first_book_match(canon_spec(33).osis@, 32) == first_book_match(canon_spec(33).osis@, 33),
{
    book_33();
    let k = canon_spec(33).osis@;
    book_32();
    lemma_not_eq_ic(canon_spec(32).osis@, k, 0);
    lemma_not_same(canon_spec(32).name_zh@, k, 0);
    assert(first_book_match(k, 32) == first_book_match(k, 33));
}

proof fn found_by_osis_33()
    ensures
        lookup_canon_spec(canon_spec(33).osis@) == Some(canon_spec(33)),
{
    book_33();
    let k = canon_spec(33).osis@;
    lemma_plain_key(k);
    lemma_not_number(k, 0);
    misses_osis_33_0();
    misses_osis_33_16();
    misses_osis_33_32();
    assert(first_book_match(k, 33) == Some(33int));
}

#[verifier::rlimit(40)]
proof fn misses_abbreviation_33_0()
    ensures
        first_book_match(canon_spec(33).name_zh_short@, 0) == first_book_match(canon_spec(33).name_zh_short@, 16),
{
    book_33();
    let k = canon_spec(33).name_zh_short@;
    book_0();
    lemma_not_same(canon_spec(0).name_zh_short@, k, 0);
    book_1();
    lemma_not_same(canon_spec(1).name_zh_short@, k, 0);
    book_2();
    lemma_not_same(canon_spec(2).name_zh_short@, k, 0);
    book_3();
    lemma_not_same(canon_spec(3).name_zh_short@, k, 0);
    book_4();
    lemma_not_same(canon_spec(4).name_zh_short@, k, 0);
    book_5();
    lemma_not_same(canon_spec(5).name_zh_short@, k, 0);
    book_6();
    lemma_not_same(canon_spec(6).name_zh_short@, k, 0);
    book_7();
    lemma_not_same(canon_spec(7).name_zh_short@, k, 0);
    book_8();
    book_9();
    book_10();
    book_11();
    book_12();
    book_13();
    book_14();
    lemma_not_same(canon_spec(14).name_zh_short@, k, 0);
    book_15();
    lemma_not_same(canon_spec(15).name_zh_short@, k, 0);
    assert(first_book_match(k, 15) == first_book_match(k, 16));
    assert(first_book_match(k, 14) == first_book_match(k, 16));
    assert(first_book_match(k, 13) == first_book_match(k, 16));
    assert(first_book_match(k, 12) == first_book_match(k, 16));
    assert(first_book_match(k, 11) == first_book_match(k, 16));
    assert(first_book_match(k, 10) == first_book_match(k, 16));
    assert(first_book_match(k, 9) == first_book_match(k, 16));
    assert(first_book_match(k, 8) == first_book_match(k, 16));
    assert(first_book_match(k, 7) == first_book_match(k, 16));
    assert(first_book_match(k, 6) == first_book_match(k, 16));
    assert(first_book_match(k, 5) == first_book_match(k, 16));
    assert(first_book_match(k, 4) == first_book_match(k, 16));
    assert(first_book_match(k, 3) == first_book_match(k, 16));
    assert(first_book_match(k, 2) == first_book_match(k, 16));
    assert(first_book_match(k, 1) == first_book_match(k, 16));
    assert(first_book_match(k, 0) == first_book_match(k, 16));
}

#[verifier::rlimit(40)]
proof fn misses_abbreviation_33_16()
    ensures
        first_book_match(canon_spec(33).name_zh_short@, 16) == first_book_match(canon_spec(33).name_zh_short@, 32),
{
    book_33();
    let k = canon_spec(33).name_zh_short@;
    book_16();
    lemma_not_same(canon_spec(16).name_zh_short@, k, 0);
    book_17();
    lemma_not_same(canon_spec(17).name_zh_short@, k, 0);
    book_18();
    lemma_not_same(canon_spec(18).name_zh_short@, k, 0);
    book_19();
    lemma_not_same(canon_spec(19).name_zh_short@, k, 0);
    book_20();
    lemma_not_same(canon_spec(20).name_zh_short@, k, 0);
    book_21();
    lemma_not_same(canon_spec(21).name_zh_short@, k, 0);
    book_22();
    lemma_not_same(canon_spec(22).name_zh_short@, k, 0);
    book_23();
    lemma_not_same(canon_spec(23).name_zh_short@, k, 0);
    book_24();
    lemma_not_same(canon_spec(24).name_zh_short@, k, 0);
    book_25();
    lemma_not_same(canon_spec(25).name_zh_short@, k, 0);
    book_26();
    lemma_not_same(canon_spec(26).name_zh_short@, k, 0);
    book_27();
    lemma_not_same(canon_spec(27).name_zh_short@, k, 0);
    book_28();
    lemma_not_same(canon_spec(28).name_zh_short@, k, 0);
    book_29();
    lemma_not_same(canon_spec(29).name_zh_short@, k, 0);
    book_30();
    lemma_not_same(canon_spec(30).name_zh_short@, k, 0);
    book_31();
    lemma_not_same(canon_spec(31).name_zh_short@, k, 0);
    assert(first_book_match(k, 31) == first_book_match(k, 32));
    assert(first_book_match(k, 30) == first_book_match(k, 32));
    assert(first_book_match(k, 29) == first_book_match(k, 32));
    assert(first_book_match(k, 28) == first_book_match(k, 32));
    assert(first_book_match(k, 27) == first_book_match(k, 32));
    assert(first_book_match(k, 26) == first_book_match(k, 32));
    assert(first_book_match(k, 25) == first_book_match(k, 32));
    assert(first_book_match(k, 24) == first_book_match(k, 32));
    assert(first_book_match(k, 23) == first_book_match(k, 32));
    assert(first_book_match(k, 22) == first_book_match(k, 32));
    assert(first_book_match(k, 21) == first_book_match(k, 32));
    assert(first_book_match(k, 20) == first_book_match(k, 32));
    assert(first_book_match(k, 19) == first_book_match(k, 32));
    assert(first_book_match(k, 18) == first_book_match(k, 32));
    assert(first_book_match(k, 17) == first_book_match(k, 32));
    assert(first_book_match(k, 16) == first_book_match(k, 32));
}

#[verifier::rlimit(40)]
proof fn misses_abbreviation_33_32()
    ensures
        first_book_match(canon_spec(33).name_zh_short@, 32) == first_book_match(canon_spec(33).name_zh_short@, 33),
{
    book_33();
    let k = canon_spec(33).name_zh_short@;
    book_32();
    lemma_not_same(canon_spec(32).name_zh_short@, k, 0);
    assert(first_book_match(k, 32) == first_book_match(k, 33));
}

proof fn found_by_abbreviation_33()
    ensures
        lookup_canon_spec(canon_spec(33).name_zh_short@) == Some(canon_spec(33)),
{
    book_33();
    let k = canon_spec(33).name_zh_short@;
    lemma_plain_key(k);
    lemma_not_number(k, 0);
    misses_abbreviation_33_0();
    misses_abbreviation_33_16();
    misses_abbreviation_33_32();
    assert(first_book_match(k, 33) == Some(33int));
}

#[verifier::rlimit(40)]
proof fn misses_english_33_0()
    ensures
        first_book_match(canon_spec(33).name_en@, 0) == first_book_match(canon_spec(33).name_en@, 16),
{
    book_33();
    let k = canon_spec(33).name_en@;
    book_0();
    book_1();
    book_2();
    book_3();
    book_4();
    book_5();
    book_6();
    book_7();
    book_8();
    lemma_not_same(canon_spec(8).name_zh@, k, 0);
    book_9();
    lemma_not_same(canon_spec(9).name_zh@, k, 0);
    book_10();
    book_11();
    book_12();
    book_13();
    book_14();
    book_15();
    assert(first_book_match(k, 15) == first_book_match(k, 16));
    assert(first_book_match(k, 14) == first_book_match(k, 16));
    assert(first_book_match(k, 13) == first_book_match(k, 16));
    assert(first_book_match(k, 12) == first_book_match(k, 16));
    assert(first_book_match(k, 11) == first_book_match(k, 16));
    assert(first_book_match(k, 10) == first_book_match(k, 16));
    assert(first_book_match(k, 9) == first_book_match(k, 16));
    assert(first_book_match(k, 8) == first_book_match(k, 16));
    assert(first_book_match(k, 7) == first_book_match(k, 16));
    assert(first_book_match(k, 6) == first_book_match(k, 16));
    assert(first_book_match(k, 5) == first_book_match(k, 16));
    assert(first_book_match(k, 4) == first_book_match(k, 16));
    assert(first_book_match(k, 3) == first_book_match(k, 16));
    assert(first_book_match(k, 2) == first_book_match(k, 16));
    assert(first_book_match(k, 1) == first_book_match(k, 16));
    assert(first_book_match(k, 0) == first_book_match(k, 16));
}

#[verifier::rlimit(40)]
proof fn misses_english_33_16()
    ensures
        first_book_match(canon_spec(33).name_en@, 16) == first_book_match(canon_spec(33).name_en@, 32),
{
    book_33();
    let k = canon_spec(33).name_en@;
    book_16();
    book_17();
    book_18();
    book_19();
    book_20();
    book_21();
    book_22();
    book_23();
    book_24();
    lemma_not_same(canon_spec(24).name_zh@, k, 0);
    book_25();
    book_26();
    book_27();
    lemma_not_eq_ic(canon_spec(27).name_en@, k, 0);
    book_28();
    book_29();
    book_30();
    lemma_not_same(canon_spec(30).name_zh@, k, 0);
    book_31();
    lemma_not_eq_ic(canon_spec(31).osis@, k, 0);
    lemma_not_eq_ic(canon_spec(31).name_en@, k, 0);
    assert(first_book_match(k, 31) == first_book_match(k, 32));
    assert(first_book_match(k, 30) == first_book_match(k, 32));
    assert(first_book_match(k, 29) == first_book_match(k, 32));
    assert(first_book_match(k, 28) == first_book_match(k, 32));
    assert(first_book_match(k, 27) == first_book_match(k, 32));
    assert(first_book_match(k, 26) == first_book_match(k, 32));
    assert(first_book_match(k, 25) == first_book_match(k, 32));
    assert(first_book_match(k, 24) == first_book_match(k, 32));
    assert(first_book_match(k, 23) == first_book_match(k, 32));
    assert(first_book_match(k, 22) == first_book_match(k, 32));
    assert(first_book_match(k, 21) == first_book_match(k, 32));
    assert(first_book_match(k, 20) == first_book_match(k, 32));
    assert(first_book_match(k, 19) == first_book_match(k, 32));
    assert(first_book_match(k, 18) == first_book_match(k, 32));
    assert(first_book_match(k, 17) == first_book_match(k, 32));
    assert(first_book_match(k, 16) == first_book_match(k, 32));
}

#[verifier::rlimit(40)]
proof fn misses_english_33_32()
    ensures
        first_book_match(canon_spec(33).name_en@, 32) == first_book_match(canon_spec(33).name_en@, 33),
{
    book_33();
    let k = canon_spec(33).name_en@;
    book_32();
    lemma_not_eq_ic(canon_spec(32).name_en@, k, 0);
    assert(first_book_match(k, 32) == first_book_match(k, 33));
}

proof fn found_by_english_33()
    ensures
        lookup_canon_spec(canon_spec(33).name_en@) == Some(canon_spec(33)),
{
    book_33();
    let k = canon_spec(33).name_en@;
    lemma_plain_key(k);
    lemma_not_number(k, 0);
    misses_english_33_0();
    misses_english_33_16();
    misses_english_33_32();
    assert(first_book_match(k, 33) == Some(33int));
}

#[verifier::rlimit(40)]
proof fn misses_osis_34_0()
    ensures
        first_book_match(canon_spec(34).osis@, 0) == first_book_match(canon_spec(34).osis@, 16),
{
    book_34();
    let k = canon_spec(34).osis@;
    book_0();
    lemma_not_eq_ic(canon_spec(0).osis@, k, 0);
    lemma_not_same(canon_spec(0).name_zh@, k, 0);
    book_1();
    book_2();
    lemma_not_eq_ic(canon_spec(2).osis@, k, 0);
    lemma_not_same(canon_spec(2).name_zh@, k, 0);
    book_3();
    lemma_not_eq_ic(canon_spec(3).osis@, k, 0);
    lemma_not_same(canon_spec(3).name_zh@, k, 0);
    book_4();
    lemma_not_same(canon_spec(4).name_zh@, k, 0);
    book_5();
    book_6();
    lemma_not_same(canon_spec(6).name_zh@, k, 0);
    book_7();
    lemma_not_same(canon_spec(7).name_zh@, k, 0);
    book_8();
    book_9();
    book_10();
    book_11();
    book_12();
    book_13();
    book_14();
    book_15();
    lemma_not_eq_ic(canon_spec(15).osis@, k, 0);
    assert(first_book_match(k, 15) == first_book_match(k, 16));
    assert(first_book_match(k, 14) == first_book_match(k, 16));
    assert(first_book_match(k, 13) == first_book_match(k, 16));
    assert(first_book_match(k, 12) == first_book_match(k, 16));
    assert(first_book_match(k, 11) == first_book_match(k, 16));
    assert(first_book_match(k, 10) == first_book_match(k, 16));
    assert(first_book_match(k, 9) == first_book_match(k, 16));
    assert(first_book_match(k, 8) == first_book_match(k, 16));
    assert(first_book_match(k, 7) == first_book_match(k, 16));
    assert(first_book_match(k, 6) == first_book_match(k, 16));
    assert(first_book_match(k, 5) == first_book_match(k, 16));
    assert(first_book_match(k, 4) == first_book_match(k, 16));
    assert(first_book_match(k, 3) == first_book_match(k, 16));
    assert(first_book_match(k, 2) == first_book_match(k, 16));
    assert(first_book_match(k, 1) == first_book_match(k, 16));
    assert(first_book_match(k, 0) == first_book_match(k, 16));
}

#[verifier::rlimit(40)]
proof fn misses_osis_34_16()
    ensures
        first_book_match(canon_spec(34).osis@, 16) == first_book_match(canon_spec(34).osis@, 32),
{
    book_34();
    let k = canon_spec(34).osis@;
    book_16();
    book_17();
    lemma_not_eq_ic(canon_spec(17).osis@, k, 0);
    lemma_not_same(canon_spec(17).name_zh@, k, 0);
    lemma_not_eq_ic(canon_spec(17).name_en@, k, 0);
    book_18();
    book_19();
    book_20();
    lemma_not_same(canon_spec(20).name_zh@, k, 0);
    book_21();
    book_22();
    lemma_not_eq_ic(canon_spec(22).osis@, k, 0);
    book_23();
    lemma_not_eq_ic(canon_spec(23).osis@, k, 0);
    book_24();
    lemma_not_eq_ic(canon_spec(24).osis@, k, 0);
    book_25();
    book_26();
    lemma_not_eq_ic(canon_spec(26).osis@, k, 0);
    book_27();
    lemma_not_eq_ic(canon_spec(27).osis@, k, 1);
    book_28();
    lemma_not_same(canon_spec(28).name_zh@, k, 0);
    book_29();
    book_30();
    book_31();
    lemma_not_same(canon_spec(31).name_zh@, k, 0);
    assert(first_book_match(k, 31) == first_book_match(k, 32));
    assert(first_book_match(k, 30) == first_book_match(k, 32));
    assert(first_book_match(k, 29) == first_book_match(k, 32));
    assert(first_book_match(k, 28) == first_book_match(k, 32));
    assert(first_book_match(k, 27) == first_book_match(k, 32));
    assert(first_book_match(k, 26) == first_book_match(k, 32));
    assert(first_book_match(k, 25) == first_book_match(k, 32));
    assert(first_book_match(k, 24) == first_book_match(k, 32));
    assert(first_book_match(k, 23) == first_book_match(k, 32));
    assert(first_book_match(k, 22) == first_book_match(k, 32));
    assert(first_book_match(k, 21) == first_book_match(k, 32));
    assert(first_book_match(k, 20) == first_book_match(k, 32));
    assert(first_book_match(k, 19) == first_book_match(k, 32));
    assert(first_book_match(k, 18) == first_book_match(k, 32));
    assert(first_book_match(k, 17) == first_book_match(k, 32));
    assert(first_book_match(k, 16) == first_book_match(k, 32));
}

#[verifier::rlimit(40)]
proof fn misses_osis_34_32()
    ensures
        first_book_match(canon_spec(34).osis@, 32) == first_book_match(canon_spec(34).osis@, 34),
{
    book_34();
    let k = canon_spec(34).osis@;
    book_32();
    lemma_not_eq_ic(canon_spec(32).osis@, k, 0);
    lemma_not_same(canon_spec(32).name_zh@, k, 0);
    book_33();
    lemma_not_eq_ic(canon_spec(33).osis@, k, 0);
    lemma_not_same(canon_spec(33).name_zh@, k, 0);
    assert(first_book_match(k, 33) == first_book_match(k, 34));
    assert(first_book_match(k, 32) == first_book_match(k, 34));
}

proof fn found_by_osis_34()
    ensures
        lookup_canon_spec(canon_spec(34).osis@) == Some(canon_spec(34)),
{
    book_34();
    let k = canon_spec(34).osis@;
    lemma_plain_key(k);
    lemma_not_number(k, 0);
    misses_osis_34_0();
    misses_osis_34_16();
    misses_osis_34_32();
    assert(first_book_match(k, 34) == Some(34int));
}

#[verifier::rlimit(40)]
proof fn misses_abbreviation_34_0()
    ensures
        first_book_match(canon_spec(34).name_zh_short@, 0) == first_book_match(canon_spec(34).name_zh_short@, 16),
{
    book_34();
    let k = canon_spec(34).name_zh_short@;
    book_0();
    lemma_not_same(canon_spec(0).name_zh_short@, k, 0);
    book_1();
    lemma_not_same(canon_spec(1).name_zh_short@, k, 0);
    book_2();
    lemma_not_same(canon_spec(2).name_zh_short@, k, 0);
    book_3();
    lemma_not_same(canon_spec(3).name_zh_short@, k, 0);
    book_4();
    lemma_not_same(canon_spec(4).name_zh_short@, k, 0);
    book_5();
    lemma_not_same(canon_spec(5).name_zh_short@, k, 0);
    book_6();
    lemma_not_same(canon_spec(6).name_zh_short@, k, 0);
    book_7();
    lemma_not_same(canon_spec(7).name_zh_short@, k, 0);
    book_8();
    book_9();
    book_10();
    book_11();
    book_12();
    book_13();
    book_14();
    lemma_not_same(canon_spec(14).name_zh_short@, k, 0);
    book_15();
    lemma_not_same(canon_spec(15).name_zh_short@, k, 0);
    assert(first_book_match(k, 15) == first_book_match(k, 16));
    assert(first_book_match(k, 14) == first_book_match(k, 16));
    assert(first_book_match(k, 13) == first_book_match(k, 16));
    assert(first_book_match(k, 12) == first_book_match(k, 16));
    assert(first_book_match(k, 11) == first_book_match(k, 16));
    assert(first_book_match(k, 10) == first_book_match(k, 16));
    assert(first_book_match(k, 9) == first_book_match(k, 16));
    assert(first_book_match(k, 8) == first_book_match(k, 16));
    assert(first_book_match(k, 7) == first_book_match(k, 16));
    assert(first_book_match(k, 6) == first_book_match(k, 16));
    assert(first_book_match(k, 5) == first_book_match(k, 16));
    assert(first_book_match(k, 4) == first_book_match(k, 16));
    assert(first_book_match(k, 3) == first_book_match(k, 16));
    assert(first_book_match(k, 2) == first_book_match(k, 16));
    assert(first_book_match(k, 1) == first_book_match(k, 16));
    assert(first_book_match(k, 0) == first_book_match(k, 16));
}

#[verifier::rlimit(40)]
proof fn misses_abbreviation_34_16()
    ensures
        first_book_match(canon_spec(34).name_zh_short@, 16) == first_book_match(canon_spec(34).name_zh_short@, 32),
{
    book_34();
    let k = canon_spec(34).name_zh_short@;
    book_16();
    lemma_not_same(canon_spec(16).name_zh_short@, k, 0);
    book_17();
    lemma_not_same(canon_spec(17).name_zh_short@, k, 0);
    book_18();
    lemma_not_same(canon_spec(18).name_zh_short@, k, 0);
    book_19();
    lemma_not_same(canon_spec(19).name_zh_short@, k, 0);
    book_20();
    lemma_not_same(canon_spec(20).name_zh_short@, k, 0);
    book_21();
    lemma_not_same(canon_spec(21).name_zh_short@, k, 0);
    book_22();
    lemma_not_same(canon_spec(22).name_zh_short@, k, 0);
    book_23();
    lemma_not_same(canon_spec(23).name_zh_short@, k, 0);
    book_24();
    lemma_not_same(canon_spec(24).name_zh_short@, k, 0);
    book_25();
    lemma_not_same(canon_spec(25).name_zh_short@, k, 0);
    book_26();
    lemma_not_same(canon_spec(26).name_zh_short@, k, 0);
    book_27();
    lemma_not_same(canon_spec(27).name_zh_short@, k, 0);
    book_28();
    lemma_not_same(canon_spec(28).name_zh_short@, k, 0);
    book_29();
    lemma_not_same(canon_spec(29).name_zh_short@, k, 0);
    book_30();
    lemma_not_same(canon_spec(30).name_zh_short@, k, 0);
    book_31();
    lemma_not_same(canon_spec(31).name_zh_short@, k, 0);
    assert(first_book_match(k, 31) == first_book_match(k, 32));
    assert(first_book_match(k, 30) == first_book_match(k, 32));
    assert(first_book_match(k, 29) == first_book_match(k, 32));
    assert(first_book_match(k, 28) == first_book_match(k, 32));
    assert(first_book_match(k, 27) == first_book_match(k, 32));
    assert(first_book_match(k, 26) == first_book_match(k, 32));
    assert(first_book_match(k, 25) == first_book_match(k, 32));
    assert(first_book_match(k, 24) == first_book_match(k, 32));
    assert(first_book_match(k, 23) == first_book_match(k, 32));
    assert(first_book_match(k, 22) == first_book_match(k, 32));
    assert(first_book_match(k, 21) == first_book_match(k, 32));
    assert(first_book_match(k, 20) == first_book_match(k, 32));
    assert(first_book_match(k, 19) == first_book_match(k, 32));
    assert(first_book_match(k, 18) == first_book_match(k, 32));
    assert(first_book_match(k, 17) == first_book_match(k, 32));
    assert(first_book_match(k, 16) == first_book_match(k, 32));
}

#[verifier::rlimit(40)]
proof fn misses_abbreviation_34_32()
    ensures
        first_book_match(canon_spec(34).name_zh_short@, 32) == first_book_match(canon_spec(34).name_zh_short@, 34),
{
    book_34();
    let k = canon_spec(34).name_zh_short@;
    book_32();
    lemma_not_same(canon_spec(32).name_zh_short@, k, 0);
    book_33();
    lemma_not_same(canon_spec(33).name_zh_short@, k, 0);
    assert(first_book_match(k, 33) == first_book_match(k, 34));
    assert(first_book_match(k, 32) == first_book_match(k, 34));
}

proof fn found_by_abbreviation_34()
    ensures
        lookup_canon_spec(canon_spec(34).name_zh_short@) == Some(canon_spec(34)),
{
    book_34();
    let k = canon_spec(34).name_zh_short@;
    lemma_plain_key(k);
    lemma_not_number(k, 0);
    misses_abbreviation_34_0();
    misses_abbreviation_34_16();
    misses_abbreviation_34_32();
    assert(first_book_match(k, 34) == Some(34int));
}

#[verifier::rlimit(40)]
proof fn misses_english_34_0()
    ensures
        first_book_match(canon_spec(34).name_en@, 0) == first_book_match(canon_spec(34).name_en@, 16),
{
    book_34();
    let k = canon_spec(34).name_en@;
    book_0();
    book_1();
    book_2();
    book_3();
    book_4();
    book_5();
    book_6();
    book_7();
    book_8();
    lemma_not_eq_ic(canon_spec(8).name_en@, k, 0);
    book_9();
    lemma_not_eq_ic(canon_spec(9).name_en@, k, 0);
    book_10();
    book_11();
    book_12();
    book_13();
    book_14();
    book_15();
    lemma_not_eq_ic(canon_spec(15).name_en@, k, 0);
    assert(first_book_match(k, 15) == first_book_match(k, 16));
    assert(first_book_match(k, 14) == first_book_match(k, 16));
    assert(first_book_match(k, 13) == first_book_match(k, 16));
    assert(first_book_match(k, 12) == first_book_match(k, 16));
    assert(first_book_match(k, 11) == first_book_match(k, 16));
    assert(first_book_match(k, 10) == first_book_match(k, 16));
    assert(first_book_match(k, 9) == first_book_match(k, 16));
    assert(first_book_match(k, 8) == first_book_match(k, 16));
    assert(first_book_match(k, 7) == first_book_match(k, 16));
    assert(first_book_match(k, 6) == first_book_match(k, 16));
    assert(first_book_match(k, 5) == first_book_match(k, 16));
    assert(first_book_match(k, 4) == first_book_match(k, 16));
    assert(first_book_match(k, 3) == first_book_match(k, 16));
    assert(first_book_match(k, 2) == first_book_match(k, 16));
    assert(first_book_match(k, 1) == first_book_match(k, 16));
    assert(first_book_match(k, 0) == first_book_match(k, 16));
}

#[verifier::rlimit(40)]
proof fn misses_english_34_16()
    ensures
        first_book_match(canon_spec(34).name_en@, 16) == first_book_match(canon_spec(34).name_en@, 32),
{
    book_34();
    let k = canon_spec(34).name_en@;
    book_16();
    book_17();
    book_18();
    book_19();
    lemma_not_eq_ic(canon_spec(19).name_en@, k, 0);
    book_20();
    book_21();
    book_22();
    book_23();
    lemma_not_eq_ic(canon_spec(23).name_en@, k, 0);
    book_24();
    book_25();
    book_26();
    book_27();
    book_28();
    book_29();
    book_30();
    book_31();
    assert(first_book_match(k, 31) == first_book_match(k, 32));
    assert(first_book_match(k, 30) == first_book_match(k, 32));
    assert(first_book_match(k, 29) == first_book_match(k, 32));
    assert(first_book_match(k, 28) == first_book_match(k, 32));
    assert(first_book_match(k, 27) == first_book_match(k, 32));
    assert(first_book_match(k, 26) == first_book_match(k, 32));
    assert(first_book_match(k, 25) == first_book_match(k, 32));
    assert(first_book_match(k, 24) == first_book_match(k, 32));
    assert(first_book_match(k, 23) == first_book_match(k, 32));
    assert(first_book_match(k, 22) == first_book_match(k, 32));
    assert(first_book_match(k, 21) == first_book_match(k, 32));
    assert(first_book_match(k, 20) == first_book_match(k, 32));
    assert(first_book_match(k, 19) == first_book_match(k, 32));
    assert(first_book_match(k, 18) == first_book_match(k, 32));
    assert(first_book_match(k, 17) == first_book_match(k, 32));
    assert(first_book_match(k, 16) == first_book_match(k, 32));
}

#[verifier::rlimit(40)]
proof fn misses_english_34_32()
    ensures
        first_book_match(canon_spec(34).name_en@, 32) == first_book_match(canon_spec(34).name_en@, 34),
{
    book_34();
    let k = canon_spec(34).name_en@;
    book_32();
    book_33();
    assert(first_book_match(k, 33) == first_book_match(k, 34));
    assert(first_book_match(k, 32) == first_book_match(k, 34));
}

proof fn found_by_english_34()
    ensures
        lookup_canon_spec(canon_spec(34).name_en@) == Some(canon_spec(34)),
{
    book_34();
    let k = canon_spec(34).name_en@;
    lemma_plain_key(k);
    lemma_not_number(k, 0);
    misses_english_34_0();
    misses_english_34_16();
    misses_english_34_32();
    assert(first_book_match(k, 34) == Some(34int));
}

#[verifier::rlimit(40)]
proof fn misses_osis_35_0()
    ensures
        first_book_match(canon_spec(35).osis@, 0) == first_book_match(canon_spec(35).osis@, 16),
{
    book_35();
    let k = canon_spec(35).osis@;
    book_0();
    book_1();
    lemma_not_eq_ic(canon_spec(1).osis@, k, 0);
    lemma_not_same(canon_spec(1).name_zh@, k, 0);
    book_2();
    book_3();
    book_4();
    lemma_not_eq_ic(canon_spec(4).osis@, k, 0);
    book_5();
    lemma_not_eq_ic(canon_spec(5).osis@, k, 0);
    lemma_not_same(canon_spec(5).name_zh@, k, 0);
    book_6();
    lemma_not_eq_ic(canon_spec(6).osis@, k, 0);
    book_7();
    lemma_not_eq_ic(canon_spec(7).osis@, k, 0);
    lemma_not_eq_ic(canon_spec(7).name_en@, k, 0);
    book_8();
    lemma_not_eq_ic(canon_spec(8).osis@, k, 0);
    book_9();
    lemma_not_eq_ic(canon_spec(9).osis@, k, 0);
    book_10();
    lemma_not_eq_ic(canon_spec(10).osis@, k, 0);
    lemma_not_same(canon_spec(10).name_zh@, k, 0);
    book_11();
    lemma_not_eq_ic(canon_spec(11).osis@, k, 0);
    lemma_not_same(canon_spec(11).name_zh@, k, 0);
    book_12();
    lemma_not_eq_ic(canon_spec(12).osis@, k, 0);
    lemma_not_same(canon_spec(12).name_zh@, k, 0);
    book_13();
    lemma_not_eq_ic(canon_spec(13).osis@, k, 0);
    lemma_not_same(canon_spec(13).name_zh@, k, 0);
    book_14();
    lemma_not_eq_ic(canon_spec(14).osis@, k, 0);
    lemma_not_same(canon_spec(14).name_zh@, k, 0);
    lemma_not_eq_ic(canon_spec(14).name_en@, k, 0);
    book_15();
    lemma_not_same(canon_spec(15).name_zh@, k, 0);
    assert(first_book_match(k, 15) == first_book_match(k, 16));
    assert(first_book_match(k, 14) == first_book_match(k, 16));
    assert(first_book_match(k, 13) == first_book_match(k, 16));
    assert(first_book_match(k, 12) == first_book_match(k, 16));
    assert(first_book_match(k, 11) == first_book_match(k, 16));
    assert(first_book_match(k, 10) == first_book_match(k, 16));
    assert(first_book_match(k, 9) == first_book_match(k, 16));
    assert(first_book_match(k, 8) == first_book_match(k, 16));
    assert(first_book_match(k, 7) == first_book_match(k, 16));
    assert(first_book_match(k, 6) == first_book_match(k, 16));
    assert(first_book_match(k, 5) == first_book_match(k, 16));
    assert(first_book_match(k, 4) == first_book_match(k, 16));
    assert(first_book_match(k, 3) == first_book_match(k, 16));
    assert(first_book_match(k, 2) == first_book_match(k, 16));
    assert(first_book_match(k, 1) == first_book_match(k, 16));
    assert(first_book_match(k, 0) == first_book_match(k, 16));
}

#[verifier::rlimit(40)]
proof fn misses_osis_35_16()
    ensures
        first_book_match(canon_spec(35).osis@, 16) == first_book_match(canon_spec(35).osis@, 32),
{
    book_35();
    let k = canon_spec(35).osis@;
    book_16();
    lemma_not_eq_ic(canon_spec(16).osis@, k, 0);
    lemma_not_same(canon_spec(16).name_zh@, k, 0);
    book_17();
    book_18();
    book_19();
    lemma_not_eq_ic(canon_spec(19).osis@, k, 0);
    book_20();
    lemma_not_eq_ic(canon_spec(20).osis@, k, 0);
    book_21();
    lemma_not_eq_ic(canon_spec(21).osis@, k, 0);
    book_22();
    lemma_not_same(canon_spec(22).name_zh@, k, 0);
    book_23();
    lemma_not_same(canon_spec(23).name_zh@, k, 0);
    book_24();
    book_25();
    lemma_not_eq_ic(canon_spec(25).osis@, k, 0);
    lemma_not_same(canon_spec(25).name_zh@, k, 0);
    book_26();
    lemma_not_same(canon_spec(26).name_zh@, k, 0);
    book_27();
    lemma_not_same(canon_spec(27).name_zh@, k, 0);
    book_28();
    lemma_not_eq_ic(canon_spec(28).osis@, k, 0);
    lemma_not_eq_ic(canon_spec(28).name_en@, k, 0);
    book_29();
    lemma_not_eq_ic(canon_spec(29).osis@, k, 0);
    lemma_not_same(canon_spec(29).name_zh@, k, 0);
    lemma_not_eq_ic(canon_spec(29).name_en@, k, 0);
    book_30();
    lemma_not_eq_ic(canon_spec(30).osis@, k, 0);
    book_31();
    assert(first_book_match(k, 31) == first_book_match(k, 32));
    assert(first_book_match(k, 30) == first_book_match(k, 32));
    assert(first_book_match(k, 29) == first_book_match(k, 32));
    assert(first_book_match(k, 28) == first_book_match(k, 32));
    assert(first_book_match(k, 27) == first_book_match(k, 32));
    assert(first_book_match(k, 26) == first_book_match(k, 32));
    assert(first_book_match(k, 25) == first_book_match(k, 32));
    assert(first_book_match(k, 24) == first_book_match(k, 32));
    assert(first_book_match(k, 23) == first_book_match(k, 32));
    assert(first_book_match(k, 22) == first_book_match(k, 32));
    assert(first_book_match(k, 21) == first_book_match(k, 32));
    assert(first_book_match(k, 20) == first_book_match(k, 32));
    assert(first_book_match(k, 19) == first_book_match(k, 32));
    assert(first_book_match(k, 18) == first_book_match(k, 32));
    assert(first_book_match(k, 17) == first_book_match(k, 32));
    assert(first_book_match(k, 16) == first_book_match(k, 32));
}

#[verifier::rlimit(40)]
proof fn misses_osis_35_32()
    ensures
        first_book_match(canon_spec(35).osis@, 32) == first_book_match(canon_spec(35).osis@, 35),
{
    book_35();
    let k = canon_spec(35).osis@;
    book_32();
    book_33();
    book_34();
    lemma_not_same(canon_spec(34).name_zh@, k, 0);
    assert(first_book_match(k, 34) == first_book_match(k, 35));
    assert(first_book_match(k, 33) == first_book_match(k, 35));
    assert(first_book_match(k, 32) == first_book_match(k, 35));
}

proof fn found_by_osis_35()
    ensures
        lookup_canon_spec(canon_spec(35).osis@) == Some(canon_spec(35)),
{
    book_35();
    let k = canon_spec(35).osis@;
    lemma_plain_key(k);
    lemma_not_number(k, 0);
    misses_osis_35_0();
    misses_osis_35_16();
    misses_osis_35_32();
    assert(first_book_match(k, 35) == Some(35int));
}

#[verifier::rlimit(40)]
proof fn misses_abbreviation_35_0()
    ensures
        first_book_match(canon_spec(35).name_zh_short@, 0) == first_book_match(canon_spec(35).name_zh_short@, 16),
{
    book_35();
    let k = canon_spec(35).name_zh_short@;
    book_0();
    lemma_not_same(canon_spec(0).name_zh_short@, k, 0);
    book_1();
    lemma_not_same(canon_spec(1).name_zh_short@, k, 0);
    book_2();
    lemma_not_same(canon_spec(2).name_zh_short@, k, 0);
    book_3();
    lemma_not_same(canon_spec(3).name_zh_short@, k, 0);
    book_4();
    lemma_not_same(canon_spec(4).name_zh_short@, k, 0);
    book_5();
    lemma_not_same(canon_spec(5).name_zh_short@, k, 0);
    book_6();
    lemma_not_same(canon_spec(6).name_zh_short@, k, 0);
    book_7();
    lemma_not_same(canon_spec(7).name_zh_short@, k, 0);
    book_8();
    book_9();
    book_10();
    book_11();
    book_12();
    book_13();
    book_14();
    lemma_not_same(canon_spec(14).name_zh_short@, k, 0);
    book_15();
    lemma_not_same(canon_spec(15).name_zh_short@, k, 0);
    assert(first_book_match(k, 15) == first_book_match(k, 16));
    assert(first_book_match(k, 14) == first_book_match(k, 16));
    assert(first_book_match(k, 13) == first_book_match(k, 16));
    assert(first_book_match(k, 12) == first_book_match(k, 16));
    assert(first_book_match(k, 11) == first_book_match(k, 16));
    assert(first_book_match(k, 10) == first_book_match(k, 16));
    assert(first_book_match(k, 9) == first_book_match(k, 16));
    assert(first_book_match(k, 8) == first_book_match(k, 16));
    assert(first_book_match(k, 7) == first_book_match(k, 16));
    assert(first_book_match(k, 6) == first_book_match(k, 16));
    assert(first_book_match(k, 5) == first_book_match(k, 16));
    assert(first_book_match(k, 4) == first_book_match(k, 16));
    assert(first_book_match(k, 3) == first_book_match(k, 16));
    assert(first_book_match(k, 2) == first_book_match(k, 16));
    assert(first_book_match(k, 1) == first_book_match(k, 16));
    assert(first_book_match(k, 0) == first_book_match(k, 16));
}

#[verifier::rlimit(40)]
proof fn misses_abbreviation_35_16()
    ensures
        first_book_match(canon_spec(35).name_zh_short@, 16) == first_book_match(canon_spec(35).name_zh_short@, 32),
{
    book_35();
    let k = canon_spec(35).name_zh_short@;
    book_16();
    lemma_not_same(canon_spec(16).name_zh_short@, k, 0);
    book_17();
    lemma_not_same(canon_spec(17).name_zh_short@, k, 0);
    book_18();
    lemma_not_same(canon_spec(18).name_zh_short@, k, 0);
    book_19();
    lemma_not_same(canon_spec(19).name_zh_short@, k, 0);
    book_20();
    lemma_not_same(canon_spec(20).name_zh_short@, k, 0);
    book_21();
    lemma_not_same(canon_spec(21).name_zh_short@, k, 0);
    book_22();
    lemma_not_same(canon_spec(22).name_zh_short@, k, 0);
    book_23();
    lemma_not_same(canon_spec(23).name_zh_short@, k, 0);
    book_24();
    lemma_not_same(canon_spec(24).name_zh_short@, k, 0);
    book_25();
    lemma_not_same(canon_spec(25).name_zh_short@, k, 0);
    book_26();
    lemma_not_same(canon_spec(26).name_zh_short@, k, 0);
    book_27();
    lemma_not_same(canon_spec(27).name_zh_short@, k, 0);
    book_28();
    lemma_not_same(canon_spec(28).name_zh_short@, k, 0);
    book_29();
    lemma_not_same(canon_spec(29).name_zh_short@, k, 0);
    book_30();
    lemma_not_same(canon_spec(30).name_zh_short@, k, 0);
    book_31();
    lemma_not_same(canon_spec(31).name_zh_short@, k, 0);
    assert(first_book_match(k, 31) == first_book_match(k, 32));
    assert(first_book_match(k, 30) == first_book_match(k, 32));
    assert(first_book_match(k, 29) == first_book_match(k, 32));
    assert(first_book_match(k, 28) == first_book_match(k, 32));
    assert(first_book_match(k, 27) == first_book_match(k, 32));
    assert(first_book_match(k, 26) == first_book_match(k, 32));
    assert(first_book_match(k, 25) == first_book_match(k, 32));
    assert(first_book_match(k, 24) == first_book_match(k, 32));
    assert(first_book_match(k, 23) == first_book_match(k, 32));
    assert(first_book_match(k, 22) == first_book_match(k, 32));
    assert(first_book_match(k, 21) == first_book_match(k, 32));
    assert(first_book_match(k, 20) == first_book_match(k, 32));
    assert(first_book_match(k, 19) == first_book_match(k, 32));
    assert(first_book_match(k, 18) == first_book_match(k, 32));
    assert(first_book_match(k, 17) == first_book_match(k, 32));
    assert(first_book_match(k, 16) == first_book_match(k, 32));
}

#[verifier::rlimit(40)]
proof fn misses_abbreviation_35_32()
    ensures
        first_book_match(canon_spec(35).name_zh_short@, 32) == first_book_match(canon_spec(35).name_zh_short@, 35),
{
    book_35();
    let k = canon_spec(35).name_zh_short@;
    book_32();
    lemma_not_same(canon_spec(32).name_zh_short@, k, 0);
    book_33();
    lemma_not_same(canon_spec(33).name_zh_short@, k, 0);
    book_34();
    lemma_not_same(canon_spec(34).name_zh_short@, k, 0);
    assert(first_book_match(k, 34) == first_book_match(k, 35));
    assert(first_book_match(k, 33) == first_book_match(k, 35));
    assert(first_book_match(k, 32) == first_book_match(k, 35));
}

proof fn found_by_abbreviation_35()
    ensures
        lookup_canon_spec(canon_spec(35).name_zh_short@) == Some(canon_spec(35)),
{
    book_35();
    let k = canon_spec(35).name_zh_short@;
    lemma_plain_key(k);
    lemma_not_number(k, 0);
    misses_abbreviation_35_0();
    misses_abbreviation_35_16();
    misses_abbreviation_35_32();
    assert(first_book_match(k, 35) == Some(35int));
}

#[verifier::rlimit(40)]
proof fn misses_english_35_0()
    ensures
        first_book_match(canon_spec(35).name_en@, 0) == first_book_match(canon_spec(35).name_en@, 16),
{
    book_35();
    let k = canon_spec(35).name_en@;
    book_0();
    book_1();
    book_2();
    lemma_not_eq_ic(canon_spec(2).name_en@, k, 0);
    book_3();
    book_4();
    book_5();
    book_6();
    book_7();
    book_8();
    book_9();
    book_10();
    book_11();
    book_12();
    book_13();
    book_14();
    book_15();
    assert(first_book_match(k, 15) == first_book_match(k, 16));
    assert(first_book_match(k, 14) == first_book_match(k, 16));
    assert(first_book_match(k, 13) == first_book_match(k, 16));
    assert(first_book_match(k, 12) == first_book_match(k, 16));
    assert(first_book_match(k, 11) == first_book_match(k, 16));
    assert(first_book_match(k, 10) == first_book_match(k, 16));
    assert(first_book_match(k, 9) == first_book_match(k, 16));
    assert(first_book_match(k, 8) == first_book_match(k, 16));
    assert(first_book_match(k, 7) == first_book_match(k, 16));
    assert(first_book_match(k, 6) == first_book_match(k, 16));
    assert(first_book_match(k, 5) == first_book_match(k, 16));
    assert(first_book_match(k, 4) == first_book_match(k, 16));
    assert(first_book_match(k, 3) == first_book_match(k, 16));
    assert(first_book_match(k, 2) == first_book_match(k, 16));
    assert(first_book_match(k, 1) == first_book_match(k, 16));
    assert(first_book_match(k, 0) == first_book_match(k, 16));
}

#[verifier::rlimit(40)]
proof fn misses_english_35_16()
    ensures
        first_book_match(canon_spec(35).name_en@, 16) == first_book_match(canon_spec(35).name_en@, 32),
{
    book_35();
    let k = canon_spec(35).name_en@;
    book_16();
    book_17();
    book_18();
    book_19();
    book_20();
    book_21();
    book_22();
    book_23();
    book_24();
    book_25();
    book_26();
    book_27();
    book_28();
    book_29();
    book_30();
    book_31();
    assert(first_book_match(k, 31) == first_book_match(k, 32));
    assert(first_book_match(k, 30) == first_book_match(k, 32));
    assert(first_book_match(k, 29) == first_book_match(k, 32));
    assert(first_book_match(k, 28) == first_book_match(k, 32));
    assert(first_book_match(k, 27) == first_book_match(k, 32));
    assert(first_book_match(k, 26) == first_book_match(k, 32));
    assert(first_book_match(k, 25) == first_book_match(k, 32));
    assert(first_book_match(k, 24) == first_book_match(k, 32));
    assert(first_book_match(k, 23) == first_book_match(k, 32));
    assert(first_book_match(k, 22) == first_book_match(k, 32));
    assert(first_book_match(k, 21) == first_book_match(k, 32));
    assert(first_book_match(k, 20) == first_book_match(k, 32));
    assert(first_book_match(k, 19) == first_book_match(k, 32));
    assert(first_book_match(k, 18) == first_book_match(k, 32));
    assert(first_book_match(k, 17) == first_book_match(k, 32));
    assert(first_book_match(k, 16) == first_book_match(k, 32));
}

#[verifier::rlimit(40)]
proof fn misses_english_35_32()
    ensures
        first_book_match(canon_spec(35).name_en@, 32) == first_book_match(canon_spec(35).name_en@, 35),
{
    book_35();
    let k = canon_spec(35).name_en@;
    book_32();
    book_33();
    book_34();
    assert(first_book_match(k, 34) == first_book_match(k, 35));
    assert(first_book_match(k, 33) == first_book_match(k, 35));
    assert(first_book_match(k, 32) == first_book_match(k, 35));
}

proof fn found_by_english_35()
    ensures
        lookup_canon_spec(canon_spec(35).name_en@) == Some(canon_spec(35)),
{
    book_35();
    let k = canon_spec(35).name_en@;
    lemma_plain_key(k);
    lemma_not_number(k, 0);
    misses_english_35_0();
    misses_english_35_16();
    misses_english_35_32();
    assert(first_book_match(k, 35) == Some(35int));
}

#[verifier::rlimit(40)]
proof fn misses_osis_36_0()
    ensures
        first_book_match(canon_spec(36).osis@, 0) == first_book_match(canon_spec(36).osis@, 16),
{
    book_36();
    let k = canon_spec(36).osis@;
    book_0();
    lemma_not_eq_ic(canon_spec(0).osis@, k, 0);
    lemma_not_same(canon_spec(0).name_zh@, k, 0);
    book_1();
    book_2();
    lemma_not_eq_ic(canon_spec(2).osis@, k, 0);
    lemma_not_same(canon_spec(2).name_zh@, k, 0);
    book_3();
    lemma_not_eq_ic(canon_spec(3).osis@, k, 0);
    lemma_not_same(canon_spec(3).name_zh@, k, 0);
    book_4();
    lemma_not_same(canon_spec(4).name_zh@, k, 0);
    book_5();
    book_6();
    lemma_not_same(canon_spec(6).name_zh@, k, 0);
    book_7();
    lemma_not_same(canon_spec(7).name_zh@, k, 0);
    book_8();
    book_9();
    book_10();
    book_11();
    book_12();
    book_13();
    book_14();
    book_15();
    lemma_not_eq_ic(canon_spec(15).osis@, k, 0);
    assert(first_book_match(k, 15) == first_book_match(k, 16));
    assert(first_book_match(k, 14) == first_book_match(k, 16));
    assert(first_book_match(k, 13) == first_book_match(k, 16));
    assert(first_book_match(k, 12) == first_book_match(k, 16));
    assert(first_book_match(k, 11) == first_book_match(k, 16));
    assert(first_book_match(k, 10) == first_book_match(k, 16));
    assert(first_book_match(k, 9) == first_book_match(k, 16));
    assert(first_book_match(k, 8) == first_book_match(k, 16));
    assert(first_book_match(k, 7) == first_book_match(k, 16));
    assert(first_book_match(k, 6) == first_book_match(k, 16));
    assert(first_book_match(k, 5) == first_book_match(k, 16));
    assert(first_book_match(k, 4) == first_book_match(k, 16));
    assert(first_book_match(k, 3) == first_book_match(k, 16));
    assert(first_book_match(k, 2) == first_book_match(k, 16));
    assert(first_book_match(k, 1) == first_book_match(k, 16));
    assert(first_book_match(k, 0) == first_book_match(k, 16));
}

#[verifier::rlimit(40)]
proof fn misses_osis_36_16()
    ensures
        first_book_match(canon_spec(36).osis@, 16) == first_book_match(canon_spec(36).osis@, 32),
{
    book_36();
    let k = canon_spec(36).osis@;
    book_16();
    book_17();
    lemma_not_eq_ic(canon_spec(17).osis@, k, 0);
    lemma_not_same(canon_spec(17).name_zh@, k, 0);
    lemma_not_eq_ic(canon_spec(17).name_en@, k, 0);
    book_18();
    book_19();
    book_20();
    lemma_not_same(canon_spec(20).name_zh@, k, 0);
    book_21();
    book_22();
    lemma_not_eq_ic(canon_spec(22).osis@, k, 0);
    book_23();
    lemma_not_eq_ic(canon_spec(23).osis@, k, 0);
    book_24();
    lemma_not_eq_ic(canon_spec(24).osis@, k, 0);
    book_25();
    book_26();
    lemma_not_eq_ic(canon_spec(26).osis@, k, 0);
    book_27();
    lemma_not_eq_ic(canon_spec(27).osis@, k, 1);
    book_28();
    lemma_not_same(canon_spec(28).name_zh@, k, 0);
    book_29();
    book_30();
    book_31();
    lemma_not_same(canon_spec(31).name_zh@, k, 0);
    assert(first_book_match(k, 31) == first_book_match(k, 32));
    assert(first_book_match(k, 30) == first_book_match(k, 32));
    assert(first_book_match(k, 29) == first_book_match(k, 32));
    assert(first_book_match(k, 28) == first_book_match(k, 32));
    assert(first_book_match(k, 27) == first_book_match(k, 32));
    assert(first_book_match(k, 26) == first_book_match(k, 32));
    assert(first_book_match(k, 25) == first_book_match(k, 32));
    assert(first_book_match(k, 24) == first_book_match(k, 32));
    assert(first_book_match(k, 23) == first_book_match(k, 32));
    assert(first_book_match(k, 22) == first_book_match(k, 32));
    assert(first_book_match(k, 21) == first_book_match(k, 32));
    assert(first_book_match(k, 20) == first_book_match(k, 32));
    assert(first_book_match(k, 19) == first_book_match(k, 32));
    assert(first_book_match(k, 18) == first_book_match(k, 32));
    assert(first_book_match(k, 17) == first_book_match(k, 32));
    assert(first_book_match(k, 16) == first_book_match(k, 32));
}

#[verifier::rlimit(40)]
proof fn misses_osis_36_32()
    ensures
        first_book_match(canon_spec(36).osis@, 32) == first_book_match(canon_spec(36).osis@, 36),
{
    book_36();
    let k = canon_spec(36).osis@;
    book_32();
    lemma_not_eq_ic(canon_spec(32).osis@, k, 0);
    lemma_not_same(canon_spec(32).name_zh@, k, 0);
    book_33();
    lemma_not_eq_ic(canon_spec(33).osis@, k, 0);
    lemma_not_same(canon_spec(33).name_zh@, k, 0);
    book_34();
    lemma_not_eq_ic(canon_spec(34).osis@, k, 2);
    book_35();
    assert(first_book_match(k, 35) == first_book_match(k, 36));
    assert(first_book_match(k, 34) == first_book_match(k, 36));
    assert(first_book_match(k, 33) == first_book_match(k, 36));
    assert(first_book_match(k, 32) == first_book_match(k, 36));
}

proof fn found_by_osis_36()
    ensures
        lookup_canon_spec(canon_spec(36).osis@) == Some(canon_spec(36)),
{
    book_36();
    let k = canon_spec(36).osis@;
    lemma_plain_key(k);
    lemma_not_number(k, 0);
    misses_osis_36_0();
    misses_osis_36_16();
    misses_osis_36_32();
    assert(first_book_match(k, 36) == Some(36int));
}

#[verifier::rlimit(40)]
proof fn misses_abbreviation_36_0()
    ensures
        first_book_match(canon_spec(36).name_zh_short@, 0) == first_book_match(canon_spec(36).name_zh_short@, 16),
{
    book_36();
    let k = canon_spec(36).name_zh_short@;
    book_0();
    lemma_not_same(canon_spec(0).name_zh_short@, k, 0);
    book_1();
    lemma_not_same(canon_spec(1).name_zh_short@, k, 0);
    book_2();
    lemma_not_same(canon_spec(2).name_zh_short@, k, 0);
    book_3();
    lemma_not_same(canon_spec(3).name_zh_short@, k, 0);
    book_4();
    lemma_not_same(canon_spec(4).name_zh_short@, k, 0);
    book_5();
    lemma_not_same(canon_spec(5).name_zh_short@, k, 0);
    book_6();
    lemma_not_same(canon_spec(6).name_zh_short@, k, 0);
    book_7();
    lemma_not_same(canon_spec(7).name_zh_short@, k, 0);
    book_8();
    book_9();
    book_10();
    book_11();
    book_12();
    book_13();
    book_14();
    lemma_not_same(canon_spec(14).name_zh_short@, k, 0);
    book_15();
    lemma_not_same(canon_spec(15).name_zh_short@, k, 0);
    assert(first_book_match(k, 15) == first_book_match(k, 16));
    assert(first_book_match(k, 14) == first_book_match(k, 16));
    assert(first_book_match(k, 13) == first_book_match(k, 16));
    assert(first_book_match(k, 12) == first_book_match(k, 16));
    assert(first_book_match(k, 11) == first_book_match(k, 16));
    assert(first_book_match(k, 10) == first_book_match(k, 16));
    assert(first_book_match(k, 9) == first_book_match(k, 16));
    assert(first_book_match(k, 8) == first_book_match(k, 16));
    assert(first_book_match(k, 7) == first_book_match(k, 16));
    assert(first_book_match(k, 6) == first_book_match(k, 16));
    assert(first_book_match(k, 5) == first_book_match(k, 16));
    assert(first_book_match(k, 4) == first_book_match(k, 16));
    assert(first_book_match(k, 3) == first_book_match(k, 16));
    assert(first_book_match(k, 2) == first_book_match(k, 16));
    assert(first_book_match(k, 1) == first_book_match(k, 16));
    assert(first_book_match(k, 0) == first_book_match(k, 16));
}

#[verifier::rlimit(40)]
proof fn misses_abbreviation_36_16()
    ensures
        first_book_match(canon_spec(36).name_zh_short@, 16) == first_book_match(canon_spec(36).name_zh_short@, 32),
{
    book_36();
    let k = canon_spec(36).name_zh_short@;
    book_16();
    lemma_not_same(canon_spec(16).name_zh_short@, k, 0);
    book_17();
    lemma_not_same(canon_spec(17).name_zh_short@, k, 0);
    book_18();
    lemma_not_same(canon_spec(18).name_zh_short@, k, 0);
    book_19();
    lemma_not_same(canon_spec(19).name_zh_short@, k, 0);
    book_20();
    lemma_not_same(canon_spec(20).name_zh_short@, k, 0);
    book_21();
    lemma_not_same(canon_spec(21).name_zh_short@, k, 0);
    book_22();
    lemma_not_same(canon_spec(22).name_zh_short@, k, 0);
    book_23();
    lemma_not_same(canon_spec(23).name_zh_short@, k, 0);
    book_24();
    lemma_not_same(canon_spec(24).name_zh_short@, k, 0);
    book_25();
    lemma_not_same(canon_spec(25).name_zh_short@, k, 0);
    book_26();
    lemma_not_same(canon_spec(26).name_zh_short@, k, 0);
    book_27();
    lemma_not_same(canon_spec(27).name_zh_short@, k, 0);
    book_28();
    lemma_not_same(canon_spec(28).name_zh_short@, k, 0);
    book_29();
    lemma_not_same(canon_spec(29).name_zh_short@, k, 0);
    book_30();
    lemma_not_same(canon_spec(30).name_zh_short@, k, 0);
    book_31();
    lemma_not_same(canon_spec(31).name_zh_short@, k, 0);
    assert(first_book_match(k, 31) == first_book_match(k, 32));
    assert(first_book_match(k, 30) == first_book_match(k, 32));
    assert(first_book_match(k, 29) == first_book_match(k, 32));
    assert(first_book_match(k, 28) == first_book_match(k, 32));
    assert(first_book_match(k, 27) == first_book_match(k, 32));
    assert(first_book_match(k, 26) == first_book_match(k, 32));
    assert(first_book_match(k, 25) == first_book_match(k, 32));
    assert(first_book_match(k, 24) == first_book_match(k, 32));
    assert(first_book_match(k, 23) == first_book_match(k, 32));
    assert(first_book_match(k, 22) == first_book_match(k, 32));
    assert(first_book_match(k, 21) == first_book_match(k, 32));
    assert(first_book_match(k, 20) == first_book_match(k, 32));
    assert(first_book_match(k, 19) == first_book_match(k, 32));
    assert(first_book_match(k, 18) == first_book_match(k, 32));
    assert(first_book_match(k, 17) == first_book_match(k, 32));
    assert(first_book_match(k, 16) == first_book_match(k, 32));
}

#[verifier::rlimit(40)]
proof fn misses_abbreviation_36_32()
    ensures
        first_book_match(canon_spec(36).name_zh_short@, 32) == first_book_match(canon_spec(36).name_zh_short@, 36),
{
    book_36();
    let k = canon_spec(36).name_zh_short@;
    book_32();
    lemma_not_same(canon_spec(32).name_zh_short@, k, 0);
    book_33();
    lemma_not_same(canon_spec(33).name_zh_short@, k, 0);
    book_34();
    lemma_not_same(canon_spec(34).name_zh_short@, k, 0);
    book_35();
    lemma_not_same(canon_spec(35).name_zh_short@, k, 0);
    assert(first_book_match(k, 35) == first_book_match(k, 36));
    assert(first_book_match(k, 34) == first_book_match(k, 36));
    assert(first_book_match(k, 33) == first_book_match(k, 36));
    assert(first_book_match(k, 32) == first_book_match(k, 36));
}

proof fn found_by_abbreviation_36()
    ensures
        lookup_canon_spec(canon_spec(36).name_zh_short@) == Some(canon_spec(36)),
{
    book_36();
    let k = canon_spec(36).name_zh_short@;
    lemma_plain_key(k);
    lemma_not_number(k, 0);
    misses_abbreviation_36_0();
    misses_abbreviation_36_16();
    misses_abbreviation_36_32();
    assert(first_book_match(k, 36) == Some(36int));
}

#[verifier::rlimit(40)]
proof fn misses_english_36_0()
    ensures
        first_book_match(canon_spec(36).name_en@, 0) == first_book_match(canon_spec(36).name_en@, 16),
{
    book_36();
    let k = canon_spec(36).name_en@;
    book_0();
    book_1();
    lemma_not_eq_ic(canon_spec(1).name_en@, k, 0);
    book_2();
    book_3();
    book_4();
    book_5();
    lemma_not_eq_ic(canon_spec(5).name_en@, k, 0);
    book_6();
    lemma_not_eq_ic(canon_spec(6).name_en@, k, 0);
    book_7();
    book_8();
    book_9();
    book_10();
    book_11();
    book_12();
    book_13();
    book_14();
    book_15();
    assert(first_book_match(k, 15) == first_book_match(k, 16));
    assert(first_book_match(k, 14) == first_book_match(k, 16));
    assert(first_book_match(k, 13) == first_book_match(k, 16));
    assert(first_book_match(k, 12) == first_book_match(k, 16));
    assert(first_book_match(k, 11) == first_book_match(k, 16));
    assert(first_book_match(k, 10) == first_book_match(k, 16));
    assert(first_book_match(k, 9) == first_book_match(k, 16));
    assert(first_book_match(k, 8) == first_book_match(k, 16));
    assert(first_book_match(k, 7) == first_book_match(k, 16));
    assert(first_book_match(k, 6) == first_book_match(k, 16));
    assert(first_book_match(k, 5) == first_book_match(k, 16));
    assert(first_book_match(k, 4) == first_book_match(k, 16));
    assert(first_book_match(k, 3) == first_book_match(k, 16));
    assert(first_book_match(k, 2) == first_book_match(k, 16));
    assert(first_book_match(k, 1) == first_book_match(k, 16));
    assert(first_book_match(k, 0) == first_book_match(k, 16));
}

#[verifier::rlimit(40)]
proof fn misses_english_36_16()
    ensures
        first_book_match(canon_spec(36).name_en@, 16) == first_book_match(canon_spec(36).name_en@, 32),
{
    book_36();
    let k = canon_spec(36).name_en@;
    book_16();
    lemma_not_eq_ic(canon_spec(16).name_en@, k, 0);
    book_17();
    book_18();
    lemma_not_eq_ic(canon_spec(18).name_en@, k, 0);
    book_19();
    book_20();
    book_21();
    book_22();
    lemma_not_eq_ic(canon_spec(22).name_en@, k, 0);
    book_23();
    book_24();
    book_25();
    book_26();
    lemma_not_eq_ic(canon_spec(26).name_en@, k, 0);
    book_27();
    book_28();
    book_29();
    book_30();
    book_31();
    assert(first_book_match(k, 31) == first_book_match(k, 32));
    assert(first_book_match(k, 30) == first_book_match(k, 32));
    assert(first_book_match(k, 29) == first_book_match(k, 32));
    assert(first_book_match(k, 28) == first_book_match(k, 32));
    assert(first_book_match(k, 27) == first_book_match(k, 32));
    assert(first_book_match(k, 26) == first_book_match(k, 32));
    assert(first_book_match(k, 25) == first_book_match(k, 32));
    assert(first_book_match(k, 24) == first_book_match(k, 32));
    assert(first_book_match(k, 23) == first_book_match(k, 32));
    assert(first_book_match(k, 22) == first_book_match(k, 32));
    assert(first_book_match(k, 21) == first_book_match(k, 32));
    assert(first_book_match(k, 20) == first_book_match(k, 32));
    assert(first_book_match(k, 19) == first_book_match(k, 32));
    assert(first_book_match(k, 18) == first_book_match(k, 32));
    assert(first_book_match(k, 17) == first_book_match(k, 32));
    assert(first_book_match(k, 16) == first_book_match(k, 32));
}

#[verifier::rlimit(40)]
proof fn misses_english_36_32()
    ensures
        first_book_match(canon_spec(36).name_en@, 32) == first_book_match(canon_spec(36).name_en@, 36),
{
    book_36();
    let k = canon_spec(36).name_en@;
    book_32();
    book_33();
    book_34();
    book_35();
    assert(first_book_match(k, 35) == first_book_match(k, 36));
    assert(first_book_match(k, 34) == first_book_match(k, 36));
    assert(first_book_match(k, 33) == first_book_match(k, 36));
    assert(first_book_match(k, 32) == first_book_match(k, 36));
}

proof fn found_by_english_36()
    ensures
        lookup_canon_spec(canon_spec(36).name_en@) == Some(canon_spec(36)),
{
    book_36();
    let k = canon_spec(36).name_en@;
    lemma_plain_key(k);
    lemma_not_number(k, 0);
    misses_english_36_0();
    misses_english_36_16();
    misses_english_36_32();
    assert(first_book_match(k, 36) == Some(36int));
}

#[verifier::rlimit(40)]
proof fn misses_osis_37_0()
    ensures
        first_book_match(canon_spec(37).osis@, 0) == first_book_match(canon_spec(37).osis@, 16),
{
    book_37();
    let k = canon_spec(37).osis@;
    book_0();
    book_1();
    lemma_not_eq_ic(canon_spec(1).osis@, k, 0);
    lemma_not_same(canon_spec(1).name_zh@, k, 0);
    book_2();
    book_3();
    book_4();
    lemma_not_eq_ic(canon_spec(4).osis@, k, 0);
    book_5();
    lemma_not_eq_ic(canon_spec(5).osis@, k, 0);
    lemma_not_same(canon_spec(5).name_zh@, k, 0);
    book_6();
    lemma_not_eq_ic(canon_spec(6).osis@, k, 0);
    book_7();
    lemma_not_eq_ic(canon_spec(7).osis@, k, 0);
    lemma_not_eq_ic(canon_spec(7).name_en@, k, 0);
    book_8();
    lemma_not_eq_ic(canon_spec(8).osis@, k, 0);
    book_9();
    lemma_not_eq_ic(canon_spec(9).osis@, k, 0);
    book_10();
    lemma_not_eq_ic(canon_spec(10).osis@, k, 0);
    lemma_not_same(canon_spec(10).name_zh@, k, 0);
    book_11();
    lemma_not_eq_ic(canon_spec(11).osis@, k, 0);
    lemma_not_same(canon_spec(11).name_zh@, k, 0);
    book_12();
    lemma_not_eq_ic(canon_spec(12).osis@, k, 0);
    lemma_not_same(canon_spec(12).name_zh@, k, 0);
    book_13();
    lemma_not_eq_ic(canon_spec(13).osis@, k, 0);
    lemma_not_same(canon_spec(13).name_zh@, k, 0);
    book_14();
    lemma_not_eq_ic(canon_spec(14).osis@, k, 0);
    lemma_not_same(canon_spec(14).name_zh@, k, 0);
    lemma_not_eq_ic(canon_spec(14).name_en@, k, 0);
    book_15();
    lemma_not_same(canon_spec(15).name_zh@, k, 0);
    assert(first_book_match(k, 15) == first_book_match(k, 16));
    assert(first_book_match(k, 14) == first_book_match(k, 16));
    assert(first_book_match(k, 13) == first_book_match(k, 16));
    assert(first_book_match(k, 12) == first_book_match(k, 16));
    assert(first_book_match(k, 11) == first_book_match(k, 16));
    assert(first_book_match(k, 10) == first_book_match(k, 16));
    assert(first_book_match(k, 9) == first_book_match(k, 16));
    assert(first_book_match(k, 8) == first_book_match(k, 16));
    assert(first_book_match(k, 7) == first_book_match(k, 16));
    assert(first_book_match(k, 6) == first_book_match(k, 16));
    assert(first_book_match(k, 5) == first_book_match(k, 16));
    assert(first_book_match(k, 4) == first_book_match(k, 16));
    assert(first_book_match(k, 3) == first_book_match(k, 16));
    assert(first_book_match(k, 2) == first_book_match(k, 16));
    assert(first_book_match(k, 1) == first_book_match(k, 16));
    assert(first_book_match(k, 0) == first_book_match(k, 16));
}

#[verifier::rlimit(40)]
proof fn misses_osis_37_16()
    ensures
        first_book_match(canon_spec(37).osis@, 16) == first_book_match(canon_spec(37).osis@, 32),
{
    book_37();
    let k = canon_spec(37).osis@;
    book_16();
    lemma_not_eq_ic(canon_spec(16).osis@, k, 0);
    lemma_not_same(canon_spec(16).name_zh@, k, 0);
    book_17();
    book_18();
    book_19();
    lemma_not_eq_ic(canon_spec(19).osis@, k, 0);
    book_20();
    lemma_not_eq_ic(canon_spec(20).osis@, k, 0);
    book_21();
    lemma_not_eq_ic(canon_spec(21).osis@, k, 0);
    book_22();
    lemma_not_same(canon_spec(22).name_zh@, k, 0);
    book_23();
    lemma_not_same(canon_spec(23).name_zh@, k, 0);
    book_24();
    book_25();
    lemma_not_eq_ic(canon_spec(25).osis@, k, 0);
    lemma_not_same(canon_spec(25).name_zh@, k, 0);
    book_26();
    lemma_not_same(canon_spec(26).name_zh@, k, 0);
    book_27();
    lemma_not_same(canon_spec(27).name_zh@, k, 0);
    book_28();
    lemma_not_eq_ic(canon_spec(28).osis@, k, 0);
    lemma_not_eq_ic(canon_spec(28).name_en@, k, 0);
    book_29();
    lemma_not_eq_ic(canon_spec(29).osis@, k, 0);
    lemma_not_same(canon_spec(29).name_zh@, k, 0);
    lemma_not_eq_ic(canon_spec(29).name_en@, k, 0);
    book_30();
    lemma_not_eq_ic(canon_spec(30).osis@, k, 0);
    book_31();
    assert(first_book_match(k, 31) == first_book_match(k, 32));
    assert(first_book_match(k, 30) == first_book_match(k, 32));
    assert(first_book_match(k, 29) == first_book_match(k, 32));
    assert(first_book_match(k, 28) == first_book_match(k, 32));
    assert(first_book_match(k, 27) == first_book_match(k, 32));
    assert(first_book_match(k, 26) == first_book_match(k, 32));
    assert(first_book_match(k, 25) == first_book_match(k, 32));
    assert(first_book_match(k, 24) == first_book_match(k, 32));
    assert(first_book_match(k, 23) == first_book_match(k, 32));
    assert(first_book_match(k, 22) == first_book_match(k, 32));
    assert(first_book_match(k, 21) == first_book_match(k, 32));
    assert(first_book_match(k, 20) == first_book_match(k, 32));
    assert(first_book_match(k, 19) == first_book_match(k, 32));
    assert(first_book_match(k, 18) == first_book_match(k, 32));
    assert(first_book_match(k, 17) == first_book_match(k, 32));
    assert(first_book_match(k, 16) == first_book_match(k, 32));
}

#[verifier::rlimit(40)]
proof fn misses_osis_37_32()
    ensures
        first_book_match(canon_spec(37).osis@, 32) == first_book_match(canon_spec(37).osis@, 37),
{
    book_37();
    let k = canon_spec(37).osis@;
    book_32();
    book_33();
    book_34();
    lemma_not_same(canon_spec(34).name_zh@, k, 0);
    book_35();
    lemma_not_eq_ic(canon_spec(35).osis@, k, 2);
    lemma_not_same(canon_spec(35).name_zh@, k, 0);
    book_36();
    assert(first_book_match(k, 36) == first_book_match(k, 37));
    assert(first_book_match(k, 35) == first_book_match(k, 37));
    assert(first_book_match(k, 34) == first_book_match(k, 37));
    assert(first_book_match(k, 33) == first_book_match(k, 37));
    assert(first_book_match(k, 32) == first_book_match(k, 37));
}

proof fn found_by_osis_37()
    ensures
        lookup_canon_spec(canon_spec(37).osis@) == Some(canon_spec(37)),
{
    book_37();
    let k = canon_spec(37).osis@;
    lemma_plain_key(k);
    lemma_not_number(k, 0);
    misses_osis_37_0();
    misses_osis_37_16();
    misses_osis_37_32();
    assert(first_book_match(k, 37) == Some(37int));
}

#[verifier::rlimit(40)]
proof fn misses_abbreviation_37_0()
    ensures
        first_book_match(canon_spec(37).name_zh_short@, 0) == first_book_match(canon_spec(37).name_zh_short@, 16),
{
    book_37();
    let k = canon_spec(37).name_zh_short@;
    book_0();
    lemma_not_same(canon_spec(0).name_zh_short@, k, 0);
    book_1();
    lemma_not_same(canon_spec(1).name_zh_short@, k, 0);
    book_2();
    lemma_not_same(canon_spec(2).name_zh_short@, k, 0);
    book_3();
    lemma_not_same(canon_spec(3).name_zh_short@, k, 0);
    book_4();
    lemma_not_same(canon_spec(4).name_zh_short@, k, 0);
    book_5();
    lemma_not_same(canon_spec(5).name_zh_short@, k, 0);
    book_6();
    lemma_not_same(canon_spec(6).name_zh_short@, k, 0);
    book_7();
    lemma_not_same(canon_spec(7).name_zh_short@, k, 0);
    book_8();
    book_9();
    book_10();
    book_11();
    book_12();
    book_13();
    book_14();
    lemma_not_same(canon_spec(14).name_zh_short@, k, 0);
    book_15();
    lemma_not_same(canon_spec(15).name_zh_short@, k, 0);
    assert(first_book_match(k, 15) == first_book_match(k, 16));
    assert(first_book_match(k, 14) == first_book_match(k, 16));
    assert(first_book_match(k, 13) == first_book_match(k, 16));
    assert(first_book_match(k, 12) == first_book_match(k, 16));
    assert(first_book_match(k, 11) == first_book_match(k, 16));
    assert(first_book_match(k, 10) == first_book_match(k, 16));
    assert(first_book_match(k, 9) == first_book_match(k, 16));
    assert(first_book_match(k, 8) == first_book_match(k, 16));
    assert(first_book_match(k, 7) == first_book_match(k, 16));
    assert(first_book_match(k, 6) == first_book_match(k, 16));
    assert(first_book_match(k, 5) == first_book_match(k, 16));
    assert(first_book_match(k, 4) == first_book_match(k, 16));
    assert(first_book_match(k, 3) == first_book_match(k, 16));
    assert(first_book_match(k, 2) == first_book_match(k, 16));
    assert(first_book_match(k, 1) == first_book_match(k, 16));
    assert(first_book_match(k, 0) == first_book_match(k, 16));
}

#[verifier::rlimit(40)]
proof fn misses_abbreviation_37_16()
    ensures
        first_book_match(canon_spec(37).name_zh_short@, 16) == first_book_match(canon_spec(37).name_zh_short@, 32),
{
    book_37();
    let k = canon_spec(37).name_zh_short@;
    book_16();
    lemma_not_same(canon_spec(16).name_zh_short@, k, 0);
    book_17();
    lemma_not_same(canon_spec(17).name_zh_short@, k, 0);
    book_18();
    lemma_not_same(canon_spec(18).name_zh_short@, k, 0);
    book_19();
    lemma_not_same(canon_spec(19).name_zh_short@, k, 0);
    book_20();
    lemma_not_same(canon_spec(20).name_zh_short@, k, 0);
    book_21();
    lemma_not_same(canon_spec(21).name_zh_short@, k, 0);
    book_22();
    lemma_not_same(canon_spec(22).name_zh_short@, k, 0);
    book_23();
    lemma_not_same(canon_spec(23).name_zh_short@, k, 0);
    book_24();
    lemma_not_same(canon_spec(24).name_zh_short@, k, 0);
    book_25();
    lemma_not_same(canon_spec(25).name_zh_short@, k, 0);
    book_26();
    lemma_not_same(canon_spec(26).name_zh_short@, k, 0);
    book_27();
    lemma_not_same(canon_spec(27).name_zh_short@, k, 0);
    book_28();
    lemma_not_same(canon_spec(28).name_zh_short@, k, 0);
    book_29();
    lemma_not_same(canon_spec(29).name_zh_short@, k, 0);
    book_30();
    lemma_not_same(canon_spec(30).name_zh_short@, k, 0);
    book_31();
    lemma_not_same(canon_spec(31).name_zh_short@, k, 0);
    assert(first_book_match(k, 31) == first_book_match(k, 32));
    assert(first_book_match(k, 30) == first_book_match(k, 32));
    assert(first_book_match(k, 29) == first_book_match(k, 32));
    assert(first_book_match(k, 28) == first_book_match(k, 32));
    assert(first_book_match(k, 27) == first_book_match(k, 32));
    assert(first_book_match(k, 26) == first_book_match(k, 32));
    assert(first_book_match(k, 25) == first_book_match(k, 32));
    assert(first_book_match(k, 24) == first_book_match(k, 32));
    assert(first_book_match(k, 23) == first_book_match(k, 32));
    assert(first_book_match(k, 22) == first_book_match(k, 32));
    assert(first_book_match(k, 21) == first_book_match(k, 32));
    assert(first_book_match(k, 20) == first_book_match(k, 32));
    assert(first_book_match(k, 19) == first_book_match(k, 32));
    assert(first_book_match(k, 18) == first_book_match(k, 32));
    assert(first_book_match(k, 17) == first_book_match(k, 32));
    assert(first_book_match(k, 16) == first_book_match(k, 32));
}

#[verifier::rlimit(40)]
proof fn misses_abbreviation_37_32()
    ensures
        first_book_match(canon_spec(37).name_zh_short@, 32) == first_book_match(canon_spec(37).name_zh_short@, 37),
{
    book_37();
    let k = canon_spec(37).name_zh_short@;
    book_32();
    lemma_not_same(canon_spec(32).name_zh_short@, k, 0);
    book_33();
    lemma_not_same(canon_spec(33).name_zh_short@, k, 0);
    book_34();
    lemma_not_same(canon_spec(34).name_zh_short@, k, 0);
    book_35();
    lemma_not_same(canon_spec(35).name_zh_short@, k, 0);
    book_36();
    lemma_not_same(canon_spec(36).name_zh_short@, k, 0);
    assert(first_book_match(k, 36) == first_book_match(k, 37));
    assert(first_book_match(k, 35) == first_book_match(k, 37));
    assert(first_book_match(k, 34) == first_book_match(k, 37));
    assert(first_book_match(k, 33) == first_book_match(k, 37));
    assert(first_book_match(k, 32) == first_book_match(k, 37));
}

proof fn found_by_abbreviation_37()
    ensures
        lookup_canon_spec(canon_spec(37).name_zh_short@) == Some(canon_spec(37)),
{
    book_37();
    let k = canon_spec(37).name_zh_short@;
    lemma_plain_key(k);
    lemma_not_number(k, 0);
    misses_abbreviation_37_0();
    misses_abbreviation_37_16();
    misses_abbreviation_37_32();
    assert(first_book_match(k, 37) == Some(37int));
}

#[verifier::rlimit(40)]
proof fn misses_english_37_0()
    ensures
        first_book_match(canon_spec(37).name_en@, 0) == first_book_match(canon_spec(37).name_en@, 16),
{
    book_37();
    let k = canon_spec(37).name_en@;
    book_0();
    book_1();
    book_2();
    lemma_not_eq_ic(canon_spec(2).name_en@, k, 0);
    book_3();
    book_4();
    book_5();
    book_6();
    book_7();
    book_8();
    book_9();
    book_10();
    book_11();
    book_12();
    book_13();
    book_14();
    book_15();
    assert(first_book_match(k, 15) == first_book_match(k, 16));
    assert(first_book_match(k, 14) == first_book_match(k, 16));
    assert(first_book_match(k, 13) == first_book_match(k, 16));
    assert(first_book_match(k, 12) == first_book_match(k, 16));
    assert(first_book_match(k, 11) == first_book_match(k, 16));
    assert(first_book_match(k, 10) == first_book_match(k, 16));
    assert(first_book_match(k, 9) == first_book_match(k, 16));
    assert(first_book_match(k, 8) == first_book_match(k, 16));
    assert(first_book_match(k, 7) == first_book_match(k, 16));
    assert(first_book_match(k, 6) == first_book_match(k, 16));
    assert(first_book_match(k, 5) == first_book_match(k, 16));
    assert(first_book_match(k, 4) == first_book_match(k, 16));
    assert(first_book_match(k, 3) == first_book_match(k, 16));
    assert(first_book_match(k, 2) == first_book_match(k, 16));
    assert(first_book_match(k, 1) == first_book_match(k, 16));
    assert(first_book_match(k, 0) == first_book_match(k, 16));
}

#[verifier::rlimit(40)]
proof fn misses_english_37_16()
    ensures
        first_book_match(canon_spec(37).name_en@, 16) == first_book_match(canon_spec(37).name_en@, 32),
{
    book_37();
    let k = canon_spec(37).name_en@;
    book_16();
    book_17();
    book_18();
    book_19();
    book_20();
    book_21();
    book_22();
    book_23();
    book_24();
    book_25();
    book_26();
    book_27();
    book_28();
    book_29();
    book_30();
    book_31();
    assert(first_book_match(k, 31) == first_book_match(k, 32));
    assert(first_book_match(k, 30) == first_book_match(k, 32));
    assert(first_book_match(k, 29) == first_book_match(k, 32));
    assert(first_book_match(k, 28) == first_book_match(k, 32));
    assert(first_book_match(k, 27) == first_book_match(k, 32));
    assert(first_book_match(k, 26) == first_book_match(k, 32));
    assert(first_book_match(k, 25) == first_book_match(k, 32));
    assert(first_book_match(k, 24) == first_book_match(k, 32));
    assert(first_book_match(k, 23) == first_book_match(k, 32));
    assert(first_book_match(k, 22) == first_book_match(k, 32));
    assert(first_book_match(k, 21) == first_book_match(k, 32));
    assert(first_book_match(k, 20) == first_book_match(k, 32));
    assert(first_book_match(k, 19) == first_book_match(k, 32));
    assert(first_book_match(k, 18) == first_book_match(k, 32));
    assert(first_book_match(k, 17) == first_book_match(k, 32));
    assert(first_book_match(k, 16) == first_book_match(k, 32));
}

#[verifier::rlimit(40)]
proof fn misses_english_37_32()
    ensures
        first_book_match(canon_spec(37).name_en@, 32) == first_book_match(canon_spec(37).name_en@, 37),
{
    book_37();
    let k = canon_spec(37).name_en@;
    book_32();
    book_33();
    book_34();
    book_35();
    lemma_not_eq_ic(canon_spec(35).name_en@, k, 2);
    book_36();
    assert(first_book_match(k, 36) == first_book_match(k, 37));
    assert(first_book_match(k, 35) == first_book_match(k, 37));
    assert(first_book_match(k, 34) == first_book_match(k, 37));
    assert(first_book_match(k, 33) == first_book_match(k, 37));
    assert(first_book_match(k, 32) == first_book_match(k, 37));
}

proof fn found_by_english_37()
    ensures
        lookup_canon_spec(canon_spec(37).name_en@) == Some(canon_spec(37)),
{
    book_37();
    let k = canon_spec(37).name_en@;
    lemma_plain_key(k);
    lemma_not_number(k, 0);
    misses_english_37_0();
    misses_english_37_16();
    misses_english_37_32();
    assert(first_book_match(k, 37) == Some(37int));
}

#[verifier::rlimit(40)]
proof fn misses_osis_38_0()
    ensures
        first_book_match(canon_spec(38).osis@, 0) == first_book_match(canon_spec(38).osis@, 16),
{
    book_38();
    let k = canon_spec(38).osis@;
    book_0();
    lemma_not_eq_ic(canon_spec(0).osis@, k, 0);
    lemma_not_same(canon_spec(0).name_zh@, k, 0);
    book_1();
    book_2();
    lemma_not_eq_ic(canon_spec(2).osis@, k, 0);
    lemma_not_same(canon_spec(2).name_zh@, k, 0);
    book_3();
    lemma_not_eq_ic(canon_spec(3).osis@, k, 0);
    lemma_not_same(canon_spec(3).name_zh@, k, 0);
    book_4();
    lemma_not_same(canon_spec(4).name_zh@, k, 0);
    book_5();
    book_6();
    lemma_not_same(canon_spec(6).name_zh@, k, 0);
    book_7();
    lemma_not_same(canon_spec(7).name_zh@, k, 0);
    book_8();
    book_9();
    book_10();
    book_11();
    book_12();
    book_13();
    book_14();
    book_15();
    lemma_not_eq_ic(canon_spec(15).osis@, k, 0);
    assert(first_book_match(k, 15) == first_book_match(k, 16));
    assert(first_book_match(k, 14) == first_book_match(k, 16));
    assert(first_book_match(k, 13) == first_book_match(k, 16));
    assert(first_book_match(k, 12) == first_book_match(k, 16));
    assert(first_book_match(k, 11) == first_book_match(k, 16));
    assert(first_book_match(k, 10) == first_book_match(k, 16));
    assert(first_book_match(k, 9) == first_book_match(k, 16));
    assert(first_book_match(k, 8) == first_book_match(k, 16));
    assert(first_book_match(k, 7) == first_book_match(k, 16));
    assert(first_book_match(k, 6) == first_book_match(k, 16));
    assert(first_book_match(k, 5) == first_book_match(k, 16));
    assert(first_book_match(k, 4) == first_book_match(k, 16));
    assert(first_book_match(k, 3) == first_book_match(k, 16));
    assert(first_book_match(k, 2) == first_book_match(k, 16));
    assert(first_book_match(k, 1) == first_book_match(k, 16));
    assert(first_book_match(k, 0) == first_book_match(k, 16));
}

#[verifier::rlimit(40)]
proof fn misses_osis_38_16()
    ensures
        first_book_match(canon_spec(38).osis@, 16) == first_book_match(canon_spec(38).osis@, 32),
{
    book_38();
    let k = canon_spec(38).osis@;
    book_16();
    book_17();
    lemma_not_eq_ic(canon_spec(17).osis@, k, 0);
    lemma_not_same(canon_spec(17).name_zh@, k, 0);
    lemma_not_eq_ic(canon_spec(17).name_en@, k, 0);
    book_18();
    book_19();
    book_20();
    lemma_not_same(canon_spec(20).name_zh@, k, 0);
    book_21();
    book_22();
    lemma_not_eq_ic(canon_spec(22).osis@, k, 0);
    book_23();
    lemma_not_eq_ic(canon_spec(23).osis@, k, 0);
    book_24();
    lemma_not_eq_ic(canon_spec(24).osis@, k, 0);
    book_25();
    book_26();
    lemma_not_eq_ic(canon_spec(26).osis@, k, 0);
    book_27();
    lemma_not_eq_ic(canon_spec(27).osis@, k, 0);
    book_28();
    lemma_not_same(canon_spec(28).name_zh@, k, 0);
    book_29();
    book_30();
    book_31();
    lemma_not_same(canon_spec(31).name_zh@, k, 0);
    assert(first_book_match(k, 31) == first_book_match(k, 32));
    assert(first_book_match(k, 30) == first_book_match(k, 32));
    assert(first_book_match(k, 29) == first_book_match(k, 32));
    assert(first_book_match(k, 28) == first_book_match(k, 32));
    assert(first_book_match(k, 27) == first_book_match(k, 32));
    assert(first_book_match(k, 26) == first_book_match(k, 32));
    assert(first_book_match(k, 25) == first_book_match(k, 32));
    assert(first_book_match(k, 24) == first_book_match(k, 32));
    assert(first_book_match(k, 23) == first_book_match(k, 32));
    assert(first_book_match(k, 22) == first_book_match(k, 32));
    assert(first_book_match(k, 21) == first_book_match(k, 32));
    assert(first_book_match(k, 20) == first_book_match(k, 32));
    assert(first_book_match(k, 19) == first_book_match(k, 32));
    assert(first_book_match(k, 18) == first_book_match(k, 32));
    assert(first_book_match(k, 17) == first_book_match(k, 32));
    assert(first_book_match(k, 16) == first_book_match(k, 32));
}

#[verifier::rlimit(40)]
proof fn misses_osis_38_32()
    ensures
        first_book_match(canon_spec(38).osis@, 32) == first_book_match(canon_spec(38).osis@, 38),
{
    book_38();
    let k = canon_spec(38).osis@;
    book_32();
    lemma_not_eq_ic(canon_spec(32).osis@, k, 1);
    lemma_not_same(canon_spec(32).name_zh@, k, 0);
    book_33();
    lemma_not_eq_ic(canon_spec(33).osis@, k, 0);
    lemma_not_same(canon_spec(33).name_zh@, k, 0);
    book_34();
    lemma_not_eq_ic(canon_spec(34).osis@, k, 0);
    book_35();
    book_36();
    lemma_not_eq_ic(canon_spec(36).osis@, k, 0);
    lemma_not_same(canon_spec(36).name_zh@, k, 0);
    book_37();
    assert(first_book_match(k, 37) == first_book_match(k, 38));
    assert(first_book_match(k, 36) == first_book_match(k, 38));
    assert(first_book_match(k, 35) == first_book_match(k, 38));
    assert(first_book_match(k, 34) == first_book_match(k, 38));
    assert(first_book_match(k, 33) == first_book_match(k, 38));
    assert(first_book_match(k, 32) == first_book_match(k, 38));
}

proof fn found_by_osis_38()
    ensures
        lookup_canon_spec(canon_spec(38).osis@) == Some(canon_spec(38)),
{
    book_38();
    let k = canon_spec(38).osis@;
    lemma_plain_key(k);
    lemma_not_number(k, 0);
    misses_osis_38_0();
    misses_osis_38_16();
    misses_osis_38_32();
    assert(first_book_match(k, 38) == Some(38int));
}

#[verifier::rlimit(40)]
proof fn misses_abbreviation_38_0()
    ensures
        first_book_match(canon_spec(38).name_zh_short@, 0) == first_book_match(canon_spec(38).name_zh_short@, 16),
{
    book_38();
    let k = canon_spec(38).name_zh_short@;
    book_0();
    lemma_not_same(canon_spec(0).name_zh_short@, k, 0);
    book_1();
    lemma_not_same(canon_spec(1).name_zh_short@, k, 0);
    book_2();
    lemma_not_same(canon_spec(2).name_zh_short@, k, 0);
    book_3();
    lemma_not_same(canon_spec(3).name_zh_short@, k, 0);
    book_4();
    lemma_not_same(canon_spec(4).name_zh_short@, k, 0);
    book_5();
    lemma_not_same(canon_spec(5).name_zh_short@, k, 0);
    book_6();
    lemma_not_same(canon_spec(6).name_zh_short@, k, 0);
    book_7();
    lemma_not_same(canon_spec(7).name_zh_short@, k, 0);
    book_8();
    book_9();
    book_10();
    book_11();
    book_12();
    book_13();
    book_14();
    lemma_not_same(canon_spec(14).name_zh_short@, k, 0);
    book_15();
    lemma_not_same(canon_spec(15).name_zh_short@, k, 0);
    assert(first_book_match(k, 15) == first_book_match(k, 16));
    assert(first_book_match(k, 14) == first_book_match(k, 16));
    assert(first_book_match(k, 13) == first_book_match(k, 16));
    assert(first_book_match(k, 12) == first_book_match(k, 16));
    assert(first_book_match(k, 11) == first_book_match(k, 16));
    assert(first_book_match(k, 10) == first_book_match(k, 16));
    assert(first_book_match(k, 9) == first_book_match(k, 16));
    assert(first_book_match(k, 8) == first_book_match(k, 16));
    assert(first_book_match(k, 7) == first_book_match(k, 16));
    assert(first_book_match(k, 6) == first_book_match(k, 16));
    assert(first_book_match(k, 5) == first_book_match(k, 16));
    assert(first_book_match(k, 4) == first_book_match(k, 16));
    assert(first_book_match(k, 3) == first_book_match(k, 16));
    assert(first_book_match(k, 2) == first_book_match(k, 16));
    assert(first_book_match(k, 1) == first_book_match(k, 16));
    assert(first_book_match(k, 0) == first_book_match(k, 16));
}

#[verifier::rlimit(40)]
proof fn misses_abbreviation_38_16()
    ensures
        first_book_match(canon_spec(38).name_zh_short@, 16) == first_book_match(canon_spec(38).name_zh_short@, 32),
{
    book_38();
    let k = canon_spec(38).name_zh_short@;
    book_16();
    lemma_not_same(canon_spec(16).name_zh_short@, k, 0);
    book_17();
    lemma_not_same(canon_spec(17).name_zh_short@, k, 0);
    book_18();
    lemma_not_same(canon_spec(18).name_zh_short@, k, 0);
    book_19();
    lemma_not_same(canon_spec(19).name_zh_short@, k, 0);
    book_20();
    lemma_not_same(canon_spec(20).name_zh_short@, k, 0);
    book_21();
    lemma_not_same(canon_spec(21).name_zh_short@, k, 0);
    book_22();
    lemma_not_same(canon_spec(22).name_zh_short@, k, 0);
    book_23();
    lemma_not_same(canon_spec(23).name_zh_short@, k, 0);
    book_24();
    lemma_not_same(canon_spec(24).name_zh_short@, k, 0);
    book_25();
    lemma_not_same(canon_spec(25).name_zh_short@, k, 0);
    book_26();
    lemma_not_same(canon_spec(26).name_zh_short@, k, 0);
    book_27();
    lemma_not_same(canon_spec(27).name_zh_short@, k, 0);
    book_28();
    lemma_not_same(canon_spec(28).name_zh_short@, k, 0);
    book_29();
    lemma_not_same(canon_spec(29).name_zh_short@, k, 0);
    book_30();
    lemma_not_same(canon_spec(30).name_zh_short@, k, 0);
    book_31();
    lemma_not_same(canon_spec(31).name_zh_short@, k, 0);
    assert(first_book_match(k, 31) == first_book_match(k, 32));
    assert(first_book_match(k, 30) == first_book_match(k, 32));
    assert(first_book_match(k, 29) == first_book_match(k, 32));
    assert(first_book_match(k, 28) == first_book_match(k, 32));
    assert(first_book_match(k, 27) == first_book_match(k, 32));
    assert(first_book_match(k, 26) == first_book_match(k, 32));
    assert(first_book_match(k, 25) == first_book_match(k, 32));
    assert(first_book_match(k, 24) == first_book_match(k, 32));
    assert(first_book_match(k, 23) == first_book_match(k, 32));
    assert(first_book_match(k, 22) == first_book_match(k, 32));
    assert(first_book_match(k, 21) == first_book_match(k, 32));
    assert(first_book_match(k, 20) == first_book_match(k, 32));
    assert(first_book_match(k, 19) == first_book_match(k, 32));
    assert(first_book_match(k, 18) == first_book_match(k, 32));
    assert(first_book_match(k, 17) == first_book_match(k, 32));
    assert(first_book_match(k, 16) == first_book_match(k, 32));
}

#[verifier::rlimit(40)]
proof fn misses_abbreviation_38_32()
    ensures
        first_book_match(canon_spec(38).name_zh_short@, 32) == first_book_match(canon_spec(38).name_zh_short@, 38),
{
    book_38();
    let k = canon_spec(38).name_zh_short@;
    book_32();
    lemma_not_same(canon_spec(32).name_zh_short@, k, 0);
    book_33();
    lemma_not_same(canon_spec(33).name_zh_short@, k, 0);
    book_34();
    lemma_not_same(canon_spec(34).name_zh_short@, k, 0);
    book_35();
    lemma_not_same(canon_spec(35).name_zh_short@, k, 0);
    book_36();
    lemma_not_same(canon_spec(36).name_zh_short@, k, 0);
    book_37();
    lemma_not_same(canon_spec(37).name_zh_short@, k, 0);
    assert(first_book_match(k, 37) == first_book_match(k, 38));
    assert(first_book_match(k, 36) == first_book_match(k, 38));
    assert(first_book_match(k, 35) == first_book_match(k, 38));
    assert(first_book_match(k, 34) == first_book_match(k, 38));
    assert(first_book_match(k, 33) == first_book_match(k, 38));
    assert(first_book_match(k, 32) == first_book_match(k, 38));
}

proof fn found_by_abbreviation_38()
    ensures
        lookup_canon_spec(canon_spec(38).name_zh_short@) == Some(canon_spec(38)),
{
    book_38();
    let k = canon_spec(38).name_zh_short@;
    lemma_plain_key(k);
    lemma_not_number(k, 0);
    misses_abbreviation_38_0();
    misses_abbreviation_38_16();
    misses_abbreviation_38_32();
    assert(first_book_match(k, 38) == Some(38int));
}

#[verifier::rlimit(40)]
proof fn misses_english_38_0()
    ensures
        first_book_match(canon_spec(38).name_en@, 0) == first_book_match(canon_spec(38).name_en@, 16),
{
    book_38();
    let k = canon_spec(38).name_en@;
    book_0();
    lemma_not_eq_ic(canon_spec(0).name_en@, k, 0);
    book_1();
    book_2();
    book_3();
    lemma_not_eq_ic(canon_spec(3).name_en@, k, 0);
    book_4();
    book_5();
    book_6();
    book_7();
    book_8();
    book_9();
    book_10();
    lemma_not_eq_ic(canon_spec(10).name_en@, k, 0);
    book_11();
    lemma_not_eq_ic(canon_spec(11).name_en@, k, 0);
    book_12();
    book_13();
    book_14();
    book_15();
    assert(first_book_match(k, 15) == first_book_match(k, 16));
    assert(first_book_match(k, 14) == first_book_match(k, 16));
    assert(first_book_match(k, 13) == first_book_match(k, 16));
    assert(first_book_match(k, 12) == first_book_match(k, 16));
    assert(first_book_match(k, 11) == first_book_match(k, 16));
    assert(first_book_match(k, 10) == first_book_match(k, 16));
    assert(first_book_match(k, 9) == first_book_match(k, 16));
    assert(first_book_match(k, 8) == first_book_match(k, 16));
    assert(first_book_match(k, 7) == first_book_match(k, 16));
    assert(first_book_match(k, 6) == first_book_match(k, 16));
    assert(first_book_match(k, 5) == first_book_match(k, 16));
    assert(first_book_match(k, 4) == first_book_match(k, 16));
    assert(first_book_match(k, 3) == first_book_match(k, 16));
    assert(first_book_match(k, 2) == first_book_match(k, 16));
    assert(first_book_match(k, 1) == first_book_match(k, 16));
    assert(first_book_match(k, 0) == first_book_match(k, 16));
}

#[verifier::rlimit(40)]
proof fn misses_english_38_16()
    ensures
        first_book_match(canon_spec(38).name_en@, 16) == first_book_match(canon_spec(38).name_en@, 32),
{
    book_38();
    let k = canon_spec(38).name_en@;
    book_16();
    book_17();
    book_18();
    book_19();
    book_20();
    book_21();
    book_22();
    book_23();
    book_24();
    book_25();
    lemma_not_eq_ic(canon_spec(25).name_en@, k, 0);
    book_26();
    book_27();
    book_28();
    book_29();
    book_30();
    lemma_not_eq_ic(canon_spec(30).name_en@, k, 0);
    book_31();
    assert(first_book_match(k, 31) == first_book_match(k, 32));
    assert(first_book_match(k, 30) == first_book_match(k, 32));
    assert(first_book_match(k, 29) == first_book_match(k, 32));
    assert(first_book_match(k, 28) == first_book_match(k, 32));
    assert(first_book_match(k, 27) == first_book_match(k, 32));
    assert(first_book_match(k, 26) == first_book_match(k, 32));
    assert(first_book_match(k, 25) == first_book_match(k, 32));
    assert(first_book_match(k, 24) == first_book_match(k, 32));
    assert(first_book_match(k, 23) == first_book_match(k, 32));
    assert(first_book_match(k, 22) == first_book_match(k, 32));
    assert(first_book_match(k, 21) == first_book_match(k, 32));
    assert(first_book_match(k, 20) == first_book_match(k, 32));
    assert(first_book_match(k, 19) == first_book_match(k, 32));
    assert(first_book_match(k, 18) == first_book_match(k, 32));
    assert(first_book_match(k, 17) == first_book_match(k, 32));
    assert(first_book_match(k, 16) == first_book_match(k, 32));
}

#[verifier::rlimit(40)]
proof fn misses_english_38_32()
    ensures
        first_book_match(canon_spec(38).name_en@, 32) == first_book_match(canon_spec(38).name_en@, 38),
{
    book_38();
    let k = canon_spec(38).name_en@;
    book_32();
    book_33();
    book_34();
    book_35();
    book_36();
    book_37();
    assert(first_book_match(k, 37) == first_book_match(k, 38));
    assert(first_book_match(k, 36) == first_book_match(k, 38));
    assert(first_book_match(k, 35) == first_book_match(k, 38));
    assert(first_book_match(k, 34) == first_book_match(k, 38));
    assert(first_book_match(k, 33) == first_book_match(k, 38));
    assert(first_book_match(k, 32) == first_book_match(k, 38));
}

proof fn found_by_english_38()
    ensures
        lookup_canon_spec(canon_spec(38).name_en@) == Some(canon_spec(38)),
{
    book_38();
    let k = canon_spec(38).name_en@;
    lemma_plain_key(k);
    lemma_not_number(k, 0);
    misses_english_38_0();
    misses_english_38_16();
    misses_english_38_32();
    assert(first_book_match(k, 38) == Some(38int));
}

#[verifier::rlimit(40)]
proof fn misses_osis_39_0()
    ensures
        first_book_match(canon_spec(39).osis@, 0) == first_book_match(canon_spec(39).osis@, 16),
{
    book_39();
    let k = canon_spec(39).osis@;
    book_0();
    book_1();
    lemma_not_eq_ic(canon_spec(1).osis@, k, 0);
    lemma_not_same(canon_spec(1).name_zh@, k, 0);
    book_2();
    book_3();
    book_4();
    lemma_not_eq_ic(canon_spec(4).osis@, k, 0);
    book_5();
    lemma_not_eq_ic(canon_spec(5).osis@, k, 0);
    lemma_not_same(canon_spec(5).name_zh@, k, 0);
    book_6();
    lemma_not_eq_ic(canon_spec(6).osis@, k, 0);
    book_7();
    lemma_not_eq_ic(canon_spec(7).osis@, k, 0);
    lemma_not_eq_ic(canon_spec(7).name_en@, k, 0);
    book_8();
    lemma_not_eq_ic(canon_spec(8).osis@, k, 0);
    book_9();
    lemma_not_eq_ic(canon_spec(9).osis@, k, 0);
    book_10();
    lemma_not_eq_ic(canon_spec(10).osis@, k, 0);
    lemma_not_same(canon_spec(10).name_zh@, k, 0);
    book_11();
    lemma_not_eq_ic(canon_spec(11).osis@, k, 0);
    lemma_not_same(canon_spec(11).name_zh@, k, 0);
    book_12();
    lemma_not_eq_ic(canon_spec(12).osis@, k, 0);
    lemma_not_same(canon_spec(12).name_zh@, k, 0);
    book_13();
    lemma_not_eq_ic(canon_spec(13).osis@, k, 0);
    lemma_not_same(canon_spec(13).name_zh@, k, 0);
    book_14();
    lemma_not_eq_ic(canon_spec(14).osis@, k, 0);
    lemma_not_same(canon_spec(14).name_zh@, k, 0);
    lemma_not_eq_ic(canon_spec(14).name_en@, k, 0);
    book_15();
    lemma_not_same(canon_spec(15).name_zh@, k, 0);
    assert(first_book_match(k, 15) == first_book_match(k, 16));
    assert(first_book_match(k, 14) == first_book_match(k, 16));
    assert(first_book_match(k, 13) == first_book_match(k, 16));
    assert(first_book_match(k, 12) == first_book_match(k, 16));
    assert(first_book_match(k, 11) == first_book_match(k, 16));
    assert(first_book_match(k, 10) == first_book_match(k, 16));
    assert(first_book_match(k, 9) == first_book_match(k, 16));
    assert(first_book_match(k, 8) == first_book_match(k, 16));
    assert(first_book_match(k, 7) == first_book_match(k, 16));
    assert(first_book_match(k, 6) == first_book_match(k, 16));
    assert(first_book_match(k, 5) == first_book_match(k, 16));
    assert(first_book_match(k, 4) == first_book_match(k, 16));
    assert(first_book_match(k, 3) == first_book_match(k, 16));
    assert(first_book_match(k, 2) == first_book_match(k, 16));
    assert(first_book_match(k, 1) == first_book_match(k, 16));
    assert(first_book_match(k, 0) == first_book_match(k, 16));
}

#[verifier::rlimit(40)]
proof fn misses_osis_39_16()
    ensures
        first_book_match(canon_spec(39).osis@, 16) == first_book_match(canon_spec(39).osis@, 32),
{
    book_39();
    let k = canon_spec(39).osis@;
    book_16();
    lemma_not_eq_ic(canon_spec(16).osis@, k, 0);
    lemma_not_same(canon_spec(16).name_zh@, k, 0);
    book_17();
    book_18();
    book_19();
    lemma_not_eq_ic(canon_spec(19).osis@, k, 0);
    book_20();
    lemma_not_eq_ic(canon_spec(20).osis@, k, 0);
    book_21();
    lemma_not_eq_ic(canon_spec(21).osis@, k, 0);
    book_22();
    lemma_not_same(canon_spec(22).name_zh@, k, 0);
    book_23();
    lemma_not_same(canon_spec(23).name_zh@, k, 0);
    book_24();
    book_25();
    lemma_not_eq_ic(canon_spec(25).osis@, k, 0);
    lemma_not_same(canon_spec(25).name_zh@, k, 0);
    book_26();
    lemma_not_same(canon_spec(26).name_zh@, k, 0);
    book_27();
    lemma_not_same(canon_spec(27).name_zh@, k, 0);
    book_28();
    lemma_not_eq_ic(canon_spec(28).osis@, k, 0);
    lemma_not_eq_ic(canon_spec(28).name_en@, k, 0);
    book_29();
    lemma_not_eq_ic(canon_spec(29).osis@, k, 0);
    lemma_not_same(canon_spec(29).name_zh@, k, 0);
    lemma_not_eq_ic(canon_spec(29).name_en@, k, 0);
    book_30();
    lemma_not_eq_ic(canon_spec(30).osis@, k, 0);
    book_31();
    assert(first_book_match(k, 31) == first_book_match(k, 32));
    assert(first_book_match(k, 30) == first_book_match(k, 32));
    assert(first_book_match(k, 29) == first_book_match(k, 32));
    assert(first_book_match(k, 28) == first_book_match(k, 32));
    assert(first_book_match(k, 27) == first_book_match(k, 32));
    assert(first_book_match(k, 26) == first_book_match(k, 32));
    assert(first_book_match(k, 25) == first_book_match(k, 32));
    assert(first_book_match(k, 24) == first_book_match(k, 32));
    assert(first_book_match(k, 23) == first_book_match(k, 32));
    assert(first_book_match(k, 22) == first_book_match(k, 32));
    assert(first_book_match(k, 21) == first_book_match(k, 32));
    assert(first_book_match(k, 20) == first_book_match(k, 32));
    assert(first_book_match(k, 19) == first_book_match(k, 32));
    assert(first_book_match(k, 18) == first_book_match(k, 32));
    assert(first_book_match(k, 17) == first_book_match(k, 32));
    assert(first_book_match(k, 16) == first_book_match(k, 32));
}

#[verifier::rlimit(40)]
proof fn misses_osis_39_32()
    ensures
        first_book_match(canon_spec(39).osis@, 32) == first_book_match(canon_spec(39).osis@, 39),
{
    book_39();
    let k = canon_spec(39).osis@;
    book_32();
    book_33();
    book_34();
    lemma_not_same(canon_spec(34).name_zh@, k, 0);
    book_35();
    lemma_not_eq_ic(canon_spec(35).osis@, k, 0);
    lemma_not_same(canon_spec(35).name_zh@, k, 0);
    book_36();
    book_37();
    lemma_not_eq_ic(canon_spec(37).osis@, k, 0);
    book_38();
    lemma_not_same(canon_spec(38).name_zh@, k, 0);
    assert(first_book_match(k, 38) == first_book_match(k, 39));
    assert(first_book_match(k, 37) == first_book_match(k, 39));
    assert(first_book_match(k, 36) == first_book_match(k, 39));
    assert(first_book_match(k, 35) == first_book_match(k, 39));
    assert(first_book_match(k, 34) == first_book_match(k, 39));
    assert(first_book_match(k, 33) == first_book_match(k, 39));
    assert(first_book_match(k, 32) == first_book_match(k, 39));
}

proof fn found_by_osis_39()
    ensures
        lookup_canon_spec(canon_spec(39).osis@) == Some(canon_spec(39)),
{
    book_39();
    let k = canon_spec(39).osis@;
    lemma_plain_key(k);
    lemma_not_number(k, 0);
    misses_osis_39_0();
    misses_osis_39_16();
    misses_osis_39_32();
    assert(first_book_match(k, 39) == Some(39int));
}

#[verifier::rlimit(40)]
proof fn misses_abbreviation_39_0()
    ensures
        first_book_match(canon_spec(39).name_zh_short@, 0) == first_book_match(canon_spec(39).name_zh_short@, 16),
{
    book_39();
    let k = canon_spec(39).name_zh_short@;
    book_0();
    lemma_not_same(canon_spec(0).name_zh_short@, k, 0);
    book_1();
    lemma_not_same(canon_spec(1).name_zh_short@, k, 0);
    book_2();
    lemma_not_same(canon_spec(2).name_zh_short@, k, 0);
    book_3();
    lemma_not_same(canon_spec(3).name_zh_short@, k, 0);
    book_4();
    lemma_not_same(canon_spec(4).name_zh_short@, k, 0);
    book_5();
    lemma_not_same(canon_spec(5).name_zh_short@, k, 0);
    book_6();
    lemma_not_same(canon_spec(6).name_zh_short@, k, 0);
    book_7();
    lemma_not_same(canon_spec(7).name_zh_short@, k, 0);
    book_8();
    book_9();
    book_10();
    book_11();
    book_12();
    book_13();
    book_14();
    lemma_not_same(canon_spec(14).name_zh_short@, k, 0);
    book_15();
    lemma_not_same(canon_spec(15).name_zh_short@, k, 0);
    assert(first_book_match(k, 15) == first_book_match(k, 16));
    assert(first_book_match(k, 14) == first_book_match(k, 16));
    assert(first_book_match(k, 13) == first_book_match(k, 16));
    assert(first_book_match(k, 12) == first_book_match(k, 16));
    assert(first_book_match(k, 11) == first_book_match(k, 16));
    assert(first_book_match(k, 10) == first_book_match(k, 16));
    assert(first_book_match(k, 9) == first_book_match(k, 16));
    assert(first_book_match(k, 8) == first_book_match(k, 16));
    assert(first_book_match(k, 7) == first_book_match(k, 16));
    assert(first_book_match(k, 6) == first_book_match(k, 16));
    assert(first_book_match(k, 5) == first_book_match(k, 16));
    assert(first_book_match(k, 4) == first_book_match(k, 16));
    assert(first_book_match(k, 3) == first_book_match(k, 16));
    assert(first_book_match(k, 2) == first_book_match(k, 16));
    assert(first_book_match(k, 1) == first_book_match(k, 16));
    assert(first_book_match(k, 0) == first_book_match(k, 16));
}

#[verifier::rlimit(40)]
proof fn misses_abbreviation_39_16()
    ensures
        first_book_match(canon_spec(39).name_zh_short@, 16) == first_book_match(canon_spec(39).name_zh_short@, 32),
{
    book_39();
    let k = canon_spec(39).name_zh_short@;
    book_16();
    lemma_not_same(canon_spec(16).name_zh_short@, k, 0);
    book_17();
    lemma_not_same(canon_spec(17).name_zh_short@, k, 0);
    book_18();
    lemma_not_same(canon_spec(18).name_zh_short@, k, 0);
    book_19();
    lemma_not_same(canon_spec(19).name_zh_short@, k, 0);
    book_20();
    lemma_not_same(canon_spec(20).name_zh_short@, k, 0);
    book_21();
    lemma_not_same(canon_spec(21).name_zh_short@, k, 0);
    book_22();
    lemma_not_same(canon_spec(22).name_zh_short@, k, 0);
    book_23();
    lemma_not_same(canon_spec(23).name_zh_short@, k, 0);
    book_24();
    lemma_not_same(canon_spec(24).name_zh_short@, k, 0);
    book_25();
    lemma_not_same(canon_spec(25).name_zh_short@, k, 0);
    book_26();
    lemma_not_same(canon_spec(26).name_zh_short@, k, 0);
    book_27();
    lemma_not_same(canon_spec(27).name_zh_short@, k, 0);
    book_28();
    lemma_not_same(canon_spec(28).name_zh_short@, k, 0);
    book_29();
    lemma_not_same(canon_spec(29).name_zh_short@, k, 0);
    book_30();
    lemma_not_same(canon_spec(30).name_zh_short@, k, 0);
    book_31();
    lemma_not_same(canon_spec(31).name_zh_short@, k, 0);
    assert(first_book_match(k, 31) == first_book_match(k, 32));
    assert(first_book_match(k, 30) == first_book_match(k, 32));
    assert(first_book_match(k, 29) == first_book_match(k, 32));
    assert(first_book_match(k, 28) == first_book_match(k, 32));
    assert(first_book_match(k, 27) == first_book_match(k, 32));
    assert(first_book_match(k, 26) == first_book_match(k, 32));
    assert(first_book_match(k, 25) == first_book_match(k, 32));
    assert(first_book_match(k, 24) == first_book_match(k, 32));
    assert(first_book_match(k, 23) == first_book_match(k, 32));
    assert(first_book_match(k, 22) == first_book_match(k, 32));
    assert(first_book_match(k, 21) == first_book_match(k, 32));
    assert(first_book_match(k, 20) == first_book_match(k, 32));
    assert(first_book_match(k, 19) == first_book_match(k, 32));
    assert(first_book_match(k, 18) == first_book_match(k, 32));
    assert(first_book_match(k, 17) == first_book_match(k, 32));
    assert(first_book_match(k, 16) == first_book_match(k, 32));
}

#[verifier::rlimit(40)]
proof fn misses_abbreviation_39_32()
    ensures
        first_book_match(canon_spec(39).name_zh_short@, 32) == first_book_match(canon_spec(39).name_zh_short@, 39),
{
    book_39();
    let k = canon_spec(39).name_zh_short@;
    book_32();
    lemma_not_same(canon_spec(32).name_zh_short@, k, 0);
    book_33();
    lemma_not_same(canon_spec(33).name_zh_short@, k, 0);
    book_34();
    lemma_not_same(canon_spec(34).name_zh_short@, k, 0);
    book_35();
    lemma_not_same(canon_spec(35).name_zh_short@, k, 0);
    book_36();
    lemma_not_same(canon_spec(36).name_zh_short@, k, 0);
    book_37();
    lemma_not_same(canon_spec(37).name_zh_short@, k, 0);
    book_38();
    lemma_not_same(canon_spec(38).name_zh_short@, k, 0);
    assert(first_book_match(k, 38) == first_book_match(k, 39));
    assert(first_book_match(k, 37) == first_book_match(k, 39));
    assert(first_book_match(k, 36) == first_book_match(k, 39));
    assert(first_book_match(k, 35) == first_book_match(k, 39));
    assert(first_book_match(k, 34) == first_book_match(k, 39));
    assert(first_book_match(k, 33) == first_book_match(k, 39));
    assert(first_book_match(k, 32) == first_book_match(k, 39));
}

proof fn found_by_abbreviation_39()
    ensures
        lookup_canon_spec(canon_spec(39).name_zh_short@) == Some(canon_spec(39)),
{
    book_39();
    let k = canon_spec(39).name_zh_short@;
    lemma_plain_key(k);
    lemma_not_number(k, 0);
    misses_abbreviation_39_0();
    misses_abbreviation_39_16();
    misses_abbreviation_39_32();
    assert(first_book_match(k, 39) == Some(39int));
}

#[verifier::rlimit(40)]
proof fn misses_english_39_0()
    ensures
        first_book_match(canon_spec(39).name_en@, 0) == first_book_match(canon_spec(39).name_en@, 16),
{
    book_39();
    let k = canon_spec(39).name_en@;
    book_0();
    lemma_not_eq_ic(canon_spec(0).name_en@, k, 0);
    book_1();
    book_2();
    book_3();
    lemma_not_eq_ic(canon_spec(3).name_en@, k, 0);
    book_4();
    book_5();
    book_6();
    book_7();
    book_8();
    book_9();
    book_10();
    lemma_not_eq_ic(canon_spec(10).name_en@, k, 0);
    book_11();
    lemma_not_eq_ic(canon_spec(11).name_en@, k, 0);
    book_12();
    book_13();
    book_14();
    book_15();
    assert(first_book_match(k, 15) == first_book_match(k, 16));
    assert(first_book_match(k, 14) == first_book_match(k, 16));
    assert(first_book_match(k, 13) == first_book_match(k, 16));
    assert(first_book_match(k, 12) == first_book_match(k, 16));
    assert(first_book_match(k, 11) == first_book_match(k, 16));
    assert(first_book_match(k, 10) == first_book_match(k, 16));
    assert(first_book_match(k, 9) == first_book_match(k, 16));
    assert(first_book_match(k, 8) == first_book_match(k, 16));
    assert(first_book_match(k, 7) == first_book_match(k, 16));
    assert(first_book_match(k, 6) == first_book_match(k, 16));
    assert(first_book_match(k, 5) == first_book_match(k, 16));
    assert(first_book_match(k, 4) == first_book_match(k, 16));
    assert(first_book_match(k, 3) == first_book_match(k, 16));
    assert(first_book_match(k, 2) == first_book_match(k, 16));
    assert(first_book_match(k, 1) == first_book_match(k, 16));
    assert(first_book_match(k, 0) == first_book_match(k, 16));
}

#[verifier::rlimit(40)]
proof fn misses_english_39_16()
    ensures
        first_book_match(canon_spec(39).name_en@, 16) == first_book_match(canon_spec(39).name_en@, 32),
{
    book_39();
    let k = canon_spec(39).name_en@;
    book_16();
    book_17();
    book_18();
    book_19();
    book_20();
    book_21();
    book_22();
    book_23();
    book_24();
    book_25();
    lemma_not_eq_ic(canon_spec(25).name_en@, k, 0);
    book_26();
    book_27();
    book_28();
    book_29();
    book_30();
    lemma_not_eq_ic(canon_spec(30).name_en@, k, 0);
    book_31();
    assert(first_book_match(k, 31) == first_book_match(k, 32));
    assert(first_book_match(k, 30) == first_book_match(k, 32));
    assert(first_book_match(k, 29) == first_book_match(k, 32));
    assert(first_book_match(k, 28) == first_book_match(k, 32));
    assert(first_book_match(k, 27) == first_book_match(k, 32));
    assert(first_book_match(k, 26) == first_book_match(k, 32));
    assert(first_book_match(k, 25) == first_book_match(k, 32));
    assert(first_book_match(k, 24) == first_book_match(k, 32));
    assert(first_book_match(k, 23) == first_book_match(k, 32));
    assert(first_book_match(k, 22) == first_book_match(k, 32));
    assert(first_book_match(k, 21) == first_book_match(k, 32));
    assert(first_book_match(k, 20) == first_book_match(k, 32));
    assert(first_book_match(k, 19) == first_book_match(k, 32));
    assert(first_book_match(k, 18) == first_book_match(k, 32));
    assert(first_book_match(k, 17) == first_book_match(k, 32));
    assert(first_book_match(k, 16) == first_book_match(k, 32));
}

#[verifier::rlimit(40)]
proof fn misses_english_39_32()
    ensures
        first_book_match(canon_spec(39).name_en@, 32) == first_book_match(canon_spec(39).name_en@, 39),
{
    book_39();
    let k = canon_spec(39).name_en@;
    book_32();
    book_33();
    book_34();
    book_35();
    book_36();
    book_37();
    book_38();
    lemma_not_eq_ic(canon_spec(38).name_en@, k, 2);
    assert(first_book_match(k, 38) == first_book_match(k, 39));
    assert(first_book_match(k, 37) == first_book_match(k, 39));
    assert(first_book_match(k, 36) == first_book_match(k, 39));
    assert(first_book_match(k, 35) == first_book_match(k, 39));
    assert(first_book_match(k, 34) == first_book_match(k, 39));
    assert(first_book_match(k, 33) == first_book_match(k, 39));
    assert(first_book_match(k, 32) == first_book_match(k, 39));
}

proof fn found_by_english_39()
    ensures
        lookup_canon_spec(canon_spec(39).name_en@) == Some(canon_spec(39)),
{
    book_39();
    let k = canon_spec(39).name_en@;
    lemma_plain_key(k);
    lemma_not_number(k, 0);
    misses_english_39_0();
    misses_english_39_16();
    misses_english_39_32();
    assert(first_book_match(k, 39) == Some(39int));
}

#[verifier::rlimit(40)]
proof fn misses_osis_40_0()
    ensures
        first_book_match(canon_spec(40).osis@, 0) == first_book_match(canon_spec(40).osis@, 16),
{
    book_40();
    let k = canon_spec(40).osis@;
    book_0();
    book_1();
    lemma_not_eq_ic(canon_spec(1).osis@, k, 0);
    lemma_not_same(canon_spec(1).name_zh@, k, 0);
    book_2();
    book_3();
    book_4();
    lemma_not_eq_ic(canon_spec(4).osis@, k, 0);
    book_5();
    lemma_not_eq_ic(canon_spec(5).osis@, k, 0);
    lemma_not_same(canon_spec(5).name_zh@, k, 0);
    book_6();
    lemma_not_eq_ic(canon_spec(6).osis@, k, 0);
    book_7();
    lemma_not_eq_ic(canon_spec(7).osis@, k, 0);
    lemma_not_eq_ic(canon_spec(7).name_en@, k, 0);
    book_8();
    lemma_not_eq_ic(canon_spec(8).osis@, k, 0);
    book_9();
    lemma_not_eq_ic(canon_spec(9).osis@, k, 0);
    book_10();
    lemma_not_eq_ic(canon_spec(10).osis@, k, 0);
    lemma_not_same(canon_spec(10).name_zh@, k, 0);
    book_11();
    lemma_not_eq_ic(canon_spec(11).osis@, k, 0);
    lemma_not_same(canon_spec(11).name_zh@, k, 0);
    book_12();
    lemma_not_eq_ic(canon_spec(12).osis@, k, 0);
    lemma_not_same(canon_spec(12).name_zh@, k, 0);
    book_13();
    lemma_not_eq_ic(canon_spec(13).osis@, k, 0);
    lemma_not_same(canon_spec(13).name_zh@, k, 0);
    book_14();
    lemma_not_eq_ic(canon_spec(14).osis@, k, 0);
    lemma_not_same(canon_spec(14).name_zh@, k, 0);
    lemma_not_eq_ic(canon_spec(14).name_en@, k, 0);
    book_15();
    lemma_not_same(canon_spec(15).name_zh@, k, 0);
    assert(first_book_match(k, 15) == first_book_match(k, 16));
    assert(first_book_match(k, 14) == first_book_match(k, 16));
    assert(first_book_match(k, 13) == first_book_match(k, 16));
    assert(first_book_match(k, 12) == first_book_match(k, 16));
    assert(first_book_match(k, 11) == first_book_match(k, 16));
    assert(first_book_match(k, 10) == first_book_match(k, 16));
    assert(first_book_match(k, 9) == first_book_match(k, 16));
    assert(first_book_match(k, 8) == first_book_match(k, 16));
    assert(first_book_match(k, 7) == first_book_match(k, 16));
    assert(first_book_match(k, 6) == first_book_match(k, 16));
    assert(first_book_match(k, 5) == first_book_match(k, 16));
    assert(first_book_match(k, 4) == first_book_match(k, 16));
    assert(first_book_match(k, 3) == first_book_match(k, 16));
    assert(first_book_match(k, 2) == first_book_match(k, 16));
    assert(first_book_match(k, 1) == first_book_match(k, 16));
    assert(first_book_match(k, 0) == first_book_match(k, 16));
}

#[verifier::rlimit(40)]
proof fn misses_osis_40_16()
    ensures
        first_book_match(canon_spec(40).osis@, 16) == first_book_match(canon_spec(40).osis@, 32),
{
    book_40();
    let k = canon_spec(40).osis@;
    book_16();
    lemma_not_eq_ic(canon_spec(16).osis@, k, 0);
    lemma_not_same(canon_spec(16).name_zh@, k, 0);
    book_17();
    book_18();
    book_19();
    lemma_not_eq_ic(canon_spec(19).osis@, k, 0);
    book_20();
    lemma_not_eq_ic(canon_spec(20).osis@, k, 0);
    book_21();
    lemma_not_eq_ic(canon_spec(21).osis@, k, 0);
    book_22();
    lemma_not_same(canon_spec(22).name_zh@, k, 0);
    book_23();
    lemma_not_same(canon_spec(23).name_zh@, k, 0);
    book_24();
    book_25();
    lemma_not_eq_ic(canon_spec(25).osis@, k, 0);
    lemma_not_same(canon_spec(25).name_zh@, k, 0);
    book_26();
    lemma_not_same(canon_spec(26).name_zh@, k, 0);
    book_27();
    lemma_not_same(canon_spec(27).name_zh@, k, 0);
    book_28();
    lemma_not_eq_ic(canon_spec(28).osis@, k, 0);
    lemma_not_eq_ic(canon_spec(28).name_en@, k, 0);
    book_29();
    lemma_not_eq_ic(canon_spec(29).osis@, k, 0);
    lemma_not_same(canon_spec(29).name_zh@, k, 0);
    lemma_not_eq_ic(canon_spec(29).name_en@, k, 0);
    book_30();
    lemma_not_eq_ic(canon_spec(30).osis@, k, 0);
    book_31();
    assert(first_book_match(k, 31) == first_book_match(k, 32));
    assert(first_book_match(k, 30) == first_book_match(k, 32));
    assert(first_book_match(k, 29) == first_book_match(k, 32));
    assert(first_book_match(k, 28) == first_book_match(k, 32));
    assert(first_book_match(k, 27) == first_book_match(k, 32));
    assert(first_book_match(k, 26) == first_book_match(k, 32));
    assert(first_book_match(k, 25) == first_book_match(k, 32));
    assert(first_book_match(k, 24) == first_book_match(k, 32));
    assert(first_book_match(k, 23) == first_book_match(k, 32));
    assert(first_book_match(k, 22) == first_book_match(k, 32));
    assert(first_book_match(k, 21) == first_book_match(k, 32));
    assert(first_book_match(k, 20) == first_book_match(k, 32));
    assert(first_book_match(k, 19) == first_book_match(k, 32));
    assert(first_book_match(k, 18) == first_book_match(k, 32));
    assert(first_book_match(k, 17) == first_book_match(k, 32));
    assert(first_book_match(k, 16) == first_book_match(k, 32));
}

#[verifier::rlimit(40)]
proof fn misses_osis_40_32()
    ensures
        first_book_match(canon_spec(40).osis@, 32) == first_book_match(canon_spec(40).osis@, 40),
{
    book_40();
    let k = canon_spec(40).osis@;
    book_32();
    book_33();
    book_34();
    lemma_not_same(canon_spec(34).name_zh@, k, 0);
    book_35();
    lemma_not_eq_ic(canon_spec(35).osis@, k, 0);
    lemma_not_same(canon_spec(35).name_zh@, k, 0);
    book_36();
    book_37();
    lemma_not_eq_ic(canon_spec(37).osis@, k, 0);
    book_38();
    lemma_not_same(canon_spec(38).name_zh@, k, 0);
    book_39();
    lemma_not_eq_ic(canon_spec(39).osis@, k, 2);
    lemma_not_same(canon_spec(39).name_zh@, k, 0);
    assert(first_book_match(k, 39) == first_book_match(k, 40));
    assert(first_book_match(k, 38) == first_book_match(k, 40));
    assert(first_book_match(k, 37) == first_book_match(k, 40));
    assert(first_book_match(k, 36) == first_book_match(k, 40));
    assert(first_book_match(k, 35) == first_book_match(k, 40));
    assert(first_book_match(k, 34) == first_book_match(k, 40));
    assert(first_book_match(k, 33) == first_book_match(k, 40));
    assert(first_book_match(k, 32) == first_book_match(k, 40));
}

proof fn found_by_osis_40()
    ensures
        lookup_canon_spec(canon_spec(40).osis@) == Some(canon_spec(40)),
{
    book_40();
    let k = canon_spec(40).osis@;
    lemma_plain_key(k);
    lemma_not_number(k, 0);
    misses_osis_40_0();
    misses_osis_40_16();
    misses_osis_40_32();
    assert(first_book_match(k, 40) == Some(40int));
}

#[verifier::rlimit(40)]
proof fn misses_abbreviation_40_0()
    ensures
        first_book_match(canon_spec(40).name_zh_short@, 0) == first_book_match(canon_spec(40).name_zh_short@, 16),
{
    book_40();
    let k = canon_spec(40).name_zh_short@;
    book_0();
    lemma_not_same(canon_spec(0).name_zh_short@, k, 0);
    book_1();
    lemma_not_same(canon_spec(1).name_zh_short@, k, 0);
    book_2();
    lemma_not_same(canon_spec(2).name_zh_short@, k, 0);
    book_3();
    lemma_not_same(canon_spec(3).name_zh_short@, k, 0);
    book_4();
    lemma_not_same(canon_spec(4).name_zh_short@, k, 0);
    book_5();
    lemma_not_same(canon_spec(5).name_zh_short@, k, 0);
    book_6();
    lemma_not_same(canon_spec(6).name_zh_short@, k, 0);
    book_7();
    lemma_not_same(canon_spec(7).name_zh_short@, k, 0);
    book_8();
    book_9();
    book_10();
    book_11();
    book_12();
    book_13();
    book_14();
    lemma_not_same(canon_spec(14).name_zh_short@, k, 0);
    book_15();
    lemma_not_same(canon_spec(15).name_zh_short@, k, 0);
    assert(first_book_match(k, 15) == first_book_match(k, 16));
    assert(first_book_match(k, 14) == first_book_match(k, 16));
    assert(first_book_match(k, 13) == first_book_match(k, 16));
    assert(first_book_match(k, 12) == first_book_match(k, 16));
    assert(first_book_match(k, 11) == first_book_match(k, 16));
    assert(first_book_match(k, 10) == first_book_match(k, 16));
    assert(first_book_match(k, 9) == first_book_match(k, 16));
    assert(first_book_match(k, 8) == first_book_match(k, 16));
    assert(first_book_match(k, 7) == first_book_match(k, 16));
    assert(first_book_match(k, 6) == first_book_match(k, 16));
    assert(first_book_match(k, 5) == first_book_match(k, 16));
    assert(first_book_match(k, 4) == first_book_match(k, 16));
    assert(first_book_match(k, 3) == first_book_match(k, 16));
    assert(first_book_match(k, 2) == first_book_match(k, 16));
    assert(first_book_match(k, 1) == first_book_match(k, 16));
    assert(first_book_match(k, 0) == first_book_match(k, 16));
}

#[verifier::rlimit(40)]
proof fn misses_abbreviation_40_16()
    ensures
        first_book_match(canon_spec(40).name_zh_short@, 16) == first_book_match(canon_spec(40).name_zh_short@, 32),
{
    book_40();
    let k = canon_spec(40).name_zh_short@;
    book_16();
    lemma_not_same(canon_spec(16).name_zh_short@, k, 0);
    book_17();
    lemma_not_same(canon_spec(17).name_zh_short@, k, 0);
    book_18();
    lemma_not_same(canon_spec(18).name_zh_short@, k, 0);
    book_19();
    lemma_not_same(canon_spec(19).name_zh_short@, k, 0);
    book_20();
    lemma_not_same(canon_spec(20).name_zh_short@, k, 0);
    book_21();
    lemma_not_same(canon_spec(21).name_zh_short@, k, 0);
    book_22();
    lemma_not_same(canon_spec(22).name_zh_short@, k, 0);
    book_23();
    lemma_not_same(canon_spec(23).name_zh_short@, k, 0);
    book_24();
    lemma_not_same(canon_spec(24).name_zh_short@, k, 0);
    book_25();
    lemma_not_same(canon_spec(25).name_zh_short@, k, 0);
    book_26();
    lemma_not_same(canon_spec(26).name_zh_short@, k, 0);
    book_27();
    lemma_not_same(canon_spec(27).name_zh_short@, k, 0);
    book_28();
    lemma_not_same(canon_spec(28).name_zh_short@, k, 0);
    book_29();
    lemma_not_same(canon_spec(29).name_zh_short@, k, 0);
    book_30();
    lemma_not_same(canon_spec(30).name_zh_short@, k, 0);
    book_31();
    lemma_not_same(canon_spec(31).name_zh_short@, k, 0);
    assert(first_book_match(k, 31) == first_book_match(k, 32));
    assert(first_book_match(k, 30) == first_book_match(k, 32));
    assert(first_book_match(k, 29) == first_book_match(k, 32));
    assert(first_book_match(k, 28) == first_book_match(k, 32));
    assert(first_book_match(k, 27) == first_book_match(k, 32));
    assert(first_book_match(k, 26) == first_book_match(k, 32));
    assert(first_book_match(k, 25) == first_book_match(k, 32));
    assert(first_book_match(k, 24) == first_book_match(k, 32));
    assert(first_book_match(k, 23) == first_book_match(k, 32));
    assert(first_book_match(k, 22) == first_book_match(k, 32));
    assert(first_book_match(k, 21) == first_book_match(k, 32));
    assert(first_book_match(k, 20) == first_book_match(k, 32));
    assert(first_book_match(k, 19) == first_book_match(k, 32));
    assert(first_book_match(k, 18) == first_book_match(k, 32));
    assert(first_book_match(k, 17) == first_book_match(k, 32));
    assert(first_book_match(k, 16) == first_book_match(k, 32));
}

#[verifier::rlimit(40)]
proof fn misses_abbreviation_40_32()
    ensures
        first_book_match(canon_spec(40).name_zh_short@, 32) == first_book_match(canon_spec(40).name_zh_short@, 40),
{
    book_40();
    let k = canon_spec(40).name_zh_short@;
    book_32();
    lemma_not_same(canon_spec(32).name_zh_short@, k, 0);
    book_33();
    lemma_not_same(canon_spec(33).name_zh_short@, k, 0);
    book_34();
    lemma_not_same(canon_spec(34).name_zh_short@, k, 0);
    book_35();
    lemma_not_same(canon_spec(35).name_zh_short@, k, 0);
    book_36();
    lemma_not_same(canon_spec(36).name_zh_short@, k, 0);
    book_37();
    lemma_not_same(canon_spec(37).name_zh_short@, k, 0);
    book_38();
    lemma_not_same(canon_spec(38).name_zh_short@, k, 0);
    book_39();
    lemma_not_same(canon_spec(39).name_zh_short@, k, 0);
    assert(first_book_match(k, 39) == first_book_match(k, 40));
    assert(first_book_match(k, 38) == first_book_match(k, 40));
    assert(first_book_match(k, 37) == first_book_match(k, 40));
    assert(first_book_match(k, 36) == first_book_match(k, 40));
    assert(first_book_match(k, 35) == first_book_match(k, 40));
    assert(first_book_match(k, 34) == first_book_match(k, 40));
    assert(first_book_match(k, 33) == first_book_match(k, 40));
    assert(first_book_match(k, 32) == first_book_match(k, 40));
}

proof fn found_by_abbreviation_40()
    ensures
        lookup_canon_spec(canon_spec(40).name_zh_short@) == Some(canon_spec(40)),
{
    book_40();
    let k = canon_spec(40).name_zh_short@;
    lemma_plain_key(k);
    lemma_not_number(k, 0);
    misses_abbreviation_40_0();
    misses_abbreviation_40_16();
    misses_abbreviation_40_32();
    assert(first_book_match(k, 40) == Some(40int));
}

#[verifier::rlimit(40)]
proof fn misses_english_40_0()
    ensures
        first_book_match(canon_spec(40).name_en@, 0) == first_book_match(canon_spec(40).name_en@, 16),
{
    book_40();
    let k = canon_spec(40).name_en@;
    book_0();
    book_1();
    lemma_not_eq_ic(canon_spec(1).osis@, k, 0);
    lemma_not_same(canon_spec(1).name_zh@, k, 0);
    book_2();
    book_3();
    book_4();
    lemma_not_eq_ic(canon_spec(4).osis@, k, 0);
    book_5();
    lemma_not_eq_ic(canon_spec(5).osis@, k, 0);
    lemma_not_same(canon_spec(5).name_zh@, k, 0);
    book_6();
    lemma_not_eq_ic(canon_spec(6).osis@, k, 0);
    book_7();
    lemma_not_eq_ic(canon_spec(7).osis@, k, 0);
    lemma_not_eq_ic(canon_spec(7).name_en@, k, 0);
    book_8();
    lemma_not_eq_ic(canon_spec(8).osis@, k, 0);
    book_9();
    lemma_not_eq_ic(canon_spec(9).osis@, k, 0);
    book_10();
    lemma_not_eq_ic(canon_spec(10).osis@, k, 0);
    lemma_not_same(canon_spec(10).name_zh@, k, 0);
    book_11();
    lemma_not_eq_ic(canon_spec(11).osis@, k, 0);
    lemma_not_same(canon_spec(11).name_zh@, k, 0);
    book_12();
    lemma_not_eq_ic(canon_spec(12).osis@, k, 0);
    lemma_not_same(canon_spec(12).name_zh@, k, 0);
    book_13();
    lemma_not_eq_ic(canon_spec(13).osis@, k, 0);
    lemma_not_same(canon_spec(13).name_zh@, k, 0);
    book_14();
    lemma_not_eq_ic(canon_spec(14).osis@, k, 0);
    lemma_not_same(canon_spec(14).name_zh@, k, 0);
    lemma_not_eq_ic(canon_spec(14).name_en@, k, 0);
    book_15();
    lemma_not_same(canon_spec(15).name_zh@, k, 0);
    assert(first_book_match(k, 15) == first_book_match(k, 16));
    assert(first_book_match(k, 14) == first_book_match(k, 16));
    assert(first_book_match(k, 13) == first_book_match(k, 16));
    assert(first_book_match(k, 12) == first_book_match(k, 16));
    assert(first_book_match(k, 11) == first_book_match(k, 16));
    assert(first_book_match(k, 10) == first_book_match(k, 16));
    assert(first_book_match(k, 9) == first_book_match(k, 16));
    assert(first_book_match(k, 8) == first_book_match(k, 16));
    assert(first_book_match(k, 7) == first_book_match(k, 16));
    assert(first_book_match(k, 6) == first_book_match(k, 16));
    assert(first_book_match(k, 5) == first_book_match(k, 16));
    assert(first_book_match(k, 4) == first_book_match(k, 16));
    assert(first_book_match(k, 3) == first_book_match(k, 16));
    assert(first_book_match(k, 2) == first_book_match(k, 16));
    assert(first_book_match(k, 1) == first_book_match(k, 16));
    assert(first_book_match(k, 0) == first_book_match(k, 16));
}

#[verifier::rlimit(40)]
proof fn misses_english_40_16()
    ensures
        first_book_match(canon_spec(40).name_en@, 16) == first_book_match(canon_spec(40).name_en@, 32),
{
    book_40();
    let k = canon_spec(40).name_en@;
    book_16();
    lemma_not_eq_ic(canon_spec(16).osis@, k, 0);
    lemma_not_same(canon_spec(16).name_zh@, k, 0);
    book_17();
    book_18();
    book_19();
    lemma_not_eq_ic(canon_spec(19).osis@, k, 0);
    book_20();
    lemma_not_eq_ic(canon_spec(20).osis@, k, 0);
    book_21();
    lemma_not_eq_ic(canon_spec(21).osis@, k, 0);
    book_22();
    lemma_not_same(canon_spec(22).name_zh@, k, 0);
    book_23();
    lemma_not_same(canon_spec(23).name_zh@, k, 0);
    book_24();
    book_25();
    lemma_not_eq_ic(canon_spec(25).osis@, k, 0);
    lemma_not_same(canon_spec(25).name_zh@, k, 0);
    book_26();
    lemma_not_same(canon_spec(26).name_zh@, k, 0);
    book_27();
    lemma_not_same(canon_spec(27).name_zh@, k, 0);
    book_28();
    lemma_not_eq_ic(canon_spec(28).osis@, k, 0);
    lemma_not_eq_ic(canon_spec(28).name_en@, k, 0);
    book_29();
    lemma_not_eq_ic(canon_spec(29).osis@, k, 0);
    lemma_not_same(canon_spec(29).name_zh@, k, 0);
    lemma_not_eq_ic(canon_spec(29).name_en@, k, 0);
    book_30();
    lemma_not_eq_ic(canon_spec(30).osis@, k, 0);
    book_31();
    assert(first_book_match(k, 31) == first_book_match(k, 32));
    assert(first_book_match(k, 30) == first_book_match(k, 32));
    assert(first_book_match(k, 29) == first_book_match(k, 32));
    assert(first_book_match(k, 28) == first_book_match(k, 32));
    assert(first_book_match(k, 27) == first_book_match(k, 32));
    assert(first_book_match(k, 26) == first_book_match(k, 32));
    assert(first_book_match(k, 25) == first_book_match(k, 32));
    assert(first_book_match(k, 24) == first_book_match(k, 32));
    assert(first_book_match(k, 23) == first_book_match(k, 32));
    assert(first_book_match(k, 22) == first_book_match(k, 32));
    assert(first_book_match(k, 21) == first_book_match(k, 32));
    assert(first_book_match(k, 20) == first_book_match(k, 32));
    assert(first_book_match(k, 19) == first_book_match(k, 32));
    assert(first_book_match(k, 18) == first_book_match(k, 32));
    assert(first_book_match(k, 17) == first_book_match(k, 32));
    assert(first_book_match(k, 16) == first_book_match(k, 32));
}

#[verifier::rlimit(40)]
proof fn misses_english_40_32()
    ensures
        first_book_match(canon_spec(40).name_en@, 32) == first_book_match(canon_spec(40).name_en@, 40),
{
    book_40();
    let k = canon_spec(40).name_en@;
    book_32();
    book_33();
    book_34();
    lemma_not_same(canon_spec(34).name_zh@, k, 0);
    book_35();
    lemma_not_eq_ic(canon_spec(35).osis@, k, 0);
    lemma_not_same(canon_spec(35).name_zh@, k, 0);
    book_36();
    book_37();
    lemma_not_eq_ic(canon_spec(37).osis@, k, 0);
    book_38();
    lemma_not_same(canon_spec(38).name_zh@, k, 0);
    book_39();
    lemma_not_eq_ic(canon_spec(39).osis@, k, 2);
    lemma_not_same(canon_spec(39).name_zh@, k, 0);
    assert(first_book_match(k, 39) == first_book_match(k, 40));
    assert(first_book_match(k, 38) == first_book_match(k, 40));
    assert(first_book_match(k, 37) == first_book_match(k, 40));
    assert(first_book_match(k, 36) == first_book_match(k, 40));
    assert(first_book_match(k, 35) == first_book_match(k, 40));
    assert(first_book_match(k, 34) == first_book_match(k, 40));
    assert(first_book_match(k, 33) == first_book_match(k, 40));
    assert(first_book_match(k, 32) == first_book_match(k, 40));
}

proof fn found_by_english_40()
    ensures
        lookup_canon_spec(canon_spec(40).name_en@) == Some(canon_spec(40)),
{
    book_40();
    let k = canon_spec(40).name_en@;
    lemma_plain_key(k);
    lemma_not_number(k, 0);
    misses_english_40_0();
    misses_english_40_16();
    misses_english_40_32();
    assert(first_book_match(k, 40) == Some(40int));
}

#[verifier::rlimit(40)]
proof fn misses_osis_41_0()
    ensures
        first_book_match(canon_spec(41).osis@, 0) == first_book_match(canon_spec(41).osis@, 16),
{
    book_41();
    let k = canon_spec(41).osis@;
    book_0();
    book_1();
    lemma_not_eq_ic(canon_spec(1).osis@, k, 0);
    lemma_not_same(canon_spec(1).name_zh@, k, 0);
    book_2();
    book_3();
    book_4();
    lemma_not_eq_ic(canon_spec(4).osis@, k, 0);
    book_5();
    lemma_not_eq_ic(canon_spec(5).osis@, k, 0);
    lemma_not_same(canon_spec(5).name_zh@, k, 0);
    book_6();
    lemma_not_eq_ic(canon_spec(6).osis@, k, 0);
    book_7();
    lemma_not_eq_ic(canon_spec(7).osis@, k, 0);
    lemma_not_eq_ic(canon_spec(7).name_en@, k, 0);
    book_8();
    lemma_not_eq_ic(canon_spec(8).osis@, k, 0);
    book_9();
    lemma_not_eq_ic(canon_spec(9).osis@, k, 0);
    book_10();
    lemma_not_eq_ic(canon_spec(10).osis@, k, 0);
    lemma_not_same(canon_spec(10).name_zh@, k, 0);
    book_11();
    lemma_not_eq_ic(canon_spec(11).osis@, k, 0);
    lemma_not_same(canon_spec(11).name_zh@, k, 0);
    book_12();
    lemma_not_eq_ic(canon_spec(12).osis@, k, 0);
    lemma_not_same(canon_spec(12).name_zh@, k, 0);
    book_13();
    lemma_not_eq_ic(canon_spec(13).osis@, k, 0);
    lemma_not_same(canon_spec(13).name_zh@, k, 0);
    book_14();
    lemma_not_eq_ic(canon_spec(14).osis@, k, 0);
    lemma_not_same(canon_spec(14).name_zh@, k, 0);
    lemma_not_eq_ic(canon_spec(14).name_en@, k, 0);
    book_15();
    lemma_not_same(canon_spec(15).name_zh@, k, 0);
    assert(first_book_match(k, 15) == first_book_match(k, 16));
    assert(first_book_match(k, 14) == first_book_match(k, 16));
    assert(first_book_match(k, 13) == first_book_match(k, 16));
    assert(first_book_match(k, 12) == first_book_match(k, 16));
    assert(first_book_match(k, 11) == first_book_match(k, 16));
    assert(first_book_match(k, 10) == first_book_match(k, 16));
    assert(first_book_match(k, 9) == first_book_match(k, 16));
    assert(first_book_match(k, 8) == first_book_match(k, 16));
    assert(first_book_match(k, 7) == first_book_match(k, 16));
    assert(first_book_match(k, 6) == first_book_match(k, 16));
    assert(first_book_match(k, 5) == first_book_match(k, 16));
    assert(first_book_match(k, 4) == first_book_match(k, 16));
    assert(first_book_match(k, 3) == first_book_match(k, 16));
    assert(first_book_match(k, 2) == first_book_match(k, 16));
    assert(first_book_match(k, 1) == first_book_match(k, 16));
    assert(first_book_match(k, 0) == first_book_match(k, 16));
}

#[verifier::rlimit(40)]
proof fn misses_osis_41_16()
    ensures
        first_book_match(canon_spec(41).osis@, 16) == first_book_match(canon_spec(41).osis@, 32),
{
    book_41();
    let k = canon_spec(41).osis@;
    book_16();
    lemma_not_eq_ic(canon_spec(16).osis@, k, 0);
    lemma_not_same(canon_spec(16).name_zh@, k, 0);
    book_17();
    book_18();
    book_19();
    lemma_not_eq_ic(canon_spec(19).osis@, k, 0);
    book_20();
    lemma_not_eq_ic(canon_spec(20).osis@, k, 0);
    book_21();
    lemma_not_eq_ic(canon_spec(21).osis@, k, 0);
    book_22();
    lemma_not_same(canon_spec(22).name_zh@, k, 0);
    book_23();
    lemma_not_same(canon_spec(23).name_zh@, k, 0);
    book_24();
    book_25();
    lemma_not_eq_ic(canon_spec(25).osis@, k, 0);
    lemma_not_same(canon_spec(25).name_zh@, k, 0);
    book_26();
    lemma_not_same(canon_spec(26).name_zh@, k, 0);
    book_27();
    lemma_not_same(canon_spec(27).name_zh@, k, 0);
    book_28();
    lemma_not_eq_ic(canon_spec(28).osis@, k, 0);
    lemma_not_eq_ic(canon_spec(28).name_en@, k, 0);
    book_29();
    lemma_not_eq_ic(canon_spec(29).osis@, k, 0);
    lemma_not_same(canon_spec(29).name_zh@, k, 0);
    lemma_not_eq_ic(canon_spec(29).name_en@, k, 0);
    book_30();
    lemma_not_eq_ic(canon_spec(30).osis@, k, 0);
    book_31();
    assert(first_book_match(k, 31) == first_book_match(k, 32));
    assert(first_book_match(k, 30) == first_book_match(k, 32));
    assert(first_book_match(k, 29) == first_book_match(k, 32));
    assert(first_book_match(k, 28) == first_book_match(k, 32));
    assert(first_book_match(k, 27) == first_book_match(k, 32));
    assert(first_book_match(k, 26) == first_book_match(k, 32));
    assert(first_book_match(k, 25) == first_book_match(k, 32));
    assert(first_book_match(k, 24) == first_book_match(k, 32));
    assert(first_book_match(k, 23) == first_book_match(k, 32));
    assert(first_book_match(k, 22) == first_book_match(k, 32));
    assert(first_book_match(k, 21) == first_book_match(k, 32));
    assert(first_book_match(k, 20) == first_book_match(k, 32));
    assert(first_book_match(k, 19) == first_book_match(k, 32));
    assert(first_book_match(k, 18) == first_book_match(k, 32));
    assert(first_book_match(k, 17) == first_book_match(k, 32));
    assert(first_book_match(k, 16) == first_book_match(k, 32));
}

#[verifier::rlimit(40)]
proof fn misses_osis_41_32()
    ensures
        first_book_match(canon_spec(41).osis@, 32) == first_book_match(canon_spec(41).osis@, 41),
{
    book_41();
    let k = canon_spec(41).osis@;
    book_32();
    book_33();
    book_34();
    lemma_not_same(canon_spec(34).name_zh@, k, 0);
    book_35();
    lemma_not_eq_ic(canon_spec(35).osis@, k, 0);
    lemma_not_same(canon_spec(35).name_zh@, k, 0);
    book_36();
    book_37();
    lemma_not_eq_ic(canon_spec(37).osis@, k, 0);
    book_38();
    lemma_not_same(canon_spec(38).name_zh@, k, 0);
    book_39();
    lemma_not_eq_ic(canon_spec(39).osis@, k, 0);
    lemma_not_same(canon_spec(39).name_zh@, k, 0);
    book_40();
    lemma_not_eq_ic(canon_spec(40).osis@, k, 0);
    lemma_not_same(canon_spec(40).name_zh@, k, 0);
    lemma_not_eq_ic(canon_spec(40).name_en@, k, 0);
    assert(first_book_match(k, 40) == first_book_match(k, 41));
    assert(first_book_match(k, 39) == first_book_match(k, 41));
    assert(first_book_match(k, 38) == first_book_match(k, 41));
    assert(first_book_match(k, 37) == first_book_match(k, 41));
    assert(first_book_match(k, 36) == first_book_match(k, 41));
    assert(first_book_match(k, 35) == first_book_match(k, 41));
    assert(first_book_match(k, 34) == first_book_match(k, 41));
    assert(first_book_match(k, 33) == first_book_match(k, 41));
    assert(first_book_match(k, 32) == first_book_match(k, 41));
}

proof fn found_by_osis_41()
    ensures
        lookup_canon_spec(canon_spec(41).osis@) == Some(canon_spec(41)),
{
    book_41();
    let k = canon_spec(41).osis@;
    lemma_plain_key(k);
    lemma_not_number(k, 0);
    misses_osis_41_0();
    misses_osis_41_16();
    misses_osis_41_32();
    assert(first_book_match(k, 41) == Some(41int));
}

#[verifier::rlimit(40)]
proof fn misses_abbreviation_41_0()
    ensures
        first_book_match(canon_spec(41).name_zh_short@, 0) == first_book_match(canon_spec(41).name_zh_short@, 16),
{
    book_41();
    let k = canon_spec(41).name_zh_short@;
    book_0();
    lemma_not_same(canon_spec(0).name_zh_short@, k, 0);
    book_1();
    lemma_not_same(canon_spec(1).name_zh_short@, k, 0);
    book_2();
    lemma_not_same(canon_spec(2).name_zh_short@, k, 0);
    book_3();
    lemma_not_same(canon_spec(3).name_zh_short@, k, 0);
    book_4();
    lemma_not_same(canon_spec(4).name_zh_short@, k, 0);
    book_5();
    lemma_not_same(canon_spec(5).name_zh_short@, k, 0);
    book_6();
    lemma_not_same(canon_spec(6).name_zh_short@, k, 0);
    book_7();
    lemma_not_same(canon_spec(7).name_zh_short@, k, 0);
    book_8();
    book_9();
    book_10();
    book_11();
    book_12();
    book_13();
    book_14();
    lemma_not_same(canon_spec(14).name_zh_short@, k, 0);
    book_15();
    lemma_not_same(canon_spec(15).name_zh_short@, k, 0);
    assert(first_book_match(k, 15) == first_book_match(k, 16));
    assert(first_book_match(k, 14) == first_book_match(k, 16));
    assert(first_book_match(k, 13) == first_book_match(k, 16));
    assert(first_book_match(k, 12) == first_book_match(k, 16));
    assert(first_book_match(k, 11) == first_book_match(k, 16));
    assert(first_book_match(k, 10) == first_book_match(k, 16));
    assert(first_book_match(k, 9) == first_book_match(k, 16));
    assert(first_book_match(k, 8) == first_book_match(k, 16));
    assert(first_book_match(k, 7) == first_book_match(k, 16));
    assert(first_book_match(k, 6) == first_book_match(k, 16));
    assert(first_book_match(k, 5) == first_book_match(k, 16));
    assert(first_book_match(k, 4) == first_book_match(k, 16));
    assert(first_book_match(k, 3) == first_book_match(k, 16));
    assert(first_book_match(k, 2) == first_book_match(k, 16));
    assert(first_book_match(k, 1) == first_book_match(k, 16));
    assert(first_book_match(k, 0) == first_book_match(k, 16));
}

#[verifier::rlimit(40)]
proof fn misses_abbreviation_41_16()
    ensures
        first_book_match(canon_spec(41).name_zh_short@, 16) == first_book_match(canon_spec(41).name_zh_short@, 32),
{
    book_41();
    let k = canon_spec(41).name_zh_short@;
    book_16();
    lemma_not_same(canon_spec(16).name_zh_short@, k, 0);
    book_17();
    lemma_not_same(canon_spec(17).name_zh_short@, k, 0);
    book_18();
    lemma_not_same(canon_spec(18).name_zh_short@, k, 0);
    book_19();
    lemma_not_same(canon_spec(19).name_zh_short@, k, 0);
    book_20();
    lemma_not_same(canon_spec(20).name_zh_short@, k, 0);
    book_21();
    lemma_not_same(canon_spec(21).name_zh_short@, k, 0);
    book_22();
    lemma_not_same(canon_spec(22).name_zh_short@, k, 0);
    book_23();
    lemma_not_same(canon_spec(23).name_zh_short@, k, 0);
    book_24();
    lemma_not_same(canon_spec(24).name_zh_short@, k, 0);
    book_25();
    lemma_not_same(canon_spec(25).name_zh_short@, k, 0);
    book_26();
    lemma_not_same(canon_spec(26).name_zh_short@, k, 0);
    book_27();
    lemma_not_same(canon_spec(27).name_zh_short@, k, 0);
    book_28();
    lemma_not_same(canon_spec(28).name_zh_short@, k, 0);
    book_29();
    lemma_not_same(canon_spec(29).name_zh_short@, k, 0);
    book_30();
    lemma_not_same(canon_spec(30).name_zh_short@, k, 0);
    book_31();
    lemma_not_same(canon_spec(31).name_zh_short@, k, 0);
    assert(first_book_match(k, 31) == first_book_match(k, 32));
    assert(first_book_match(k, 30) == first_book_match(k, 32));
    assert(first_book_match(k, 29) == first_book_match(k, 32));
    assert(first_book_match(k, 28) == first_book_match(k, 32));
    assert(first_book_match(k, 27) == first_book_match(k, 32));
    assert(first_book_match(k, 26) == first_book_match(k, 32));
    assert(first_book_match(k, 25) == first_book_match(k, 32));
    assert(first_book_match(k, 24) == first_book_match(k, 32));
    assert(first_book_match(k, 23) == first_book_match(k, 32));
    assert(first_book_match(k, 22) == first_book_match(k, 32));
    assert(first_book_match(k, 21) == first_book_match(k, 32));
    assert(first_book_match(k, 20) == first_book_match(k, 32));
    assert(first_book_match(k, 19) == first_book_match(k, 32));
    assert(first_book_match(k, 18) == first_book_match(k, 32));
    assert(first_book_match(k, 17) == first_book_match(k, 32));
    assert(first_book_match(k, 16) == first_book_match(k, 32));
}

#[verifier::rlimit(40)]
proof fn misses_abbreviation_41_32()
    ensures
        first_book_match(canon_spec(41).name_zh_short@, 32) == first_book_match(canon_spec(41).name_zh_short@, 41),
{
    book_41();
    let k = canon_spec(41).name_zh_short@;
    book_32();
    lemma_not_same(canon_spec(32).name_zh_short@, k, 0);
    book_33();
    lemma_not_same(canon_spec(33).name_zh_short@, k, 0);
    book_34();
    lemma_not_same(canon_spec(34).name_zh_short@, k, 0);
    book_35();
    lemma_not_same(canon_spec(35).name_zh_short@, k, 0);
    book_36();
    lemma_not_same(canon_spec(36).name_zh_short@, k, 0);
    book_37();
    lemma_not_same(canon_spec(37).name_zh_short@, k, 0);
    book_38();
    lemma_not_same(canon_spec(38).name_zh_short@, k, 0);
    book_39();
    lemma_not_same(canon_spec(39).name_zh_short@, k, 0);
    book_40();
    lemma_not_same(canon_spec(40).name_zh_short@, k, 0);
    assert(first_book_match(k, 40) == first_book_match(k, 41));
    assert(first_book_match(k, 39) == first_book_match(k, 41));
    assert(first_book_match(k, 38) == first_book_match(k, 41));
    assert(first_book_match(k, 37) == first_book_match(k, 41));
    assert(first_book_match(k, 36) == first_book_match(k, 41));
    assert(first_book_match(k, 35) == first_book_match(k, 41));
    assert(first_book_match(k, 34) == first_book_match(k, 41));
    assert(first_book_match(k, 33) == first_book_match(k, 41));
    assert(first_book_match(k, 32) == first_book_match(k, 41));
}

proof fn found_by_abbreviation_41()
    ensures
        lookup_canon_spec(canon_spec(41).name_zh_short@) == Some(canon_spec(41)),
{
    book_41();
    let k = canon_spec(41).name_zh_short@;
    lemma_plain_key(k);
    lemma_not_number(k, 0);
    misses_abbreviation_41_0();
    misses_abbreviation_41_16();
    misses_abbreviation_41_32();
    assert(first_book_match(k, 41) == Some(41int));
}

#[verifier::rlimit(40)]
proof fn misses_english_41_0()
    ensures
        first_book_match(canon_spec(41).name_en@, 0) == first_book_match(canon_spec(41).name_en@, 16),
{
    book_41();
    let k = canon_spec(41).name_en@;
    book_0();
    book_1();
    lemma_not_eq_ic(canon_spec(1).osis@, k, 0);
    lemma_not_same(canon_spec(1).name_zh@, k, 0);
    book_2();
    book_3();
    book_4();
    lemma_not_eq_ic(canon_spec(4).osis@, k, 0);
    book_5();
    lemma_not_eq_ic(canon_spec(5).osis@, k, 0);
    lemma_not_same(canon_spec(5).name_zh@, k, 0);
    book_6();
    lemma_not_eq_ic(canon_spec(6).osis@, k, 0);
    book_7();
    lemma_not_eq_ic(canon_spec(7).osis@, k, 0);
    lemma_not_eq_ic(canon_spec(7).name_en@, k, 0);
    book_8();
    lemma_not_eq_ic(canon_spec(8).osis@, k, 0);
    book_9();
    lemma_not_eq_ic(canon_spec(9).osis@, k, 0);
    book_10();
    lemma_not_eq_ic(canon_spec(10).osis@, k, 0);
    lemma_not_same(canon_spec(10).name_zh@, k, 0);
    book_11();
    lemma_not_eq_ic(canon_spec(11).osis@, k, 0);
    lemma_not_same(canon_spec(11).name_zh@, k, 0);
    book_12();
    lemma_not_eq_ic(canon_spec(12).osis@, k, 0);
    lemma_not_same(canon_spec(12).name_zh@, k, 0);
    book_13();
    lemma_not_eq_ic(canon_spec(13).osis@, k, 0);
    lemma_not_same(canon_spec(13).name_zh@, k, 0);
    book_14();
    lemma_not_eq_ic(canon_spec(14).osis@, k, 0);
    lemma_not_same(canon_spec(14).name_zh@, k, 0);
    lemma_not_eq_ic(canon_spec(14).name_en@, k, 0);
    book_15();
    lemma_not_same(canon_spec(15).name_zh@, k, 0);
    assert(first_book_match(k, 15) == first_book_match(k, 16));
    assert(first_book_match(k, 14) == first_book_match(k, 16));
    assert(first_book_match(k, 13) == first_book_match(k, 16));
    assert(first_book_match(k, 12) == first_book_match(k, 16));
    assert(first_book_match(k, 11) == first_book_match(k, 16));
    assert(first_book_match(k, 10) == first_book_match(k, 16));
    assert(first_book_match(k, 9) == first_book_match(k, 16));
    assert(first_book_match(k, 8) == first_book_match(k, 16));
    assert(first_book_match(k, 7) == first_book_match(k, 16));
    assert(first_book_match(k, 6) == first_book_match(k, 16));
    assert(first_book_match(k, 5) == first_book_match(k, 16));
    assert(first_book_match(k, 4) == first_book_match(k, 16));
    assert(first_book_match(k, 3) == first_book_match(k, 16));
    assert(first_book_match(k, 2) == first_book_match(k, 16));
    assert(first_book_match(k, 1) == first_book_match(k, 16));
    assert(first_book_match(k, 0) == first_book_match(k, 16));
}

#[verifier::rlimit(40)]
proof fn misses_english_41_16()
    ensures
        first_book_match(canon_spec(41).name_en@, 16) == first_book_match(canon_spec(41).name_en@, 32),
{
    book_41();
    let k = canon_spec(41).name_en@;
    book_16();
    lemma_not_eq_ic(canon_spec(16).osis@, k, 0);
    lemma_not_same(canon_spec(16).name_zh@, k, 0);
    book_17();
    book_18();
    book_19();
    lemma_not_eq_ic(canon_spec(19).osis@, k, 0);
    book_20();
    lemma_not_eq_ic(canon_spec(20).osis@, k, 0);
    book_21();
    lemma_not_eq_ic(canon_spec(21).osis@, k, 0);
    book_22();
    lemma_not_same(canon_spec(22).name_zh@, k, 0);
    book_23();
    lemma_not_same(canon_spec(23).name_zh@, k, 0);
    book_24();
    book_25();
    lemma_not_eq_ic(canon_spec(25).osis@, k, 0);
    lemma_not_same(canon_spec(25).name_zh@, k, 0);
    book_26();
    lemma_not_same(canon_spec(26).name_zh@, k, 0);
    book_27();
    lemma_not_same(canon_spec(27).name_zh@, k, 0);
    book_28();
    lemma_not_eq_ic(canon_spec(28).osis@, k, 0);
    lemma_not_eq_ic(canon_spec(28).name_en@, k, 0);
    book_29();
    lemma_not_eq_ic(canon_spec(29).osis@, k, 0);
    lemma_not_same(canon_spec(29).name_zh@, k, 0);
    lemma_not_eq_ic(canon_spec(29).name_en@, k, 0);
    book_30();
    lemma_not_eq_ic(canon_spec(30).osis@, k, 0);
    book_31();
    assert(first_book_match(k, 31) == first_book_match(k, 32));
    assert(first_book_match(k, 30) == first_book_match(k, 32));
    assert(first_book_match(k, 29) == first_book_match(k, 32));
    assert(first_book_match(k, 28) == first_book_match(k, 32));
    assert(first_book_match(k, 27) == first_book_match(k, 32));
    assert(first_book_match(k, 26) == first_book_match(k, 32));
    assert(first_book_match(k, 25) == first_book_match(k, 32));
    assert(first_book_match(k, 24) == first_book_match(k, 32));
    assert(first_book_match(k, 23) == first_book_match(k, 32));
    assert(first_book_match(k, 22) == first_book_match(k, 32));
    assert(first_book_match(k, 21) == first_book_match(k, 32));
    assert(first_book_match(k, 20) == first_book_match(k, 32));
    assert(first_book_match(k, 19) == first_book_match(k, 32));
    assert(first_book_match(k, 18) == first_book_match(k, 32));
    assert(first_book_match(k, 17) == first_book_match(k, 32));
    assert(first_book_match(k, 16) == first_book_match(k, 32));
}

#[verifier::rlimit(40)]
proof fn misses_english_41_32()
    ensures
        first_book_match(canon_spec(41).name_en@, 32) == first_book_match(canon_spec(41).name_en@, 41),
{
    book_41();
    let k = canon_spec(41).name_en@;
    book_32();
    book_33();
    book_34();
    lemma_not_same(canon_spec(34).name_zh@, k, 0);
    book_35();
    lemma_not_eq_ic(canon_spec(35).osis@, k, 0);
    lemma_not_same(canon_spec(35).name_zh@, k, 0);
    book_36();
    book_37();
    lemma_not_eq_ic(canon_spec(37).osis@, k, 0);
    book_38();
    lemma_not_same(canon_spec(38).name_zh@, k, 0);
    book_39();
    lemma_not_eq_ic(canon_spec(39).osis@, k, 0);
    lemma_not_same(canon_spec(39).name_zh@, k, 0);
    book_40();
    lemma_not_eq_ic(canon_spec(40).osis@, k, 0);
    lemma_not_same(canon_spec(40).name_zh@, k, 0);
    lemma_not_eq_ic(canon_spec(40).name_en@, k, 0);
    assert(first_book_match(k, 40) == first_book_match(k, 41));
    assert(first_book_match(k, 39) == first_book_match(k, 41));
    assert(first_book_match(k, 38) == first_book_match(k, 41));
    assert(first_book_match(k, 37) == first_book_match(k, 41));
    assert(first_book_match(k, 36) == first_book_match(k, 41));
    assert(first_book_match(k, 35) == first_book_match(k, 41));
    assert(first_book_match(k, 34) == first_book_match(k, 41));
    assert(first_book_match(k, 33) == first_book_match(k, 41));
    assert(first_book_match(k, 32) == first_book_match(k, 41));
}

proof fn found_by_english_41()
    ensures
        lookup_canon_spec(canon_spec(41).name_en@) == Some(canon_spec(41)),
{
    book_41();
    let k = canon_spec(41).name_en@;
    lemma_plain_key(k);
    lemma_not_number(k, 0);
    misses_english_41_0();
    misses_english_41_16();
    misses_english_41_32();
    assert(first_book_match(k, 41) == Some(41int));
}

#[verifier::rlimit(40)]
proof fn misses_osis_42_0()
    ensures
        first_book_match(canon_spec(42).osis@, 0) == first_book_match(canon_spec(42).osis@, 16),
{
    book_42();
    let k = canon_spec(42).osis@;
    book_0();
    book_1();
    lemma_not_eq_ic(canon_spec(1).osis@, k, 0);
    lemma_not_same(canon_spec(1).name_zh@, k, 0);
    book_2();
    book_3();
    book_4();
    lemma_not_eq_ic(canon_spec(4).osis@, k, 0);
    book_5();
    lemma_not_eq_ic(canon_spec(5).osis@, k, 2);
    lemma_not_same(canon_spec(5).name_zh@, k, 0);
    book_6();
    lemma_not_eq_ic(canon_spec(6).osis@, k, 1);
    book_7();
    lemma_not_eq_ic(canon_spec(7).osis@, k, 0);
    lemma_not_eq_ic(canon_spec(7).name_en@, k, 0);
    book_8();
    lemma_not_eq_ic(canon_spec(8).osis@, k, 0);
    book_9();
    lemma_not_eq_ic(canon_spec(9).osis@, k, 0);
    book_10();
    lemma_not_eq_ic(canon_spec(10).osis@, k, 0);
    lemma_not_same(canon_spec(10).name_zh@, k, 0);
    book_11();
    lemma_not_eq_ic(canon_spec(11).osis@, k, 0);
    lemma_not_same(canon_spec(11).name_zh@, k, 0);
    book_12();
    lemma_not_eq_ic(canon_spec(12).osis@, k, 0);
    lemma_not_same(canon_spec(12).name_zh@, k, 0);
    book_13();
    lemma_not_eq_ic(canon_spec(13).osis@, k, 0);
    lemma_not_same(canon_spec(13).name_zh@, k, 0);
    book_14();
    lemma_not_eq_ic(canon_spec(14).osis@, k, 0);
    lemma_not_same(canon_spec(14).name_zh@, k, 0);
    lemma_not_eq_ic(canon_spec(14).name_en@, k, 0);
    book_15();
    lemma_not_same(canon_spec(15).name_zh@, k, 0);
    assert(first_book_match(k, 15) == first_book_match(k, 16));
    assert(first_book_match(k, 14) == first_book_match(k, 16));
    assert(first_book_match(k, 13) == first_book_match(k, 16));
    assert(first_book_match(k, 12) == first_book_match(k, 16));
    assert(first_book_match(k, 11) == first_book_match(k, 16));
    assert(first_book_match(k, 10) == first_book_match(k, 16));
    assert(first_book_match(k, 9) == first_book_match(k, 16));
    assert(first_book_match(k, 8) == first_book_match(k, 16));
    assert(first_book_match(k, 7) == first_book_match(k, 16));
    assert(first_book_match(k, 6) == first_book_match(k, 16));
    assert(first_book_match(k, 5) == first_book_match(k, 16));
    assert(first_book_match(k, 4) == first_book_match(k, 16));
    assert(first_book_match(k, 3) == first_book_match(k, 16));
    assert(first_book_match(k, 2) == first_book_match(k, 16));
    assert(first_book_match(k, 1) == first_book_match(k, 16));
    assert(first_book_match(k, 0) == first_book_match(k, 16));
}

#[verifier::rlimit(40)]
proof fn misses_osis_42_16()
    ensures
        first_book_match(canon_spec(42).osis@, 16) == first_book_match(canon_spec(42).osis@, 32),
{
    book_42();
    let k = canon_spec(42).osis@;
    book_16();
    lemma_not_eq_ic(canon_spec(16).osis@, k, 0);
    lemma_not_same(canon_spec(16).name_zh@, k, 0);
    book_17();
    book_18();
    book_19();
    lemma_not_eq_ic(canon_spec(19).osis@, k, 0);
    book_20();
    lemma_not_eq_ic(canon_spec(20).osis@, k, 0);
    book_21();
    lemma_not_eq_ic(canon_spec(21).osis@, k, 0);
    book_22();
    lemma_not_same(canon_spec(22).name_zh@, k, 0);
    book_23();
    lemma_not_same(canon_spec(23).name_zh@, k, 0);
    book_24();
    book_25();
    lemma_not_eq_ic(canon_spec(25).osis@, k, 0);
    lemma_not_same(canon_spec(25).name_zh@, k, 0);
    book_26();
    lemma_not_same(canon_spec(26).name_zh@, k, 0);
    book_27();
    lemma_not_same(canon_spec(27).name_zh@, k, 0);
    book_28();
    lemma_not_eq_ic(canon_spec(28).osis@, k, 2);
    lemma_not_eq_ic(canon_spec(28).name_en@, k, 2);
    book_29();
    lemma_not_eq_ic(canon_spec(29).osis@, k, 0);
    lemma_not_same(canon_spec(29).name_zh@, k, 0);
    lemma_not_eq_ic(canon_spec(29).name_en@, k, 0);
    book_30();
    lemma_not_eq_ic(canon_spec(30).osis@, k, 0);
    book_31();
    assert(first_book_match(k, 31) == first_book_match(k, 32));
    assert(first_book_match(k, 30) == first_book_match(k, 32));
    assert(first_book_match(k, 29) == first_book_match(k, 32));
    assert(first_book_match(k, 28) == first_book_match(k, 32));
    assert(first_book_match(k, 27) == first_book_match(k, 32));
    assert(first_book_match(k, 26) == first_book_match(k, 32));
    assert(first_book_match(k, 25) == first_book_match(k, 32));
    assert(first_book_match(k, 24) == first_book_match(k, 32));
    assert(first_book_match(k, 23) == first_book_match(k, 32));
    assert(first_book_match(k, 22) == first_book_match(k, 32));
    assert(first_book_match(k, 21) == first_book_match(k, 32));
    assert(first_book_match(k, 20) == first_book_match(k, 32));
    assert(first_book_match(k, 19) == first_book_match(k, 32));
    assert(first_book_match(k, 18) == first_book_match(k, 32));
    assert(first_book_match(k, 17) == first_book_match(k, 32));
    assert(first_book_match(k, 16) == first_book_match(k, 32));
}

#[verifier::rlimit(40)]
proof fn misses_osis_42_32()
    ensures
        first_book_match(canon_spec(42).osis@, 32) == first_book_match(canon_spec(42).osis@, 42),
{
    book_42();
    let k = canon_spec(42).osis@;
    book_32();
    book_33();
    book_34();
    lemma_not_same(canon_spec(34).name_zh@, k, 0);
    book_35();
    lemma_not_eq_ic(canon_spec(35).osis@, k, 0);
    lemma_not_same(canon_spec(35).name_zh@, k, 0);
    book_36();
    book_37();
    lemma_not_eq_ic(canon_spec(37).osis@, k, 0);
    book_38();
    lemma_not_same(canon_spec(38).name_zh@, k, 0);
    book_39();
    lemma_not_eq_ic(canon_spec(39).osis@, k, 0);
    lemma_not_same(canon_spec(39).name_zh@, k, 0);
    book_40();
    lemma_not_eq_ic(canon_spec(40).osis@, k, 0);
    lemma_not_same(canon_spec(40).name_zh@, k, 0);
    lemma_not_eq_ic(canon_spec(40).name_en@, k, 0);
    book_41();
    lemma_not_eq_ic(canon_spec(41).osis@, k, 0);
    lemma_not_same(canon_spec(41).name_zh@, k, 0);
    lemma_not_eq_ic(canon_spec(41).name_en@, k, 0);
    assert(first_book_match(k, 41) == first_book_match(k, 42));
    assert(first_book_match(k, 40) == first_book_match(k, 42));
    assert(first_book_match(k, 39) == first_book_match(k, 42));
    assert(first_book_match(k, 38) == first_book_match(k, 42));
    assert(first_book_match(k, 37) == first_book_match(k, 42));
    assert(first_book_match(k, 36) == first_book_match(k, 42));
    assert(first_book_match(k, 35) == first_book_match(k, 42));
    assert(first_book_match(k, 34) == first_book_match(k, 42));
    assert(first_book_match(k, 33) == first_book_match(k, 42));
    assert(first_book_match(k, 32) == first_book_match(k, 42));
}

proof fn found_by_osis_42()
    ensures
        lookup_canon_spec(canon_spec(42).osis@) == Some(canon_spec(42)),
{
    book_42();
    let k = canon_spec(42).osis@;
    lemma_plain_key(k);
    lemma_not_number(k, 0);
    misses_osis_42_0();
    misses_osis_42_16();
    misses_osis_42_32();
    assert(first_book_match(k, 42) == Some(42int));
}

#[verifier::rlimit(40)]
proof fn misses_abbreviation_42_0()
    ensures
        first_book_match(canon_spec(42).name_zh_short@, 0) == first_book_match(canon_spec(42).name_zh_short@, 16),
{
    book_42();
    let k = canon_spec(42).name_zh_short@;
    book_0();
    lemma_not_same(canon_spec(0).name_zh_short@, k, 0);
    book_1();
    lemma_not_same(canon_spec(1).name_zh_short@, k, 0);
    book_2();
    lemma_not_same(canon_spec(2).name_zh_short@, k, 0);
    book_3();
    lemma_not_same(canon_spec(3).name_zh_short@, k, 0);
    book_4();
    lemma_not_same(canon_spec(4).name_zh_short@, k, 0);
    book_5();
    lemma_not_same(canon_spec(5).name_zh_short@, k, 0);
    book_6();
    lemma_not_same(canon_spec(6).name_zh_short@, k, 0);
    book_7();
    lemma_not_same(canon_spec(7).name_zh_short@, k, 0);
    book_8();
    book_9();
    book_10();
    book_11();
    book_12();
    book_13();
    book_14();
    lemma_not_same(canon_spec(14).name_zh_short@, k, 0);
    book_15();
    lemma_not_same(canon_spec(15).name_zh_short@, k, 0);
    assert(first_book_match(k, 15) == first_book_match(k, 16));
    assert(first_book_match(k, 14) == first_book_match(k, 16));
    assert(first_book_match(k, 13) == first_book_match(k, 16));
    assert(first_book_match(k, 12) == first_book_match(k, 16));
    assert(first_book_match(k, 11) == first_book_match(k, 16));
    assert(first_book_match(k, 10) == first_book_match(k, 16));
    assert(first_book_match(k, 9) == first_book_match(k, 16));
    assert(first_book_match(k, 8) == first_book_match(k, 16));
    assert(first_book_match(k, 7) == first_book_match(k, 16));
    assert(first_book_match(k, 6) == first_book_match(k, 16));
    assert(first_book_match(k, 5) == first_book_match(k, 16));
    assert(first_book_match(k, 4) == first_book_match(k, 16));
    assert(first_book_match(k, 3) == first_book_match(k, 16));
    assert(first_book_match(k, 2) == first_book_match(k, 16));
    assert(first_book_match(k, 1) == first_book_match(k, 16));
    assert(first_book_match(k, 0) == first_book_match(k, 16));
}

#[verifier::rlimit(40)]
proof fn misses_abbreviation_42_16()
    ensures
        first_book_match(canon_spec(42).name_zh_short@, 16) == first_book_match(canon_spec(42).name_zh_short@, 32),
{
    book_42();
    let k = canon_spec(42).name_zh_short@;
    book_16();
    lemma_not_same(canon_spec(16).name_zh_short@, k, 0);
    book_17();
    lemma_not_same(canon_spec(17).name_zh_short@, k, 0);
    book_18();
    lemma_not_same(canon_spec(18).name_zh_short@, k, 0);
    book_19();
    lemma_not_same(canon_spec(19).name_zh_short@, k, 0);
    book_20();
    lemma_not_same(canon_spec(20).name_zh_short@, k, 0);
    book_21();
    lemma_not_same(canon_spec(21).name_zh_short@, k, 0);
    book_22();
    lemma_not_same(canon_spec(22).name_zh_short@, k, 0);
    book_23();
    lemma_not_same(canon_spec(23).name_zh_short@, k, 0);
    book_24();
    lemma_not_same(canon_spec(24).name_zh_short@, k, 0);
    book_25();
    lemma_not_same(canon_spec(25).name_zh_short@, k, 0);
    book_26();
    lemma_not_same(canon_spec(26).name_zh_short@, k, 0);
    book_27();
    lemma_not_same(canon_spec(27).name_zh_short@, k, 0);
    book_28();
    lemma_not_same(canon_spec(28).name_zh_short@, k, 0);
    book_29();
    lemma_not_same(canon_spec(29).name_zh_short@, k, 0);
    book_30();
    lemma_not_same(canon_spec(30).name_zh_short@, k, 0);
    book_31();
    lemma_not_same(canon_spec(31).name_zh_short@, k, 0);
    assert(first_book_match(k, 31) == first_book_match(k, 32));
    assert(first_book_match(k, 30) == first_book_match(k, 32));
    assert(first_book_match(k, 29) == first_book_match(k, 32));
    assert(first_book_match(k, 28) == first_book_match(k, 32));
    assert(first_book_match(k, 27) == first_book_match(k, 32));
    assert(first_book_match(k, 26) == first_book_match(k, 32));
    assert(first_book_match(k, 25) == first_book_match(k, 32));
    assert(first_book_match(k, 24) == first_book_match(k, 32));
    assert(first_book_match(k, 23) == first_book_match(k, 32));
    assert(first_book_match(k, 22) == first_book_match(k, 32));
    assert(first_book_match(k, 21) == first_book_match(k, 32));
    assert(first_book_match(k, 20) == first_book_match(k, 32));
    assert(first_book_match(k, 19) == first_book_match(k, 32));
    assert(first_book_match(k, 18) == first_book_match(k, 32));
    assert(first_book_match(k, 17) == first_book_match(k, 32));
    assert(first_book_match(k, 16) == first_book_match(k, 32));
}

#[verifier::rlimit(40)]
proof fn misses_abbreviation_42_32()
    ensures
        first_book_match(canon_spec(42).name_zh_short@, 32) == first_book_match(canon_spec(42).name_zh_short@, 42),
{
    book_42();
    let k = canon_spec(42).name_zh_short@;
    book_32();
    lemma_not_same(canon_spec(32).name_zh_short@, k, 0);
    book_33();
    lemma_not_same(canon_spec(33).name_zh_short@, k, 0);
    book_34();
    lemma_not_same(canon_spec(34).name_zh_short@, k, 0);
    book_35();
    lemma_not_same(canon_spec(35).name_zh_short@, k, 0);
    book_36();
    lemma_not_same(canon_spec(36).name_zh_short@, k, 0);
    book_37();
    lemma_not_same(canon_spec(37).name_zh_short@, k, 0);
    book_38();
    lemma_not_same(canon_spec(38).name_zh_short@, k, 0);
    book_39();
    lemma_not_same(canon_spec(39).name_zh_short@, k, 0);
    book_40();
    lemma_not_same(canon_spec(40).name_zh_short@, k, 0);
    book_41();
    lemma_not_same(canon_spec(41).name_zh_short@, k, 0);
    assert(first_book_match(k, 41) == first_book_match(k, 42));
    assert(first_book_match(k, 40) == first_book_match(k, 42));
    assert(first_book_match(k, 39) == first_book_match(k, 42));
    assert(first_book_match(k, 38) == first_book_match(k, 42));
    assert(first_book_match(k, 37) == first_book_match(k, 42));
    assert(first_book_match(k, 36) == first_book_match(k, 42));
    assert(first_book_match(k, 35) == first_book_match(k, 42));
    assert(first_book_match(k, 34) == first_book_match(k, 42));
    assert(first_book_match(k, 33) == first_book_match(k, 42));
    assert(first_book_match(k, 32) == first_book_match(k, 42));
}

proof fn found_by_abbreviation_42()
    ensures
        lookup_canon_spec(canon_spec(42).name_zh_short@) == Some(canon_spec(42)),
{
    book_42();
    let k = canon_spec(42).name_zh_short@;
    lemma_plain_key(k);
    lemma_not_number(k, 0);
    misses_abbreviation_42_0();
    misses_abbreviation_42_16();
    misses_abbreviation_42_32();
    assert(first_book_match(k, 42) == Some(42int));
}

#[verifier::rlimit(40)]
proof fn misses_english_42_0()
    ensures
        first_book_match(canon_spec(42).name_en@, 0) == first_book_match(canon_spec(42).name_en@, 16),
{
    book_42();
    let k = canon_spec(42).name_en@;
    book_0();
    book_1();
    lemma_not_eq_ic(canon_spec(1).osis@, k, 0);
    lemma_not_same(canon_spec(1).name_zh@, k, 0);
    book_2();
    book_3();
    book_4();
    lemma_not_eq_ic(canon_spec(4).osis@, k, 0);
    book_5();
    lemma_not_eq_ic(canon_spec(5).osis@, k, 2);
    lemma_not_same(canon_spec(5).name_zh@, k, 0);
    book_6();
    lemma_not_eq_ic(canon_spec(6).osis@, k, 1);
    book_7();
    lemma_not_eq_ic(canon_spec(7).osis@, k, 0);
    lemma_not_eq_ic(canon_spec(7).name_en@, k, 0);
    book_8();
    lemma_not_eq_ic(canon_spec(8).osis@, k, 0);
    book_9();
    lemma_not_eq_ic(canon_spec(9).osis@, k, 0);
    book_10();
    lemma_not_eq_ic(canon_spec(10).osis@, k, 0);
    lemma_not_same(canon_spec(10).name_zh@, k, 0);
    book_11();
    lemma_not_eq_ic(canon_spec(11).osis@, k, 0);
    lemma_not_same(canon_spec(11).name_zh@, k, 0);
    book_12();
    lemma_not_eq_ic(canon_spec(12).osis@, k, 0);
    lemma_not_same(canon_spec(12).name_zh@, k, 0);
    book_13();
    lemma_not_eq_ic(canon_spec(13).osis@, k, 0);
    lemma_not_same(canon_spec(13).name_zh@, k, 0);
    book_14();
    lemma_not_eq_ic(canon_spec(14).osis@, k, 0);
    lemma_not_same(canon_spec(14).name_zh@, k, 0);
    lemma_not_eq_ic(canon_spec(14).name_en@, k, 0);
    book_15();
    lemma_not_same(canon_spec(15).name_zh@, k, 0);
    assert(first_book_match(k, 15) == first_book_match(k, 16));
    assert(first_book_match(k, 14) == first_book_match(k, 16));
    assert(first_book_match(k, 13) == first_book_match(k, 16));
    assert(first_book_match(k, 12) == first_book_match(k, 16));
    assert(first_book_match(k, 11) == first_book_match(k, 16));
    assert(first_book_match(k, 10) == first_book_match(k, 16));
    assert(first_book_match(k, 9) == first_book_match(k, 16));
    assert(first_book_match(k, 8) == first_book_match(k, 16));
    assert(first_book_match(k, 7) == first_book_match(k, 16));
    assert(first_book_match(k, 6) == first_book_match(k, 16));
    assert(first_book_match(k, 5) == first_book_match(k, 16));
    assert(first_book_match(k, 4) == first_book_match(k, 16));
    assert(first_book_match(k, 3) == first_book_match(k, 16));
    assert(first_book_match(k, 2) == first_book_match(k, 16));
    assert(first_book_match(k, 1) == first_book_match(k, 16));
    assert(first_book_match(k, 0) == first_book_match(k, 16));
}

#[verifier::rlimit(40)]
proof fn misses_english_42_16()
    ensures
        first_book_match(canon_spec(42).name_en@, 16) == first_book_match(canon_spec(42).name_en@, 32),
{
    book_42();
    let k = canon_spec(42).name_en@;
    book_16();
    lemma_not_eq_ic(canon_spec(16).osis@, k, 0);
    lemma_not_same(canon_spec(16).name_zh@, k, 0);
    book_17();
    book_18();
    book_19();
    lemma_not_eq_ic(canon_spec(19).osis@, k, 0);
    book_20();
    lemma_not_eq_ic(canon_spec(20).osis@, k, 0);
    book_21();
    lemma_not_eq_ic(canon_spec(21).osis@, k, 0);
    book_22();
    lemma_not_same(canon_spec(22).name_zh@, k, 0);
    book_23();
    lemma_not_same(canon_spec(23).name_zh@, k, 0);
    book_24();
    book_25();
    lemma_not_eq_ic(canon_spec(25).osis@, k, 0);
    lemma_not_same(canon_spec(25).name_zh@, k, 0);
    book_26();
    lemma_not_same(canon_spec(26).name_zh@, k, 0);
    book_27();
    lemma_not_same(canon_spec(27).name_zh@, k, 0);
    book_28();
    lemma_not_eq_ic(canon_spec(28).osis@, k, 2);
    lemma_not_eq_ic(canon_spec(28).name_en@, k, 2);
    book_29();
    lemma_not_eq_ic(canon_spec(29).osis@, k, 0);
    lemma_not_same(canon_spec(29).name_zh@, k, 0);
    lemma_not_eq_ic(canon_spec(29).name_en@, k, 0);
    book_30();
    lemma_not_eq_ic(canon_spec(30).osis@, k, 0);
    book_31();
    assert(first_book_match(k, 31) == first_book_match(k, 32));
    assert(first_book_match(k, 30) == first_book_match(k, 32));
    assert(first_book_match(k, 29) == first_book_match(k, 32));
    assert(first_book_match(k, 28) == first_book_match(k, 32));
    assert(first_book_match(k, 27) == first_book_match(k, 32));
    assert(first_book_match(k, 26) == first_book_match(k, 32));
    assert(first_book_match(k, 25) == first_book_match(k, 32));
    assert(first_book_match(k, 24) == first_book_match(k, 32));
    assert(first_book_match(k, 23) == first_book_match(k, 32));
    assert(first_book_match(k, 22) == first_book_match(k, 32));
    assert(first_book_match(k, 21) == first_book_match(k, 32));
    assert(first_book_match(k, 20) == first_book_match(k, 32));
    assert(first_book_match(k, 19) == first_book_match(k, 32));
    assert(first_book_match(k, 18) == first_book_match(k, 32));
    assert(first_book_match(k, 17) == first_book_match(k, 32));
    assert(first_book_match(k, 16) == first_book_match(k, 32));
}

#[verifier::rlimit(40)]
proof fn misses_english_42_32()
    ensures
        first_book_match(canon_spec(42).name_en@, 32) == first_book_match(canon_spec(42).name_en@, 42),
{
    book_42();
    let k = canon_spec(42).name_en@;
    book_32();
    book_33();
    book_34();
    lemma_not_same(canon_spec(34).name_zh@, k, 0);
    book_35();
    lemma_not_eq_ic(canon_spec(35).osis@, k, 0);
    lemma_not_same(canon_spec(35).name_zh@, k, 0);
    book_36();
    book_37();
    lemma_not_eq_ic(canon_spec(37).osis@, k, 0);
    book_38();
    lemma_not_same(canon_spec(38).name_zh@, k, 0);
    book_39();
    lemma_not_eq_ic(canon_spec(39).osis@, k, 0);
    lemma_not_same(canon_spec(39).name_zh@, k, 0);
    book_40();
    lemma_not_eq_ic(canon_spec(40).osis@, k, 0);
    lemma_not_same(canon_spec(40).name_zh@, k, 0);
    lemma_not_eq_ic(canon_spec(40).name_en@, k, 0);
    book_41();
    lemma_not_eq_ic(canon_spec(41).osis@, k, 0);
    lemma_not_same(canon_spec(41).name_zh@, k, 0);
    lemma_not_eq_ic(canon_spec(41).name_en@, k, 0);
    assert(first_book_match(k, 41) == first_book_match(k, 42));
    assert(first_book_match(k, 40) == first_book_match(k, 42));
    assert(first_book_match(k, 39) == first_book_match(k, 42));
    assert(first_book_match(k, 38) == first_book_match(k, 42));
    assert(first_book_match(k, 37) == first_book_match(k, 42));
    assert(first_book_match(k, 36) == first_book_match(k, 42));
    assert(first_book_match(k, 35) == first_book_match(k, 42));
    assert(first_book_match(k, 34) == first_book_match(k, 42));
    assert(first_book_match(k, 33) == first_book_match(k, 42));
    assert(first_book_match(k, 32) == first_book_match(k, 42));
}

proof fn found_by_english_42()
    ensures
        lookup_canon_spec(canon_spec(42).name_en@) == Some(canon_spec(42)),
{
    book_42();
    let k = canon_spec(42).name_en@;
    lemma_plain_key(k);
    lemma_not_number(k, 0);
    misses_english_42_0();
    misses_english_42_16();
    misses_english_42_32();
    assert(first_book_match(k, 42) == Some(42int));
}

#[verifier::rlimit(40)]
proof fn misses_osis_43_0()
    ensures
        first_book_match(canon_spec(43).osis@, 0) == first_book_match(canon_spec(43).osis@, 16),
{
    book_43();
    let k = canon_spec(43).osis@;
    book_0();
    book_1();
    lemma_not_eq_ic(canon_spec(1).osis@, k, 0);
    lemma_not_same(canon_spec(1).name_zh@, k, 0);
    book_2();
    book_3();
    book_4();
    lemma_not_eq_ic(canon_spec(4).osis@, k, 0);
    book_5();
    lemma_not_eq_ic(canon_spec(5).osis@, k, 0);
    lemma_not_same(canon_spec(5).name_zh@, k, 0);
    book_6();
    lemma_not_eq_ic(canon_spec(6).osis@, k, 0);
    book_7();
    lemma_not_eq_ic(canon_spec(7).osis@, k, 0);
    lemma_not_eq_ic(canon_spec(7).name_en@, k, 0);
    book_8();
    lemma_not_eq_ic(canon_spec(8).osis@, k, 0);
    book_9();
    lemma_not_eq_ic(canon_spec(9).osis@, k, 0);
    book_10();
    lemma_not_eq_ic(canon_spec(10).osis@, k, 0);
    lemma_not_same(canon_spec(10).name_zh@, k, 0);
    book_11();
    lemma_not_eq_ic(canon_spec(11).osis@, k, 0);
    lemma_not_same(canon_spec(11).name_zh@, k, 0);
    book_12();
    lemma_not_eq_ic(canon_spec(12).osis@, k, 0);
    lemma_not_same(canon_spec(12).name_zh@, k, 0);
    book_13();
    lemma_not_eq_ic(canon_spec(13).osis@, k, 0);
    lemma_not_same(canon_spec(13).name_zh@, k, 0);
    book_14();
    lemma_not_eq_ic(canon_spec(14).osis@, k, 0);
    lemma_not_same(canon_spec(14).name_zh@, k, 0);
    lemma_not_eq_ic(canon_spec(14).name_en@, k, 0);
    book_15();
    lemma_not_same(canon_spec(15).name_zh@, k, 0);
    assert(first_book_match(k, 15) == first_book_match(k, 16));
    assert(first_book_match(k, 14) == first_book_match(k, 16));
    assert(first_book_match(k, 13) == first_book_match(k, 16));
    assert(first_book_match(k, 12) == first_book_match(k, 16));
    assert(first_book_match(k, 11) == first_book_match(k, 16));
    assert(first_book_match(k, 10) == first_book_match(k, 16));
    assert(first_book_match(k, 9) == first_book_match(k, 16));
    assert(first_book_match(k, 8) == first_book_match(k, 16));
    assert(first_book_match(k, 7) == first_book_match(k, 16));
    assert(first_book_match(k, 6) == first_book_match(k, 16));
    assert(first_book_match(k, 5) == first_book_match(k, 16));
    assert(first_book_match(k, 4) == first_book_match(k, 16));
    assert(first_book_match(k, 3) == first_book_match(k, 16));
    assert(first_book_match(k, 2) == first_book_match(k, 16));
    assert(first_book_match(k, 1) == first_book_match(k, 16));
    assert(first_book_match(k, 0) == first_book_match(k, 16));
}

#[verifier::rlimit(40)]
proof fn misses_osis_43_16()
    ensures
        first_book_match(canon_spec(43).osis@, 16) == first_book_match(canon_spec(43).osis@, 32),
{
    book_43();
    let k = canon_spec(43).osis@;
    book_16();
    lemma_not_eq_ic(canon_spec(16).osis@, k, 0);
    lemma_not_same(canon_spec(16).name_zh@, k, 0);
    book_17();
    book_18();
    book_19();
    lemma_not_eq_ic(canon_spec(19).osis@, k, 0);
    book_20();
    lemma_not_eq_ic(canon_spec(20).osis@, k, 0);
    book_21();
    lemma_not_eq_ic(canon_spec(21).osis@, k, 0);
    book_22();
    lemma_not_same(canon_spec(22).name_zh@, k, 0);
    book_23();
    lemma_not_same(canon_spec(23).name_zh@, k, 0);
    book_24();
    book_25();
    lemma_not_eq_ic(canon_spec(25).osis@, k, 0);
    lemma_not_same(canon_spec(25).name_zh@, k, 0);
    book_26();
    lemma_not_same(canon_spec(26).name_zh@, k, 0);
    book_27();
    lemma_not_same(canon_spec(27).name_zh@, k, 0);
    book_28();
    lemma_not_eq_ic(canon_spec(28).osis@, k, 0);
    lemma_not_eq_ic(canon_spec(28).name_en@, k, 0);
    book_29();
    lemma_not_eq_ic(canon_spec(29).osis@, k, 1);
    lemma_not_same(canon_spec(29).name_zh@, k, 0);
    lemma_not_eq_ic(canon_spec(29).name_en@, k, 1);
    book_30();
    lemma_not_eq_ic(canon_spec(30).osis@, k, 0);
    book_31();
    assert(first_book_match(k, 31) == first_book_match(k, 32));
    assert(first_book_match(k, 30) == first_book_match(k, 32));
    assert(first_book_match(k, 29) == first_book_match(k, 32));
    assert(first_book_match(k, 28) == first_book_match(k, 32));
    assert(first_book_match(k, 27) == first_book_match(k, 32));
    assert(first_book_match(k, 26) == first_book_match(k, 32));
    assert(first_book_match(k, 25) == first_book_match(k, 32));
    assert(first_book_match(k, 24) == first_book_match(k, 32));
    assert(first_book_match(k, 23) == first_book_match(k, 32));
    assert(first_book_match(k, 22) == first_book_match(k, 32));
    assert(first_book_match(k, 21) == first_book_match(k, 32));
    assert(first_book_match(k, 20) == first_book_match(k, 32));
    assert(first_book_match(k, 19) == first_book_match(k, 32));
    assert(first_book_match(k, 18) == first_book_match(k, 32));
    assert(first_book_match(k, 17) == first_book_match(k, 32));
    assert(first_book_match(k, 16) == first_book_match(k, 32));
}

#[verifier::rlimit(40)]
proof fn misses_osis_43_32()
    ensures
        first_book_match(canon_spec(43).osis@, 32) == first_book_match(canon_spec(43).osis@, 43),
{
    book_43();
    let k = canon_spec(43).osis@;
    book_32();
    book_33();
    book_34();
    lemma_not_same(canon_spec(34).name_zh@, k, 0);
    book_35();
    lemma_not_eq_ic(canon_spec(35).osis@, k, 0);
    lemma_not_same(canon_spec(35).name_zh@, k, 0);
    book_36();
    book_37();
    lemma_not_eq_ic(canon_spec(37).osis@, k, 0);
    book_38();
    lemma_not_same(canon_spec(38).name_zh@, k, 0);
    book_39();
    lemma_not_eq_ic(canon_spec(39).osis@, k, 0);
    lemma_not_same(canon_spec(39).name_zh@, k, 0);
    book_40();
    lemma_not_eq_ic(canon_spec(40).osis@, k, 0);
    lemma_not_same(canon_spec(40).name_zh@, k, 0);
    lemma_not_eq_ic(canon_spec(40).name_en@, k, 0);
    book_41();
    lemma_not_eq_ic(canon_spec(41).osis@, k, 0);
    lemma_not_same(canon_spec(41).name_zh@, k, 0);
    lemma_not_eq_ic(canon_spec(41).name_en@, k, 0);
    book_42();
    lemma_not_eq_ic(canon_spec(42).osis@, k, 0);
    lemma_not_same(canon_spec(42).name_zh@, k, 0);
    lemma_not_eq_ic(canon_spec(42).name_en@, k, 0);
    assert(first_book_match(k, 42) == first_book_match(k, 43));
    assert(first_book_match(k, 41) == first_book_match(k, 43));
    assert(first_book_match(k, 40) == first_book_match(k, 43));
    assert(first_book_match(k, 39) == first_book_match(k, 43));
    assert(first_book_match(k, 38) == first_book_match(k, 43));
    assert(first_book_match(k, 37) == first_book_match(k, 43));
    assert(first_book_match(k, 36) == first_book_match(k, 43));
    assert(first_book_match(k, 35) == first_book_match(k, 43));
    assert(first_book_match(k, 34) == first_book_match(k, 43));
    assert(first_book_match(k, 33) == first_book_match(k, 43));
    assert(first_book_match(k, 32) == first_book_match(k, 43));
}

proof fn found_by_osis_43()
    ensures
        lookup_canon_spec(canon_spec(43).osis@) == Some(canon_spec(43)),
{
    book_43();
    let k = canon_spec(43).osis@;
    lemma_plain_key(k);
    lemma_not_number(k, 0);
    misses_osis_43_0();
    misses_osis_43_16();
    misses_osis_43_32();
    assert(first_book_match(k, 43) == Some(43int));
}

#[verifier::rlimit(40)]
proof fn misses_abbreviation_43_0()
    ensures
        first_book_match(canon_spec(43).name_zh_short@, 0) == first_book_match(canon_spec(43).name_zh_short@, 16),
{
    book_43();
    let k = canon_spec(43).name_zh_short@;
    book_0();
    lemma_not_same(canon_spec(0).name_zh_short@, k, 0);
    book_1();
    lemma_not_same(canon_spec(1).name_zh_short@, k, 0);
    book_2();
    lemma_not_same(canon_spec(2).name_zh_short@, k, 0);
    book_3();
    lemma_not_same(canon_spec(3).name_zh_short@, k, 0);
    book_4();
    lemma_not_same(canon_spec(4).name_zh_short@, k, 0);
    book_5();
    lemma_not_same(canon_spec(5).name_zh_short@, k, 0);
    book_6();
    lemma_not_same(canon_spec(6).name_zh_short@, k, 0);
    book_7();
    lemma_not_same(canon_spec(7).name_zh_short@, k, 0);
    book_8();
    book_9();
    book_10();
    book_11();
    book_12();
    book_13();
    book_14();
    lemma_not_same(canon_spec(14).name_zh_short@, k, 0);
    book_15();
    lemma_not_same(canon_spec(15).name_zh_short@, k, 0);
    assert(first_book_match(k, 15) == first_book_match(k, 16));
    assert(first_book_match(k, 14) == first_book_match(k, 16));
    assert(first_book_match(k, 13) == first_book_match(k, 16));
    assert(first_book_match(k, 12) == first_book_match(k, 16));
    assert(first_book_match(k, 11) == first_book_match(k, 16));
    assert(first_book_match(k, 10) == first_book_match(k, 16));
    assert(first_book_match(k, 9) == first_book_match(k, 16));
    assert(first_book_match(k, 8) == first_book_match(k, 16));
    assert(first_book_match(k, 7) == first_book_match(k, 16));
    assert(first_book_match(k, 6) == first_book_match(k, 16));
    assert(first_book_match(k, 5) == first_book_match(k, 16));
    assert(first_book_match(k, 4) == first_book_match(k, 16));
    assert(first_book_match(k, 3) == first_book_match(k, 16));
    assert(first_book_match(k, 2) == first_book_match(k, 16));
    assert(first_book_match(k, 1) == first_book_match(k, 16));
    assert(first_book_match(k, 0) == first_book_match(k, 16));
}

#[verifier::rlimit(40)]
proof fn misses_abbreviation_43_16()
    ensures
        first_book_match(canon_spec(43).name_zh_short@, 16) == first_book_match(canon_spec(43).name_zh_short@, 32),
{
    book_43();
    let k = canon_spec(43).name_zh_short@;
    book_16();
    lemma_not_same(canon_spec(16).name_zh_short@, k, 0);
    book_17();
    lemma_not_same(canon_spec(17).name_zh_short@, k, 0);
    book_18();
    lemma_not_same(canon_spec(18).name_zh_short@, k, 0);
    book_19();
    lemma_not_same(canon_spec(19).name_zh_short@, k, 0);
    book_20();
    lemma_not_same(canon_spec(20).name_zh_short@, k, 0);
    book_21();
    lemma_not_same(canon_spec(21).name_zh_short@, k, 0);
    book_22();
    lemma_not_same(canon_spec(22).name_zh_short@, k, 0);
    book_23();
    lemma_not_same(canon_spec(23).name_zh_short@, k, 0);
    book_24();
    lemma_not_same(canon_spec(24).name_zh_short@, k, 0);
    book_25();
    lemma_not_same(canon_spec(25).name_zh_short@, k, 0);
    book_26();
    lemma_not_same(canon_spec(26).name_zh_short@, k, 0);
    book_27();
    lemma_not_same(canon_spec(27).name_zh_short@, k, 0);
    book_28();
    lemma_not_same(canon_spec(28).name_zh_short@, k, 0);
    book_29();
    lemma_not_same(canon_spec(29).name_zh_short@, k, 0);
    book_30();
    lemma_not_same(canon_spec(30).name_zh_short@, k, 0);
    book_31();
    lemma_not_same(canon_spec(31).name_zh_short@, k, 0);
    assert(first_book_match(k, 31) == first_book_match(k, 32));
    assert(first_book_match(k, 30) == first_book_match(k, 32));
    assert(first_book_match(k, 29) == first_book_match(k, 32));
    assert(first_book_match(k, 28) == first_book_match(k, 32));
    assert(first_book_match(k, 27) == first_book_match(k, 32));
    assert(first_book_match(k, 26) == first_book_match(k, 32));
    assert(first_book_match(k, 25) == first_book_match(k, 32));
    assert(first_book_match(k, 24) == first_book_match(k, 32));
    assert(first_book_match(k, 23) == first_book_match(k, 32));
    assert(first_book_match(k, 22) == first_book_match(k, 32));
    assert(first_book_match(k, 21) == first_book_match(k, 32));
    assert(first_book_match(k, 20) == first_book_match(k, 32));
    assert(first_book_match(k, 19) == first_book_match(k, 32));
    assert(first_book_match(k, 18) == first_book_match(k, 32));
    assert(first_book_match(k, 17) == first_book_match(k, 32));
    assert(first_book_match(k, 16) == first_book_match(k, 32));
}

#[verifier::rlimit(40)]
proof fn misses_abbreviation_43_32()
    ensures
        first_book_match(canon_spec(43).name_zh_short@, 32) == first_book_match(canon_spec(43).name_zh_short@, 43),
{
    book_43();
    let k = canon_spec(43).name_zh_short@;
    book_32();
    lemma_not_same(canon_spec(32).name_zh_short@, k, 0);
    book_33();
    lemma_not_same(canon_spec(33).name_zh_short@, k, 0);
    book_34();
    lemma_not_same(canon_spec(34).name_zh_short@, k, 0);
    book_35();
    lemma_not_same(canon_spec(35).name_zh_short@, k, 0);
    book_36();
    lemma_not_same(canon_spec(36).name_zh_short@, k, 0);
    book_37();
    lemma_not_same(canon_spec(37).name_zh_short@, k, 0);
    book_38();
    lemma_not_same(canon_spec(38).name_zh_short@, k, 0);
    book_39();
    lemma_not_same(canon_spec(39).name_zh_short@, k, 0);
    book_40();
    lemma_not_same(canon_spec(40).name_zh_short@, k, 0);
    book_41();
    lemma_not_same(canon_spec(41).name_zh_short@, k, 0);
    book_42();
    lemma_not_same(canon_spec(42).name_zh_short@, k, 0);
    assert(first_book_match(k, 42) == first_book_match(k, 43));
    assert(first_book_match(k, 41) == first_book_match(k, 43));
    assert(first_book_match(k, 40) == first_book_match(k, 43));
    assert(first_book_match(k, 39) == first_book_match(k, 43));
    assert(first_book_match(k, 38) == first_book_match(k, 43));
    assert(first_book_match(k, 37) == first_book_match(k, 43));
    assert(first_book_match(k, 36) == first_book_match(k, 43));
    assert(first_book_match(k, 35) == first_book_match(k, 43));
    assert(first_book_match(k, 34) == first_book_match(k, 43));
    assert(first_book_match(k, 33) == first_book_match(k, 43));
    assert(first_book_match(k, 32) == first_book_match(k, 43));
}

proof fn found_by_abbreviation_43()
    ensures
        lookup_canon_spec(canon_spec(43).name_zh_short@) == Some(canon_spec(43)),
{
    book_43();
    let k = canon_spec(43).name_zh_short@;
    lemma_plain_key(k);
    lemma_not_number(k, 0);
    misses_abbreviation_43_0();
    misses_abbreviation_43_16();
    misses_abbreviation_43_32();
    assert(first_book_match(k, 43) == Some(43int));
}

#[verifier::rlimit(40)]
proof fn misses_english_43_0()
    ensures
        first_book_match(canon_spec(43).name_en@, 0) == first_book_match(canon_spec(43).name_en@, 16),
{
    book_43();
    let k = canon_spec(43).name_en@;
    book_0();
    book_1();
    lemma_not_eq_ic(canon_spec(1).osis@, k, 0);
    lemma_not_same(canon_spec(1).name_zh@, k, 0);
    book_2();
    book_3();
    book_4();
    lemma_not_eq_ic(canon_spec(4).osis@, k, 0);
    book_5();
    lemma_not_eq_ic(canon_spec(5).osis@, k, 0);
    lemma_not_same(canon_spec(5).name_zh@, k, 0);
    book_6();
    lemma_not_eq_ic(canon_spec(6).osis@, k, 0);
    book_7();
    lemma_not_eq_ic(canon_spec(7).osis@, k, 0);
    lemma_not_eq_ic(canon_spec(7).name_en@, k, 0);
    book_8();
    lemma_not_eq_ic(canon_spec(8).osis@, k, 0);
    book_9();
    lemma_not_eq_ic(canon_spec(9).osis@, k, 0);
    book_10();
    lemma_not_eq_ic(canon_spec(10).osis@, k, 0);
    lemma_not_same(canon_spec(10).name_zh@, k, 0);
    book_11();
    lemma_not_eq_ic(canon_spec(11).osis@, k, 0);
    lemma_not_same(canon_spec(11).name_zh@, k, 0);
    book_12();
    lemma_not_eq_ic(canon_spec(12).osis@, k, 0);
    lemma_not_same(canon_spec(12).name_zh@, k, 0);
    book_13();
    lemma_not_eq_ic(canon_spec(13).osis@, k, 0);
    lemma_not_same(canon_spec(13).name_zh@, k, 0);
    book_14();
    lemma_not_eq_ic(canon_spec(14).osis@, k, 0);
    lemma_not_same(canon_spec(14).name_zh@, k, 0);
    lemma_not_eq_ic(canon_spec(14).name_en@, k, 0);
    book_15();
    lemma_not_same(canon_spec(15).name_zh@, k, 0);
    assert(first_book_match(k, 15) == first_book_match(k, 16));
    assert(first_book_match(k, 14) == first_book_match(k, 16));
    assert(first_book_match(k, 13) == first_book_match(k, 16));
    assert(first_book_match(k, 12) == first_book_match(k, 16));
    assert(first_book_match(k, 11) == first_book_match(k, 16));
    assert(first_book_match(k, 10) == first_book_match(k, 16));
    assert(first_book_match(k, 9) == first_book_match(k, 16));
    assert(first_book_match(k, 8) == first_book_match(k, 16));
    assert(first_book_match(k, 7) == first_book_match(k, 16));
    assert(first_book_match(k, 6) == first_book_match(k, 16));
    assert(first_book_match(k, 5) == first_book_match(k, 16));
    assert(first_book_match(k, 4) == first_book_match(k, 16));
    assert(first_book_match(k, 3) == first_book_match(k, 16));
    assert(first_book_match(k, 2) == first_book_match(k, 16));
    assert(first_book_match(k, 1) == first_book_match(k, 16));
    assert(first_book_match(k, 0) == first_book_match(k, 16));
}

#[verifier::rlimit(40)]
proof fn misses_english_43_16()
    ensures
        first_book_match(canon_spec(43).name_en@, 16) == first_book_match(canon_spec(43).name_en@, 32),
{
    book_43();
    let k = canon_spec(43).name_en@;
    book_16();
    lemma_not_eq_ic(canon_spec(16).osis@, k, 0);
    lemma_not_same(canon_spec(16).name_zh@, k, 0);
    book_17();
    book_18();
    book_19();
    lemma_not_eq_ic(canon_spec(19).osis@, k, 0);
    book_20();
    lemma_not_eq_ic(canon_spec(20).osis@, k, 0);
    book_21();
    lemma_not_eq_ic(canon_spec(21).osis@, k, 0);
    book_22();
    lemma_not_same(canon_spec(22).name_zh@, k, 0);
    book_23();
    lemma_not_same(canon_spec(23).name_zh@, k, 0);
    book_24();
    book_25();
    lemma_not_eq_ic(canon_spec(25).osis@, k, 0);
    lemma_not_same(canon_spec(25).name_zh@, k, 0);
    book_26();
    lemma_not_same(canon_spec(26).name_zh@, k, 0);
    book_27();
    lemma_not_same(canon_spec(27).name_zh@, k, 0);
    book_28();
    lemma_not_eq_ic(canon_spec(28).osis@, k, 0);
    lemma_not_eq_ic(canon_spec(28).name_en@, k, 0);
    book_29();
    lemma_not_eq_ic(canon_spec(29).osis@, k, 1);
    lemma_not_same(canon_spec(29).name_zh@, k, 0);
    lemma_not_eq_ic(canon_spec(29).name_en@, k, 1);
    book_30();
    lemma_not_eq_ic(canon_spec(30).osis@, k, 0);
    book_31();
    assert(first_book_match(k, 31) == first_book_match(k, 32));
    assert(first_book_match(k, 30) == first_book_match(k, 32));
    assert(first_book_match(k, 29) == first_book_match(k, 32));
    assert(first_book_match(k, 28) == first_book_match(k, 32));
    assert(first_book_match(k, 27) == first_book_match(k, 32));
    assert(first_book_match(k, 26) == first_book_match(k, 32));
    assert(first_book_match(k, 25) == first_book_match(k, 32));
    assert(first_book_match(k, 24) == first_book_match(k, 32));
    assert(first_book_match(k, 23) == first_book_match(k, 32));
    assert(first_book_match(k, 22) == first_book_match(k, 32));
    assert(first_book_match(k, 21) == first_book_match(k, 32));
    assert(first_book_match(k, 20) == first_book_match(k, 32));
    assert(first_book_match(k, 19) == first_book_match(k, 32));
    assert(first_book_match(k, 18) == first_book_match(k, 32));
    assert(first_book_match(k, 17) == first_book_match(k, 32));
    assert(first_book_match(k, 16) == first_book_match(k, 32));
}

#[verifier::rlimit(40)]
proof fn misses_english_43_32()
    ensures
        first_book_match(canon_spec(43).name_en@, 32) == first_book_match(canon_spec(43).name_en@, 43),
{
    book_43();
    let k = canon_spec(43).name_en@;
    book_32();
    book_33();
    book_34();
    lemma_not_same(canon_spec(34).name_zh@, k, 0);
    book_35();
    lemma_not_eq_ic(canon_spec(35).osis@, k, 0);
    lemma_not_same(canon_spec(35).name_zh@, k, 0);
    book_36();
    book_37();
    lemma_not_eq_ic(canon_spec(37).osis@, k, 0);
    book_38();
    lemma_not_same(canon_spec(38).name_zh@, k, 0);
    book_39();
    lemma_not_eq_ic(canon_spec(39).osis@, k, 0);
    lemma_not_same(canon_spec(39).name_zh@, k, 0);
    book_40();
    lemma_not_eq_ic(canon_spec(40).osis@, k, 0);
    lemma_not_same(canon_spec(40).name_zh@, k, 0);
    lemma_not_eq_ic(canon_spec(40).name_en@, k, 0);
    book_41();
    lemma_not_eq_ic(canon_spec(41).osis@, k, 0);
    lemma_not_same(canon_spec(41).name_zh@, k, 0);
    lemma_not_eq_ic(canon_spec(41).name_en@, k, 0);
    book_42();
    lemma_not_eq_ic(canon_spec(42).osis@, k, 0);
    lemma_not_same(canon_spec(42).name_zh@, k, 0);
    lemma_not_eq_ic(canon_spec(42).name_en@, k, 0);
    assert(first_book_match(k, 42) == first_book_match(k, 43));
    assert(first_book_match(k, 41) == first_book_match(k, 43));
    assert(first_book_match(k, 40) == first_book_match(k, 43));
    assert(first_book_match(k, 39) == first_book_match(k, 43));
    assert(first_book_match(k, 38) == first_book_match(k, 43));
    assert(first_book_match(k, 37) == first_book_match(k, 43));
    assert(first_book_match(k, 36) == first_book_match(k, 43));
    assert(first_book_match(k, 35) == first_book_match(k, 43));
    assert(first_book_match(k, 34) == first_book_match(k, 43));
    assert(first_book_match(k, 33) == first_book_match(k, 43));
    assert(first_book_match(k, 32) == first_book_match(k, 43));
}

proof fn found_by_english_43()
    ensures
        lookup_canon_spec(canon_spec(43).name_en@) == Some(canon_spec(43)),
{
    book_43();
    let k = canon_spec(43).name_en@;
    lemma_plain_key(k);
    lemma_not_number(k, 0);
    misses_english_43_0();
    misses_english_43_16();
    misses_english_43_32();
    assert(first_book_match(k, 43) == Some(43int));
}

#[verifier::rlimit(40)]
proof fn misses_osis_44_0()
    ensures
        first_book_match(canon_spec(44).osis@, 0) == first_book_match(canon_spec(44).osis@, 16),
{
    book_44();
    let k = canon_spec(44).osis@;
    book_0();
    lemma_not_eq_ic(canon_spec(0).osis@, k, 0);
    lemma_not_same(canon_spec(0).name_zh@, k, 0);
    book_1();
    book_2();
    lemma_not_eq_ic(canon_spec(2).osis@, k, 0);
    lemma_not_same(canon_spec(2).name_zh@, k, 0);
    book_3();
    lemma_not_eq_ic(canon_spec(3).osis@, k, 0);
    lemma_not_same(canon_spec(3).name_zh@, k, 0);
    book_4();
    lemma_not_same(canon_spec(4).name_zh@, k, 0);
    book_5();
    book_6();
    lemma_not_same(canon_spec(6).name_zh@, k, 0);
    book_7();
    lemma_not_same(canon_spec(7).name_zh@, k, 0);
    book_8();
    book_9();
    book_10();
    book_11();
    book_12();
    book_13();
    book_14();
    book_15();
    lemma_not_eq_ic(canon_spec(15).osis@, k, 0);
    assert(first_book_match(k, 15) == first_book_match(k, 16));
    assert(first_book_match(k, 14) == first_book_match(k, 16));
    assert(first_book_match(k, 13) == first_book_match(k, 16));
    assert(first_book_match(k, 12) == first_book_match(k, 16));
    assert(first_book_match(k, 11) == first_book_match(k, 16));
    assert(first_book_match(k, 10) == first_book_match(k, 16));
    assert(first_book_match(k, 9) == first_book_match(k, 16));
    assert(first_book_match(k, 8) == first_book_match(k, 16));
    assert(first_book_match(k, 7) == first_book_match(k, 16));
    assert(first_book_match(k, 6) == first_book_match(k, 16));
    assert(first_book_match(k, 5) == first_book_match(k, 16));
    assert(first_book_match(k, 4) == first_book_match(k, 16));
    assert(first_book_match(k, 3) == first_book_match(k, 16));
    assert(first_book_match(k, 2) == first_book_match(k, 16));
    assert(first_book_match(k, 1) == first_book_match(k, 16));
    assert(first_book_match(k, 0) == first_book_match(k, 16));
}

#[verifier::rlimit(40)]
proof fn misses_osis_44_16()
    ensures
        first_book_match(canon_spec(44).osis@, 16) == first_book_match(canon_spec(44).osis@, 32),
{
    book_44();
    let k = canon_spec(44).osis@;
    book_16();
    book_17();
    lemma_not_eq_ic(canon_spec(17).osis@, k, 0);
    lemma_not_same(canon_spec(17).name_zh@, k, 0);
    lemma_not_eq_ic(canon_spec(17).name_en@, k, 0);
    book_18();
    book_19();
    book_20();
    lemma_not_same(canon_spec(20).name_zh@, k, 0);
    book_21();
    book_22();
    lemma_not_eq_ic(canon_spec(22).osis@, k, 0);
    book_23();
    lemma_not_eq_ic(canon_spec(23).osis@, k, 0);
    book_24();
    lemma_not_eq_ic(canon_spec(24).osis@, k, 0);
    book_25();
    book_26();
    lemma_not_eq_ic(canon_spec(26).osis@, k, 0);
    book_27();
    lemma_not_eq_ic(canon_spec(27).osis@, k, 0);
    book_28();
    lemma_not_same(canon_spec(28).name_zh@, k, 0);
    book_29();
    book_30();
    book_31();
    lemma_not_same(canon_spec(31).name_zh@, k, 0);
    assert(first_book_match(k, 31) == first_book_match(k, 32));
    assert(first_book_match(k, 30) == first_book_match(k, 32));
    assert(first_book_match(k, 29) == first_book_match(k, 32));
    assert(first_book_match(k, 28) == first_book_match(k, 32));
    assert(first_book_match(k, 27) == first_book_match(k, 32));
    assert(first_book_match(k, 26) == first_book_match(k, 32));
    assert(first_book_match(k, 25) == first_book_match(k, 32));
    assert(first_book_match(k, 24) == first_book_match(k, 32));
    assert(first_book_match(k, 23) == first_book_match(k, 32));
    assert(first_book_match(k, 22) == first_book_match(k, 32));
    assert(first_book_match(k, 21) == first_book_match(k, 32));
    assert(first_book_match(k, 20) == first_book_match(k, 32));
    assert(first_book_match(k, 19) == first_book_match(k, 32));
    assert(first_book_match(k, 18) == first_book_match(k, 32));
    assert(first_book_match(k, 17) == first_book_match(k, 32));
    assert(first_book_match(k, 16) == first_book_match(k, 32));
}

#[verifier::rlimit(40)]
proof fn misses_osis_44_32()
    ensures
        first_book_match(canon_spec(44).osis@, 32) == first_book_match(canon_spec(44).osis@, 44),
{
    book_44();
    let k = canon_spec(44).osis@;
    book_32();
    lemma_not_eq_ic(canon_spec(32).osis@, k, 0);
    lemma_not_same(canon_spec(32).name_zh@, k, 0);
    book_33();
    lemma_not_eq_ic(canon_spec(33).osis@, k, 0);
    lemma_not_same(canon_spec(33).name_zh@, k, 0);
    book_34();
    lemma_not_eq_ic(canon_spec(34).osis@, k, 0);
    book_35();
    book_36();
    lemma_not_eq_ic(canon_spec(36).osis@, k, 0);
    lemma_not_same(canon_spec(36).name_zh@, k, 0);
    book_37();
    book_38();
    lemma_not_eq_ic(canon_spec(38).osis@, k, 0);
    book_39();
    book_40();
    book_41();
    book_42();
    book_43();
    assert(first_book_match(k, 43) == first_book_match(k, 44));
    assert(first_book_match(k, 42) == first_book_match(k, 44));
    assert(first_book_match(k, 41) == first_book_match(k, 44));
    assert(first_book_match(k, 40) == first_book_match(k, 44));
    assert(first_book_match(k, 39) == first_book_match(k, 44));
    assert(first_book_match(k, 38) == first_book_match(k, 44));
    assert(first_book_match(k, 37) == first_book_match(k, 44));
    assert(first_book_match(k, 36) == first_book_match(k, 44));
    assert(first_book_match(k, 35) == first_book_match(k, 44));
    assert(first_book_match(k, 34) == first_book_match(k, 44));
    assert(first_book_match(k, 33) == first_book_match(k, 44));
    assert(first_book_match(k, 32) == first_book_match(k, 44));
}

proof fn found_by_osis_44()
    ensures
        lookup_canon_spec(canon_spec(44).osis@) == Some(canon_spec(44)),
{
    book_44();
    let k = canon_spec(44).osis@;
    lemma_plain_key(k);
    lemma_not_number(k, 0);
    misses_osis_44_0();
    misses_osis_44_16();
    misses_osis_44_32();
    assert(first_book_match(k, 44) == Some(44int));
}

#[verifier::rlimit(40)]
proof fn misses_abbreviation_44_0()
    ensures
        first_book_match(canon_spec(44).name_zh_short@, 0) == first_book_match(canon_spec(44).name_zh_short@, 16),
{
    book_44();
    let k = canon_spec(44).name_zh_short@;
    book_0();
    lemma_not_same(canon_spec(0).name_zh_short@, k, 0);
    book_1();
    lemma_not_same(canon_spec(1).name_zh_short@, k, 0);
    book_2();
    lemma_not_same(canon_spec(2).name_zh_short@, k, 0);
    book_3();
    lemma_not_same(canon_spec(3).name_zh_short@, k, 0);
    book_4();
    lemma_not_same(canon_spec(4).name_zh_short@, k, 0);
    book_5();
    lemma_not_same(canon_spec(5).name_zh_short@, k, 0);
    book_6();
    lemma_not_same(canon_spec(6).name_zh_short@, k, 0);
    book_7();
    lemma_not_same(canon_spec(7).name_zh_short@, k, 0);
    book_8();
    book_9();
    book_10();
    book_11();
    book_12();
    book_13();
    book_14();
    lemma_not_same(canon_spec(14).name_zh_short@, k, 0);
    book_15();
    lemma_not_same(canon_spec(15).name_zh_short@, k, 0);
    assert(first_book_match(k, 15) == first_book_match(k, 16));
    assert(first_book_match(k, 14) == first_book_match(k, 16));
    assert(first_book_match(k, 13) == first_book_match(k, 16));
    assert(first_book_match(k, 12) == first_book_match(k, 16));
    assert(first_book_match(k, 11) == first_book_match(k, 16));
    assert(first_book_match(k, 10) == first_book_match(k, 16));
    assert(first_book_match(k, 9) == first_book_match(k, 16));
    assert(first_book_match(k, 8) == first_book_match(k, 16));
    assert(first_book_match(k, 7) == first_book_match(k, 16));
    assert(first_book_match(k, 6) == first_book_match(k, 16));
    assert(first_book_match(k, 5) == first_book_match(k, 16));
    assert(first_book_match(k, 4) == first_book_match(k, 16));
    assert(first_book_match(k, 3) == first_book_match(k, 16));
    assert(first_book_match(k, 2) == first_book_match(k, 16));
    assert(first_book_match(k, 1) == first_book_match(k, 16));
    assert(first_book_match(k, 0) == first_book_match(k, 16));
}

#[verifier::rlimit(40)]
proof fn misses_abbreviation_44_16()
    ensures
        first_book_match(canon_spec(44).name_zh_short@, 16) == first_book_match(canon_spec(44).name_zh_short@, 32),
{
    book_44();
    let k = canon_spec(44).name_zh_short@;
    book_16();
    lemma_not_same(canon_spec(16).name_zh_short@, k, 0);
    book_17();
    lemma_not_same(canon_spec(17).name_zh_short@, k, 0);
    book_18();
    lemma_not_same(canon_spec(18).name_zh_short@, k, 0);
    book_19();
    lemma_not_same(canon_spec(19).name_zh_short@, k, 0);
    book_20();
    lemma_not_same(canon_spec(20).name_zh_short@, k, 0);
    book_21();
    lemma_not_same(canon_spec(21).name_zh_short@, k, 0);
    book_22();
    lemma_not_same(canon_spec(22).name_zh_short@, k, 0);
    book_23();
    lemma_not_same(canon_spec(23).name_zh_short@, k, 0);
    book_24();
    lemma_not_same(canon_spec(24).name_zh_short@, k, 0);
    book_25();
    lemma_not_same(canon_spec(25).name_zh_short@, k, 0);
    book_26();
    lemma_not_same(canon_spec(26).name_zh_short@, k, 0);
    book_27();
    lemma_not_same(canon_spec(27).name_zh_short@, k, 0);
    book_28();
    lemma_not_same(canon_spec(28).name_zh_short@, k, 0);
    book_29();
    lemma_not_same(canon_spec(29).name_zh_short@, k, 0);
    book_30();
    lemma_not_same(canon_spec(30).name_zh_short@, k, 0);
    book_31();
    lemma_not_same(canon_spec(31).name_zh_short@, k, 0);
    assert(first_book_match(k, 31) == first_book_match(k, 32));
    assert(first_book_match(k, 30) == first_book_match(k, 32));
    assert(first_book_match(k, 29) == first_book_match(k, 32));
    assert(first_book_match(k, 28) == first_book_match(k, 32));
    assert(first_book_match(k, 27) == first_book_match(k, 32));
    assert(first_book_match(k, 26) == first_book_match(k, 32));
    assert(first_book_match(k, 25) == first_book_match(k, 32));
    assert(first_book_match(k, 24) == first_book_match(k, 32));
    assert(first_book_match(k, 23) == first_book_match(k, 32));
    assert(first_book_match(k, 22) == first_book_match(k, 32));
    assert(first_book_match(k, 21) == first_book_match(k, 32));
    assert(first_book_match(k, 20) == first_book_match(k, 32));
    assert(first_book_match(k, 19) == first_book_match(k, 32));
    assert(first_book_match(k, 18) == first_book_match(k, 32));
    assert(first_book_match(k, 17) == first_book_match(k, 32));
    assert(first_book_match(k, 16) == first_book_match(k, 32));
}

#[verifier::rlimit(40)]
proof fn misses_abbreviation_44_32()
    ensures
        first_book_match(canon_spec(44).name_zh_short@, 32) == first_book_match(canon_spec(44).name_zh_short@, 44),
{
    book_44();
    let k = canon_spec(44).name_zh_short@;
    book_32();
    lemma_not_same(canon_spec(32).name_zh_short@, k, 0);
    book_33();
    lemma_not_same(canon_spec(33).name_zh_short@, k, 0);
    book_34();
    lemma_not_same(canon_spec(34).name_zh_short@, k, 0);
    book_35();
    lemma_not_same(canon_spec(35).name_zh_short@, k, 0);
    book_36();
    lemma_not_same(canon_spec(36).name_zh_short@, k, 0);
    book_37();
    lemma_not_same(canon_spec(37).name_zh_short@, k, 0);
    book_38();
    lemma_not_same(canon_spec(38).name_zh_short@, k, 0);
    book_39();
    lemma_not_same(canon_spec(39).name_zh_short@, k, 0);
    book_40();
    lemma_not_same(canon_spec(40).name_zh_short@, k, 0);
    book_41();
    lemma_not_same(canon_spec(41).name_zh_short@, k, 0);
    book_42();
    lemma_not_same(canon_spec(42).name_zh_short@, k, 0);
    book_43();
    lemma_not_same(canon_spec(43).name_zh_short@, k, 0);
    assert(first_book_match(k, 43) == first_book_match(k, 44));
    assert(first_book_match(k, 42) == first_book_match(k, 44));
    assert(first_book_match(k, 41) == first_book_match(k, 44));
    assert(first_book_match(k, 40) == first_book_match(k, 44));
    assert(first_book_match(k, 39) == first_book_match(k, 44));
    assert(first_book_match(k, 38) == first_book_match(k, 44));
    assert(first_book_match(k, 37) == first_book_match(k, 44));
    assert(first_book_match(k, 36) == first_book_match(k, 44));
    assert(first_book_match(k, 35) == first_book_match(k, 44));
    assert(first_book_match(k, 34) == first_book_match(k, 44));
    assert(first_book_match(k, 33) == first_book_match(k, 44));
    assert(first_book_match(k, 32) == first_book_match(k, 44));
}

proof fn found_by_abbreviation_44()
    ensures
        lookup_canon_spec(canon_spec(44).name_zh_short@) == Some(canon_spec(44)),
{
    book_44();
    let k = canon_spec(44).name_zh_short@;
    lemma_plain_key(k);
    lemma_not_number(k, 0);
    misses_abbreviation_44_0();
    misses_abbreviation_44_16();
    misses_abbreviation_44_32();
    assert(first_book_match(k, 44) == Some(44int));
}

#[verifier::rlimit(40)]
proof fn misses_english_44_0()
    ensures
        first_book_match(canon_spec(44).name_en@, 0) == first_book_match(canon_spec(44).name_en@, 16),
{
    book_44();
    let k = canon_spec(44).name_en@;
    book_0();
    book_1();
    lemma_not_eq_ic(canon_spec(1).name_en@, k, 0);
    book_2();
    book_3();
    book_4();
    book_5();
    lemma_not_eq_ic(canon_spec(5).name_en@, k, 0);
    book_6();
    lemma_not_eq_ic(canon_spec(6).name_en@, k, 0);
    book_7();
    book_8();
    book_9();
    book_10();
    book_11();
    book_12();
    book_13();
    book_14();
    book_15();
    assert(first_book_match(k, 15) == first_book_match(k, 16));
    assert(first_book_match(k, 14) == first_book_match(k, 16));
    assert(first_book_match(k, 13) == first_book_match(k, 16));
    assert(first_book_match(k, 12) == first_book_match(k, 16));
    assert(first_book_match(k, 11) == first_book_match(k, 16));
    assert(first_book_match(k, 10) == first_book_match(k, 16));
    assert(first_book_match(k, 9) == first_book_match(k, 16));
    assert(first_book_match(k, 8) == first_book_match(k, 16));
    assert(first_book_match(k, 7) == first_book_match(k, 16));
    assert(first_book_match(k, 6) == first_book_match(k, 16));
    assert(first_book_match(k, 5) == first_book_match(k, 16));
    assert(first_book_match(k, 4) == first_book_match(k, 16));
    assert(first_book_match(k, 3) == first_book_match(k, 16));
    assert(first_book_match(k, 2) == first_book_match(k, 16));
    assert(first_book_match(k, 1) == first_book_match(k, 16));
    assert(first_book_match(k, 0) == first_book_match(k, 16));
}

#[verifier::rlimit(40)]
proof fn misses_english_44_16()
    ensures
        first_book_match(canon_spec(44).name_en@, 16) == first_book_match(canon_spec(44).name_en@, 32),
{
    book_44();
    let k = canon_spec(44).name_en@;
    book_16();
    lemma_not_eq_ic(canon_spec(16).name_en@, k, 0);
    book_17();
    book_18();
    lemma_not_eq_ic(canon_spec(18).name_en@, k, 0);
    book_19();
    book_20();
    book_21();
    book_22();
    lemma_not_eq_ic(canon_spec(22).name_en@, k, 0);
    book_23();
    book_24();
    book_25();
    book_26();
    lemma_not_eq_ic(canon_spec(26).name_en@, k, 0);
    book_27();
    book_28();
    book_29();
    book_30();
    book_31();
    assert(first_book_match(k, 31) == first_book_match(k, 32));
    assert(first_book_match(k, 30) == first_book_match(k, 32));
    assert(first_book_match(k, 29) == first_book_match(k, 32));
    assert(first_book_match(k, 28) == first_book_match(k, 32));
    assert(first_book_match(k, 27) == first_book_match(k, 32));
    assert(first_book_match(k, 26) == first_book_match(k, 32));
    assert(first_book_match(k, 25) == first_book_match(k, 32));
    assert(first_book_match(k, 24) == first_book_match(k, 32));
    assert(first_book_match(k, 23) == first_book_match(k, 32));
    assert(first_book_match(k, 22) == first_book_match(k, 32));
    assert(first_book_match(k, 21) == first_book_match(k, 32));
    assert(first_book_match(k, 20) == first_book_match(k, 32));
    assert(first_book_match(k, 19) == first_book_match(k, 32));
    assert(first_book_match(k, 18) == first_book_match(k, 32));
    assert(first_book_match(k, 17) == first_book_match(k, 32));
    assert(first_book_match(k, 16) == first_book_match(k, 32));
}

#[verifier::rlimit(40)]
proof fn misses_english_44_32()
    ensures
        first_book_match(canon_spec(44).name_en@, 32) == first_book_match(canon_spec(44).name_en@, 44),
{
    book_44();
    let k = canon_spec(44).name_en@;
    book_32();
    book_33();
    book_34();
    book_35();
    book_36();
    lemma_not_eq_ic(canon_spec(36).name_en@, k, 0);
    book_37();
    book_38();
    book_39();
    book_40();
    book_41();
    book_42();
    book_43();
    assert(first_book_match(k, 43) == first_book_match(k, 44));
    assert(first_book_match(k, 42) == first_book_match(k, 44));
    assert(first_book_match(k, 41) == first_book_match(k, 44));
    assert(first_book_match(k, 40) == first_book_match(k, 44));
    assert(first_book_match(k, 39) == first_book_match(k, 44));
    assert(first_book_match(k, 38) == first_book_match(k, 44));
    assert(first_book_match(k, 37) == first_book_match(k, 44));
    assert(first_book_match(k, 36) == first_book_match(k, 44));
    assert(first_book_match(k, 35) == first_book_match(k, 44));
    assert(first_book_match(k, 34) == first_book_match(k, 44));
    assert(first_book_match(k, 33) == first_book_match(k, 44));
    assert(first_book_match(k, 32) == first_book_match(k, 44));
}

proof fn found_by_english_44()
    ensures
        lookup_canon_spec(canon_spec(44).name_en@) == Some(canon_spec(44)),
{
    book_44();
    let k = canon_spec(44).name_en@;
    lemma_plain_key(k);
    lemma_not_number(k, 0);
    misses_english_44_0();
    misses_english_44_16();
    misses_english_44_32();
    assert(first_book_match(k, 44) == Some(44int));
}

#[verifier::rlimit(40)]
proof fn misses_osis_45_0()
    ensures
        first_book_match(canon_spec(45).osis@, 0) == first_book_match(canon_spec(45).osis@, 16),
{
    book_45();
    let k = canon_spec(45).osis@;
    book_0();
    book_1();
    lemma_not_eq_ic(canon_spec(1).osis@, k, 0);
    lemma_not_same(canon_spec(1).name_zh@, k, 0);
    book_2();
    book_3();
    book_4();
    lemma_not_eq_ic(canon_spec(4).osis@, k, 0);
    book_5();
    lemma_not_eq_ic(canon_spec(5).osis@, k, 0);
    lemma_not_same(canon_spec(5).name_zh@, k, 0);
    book_6();
    lemma_not_eq_ic(canon_spec(6).osis@, k, 0);
    book_7();
    lemma_not_eq_ic(canon_spec(7).osis@, k, 0);
    lemma_not_eq_ic(canon_spec(7).name_en@, k, 0);
    book_8();
    lemma_not_eq_ic(canon_spec(8).osis@, k, 1);
    book_9();
    lemma_not_eq_ic(canon_spec(9).osis@, k, 0);
    book_10();
    lemma_not_eq_ic(canon_spec(10).osis@, k, 1);
    lemma_not_same(canon_spec(10).name_zh@, k, 0);
    book_11();
    lemma_not_eq_ic(canon_spec(11).osis@, k, 0);
    lemma_not_same(canon_spec(11).name_zh@, k, 0);
    book_12();
    lemma_not_eq_ic(canon_spec(12).osis@, k, 2);
    lemma_not_same(canon_spec(12).name_zh@, k, 0);
    book_13();
    lemma_not_eq_ic(canon_spec(13).osis@, k, 0);
    lemma_not_same(canon_spec(13).name_zh@, k, 0);
    book_14();
    lemma_not_eq_ic(canon_spec(14).osis@, k, 0);
    lemma_not_same(canon_spec(14).name_zh@, k, 0);
    lemma_not_eq_ic(canon_spec(14).name_en@, k, 0);
    book_15();
    lemma_not_same(canon_spec(15).name_zh@, k, 0);
    assert(first_book_match(k, 15) == first_book_match(k, 16));
    assert(first_book_match(k, 14) == first_book_match(k, 16));
    assert(first_book_match(k, 13) == first_book_match(k, 16));
    assert(first_book_match(k, 12) == first_book_match(k, 16));
    assert(first_book_match(k, 11) == first_book_match(k, 16));
    assert(first_book_match(k, 10) == first_book_match(k, 16));
    assert(first_book_match(k, 9) == first_book_match(k, 16));
    assert(first_book_match(k, 8) == first_book_match(k, 16));
    assert(first_book_match(k, 7) == first_book_match(k, 16));
    assert(first_book_match(k, 6) == first_book_match(k, 16));
    assert(first_book_match(k, 5) == first_book_match(k, 16));
    assert(first_book_match(k, 4) == first_book_match(k, 16));
    assert(first_book_match(k, 3) == first_book_match(k, 16));
    assert(first_book_match(k, 2) == first_book_match(k, 16));
    assert(first_book_match(k, 1) == first_book_match(k, 16));
    assert(first_book_match(k, 0) == first_book_match(k, 16));
}

#[verifier::rlimit(40)]
proof fn misses_osis_45_16()
    ensures
        first_book_match(canon_spec(45).osis@, 16) == first_book_match(canon_spec(45).osis@, 32),
{
    book_45();
    let k = canon_spec(45).osis@;
    book_16();
    lemma_not_eq_ic(canon_spec(16).osis@, k, 0);
    lemma_not_same(canon_spec(16).name_zh@, k, 0);
    book_17();
    book_18();
    book_19();
    lemma_not_eq_ic(canon_spec(19).osis@, k, 0);
    book_20();
    lemma_not_eq_ic(canon_spec(20).osis@, k, 0);
    book_21();
    lemma_not_eq_ic(canon_spec(21).osis@, k, 0);
    book_22();
    lemma_not_same(canon_spec(22).name_zh@, k, 0);
    book_23();
    lemma_not_same(canon_spec(23).name_zh@, k, 0);
    book_24();
    book_25();
    lemma_not_eq_ic(canon_spec(25).osis@, k, 0);
    lemma_not_same(canon_spec(25).name_zh@, k, 0);
    book_26();
    lemma_not_same(canon_spec(26).name_zh@, k, 0);
    book_27();
    lemma_not_same(canon_spec(27).name_zh@, k, 0);
    book_28();
    lemma_not_eq_ic(canon_spec(28).osis@, k, 0);
    lemma_not_eq_ic(canon_spec(28).name_en@, k, 0);
    book_29();
    lemma_not_eq_ic(canon_spec(29).osis@, k, 0);
    lemma_not_same(canon_spec(29).name_zh@, k, 0);
    lemma_not_eq_ic(canon_spec(29).name_en@, k, 0);
    book_30();
    lemma_not_eq_ic(canon_spec(30).osis@, k, 0);
    book_31();
    assert(first_book_match(k, 31) == first_book_match(k, 32));
    assert(first_book_match(k, 30) == first_book_match(k, 32));
    assert(first_book_match(k, 29) == first_book_match(k, 32));
    assert(first_book_match(k, 28) == first_book_match(k, 32));
    assert(first_book_match(k, 27) == first_book_match(k, 32));
    assert(first_book_match(k, 26) == first_book_match(k, 32));
    assert(first_book_match(k, 25) == first_book_match(k, 32));
    assert(first_book_match(k, 24) == first_book_match(k, 32));
    assert(first_book_match(k, 23) == first_book_match(k, 32));
    assert(first_book_match(k, 22) == first_book_match(k, 32));
    assert(first_book_match(k, 21) == first_book_match(k, 32));
    assert(first_book_match(k, 20) == first_book_match(k, 32));
    assert(first_book_match(k, 19) == first_book_match(k, 32));
    assert(first_book_match(k, 18) == first_book_match(k, 32));
    assert(first_book_match(k, 17) == first_book_match(k, 32));
    assert(first_book_match(k, 16) == first_book_match(k, 32));
}

#[verifier::rlimit(40)]
proof fn misses_osis_45_32()
    ensures
        first_book_match(canon_spec(45).osis@, 32) == first_book_match(canon_spec(45).osis@, 45),
{
    book_45();
    let k = canon_spec(45).osis@;
    book_32();
    book_33();
    book_34();
    lemma_not_same(canon_spec(34).name_zh@, k, 0);
    book_35();
    lemma_not_eq_ic(canon_spec(35).osis@, k, 0);
    lemma_not_same(canon_spec(35).name_zh@, k, 0);
    book_36();
    book_37();
    lemma_not_eq_ic(canon_spec(37).osis@, k, 0);
    book_38();
    lemma_not_same(canon_spec(38).name_zh@, k, 0);
    book_39();
    lemma_not_eq_ic(canon_spec(39).osis@, k, 0);
    lemma_not_same(canon_spec(39).name_zh@, k, 0);
    book_40();
    lemma_not_eq_ic(canon_spec(40).osis@, k, 0);
    lemma_not_same(canon_spec(40).name_zh@, k, 0);
    lemma_not_eq_ic(canon_spec(40).name_en@, k, 0);
    book_41();
    lemma_not_eq_ic(canon_spec(41).osis@, k, 0);
    lemma_not_same(canon_spec(41).name_zh@, k, 0);
    lemma_not_eq_ic(canon_spec(41).name_en@, k, 0);
    book_42();
    lemma_not_eq_ic(canon_spec(42).osis@, k, 0);
    lemma_not_same(canon_spec(42).name_zh@, k, 0);
    lemma_not_eq_ic(canon_spec(42).name_en@, k, 0);
    book_43();
    lemma_not_eq_ic(canon_spec(43).osis@, k, 0);
    lemma_not_same(canon_spec(43).name_zh@, k, 0);
    lemma_not_eq_ic(canon_spec(43).name_en@, k, 0);
    book_44();
    assert(first_book_match(k, 44) == first_book_match(k, 45));
    assert(first_book_match(k, 43) == first_book_match(k, 45));
    assert(first_book_match(k, 42) == first_book_match(k, 45));
    assert(first_book_match(k, 41) == first_book_match(k, 45));
    assert(first_book_match(k, 40) == first_book_match(k, 45));
    assert(first_book_match(k, 39) == first_book_match(k, 45));
    assert(first_book_match(k, 38) == first_book_match(k, 45));
    assert(first_book_match(k, 37) == first_book_match(k, 45));
    assert(first_book_match(k, 36) == first_book_match(k, 45));
    assert(first_book_match(k, 35) == first_book_match(k, 45));
    assert(first_book_match(k, 34) == first_book_match(k, 45));
    assert(first_book_match(k, 33) == first_book_match(k, 45));
    assert(first_book_match(k, 32) == first_book_match(k, 45));
}

proof fn found_by_osis_45()
    ensures
        lookup_canon_spec(canon_spec(45).osis@) == Some(canon_spec(45)),
{
    book_45();
    let k = canon_spec(45).osis@;
    lemma_plain_key(k);
    lemma_not_number(k, 1);
    misses_osis_45_0();
    misses_osis_45_16();
    misses_osis_45_32();
    assert(first_book_match(k, 45) == Some(45int));
}

#[verifier::rlimit(40)]
proof fn misses_abbreviation_45_0()
    ensures
        first_book_match(canon_spec(45).name_zh_short@, 0) == first_book_match(canon_spec(45).name_zh_short@, 16),
{
    book_45();
    let k = canon_spec(45).name_zh_short@;
    book_0();
    book_1();
    book_2();
    book_3();
    book_4();
    book_5();
    book_6();
    book_7();
    book_8();
    lemma_not_same(canon_spec(8).name_zh_short@, k, 0);
    book_9();
    lemma_not_same(canon_spec(9).name_zh_short@, k, 0);
    book_10();
    lemma_not_same(canon_spec(10).name_zh_short@, k, 0);
    book_11();
    lemma_not_same(canon_spec(11).name_zh_short@, k, 0);
    book_12();
    lemma_not_same(canon_spec(12).name_zh_short@, k, 0);
    book_13();
    lemma_not_same(canon_spec(13).name_zh_short@, k, 0);
    book_14();
    book_15();
    assert(first_book_match(k, 15) == first_book_match(k, 16));
    assert(first_book_match(k, 14) == first_book_match(k, 16));
    assert(first_book_match(k, 13) == first_book_match(k, 16));
    assert(first_book_match(k, 12) == first_book_match(k, 16));
    assert(first_book_match(k, 11) == first_book_match(k, 16));
    assert(first_book_match(k, 10) == first_book_match(k, 16));
    assert(first_book_match(k, 9) == first_book_match(k, 16));
    assert(first_book_match(k, 8) == first_book_match(k, 16));
    assert(first_book_match(k, 7) == first_book_match(k, 16));
    assert(first_book_match(k, 6) == first_book_match(k, 16));
    assert(first_book_match(k, 5) == first_book_match(k, 16));
    assert(first_book_match(k, 4) == first_book_match(k, 16));
    assert(first_book_match(k, 3) == first_book_match(k, 16));
    assert(first_book_match(k, 2) == first_book_match(k, 16));
    assert(first_book_match(k, 1) == first_book_match(k, 16));
    assert(first_book_match(k, 0) == first_book_match(k, 16));
}

#[verifier::rlimit(40)]
proof fn misses_abbreviation_45_16()
    ensures
        first_book_match(canon_spec(45).name_zh_short@, 16) == first_book_match(canon_spec(45).name_zh_short@, 32),
{
    book_45();
    let k = canon_spec(45).name_zh_short@;
    book_16();
    book_17();
    book_18();
    lemma_not_eq_ic(canon_spec(18).osis@, k, 0);
    lemma_not_same(canon_spec(18).name_zh@, k, 0);
    book_19();
    lemma_not_same(canon_spec(19).name_zh@, k, 0);
    book_20();
    book_21();
    lemma_not_same(canon_spec(21).name_zh@, k, 0);
    book_22();
    book_23();
    book_24();
    book_25();
    book_26();
    book_27();
    book_28();
    book_29();
    book_30();
    book_31();
    assert(first_book_match(k, 31) == first_book_match(k, 32));
    assert(first_book_match(k, 30) == first_book_match(k, 32));
    assert(first_book_match(k, 29) == first_book_match(k, 32));
    assert(first_book_match(k, 28) == first_book_match(k, 32));
    assert(first_book_match(k, 27) == first_book_match(k, 32));
    assert(first_book_match(k, 26) == first_book_match(k, 32));
    assert(first_book_match(k, 25) == first_book_match(k, 32));
    assert(first_book_match(k, 24) == first_book_match(k, 32));
    assert(first_book_match(k, 23) == first_book_match(k, 32));
    assert(first_book_match(k, 22) == first_book_match(k, 32));
    assert(first_book_match(k, 21) == first_book_match(k, 32));
    assert(first_book_match(k, 20) == first_book_match(k, 32));
    assert(first_book_match(k, 19) == first_book_match(k, 32));
    assert(first_book_match(k, 18) == first_book_match(k, 32));
    assert(first_book_match(k, 17) == first_book_match(k, 32));
    assert(first_book_match(k, 16) == first_book_match(k, 32));
}

#[verifier::rlimit(40)]
proof fn misses_abbreviation_45_32()
    ensures
        first_book_match(canon_spec(45).name_zh_short@, 32) == first_book_match(canon_spec(45).name_zh_short@, 45),
{
    book_45();
    let k = canon_spec(45).name_zh_short@;
    book_32();
    book_33();
    book_34();
    book_35();
    book_36();
    book_37();
    book_38();
    book_39();
    book_40();
    book_41();
    book_42();
    book_43();
    book_44();
    assert(first_book_match(k, 44) == first_book_match(k, 45));
    assert(first_book_match(k, 43) == first_book_match(k, 45));
    assert(first_book_match(k, 42) == first_book_match(k, 45));
    assert(first_book_match(k, 41) == first_book_match(k, 45));
    assert(first_book_match(k, 40) == first_book_match(k, 45));
    assert(first_book_match(k, 39) == first_book_match(k, 45));
    assert(first_book_match(k, 38) == first_book_match(k, 45));
    assert(first_book_match(k, 37) == first_book_match(k, 45));
    assert(first_book_match(k, 36) == first_book_match(k, 45));
    assert(first_book_match(k, 35) == first_book_match(k, 45));
    assert(first_book_match(k, 34) == first_book_match(k, 45));
    assert(first_book_match(k, 33) == first_book_match(k, 45));
    assert(first_book_match(k, 32) == first_book_match(k, 45));
}

proof fn found_by_abbreviation_45()
    ensures
        lookup_canon_spec(canon_spec(45).name_zh_short@) == Some(canon_spec(45)),
{
    book_45();
    let k = canon_spec(45).name_zh_short@;
    lemma_plain_key(k);
    lemma_not_number(k, 0);
    misses_abbreviation_45_0();
    misses_abbreviation_45_16();
    misses_abbreviation_45_32();
    assert(first_book_match(k, 45) == Some(45int));
}

#[verifier::rlimit(40)]
proof fn misses_english_45_0()
    ensures
        first_book_match(canon_spec(45).name_en@, 0) == first_book_match(canon_spec(45).name_en@, 16),
{
    book_45();
    let k = canon_spec(45).name_en@;
    book_0();
    book_1();
    book_2();
    book_3();
    book_4();
    book_5();
    book_6();
    book_7();
    book_8();
    book_9();
    book_10();
    book_11();
    book_12();
    book_13();
    book_14();
    book_15();
    assert(first_book_match(k, 15) == first_book_match(k, 16));
    assert(first_book_match(k, 14) == first_book_match(k, 16));
    assert(first_book_match(k, 13) == first_book_match(k, 16));
    assert(first_book_match(k, 12) == first_book_match(k, 16));
    assert(first_book_match(k, 11) == first_book_match(k, 16));
    assert(first_book_match(k, 10) == first_book_match(k, 16));
    assert(first_book_match(k, 9) == first_book_match(k, 16));
    assert(first_book_match(k, 8) == first_book_match(k, 16));
    assert(first_book_match(k, 7) == first_book_match(k, 16));
    assert(first_book_match(k, 6) == first_book_match(k, 16));
    assert(first_book_match(k, 5) == first_book_match(k, 16));
    assert(first_book_match(k, 4) == first_book_match(k, 16));
    assert(first_book_match(k, 3) == first_book_match(k, 16));
    assert(first_book_match(k, 2) == first_book_match(k, 16));
    assert(first_book_match(k, 1) == first_book_match(k, 16));
    assert(first_book_match(k, 0) == first_book_match(k, 16));
}

#[verifier::rlimit(40)]
proof fn misses_english_45_16()
    ensures
        first_book_match(canon_spec(45).name_en@, 16) == first_book_match(canon_spec(45).name_en@, 32),
{
    book_45();
    let k = canon_spec(45).name_en@;
    book_16();
    book_17();
    book_18();
    book_19();
    book_20();
    book_21();
    book_22();
    book_23();
    book_24();
    book_25();
    book_26();
    book_27();
    book_28();
    book_29();
    book_30();
    book_31();
    assert(first_book_match(k, 31) == first_book_match(k, 32));
    assert(first_book_match(k, 30) == first_book_match(k, 32));
    assert(first_book_match(k, 29) == first_book_match(k, 32));
    assert(first_book_match(k, 28) == first_book_match(k, 32));
    assert(first_book_match(k, 27) == first_book_match(k, 32));
    assert(first_book_match(k, 26) == first_book_match(k, 32));
    assert(first_book_match(k, 25) == first_book_match(k, 32));
    assert(first_book_match(k, 24) == first_book_match(k, 32));
    assert(first_book_match(k, 23) == first_book_match(k, 32));
    assert(first_book_match(k, 22) == first_book_match(k, 32));
    assert(first_book_match(k, 21) == first_book_match(k, 32));
    assert(first_book_match(k, 20) == first_book_match(k, 32));
    assert(first_book_match(k, 19) == first_book_match(k, 32));
    assert(first_book_match(k, 18) == first_book_match(k, 32));
    assert(first_book_match(k, 17) == first_book_match(k, 32));
    assert(first_book_match(k, 16) == first_book_match(k, 32));
}

#[verifier::rlimit(40)]
proof fn misses_english_45_32()
    ensures
        first_book_match(canon_spec(45).name_en@, 32) == first_book_match(canon_spec(45).name_en@, 45),
{
    book_45();
    let k = canon_spec(45).name_en@;
    book_32();
    book_33();
    book_34();
    book_35();
    book_36();
    book_37();
    book_38();
    book_39();
    book_40();
    book_41();
    book_42();
    book_43();
    book_44();
    assert(first_book_match(k, 44) == first_book_match(k, 45));
    assert(first_book_match(k, 43) == first_book_match(k, 45));
    assert(first_book_match(k, 42) == first_book_match(k, 45));
    assert(first_book_match(k, 41) == first_book_match(k, 45));
    assert(first_book_match(k, 40) == first_book_match(k, 45));
    assert(first_book_match(k, 39) == first_book_match(k, 45));
    assert(first_book_match(k, 38) == first_book_match(k, 45));
    assert(first_book_match(k, 37) == first_book_match(k, 45));
    assert(first_book_match(k, 36) == first_book_match(k, 45));
    assert(first_book_match(k, 35) == first_book_match(k, 45));
    assert(first_book_match(k, 34) == first_book_match(k, 45));
    assert(first_book_match(k, 33) == first_book_match(k, 45));
    assert(first_book_match(k, 32) == first_book_match(k, 45));
}

proof fn found_by_english_45()
    ensures
        lookup_canon_spec(canon_spec(45).name_en@) == Some(canon_spec(45)),
{
    book_45();
    let k = canon_spec(45).name_en@;
    lemma_plain_key(k);
    lemma_not_number(k, 1);
    misses_english_45_0();
    misses_english_45_16();
    misses_english_45_32();
    assert(first_book_match(k, 45) == Some(45int));
}

#[verifier::rlimit(40)]
proof fn misses_osis_46_0()
    ensures
        first_book_match(canon_spec(46).osis@, 0) == first_book_match(canon_spec(46).osis@, 16),
{
    book_46();
    let k = canon_spec(46).osis@;
    book_0();
    book_1();
    lemma_not_eq_ic(canon_spec(1).osis@, k, 0);
    lemma_not_same(canon_spec(1).name_zh@, k, 0);
    book_2();
    book_3();
    book_4();
    lemma_not_eq_ic(canon_spec(4).osis@, k, 0);
    book_5();
    lemma_not_eq_ic(canon_spec(5).osis@, k, 0);
    lemma_not_same(canon_spec(5).name_zh@, k, 0);
    book_6();
    lemma_not_eq_ic(canon_spec(6).osis@, k, 0);
    book_7();
    lemma_not_eq_ic(canon_spec(7).osis@, k, 0);
    lemma_not_eq_ic(canon_spec(7).name_en@, k, 0);
    book_8();
    lemma_not_eq_ic(canon_spec(8).osis@, k, 0);
    book_9();
    lemma_not_eq_ic(canon_spec(9).osis@, k, 1);
    book_10();
    lemma_not_eq_ic(canon_spec(10).osis@, k, 0);
    lemma_not_same(canon_spec(10).name_zh@, k, 0);
    book_11();
    lemma_not_eq_ic(canon_spec(11).osis@, k, 1);
    lemma_not_same(canon_spec(11).name_zh@, k, 0);
    book_12();
    lemma_not_eq_ic(canon_spec(12).osis@, k, 0);
    lemma_not_same(canon_spec(12).name_zh@, k, 0);
    book_13();
    lemma_not_eq_ic(canon_spec(13).osis@, k, 2);
    lemma_not_same(canon_spec(13).name_zh@, k, 0);
    book_14();
    lemma_not_eq_ic(canon_spec(14).osis@, k, 0);
    lemma_not_same(canon_spec(14).name_zh@, k, 0);
    lemma_not_eq_ic(canon_spec(14).name_en@, k, 0);
    book_15();
    lemma_not_same(canon_spec(15).name_zh@, k, 0);
    assert(first_book_match(k, 15) == first_book_match(k, 16));
    assert(first_book_match(k, 14) == first_book_match(k, 16));
    assert(first_book_match(k, 13) == first_book_match(k, 16));
    assert(first_book_match(k, 12) == first_book_match(k, 16));
    assert(first_book_match(k, 11) == first_book_match(k, 16));
    assert(first_book_match(k, 10) == first_book_match(k, 16));
    assert(first_book_match(k, 9) == first_book_match(k, 16));
    assert(first_book_match(k, 8) == first_book_match(k, 16));
    assert(first_book_match(k, 7) == first_book_match(k, 16));
    assert(first_book_match(k, 6) == first_book_match(k, 16));
    assert(first_book_match(k, 5) == first_book_match(k, 16));
    assert(first_book_match(k, 4) == first_book_match(k, 16));
    assert(first_book_match(k, 3) == first_book_match(k, 16));
    assert(first_book_match(k, 2) == first_book_match(k, 16));
    assert(first_book_match(k, 1) == first_book_match(k, 16));
    assert(first_book_match(k, 0) == first_book_match(k, 16));
}

#[verifier::rlimit(40)]
proof fn misses_osis_46_16()
    ensures
        first_book_match(canon_spec(46).osis@, 16) == first_book_match(canon_spec(46).osis@, 32),
{
    book_46();
    let k = canon_spec(46).osis@;
    book_16();
    lemma_not_eq_ic(canon_spec(16).osis@, k, 0);
    lemma_not_same(canon_spec(16).name_zh@, k, 0);
    book_17();
    book_18();
    book_19();
    lemma_not_eq_ic(canon_spec(19).osis@, k, 0);
    book_20();
    lemma_not_eq_ic(canon_spec(20).osis@, k, 0);
    book_21();
    lemma_not_eq_ic(canon_spec(21).osis@, k, 0);
    book_22();
    lemma_not_same(canon_spec(22).name_zh@, k, 0);
    book_23();
    lemma_not_same(canon_spec(23).name_zh@, k, 0);
    book_24();
    book_25();
    lemma_not_eq_ic(canon_spec(25).osis@, k, 0);
    lemma_not_same(canon_spec(25).name_zh@, k, 0);
    book_26();
    lemma_not_same(canon_spec(26).name_zh@, k, 0);
    book_27();
    lemma_not_same(canon_spec(27).name_zh@, k, 0);
    book_28();
    lemma_not_eq_ic(canon_spec(28).osis@, k, 0);
    lemma_not_eq_ic(canon_spec(28).name_en@, k, 0);
    book_29();
    lemma_not_eq_ic(canon_spec(29).osis@, k, 0);
    lemma_not_same(canon_spec(29).name_zh@, k, 0);
    lemma_not_eq_ic(canon_spec(29).name_en@, k, 0);
    book_30();
    lemma_not_eq_ic(canon_spec(30).osis@, k, 0);
    book_31();
    assert(first_book_match(k, 31) == first_book_match(k, 32));
    assert(first_book_match(k, 30) == first_book_match(k, 32));
    assert(first_book_match(k, 29) == first_book_match(k, 32));
    assert(first_book_match(k, 28) == first_book_match(k, 32));
    assert(first_book_match(k, 27) == first_book_match(k, 32));
    assert(first_book_match(k, 26) == first_book_match(k, 32));
    assert(first_book_match(k, 25) == first_book_match(k, 32));
    assert(first_book_match(k, 24) == first_book_match(k, 32));
    assert(first_book_match(k, 23) == first_book_match(k, 32));
    assert(first_book_match(k, 22) == first_book_match(k, 32));
    assert(first_book_match(k, 21) == first_book_match(k, 32));
    assert(first_book_match(k, 20) == first_book_match(k, 32));
    assert(first_book_match(k, 19) == first_book_match(k, 32));
    assert(first_book_match(k, 18) == first_book_match(k, 32));
    assert(first_book_match(k, 17) == first_book_match(k, 32));
    assert(first_book_match(k, 16) == first_book_match(k, 32));
}

#[verifier::rlimit(40)]
proof fn misses_osis_46_32()
    ensures
        first_book_match(canon_spec(46).osis@, 32) == first_book_match(canon_spec(46).osis@, 46),
{
    book_46();
    let k = canon_spec(46).osis@;
    book_32();
    book_33();
    book_34();
    lemma_not_same(canon_spec(34).name_zh@, k, 0);
    book_35();
    lemma_not_eq_ic(canon_spec(35).osis@, k, 0);
    lemma_not_same(canon_spec(35).name_zh@, k, 0);
    book_36();
    book_37();
    lemma_not_eq_ic(canon_spec(37).osis@, k, 0);
    book_38();
    lemma_not_same(canon_spec(38).name_zh@, k, 0);
    book_39();
    lemma_not_eq_ic(canon_spec(39).osis@, k, 0);
    lemma_not_same(canon_spec(39).name_zh@, k, 0);
    book_40();
    lemma_not_eq_ic(canon_spec(40).osis@, k, 0);
    lemma_not_same(canon_spec(40).name_zh@, k, 0);
    lemma_not_eq_ic(canon_spec(40).name_en@, k, 0);
    book_41();
    lemma_not_eq_ic(canon_spec(41).osis@, k, 0);
    lemma_not_same(canon_spec(41).name_zh@, k, 0);
    lemma_not_eq_ic(canon_spec(41).name_en@, k, 0);
    book_42();
    lemma_not_eq_ic(canon_spec(42).osis@, k, 0);
    lemma_not_same(canon_spec(42).name_zh@, k, 0);
    lemma_not_eq_ic(canon_spec(42).name_en@, k, 0);
    book_43();
    lemma_not_eq_ic(canon_spec(43).osis@, k, 0);
    lemma_not_same(canon_spec(43).name_zh@, k, 0);
    lemma_not_eq_ic(canon_spec(43).name_en@, k, 0);
    book_44();
    book_45();
    lemma_not_eq_ic(canon_spec(45).osis@, k, 0);
    assert(first_book_match(k, 45) == first_book_match(k, 46));
    assert(first_book_match(k, 44) == first_book_match(k, 46));
    assert(first_book_match(k, 43) == first_book_match(k, 46));
    assert(first_book_match(k, 42) == first_book_match(k, 46));
    assert(first_book_match(k, 41) == first_book_match(k, 46));
    assert(first_book_match(k, 40) == first_book_match(k, 46));
    assert(first_book_match(k, 39) == first_book_match(k, 46));
    assert(first_book_match(k, 38) == first_book_match(k, 46));
    assert(first_book_match(k, 37) == first_book_match(k, 46));
    assert(first_book_match(k, 36) == first_book_match(k, 46));
    assert(first_book_match(k, 35) == first_book_match(k, 46));
    assert(first_book_match(k, 34) == first_book_match(k, 46));
    assert(first_book_match(k, 33) == first_book_match(k, 46));
    assert(first_book_match(k, 32) == first_book_match(k, 46));
}

proof fn found_by_osis_46()
    ensures
        lookup_canon_spec(canon_spec(46).osis@) == Some(canon_spec(46)),
{
    book_46();
    let k = canon_spec(46).osis@;
    lemma_plain_key(k);
    lemma_not_number(k, 1);
    misses_osis_46_0();
    misses_osis_46_16();
    misses_osis_46_32();
    assert(first_book_match(k, 46) == Some(46int));
}

#[verifier::rlimit(40)]
proof fn misses_abbreviation_46_0()
    ensures
        first_book_match(canon_spec(46).name_zh_short@, 0) == first_book_match(canon_spec(46).name_zh_short@, 16),
{
    book_46();
    let k = canon_spec(46).name_zh_short@;
    book_0();
    book_1();
    book_2();
    book_3();
    book_4();
    book_5();
    book_6();
    book_7();
    book_8();
    lemma_not_same(canon_spec(8).name_zh_short@, k, 0);
    book_9();
    lemma_not_same(canon_spec(9).name_zh_short@, k, 0);
    book_10();
    lemma_not_same(canon_spec(10).name_zh_short@, k, 0);
    book_11();
    lemma_not_same(canon_spec(11).name_zh_short@, k, 0);
    book_12();
    lemma_not_same(canon_spec(12).name_zh_short@, k, 0);
    book_13();
    lemma_not_same(canon_spec(13).name_zh_short@, k, 0);
    book_14();
    book_15();
    assert(first_book_match(k, 15) == first_book_match(k, 16));
    assert(first_book_match(k, 14) == first_book_match(k, 16));
    assert(first_book_match(k, 13) == first_book_match(k, 16));
    assert(first_book_match(k, 12) == first_book_match(k, 16));
    assert(first_book_match(k, 11) == first_book_match(k, 16));
    assert(first_book_match(k, 10) == first_book_match(k, 16));
    assert(first_book_match(k, 9) == first_book_match(k, 16));
    assert(first_book_match(k, 8) == first_book_match(k, 16));
    assert(first_book_match(k, 7) == first_book_match(k, 16));
    assert(first_book_match(k, 6) == first_book_match(k, 16));
    assert(first_book_match(k, 5) == first_book_match(k, 16));
    assert(first_book_match(k, 4) == first_book_match(k, 16));
    assert(first_book_match(k, 3) == first_book_match(k, 16));
    assert(first_book_match(k, 2) == first_book_match(k, 16));
    assert(first_book_match(k, 1) == first_book_match(k, 16));
    assert(first_book_match(k, 0) == first_book_match(k, 16));
}

#[verifier::rlimit(40)]
proof fn misses_abbreviation_46_16()
    ensures
        first_book_match(canon_spec(46).name_zh_short@, 16) == first_book_match(canon_spec(46).name_zh_short@, 32),
{
    book_46();
    let k = canon_spec(46).name_zh_short@;
    book_16();
    book_17();
    book_18();
    lemma_not_eq_ic(canon_spec(18).osis@, k, 0);
    lemma_not_same(canon_spec(18).name_zh@, k, 0);
    book_19();
    lemma_not_same(canon_spec(19).name_zh@, k, 0);
    book_20();
    book_21();
    lemma_not_same(canon_spec(21).name_zh@, k, 0);
    book_22();
    book_23();
    book_24();
    book_25();
    book_26();
    book_27();
    book_28();
    book_29();
    book_30();
    book_31();
    assert(first_book_match(k, 31) == first_book_match(k, 32));
    assert(first_book_match(k, 30) == first_book_match(k, 32));
    assert(first_book_match(k, 29) == first_book_match(k, 32));
    assert(first_book_match(k, 28) == first_book_match(k, 32));
    assert(first_book_match(k, 27) == first_book_match(k, 32));
    assert(first_book_match(k, 26) == first_book_match(k, 32));
    assert(first_book_match(k, 25) == first_book_match(k, 32));
    assert(first_book_match(k, 24) == first_book_match(k, 32));
    assert(first_book_match(k, 23) == first_book_match(k, 32));
    assert(first_book_match(k, 22) == first_book_match(k, 32));
    assert(first_book_match(k, 21) == first_book_match(k, 32));
    assert(first_book_match(k, 20) == first_book_match(k, 32));
    assert(first_book_match(k, 19) == first_book_match(k, 32));
    assert(first_book_match(k, 18) == first_book_match(k, 32));
    assert(first_book_match(k, 17) == first_book_match(k, 32));
    assert(first_book_match(k, 16) == first_book_match(k, 32));
}

#[verifier::rlimit(40)]
proof fn misses_abbreviation_46_32()
    ensures
        first_book_match(canon_spec(46).name_zh_short@, 32) == first_book_match(canon_spec(46).name_zh_short@, 46),
{
    book_46();
    let k = canon_spec(46).name_zh_short@;
    book_32();
    book_33();
    book_34();
    book_35();
    book_36();
    book_37();
    book_38();
    book_39();
    book_40();
    book_41();
    book_42();
    book_43();
    book_44();
    book_45();
    lemma_not_same(canon_spec(45).name_zh_short@, k, 1);
    assert(first_book_match(k, 45) == first_book_match(k, 46));
    assert(first_book_match(k, 44) == first_book_match(k, 46));
    assert(first_book_match(k, 43) == first_book_match(k, 46));
    assert(first_book_match(k, 42) == first_book_match(k, 46));
    assert(first_book_match(k, 41) == first_book_match(k, 46));
    assert(first_book_match(k, 40) == first_book_match(k, 46));
    assert(first_book_match(k, 39) == first_book_match(k, 46));
    assert(first_book_match(k, 38) == first_book_match(k, 46));
    assert(first_book_match(k, 37) == first_book_match(k, 46));
    assert(first_book_match(k, 36) == first_book_match(k, 46));
    assert(first_book_match(k, 35) == first_book_match(k, 46));
    assert(first_book_match(k, 34) == first_book_match(k, 46));
    assert(first_book_match(k, 33) == first_book_match(k, 46));
    assert(first_book_match(k, 32) == first_book_match(k, 46));
}

proof fn found_by_abbreviation_46()
    ensures
        lookup_canon_spec(canon_spec(46).name_zh_short@) == Some(canon_spec(46)),
{
    book_46();
    let k = canon_spec(46).name_zh_short@;
    lemma_plain_key(k);
    lemma_not_number(k, 0);
    misses_abbreviation_46_0();
    misses_abbreviation_46_16();
    misses_abbreviation_46_32();
    assert(first_book_match(k, 46) == Some(46int));
}

#[verifier::rlimit(40)]
proof fn misses_english_46_0()
    ensures
        first_book_match(canon_spec(46).name_en@, 0) == first_book_match(canon_spec(46).name_en@, 16),
{
    book_46();
    let k = canon_spec(46).name_en@;
    book_0();
    book_1();
    book_2();
    book_3();
    book_4();
    book_5();
    book_6();
    book_7();
    book_8();
    book_9();
    book_10();
    book_11();
    book_12();
    book_13();
    book_14();
    book_15();
    assert(first_book_match(k, 15) == first_book_match(k, 16));
    assert(first_book_match(k, 14) == first_book_match(k, 16));
    assert(first_book_match(k, 13) == first_book_match(k, 16));
    assert(first_book_match(k, 12) == first_book_match(k, 16));
    assert(first_book_match(k, 11) == first_book_match(k, 16));
    assert(first_book_match(k, 10) == first_book_match(k, 16));
    assert(first_book_match(k, 9) == first_book_match(k, 16));
    assert(first_book_match(k, 8) == first_book_match(k, 16));
    assert(first_book_match(k, 7) == first_book_match(k, 16));
    assert(first_book_match(k, 6) == first_book_match(k, 16));
    assert(first_book_match(k, 5) == first_book_match(k, 16));
    assert(first_book_match(k, 4) == first_book_match(k, 16));
    assert(first_book_match(k, 3) == first_book_match(k, 16));
    assert(first_book_match(k, 2) == first_book_match(k, 16));
    assert(first_book_match(k, 1) == first_book_match(k, 16));
    assert(first_book_match(k, 0) == first_book_match(k, 16));
}

#[verifier::rlimit(40)]
proof fn misses_english_46_16()
    ensures
        first_book_match(canon_spec(46).name_en@, 16) == first_book_match(canon_spec(46).name_en@, 32),
{
    book_46();
    let k = canon_spec(46).name_en@;
    book_16();
    book_17();
    book_18();
    book_19();
    book_20();
    book_21();
    book_22();
    book_23();
    book_24();
    book_25();
    book_26();
    book_27();
    book_28();
    book_29();
    book_30();
    book_31();
    assert(first_book_match(k, 31) == first_book_match(k, 32));
    assert(first_book_match(k, 30) == first_book_match(k, 32));
    assert(first_book_match(k, 29) == first_book_match(k, 32));
    assert(first_book_match(k, 28) == first_book_match(k, 32));
    assert(first_book_match(k, 27) == first_book_match(k, 32));
    assert(first_book_match(k, 26) == first_book_match(k, 32));
    assert(first_book_match(k, 25) == first_book_match(k, 32));
    assert(first_book_match(k, 24) == first_book_match(k, 32));
    assert(first_book_match(k, 23) == first_book_match(k, 32));
    assert(first_book_match(k, 22) == first_book_match(k, 32));
    assert(first_book_match(k, 21) == first_book_match(k, 32));
    assert(first_book_match(k, 20) == first_book_match(k, 32));
    assert(first_book_match(k, 19) == first_book_match(k, 32));
    assert(first_book_match(k, 18) == first_book_match(k, 32));
    assert(first_book_match(k, 17) == first_book_match(k, 32));
    assert(first_book_match(k, 16) == first_book_match(k, 32));
}

#[verifier::rlimit(40)]
proof fn misses_english_46_32()
    ensures
        first_book_match(canon_spec(46).name_en@, 32) == first_book_match(canon_spec(46).name_en@, 46),
{
    book_46();
    let k = canon_spec(46).name_en@;
    book_32();
    book_33();
    book_34();
    book_35();
    book_36();
    book_37();
    book_38();
    book_39();
    book_40();
    book_41();
    book_42();
    book_43();
    book_44();
    book_45();
    lemma_not_eq_ic(canon_spec(45).name_en@, k, 0);
    assert(first_book_match(k, 45) == first_book_match(k, 46));
    assert(first_book_match(k, 44) == first_book_match(k, 46));
    assert(first_book_match(k, 43) == first_book_match(k, 46));
    assert(first_book_match(k, 42) == first_book_match(k, 46));
    assert(first_book_match(k, 41) == first_book_match(k, 46));
    assert(first_book_match(k, 40) == first_book_match(k, 46));
    assert(first_book_match(k, 39) == first_book_match(k, 46));
    assert(first_book_match(k, 38) == first_book_match(k, 46));
    assert(first_book_match(k, 37) == first_book_match(k, 46));
    assert(first_book_match(k, 36) == first_book_match(k, 46));
    assert(first_book_match(k, 35) == first_book_match(k, 46));
    assert(first_book_match(k, 34) == first_book_match(k, 46));
    assert(first_book_match(k, 33) == first_book_match(k, 46));
    assert(first_book_match(k, 32) == first_book_match(k, 46));
}

proof fn found_by_english_46()
    ensures
        lookup_canon_spec(canon_spec(46).name_en@) == Some(canon_spec(46)),
{
    book_46();
    let k = canon_spec(46).name_en@;
    lemma_plain_key(k);
    lemma_not_number(k, 1);
    misses_english_46_0();
    misses_english_46_16();
    misses_english_46_32();
    assert(first_book_match(k, 46) == Some(46int));
}

#[verifier::rlimit(40)]
proof fn misses_osis_47_0()
    ensures
        first_book_match(canon_spec(47).osis@, 0) == first_book_match(canon_spec(47).osis@, 16),
{
    book_47();
    let k = canon_spec(47).osis@;
    book_0();
    lemma_not_eq_ic(canon_spec(0).osis@, k, 1);
    lemma_not_same(canon_spec(0).name_zh@, k, 0);
    book_1();
    book_2();
    lemma_not_eq_ic(canon_spec(2).osis@, k, 0);
    lemma_not_same(canon_spec(2).name_zh@, k, 0);
    book_3();
    lemma_not_eq_ic(canon_spec(3).osis@, k, 0);
    lemma_not_same(canon_spec(3).name_zh@, k, 0);
    book_4();
    lemma_not_same(canon_spec(4).name_zh@, k, 0);
    book_5();
    book_6();
    lemma_not_same(canon_spec(6).name_zh@, k, 0);
    book_7();
    lemma_not_same(canon_spec(7).name_zh@, k, 0);
    book_8();
    book_9();
    book_10();
    book_11();
    book_12();
    book_13();
    book_14();
    book_15();
    lemma_not_eq_ic(canon_spec(15).osis@, k, 0);
    assert(first_book_match(k, 15) == first_book_match(k, 16));
    assert(first_book_match(k, 14) == first_book_match(k, 16));
    assert(first_book_match(k, 13) == first_book_match(k, 16));
    assert(first_book_match(k, 12) == first_book_match(k, 16));
    assert(first_book_match(k, 11) == first_book_match(k, 16));
    assert(first_book_match(k, 10) == first_book_match(k, 16));
    assert(first_book_match(k, 9) == first_book_match(k, 16));
    assert(first_book_match(k, 8) == first_book_match(k, 16));
    assert(first_book_match(k, 7) == first_book_match(k, 16));
    assert(first_book_match(k, 6) == first_book_match(k, 16));
    assert(first_book_match(k, 5) == first_book_match(k, 16));
    assert(first_book_match(k, 4) == first_book_match(k, 16));
    assert(first_book_match(k, 3) == first_book_match(k, 16));
    assert(first_book_match(k, 2) == first_book_match(k, 16));
    assert(first_book_match(k, 1) == first_book_match(k, 16));
    assert(first_book_match(k, 0) == first_book_match(k, 16));
}

#[verifier::rlimit(40)]
proof fn misses_osis_47_16()
    ensures
        first_book_match(canon_spec(47).osis@, 16) == first_book_match(canon_spec(47).osis@, 32),
{
    book_47();
    let k = canon_spec(47).osis@;
    book_16();
    book_17();
    lemma_not_eq_ic(canon_spec(17).osis@, k, 0);
    lemma_not_same(canon_spec(17).name_zh@, k, 0);
    lemma_not_eq_ic(canon_spec(17).name_en@, k, 0);
    book_18();
    book_19();
    book_20();
    lemma_not_same(canon_spec(20).name_zh@, k, 0);
    book_21();
    book_22();
    lemma_not_eq_ic(canon_spec(22).osis@, k, 0);
    book_23();
    lemma_not_eq_ic(canon_spec(23).osis@, k, 0);
    book_24();
    lemma_not_eq_ic(canon_spec(24).osis@, k, 0);
    book_25();
    book_26();
    lemma_not_eq_ic(canon_spec(26).osis@, k, 0);
    book_27();
    lemma_not_eq_ic(canon_spec(27).osis@, k, 0);
    book_28();
    lemma_not_same(canon_spec(28).name_zh@, k, 0);
    book_29();
    book_30();
    book_31();
    lemma_not_same(canon_spec(31).name_zh@, k, 0);
    assert(first_book_match(k, 31) == first_book_match(k, 32));
    assert(first_book_match(k, 30) == first_book_match(k, 32));
    assert(first_book_match(k, 29) == first_book_match(k, 32));
    assert(first_book_match(k, 28) == first_book_match(k, 32));
    assert(first_book_match(k, 27) == first_book_match(k, 32));
    assert(first_book_match(k, 26) == first_book_match(k, 32));
    assert(first_book_match(k, 25) == first_book_match(k, 32));
    assert(first_book_match(k, 24) == first_book_match(k, 32));
    assert(first_book_match(k, 23) == first_book_match(k, 32));
    assert(first_book_match(k, 22) == first_book_match(k, 32));
    assert(first_book_match(k, 21) == first_book_match(k, 32));
    assert(first_book_match(k, 20) == first_book_match(k, 32));
    assert(first_book_match(k, 19) == first_book_match(k, 32));
    assert(first_book_match(k, 18) == first_book_match(k, 32));
    assert(first_book_match(k, 17) == first_book_match(k, 32));
    assert(first_book_match(k, 16) == first_book_match(k, 32));
}

#[verifier::rlimit(40)]
proof fn misses_osis_47_32()
    ensures
        first_book_match(canon_spec(47).osis@, 32) == first_book_match(canon_spec(47).osis@, 47),
{
    book_47();
    let k = canon_spec(47).osis@;
    book_32();
    lemma_not_eq_ic(canon_spec(32).osis@, k, 0);
    lemma_not_same(canon_spec(32).name_zh@, k, 0);
    book_33();
    lemma_not_eq_ic(canon_spec(33).osis@, k, 0);
    lemma_not_same(canon_spec(33).name_zh@, k, 0);
    book_34();
    lemma_not_eq_ic(canon_spec(34).osis@, k, 0);
    book_35();
    book_36();
    lemma_not_eq_ic(canon_spec(36).osis@, k, 0);
    lemma_not_same(canon_spec(36).name_zh@, k, 0);
    book_37();
    book_38();
    lemma_not_eq_ic(canon_spec(38).osis@, k, 0);
    book_39();
    book_40();
    book_41();
    book_42();
    book_43();
    book_44();
    lemma_not_eq_ic(canon_spec(44).osis@, k, 0);
    lemma_not_same(canon_spec(44).name_zh@, k, 0);
    book_45();
    book_46();
    assert(first_book_match(k, 46) == first_book_match(k, 47));
    assert(first_book_match(k, 45) == first_book_match(k, 47));
    assert(first_book_match(k, 44) == first_book_match(k, 47));
    assert(first_book_match(k, 43) == first_book_match(k, 47));
    assert(first_book_match(k, 42) == first_book_match(k, 47));
    assert(first_book_match(k, 41) == first_book_match(k, 47));
    assert(first_book_match(k, 40) == first_book_match(k, 47));
    assert(first_book_match(k, 39) == first_book_match(k, 47));
    assert(first_book_match(k, 38) == first_book_match(k, 47));
    assert(first_book_match(k, 37) == first_book_match(k, 47));
    assert(first_book_match(k, 36) == first_book_match(k, 47));
    assert(first_book_match(k, 35) == first_book_match(k, 47));
    assert(first_book_match(k, 34) == first_book_match(k, 47));
    assert(first_book_match(k, 33) == first_book_match(k, 47));
    assert(first_book_match(k, 32) == first_book_match(k, 47));
}

proof fn found_by_osis_47()
    ensures
        lookup_canon_spec(canon_spec(47).osis@) == Some(canon_spec(47)),
{
    book_47();
    let k = canon_spec(47).osis@;
    lemma_plain_key(k);
    lemma_not_number(k, 0);
    misses_osis_47_0();
    misses_osis_47_16();
    misses_osis_47_32();
    assert(first_book_match(k, 47) == Some(47int));
}

#[verifier::rlimit(40)]
proof fn misses_abbreviation_47_0()
    ensures
        first_book_match(canon_spec(47).name_zh_short@, 0) == first_book_match(canon_spec(47).name_zh_short@, 16),
{
    book_47();
    let k = canon_spec(47).name_zh_short@;
    book_0();
    lemma_not_same(canon_spec(0).name_zh_short@, k, 0);
    book_1();
    lemma_not_same(canon_spec(1).name_zh_short@, k, 0);
    book_2();
    lemma_not_same(canon_spec(2).name_zh_short@, k, 0);
    book_3();
    lemma_not_same(canon_spec(3).name_zh_short@, k, 0);
    book_4();
    lemma_not_same(canon_spec(4).name_zh_short@, k, 0);
    book_5();
    lemma_not_same(canon_spec(5).name_zh_short@, k, 0);
    book_6();
    lemma_not_same(canon_spec(6).name_zh_short@, k, 0);
    book_7();
    lemma_not_same(canon_spec(7).name_zh_short@, k, 0);
    book_8();
    book_9();
    book_10();
    book_11();
    book_12();
    book_13();
    book_14();
    lemma_not_same(canon_spec(14).name_zh_short@, k, 0);
    book_15();
    lemma_not_same(canon_spec(15).name_zh_short@, k, 0);
    assert(first_book_match(k, 15) == first_book_match(k, 16));
    assert(first_book_match(k, 14) == first_book_match(k, 16));
    assert(first_book_match(k, 13) == first_book_match(k, 16));
    assert(first_book_match(k, 12) == first_book_match(k, 16));
    assert(first_book_match(k, 11) == first_book_match(k, 16));
    assert(first_book_match(k, 10) == first_book_match(k, 16));
    assert(first_book_match(k, 9) == first_book_match(k, 16));
    assert(first_book_match(k, 8) == first_book_match(k, 16));
    assert(first_book_match(k, 7) == first_book_match(k, 16));
    assert(first_book_match(k, 6) == first_book_match(k, 16));
    assert(first_book_match(k, 5) == first_book_match(k, 16));
    assert(first_book_match(k, 4) == first_book_match(k, 16));
    assert(first_book_match(k, 3) == first_book_match(k, 16));
    assert(first_book_match(k, 2) == first_book_match(k, 16));
    assert(first_book_match(k, 1) == first_book_match(k, 16));
    assert(first_book_match(k, 0) == first_book_match(k, 16));
}

#[verifier::rlimit(40)]
proof fn misses_abbreviation_47_16()
    ensures
        first_book_match(canon_spec(47).name_zh_short@, 16) == first_book_match(canon_spec(47).name_zh_short@, 32),
{
    book_47();
    let k = canon_spec(47).name_zh_short@;
    book_16();
    lemma_not_same(canon_spec(16).name_zh_short@, k, 0);
    book_17();
    lemma_not_same(canon_spec(17).name_zh_short@, k, 0);
    book_18();
    lemma_not_same(canon_spec(18).name_zh_short@, k, 0);
    book_19();
    lemma_not_same(canon_spec(19).name_zh_short@, k, 0);
    book_20();
    lemma_not_same(canon_spec(20).name_zh_short@, k, 0);
    book_21();
    lemma_not_same(canon_spec(21).name_zh_short@, k, 0);
    book_22();
    lemma_not_same(canon_spec(22).name_zh_short@, k, 0);
    book_23();
    lemma_not_same(canon_spec(23).name_zh_short@, k, 0);
    book_24();
    lemma_not_same(canon_spec(24).name_zh_short@, k, 0);
    book_25();
    lemma_not_same(canon_spec(25).name_zh_short@, k, 0);
    book_26();
    lemma_not_same(canon_spec(26).name_zh_short@, k, 0);
    book_27();
    lemma_not_same(canon_spec(27).name_zh_short@, k, 0);
    book_28();
    lemma_not_same(canon_spec(28).name_zh_short@, k, 0);
    book_29();
    lemma_not_same(canon_spec(29).name_zh_short@, k, 0);
    book_30();
    lemma_not_same(canon_spec(30).name_zh_short@, k, 0);
    book_31();
    lemma_not_same(canon_spec(31).name_zh_short@, k, 0);
    assert(first_book_match(k, 31) == first_book_match(k, 32));
    assert(first_book_match(k, 30) == first_book_match(k, 32));
    assert(first_book_match(k, 29) == first_book_match(k, 32));
    assert(first_book_match(k, 28) == first_book_match(k, 32));
    assert(first_book_match(k, 27) == first_book_match(k, 32));
    assert(first_book_match(k, 26) == first_book_match(k, 32));
    assert(first_book_match(k, 25) == first_book_match(k, 32));
    assert(first_book_match(k, 24) == first_book_match(k, 32));
    assert(first_book_match(k, 23) == first_book_match(k, 32));
    assert(first_book_match(k, 22) == first_book_match(k, 32));
    assert(first_book_match(k, 21) == first_book_match(k, 32));
    assert(first_book_match(k, 20) == first_book_match(k, 32));
    assert(first_book_match(k, 19) == first_book_match(k, 32));
    assert(first_book_match(k, 18) == first_book_match(k, 32));
    assert(first_book_match(k, 17) == first_book_match(k, 32));
    assert(first_book_match(k, 16) == first_book_match(k, 32));
}

#[verifier::rlimit(40)]
proof fn misses_abbreviation_47_32()
    ensures
        first_book_match(canon_spec(47).name_zh_short@, 32) == first_book_match(canon_spec(47).name_zh_short@, 47),
{
    book_47();
    let k = canon_spec(47).name_zh_short@;
    book_32();
    lemma_not_same(canon_spec(32).name_zh_short@, k, 0);
    book_33();
    lemma_not_same(canon_spec(33).name_zh_short@, k, 0);
    book_34();
    lemma_not_same(canon_spec(34).name_zh_short@, k, 0);
    book_35();
    lemma_not_same(canon_spec(35).name_zh_short@, k, 0);
    book_36();
    lemma_not_same(canon_spec(36).name_zh_short@, k, 0);
    book_37();
    lemma_not_same(canon_spec(37).name_zh_short@, k, 0);
    book_38();
    lemma_not_same(canon_spec(38).name_zh_short@, k, 0);
    book_39();
    lemma_not_same(canon_spec(39).name_zh_short@, k, 0);
    book_40();
    lemma_not_same(canon_spec(40).name_zh_short@, k, 0);
    book_41();
    lemma_not_same(canon_spec(41).name_zh_short@, k, 0);
    book_42();
    lemma_not_same(canon_spec(42).name_zh_short@, k, 0);
    book_43();
    lemma_not_same(canon_spec(43).name_zh_short@, k, 0);
    book_44();
    lemma_not_same(canon_spec(44).name_zh_short@, k, 0);
    book_45();
    book_46();
    assert(first_book_match(k, 46) == first_book_match(k, 47));
    assert(first_book_match(k, 45) == first_book_match(k, 47));
    assert(first_book_match(k, 44) == first_book_match(k, 47));
    assert(first_book_match(k, 43) == first_book_match(k, 47));
    assert(first_book_match(k, 42) == first_book_match(k, 47));
    assert(first_book_match(k, 41) == first_book_match(k, 47));
    assert(first_book_match(k, 40) == first_book_match(k, 47));
    assert(first_book_match(k, 39) == first_book_match(k, 47));
    assert(first_book_match(k, 38) == first_book_match(k, 47));
    assert(first_book_match(k, 37) == first_book_match(k, 47));
    assert(first_book_match(k, 36) == first_book_match(k, 47));
    assert(first_book_match(k, 35) == first_book_match(k, 47));
    assert(first_book_match(k, 34) == first_book_match(k, 47));
    assert(first_book_match(k, 33) == first_book_match(k, 47));
    assert(first_book_match(k, 32) == first_book_match(k, 47));
}

proof fn found_by_abbreviation_47()
    ensures
        lookup_canon_spec(canon_spec(47).name_zh_short@) == Some(canon_spec(47)),
{
    book_47();
    let k = canon_spec(47).name_zh_short@;
    lemma_plain_key(k);
    lemma_not_number(k, 0);
    misses_abbreviation_47_0();
    misses_abbreviation_47_16();
    misses_abbreviation_47_32();
    assert(first_book_match(k, 47) == Some(47int));
}

#[verifier::rlimit(40)]
proof fn misses_english_47_0()
    ensures
        first_book_match(canon_spec(47).name_en@, 0) == first_book_match(canon_spec(47).name_en@, 16),
{
    book_47();
    let k = canon_spec(47).name_en@;
    book_0();
    book_1();
    book_2();
    lemma_not_eq_ic(canon_spec(2).name_en@, k, 0);
    book_3();
    book_4();
    book_5();
    book_6();
    book_7();
    book_8();
    book_9();
    book_10();
    book_11();
    book_12();
    book_13();
    book_14();
    book_15();
    assert(first_book_match(k, 15) == first_book_match(k, 16));
    assert(first_book_match(k, 14) == first_book_match(k, 16));
    assert(first_book_match(k, 13) == first_book_match(k, 16));
    assert(first_book_match(k, 12) == first_book_match(k, 16));
    assert(first_book_match(k, 11) == first_book_match(k, 16));
    assert(first_book_match(k, 10) == first_book_match(k, 16));
    assert(first_book_match(k, 9) == first_book_match(k, 16));
    assert(first_book_match(k, 8) == first_book_match(k, 16));
    assert(first_book_match(k, 7) == first_book_match(k, 16));
    assert(first_book_match(k, 6) == first_book_match(k, 16));
    assert(first_book_match(k, 5) == first_book_match(k, 16));
    assert(first_book_match(k, 4) == first_book_match(k, 16));
    assert(first_book_match(k, 3) == first_book_match(k, 16));
    assert(first_book_match(k, 2) == first_book_match(k, 16));
    assert(first_book_match(k, 1) == first_book_match(k, 16));
    assert(first_book_match(k, 0) == first_book_match(k, 16));
}

#[verifier::rlimit(40)]
proof fn misses_english_47_16()
    ensures
        first_book_match(canon_spec(47).name_en@, 16) == first_book_match(canon_spec(47).name_en@, 32),
{
    book_47();
    let k = canon_spec(47).name_en@;
    book_16();
    book_17();
    book_18();
    book_19();
    book_20();
    book_21();
    book_22();
    book_23();
    book_24();
    book_25();
    book_26();
    book_27();
    book_28();
    book_29();
    book_30();
    book_31();
    assert(first_book_match(k, 31) == first_book_match(k, 32));
    assert(first_book_match(k, 30) == first_book_match(k, 32));
    assert(first_book_match(k, 29) == first_book_match(k, 32));
    assert(first_book_match(k, 28) == first_book_match(k, 32));
    assert(first_book_match(k, 27) == first_book_match(k, 32));
    assert(first_book_match(k, 26) == first_book_match(k, 32));
    assert(first_book_match(k, 25) == first_book_match(k, 32));
    assert(first_book_match(k, 24) == first_book_match(k, 32));
    assert(first_book_match(k, 23) == first_book_match(k, 32));
    assert(first_book_match(k, 22) == first_book_match(k, 32));
    assert(first_book_match(k, 21) == first_book_match(k, 32));
    assert(first_book_match(k, 20) == first_book_match(k, 32));
    assert(first_book_match(k, 19) == first_book_match(k, 32));
    assert(first_book_match(k, 18) == first_book_match(k, 32));
    assert(first_book_match(k, 17) == first_book_match(k, 32));
    assert(first_book_match(k, 16) == first_book_match(k, 32));
}

#[verifier::rlimit(40)]
proof fn misses_english_47_32()
    ensures
        first_book_match(canon_spec(47).name_en@, 32) == first_book_match(canon_spec(47).name_en@, 47),
{
    book_47();
    let k = canon_spec(47).name_en@;
    book_32();
    book_33();
    book_34();
    book_35();
    lemma_not_eq_ic(canon_spec(35).name_en@, k, 0);
    book_36();
    book_37();
    lemma_not_eq_ic(canon_spec(37).name_en@, k, 0);
    book_38();
    book_39();
    book_40();
    book_41();
    book_42();
    book_43();
    book_44();
    book_45();
    book_46();
    assert(first_book_match(k, 46) == first_book_match(k, 47));
    assert(first_book_match(k, 45) == first_book_match(k, 47));
    assert(first_book_match(k, 44) == first_book_match(k, 47));
    assert(first_book_match(k, 43) == first_book_match(k, 47));
    assert(first_book_match(k, 42) == first_book_match(k, 47));
    assert(first_book_match(k, 41) == first_book_match(k, 47));
    assert(first_book_match(k, 40) == first_book_match(k, 47));
    assert(first_book_match(k, 39) == first_book_match(k, 47));
    assert(first_book_match(k, 38) == first_book_match(k, 47));
    assert(first_book_match(k, 37) == first_book_match(k, 47));
    assert(first_book_match(k, 36) == first_book_match(k, 47));
    assert(first_book_match(k, 35) == first_book_match(k, 47));
    assert(first_book_match(k, 34) == first_book_match(k, 47));
    assert(first_book_match(k, 33) == first_book_match(k, 47));
    assert(first_book_match(k, 32) == first_book_match(k, 47));
}

proof fn found_by_english_47()
    ensures
        lookup_canon_spec(canon_spec(47).name_en@) == Some(canon_spec(47)),
{
    book_47();
    let k = canon_spec(47).name_en@;
    lemma_plain_key(k);
    lemma_not_number(k, 0);
    misses_english_47_0();
    misses_english_47_16();
    misses_english_47_32();
    assert(first_book_match(k, 47) == Some(47int));
}

#[verifier::rlimit(40)]
proof fn misses_osis_48_0()
    ensures
        first_book_match(canon_spec(48).osis@, 0) == first_book_match(canon_spec(48).osis@, 16),
{
    book_48();
    let k = canon_spec(48).osis@;
    book_0();
    lemma_not_eq_ic(canon_spec(0).osis@, k, 0);
    lemma_not_same(canon_spec(0).name_zh@, k, 0);
    book_1();
    book_2();
    lemma_not_eq_ic(canon_spec(2).osis@, k, 0);
    lemma_not_same(canon_spec(2).name_zh@, k, 0);
    book_3();
    lemma_not_eq_ic(canon_spec(3).osis@, k, 0);
    lemma_not_same(canon_spec(3).name_zh@, k, 0);
    book_4();
    lemma_not_same(canon_spec(4).name_zh@, k, 0);
    book_5();
    book_6();
    lemma_not_same(canon_spec(6).name_zh@, k, 0);
    book_7();
    lemma_not_same(canon_spec(7).name_zh@, k, 0);
    book_8();
    book_9();
    book_10();
    book_11();
    book_12();
    book_13();
    book_14();
    book_15();
    lemma_not_eq_ic(canon_spec(15).osis@, k, 0);
    assert(first_book_match(k, 15) == first_book_match(k, 16));
    assert(first_book_match(k, 14) == first_book_match(k, 16));
    assert(first_book_match(k, 13) == first_book_match(k, 16));
    assert(first_book_match(k, 12) == first_book_match(k, 16));
    assert(first_book_match(k, 11) == first_book_match(k, 16));
    assert(first_book_match(k, 10) == first_book_match(k, 16));
    assert(first_book_match(k, 9) == first_book_match(k, 16));
    assert(first_book_match(k, 8) == first_book_match(k, 16));
    assert(first_book_match(k, 7) == first_book_match(k, 16));
    assert(first_book_match(k, 6) == first_book_match(k, 16));
    assert(first_book_match(k, 5) == first_book_match(k, 16));
    assert(first_book_match(k, 4) == first_book_match(k, 16));
    assert(first_book_match(k, 3) == first_book_match(k, 16));
    assert(first_book_match(k, 2) == first_book_match(k, 16));
    assert(first_book_match(k, 1) == first_book_match(k, 16));
    assert(first_book_match(k, 0) == first_book_match(k, 16));
}

#[verifier::rlimit(40)]
proof fn misses_osis_48_16()
    ensures
        first_book_match(canon_spec(48).osis@, 16) == first_book_match(canon_spec(48).osis@, 32),
{
    book_48();
    let k = canon_spec(48).osis@;
    book_16();
    book_17();
    lemma_not_eq_ic(canon_spec(17).osis@, k, 0);
    lemma_not_same(canon_spec(17).name_zh@, k, 0);
    lemma_not_eq_ic(canon_spec(17).name_en@, k, 0);
    book_18();
    book_19();
    book_20();
    lemma_not_same(canon_spec(20).name_zh@, k, 0);
    book_21();
    book_22();
    lemma_not_eq_ic(canon_spec(22).osis@, k, 0);
    book_23();
    lemma_not_eq_ic(canon_spec(23).osis@, k, 0);
    book_24();
    lemma_not_eq_ic(canon_spec(24).osis@, k, 0);
    book_25();
    book_26();
    lemma_not_eq_ic(canon_spec(26).osis@, k, 0);
    book_27();
    lemma_not_eq_ic(canon_spec(27).osis@, k, 0);
    book_28();
    lemma_not_same(canon_spec(28).name_zh@, k, 0);
    book_29();
    book_30();
    book_31();
    lemma_not_same(canon_spec(31).name_zh@, k, 0);
    assert(first_book_match(k, 31) == first_book_match(k, 32));
    assert(first_book_match(k, 30) == first_book_match(k, 32));
    assert(first_book_match(k, 29) == first_book_match(k, 32));
    assert(first_book_match(k, 28) == first_book_match(k, 32));
    assert(first_book_match(k, 27) == first_book_match(k, 32));
    assert(first_book_match(k, 26) == first_book_match(k, 32));
    assert(first_book_match(k, 25) == first_book_match(k, 32));
    assert(first_book_match(k, 24) == first_book_match(k, 32));
    assert(first_book_match(k, 23) == first_book_match(k, 32));
    assert(first_book_match(k, 22) == first_book_match(k, 32));
    assert(first_book_match(k, 21) == first_book_match(k, 32));
    assert(first_book_match(k, 20) == first_book_match(k, 32));
    assert(first_book_match(k, 19) == first_book_match(k, 32));
    assert(first_book_match(k, 18) == first_book_match(k, 32));
    assert(first_book_match(k, 17) == first_book_match(k, 32));
    assert(first_book_match(k, 16) == first_book_match(k, 32));
}

#[verifier::rlimit(40)]
proof fn misses_osis_48_32()
    ensures
        first_book_match(canon_spec(48).osis@, 32) == first_book_match(canon_spec(48).osis@, 48),
{
    book_48();
    let k = canon_spec(48).osis@;
    book_32();
    lemma_not_eq_ic(canon_spec(32).osis@, k, 0);
    lemma_not_same(canon_spec(32).name_zh@, k, 0);
    book_33();
    lemma_not_eq_ic(canon_spec(33).osis@, k, 0);
    lemma_not_same(canon_spec(33).name_zh@, k, 0);
    book_34();
    lemma_not_eq_ic(canon_spec(34).osis@, k, 0);
    book_35();
    book_36();
    lemma_not_eq_ic(canon_spec(36).osis@, k, 0);
    lemma_not_same(canon_spec(36).name_zh@, k, 0);
    book_37();
    book_38();
    lemma_not_eq_ic(canon_spec(38).osis@, k, 0);
    book_39();
    book_40();
    book_41();
    book_42();
    book_43();
    book_44();
    lemma_not_eq_ic(canon_spec(44).osis@, k, 0);
    lemma_not_same(canon_spec(44).name_zh@, k, 0);
    book_45();
    book_46();
    book_47();
    lemma_not_eq_ic(canon_spec(47).osis@, k, 0);
    assert(first_book_match(k, 47) == first_book_match(k, 48));
    assert(first_book_match(k, 46) == first_book_match(k, 48));
    assert(first_book_match(k, 45) == first_book_match(k, 48));
    assert(first_book_match(k, 44) == first_book_match(k, 48));
    assert(first_book_match(k, 43) == first_book_match(k, 48));
    assert(first_book_match(k, 42) == first_book_match(k, 48));
    assert(first_book_match(k, 41) == first_book_match(k, 48));
    assert(first_book_match(k, 40) == first_book_match(k, 48));
    assert(first_book_match(k, 39) == first_book_match(k, 48));
    assert(first_book_match(k, 38) == first_book_match(k, 48));
    assert(first_book_match(k, 37) == first_book_match(k, 48));
    assert(first_book_match(k, 36) == first_book_match(k, 48));
    assert(first_book_match(k, 35) == first_book_match(k, 48));
    assert(first_book_match(k, 34) == first_book_match(k, 48));
    assert(first_book_match(k, 33) == first_book_match(k, 48));
    assert(first_book_match(k, 32) == first_book_match(k, 48));
}

proof fn found_by_osis_48()
    ensures
        lookup_canon_spec(canon_spec(48).osis@) == Some(canon_spec(48)),
{
    book_48();
    let k = canon_spec(48).osis@;
    lemma_plain_key(k);
    lemma_not_number(k, 0);
    misses_osis_48_0();
    misses_osis_48_16();
    misses_osis_48_32();
    assert(first_book_match(k, 48) == Some(48int));
}

#[verifier::rlimit(40)]
proof fn misses_abbreviation_48_0()
    ensures
        first_book_match(canon_spec(48).name_zh_short@, 0) == first_book_match(canon_spec(48).name_zh_short@, 16),
{
    book_48();
    let k = canon_spec(48).name_zh_short@;
    book_0();
    lemma_not_same(canon_spec(0).name_zh_short@, k, 0);
    book_1();
    lemma_not_same(canon_spec(1).name_zh_short@, k, 0);
    book_2();
    lemma_not_same(canon_spec(2).name_zh_short@, k, 0);
    book_3();
    lemma_not_same(canon_spec(3).name_zh_short@, k, 0);
    book_4();
    lemma_not_same(canon_spec(4).name_zh_short@, k, 0);
    book_5();
    lemma_not_same(canon_spec(5).name_zh_short@, k, 0);
    book_6();
    lemma_not_same(canon_spec(6).name_zh_short@, k, 0);
    book_7();
    lemma_not_same(canon_spec(7).name_zh_short@, k, 0);
    book_8();
    book_9();
    book_10();
    book_11();
    book_12();
    book_13();
    book_14();
    lemma_not_same(canon_spec(14).name_zh_short@, k, 0);
    book_15();
    lemma_not_same(canon_spec(15).name_zh_short@, k, 0);
    assert(first_book_match(k, 15) == first_book_match(k, 16));
    assert(first_book_match(k, 14) == first_book_match(k, 16));
    assert(first_book_match(k, 13) == first_book_match(k, 16));
    assert(first_book_match(k, 12) == first_book_match(k, 16));
    assert(first_book_match(k, 11) == first_book_match(k, 16));
    assert(first_book_match(k, 10) == first_book_match(k, 16));
    assert(first_book_match(k, 9) == first_book_match(k, 16));
    assert(first_book_match(k, 8) == first_book_match(k, 16));
    assert(first_book_match(k, 7) == first_book_match(k, 16));
    assert(first_book_match(k, 6) == first_book_match(k, 16));
    assert(first_book_match(k, 5) == first_book_match(k, 16));
    assert(first_book_match(k, 4) == first_book_match(k, 16));
    assert(first_book_match(k, 3) == first_book_match(k, 16));
    assert(first_book_match(k, 2) == first_book_match(k, 16));
    assert(first_book_match(k, 1) == first_book_match(k, 16));
    assert(first_book_match(k, 0) == first_book_match(k, 16));
}

#[verifier::rlimit(40)]
proof fn misses_abbreviation_48_16()
    ensures
        first_book_match(canon_spec(48).name_zh_short@, 16) == first_book_match(canon_spec(48).name_zh_short@, 32),
{
    book_48();
    let k = canon_spec(48).name_zh_short@;
    book_16();
    lemma_not_same(canon_spec(16).name_zh_short@, k, 0);
    book_17();
    lemma_not_same(canon_spec(17).name_zh_short@, k, 0);
    book_18();
    lemma_not_same(canon_spec(18).name_zh_short@, k, 0);
    book_19();
    lemma_not_same(canon_spec(19).name_zh_short@, k, 0);
    book_20();
    lemma_not_same(canon_spec(20).name_zh_short@, k, 0);
    book_21();
    lemma_not_same(canon_spec(21).name_zh_short@, k, 0);
    book_22();
    lemma_not_same(canon_spec(22).name_zh_short@, k, 0);
    book_23();
    lemma_not_same(canon_spec(23).name_zh_short@, k, 0);
    book_24();
    lemma_not_same(canon_spec(24).name_zh_short@, k, 0);
    book_25();
    lemma_not_same(canon_spec(25).name_zh_short@, k, 0);
    book_26();
    lemma_not_same(canon_spec(26).name_zh_short@, k, 0);
    book_27();
    lemma_not_same(canon_spec(27).name_zh_short@, k, 0);
    book_28();
    lemma_not_same(canon_spec(28).name_zh_short@, k, 0);
    book_29();
    lemma_not_same(canon_spec(29).name_zh_short@, k, 0);
    book_30();
    lemma_not_same(canon_spec(30).name_zh_short@, k, 0);
    book_31();
    lemma_not_same(canon_spec(31).name_zh_short@, k, 0);
    assert(first_book_match(k, 31) == first_book_match(k, 32));
    assert(first_book_match(k, 30) == first_book_match(k, 32));
    assert(first_book_match(k, 29) == first_book_match(k, 32));
    assert(first_book_match(k, 28) == first_book_match(k, 32));
    assert(first_book_match(k, 27) == first_book_match(k, 32));
    assert(first_book_match(k, 26) == first_book_match(k, 32));
    assert(first_book_match(k, 25) == first_book_match(k, 32));
    assert(first_book_match(k, 24) == first_book_match(k, 32));
    assert(first_book_match(k, 23) == first_book_match(k, 32));
    assert(first_book_match(k, 22) == first_book_match(k, 32));
    assert(first_book_match(k, 21) == first_book_match(k, 32));
    assert(first_book_match(k, 20) == first_book_match(k, 32));
    assert(first_book_match(k, 19) == first_book_match(k, 32));
    assert(first_book_match(k, 18) == first_book_match(k, 32));
    assert(first_book_match(k, 17) == first_book_match(k, 32));
    assert(first_book_match(k, 16) == first_book_match(k, 32));
}

#[verifier::rlimit(40)]
proof fn misses_abbreviation_48_32()
    ensures
        first_book_match(canon_spec(48).name_zh_short@, 32) == first_book_match(canon_spec(48).name_zh_short@, 48),
{
    book_48();
    let k = canon_spec(48).name_zh_short@;
    book_32();
    lemma_not_same(canon_spec(32).name_zh_short@, k, 0);
    book_33();
    lemma_not_same(canon_spec(33).name_zh_short@, k, 0);
    book_34();
    lemma_not_same(canon_spec(34).name_zh_short@, k, 0);
    book_35();
    lemma_not_same(canon_spec(35).name_zh_short@, k, 0);
    book_36();
    lemma_not_same(canon_spec(36).name_zh_short@, k, 0);
    book_37();
    lemma_not_same(canon_spec(37).name_zh_short@, k, 0);
    book_38();
    lemma_not_same(canon_spec(38).name_zh_short@, k, 0);
    book_39();
    lemma_not_same(canon_spec(39).name_zh_short@, k, 0);
    book_40();
    lemma_not_same(canon_spec(40).name_zh_short@, k, 0);
    book_41();
    lemma_not_same(canon_spec(41).name_zh_short@, k, 0);
    book_42();
    lemma_not_same(canon_spec(42).name_zh_short@, k, 0);
    book_43();
    lemma_not_same(canon_spec(43).name_zh_short@, k, 0);
    book_44();
    lemma_not_same(canon_spec(44).name_zh_short@, k, 0);
    book_45();
    book_46();
    book_47();
    lemma_not_same(canon_spec(47).name_zh_short@, k, 0);
    assert(first_book_match(k, 47) == first_book_match(k, 48));
    assert(first_book_match(k, 46) == first_book_match(k, 48));
    assert(first_book_match(k, 45) == first_book_match(k, 48));
    assert(first_book_match(k, 44) == first_book_match(k, 48));
    assert(first_book_match(k, 43) == first_book_match(k, 48));
    assert(first_book_match(k, 42) == first_book_match(k, 48));
    assert(first_book_match(k, 41) == first_book_match(k, 48));
    assert(first_book_match(k, 40) == first_book_match(k, 48));
    assert(first_book_match(k, 39) == first_book_match(k, 48));
    assert(first_book_match(k, 38) == first_book_match(k, 48));
    assert(first_book_match(k, 37) == first_book_match(k, 48));
    assert(first_book_match(k, 36) == first_book_match(k, 48));
    assert(first_book_match(k, 35) == first_book_match(k, 48));
    assert(first_book_match(k, 34) == first_book_match(k, 48));
    assert(first_book_match(k, 33) == first_book_match(k, 48));
    assert(first_book_match(k, 32) == first_book_match(k, 48));
}

proof fn found_by_abbreviation_48()
    ensures
        lookup_canon_spec(canon_spec(48).name_zh_short@) == Some(canon_spec(48)),
{
    book_48();
    let k = canon_spec(48).name_zh_short@;
    lemma_plain_key(k);
    lemma_not_number(k, 0);
    misses_abbreviation_48_0();
    misses_abbreviation_48_16();
    misses_abbreviation_48_32();
    assert(first_book_match(k, 48) == Some(48int));
}

#[verifier::rlimit(40)]
proof fn misses_english_48_0()
    ensures
        first_book_match(canon_spec(48).name_en@, 0) == first_book_match(canon_spec(48).name_en@, 16),
{
    book_48();
    let k = canon_spec(48).name_en@;
    book_0();
    book_1();
    book_2();
    lemma_not_eq_ic(canon_spec(2).name_en@, k, 0);
    book_3();
    book_4();
    book_5();
    book_6();
    book_7();
    book_8();
    book_9();
    book_10();
    book_11();
    book_12();
    book_13();
    book_14();
    book_15();
    assert(first_book_match(k, 15) == first_book_match(k, 16));
    assert(first_book_match(k, 14) == first_book_match(k, 16));
    assert(first_book_match(k, 13) == first_book_match(k, 16));
    assert(first_book_match(k, 12) == first_book_match(k, 16));
    assert(first_book_match(k, 11) == first_book_match(k, 16));
    assert(first_book_match(k, 10) == first_book_match(k, 16));
    assert(first_book_match(k, 9) == first_book_match(k, 16));
    assert(first_book_match(k, 8) == first_book_match(k, 16));
    assert(first_book_match(k, 7) == first_book_match(k, 16));
    assert(first_book_match(k, 6) == first_book_match(k, 16));
    assert(first_book_match(k, 5) == first_book_match(k, 16));
    assert(first_book_match(k, 4) == first_book_match(k, 16));
    assert(first_book_match(k, 3) == first_book_match(k, 16));
    assert(first_book_match(k, 2) == first_book_match(k, 16));
    assert(first_book_match(k, 1) == first_book_match(k, 16));
    assert(first_book_match(k, 0) == first_book_match(k, 16));
}

#[verifier::rlimit(40)]
proof fn misses_english_48_16()
    ensures
        first_book_match(canon_spec(48).name_en@, 16) == first_book_match(canon_spec(48).name_en@, 32),
{
    book_48();
    let k = canon_spec(48).name_en@;
    book_16();
    book_17();
    book_18();
    book_19();
    book_20();
    book_21();
    book_22();
    book_23();
    book_24();
    book_25();
    book_26();
    book_27();
    book_28();
    book_29();
    book_30();
    book_31();
    assert(first_book_match(k, 31) == first_book_match(k, 32));
    assert(first_book_match(k, 30) == first_book_match(k, 32));
    assert(first_book_match(k, 29) == first_book_match(k, 32));
    assert(first_book_match(k, 28) == first_book_match(k, 32));
    assert(first_book_match(k, 27) == first_book_match(k, 32));
    assert(first_book_match(k, 26) == first_book_match(k, 32));
    assert(first_book_match(k, 25) == first_book_match(k, 32));
    assert(first_book_match(k, 24) == first_book_match(k, 32));
    assert(first_book_match(k, 23) == first_book_match(k, 32));
    assert(first_book_match(k, 22) == first_book_match(k, 32));
    assert(first_book_match(k, 21) == first_book_match(k, 32));
    assert(first_book_match(k, 20) == first_book_match(k, 32));
    assert(first_book_match(k, 19) == first_book_match(k, 32));
    assert(first_book_match(k, 18) == first_book_match(k, 32));
    assert(first_book_match(k, 17) == first_book_match(k, 32));
    assert(first_book_match(k, 16) == first_book_match(k, 32));
}

#[verifier::rlimit(40)]
proof fn misses_english_48_32()
    ensures
        first_book_match(canon_spec(48).name_en@, 32) == first_book_match(canon_spec(48).name_en@, 48),
{
    book_48();
    let k = canon_spec(48).name_en@;
    book_32();
    book_33();
    book_34();
    book_35();
    lemma_not_eq_ic(canon_spec(35).name_en@, k, 0);
    book_36();
    book_37();
    lemma_not_eq_ic(canon_spec(37).name_en@, k, 0);
    book_38();
    book_39();
    book_40();
    book_41();
    book_42();
    book_43();
    book_44();
    book_45();
    book_46();
    book_47();
    lemma_not_eq_ic(canon_spec(47).name_en@, k, 0);
    assert(first_book_match(k, 47) == first_book_match(k, 48));
    assert(first_book_match(k, 46) == first_book_match(k, 48));
    assert(first_book_match(k, 45) == first_book_match(k, 48));
    assert(first_book_match(k, 44) == first_book_match(k, 48));
    assert(first_book_match(k, 43) == first_book_match(k, 48));
    assert(first_book_match(k, 42) == first_book_match(k, 48));
    assert(first_book_match(k, 41) == first_book_match(k, 48));
    assert(first_book_match(k, 40) == first_book_match(k, 48));
    assert(first_book_match(k, 39) == first_book_match(k, 48));
    assert(first_book_match(k, 38) == first_book_match(k, 48));
    assert(first_book_match(k, 37) == first_book_match(k, 48));
    assert(first_book_match(k, 36) == first_book_match(k, 48));
    assert(first_book_match(k, 35) == first_book_match(k, 48));
    assert(first_book_match(k, 34) == first_book_match(k, 48));
    assert(first_book_match(k, 33) == first_book_match(k, 48));
    assert(first_book_match(k, 32) == first_book_match(k, 48));
}

proof fn found_by_english_48()
    ensures
        lookup_canon_spec(canon_spec(48).name_en@) == Some(canon_spec(48)),
{
    book_48();
    let k = canon_spec(48).name_en@;
    lemma_plain_key(k);
    lemma_not_number(k, 0);
    misses_english_48_0();
    misses_english_48_16();
    misses_english_48_32();
    assert(first_book_match(k, 48) == Some(48int));
}

#[verifier::rlimit(40)]
proof fn misses_osis_49_0()
    ensures
        first_book_match(canon_spec(49).osis@, 0) == first_book_match(canon_spec(49).osis@, 16),
{
    book_49();
    let k = canon_spec(49).osis@;
    book_0();
    book_1();
    lemma_not_eq_ic(canon_spec(1).osis@, k, 0);
    lemma_not_same(canon_spec(1).name_zh@, k, 0);
    book_2();
    book_3();
    book_4();
    lemma_not_eq_ic(canon_spec(4).osis@, k, 0);
    book_5();
    lemma_not_eq_ic(canon_spec(5).osis@, k, 0);
    lemma_not_same(canon_spec(5).name_zh@, k, 0);
    book_6();
    lemma_not_eq_ic(canon_spec(6).osis@, k, 0);
    book_7();
    lemma_not_eq_ic(canon_spec(7).osis@, k, 0);
    lemma_not_eq_ic(canon_spec(7).name_en@, k, 0);
    book_8();
    lemma_not_eq_ic(canon_spec(8).osis@, k, 0);
    book_9();
    lemma_not_eq_ic(canon_spec(9).osis@, k, 0);
    book_10();
    lemma_not_eq_ic(canon_spec(10).osis@, k, 0);
    lemma_not_same(canon_spec(10).name_zh@, k, 0);
    book_11();
    lemma_not_eq_ic(canon_spec(11).osis@, k, 0);
    lemma_not_same(canon_spec(11).name_zh@, k, 0);
    book_12();
    lemma_not_eq_ic(canon_spec(12).osis@, k, 0);
    lemma_not_same(canon_spec(12).name_zh@, k, 0);
    book_13();
    lemma_not_eq_ic(canon_spec(13).osis@, k, 0);
    lemma_not_same(canon_spec(13).name_zh@, k, 0);
    book_14();
    lemma_not_eq_ic(canon_spec(14).osis@, k, 0);
    lemma_not_same(canon_spec(14).name_zh@, k, 0);
    lemma_not_eq_ic(canon_spec(14).name_en@, k, 0);
    book_15();
    lemma_not_same(canon_spec(15).name_zh@, k, 0);
    assert(first_book_match(k, 15) == first_book_match(k, 16));
    assert(first_book_match(k, 14) == first_book_match(k, 16));
    assert(first_book_match(k, 13) == first_book_match(k, 16));
    assert(first_book_match(k, 12) == first_book_match(k, 16));
    assert(first_book_match(k, 11) == first_book_match(k, 16));
    assert(first_book_match(k, 10) == first_book_match(k, 16));
    assert(first_book_match(k, 9) == first_book_match(k, 16));
    assert(first_book_match(k, 8) == first_book_match(k, 16));
    assert(first_book_match(k, 7) == first_book_match(k, 16));
    assert(first_book_match(k, 6) == first_book_match(k, 16));
    assert(first_book_match(k, 5) == first_book_match(k, 16));
    assert(first_book_match(k, 4) == first_book_match(k, 16));
    assert(first_book_match(k, 3) == first_book_match(k, 16));
    assert(first_book_match(k, 2) == first_book_match(k, 16));
    assert(first_book_match(k, 1) == first_book_match(k, 16));
    assert(first_book_match(k, 0) == first_book_match(k, 16));
}

#[verifier::rlimit(40)]
proof fn misses_osis_49_16()
    ensures
        first_book_match(canon_spec(49).osis@, 16) == first_book_match(canon_spec(49).osis@, 32),
{
    book_49();
    let k = canon_spec(49).osis@;
    book_16();
    lemma_not_eq_ic(canon_spec(16).osis@, k, 0);
    lemma_not_same(canon_spec(16).name_zh@, k, 0);
    book_17();
    book_18();
    book_19();
    lemma_not_eq_ic(canon_spec(19).osis@, k, 1);
    book_20();
    lemma_not_eq_ic(canon_spec(20).osis@, k, 0);
    book_21();
    lemma_not_eq_ic(canon_spec(21).osis@, k, 0);
    book_22();
    lemma_not_same(canon_spec(22).name_zh@, k, 0);
    book_23();
    lemma_not_same(canon_spec(23).name_zh@, k, 0);
    book_24();
    book_25();
    lemma_not_eq_ic(canon_spec(25).osis@, k, 0);
    lemma_not_same(canon_spec(25).name_zh@, k, 0);
    book_26();
    lemma_not_same(canon_spec(26).name_zh@, k, 0);
    book_27();
    lemma_not_same(canon_spec(27).name_zh@, k, 0);
    book_28();
    lemma_not_eq_ic(canon_spec(28).osis@, k, 0);
    lemma_not_eq_ic(canon_spec(28).name_en@, k, 0);
    book_29();
    lemma_not_eq_ic(canon_spec(29).osis@, k, 0);
    lemma_not_same(canon_spec(29).name_zh@, k, 0);
    lemma_not_eq_ic(canon_spec(29).name_en@, k, 0);
    book_30();
    lemma_not_eq_ic(canon_spec(30).osis@, k, 0);
    book_31();
    assert(first_book_match(k, 31) == first_book_match(k, 32));
    assert(first_book_match(k, 30) == first_book_match(k, 32));
    assert(first_book_match(k, 29) == first_book_match(k, 32));
    assert(first_book_match(k, 28) == first_book_match(k, 32));
    assert(first_book_match(k, 27) == first_book_match(k, 32));
    assert(first_book_match(k, 26) == first_book_match(k, 32));
    assert(first_book_match(k, 25) == first_book_match(k, 32));
    assert(first_book_match(k, 24) == first_book_match(k, 32));
    assert(first_book_match(k, 23) == first_book_match(k, 32));
    assert(first_book_match(k, 22) == first_book_match(k, 32));
    assert(first_book_match(k, 21) == first_book_match(k, 32));
    assert(first_book_match(k, 20) == first_book_match(k, 32));
    assert(first_book_match(k, 19) == first_book_match(k, 32));
    assert(first_book_match(k, 18) == first_book_match(k, 32));
    assert(first_book_match(k, 17) == first_book_match(k, 32));
    assert(first_book_match(k, 16) == first_book_match(k, 32));
}

#[verifier::rlimit(40)]
proof fn misses_osis_49_32()
    ensures
        first_book_match(canon_spec(49).osis@, 32) == first_book_match(canon_spec(49).osis@, 48),
{
    book_49();
    let k = canon_spec(49).osis@;
    book_32();
    book_33();
    book_34();
    lemma_not_same(canon_spec(34).name_zh@, k, 0);
    book_35();
    lemma_not_eq_ic(canon_spec(35).osis@, k, 0);
    lemma_not_same(canon_spec(35).name_zh@, k, 0);
    book_36();
    book_37();
    lemma_not_eq_ic(canon_spec(37).osis@, k, 0);
    book_38();
    lemma_not_same(canon_spec(38).name_zh@, k, 0);
    book_39();
    lemma_not_eq_ic(canon_spec(39).osis@, k, 0);
    lemma_not_same(canon_spec(39).name_zh@, k, 0);
    book_40();
    lemma_not_eq_ic(canon_spec(40).osis@, k, 0);
    lemma_not_same(canon_spec(40).name_zh@, k, 0);
    lemma_not_eq_ic(canon_spec(40).name_en@, k, 0);
    book_41();
    lemma_not_eq_ic(canon_spec(41).osis@, k, 0);
    lemma_not_same(canon_spec(41).name_zh@, k, 0);
    lemma_not_eq_ic(canon_spec(41).name_en@, k, 0);
    book_42();
    lemma_not_eq_ic(canon_spec(42).osis@, k, 0);
    lemma_not_same(canon_spec(42).name_zh@, k, 0);
    lemma_not_eq_ic(canon_spec(42).name_en@, k, 0);
    book_43();
    lemma_not_eq_ic(canon_spec(43).osis@, k, 0);
    lemma_not_same(canon_spec(43).name_zh@, k, 0);
    lemma_not_eq_ic(canon_spec(43).name_en@, k, 0);
    book_44();
    book_45();
    lemma_not_eq_ic(canon_spec(45).osis@, k, 0);
    book_46();
    lemma_not_eq_ic(canon_spec(46).osis@, k, 0);
    book_47();
    lemma_not_same(canon_spec(47).name_zh@, k, 0);
    assert(first_book_match(k, 47) == first_book_match(k, 48));
    assert(first_book_match(k, 46) == first_book_match(k, 48));
    assert(first_book_match(k, 45) == first_book_match(k, 48));
    assert(first_book_match(k, 44) == first_book_match(k, 48));
    assert(first_book_match(k, 43) == first_book_match(k, 48));
    assert(first_book_match(k, 42) == first_book_match(k, 48));
    assert(first_book_match(k, 41) == first_book_match(k, 48));
    assert(first_book_match(k, 40) == first_book_match(k, 48));
    assert(first_book_match(k, 39) == first_book_match(k, 48));
    assert(first_book_match(k, 38) == first_book_match(k, 48));
    assert(first_book_match(k, 37) == first_book_match(k, 48));
    assert(first_book_match(k, 36) == first_book_match(k, 48));
    assert(first_book_match(k, 35) == first_book_match(k, 48));
    assert(first_book_match(k, 34) == first_book_match(k, 48));
    assert(first_book_match(k, 33) == first_book_match(k, 48));
    assert(first_book_match(k, 32) == first_book_match(k, 48));
}

#[verifier::rlimit(40)]
proof fn misses_osis_49_48()
    ensures
        first_book_match(canon_spec(49).osis@, 48) == first_book_match(canon_spec(49).osis@, 49),
{
    book_49();
    let k = canon_spec(49).osis@;
    book_48();
    lemma_not_same(canon_spec(48).name_zh@, k, 0);
    assert(first_book_match(k, 48) == first_book_match(k, 49));
}

proof fn found_by_osis_49()
    ensures
        lookup_canon_spec(canon_spec(49).osis@) == Some(canon_spec(49)),
{
    book_49();
    let k = canon_spec(49).osis@;
    lemma_plain_key(k);
    lemma_not_number(k, 0);
    misses_osis_49_0();
    misses_osis_49_16();
    misses_osis_49_32();
    misses_osis_49_48();
    assert(first_book_match(k, 49) == Some(49int));
}

#[verifier::rlimit(40)]
proof fn misses_abbreviation_49_0()
    ensures
        first_book_match(canon_spec(49).name_zh_short@, 0) == first_book_match(canon_spec(49).name_zh_short@, 16),
{
    book_49();
    let k = canon_spec(49).name_zh_short@;
    book_0();
    lemma_not_same(canon_spec(0).name_zh_short@, k, 0);
    book_1();
    lemma_not_same(canon_spec(1).name_zh_short@, k, 0);
    book_2();
    lemma_not_same(canon_spec(2).name_zh_short@, k, 0);
    book_3();
    lemma_not_same(canon_spec(3).name_zh_short@, k, 0);
    book_4();
    lemma_not_same(canon_spec(4).name_zh_short@, k, 0);
    book_5();
    lemma_not_same(canon_spec(5).name_zh_short@, k, 0);
    book_6();
    lemma_not_same(canon_spec(6).name_zh_short@, k, 0);
    book_7();
    lemma_not_same(canon_spec(7).name_zh_short@, k, 0);
    book_8();
    book_9();
    book_10();
    book_11();
    book_12();
    book_13();
    book_14();
    lemma_not_same(canon_spec(14).name_zh_short@, k, 0);
    book_15();
    lemma_not_same(canon_spec(15).name_zh_short@, k, 0);
    assert(first_book_match(k, 15) == first_book_match(k, 16));
    assert(first_book_match(k, 14) == first_book_match(k, 16));
    assert(first_book_match(k, 13) == first_book_match(k, 16));
    assert(first_book_match(k, 12) == first_book_match(k, 16));
    assert(first_book_match(k, 11) == first_book_match(k, 16));
    assert(first_book_match(k, 10) == first_book_match(k, 16));
    assert(first_book_match(k, 9) == first_book_match(k, 16));
    assert(first_book_match(k, 8) == first_book_match(k, 16));
    assert(first_book_match(k, 7) == first_book_match(k, 16));
    assert(first_book_match(k, 6) == first_book_match(k, 16));
    assert(first_book_match(k, 5) == first_book_match(k, 16));
    assert(first_book_match(k, 4) == first_book_match(k, 16));
    assert(first_book_match(k, 3) == first_book_match(k, 16));
    assert(first_book_match(k, 2) == first_book_match(k, 16));
    assert(first_book_match(k, 1) == first_book_match(k, 16));
    assert(first_book_match(k, 0) == first_book_match(k, 16));
}

#[verifier::rlimit(40)]
proof fn misses_abbreviation_49_16()
    ensures
        first_book_match(canon_spec(49).name_zh_short@, 16) == first_book_match(canon_spec(49).name_zh_short@, 32),
{
    book_49();
    let k = canon_spec(49).name_zh_short@;
    book_16();
    lemma_not_same(canon_spec(16).name_zh_short@, k, 0);
    book_17();
    lemma_not_same(canon_spec(17).name_zh_short@, k, 0);
    book_18();
    lemma_not_same(canon_spec(18).name_zh_short@, k, 0);
    book_19();
    lemma_not_same(canon_spec(19).name_zh_short@, k, 0);
    book_20();
    lemma_not_same(canon_spec(20).name_zh_short@, k, 0);
    book_21();
    lemma_not_same(canon_spec(21).name_zh_short@, k, 0);
    book_22();
    lemma_not_same(canon_spec(22).name_zh_short@, k, 0);
    book_23();
    lemma_not_same(canon_spec(23).name_zh_short@, k, 0);
    book_24();
    lemma_not_same(canon_spec(24).name_zh_short@, k, 0);
    book_25();
    lemma_not_same(canon_spec(25).name_zh_short@, k, 0);
    book_26();
    lemma_not_same(canon_spec(26).name_zh_short@, k, 0);
    book_27();
    lemma_not_same(canon_spec(27).name_zh_short@, k, 0);
    book_28();
    lemma_not_same(canon_spec(28).name_zh_short@, k, 0);
    book_29();
    lemma_not_same(canon_spec(29).name_zh_short@, k, 0);
    book_30();
    lemma_not_same(canon_spec(30).name_zh_short@, k, 0);
    book_31();
    lemma_not_same(canon_spec(31).name_zh_short@, k, 0);
    assert(first_book_match(k, 31) == first_book_match(k, 32));
    assert(first_book_match(k, 30) == first_book_match(k, 32));
    assert(first_book_match(k, 29) == first_book_match(k, 32));
    assert(first_book_match(k, 28) == first_book_match(k, 32));
    assert(first_book_match(k, 27) == first_book_match(k, 32));
    assert(first_book_match(k, 26) == first_book_match(k, 32));
    assert(first_book_match(k, 25) == first_book_match(k, 32));
    assert(first_book_match(k, 24) == first_book_match(k, 32));
    assert(first_book_match(k, 23) == first_book_match(k, 32));
    assert(first_book_match(k, 22) == first_book_match(k, 32));
    assert(first_book_match(k, 21) == first_book_match(k, 32));
    assert(first_book_match(k, 20) == first_book_match(k, 32));
    assert(first_book_match(k, 19) == first_book_match(k, 32));
    assert(first_book_match(k, 18) == first_book_match(k, 32));
    assert(first_book_match(k, 17) == first_book_match(k, 32));
    assert(first_book_match(k, 16) == first_book_match(k, 32));
}

#[verifier::rlimit(40)]
proof fn misses_abbreviation_49_32()
    ensures
        first_book_match(canon_spec(49).name_zh_short@, 32) == first_book_match(canon_spec(49).name_zh_short@, 48),
{
    book_49();
    let k = canon_spec(49).name_zh_short@;
    book_32();
    lemma_not_same(canon_spec(32).name_zh_short@, k, 0);
    book_33();
    lemma_not_same(canon_spec(33).name_zh_short@, k, 0);
    book_34();
    lemma_not_same(canon_spec(34).name_zh_short@, k, 0);
    book_35();
    lemma_not_same(canon_spec(35).name_zh_short@, k, 0);
    book_36();
    lemma_not_same(canon_spec(36).name_zh_short@, k, 0);
    book_37();
    lemma_not_same(canon_spec(37).name_zh_short@, k, 0);
    book_38();
    lemma_not_same(canon_spec(38).name_zh_short@, k, 0);
    book_39();
    lemma_not_same(canon_spec(39).name_zh_short@, k, 0);
    book_40();
    lemma_not_same(canon_spec(40).name_zh_short@, k, 0);
    book_41();
    lemma_not_same(canon_spec(41).name_zh_short@, k, 0);
    book_42();
    lemma_not_same(canon_spec(42).name_zh_short@, k, 0);
    book_43();
    lemma_not_same(canon_spec(43).name_zh_short@, k, 0);
    book_44();
    lemma_not_same(canon_spec(44).name_zh_short@, k, 0);
    book_45();
    book_46();
    book_47();
    lemma_not_same(canon_spec(47).name_zh_short@, k, 0);
    assert(first_book_match(k, 47) == first_book_match(k, 48));
    assert(first_book_match(k, 46) == first_book_match(k, 48));
    assert(first_book_match(k, 45) == first_book_match(k, 48));
    assert(first_book_match(k, 44) == first_book_match(k, 48));
    assert(first_book_match(k, 43) == first_book_match(k, 48));
    assert(first_book_match(k, 42) == first_book_match(k, 48));
    assert(first_book_match(k, 41) == first_book_match(k, 48));
    assert(first_book_match(k, 40) == first_book_match(k, 48));
    assert(first_book_match(k, 39) == first_book_match(k, 48));
    assert(first_book_match(k, 38) == first_book_match(k, 48));
    assert(first_book_match(k, 37) == first_book_match(k, 48));
    assert(first_book_match(k, 36) == first_book_match(k, 48));
    assert(first_book_match(k, 35) == first_book_match(k, 48));
    assert(first_book_match(k, 34) == first_book_match(k, 48));
    assert(first_book_match(k, 33) == first_book_match(k, 48));
    assert(first_book_match(k, 32) == first_book_match(k, 48));
}

#[verifier::rlimit(40)]
proof fn misses_abbreviation_49_48()
    ensures
        first_book_match(canon_spec(49).name_zh_short@, 48) == first_book_match(canon_spec(49).name_zh_short@, 49),
{
    book_49();
    let k = canon_spec(49).name_zh_short@;
    book_48();
    lemma_not_same(canon_spec(48).name_zh_short@, k, 0);
    assert(first_book_match(k, 48) == first_book_match(k, 49));
}

proof fn found_by_abbreviation_49()
    ensures
        lookup_canon_spec(canon_spec(49).name_zh_short@) == Some(canon_spec(49)),
{
    book_49();
    let k = canon_spec(49).name_zh_short@;
    lemma_plain_key(k);
    lemma_not_number(k, 0);
    misses_abbreviation_49_0();
    misses_abbreviation_49_16();
    misses_abbreviation_49_32();
    misses_abbreviation_49_48();
    assert(first_book_match(k, 49) == Some(49int));
}

#[verifier::rlimit(40)]
proof fn misses_english_49_0()
    ensures
        first_book_match(canon_spec(49).name_en@, 0) == first_book_match(canon_spec(49).name_en@, 16),
{
    book_49();
    let k = canon_spec(49).name_en@;
    book_0();
    book_1();
    book_2();
    book_3();
    book_4();
    lemma_not_eq_ic(canon_spec(4).name_en@, k, 0);
    book_5();
    book_6();
    book_7();
    book_8();
    book_9();
    book_10();
    book_11();
    book_12();
    book_13();
    book_14();
    book_15();
    assert(first_book_match(k, 15) == first_book_match(k, 16));
    assert(first_book_match(k, 14) == first_book_match(k, 16));
    assert(first_book_match(k, 13) == first_book_match(k, 16));
    assert(first_book_match(k, 12) == first_book_match(k, 16));
    assert(first_book_match(k, 11) == first_book_match(k, 16));
    assert(first_book_match(k, 10) == first_book_match(k, 16));
    assert(first_book_match(k, 9) == first_book_match(k, 16));
    assert(first_book_match(k, 8) == first_book_match(k, 16));
    assert(first_book_match(k, 7) == first_book_match(k, 16));
    assert(first_book_match(k, 6) == first_book_match(k, 16));
    assert(first_book_match(k, 5) == first_book_match(k, 16));
    assert(first_book_match(k, 4) == first_book_match(k, 16));
    assert(first_book_match(k, 3) == first_book_match(k, 16));
    assert(first_book_match(k, 2) == first_book_match(k, 16));
    assert(first_book_match(k, 1) == first_book_match(k, 16));
    assert(first_book_match(k, 0) == first_book_match(k, 16));
}

#[verifier::rlimit(40)]
proof fn misses_english_49_16()
    ensures
        first_book_match(canon_spec(49).name_en@, 16) == first_book_match(canon_spec(49).name_en@, 32),
{
    book_49();
    let k = canon_spec(49).name_en@;
    book_16();
    book_17();
    book_18();
    book_19();
    book_20();
    book_21();
    book_22();
    book_23();
    book_24();
    book_25();
    book_26();
    book_27();
    book_28();
    book_29();
    book_30();
    book_31();
    assert(first_book_match(k, 31) == first_book_match(k, 32));
    assert(first_book_match(k, 30) == first_book_match(k, 32));
    assert(first_book_match(k, 29) == first_book_match(k, 32));
    assert(first_book_match(k, 28) == first_book_match(k, 32));
    assert(first_book_match(k, 27) == first_book_match(k, 32));
    assert(first_book_match(k, 26) == first_book_match(k, 32));
    assert(first_book_match(k, 25) == first_book_match(k, 32));
    assert(first_book_match(k, 24) == first_book_match(k, 32));
    assert(first_book_match(k, 23) == first_book_match(k, 32));
    assert(first_book_match(k, 22) == first_book_match(k, 32));
    assert(first_book_match(k, 21) == first_book_match(k, 32));
    assert(first_book_match(k, 20) == first_book_match(k, 32));
    assert(first_book_match(k, 19) == first_book_match(k, 32));
    assert(first_book_match(k, 18) == first_book_match(k, 32));
    assert(first_book_match(k, 17) == first_book_match(k, 32));
    assert(first_book_match(k, 16) == first_book_match(k, 32));
}

#[verifier::rlimit(40)]
proof fn misses_english_49_32()
    ensures
        first_book_match(canon_spec(49).name_en@, 32) == first_book_match(canon_spec(49).name_en@, 48),
{
    book_49();
    let k = canon_spec(49).name_en@;
    book_32();
    book_33();
    book_34();
    book_35();
    book_36();
    book_37();
    book_38();
    book_39();
    book_40();
    book_41();
    book_42();
    book_43();
    book_44();
    book_45();
    book_46();
    book_47();
    assert(first_book_match(k, 47) == first_book_match(k, 48));
    assert(first_book_match(k, 46) == first_book_match(k, 48));
    assert(first_book_match(k, 45) == first_book_match(k, 48));
    assert(first_book_match(k, 44) == first_book_match(k, 48));
    assert(first_book_match(k, 43) == first_book_match(k, 48));
    assert(first_book_match(k, 42) == first_book_match(k, 48));
    assert(first_book_match(k, 41) == first_book_match(k, 48));
    assert(first_book_match(k, 40) == first_book_match(k, 48));
    assert(first_book_match(k, 39) == first_book_match(k, 48));
    assert(first_book_match(k, 38) == first_book_match(k, 48));
    assert(first_book_match(k, 37) == first_book_match(k, 48));
    assert(first_book_match(k, 36) == first_book_match(k, 48));
    assert(first_book_match(k, 35) == first_book_match(k, 48));
    assert(first_book_match(k, 34) == first_book_match(k, 48));
    assert(first_book_match(k, 33) == first_book_match(k, 48));
    assert(first_book_match(k, 32) == first_book_match(k, 48));
}

#[verifier::rlimit(40)]
proof fn misses_english_49_48()
    ensures
        first_book_match(canon_spec(49).name_en@, 48) == first_book_match(canon_spec(49).name_en@, 49),
{
    book_49();
    let k = canon_spec(49).name_en@;
    book_48();
    assert(first_book_match(k, 48) == first_book_match(k, 49));
}

proof fn found_by_english_49()
    ensures
        lookup_canon_spec(canon_spec(49).name_en@) == Some(canon_spec(49)),
{
    book_49();
    let k = canon_spec(49).name_en@;
    lemma_plain_key(k);
    lemma_not_number(k, 0);
    misses_english_49_0();
    misses_english_49_16();
    misses_english_49_32();
    misses_english_49_48();
    assert(first_book_match(k, 49) == Some(49int));
}

#[verifier::rlimit(40)]
proof fn misses_osis_50_0()
    ensures
        first_book_match(canon_spec(50).osis@, 0) == first_book_match(canon_spec(50).osis@, 16),
{
    book_50();
    let k = canon_spec(50).osis@;
    book_0();
    lemma_not_eq_ic(canon_spec(0).osis@, k, 0);
    lemma_not_same(canon_spec(0).name_zh@, k, 0);
    book_1();
    book_2();
    lemma_not_eq_ic(canon_spec(2).osis@, k, 0);
    lemma_not_same(canon_spec(2).name_zh@, k, 0);
    book_3();
    lemma_not_eq_ic(canon_spec(3).osis@, k, 0);
    lemma_not_same(canon_spec(3).name_zh@, k, 0);
    book_4();
    lemma_not_same(canon_spec(4).name_zh@, k, 0);
    book_5();
    book_6();
    lemma_not_same(canon_spec(6).name_zh@, k, 0);
    book_7();
    lemma_not_same(canon_spec(7).name_zh@, k, 0);
    book_8();
    book_9();
    book_10();
    book_11();
    book_12();
    book_13();
    book_14();
    book_15();
    lemma_not_eq_ic(canon_spec(15).osis@, k, 0);
    assert(first_book_match(k, 15) == first_book_match(k, 16));
    assert(first_book_match(k, 14) == first_book_match(k, 16));
    assert(first_book_match(k, 13) == first_book_match(k, 16));
    assert(first_book_match(k, 12) == first_book_match(k, 16));
    assert(first_book_match(k, 11) == first_book_match(k, 16));
    assert(first_book_match(k, 10) == first_book_match(k, 16));
    assert(first_book_match(k, 9) == first_book_match(k, 16));
    assert(first_book_match(k, 8) == first_book_match(k, 16));
    assert(first_book_match(k, 7) == first_book_match(k, 16));
    assert(first_book_match(k, 6) == first_book_match(k, 16));
    assert(first_book_match(k, 5) == first_book_match(k, 16));
    assert(first_book_match(k, 4) == first_book_match(k, 16));
    assert(first_book_match(k, 3) == first_book_match(k, 16));
    assert(first_book_match(k, 2) == first_book_match(k, 16));
    assert(first_book_match(k, 1) == first_book_match(k, 16));
    assert(first_book_match(k, 0) == first_book_match(k, 16));
}

#[verifier::rlimit(40)]
proof fn misses_osis_50_16()
    ensures
        first_book_match(canon_spec(50).osis@, 16) == first_book_match(canon_spec(50).osis@, 32),
{
    book_50();
    let k = canon_spec(50).osis@;
    book_16();
    book_17();
    lemma_not_eq_ic(canon_spec(17).osis@, k, 0);
    lemma_not_same(canon_spec(17).name_zh@, k, 0);
    lemma_not_eq_ic(canon_spec(17).name_en@, k, 0);
    book_18();
    book_19();
    book_20();
    lemma_not_same(canon_spec(20).name_zh@, k, 0);
    book_21();
    book_22();
    lemma_not_eq_ic(canon_spec(22).osis@, k, 0);
    book_23();
    lemma_not_eq_ic(canon_spec(23).osis@, k, 0);
    book_24();
    lemma_not_eq_ic(canon_spec(24).osis@, k, 0);
    book_25();
    book_26();
    lemma_not_eq_ic(canon_spec(26).osis@, k, 0);
    book_27();
    lemma_not_eq_ic(canon_spec(27).osis@, k, 0);
    book_28();
    lemma_not_same(canon_spec(28).name_zh@, k, 0);
    book_29();
    book_30();
    book_31();
    lemma_not_same(canon_spec(31).name_zh@, k, 0);
    assert(first_book_match(k, 31) == first_book_match(k, 32));
    assert(first_book_match(k, 30) == first_book_match(k, 32));
    assert(first_book_match(k, 29) == first_book_match(k, 32));
    assert(first_book_match(k, 28) == first_book_match(k, 32));
    assert(first_book_match(k, 27) == first_book_match(k, 32));
    assert(first_book_match(k, 26) == first_book_match(k, 32));
    assert(first_book_match(k, 25) == first_book_match(k, 32));
    assert(first_book_match(k, 24) == first_book_match(k, 32));
    assert(first_book_match(k, 23) == first_book_match(k, 32));
    assert(first_book_match(k, 22) == first_book_match(k, 32));
    assert(first_book_match(k, 21) == first_book_match(k, 32));
    assert(first_book_match(k, 20) == first_book_match(k, 32));
    assert(first_book_match(k, 19) == first_book_match(k, 32));
    assert(first_book_match(k, 18) == first_book_match(k, 32));
    assert(first_book_match(k, 17) == first_book_match(k, 32));
    assert(first_book_match(k, 16) == first_book_match(k, 32));
}

#[verifier::rlimit(40)]
proof fn misses_osis_50_32()
    ensures
        first_book_match(canon_spec(50).osis@, 32) == first_book_match(canon_spec(50).osis@, 48),
{
    book_50();
    let k = canon_spec(50).osis@;
    book_32();
    lemma_not_eq_ic(canon_spec(32).osis@, k, 0);
    lemma_not_same(canon_spec(32).name_zh@, k, 0);
    book_33();
    lemma_not_eq_ic(canon_spec(33).osis@, k, 0);
    lemma_not_same(canon_spec(33).name_zh@, k, 0);
    book_34();
    lemma_not_eq_ic(canon_spec(34).osis@, k, 0);
    book_35();
    book_36();
    lemma_not_eq_ic(canon_spec(36).osis@, k, 0);
    lemma_not_same(canon_spec(36).name_zh@, k, 0);
    book_37();
    book_38();
    lemma_not_eq_ic(canon_spec(38).osis@, k, 0);
    book_39();
    book_40();
    book_41();
    book_42();
    book_43();
    book_44();
    lemma_not_eq_ic(canon_spec(44).osis@, k, 0);
    lemma_not_same(canon_spec(44).name_zh@, k, 0);
    book_45();
    book_46();
    book_47();
    lemma_not_eq_ic(canon_spec(47).osis@, k, 0);
    assert(first_book_match(k, 47) == first_book_match(k, 48));
    assert(first_book_match(k, 46) == first_book_match(k, 48));
    assert(first_book_match(k, 45) == first_book_match(k, 48));
    assert(first_book_match(k, 44) == first_book_match(k, 48));
    assert(first_book_match(k, 43) == first_book_match(k, 48));
    assert(first_book_match(k, 42) == first_book_match(k, 48));
    assert(first_book_match(k, 41) == first_book_match(k, 48));
    assert(first_book_match(k, 40) == first_book_match(k, 48));
    assert(first_book_match(k, 39) == first_book_match(k, 48));
    assert(first_book_match(k, 38) == first_book_match(k, 48));
    assert(first_book_match(k, 37) == first_book_match(k, 48));
    assert(first_book_match(k, 36) == first_book_match(k, 48));
    assert(first_book_match(k, 35) == first_book_match(k, 48));
    assert(first_book_match(k, 34) == first_book_match(k, 48));
    assert(first_book_match(k, 33) == first_book_match(k, 48));
    assert(first_book_match(k, 32) == first_book_match(k, 48));
}

#[verifier::rlimit(40)]
proof fn misses_osis_50_48()
    ensures
        first_book_match(canon_spec(50).osis@, 48) == first_book_match(canon_spec(50).osis@, 50),
{
    book_50();
    let k = canon_spec(50).osis@;
    book_48();
    lemma_not_eq_ic(canon_spec(48).osis@, k, 0);
    book_49();
    assert(first_book_match(k, 49) == first_book_match(k, 50));
    assert(first_book_match(k, 48) == first_book_match(k, 50));
}

proof fn found_by_osis_50()
    ensures
        lookup_canon_spec(canon_spec(50).osis@) == Some(canon_spec(50)),
{
    book_50();
    let k = canon_spec(50).osis@;
    lemma_plain_key(k);
    lemma_not_number(k, 0);
    misses_osis_50_0();
    misses_osis_50_16();
    misses_osis_50_32();
    misses_osis_50_48();
    assert(first_book_match(k, 50) == Some(50int));
}

#[verifier::rlimit(40)]
proof fn misses_abbreviation_50_0()
    ensures
        first_book_match(canon_spec(50).name_zh_short@, 0) == first_book_match(canon_spec(50).name_zh_short@, 16),
{
    book_50();
    let k = canon_spec(50).name_zh_short@;
    book_0();
    lemma_not_same(canon_spec(0).name_zh_short@, k, 0);
    book_1();
    lemma_not_same(canon_spec(1).name_zh_short@, k, 0);
    book_2();
    lemma_not_same(canon_spec(2).name_zh_short@, k, 0);
    book_3();
    lemma_not_same(canon_spec(3).name_zh_short@, k, 0);
    book_4();
    lemma_not_same(canon_spec(4).name_zh_short@, k, 0);
    book_5();
    lemma_not_same(canon_spec(5).name_zh_short@, k, 0);
    book_6();
    lemma_not_same(canon_spec(6).name_zh_short@, k, 0);
    book_7();
    lemma_not_same(canon_spec(7).name_zh_short@, k, 0);
    book_8();
    book_9();
    book_10();
    book_11();
    book_12();
    book_13();
    book_14();
    lemma_not_same(canon_spec(14).name_zh_short@, k, 0);
    book_15();
    lemma_not_same(canon_spec(15).name_zh_short@, k, 0);
    assert(first_book_match(k, 15) == first_book_match(k, 16));
    assert(first_book_match(k, 14) == first_book_match(k, 16));
    assert(first_book_match(k, 13) == first_book_match(k, 16));
    assert(first_book_match(k, 12) == first_book_match(k, 16));
    assert(first_book_match(k, 11) == first_book_match(k, 16));
    assert(first_book_match(k, 10) == first_book_match(k, 16));
    assert(first_book_match(k, 9) == first_book_match(k, 16));
    assert(first_book_match(k, 8) == first_book_match(k, 16));
    assert(first_book_match(k, 7) == first_book_match(k, 16));
    assert(first_book_match(k, 6) == first_book_match(k, 16));
    assert(first_book_match(k, 5) == first_book_match(k, 16));
    assert(first_book_match(k, 4) == first_book_match(k, 16));
    assert(first_book_match(k, 3) == first_book_match(k, 16));
    assert(first_book_match(k, 2) == first_book_match(k, 16));
    assert(first_book_match(k, 1) == first_book_match(k, 16));
    assert(first_book_match(k, 0) == first_book_match(k, 16));
}

#[verifier::rlimit(40)]
proof fn misses_abbreviation_50_16()
    ensures
        first_book_match(canon_spec(50).name_zh_short@, 16) == first_book_match(canon_spec(50).name_zh_short@, 32),
{
    book_50();
    let k = canon_spec(50).name_zh_short@;
    book_16();
    lemma_not_same(canon_spec(16).name_zh_short@, k, 0);
    book_17();
    lemma_not_same(canon_spec(17).name_zh_short@, k, 0);
    book_18();
    lemma_not_same(canon_spec(18).name_zh_short@, k, 0);
    book_19();
    lemma_not_same(canon_spec(19).name_zh_short@, k, 0);
    book_20();
    lemma_not_same(canon_spec(20).name_zh_short@, k, 0);
    book_21();
    lemma_not_same(canon_spec(21).name_zh_short@, k, 0);
    book_22();
    lemma_not_same(canon_spec(22).name_zh_short@, k, 0);
    book_23();
    lemma_not_same(canon_spec(23).name_zh_short@, k, 0);
    book_24();
    lemma_not_same(canon_spec(24).name_zh_short@, k, 0);
    book_25();
    lemma_not_same(canon_spec(25).name_zh_short@, k, 0);
    book_26();
    lemma_not_same(canon_spec(26).name_zh_short@, k, 0);
    book_27();
    lemma_not_same(canon_spec(27).name_zh_short@, k, 0);
    book_28();
    lemma_not_same(canon_spec(28).name_zh_short@, k, 0);
    book_29();
    lemma_not_same(canon_spec(29).name_zh_short@, k, 0);
    book_30();
    lemma_not_same(canon_spec(30).name_zh_short@, k, 0);
    book_31();
    lemma_not_same(canon_spec(31).name_zh_short@, k, 0);
    assert(first_book_match(k, 31) == first_book_match(k, 32));
    assert(first_book_match(k, 30) == first_book_match(k, 32));
    assert(first_book_match(k, 29) == first_book_match(k, 32));
    assert(first_book_match(k, 28) == first_book_match(k, 32));
    assert(first_book_match(k, 27) == first_book_match(k, 32));
    assert(first_book_match(k, 26) == first_book_match(k, 32));
    assert(first_book_match(k, 25) == first_book_match(k, 32));
    assert(first_book_match(k, 24) == first_book_match(k, 32));
    assert(first_book_match(k, 23) == first_book_match(k, 32));
    assert(first_book_match(k, 22) == first_book_match(k, 32));
    assert(first_book_match(k, 21) == first_book_match(k, 32));
    assert(first_book_match(k, 20) == first_book_match(k, 32));
    assert(first_book_match(k, 19) == first_book_match(k, 32));
    assert(first_book_match(k, 18) == first_book_match(k, 32));
    assert(first_book_match(k, 17) == first_book_match(k, 32));
    assert(first_book_match(k, 16) == first_book_match(k, 32));
}

#[verifier::rlimit(40)]
proof fn misses_abbreviation_50_32()
    ensures
        first_book_match(canon_spec(50).name_zh_short@, 32) == first_book_match(canon_spec(50).name_zh_short@, 48),
{
    book_50();
    let k = canon_spec(50).name_zh_short@;
    book_32();
    lemma_not_same(canon_spec(32).name_zh_short@, k, 0);
    book_33();
    lemma_not_same(canon_spec(33).name_zh_short@, k, 0);
    book_34();
    lemma_not_same(canon_spec(34).name_zh_short@, k, 0);
    book_35();
    lemma_not_same(canon_spec(35).name_zh_short@, k, 0);
    book_36();
    lemma_not_same(canon_spec(36).name_zh_short@, k, 0);
    book_37();
    lemma_not_same(canon_spec(37).name_zh_short@, k, 0);
    book_38();
    lemma_not_same(canon_spec(38).name_zh_short@, k, 0);
    book_39();
    lemma_not_same(canon_spec(39).name_zh_short@, k, 0);
    book_40();
    lemma_not_same(canon_spec(40).name_zh_short@, k, 0);
    book_41();
    lemma_not_same(canon_spec(41).name_zh_short@, k, 0);
    book_42();
    lemma_not_same(canon_spec(42).name_zh_short@, k, 0);
    book_43();
    lemma_not_same(canon_spec(43).name_zh_short@, k, 0);
    book_44();
    lemma_not_same(canon_spec(44).name_zh_short@, k, 0);
    book_45();
    book_46();
    book_47();
    lemma_not_same(canon_spec(47).name_zh_short@, k, 0);
    assert(first_book_match(k, 47) == first_book_match(k, 48));
    assert(first_book_match(k, 46) == first_book_match(k, 48));
    assert(first_book_match(k, 45) == first_book_match(k, 48));
    assert(first_book_match(k, 44) == first_book_match(k, 48));
    assert(first_book_match(k, 43) == first_book_match(k, 48));
    assert(first_book_match(k, 42) == first_book_match(k, 48));
    assert(first_book_match(k, 41) == first_book_match(k, 48));
    assert(first_book_match(k, 40) == first_book_match(k, 48));
    assert(first_book_match(k, 39) == first_book_match(k, 48));
    assert(first_book_match(k, 38) == first_book_match(k, 48));
    assert(first_book_match(k, 37) == first_book_match(k, 48));
    assert(first_book_match(k, 36) == first_book_match(k, 48));
    assert(first_book_match(k, 35) == first_book_match(k, 48));
    assert(first_book_match(k, 34) == first_book_match(k, 48));
    assert(first_book_match(k, 33) == first_book_match(k, 48));
    assert(first_book_match(k, 32) == first_book_match(k, 48));
}

#[verifier::rlimit(40)]
proof fn misses_abbreviation_50_48()
    ensures
        first_book_match(canon_spec(50).name_zh_short@, 48) == first_book_match(canon_spec(50).name_zh_short@, 50),
{
    book_50();
    let k = canon_spec(50).name_zh_short@;
    book_48();
    lemma_not_same(canon_spec(48).name_zh_short@, k, 0);
    book_49();
    lemma_not_same(canon_spec(49).name_zh_short@, k, 0);
    assert(first_book_match(k, 49) == first_book_match(k, 50));
    assert(first_book_match(k, 48) == first_book_match(k, 50));
}

proof fn found_by_abbreviation_50()
    ensures
        lookup_canon_spec(canon_spec(50).name_zh_short@) == Some(canon_spec(50)),
{
    book_50();
    let k = canon_spec(50).name_zh_short@;
    lemma_plain_key(k);
    lemma_not_number(k, 0);
    misses_abbreviation_50_0();
    misses_abbreviation_50_16();
    misses_abbreviation_50_32();
    misses_abbreviation_50_48();
    assert(first_book_match(k, 50) == Some(50int));
}

#[verifier::rlimit(40)]
proof fn misses_english_50_0()
    ensures
        first_book_match(canon_spec(50).name_en@, 0) == first_book_match(canon_spec(50).name_en@, 16),
{
    book_50();
    let k = canon_spec(50).name_en@;
    book_0();
    book_1();
    book_2();
    book_3();
    book_4();
    book_5();
    book_6();
    book_7();
    book_8();
    book_9();
    book_10();
    book_11();
    book_12();
    book_13();
    book_14();
    book_15();
    assert(first_book_match(k, 15) == first_book_match(k, 16));
    assert(first_book_match(k, 14) == first_book_match(k, 16));
    assert(first_book_match(k, 13) == first_book_match(k, 16));
    assert(first_book_match(k, 12) == first_book_match(k, 16));
    assert(first_book_match(k, 11) == first_book_match(k, 16));
    assert(first_book_match(k, 10) == first_book_match(k, 16));
    assert(first_book_match(k, 9) == first_book_match(k, 16));
    assert(first_book_match(k, 8) == first_book_match(k, 16));
    assert(first_book_match(k, 7) == first_book_match(k, 16));
    assert(first_book_match(k, 6) == first_book_match(k, 16));
    assert(first_book_match(k, 5) == first_book_match(k, 16));
    assert(first_book_match(k, 4) == first_book_match(k, 16));
    assert(first_book_match(k, 3) == first_book_match(k, 16));
    assert(first_book_match(k, 2) == first_book_match(k, 16));
    assert(first_book_match(k, 1) == first_book_match(k, 16));
    assert(first_book_match(k, 0) == first_book_match(k, 16));
}

#[verifier::rlimit(40)]
proof fn misses_english_50_16()
    ensures
        first_book_match(canon_spec(50).name_en@, 16) == first_book_match(canon_spec(50).name_en@, 32),
{
    book_50();
    let k = canon_spec(50).name_en@;
    book_16();
    book_17();
    book_18();
    book_19();
    book_20();
    book_21();
    book_22();
    book_23();
    book_24();
    book_25();
    book_26();
    book_27();
    book_28();
    book_29();
    book_30();
    book_31();
    assert(first_book_match(k, 31) == first_book_match(k, 32));
    assert(first_book_match(k, 30) == first_book_match(k, 32));
    assert(first_book_match(k, 29) == first_book_match(k, 32));
    assert(first_book_match(k, 28) == first_book_match(k, 32));
    assert(first_book_match(k, 27) == first_book_match(k, 32));
    assert(first_book_match(k, 26) == first_book_match(k, 32));
    assert(first_book_match(k, 25) == first_book_match(k, 32));
    assert(first_book_match(k, 24) == first_book_match(k, 32));
    assert(first_book_match(k, 23) == first_book_match(k, 32));
    assert(first_book_match(k, 22) == first_book_match(k, 32));
    assert(first_book_match(k, 21) == first_book_match(k, 32));
    assert(first_book_match(k, 20) == first_book_match(k, 32));
    assert(first_book_match(k, 19) == first_book_match(k, 32));
    assert(first_book_match(k, 18) == first_book_match(k, 32));
    assert(first_book_match(k, 17) == first_book_match(k, 32));
    assert(first_book_match(k, 16) == first_book_match(k, 32));
}

#[verifier::rlimit(40)]
proof fn misses_english_50_32()
    ensures
        first_book_match(canon_spec(50).name_en@, 32) == first_book_match(canon_spec(50).name_en@, 48),
{
    book_50();
    let k = canon_spec(50).name_en@;
    book_32();
    book_33();
    book_34();
    book_35();
    book_36();
    book_37();
    book_38();
    book_39();
    book_40();
    book_41();
    book_42();
    book_43();
    book_44();
    book_45();
    book_46();
    book_47();
    assert(first_book_match(k, 47) == first_book_match(k, 48));
    assert(first_book_match(k, 46) == first_book_match(k, 48));
    assert(first_book_match(k, 45) == first_book_match(k, 48));
    assert(first_book_match(k, 44) == first_book_match(k, 48));
    assert(first_book_match(k, 43) == first_book_match(k, 48));
    assert(first_book_match(k, 42) == first_book_match(k, 48));
    assert(first_book_match(k, 41) == first_book_match(k, 48));
    assert(first_book_match(k, 40) == first_book_match(k, 48));
    assert(first_book_match(k, 39) == first_book_match(k, 48));
    assert(first_book_match(k, 38) == first_book_match(k, 48));
    assert(first_book_match(k, 37) == first_book_match(k, 48));
    assert(first_book_match(k, 36) == first_book_match(k, 48));
    assert(first_book_match(k, 35) == first_book_match(k, 48));
    assert(first_book_match(k, 34) == first_book_match(k, 48));
    assert(first_book_match(k, 33) == first_book_match(k, 48));
    assert(first_book_match(k, 32) == first_book_match(k, 48));
}

#[verifier::rlimit(40)]
proof fn misses_english_50_48()
    ensures
        first_book_match(canon_spec(50).name_en@, 48) == first_book_match(canon_spec(50).name_en@, 50),
{
    book_50();
    let k = canon_spec(50).name_en@;
    book_48();
    book_49();
    assert(first_book_match(k, 49) == first_book_match(k, 50));
    assert(first_book_match(k, 48) == first_book_match(k, 50));
}

proof fn found_by_english_50()
    ensures
        lookup_canon_spec(canon_spec(50).name_en@) == Some(canon_spec(50)),
{
    book_50();
    let k = canon_spec(50).name_en@;
    lemma_plain_key(k);
    lemma_not_number(k, 0);
    misses_english_50_0();
    misses_english_50_16();
    misses_english_50_32();
    misses_english_50_48();
    assert(first_book_match(k, 50) == Some(50int));
}

#[verifier::rlimit(40)]
proof fn misses_osis_51_0()
    ensures
        first_book_match(canon_spec(51).osis@, 0) == first_book_match(canon_spec(51).osis@, 16),
{
    book_51();
    let k = canon_spec(51).osis@;
    book_0();
    book_1();
    lemma_not_eq_ic(canon_spec(1).name_en@, k, 0);
    book_2();
    book_3();
    book_4();
    book_5();
    lemma_not_eq_ic(canon_spec(5).name_en@, k, 0);
    book_6();
    lemma_not_eq_ic(canon_spec(6).name_en@, k, 0);
    book_7();
    book_8();
    book_9();
    book_10();
    book_11();
    book_12();
    book_13();
    book_14();
    book_15();
    assert(first_book_match(k, 15) == first_book_match(k, 16));
    assert(first_book_match(k, 14) == first_book_match(k, 16));
    assert(first_book_match(k, 13) == first_book_match(k, 16));
    assert(first_book_match(k, 12) == first_book_match(k, 16));
    assert(first_book_match(k, 11) == first_book_match(k, 16));
    assert(first_book_match(k, 10) == first_book_match(k, 16));
    assert(first_book_match(k, 9) == first_book_match(k, 16));
    assert(first_book_match(k, 8) == first_book_match(k, 16));
    assert(first_book_match(k, 7) == first_book_match(k, 16));
    assert(first_book_match(k, 6) == first_book_match(k, 16));
    assert(first_book_match(k, 5) == first_book_match(k, 16));
    assert(first_book_match(k, 4) == first_book_match(k, 16));
    assert(first_book_match(k, 3) == first_book_match(k, 16));
    assert(first_book_match(k, 2) == first_book_match(k, 16));
    assert(first_book_match(k, 1) == first_book_match(k, 16));
    assert(first_book_match(k, 0) == first_book_match(k, 16));
}

#[verifier::rlimit(40)]
proof fn misses_osis_51_16()
    ensures
        first_book_match(canon_spec(51).osis@, 16) == first_book_match(canon_spec(51).osis@, 32),
{
    book_51();
    let k = canon_spec(51).osis@;
    book_16();
    lemma_not_eq_ic(canon_spec(16).name_en@, k, 0);
    book_17();
    book_18();
    lemma_not_eq_ic(canon_spec(18).name_en@, k, 0);
    book_19();
    book_20();
    book_21();
    book_22();
    lemma_not_eq_ic(canon_spec(22).name_en@, k, 0);
    book_23();
    book_24();
    book_25();
    book_26();
    lemma_not_eq_ic(canon_spec(26).name_en@, k, 0);
    book_27();
    book_28();
    book_29();
    book_30();
    book_31();
    assert(first_book_match(k, 31) == first_book_match(k, 32));
    assert(first_book_match(k, 30) == first_book_match(k, 32));
    assert(first_book_match(k, 29) == first_book_match(k, 32));
    assert(first_book_match(k, 28) == first_book_match(k, 32));
    assert(first_book_match(k, 27) == first_book_match(k, 32));
    assert(first_book_match(k, 26) == first_book_match(k, 32));
    assert(first_book_match(k, 25) == first_book_match(k, 32));
    assert(first_book_match(k, 24) == first_book_match(k, 32));
    assert(first_book_match(k, 23) == first_book_match(k, 32));
    assert(first_book_match(k, 22) == first_book_match(k, 32));
    assert(first_book_match(k, 21) == first_book_match(k, 32));
    assert(first_book_match(k, 20) == first_book_match(k, 32));
    assert(first_book_match(k, 19) == first_book_match(k, 32));
    assert(first_book_match(k, 18) == first_book_match(k, 32));
    assert(first_book_match(k, 17) == first_book_match(k, 32));
    assert(first_book_match(k, 16) == first_book_match(k, 32));
}

#[verifier::rlimit(40)]
proof fn misses_osis_51_32()
    ensures
        first_book_match(canon_spec(51).osis@, 32) == first_book_match(canon_spec(51).osis@, 48),
{
    book_51();
    let k = canon_spec(51).osis@;
    book_32();
    book_33();
    book_34();
    book_35();
    book_36();
    lemma_not_eq_ic(canon_spec(36).name_en@, k, 0);
    book_37();
    book_38();
    book_39();
    book_40();
    book_41();
    book_42();
    book_43();
    book_44();
    lemma_not_eq_ic(canon_spec(44).name_en@, k, 0);
    book_45();
    book_46();
    book_47();
    assert(first_book_match(k, 47) == first_book_match(k, 48));
    assert(first_book_match(k, 46) == first_book_match(k, 48));
    assert(first_book_match(k, 45) == first_book_match(k, 48));
    assert(first_book_match(k, 44) == first_book_match(k, 48));
    assert(first_book_match(k, 43) == first_book_match(k, 48));
    assert(first_book_match(k, 42) == first_book_match(k, 48));
    assert(first_book_match(k, 41) == first_book_match(k, 48));
    assert(first_book_match(k, 40) == first_book_match(k, 48));
    assert(first_book_match(k, 39) == first_book_match(k, 48));
    assert(first_book_match(k, 38) == first_book_match(k, 48));
    assert(first_book_match(k, 37) == first_book_match(k, 48));
    assert(first_book_match(k, 36) == first_book_match(k, 48));
    assert(first_book_match(k, 35) == first_book_match(k, 48));
    assert(first_book_match(k, 34) == first_book_match(k, 48));
    assert(first_book_match(k, 33) == first_book_match(k, 48));
    assert(first_book_match(k, 32) == first_book_match(k, 48));
}

#[verifier::rlimit(40)]
proof fn misses_osis_51_48()
    ensures
        first_book_match(canon_spec(51).osis@, 48) == first_book_match(canon_spec(51).osis@, 51),
{
    book_51();
    let k = canon_spec(51).osis@;
    book_48();
    book_49();
    book_50();
    assert(first_book_match(k, 50) == first_book_match(k, 51));
    assert(first_book_match(k, 49) == first_book_match(k, 51));
    assert(first_book_match(k, 48) == first_book_match(k, 51));
}

proof fn found_by_osis_51()
    ensures
        lookup_canon_spec(canon_spec(51).osis@) == Some(canon_spec(51)),
{
    book_51();
    let k = canon_spec(51).osis@;
    lemma_plain_key(k);
    lemma_not_number(k, 1);
    misses_osis_51_0();
    misses_osis_51_16();
    misses_osis_51_32();
    misses_osis_51_48();
    assert(first_book_match(k, 51) == Some(51int));
}

#[verifier::rlimit(40)]
proof fn misses_abbreviation_51_0()
    ensures
        first_book_match(canon_spec(51).name_zh_short@, 0) == first_book_match(canon_spec(51).name_zh_short@, 16),
{
    book_51();
    let k = canon_spec(51).name_zh_short@;
    book_0();
    book_1();
    book_2();
    book_3();
    book_4();
    book_5();
    book_6();
    book_7();
    book_8();
    lemma_not_same(canon_spec(8).name_zh_short@, k, 0);
    book_9();
    lemma_not_same(canon_spec(9).name_zh_short@, k, 0);
    book_10();
    lemma_not_same(canon_spec(10).name_zh_short@, k, 0);
    book_11();
    lemma_not_same(canon_spec(11).name_zh_short@, k, 0);
    book_12();
    lemma_not_same(canon_spec(12).name_zh_short@, k, 0);
    book_13();
    lemma_not_same(canon_spec(13).name_zh_short@, k, 0);
    book_14();
    book_15();
    assert(first_book_match(k, 15) == first_book_match(k, 16));
    assert(first_book_match(k, 14) == first_book_match(k, 16));
    assert(first_book_match(k, 13) == first_book_match(k, 16));
    assert(first_book_match(k, 12) == first_book_match(k, 16));
    assert(first_book_match(k, 11) == first_book_match(k, 16));
    assert(first_book_match(k, 10) == first_book_match(k, 16));
    assert(first_book_match(k, 9) == first_book_match(k, 16));
    assert(first_book_match(k, 8) == first_book_match(k, 16));
    assert(first_book_match(k, 7) == first_book_match(k, 16));
    assert(first_book_match(k, 6) == first_book_match(k, 16));
    assert(first_book_match(k, 5) == first_book_match(k, 16));
    assert(first_book_match(k, 4) == first_book_match(k, 16));
    assert(first_book_match(k, 3) == first_book_match(k, 16));
    assert(first_book_match(k, 2) == first_book_match(k, 16));
    assert(first_book_match(k, 1) == first_book_match(k, 16));
    assert(first_book_match(k, 0) == first_book_match(k, 16));
}

#[verifier::rlimit(40)]
proof fn misses_abbreviation_51_16()
    ensures
        first_book_match(canon_spec(51).name_zh_short@, 16) == first_book_match(canon_spec(51).name_zh_short@, 32),
{
    book_51();
    let k = canon_spec(51).name_zh_short@;
    book_16();
    book_17();
    book_18();
    lemma_not_eq_ic(canon_spec(18).osis@, k, 0);
    lemma_not_same(canon_spec(18).name_zh@, k, 0);
    book_19();
    lemma_not_same(canon_spec(19).name_zh@, k, 0);
    book_20();
    book_21();
    lemma_not_same(canon_spec(21).name_zh@, k, 0);
    book_22();
    book_23();
    book_24();
    book_25();
    book_26();
    book_27();
    book_28();
    book_29();
    book_30();
    book_31();
    assert(first_book_match(k, 31) == first_book_match(k, 32));
    assert(first_book_match(k, 30) == first_book_match(k, 32));
    assert(first_book_match(k, 29) == first_book_match(k, 32));
    assert(first_book_match(k, 28) == first_book_match(k, 32));
    assert(first_book_match(k, 27) == first_book_match(k, 32));
    assert(first_book_match(k, 26) == first_book_match(k, 32));
    assert(first_book_match(k, 25) == first_book_match(k, 32));
    assert(first_book_match(k, 24) == first_book_match(k, 32));
    assert(first_book_match(k, 23) == first_book_match(k, 32));
    assert(first_book_match(k, 22) == first_book_match(k, 32));
    assert(first_book_match(k, 21) == first_book_match(k, 32));
    assert(first_book_match(k, 20) == first_book_match(k, 32));
    assert(first_book_match(k, 19) == first_book_match(k, 32));
    assert(first_book_match(k, 18) == first_book_match(k, 32));
    assert(first_book_match(k, 17) == first_book_match(k, 32));
    assert(first_book_match(k, 16) == first_book_match(k, 32));
}

#[verifier::rlimit(40)]
proof fn misses_abbreviation_51_32()
    ensures
        first_book_match(canon_spec(51).name_zh_short@, 32) == first_book_match(canon_spec(51).name_zh_short@, 48),
{
    book_51();
    let k = canon_spec(51).name_zh_short@;
    book_32();
    book_33();
    book_34();
    book_35();
    book_36();
    book_37();
    book_38();
    book_39();
    book_40();
    book_41();
    book_42();
    book_43();
    book_44();
    book_45();
    lemma_not_same(canon_spec(45).name_zh_short@, k, 0);
    book_46();
    lemma_not_same(canon_spec(46).name_zh_short@, k, 0);
    book_47();
    assert(first_book_match(k, 47) == first_book_match(k, 48));
    assert(first_book_match(k, 46) == first_book_match(k, 48));
    assert(first_book_match(k, 45) == first_book_match(k, 48));
    assert(first_book_match(k, 44) == first_book_match(k, 48));
    assert(first_book_match(k, 43) == first_book_match(k, 48));
    assert(first_book_match(k, 42) == first_book_match(k, 48));
    assert(first_book_match(k, 41) == first_book_match(k, 48));
    assert(first_book_match(k, 40) == first_book_match(k, 48));
    assert(first_book_match(k, 39) == first_book_match(k, 48));
    assert(first_book_match(k, 38) == first_book_match(k, 48));
    assert(first_book_match(k, 37) == first_book_match(k, 48));
    assert(first_book_match(k, 36) == first_book_match(k, 48));
    assert(first_book_match(k, 35) == first_book_match(k, 48));
    assert(first_book_match(k, 34) == first_book_match(k, 48));
    assert(first_book_match(k, 33) == first_book_match(k, 48));
    assert(first_book_match(k, 32) == first_book_match(k, 48));
}

#[verifier::rlimit(40)]
proof fn misses_abbreviation_51_48()
    ensures
        first_book_match(canon_spec(51).name_zh_short@, 48) == first_book_match(canon_spec(51).name_zh_short@, 51),
{
    book_51();
    let k = canon_spec(51).name_zh_short@;
    book_48();
    book_49();
    book_50();
    assert(first_book_match(k, 50) == first_book_match(k, 51));
    assert(first_book_match(k, 49) == first_book_match(k, 51));
    assert(first_book_match(k, 48) == first_book_match(k, 51));
}

proof fn found_by_abbreviation_51()
    ensures
        lookup_canon_spec(canon_spec(51).name_zh_short@) == Some(canon_spec(51)),
{
    book_51();
    let k = canon_spec(51).name_zh_short@;
    lemma_plain_key(k);
    lemma_not_number(k, 0);
    misses_abbreviation_51_0();
    misses_abbreviation_51_16();
    misses_abbreviation_51_32();
    misses_abbreviation_51_48();
    assert(first_book_match(k, 51) == Some(51int));
}

#[verifier::rlimit(40)]
proof fn misses_english_51_0()
    ensures
        first_book_match(canon_spec(51).name_en@, 0) == first_book_match(canon_spec(51).name_en@, 16),
{
    book_51();
    let k = canon_spec(51).name_en@;
    book_0();
    book_1();
    book_2();
    book_3();
    book_4();
    book_5();
    book_6();
    book_7();
    book_8();
    book_9();
    book_10();
    book_11();
    book_12();
    book_13();
    book_14();
    book_15();
    assert(first_book_match(k, 15) == first_book_match(k, 16));
    assert(first_book_match(k, 14) == first_book_match(k, 16));
    assert(first_book_match(k, 13) == first_book_match(k, 16));
    assert(first_book_match(k, 12) == first_book_match(k, 16));
    assert(first_book_match(k, 11) == first_book_match(k, 16));
    assert(first_book_match(k, 10) == first_book_match(k, 16));
    assert(first_book_match(k, 9) == first_book_match(k, 16));
    assert(first_book_match(k, 8) == first_book_match(k, 16));
    assert(first_book_match(k, 7) == first_book_match(k, 16));
    assert(first_book_match(k, 6) == first_book_match(k, 16));
    assert(first_book_match(k, 5) == first_book_match(k, 16));
    assert(first_book_match(k, 4) == first_book_match(k, 16));
    assert(first_book_match(k, 3) == first_book_match(k, 16));
    assert(first_book_match(k, 2) == first_book_match(k, 16));
    assert(first_book_match(k, 1) == first_book_match(k, 16));
    assert(first_book_match(k, 0) == first_book_match(k, 16));
}

#[verifier::rlimit(40)]
proof fn misses_english_51_16()
    ensures
        first_book_match(canon_spec(51).name_en@, 16) == first_book_match(canon_spec(51).name_en@, 32),
{
    book_51();
    let k = canon_spec(51).name_en@;
    book_16();
    book_17();
    book_18();
    book_19();
    book_20();
    book_21();
    lemma_not_eq_ic(canon_spec(21).name_en@, k, 0);
    book_22();
    book_23();
    book_24();
    book_25();
    book_26();
    book_27();
    book_28();
    book_29();
    book_30();
    book_31();
    assert(first_book_match(k, 31) == first_book_match(k, 32));
    assert(first_book_match(k, 30) == first_book_match(k, 32));
    assert(first_book_match(k, 29) == first_book_match(k, 32));
    assert(first_book_match(k, 28) == first_book_match(k, 32));
    assert(first_book_match(k, 27) == first_book_match(k, 32));
    assert(first_book_match(k, 26) == first_book_match(k, 32));
    assert(first_book_match(k, 25) == first_book_match(k, 32));
    assert(first_book_match(k, 24) == first_book_match(k, 32));
    assert(first_book_match(k, 23) == first_book_match(k, 32));
    assert(first_book_match(k, 22) == first_book_match(k, 32));
    assert(first_book_match(k, 21) == first_book_match(k, 32));
    assert(first_book_match(k, 20) == first_book_match(k, 32));
    assert(first_book_match(k, 19) == first_book_match(k, 32));
    assert(first_book_match(k, 18) == first_book_match(k, 32));
    assert(first_book_match(k, 17) == first_book_match(k, 32));
    assert(first_book_match(k, 16) == first_book_match(k, 32));
}

#[verifier::rlimit(40)]
proof fn misses_english_51_32()
    ensures
        first_book_match(canon_spec(51).name_en@, 32) == first_book_match(canon_spec(51).name_en@, 48),
{
    book_51();
    let k = canon_spec(51).name_en@;
    book_32();
    book_33();
    book_34();
    book_35();
    book_36();
    book_37();
    book_38();
    book_39();
    book_40();
    book_41();
    book_42();
    book_43();
    book_44();
    book_45();
    book_46();
    book_47();
    assert(first_book_match(k, 47) == first_book_match(k, 48));
    assert(first_book_match(k, 46) == first_book_match(k, 48));
    assert(first_book_match(k, 45) == first_book_match(k, 48));
    assert(first_book_match(k, 44) == first_book_match(k, 48));
    assert(first_book_match(k, 43) == first_book_match(k, 48));
    assert(first_book_match(k, 42) == first_book_match(k, 48));
    assert(first_book_match(k, 41) == first_book_match(k, 48));
    assert(first_book_match(k, 40) == first_book_match(k, 48));
    assert(first_book_match(k, 39) == first_book_match(k, 48));
    assert(first_book_match(k, 38) == first_book_match(k, 48));
    assert(first_book_match(k, 37) == first_book_match(k, 48));
    assert(first_book_match(k, 36) == first_book_match(k, 48));
    assert(first_book_match(k, 35) == first_book_match(k, 48));
    assert(first_book_match(k, 34) == first_book_match(k, 48));
    assert(first_book_match(k, 33) == first_book_match(k, 48));
    assert(first_book_match(k, 32) == first_book_match(k, 48));
}

#[verifier::rlimit(40)]
proof fn misses_english_51_48()
    ensures
        first_book_match(canon_spec(51).name_en@, 48) == first_book_match(canon_spec(51).name_en@, 51),
{
    book_51();
    let k = canon_spec(51).name_en@;
    book_48();
    book_49();
    book_50();
    assert(first_book_match(k, 50) == first_book_match(k, 51));
    assert(first_book_match(k, 49) == first_book_match(k, 51));
    assert(first_book_match(k, 48) == first_book_match(k, 51));
}

proof fn found_by_english_51()
    ensures
        lookup_canon_spec(canon_spec(51).name_en@) == Some(canon_spec(51)),
{
    book_51();
    let k = canon_spec(51).name_en@;
    lemma_plain_key(k);
    lemma_not_number(k, 1);
    misses_english_51_0();
    misses_english_51_16();
    misses_english_51_32();
    misses_english_51_48();
    assert(first_book_match(k, 51) == Some(51int));
}

#[verifier::rlimit(40)]
proof fn misses_osis_52_0()
    ensures
        first_book_match(canon_spec(52).osis@, 0) == first_book_match(canon_spec(52).osis@, 16),
{
    book_52();
    let k = canon_spec(52).osis@;
    book_0();
    book_1();
    lemma_not_eq_ic(canon_spec(1).name_en@, k, 0);
    book_2();
    book_3();
    book_4();
    book_5();
    lemma_not_eq_ic(canon_spec(5).name_en@, k, 0);
    book_6();
    lemma_not_eq_ic(canon_spec(6).name_en@, k, 0);
    book_7();
    book_8();
    book_9();
    book_10();
    book_11();
    book_12();
    book_13();
    book_14();
    book_15();
    assert(first_book_match(k, 15) == first_book_match(k, 16));
    assert(first_book_match(k, 14) == first_book_match(k, 16));
    assert(first_book_match(k, 13) == first_book_match(k, 16));
    assert(first_book_match(k, 12) == first_book_match(k, 16));
    assert(first_book_match(k, 11) == first_book_match(k, 16));
    assert(first_book_match(k, 10) == first_book_match(k, 16));
    assert(first_book_match(k, 9) == first_book_match(k, 16));
    assert(first_book_match(k, 8) == first_book_match(k, 16));
    assert(first_book_match(k, 7) == first_book_match(k, 16));
    assert(first_book_match(k, 6) == first_book_match(k, 16));
    assert(first_book_match(k, 5) == first_book_match(k, 16));
    assert(first_book_match(k, 4) == first_book_match(k, 16));
    assert(first_book_match(k, 3) == first_book_match(k, 16));
    assert(first_book_match(k, 2) == first_book_match(k, 16));
    assert(first_book_match(k, 1) == first_book_match(k, 16));
    assert(first_book_match(k, 0) == first_book_match(k, 16));
}

#[verifier::rlimit(40)]
proof fn misses_osis_52_16()
    ensures
        first_book_match(canon_spec(52).osis@, 16) == first_book_match(canon_spec(52).osis@, 32),
{
    book_52();
    let k = canon_spec(52).osis@;
    book_16();
    lemma_not_eq_ic(canon_spec(16).name_en@, k, 0);
    book_17();
    book_18();
    lemma_not_eq_ic(canon_spec(18).name_en@, k, 0);
    book_19();
    book_20();
    book_21();
    book_22();
    lemma_not_eq_ic(canon_spec(22).name_en@, k, 0);
    book_23();
    book_24();
    book_25();
    book_26();
    lemma_not_eq_ic(canon_spec(26).name_en@, k, 0);
    book_27();
    book_28();
    book_29();
    book_30();
    book_31();
    assert(first_book_match(k, 31) == first_book_match(k, 32));
    assert(first_book_match(k, 30) == first_book_match(k, 32));
    assert(first_book_match(k, 29) == first_book_match(k, 32));
    assert(first_book_match(k, 28) == first_book_match(k, 32));
    assert(first_book_match(k, 27) == first_book_match(k, 32));
    assert(first_book_match(k, 26) == first_book_match(k, 32));
    assert(first_book_match(k, 25) == first_book_match(k, 32));
    assert(first_book_match(k, 24) == first_book_match(k, 32));
    assert(first_book_match(k, 23) == first_book_match(k, 32));
    assert(first_book_match(k, 22) == first_book_match(k, 32));
    assert(first_book_match(k, 21) == first_book_match(k, 32));
    assert(first_book_match(k, 20) == first_book_match(k, 32));
    assert(first_book_match(k, 19) == first_book_match(k, 32));
    assert(first_book_match(k, 18) == first_book_match(k, 32));
    assert(first_book_match(k, 17) == first_book_match(k, 32));
    assert(first_book_match(k, 16) == first_book_match(k, 32));
}

#[verifier::rlimit(40)]
proof fn misses_osis_52_32()
    ensures
        first_book_match(canon_spec(52).osis@, 32) == first_book_match(canon_spec(52).osis@, 48),
{
    book_52();
    let k = canon_spec(52).osis@;
    book_32();
    book_33();
    book_34();
    book_35();
    book_36();
    lemma_not_eq_ic(canon_spec(36).name_en@, k, 0);
    book_37();
    book_38();
    book_39();
    book_40();
    book_41();
    book_42();
    book_43();
    book_44();
    lemma_not_eq_ic(canon_spec(44).name_en@, k, 0);
    book_45();
    book_46();
    book_47();
    assert(first_book_match(k, 47) == first_book_match(k, 48));
    assert(first_book_match(k, 46) == first_book_match(k, 48));
    assert(first_book_match(k, 45) == first_book_match(k, 48));
    assert(first_book_match(k, 44) == first_book_match(k, 48));
    assert(first_book_match(k, 43) == first_book_match(k, 48));
    assert(first_book_match(k, 42) == first_book_match(k, 48));
    assert(first_book_match(k, 41) == first_book_match(k, 48));
    assert(first_book_match(k, 40) == first_book_match(k, 48));
    assert(first_book_match(k, 39) == first_book_match(k, 48));
    assert(first_book_match(k, 38) == first_book_match(k, 48));
    assert(first_book_match(k, 37) == first_book_match(k, 48));
    assert(first_book_match(k, 36) == first_book_match(k, 48));
    assert(first_book_match(k, 35) == first_book_match(k, 48));
    assert(first_book_match(k, 34) == first_book_match(k, 48));
    assert(first_book_match(k, 33) == first_book_match(k, 48));
    assert(first_book_match(k, 32) == first_book_match(k, 48));
}

#[verifier::rlimit(40)]
proof fn misses_osis_52_48()
    ensures
        first_book_match(canon_spec(52).osis@, 48) == first_book_match(canon_spec(52).osis@, 52),
{
    book_52();
    let k = canon_spec(52).osis@;
    book_48();
    book_49();
    book_50();
    book_51();
    lemma_not_eq_ic(canon_spec(51).osis@, k, 0);
    assert(first_book_match(k, 51) == first_book_match(k, 52));
    assert(first_book_match(k, 50) == first_book_match(k, 52));
    assert(first_book_match(k, 49) == first_book_match(k, 52));
    assert(first_book_match(k, 48) == first_book_match(k, 52));
}

proof fn found_by_osis_52()
    ensures
        lookup_canon_spec(canon_spec(52).osis@) == Some(canon_spec(52)),
{
    book_52();
    let k = canon_spec(52).osis@;
    lemma_plain_key(k);
    lemma_not_number(k, 1);
    misses_osis_52_0();
    misses_osis_52_16();
    misses_osis_52_32();
    misses_osis_52_48();
    assert(first_book_match(k, 52) == Some(52int));
}

#[verifier::rlimit(40)]
proof fn misses_abbreviation_52_0()
    ensures
        first_book_match(canon_spec(52).name_zh_short@, 0) == first_book_match(canon_spec(52).name_zh_short@, 16),
{
    book_52();
    let k = canon_spec(52).name_zh_short@;
    book_0();
    book_1();
    book_2();
    book_3();
    book_4();
    book_5();
    book_6();
    book_7();
    book_8();
    lemma_not_same(canon_spec(8).name_zh_short@, k, 0);
    book_9();
    lemma_not_same(canon_spec(9).name_zh_short@, k, 0);
    book_10();
    lemma_not_same(canon_spec(10).name_zh_short@, k, 0);
    book_11();
    lemma_not_same(canon_spec(11).name_zh_short@, k, 0);
    book_12();
    lemma_not_same(canon_spec(12).name_zh_short@, k, 0);
    book_13();
    lemma_not_same(canon_spec(13).name_zh_short@, k, 0);
    book_14();
    book_15();
    assert(first_book_match(k, 15) == first_book_match(k, 16));
    assert(first_book_match(k, 14) == first_book_match(k, 16));
    assert(first_book_match(k, 13) == first_book_match(k, 16));
    assert(first_book_match(k, 12) == first_book_match(k, 16));
    assert(first_book_match(k, 11) == first_book_match(k, 16));
    assert(first_book_match(k, 10) == first_book_match(k, 16));
    assert(first_book_match(k, 9) == first_book_match(k, 16));
    assert(first_book_match(k, 8) == first_book_match(k, 16));
    assert(first_book_match(k, 7) == first_book_match(k, 16));
    assert(first_book_match(k, 6) == first_book_match(k, 16));
    assert(first_book_match(k, 5) == first_book_match(k, 16));
    assert(first_book_match(k, 4) == first_book_match(k, 16));
    assert(first_book_match(k, 3) == first_book_match(k, 16));
    assert(first_book_match(k, 2) == first_book_match(k, 16));
    assert(first_book_match(k, 1) == first_book_match(k, 16));
    assert(first_book_match(k, 0) == first_book_match(k, 16));
}

#[verifier::rlimit(40)]
proof fn misses_abbreviation_52_16()
    ensures
        first_book_match(canon_spec(52).name_zh_short@, 16) == first_book_match(canon_spec(52).name_zh_short@, 32),
{
    book_52();
    let k = canon_spec(52).name_zh_short@;
    book_16();
    book_17();
    book_18();
    lemma_not_eq_ic(canon_spec(18).osis@, k, 0);
    lemma_not_same(canon_spec(18).name_zh@, k, 0);
    book_19();
    lemma_not_same(canon_spec(19).name_zh@, k, 0);
    book_20();
    book_21();
    lemma_not_same(canon_spec(21).name_zh@, k, 0);
    book_22();
    book_23();
    book_24();
    book_25();
    book_26();
    book_27();
    book_28();
    book_29();
    book_30();
    book_31();
    assert(first_book_match(k, 31) == first_book_match(k, 32));
    assert(first_book_match(k, 30) == first_book_match(k, 32));
    assert(first_book_match(k, 29) == first_book_match(k, 32));
    assert(first_book_match(k, 28) == first_book_match(k, 32));
    assert(first_book_match(k, 27) == first_book_match(k, 32));
    assert(first_book_match(k, 26) == first_book_match(k, 32));
    assert(first_book_match(k, 25) == first_book_match(k, 32));
    assert(first_book_match(k, 24) == first_book_match(k, 32));
    assert(first_book_match(k, 23) == first_book_match(k, 32));
    assert(first_book_match(k, 22) == first_book_match(k, 32));
    assert(first_book_match(k, 21) == first_book_match(k, 32));
    assert(first_book_match(k, 20) == first_book_match(k, 32));
    assert(first_book_match(k, 19) == first_book_match(k, 32));
    assert(first_book_match(k, 18) == first_book_match(k, 32));
    assert(first_book_match(k, 17) == first_book_match(k, 32));
    assert(first_book_match(k, 16) == first_book_match(k, 32));
}

#[verifier::rlimit(40)]
proof fn misses_abbreviation_52_32()
    ensures
        first_book_match(canon_spec(52).name_zh_short@, 32) == first_book_match(canon_spec(52).name_zh_short@, 48),
{
    book_52();
    let k = canon_spec(52).name_zh_short@;
    book_32();
    book_33();
    book_34();
    book_35();
    book_36();
    book_37();
    book_38();
    book_39();
    book_40();
    book_41();
    book_42();
    book_43();
    book_44();
    book_45();
    lemma_not_same(canon_spec(45).name_zh_short@, k, 0);
    book_46();
    lemma_not_same(canon_spec(46).name_zh_short@, k, 0);
    book_47();
    assert(first_book_match(k, 47) == first_book_match(k, 48));
    assert(first_book_match(k, 46) == first_book_match(k, 48));
    assert(first_book_match(k, 45) == first_book_match(k, 48));
    assert(first_book_match(k, 44) == first_book_match(k, 48));
    assert(first_book_match(k, 43) == first_book_match(k, 48));
    assert(first_book_match(k, 42) == first_book_match(k, 48));
    assert(first_book_match(k, 41) == first_book_match(k, 48));
    assert(first_book_match(k, 40) == first_book_match(k, 48));
    assert(first_book_match(k, 39) == first_book_match(k, 48));
    assert(first_book_match(k, 38) == first_book_match(k, 48));
    assert(first_book_match(k, 37) == first_book_match(k, 48));
    assert(first_book_match(k, 36) == first_book_match(k, 48));
    assert(first_book_match(k, 35) == first_book_match(k, 48));
    assert(first_book_match(k, 34) == first_book_match(k, 48));
    assert(first_book_match(k, 33) == first_book_match(k, 48));
    assert(first_book_match(k, 32) == first_book_match(k, 48));
}

#[verifier::rlimit(40)]
proof fn misses_abbreviation_52_48()
    ensures
        first_book_match(canon_spec(52).name_zh_short@, 48) == first_book_match(canon_spec(52).name_zh_short@, 52),
{
    book_52();
    let k = canon_spec(52).name_zh_short@;
    book_48();
    book_49();
    book_50();
    book_51();
    lemma_not_same(canon_spec(51).name_zh_short@, k, 1);
    assert(first_book_match(k, 51) == first_book_match(k, 52));
    assert(first_book_match(k, 50) == first_book_match(k, 52));
    assert(first_book_match(k, 49) == first_book_match(k, 52));
    assert(first_book_match(k, 48) == first_book_match(k, 52));
}

proof fn found_by_abbreviation_52()
    ensures
        lookup_canon_spec(canon_spec(52).name_zh_short@) == Some(canon_spec(52)),
{
    book_52();
    let k = canon_spec(52).name_zh_short@;
    lemma_plain_key(k);
    lemma_not_number(k, 0);
    misses_abbreviation_52_0();
    misses_abbreviation_52_16();
    misses_abbreviation_52_32();
    misses_abbreviation_52_48();
    assert(first_book_match(k, 52) == Some(52int));
}

#[verifier::rlimit(40)]
proof fn misses_english_52_0()
    ensures
        first_book_match(canon_spec(52).name_en@, 0) == first_book_match(canon_spec(52).name_en@, 16),
{
    book_52();
    let k = canon_spec(52).name_en@;
    book_0();
    book_1();
    book_2();
    book_3();
    book_4();
    book_5();
    book_6();
    book_7();
    book_8();
    book_9();
    book_10();
    book_11();
    book_12();
    book_13();
    book_14();
    book_15();
    assert(first_book_match(k, 15) == first_book_match(k, 16));
    assert(first_book_match(k, 14) == first_book_match(k, 16));
    assert(first_book_match(k, 13) == first_book_match(k, 16));
    assert(first_book_match(k, 12) == first_book_match(k, 16));
    assert(first_book_match(k, 11) == first_book_match(k, 16));
    assert(first_book_match(k, 10) == first_book_match(k, 16));
    assert(first_book_match(k, 9) == first_book_match(k, 16));
    assert(first_book_match(k, 8) == first_book_match(k, 16));
    assert(first_book_match(k, 7) == first_book_match(k, 16));
    assert(first_book_match(k, 6) == first_book_match(k, 16));
    assert(first_book_match(k, 5) == first_book_match(k, 16));
    assert(first_book_match(k, 4) == first_book_match(k, 16));
    assert(first_book_match(k, 3) == first_book_match(k, 16));
    assert(first_book_match(k, 2) == first_book_match(k, 16));
    assert(first_book_match(k, 1) == first_book_match(k, 16));
    assert(first_book_match(k, 0) == first_book_match(k, 16));
}

#[verifier::rlimit(40)]
proof fn misses_english_52_16()
    ensures
        first_book_match(canon_spec(52).name_en@, 16) == first_book_match(canon_spec(52).name_en@, 32),
{
    book_52();
    let k = canon_spec(52).name_en@;
    book_16();
    book_17();
    book_18();
    book_19();
    book_20();
    book_21();
    lemma_not_eq_ic(canon_spec(21).name_en@, k, 0);
    book_22();
    book_23();
    book_24();
    book_25();
    book_26();
    book_27();
    book_28();
    book_29();
    book_30();
    book_31();
    assert(first_book_match(k, 31) == first_book_match(k, 32));
    assert(first_book_match(k, 30) == first_book_match(k, 32));
    assert(first_book_match(k, 29) == first_book_match(k, 32));
    assert(first_book_match(k, 28) == first_book_match(k, 32));
    assert(first_book_match(k, 27) == first_book_match(k, 32));
    assert(first_book_match(k, 26) == first_book_match(k, 32));
    assert(first_book_match(k, 25) == first_book_match(k, 32));
    assert(first_book_match(k, 24) == first_book_match(k, 32));
    assert(first_book_match(k, 23) == first_book_match(k, 32));
    assert(first_book_match(k, 22) == first_book_match(k, 32));
    assert(first_book_match(k, 21) == first_book_match(k, 32));
    assert(first_book_match(k, 20) == first_book_match(k, 32));
    assert(first_book_match(k, 19) == first_book_match(k, 32));
    assert(first_book_match(k, 18) == first_book_match(k, 32));
    assert(first_book_match(k, 17) == first_book_match(k, 32));
    assert(first_book_match(k, 16) == first_book_match(k, 32));
}

#[verifier::rlimit(40)]
proof fn misses_english_52_32()
    ensures
        first_book_match(canon_spec(52).name_en@, 32) == first_book_match(canon_spec(52).name_en@, 48),
{
    book_52();
    let k = canon_spec(52).name_en@;
    book_32();
    book_33();
    book_34();
    book_35();
    book_36();
    book_37();
    book_38();
    book_39();
    book_40();
    book_41();
    book_42();
    book_43();
    book_44();
    book_45();
    book_46();
    book_47();
    assert(first_book_match(k, 47) == first_book_match(k, 48));
    assert(first_book_match(k, 46) == first_book_match(k, 48));
    assert(first_book_match(k, 45) == first_book_match(k, 48));
    assert(first_book_match(k, 44) == first_book_match(k, 48));
    assert(first_book_match(k, 43) == first_book_match(k, 48));
    assert(first_book_match(k, 42) == first_book_match(k, 48));
    assert(first_book_match(k, 41) == first_book_match(k, 48));
    assert(first_book_match(k, 40) == first_book_match(k, 48));
    assert(first_book_match(k, 39) == first_book_match(k, 48));
    assert(first_book_match(k, 38) == first_book_match(k, 48));
    assert(first_book_match(k, 37) == first_book_match(k, 48));
    assert(first_book_match(k, 36) == first_book_match(k, 48));
    assert(first_book_match(k, 35) == first_book_match(k, 48));
    assert(first_book_match(k, 34) == first_book_match(k, 48));
    assert(first_book_match(k, 33) == first_book_match(k, 48));
    assert(first_book_match(k, 32) == first_book_match(k, 48));
}

#[verifier::rlimit(40)]
proof fn misses_english_52_48()
    ensures
        first_book_match(canon_spec(52).name_en@, 48) == first_book_match(canon_spec(52).name_en@, 52),
{
    book_52();
    let k = canon_spec(52).name_en@;
    book_48();
    book_49();
    book_50();
    book_51();
    lemma_not_eq_ic(canon_spec(51).name_en@, k, 0);
    assert(first_book_match(k, 51) == first_book_match(k, 52));
    assert(first_book_match(k, 50) == first_book_match(k, 52));
    assert(first_book_match(k, 49) == first_book_match(k, 52));
    assert(first_book_match(k, 48) == first_book_match(k, 52));
}

proof fn found_by_english_52()
    ensures
        lookup_canon_spec(canon_spec(52).name_en@) == Some(canon_spec(52)),
{
    book_52();
    let k = canon_spec(52).name_en@;
    lemma_plain_key(k);
    lemma_not_number(k, 1);
    misses_english_52_0();
    misses_english_52_16();
    misses_english_52_32();
    misses_english_52_48();
    assert(first_book_match(k, 52) == Some(52int));
}

#[verifier::rlimit(40)]
proof fn misses_osis_53_0()
    ensures
        first_book_match(canon_spec(53).osis@, 0) == first_book_match(canon_spec(53).osis@, 16),
{
    book_53();
    let k = canon_spec(53).osis@;
    book_0();
    book_1();
    lemma_not_eq_ic(canon_spec(1).osis@, k, 0);
    lemma_not_same(canon_spec(1).name_zh@, k, 0);
    book_2();
    book_3();
    book_4();
    lemma_not_eq_ic(canon_spec(4).osis@, k, 0);
    book_5();
    lemma_not_eq_ic(canon_spec(5).osis@, k, 0);
    lemma_not_same(canon_spec(5).name_zh@, k, 0);
    book_6();
    lemma_not_eq_ic(canon_spec(6).osis@, k, 0);
    book_7();
    lemma_not_eq_ic(canon_spec(7).osis@, k, 0);
    lemma_not_eq_ic(canon_spec(7).name_en@, k, 0);
    book_8();
    lemma_not_eq_ic(canon_spec(8).osis@, k, 1);
    book_9();
    lemma_not_eq_ic(canon_spec(9).osis@, k, 0);
    book_10();
    lemma_not_eq_ic(canon_spec(10).osis@, k, 1);
    lemma_not_same(canon_spec(10).name_zh@, k, 0);
    book_11();
    lemma_not_eq_ic(canon_spec(11).osis@, k, 0);
    lemma_not_same(canon_spec(11).name_zh@, k, 0);
    book_12();
    lemma_not_eq_ic(canon_spec(12).osis@, k, 1);
    lemma_not_same(canon_spec(12).name_zh@, k, 0);
    book_13();
    lemma_not_eq_ic(canon_spec(13).osis@, k, 0);
    lemma_not_same(canon_spec(13).name_zh@, k, 0);
    book_14();
    lemma_not_eq_ic(canon_spec(14).osis@, k, 0);
    lemma_not_same(canon_spec(14).name_zh@, k, 0);
    lemma_not_eq_ic(canon_spec(14).name_en@, k, 0);
    book_15();
    lemma_not_same(canon_spec(15).name_zh@, k, 0);
    assert(first_book_match(k, 15) == first_book_match(k, 16));
    assert(first_book_match(k, 14) == first_book_match(k, 16));
    assert(first_book_match(k, 13) == first_book_match(k, 16));
    assert(first_book_match(k, 12) == first_book_match(k, 16));
    assert(first_book_match(k, 11) == first_book_match(k, 16));
    assert(first_book_match(k, 10) == first_book_match(k, 16));
    assert(first_book_match(k, 9) == first_book_match(k, 16));
    assert(first_book_match(k, 8) == first_book_match(k, 16));
    assert(first_book_match(k, 7) == first_book_match(k, 16));
    assert(first_book_match(k, 6) == first_book_match(k, 16));
    assert(first_book_match(k, 5) == first_book_match(k, 16));
    assert(first_book_match(k, 4) == first_book_match(k, 16));
    assert(first_book_match(k, 3) == first_book_match(k, 16));
    assert(first_book_match(k, 2) == first_book_match(k, 16));
    assert(first_book_match(k, 1) == first_book_match(k, 16));
    assert(first_book_match(k, 0) == first_book_match(k, 16));
}

#[verifier::rlimit(40)]
proof fn misses_osis_53_16()
    ensures
        first_book_match(canon_spec(53).osis@, 16) == first_book_match(canon_spec(53).osis@, 32),
{
    book_53();
    let k = canon_spec(53).osis@;
    book_16();
    lemma_not_eq_ic(canon_spec(16).osis@, k, 0);
    lemma_not_same(canon_spec(16).name_zh@, k, 0);
    book_17();
    book_18();
    book_19();
    lemma_not_eq_ic(canon_spec(19).osis@, k, 0);
    book_20();
    lemma_not_eq_ic(canon_spec(20).osis@, k, 0);
    book_21();
    lemma_not_eq_ic(canon_spec(21).osis@, k, 0);
    book_22();
    lemma_not_same(canon_spec(22).name_zh@, k, 0);
    book_23();
    lemma_not_same(canon_spec(23).name_zh@, k, 0);
    book_24();
    book_25();
    lemma_not_eq_ic(canon_spec(25).osis@, k, 0);
    lemma_not_same(canon_spec(25).name_zh@, k, 0);
    book_26();
    lemma_not_same(canon_spec(26).name_zh@, k, 0);
    book_27();
    lemma_not_same(canon_spec(27).name_zh@, k, 0);
    book_28();
    lemma_not_eq_ic(canon_spec(28).osis@, k, 0);
    lemma_not_eq_ic(canon_spec(28).name_en@, k, 0);
    book_29();
    lemma_not_eq_ic(canon_spec(29).osis@, k, 0);
    lemma_not_same(canon_spec(29).name_zh@, k, 0);
    lemma_not_eq_ic(canon_spec(29).name_en@, k, 0);
    book_30();
    lemma_not_eq_ic(canon_spec(30).osis@, k, 0);
    book_31();
    assert(first_book_match(k, 31) == first_book_match(k, 32));
    assert(first_book_match(k, 30) == first_book_match(k, 32));
    assert(first_book_match(k, 29) == first_book_match(k, 32));
    assert(first_book_match(k, 28) == first_book_match(k, 32));
    assert(first_book_match(k, 27) == first_book_match(k, 32));
    assert(first_book_match(k, 26) == first_book_match(k, 32));
    assert(first_book_match(k, 25) == first_book_match(k, 32));
    assert(first_book_match(k, 24) == first_book_match(k, 32));
    assert(first_book_match(k, 23) == first_book_match(k, 32));
    assert(first_book_match(k, 22) == first_book_match(k, 32));
    assert(first_book_match(k, 21) == first_book_match(k, 32));
    assert(first_book_match(k, 20) == first_book_match(k, 32));
    assert(first_book_match(k, 19) == first_book_match(k, 32));
    assert(first_book_match(k, 18) == first_book_match(k, 32));
    assert(first_book_match(k, 17) == first_book_match(k, 32));
    assert(first_book_match(k, 16) == first_book_match(k, 32));
}

#[verifier::rlimit(40)]
proof fn misses_osis_53_32()
    ensures
        first_book_match(canon_spec(53).osis@, 32) == first_book_match(canon_spec(53).osis@, 48),
{
    book_53();
    let k = canon_spec(53).osis@;
    book_32();
    book_33();
    book_34();
    lemma_not_same(canon_spec(34).name_zh@, k, 0);
    book_35();
    lemma_not_eq_ic(canon_spec(35).osis@, k, 0);
    lemma_not_same(canon_spec(35).name_zh@, k, 0);
    book_36();
    book_37();
    lemma_not_eq_ic(canon_spec(37).osis@, k, 0);
    book_38();
    lemma_not_same(canon_spec(38).name_zh@, k, 0);
    book_39();
    lemma_not_eq_ic(canon_spec(39).osis@, k, 0);
    lemma_not_same(canon_spec(39).name_zh@, k, 0);
    book_40();
    lemma_not_eq_ic(canon_spec(40).osis@, k, 0);
    lemma_not_same(canon_spec(40).name_zh@, k, 0);
    lemma_not_eq_ic(canon_spec(40).name_en@, k, 0);
    book_41();
    lemma_not_eq_ic(canon_spec(41).osis@, k, 0);
    lemma_not_same(canon_spec(41).name_zh@, k, 0);
    lemma_not_eq_ic(canon_spec(41).name_en@, k, 0);
    book_42();
    lemma_not_eq_ic(canon_spec(42).osis@, k, 0);
    lemma_not_same(canon_spec(42).name_zh@, k, 0);
    lemma_not_eq_ic(canon_spec(42).name_en@, k, 0);
    book_43();
    lemma_not_eq_ic(canon_spec(43).osis@, k, 0);
    lemma_not_same(canon_spec(43).name_zh@, k, 0);
    lemma_not_eq_ic(canon_spec(43).name_en@, k, 0);
    book_44();
    book_45();
    lemma_not_eq_ic(canon_spec(45).osis@, k, 1);
    book_46();
    lemma_not_eq_ic(canon_spec(46).osis@, k, 0);
    book_47();
    lemma_not_same(canon_spec(47).name_zh@, k, 0);
    assert(first_book_match(k, 47) == first_book_match(k, 48));
    assert(first_book_match(k, 46) == first_book_match(k, 48));
    assert(first_book_match(k, 45) == first_book_match(k, 48));
    assert(first_book_match(k, 44) == first_book_match(k, 48));
    assert(first_book_match(k, 43) == first_book_match(k, 48));
    assert(first_book_match(k, 42) == first_book_match(k, 48));
    assert(first_book_match(k, 41) == first_book_match(k, 48));
    assert(first_book_match(k, 40) == first_book_match(k, 48));
    assert(first_book_match(k, 39) == first_book_match(k, 48));
    assert(first_book_match(k, 38) == first_book_match(k, 48));
    assert(first_book_match(k, 37) == first_book_match(k, 48));
    assert(first_book_match(k, 36) == first_book_match(k, 48));
    assert(first_book_match(k, 35) == first_book_match(k, 48));
    assert(first_book_match(k, 34) == first_book_match(k, 48));
    assert(first_book_match(k, 33) == first_book_match(k, 48));
    assert(first_book_match(k, 32) == first_book_match(k, 48));
}

#[verifier::rlimit(40)]
proof fn misses_osis_53_48()
    ensures
        first_book_match(canon_spec(53).osis@, 48) == first_book_match(canon_spec(53).osis@, 53),
{
    book_53();
    let k = canon_spec(53).osis@;
    book_48();
    lemma_not_same(canon_spec(48).name_zh@, k, 0);
    book_49();
    lemma_not_eq_ic(canon_spec(49).osis@, k, 0);
    lemma_not_same(canon_spec(49).name_zh@, k, 0);
    book_50();
    lemma_not_same(canon_spec(50).name_zh@, k, 0);
    book_51();
    book_52();
    assert(first_book_match(k, 52) == first_book_match(k, 53));
    assert(first_book_match(k, 51) == first_book_match(k, 53));
    assert(first_book_match(k, 50) == first_book_match(k, 53));
    assert(first_book_match(k, 49) == first_book_match(k, 53));
    assert(first_book_match(k, 48) == first_book_match(k, 53));
}

proof fn found_by_osis_53()
    ensures
        lookup_canon_spec(canon_spec(53).osis@) == Some(canon_spec(53)),
{
    book_53();
    let k = canon_spec(53).osis@;
    lemma_plain_key(k);
    lemma_not_number(k, 1);
    misses_osis_53_0();
    misses_osis_53_16();
    misses_osis_53_32();
    misses_osis_53_48();
    assert(first_book_match(k, 53) == Some(53int));
}

#[verifier::rlimit(40)]
proof fn misses_abbreviation_53_0()
    ensures
        first_book_match(canon_spec(53).name_zh_short@, 0) == first_book_match(canon_spec(53).name_zh_short@, 16),
{
    book_53();
    let k = canon_spec(53).name_zh_short@;
    book_0();
    book_1();
    book_2();
    book_3();
    book_4();
    book_5();
    book_6();
    book_7();
    book_8();
    lemma_not_same(canon_spec(8).name_zh_short@, k, 0);
    book_9();
    lemma_not_same(canon_spec(9).name_zh_short@, k, 0);
    book_10();
    lemma_not_same(canon_spec(10).name_zh_short@, k, 0);
    book_11();
    lemma_not_same(canon_spec(11).name_zh_short@, k, 0);
    book_12();
    lemma_not_same(canon_spec(12).name_zh_short@, k, 0);
    book_13();
    lemma_not_same(canon_spec(13).name_zh_short@, k, 0);
    book_14();
    book_15();
    assert(first_book_match(k, 15) == first_book_match(k, 16));
    assert(first_book_match(k, 14) == first_book_match(k, 16));
    assert(first_book_match(k, 13) == first_book_match(k, 16));
    assert(first_book_match(k, 12) == first_book_match(k, 16));
    assert(first_book_match(k, 11) == first_book_match(k, 16));
    assert(first_book_match(k, 10) == first_book_match(k, 16));
    assert(first_book_match(k, 9) == first_book_match(k, 16));
    assert(first_book_match(k, 8) == first_book_match(k, 16));
    assert(first_book_match(k, 7) == first_book_match(k, 16));
    assert(first_book_match(k, 6) == first_book_match(k, 16));
    assert(first_book_match(k, 5) == first_book_match(k, 16));
    assert(first_book_match(k, 4) == first_book_match(k, 16));
    assert(first_book_match(k, 3) == first_book_match(k, 16));
    assert(first_book_match(k, 2) == first_book_match(k, 16));
    assert(first_book_match(k, 1) == first_book_match(k, 16));
    assert(first_book_match(k, 0) == first_book_match(k, 16));
}

#[verifier::rlimit(40)]
proof fn misses_abbreviation_53_16()
    ensures
        first_book_match(canon_spec(53).name_zh_short@, 16) == first_book_match(canon_spec(53).name_zh_short@, 32),
{
    book_53();
    let k = canon_spec(53).name_zh_short@;
    book_16();
    book_17();
    book_18();
    lemma_not_eq_ic(canon_spec(18).osis@, k, 0);
    lemma_not_same(canon_spec(18).name_zh@, k, 0);
    book_19();
    lemma_not_same(canon_spec(19).name_zh@, k, 0);
    book_20();
    book_21();
    lemma_not_same(canon_spec(21).name_zh@, k, 0);
    book_22();
    book_23();
    book_24();
    book_25();
    book_26();
    book_27();
    book_28();
    book_29();
    book_30();
    book_31();
    assert(first_book_match(k, 31) == first_book_match(k, 32));
    assert(first_book_match(k, 30) == first_book_match(k, 32));
    assert(first_book_match(k, 29) == first_book_match(k, 32));
    assert(first_book_match(k, 28) == first_book_match(k, 32));
    assert(first_book_match(k, 27) == first_book_match(k, 32));
    assert(first_book_match(k, 26) == first_book_match(k, 32));
    assert(first_book_match(k, 25) == first_book_match(k, 32));
    assert(first_book_match(k, 24) == first_book_match(k, 32));
    assert(first_book_match(k, 23) == first_book_match(k, 32));
    assert(first_book_match(k, 22) == first_book_match(k, 32));
    assert(first_book_match(k, 21) == first_book_match(k, 32));
    assert(first_book_match(k, 20) == first_book_match(k, 32));
    assert(first_book_match(k, 19) == first_book_match(k, 32));
    assert(first_book_match(k, 18) == first_book_match(k, 32));
    assert(first_book_match(k, 17) == first_book_match(k, 32));
    assert(first_book_match(k, 16) == first_book_match(k, 32));
}

#[verifier::rlimit(40)]
proof fn misses_abbreviation_53_32()
    ensures
        first_book_match(canon_spec(53).name_zh_short@, 32) == first_book_match(canon_spec(53).name_zh_short@, 48),
{
    book_53();
    let k = canon_spec(53).name_zh_short@;
    book_32();
    book_33();
    book_34();
    book_35();
    book_36();
    book_37();
    book_38();
    book_39();
    book_40();
    book_41();
    book_42();
    book_43();
    book_44();
    book_45();
    lemma_not_same(canon_spec(45).name_zh_short@, k, 0);
    book_46();
    lemma_not_same(canon_spec(46).name_zh_short@, k, 0);
    book_47();
    assert(first_book_match(k, 47) == first_book_match(k, 48));
    assert(first_book_match(k, 46) == first_book_match(k, 48));
    assert(first_book_match(k, 45) == first_book_match(k, 48));
    assert(first_book_match(k, 44) == first_book_match(k, 48));
    assert(first_book_match(k, 43) == first_book_match(k, 48));
    assert(first_book_match(k, 42) == first_book_match(k, 48));
    assert(first_book_match(k, 41) == first_book_match(k, 48));
    assert(first_book_match(k, 40) == first_book_match(k, 48));
    assert(first_book_match(k, 39) == first_book_match(k, 48));
    assert(first_book_match(k, 38) == first_book_match(k, 48));
    assert(first_book_match(k, 37) == first_book_match(k, 48));
    assert(first_book_match(k, 36) == first_book_match(k, 48));
    assert(first_book_match(k, 35) == first_book_match(k, 48));
    assert(first_book_match(k, 34) == first_book_match(k, 48));
    assert(first_book_match(k, 33) == first_book_match(k, 48));
    assert(first_book_match(k, 32) == first_book_match(k, 48));
}

#[verifier::rlimit(40)]
proof fn misses_abbreviation_53_48()
    ensures
        first_book_match(canon_spec(53).name_zh_short@, 48) == first_book_match(canon_spec(53).name_zh_short@, 53),
{
    book_53();
    let k = canon_spec(53).name_zh_short@;
    book_48();
    book_49();
    book_50();
    book_51();
    lemma_not_same(canon_spec(51).name_zh_short@, k, 0);
    book_52();
    lemma_not_same(canon_spec(52).name_zh_short@, k, 0);
    assert(first_book_match(k, 52) == first_book_match(k, 53));
    assert(first_book_match(k, 51) == first_book_match(k, 53));
    assert(first_book_match(k, 50) == first_book_match(k, 53));
    assert(first_book_match(k, 49) == first_book_match(k, 53));
    assert(first_book_match(k, 48) == first_book_match(k, 53));
}

proof fn found_by_abbreviation_53()
    ensures
        lookup_canon_spec(canon_spec(53).name_zh_short@) == Some(canon_spec(53)),
{
    book_53();
    let k = canon_spec(53).name_zh_short@;
    lemma_plain_key(k);
    lemma_not_number(k, 0);
    misses_abbreviation_53_0();
    misses_abbreviation_53_16();
    misses_abbreviation_53_32();
    misses_abbreviation_53_48();
    assert(first_book_match(k, 53) == Some(53int));
}

#[verifier::rlimit(40)]
proof fn misses_english_53_0()
    ensures
        first_book_match(canon_spec(53).name_en@, 0) == first_book_match(canon_spec(53).name_en@, 16),
{
    book_53();
    let k = canon_spec(53).name_en@;
    book_0();
    book_1();
    book_2();
    lemma_not_eq_ic(canon_spec(2).name_en@, k, 0);
    book_3();
    book_4();
    book_5();
    book_6();
    book_7();
    book_8();
    book_9();
    book_10();
    book_11();
    book_12();
    book_13();
    book_14();
    book_15();
    assert(first_book_match(k, 15) == first_book_match(k, 16));
    assert(first_book_match(k, 14) == first_book_match(k, 16));
    assert(first_book_match(k, 13) == first_book_match(k, 16));
    assert(first_book_match(k, 12) == first_book_match(k, 16));
    assert(first_book_match(k, 11) == first_book_match(k, 16));
    assert(first_book_match(k, 10) == first_book_match(k, 16));
    assert(first_book_match(k, 9) == first_book_match(k, 16));
    assert(first_book_match(k, 8) == first_book_match(k, 16));
    assert(first_book_match(k, 7) == first_book_match(k, 16));
    assert(first_book_match(k, 6) == first_book_match(k, 16));
    assert(first_book_match(k, 5) == first_book_match(k, 16));
    assert(first_book_match(k, 4) == first_book_match(k, 16));
    assert(first_book_match(k, 3) == first_book_match(k, 16));
    assert(first_book_match(k, 2) == first_book_match(k, 16));
    assert(first_book_match(k, 1) == first_book_match(k, 16));
    assert(first_book_match(k, 0) == first_book_match(k, 16));
}

#[verifier::rlimit(40)]
proof fn misses_english_53_16()
    ensures
        first_book_match(canon_spec(53).name_en@, 16) == first_book_match(canon_spec(53).name_en@, 32),
{
    book_53();
    let k = canon_spec(53).name_en@;
    book_16();
    book_17();
    book_18();
    book_19();
    book_20();
    book_21();
    book_22();
    book_23();
    book_24();
    book_25();
    book_26();
    book_27();
    book_28();
    book_29();
    book_30();
    book_31();
    assert(first_book_match(k, 31) == first_book_match(k, 32));
    assert(first_book_match(k, 30) == first_book_match(k, 32));
    assert(first_book_match(k, 29) == first_book_match(k, 32));
    assert(first_book_match(k, 28) == first_book_match(k, 32));
    assert(first_book_match(k, 27) == first_book_match(k, 32));
    assert(first_book_match(k, 26) == first_book_match(k, 32));
    assert(first_book_match(k, 25) == first_book_match(k, 32));
    assert(first_book_match(k, 24) == first_book_match(k, 32));
    assert(first_book_match(k, 23) == first_book_match(k, 32));
    assert(first_book_match(k, 22) == first_book_match(k, 32));
    assert(first_book_match(k, 21) == first_book_match(k, 32));
    assert(first_book_match(k, 20) == first_book_match(k, 32));
    assert(first_book_match(k, 19) == first_book_match(k, 32));
    assert(first_book_match(k, 18) == first_book_match(k, 32));
    assert(first_book_match(k, 17) == first_book_match(k, 32));
    assert(first_book_match(k, 16) == first_book_match(k, 32));
}

#[verifier::rlimit(40)]
proof fn misses_english_53_32()
    ensures
        first_book_match(canon_spec(53).name_en@, 32) == first_book_match(canon_spec(53).name_en@, 48),
{
    book_53();
    let k = canon_spec(53).name_en@;
    book_32();
    book_33();
    book_34();
    book_35();
    lemma_not_eq_ic(canon_spec(35).name_en@, k, 0);
    book_36();
    book_37();
    lemma_not_eq_ic(canon_spec(37).name_en@, k, 0);
    book_38();
    book_39();
    book_40();
    book_41();
    book_42();
    book_43();
    book_44();
    book_45();
    book_46();
    book_47();
    lemma_not_eq_ic(canon_spec(47).name_en@, k, 0);
    assert(first_book_match(k, 47) == first_book_match(k, 48));
    assert(first_book_match(k, 46) == first_book_match(k, 48));
    assert(first_book_match(k, 45) == first_book_match(k, 48));
    assert(first_book_match(k, 44) == first_book_match(k, 48));
    assert(first_book_match(k, 43) == first_book_match(k, 48));
    assert(first_book_match(k, 42) == first_book_match(k, 48));
    assert(first_book_match(k, 41) == first_book_match(k, 48));
    assert(first_book_match(k, 40) == first_book_match(k, 48));
    assert(first_book_match(k, 39) == first_book_match(k, 48));
    assert(first_book_match(k, 38) == first_book_match(k, 48));
    assert(first_book_match(k, 37) == first_book_match(k, 48));
    assert(first_book_match(k, 36) == first_book_match(k, 48));
    assert(first_book_match(k, 35) == first_book_match(k, 48));
    assert(first_book_match(k, 34) == first_book_match(k, 48));
    assert(first_book_match(k, 33) == first_book_match(k, 48));
    assert(first_book_match(k, 32) == first_book_match(k, 48));
}

#[verifier::rlimit(40)]
proof fn misses_english_53_48()
    ensures
        first_book_match(canon_spec(53).name_en@, 48) == first_book_match(canon_spec(53).name_en@, 53),
{
    book_53();
    let k = canon_spec(53).name_en@;
    book_48();
    lemma_not_eq_ic(canon_spec(48).name_en@, k, 0);
    book_49();
    book_50();
    book_51();
    book_52();
    assert(first_book_match(k, 52) == first_book_match(k, 53));
    assert(first_book_match(k, 51) == first_book_match(k, 53));
    assert(first_book_match(k, 50) == first_book_match(k, 53));
    assert(first_book_match(k, 49) == first_book_match(k, 53));
    assert(first_book_match(k, 48) == first_book_match(k, 53));
}

proof fn found_by_english_53()
    ensures
        lookup_canon_spec(canon_spec(53).name_en@) == Some(canon_spec(53)),
{
    book_53();
    let k = canon_spec(53).name_en@;
    lemma_plain_key(k);
    lemma_not_number(k, 1);
    misses_english_53_0();
    misses_english_53_16();
    misses_english_53_32();
    misses_english_53_48();
    assert(first_book_match(k, 53) == Some(53int));
}

#[verifier::rlimit(40)]
proof fn misses_osis_54_0()
    ensures
        first_book_match(canon_spec(54).osis@, 0) == first_book_match(canon_spec(54).osis@, 16),
{
    book_54();
    let k = canon_spec(54).osis@;
    book_0();
    book_1();
    lemma_not_eq_ic(canon_spec(1).osis@, k, 0);
    lemma_not_same(canon_spec(1).name_zh@, k, 0);
    book_2();
    book_3();
    book_4();
    lemma_not_eq_ic(canon_spec(4).osis@, k, 0);
    book_5();
    lemma_not_eq_ic(canon_spec(5).osis@, k, 0);
    lemma_not_same(canon_spec(5).name_zh@, k, 0);
    book_6();
    lemma_not_eq_ic(canon_spec(6).osis@, k, 0);
    book_7();
    lemma_not_eq_ic(canon_spec(7).osis@, k, 0);
    lemma_not_eq_ic(canon_spec(7).name_en@, k, 0);
    book_8();
    lemma_not_eq_ic(canon_spec(8).osis@, k, 0);
    book_9();
    lemma_not_eq_ic(canon_spec(9).osis@, k, 1);
    book_10();
    lemma_not_eq_ic(canon_spec(10).osis@, k, 0);
    lemma_not_same(canon_spec(10).name_zh@, k, 0);
    book_11();
    lemma_not_eq_ic(canon_spec(11).osis@, k, 1);
    lemma_not_same(canon_spec(11).name_zh@, k, 0);
    book_12();
    lemma_not_eq_ic(canon_spec(12).osis@, k, 0);
    lemma_not_same(canon_spec(12).name_zh@, k, 0);
    book_13();
    lemma_not_eq_ic(canon_spec(13).osis@, k, 1);
    lemma_not_same(canon_spec(13).name_zh@, k, 0);
    book_14();
    lemma_not_eq_ic(canon_spec(14).osis@, k, 0);
    lemma_not_same(canon_spec(14).name_zh@, k, 0);
    lemma_not_eq_ic(canon_spec(14).name_en@, k, 0);
    book_15();
    lemma_not_same(canon_spec(15).name_zh@, k, 0);
    assert(first_book_match(k, 15) == first_book_match(k, 16));
    assert(first_book_match(k, 14) == first_book_match(k, 16));
    assert(first_book_match(k, 13) == first_book_match(k, 16));
    assert(first_book_match(k, 12) == first_book_match(k, 16));
    assert(first_book_match(k, 11) == first_book_match(k, 16));
    assert(first_book_match(k, 10) == first_book_match(k, 16));
    assert(first_book_match(k, 9) == first_book_match(k, 16));
    assert(first_book_match(k, 8) == first_book_match(k, 16));
    assert(first_book_match(k, 7) == first_book_match(k, 16));
    assert(first_book_match(k, 6) == first_book_match(k, 16));
    assert(first_book_match(k, 5) == first_book_match(k, 16));
    assert(first_book_match(k, 4) == first_book_match(k, 16));
    assert(first_book_match(k, 3) == first_book_match(k, 16));
    assert(first_book_match(k, 2) == first_book_match(k, 16));
    assert(first_book_match(k, 1) == first_book_match(k, 16));
    assert(first_book_match(k, 0) == first_book_match(k, 16));
}

#[verifier::rlimit(40)]
proof fn misses_osis_54_16()
    ensures
        first_book_match(canon_spec(54).osis@, 16) == first_book_match(canon_spec(54).osis@, 32),
{
    book_54();
    let k = canon_spec(54).osis@;
    book_16();
    lemma_not_eq_ic(canon_spec(16).osis@, k, 0);
    lemma_not_same(canon_spec(16).name_zh@, k, 0);
    book_17();
    book_18();
    book_19();
    lemma_not_eq_ic(canon_spec(19).osis@, k, 0);
    book_20();
    lemma_not_eq_ic(canon_spec(20).osis@, k, 0);
    book_21();
    lemma_not_eq_ic(canon_spec(21).osis@, k, 0);
    book_22();
    lemma_not_same(canon_spec(22).name_zh@, k, 0);
    book_23();
    lemma_not_same(canon_spec(23).name_zh@, k, 0);
    book_24();
    book_25();
    lemma_not_eq_ic(canon_spec(25).osis@, k, 0);
    lemma_not_same(canon_spec(25).name_zh@, k, 0);
    book_26();
    lemma_not_same(canon_spec(26).name_zh@, k, 0);
    book_27();
    lemma_not_same(canon_spec(27).name_zh@, k, 0);
    book_28();
    lemma_not_eq_ic(canon_spec(28).osis@, k, 0);
    lemma_not_eq_ic(canon_spec(28).name_en@, k, 0);
    book_29();
    lemma_not_eq_ic(canon_spec(29).osis@, k, 0);
    lemma_not_same(canon_spec(29).name_zh@, k, 0);
    lemma_not_eq_ic(canon_spec(29).name_en@, k, 0);
    book_30();
    lemma_not_eq_ic(canon_spec(30).osis@, k, 0);
    book_31();
    assert(first_book_match(k, 31) == first_book_match(k, 32));
    assert(first_book_match(k, 30) == first_book_match(k, 32));
    assert(first_book_match(k, 29) == first_book_match(k, 32));
    assert(first_book_match(k, 28) == first_book_match(k, 32));
    assert(first_book_match(k, 27) == first_book_match(k, 32));
    assert(first_book_match(k, 26) == first_book_match(k, 32));
    assert(first_book_match(k, 25) == first_book_match(k, 32));
    assert(first_book_match(k, 24) == first_book_match(k, 32));
    assert(first_book_match(k, 23) == first_book_match(k, 32));
    assert(first_book_match(k, 22) == first_book_match(k, 32));
    assert(first_book_match(k, 21) == first_book_match(k, 32));
    assert(first_book_match(k, 20) == first_book_match(k, 32));
    assert(first_book_match(k, 19) == first_book_match(k, 32));
    assert(first_book_match(k, 18) == first_book_match(k, 32));
    assert(first_book_match(k, 17) == first_book_match(k, 32));
    assert(first_book_match(k, 16) == first_book_match(k, 32));
}

#[verifier::rlimit(40)]
proof fn misses_osis_54_32()
    ensures
        first_book_match(canon_spec(54).osis@, 32) == first_book_match(canon_spec(54).osis@, 48),
{
    book_54();
    let k = canon_spec(54).osis@;
    book_32();
    book_33();
    book_34();
    lemma_not_same(canon_spec(34).name_zh@, k, 0);
    book_35();
    lemma_not_eq_ic(canon_spec(35).osis@, k, 0);
    lemma_not_same(canon_spec(35).name_zh@, k, 0);
    book_36();
    book_37();
    lemma_not_eq_ic(canon_spec(37).osis@, k, 0);
    book_38();
    lemma_not_same(canon_spec(38).name_zh@, k, 0);
    book_39();
    lemma_not_eq_ic(canon_spec(39).osis@, k, 0);
    lemma_not_same(canon_spec(39).name_zh@, k, 0);
    book_40();
    lemma_not_eq_ic(canon_spec(40).osis@, k, 0);
    lemma_not_same(canon_spec(40).name_zh@, k, 0);
    lemma_not_eq_ic(canon_spec(40).name_en@, k, 0);
    book_41();
    lemma_not_eq_ic(canon_spec(41).osis@, k, 0);
    lemma_not_same(canon_spec(41).name_zh@, k, 0);
    lemma_not_eq_ic(canon_spec(41).name_en@, k, 0);
    book_42();
    lemma_not_eq_ic(canon_spec(42).osis@, k, 0);
    lemma_not_same(canon_spec(42).name_zh@, k, 0);
    lemma_not_eq_ic(canon_spec(42).name_en@, k, 0);
    book_43();
    lemma_not_eq_ic(canon_spec(43).osis@, k, 0);
    lemma_not_same(canon_spec(43).name_zh@, k, 0);
    lemma_not_eq_ic(canon_spec(43).name_en@, k, 0);
    book_44();
    book_45();
    lemma_not_eq_ic(canon_spec(45).osis@, k, 0);
    book_46();
    lemma_not_eq_ic(canon_spec(46).osis@, k, 1);
    book_47();
    lemma_not_same(canon_spec(47).name_zh@, k, 0);
    assert(first_book_match(k, 47) == first_book_match(k, 48));
    assert(first_book_match(k, 46) == first_book_match(k, 48));
    assert(first_book_match(k, 45) == first_book_match(k, 48));
    assert(first_book_match(k, 44) == first_book_match(k, 48));
    assert(first_book_match(k, 43) == first_book_match(k, 48));
    assert(first_book_match(k, 42) == first_book_match(k, 48));
    assert(first_book_match(k, 41) == first_book_match(k, 48));
    assert(first_book_match(k, 40) == first_book_match(k, 48));
    assert(first_book_match(k, 39) == first_book_match(k, 48));
    assert(first_book_match(k, 38) == first_book_match(k, 48));
    assert(first_book_match(k, 37) == first_book_match(k, 48));
    assert(first_book_match(k, 36) == first_book_match(k, 48));
    assert(first_book_match(k, 35) == first_book_match(k, 48));
    assert(first_book_match(k, 34) == first_book_match(k, 48));
    assert(first_book_match(k, 33) == first_book_match(k, 48));
    assert(first_book_match(k, 32) == first_book_match(k, 48));
}

#[verifier::rlimit(40)]
proof fn misses_osis_54_48()
    ensures
        first_book_match(canon_spec(54).osis@, 48) == first_book_match(canon_spec(54).osis@, 54),
{
    book_54();
    let k = canon_spec(54).osis@;
    book_48();
    lemma_not_same(canon_spec(48).name_zh@, k, 0);
    book_49();
    lemma_not_eq_ic(canon_spec(49).osis@, k, 0);
    lemma_not_same(canon_spec(49).name_zh@, k, 0);
    book_50();
    lemma_not_same(canon_spec(50).name_zh@, k, 0);
    book_51();
    book_52();
    book_53();
    lemma_not_eq_ic(canon_spec(53).osis@, k, 0);
    assert(first_book_match(k, 53) == first_book_match(k, 54));
    assert(first_book_match(k, 52) == first_book_match(k, 54));
    assert(first_book_match(k, 51) == first_book_match(k, 54));
    assert(first_book_match(k, 50) == first_book_match(k, 54));
    assert(first_book_match(k, 49) == first_book_match(k, 54));
    assert(first_book_match(k, 48) == first_book_match(k, 54));
}

proof fn found_by_osis_54()
    ensures
        lookup_canon_spec(canon_spec(54).osis@) == Some(canon_spec(54)),
{
    book_54();
    let k = canon_spec(54).osis@;
    lemma_plain_key(k);
    lemma_not_number(k, 1);
    misses_osis_54_0();
    misses_osis_54_16();
    misses_osis_54_32();
    misses_osis_54_48();
    assert(first_book_match(k, 54) == Some(54int));
}

#[verifier::rlimit(40)]
proof fn misses_abbreviation_54_0()
    ensures
        first_book_match(canon_spec(54).name_zh_short@, 0) == first_book_match(canon_spec(54).name_zh_short@, 16),
{
    book_54();
    let k = canon_spec(54).name_zh_short@;
    book_0();
    book_1();
    book_2();
    book_3();
    book_4();
    book_5();
    book_6();
    book_7();
    book_8();
    lemma_not_same(canon_spec(8).name_zh_short@, k, 0);
    book_9();
    lemma_not_same(canon_spec(9).name_zh_short@, k, 0);
    book_10();
    lemma_not_same(canon_spec(10).name_zh_short@, k, 0);
    book_11();
    lemma_not_same(canon_spec(11).name_zh_short@, k, 0);
    book_12();
    lemma_not_same(canon_spec(12).name_zh_short@, k, 0);
    book_13();
    lemma_not_same(canon_spec(13).name_zh_short@, k, 0);
    book_14();
    book_15();
    assert(first_book_match(k, 15) == first_book_match(k, 16));
    assert(first_book_match(k, 14) == first_book_match(k, 16));
    assert(first_book_match(k, 13) == first_book_match(k, 16));
    assert(first_book_match(k, 12) == first_book_match(k, 16));
    assert(first_book_match(k, 11) == first_book_match(k, 16));
    assert(first_book_match(k, 10) == first_book_match(k, 16));
    assert(first_book_match(k, 9) == first_book_match(k, 16));
    assert(first_book_match(k, 8) == first_book_match(k, 16));
    assert(first_book_match(k, 7) == first_book_match(k, 16));
    assert(first_book_match(k, 6) == first_book_match(k, 16));
    assert(first_book_match(k, 5) == first_book_match(k, 16));
    assert(first_book_match(k, 4) == first_book_match(k, 16));
    assert(first_book_match(k, 3) == first_book_match(k, 16));
    assert(first_book_match(k, 2) == first_book_match(k, 16));
    assert(first_book_match(k, 1) == first_book_match(k, 16));
    assert(first_book_match(k, 0) == first_book_match(k, 16));
}

#[verifier::rlimit(40)]
proof fn misses_abbreviation_54_16()
    ensures
        first_book_match(canon_spec(54).name_zh_short@, 16) == first_book_match(canon_spec(54).name_zh_short@, 32),
{
    book_54();
    let k = canon_spec(54).name_zh_short@;
    book_16();
    book_17();
    book_18();
    lemma_not_eq_ic(canon_spec(18).osis@, k, 0);
    lemma_not_same(canon_spec(18).name_zh@, k, 0);
    book_19();
    lemma_not_same(canon_spec(19).name_zh@, k, 0);
    book_20();
    book_21();
    lemma_not_same(canon_spec(21).name_zh@, k, 0);
    book_22();
    book_23();
    book_24();
    book_25();
    book_26();
    book_27();
    book_28();
    book_29();
    book_30();
    book_31();
    assert(first_book_match(k, 31) == first_book_match(k, 32));
    assert(first_book_match(k, 30) == first_book_match(k, 32));
    assert(first_book_match(k, 29) == first_book_match(k, 32));
    assert(first_book_match(k, 28) == first_book_match(k, 32));
    assert(first_book_match(k, 27) == first_book_match(k, 32));
    assert(first_book_match(k, 26) == first_book_match(k, 32));
    assert(first_book_match(k, 25) == first_book_match(k, 32));
    assert(first_book_match(k, 24) == first_book_match(k, 32));
    assert(first_book_match(k, 23) == first_book_match(k, 32));
    assert(first_book_match(k, 22) == first_book_match(k, 32));
    assert(first_book_match(k, 21) == first_book_match(k, 32));
    assert(first_book_match(k, 20) == first_book_match(k, 32));
    assert(first_book_match(k, 19) == first_book_match(k, 32));
    assert(first_book_match(k, 18) == first_book_match(k, 32));
    assert(first_book_match(k, 17) == first_book_match(k, 32));
    assert(first_book_match(k, 16) == first_book_match(k, 32));
}

#[verifier::rlimit(40)]
proof fn misses_abbreviation_54_32()
    ensures
        first_book_match(canon_spec(54).name_zh_short@, 32) == first_book_match(canon_spec(54).name_zh_short@, 48),
{
    book_54();
    let k = canon_spec(54).name_zh_short@;
    book_32();
    book_33();
    book_34();
    book_35();
    book_36();
    book_37();
    book_38();
    book_39();
    book_40();
    book_41();
    book_42();
    book_43();
    book_44();
    book_45();
    lemma_not_same(canon_spec(45).name_zh_short@, k, 0);
    book_46();
    lemma_not_same(canon_spec(46).name_zh_short@, k, 0);
    book_47();
    assert(first_book_match(k, 47) == first_book_match(k, 48));
    assert(first_book_match(k, 46) == first_book_match(k, 48));
    assert(first_book_match(k, 45) == first_book_match(k, 48));
    assert(first_book_match(k, 44) == first_book_match(k, 48));
    assert(first_book_match(k, 43) == first_book_match(k, 48));
    assert(first_book_match(k, 42) == first_book_match(k, 48));
    assert(first_book_match(k, 41) == first_book_match(k, 48));
    assert(first_book_match(k, 40) == first_book_match(k, 48));
    assert(first_book_match(k, 39) == first_book_match(k, 48));
    assert(first_book_match(k, 38) == first_book_match(k, 48));
    assert(first_book_match(k, 37) == first_book_match(k, 48));
    assert(first_book_match(k, 36) == first_book_match(k, 48));
    assert(first_book_match(k, 35) == first_book_match(k, 48));
    assert(first_book_match(k, 34) == first_book_match(k, 48));
    assert(first_book_match(k, 33) == first_book_match(k, 48));
    assert(first_book_match(k, 32) == first_book_match(k, 48));
}

#[verifier::rlimit(40)]
proof fn misses_abbreviation_54_48()
    ensures
        first_book_match(canon_spec(54).name_zh_short@, 48) == first_book_match(canon_spec(54).name_zh_short@, 54),
{
    book_54();
    let k = canon_spec(54).name_zh_short@;
    book_48();
    book_49();
    book_50();
    book_51();
    lemma_not_same(canon_spec(51).name_zh_short@, k, 0);
    book_52();
    lemma_not_same(canon_spec(52).name_zh_short@, k, 0);
    book_53();
    lemma_not_same(canon_spec(53).name_zh_short@, k, 1);
    assert(first_book_match(k, 53) == first_book_match(k, 54));
    assert(first_book_match(k, 52) == first_book_match(k, 54));
    assert(first_book_match(k, 51) == first_book_match(k, 54));
    assert(first_book_match(k, 50) == first_book_match(k, 54));
    assert(first_book_match(k, 49) == first_book_match(k, 54));
    assert(first_book_match(k, 48) == first_book_match(k, 54));
}

proof fn found_by_abbreviation_54()
    ensures
        lookup_canon_spec(canon_spec(54).name_zh_short@) == Some(canon_spec(54)),
{
    book_54();
    let k = canon_spec(54).name_zh_short@;
    lemma_plain_key(k);
    lemma_not_number(k, 0);
    misses_abbreviation_54_0();
    misses_abbreviation_54_16();
    misses_abbreviation_54_32();
    misses_abbreviation_54_48();
    assert(first_book_match(k, 54) == Some(54int));
}

#[verifier::rlimit(40)]
proof fn misses_english_54_0()
    ensures
        first_book_match(canon_spec(54).name_en@, 0) == first_book_match(canon_spec(54).name_en@, 16),
{
    book_54();
    let k = canon_spec(54).name_en@;
    book_0();
    book_1();
    book_2();
    lemma_not_eq_ic(canon_spec(2).name_en@, k, 0);
    book_3();
    book_4();
    book_5();
    book_6();
    book_7();
    book_8();
    book_9();
    book_10();
    book_11();
    book_12();
    book_13();
    book_14();
    book_15();
    assert(first_book_match(k, 15) == first_book_match(k, 16));
    assert(first_book_match(k, 14) == first_book_match(k, 16));
    assert(first_book_match(k, 13) == first_book_match(k, 16));
    assert(first_book_match(k, 12) == first_book_match(k, 16));
    assert(first_book_match(k, 11) == first_book_match(k, 16));
    assert(first_book_match(k, 10) == first_book_match(k, 16));
    assert(first_book_match(k, 9) == first_book_match(k, 16));
    assert(first_book_match(k, 8) == first_book_match(k, 16));
    assert(first_book_match(k, 7) == first_book_match(k, 16));
    assert(first_book_match(k, 6) == first_book_match(k, 16));
    assert(first_book_match(k, 5) == first_book_match(k, 16));
    assert(first_book_match(k, 4) == first_book_match(k, 16));
    assert(first_book_match(k, 3) == first_book_match(k, 16));
    assert(first_book_match(k, 2) == first_book_match(k, 16));
    assert(first_book_match(k, 1) == first_book_match(k, 16));
    assert(first_book_match(k, 0) == first_book_match(k, 16));
}

#[verifier::rlimit(40)]
proof fn misses_english_54_16()
    ensures
        first_book_match(canon_spec(54).name_en@, 16) == first_book_match(canon_spec(54).name_en@, 32),
{
    book_54();
    let k = canon_spec(54).name_en@;
    book_16();
    book_17();
    book_18();
    book_19();
    book_20();
    book_21();
    book_22();
    book_23();
    book_24();
    book_25();
    book_26();
    book_27();
    book_28();
    book_29();
    book_30();
    book_31();
    assert(first_book_match(k, 31) == first_book_match(k, 32));
    assert(first_book_match(k, 30) == first_book_match(k, 32));
    assert(first_book_match(k, 29) == first_book_match(k, 32));
    assert(first_book_match(k, 28) == first_book_match(k, 32));
    assert(first_book_match(k, 27) == first_book_match(k, 32));
    assert(first_book_match(k, 26) == first_book_match(k, 32));
    assert(first_book_match(k, 25) == first_book_match(k, 32));
    assert(first_book_match(k, 24) == first_book_match(k, 32));
    assert(first_book_match(k, 23) == first_book_match(k, 32));
    assert(first_book_match(k, 22) == first_book_match(k, 32));
    assert(first_book_match(k, 21) == first_book_match(k, 32));
    assert(first_book_match(k, 20) == first_book_match(k, 32));
    assert(first_book_match(k, 19) == first_book_match(k, 32));
    assert(first_book_match(k, 18) == first_book_match(k, 32));
    assert(first_book_match(k, 17) == first_book_match(k, 32));
    assert(first_book_match(k, 16) == first_book_match(k, 32));
}

#[verifier::rlimit(40)]
proof fn misses_english_54_32()
    ensures
        first_book_match(canon_spec(54).name_en@, 32) == first_book_match(canon_spec(54).name_en@, 48),
{
    book_54();
    let k = canon_spec(54).name_en@;
    book_32();
    book_33();
    book_34();
    book_35();
    lemma_not_eq_ic(canon_spec(35).name_en@, k, 0);
    book_36();
    book_37();
    lemma_not_eq_ic(canon_spec(37).name_en@, k, 0);
    book_38();
    book_39();
    book_40();
    book_41();
    book_42();
    book_43();
    book_44();
    book_45();
    book_46();
    book_47();
    lemma_not_eq_ic(canon_spec(47).name_en@, k, 0);
    assert(first_book_match(k, 47) == first_book_match(k, 48));
    assert(first_book_match(k, 46) == first_book_match(k, 48));
    assert(first_book_match(k, 45) == first_book_match(k, 48));
    assert(first_book_match(k, 44) == first_book_match(k, 48));
    assert(first_book_match(k, 43) == first_book_match(k, 48));
    assert(first_book_match(k, 42) == first_book_match(k, 48));
    assert(first_book_match(k, 41) == first_book_match(k, 48));
    assert(first_book_match(k, 40) == first_book_match(k, 48));
    assert(first_book_match(k, 39) == first_book_match(k, 48));
    assert(first_book_match(k, 38) == first_book_match(k, 48));
    assert(first_book_match(k, 37) == first_book_match(k, 48));
    assert(first_book_match(k, 36) == first_book_match(k, 48));
    assert(first_book_match(k, 35) == first_book_match(k, 48));
    assert(first_book_match(k, 34) == first_book_match(k, 48));
    assert(first_book_match(k, 33) == first_book_match(k, 48));
    assert(first_book_match(k, 32) == first_book_match(k, 48));
}

#[verifier::rlimit(40)]
proof fn misses_english_54_48()
    ensures
        first_book_match(canon_spec(54).name_en@, 48) == first_book_match(canon_spec(54).name_en@, 54),
{
    book_54();
    let k = canon_spec(54).name_en@;
    book_48();
    lemma_not_eq_ic(canon_spec(48).name_en@, k, 0);
    book_49();
    book_50();
    book_51();
    book_52();
    book_53();
    lemma_not_eq_ic(canon_spec(53).name_en@, k, 0);
    assert(first_book_match(k, 53) == first_book_match(k, 54));
    assert(first_book_match(k, 52) == first_book_match(k, 54));
    assert(first_book_match(k, 51) == first_book_match(k, 54));
    assert(first_book_match(k, 50) == first_book_match(k, 54));
    assert(first_book_match(k, 49) == first_book_match(k, 54));
    assert(first_book_match(k, 48) == first_book_match(k, 54));
}

proof fn found_by_english_54()
    ensures
        lookup_canon_spec(canon_spec(54).name_en@) == Some(canon_spec(54)),
{
    book_54();
    let k = canon_spec(54).name_en@;
    lemma_plain_key(k);
    lemma_not_number(k, 1);
    misses_english_54_0();
    misses_english_54_16();
    misses_english_54_32();
    misses_english_54_48();
    assert(first_book_match(k, 54) == Some(54int));
}

#[verifier::rlimit(40)]
proof fn misses_osis_55_0()
    ensures
        first_book_match(canon_spec(55).osis@, 0) == first_book_match(canon_spec(55).osis@, 16),
{
    book_55();
    let k = canon_spec(55).osis@;
    book_0();
    book_1();
    book_2();
    book_3();
    book_4();
    book_5();
    book_6();
    book_7();
    book_8();
    lemma_not_same(canon_spec(8).name_zh@, k, 0);
    book_9();
    lemma_not_same(canon_spec(9).name_zh@, k, 0);
    book_10();
    book_11();
    book_12();
    book_13();
    book_14();
    book_15();
    assert(first_book_match(k, 15) == first_book_match(k, 16));
    assert(first_book_match(k, 14) == first_book_match(k, 16));
    assert(first_book_match(k, 13) == first_book_match(k, 16));
    assert(first_book_match(k, 12) == first_book_match(k, 16));
    assert(first_book_match(k, 11) == first_book_match(k, 16));
    assert(first_book_match(k, 10) == first_book_match(k, 16));
    assert(first_book_match(k, 9) == first_book_match(k, 16));
    assert(first_book_match(k, 8) == first_book_match(k, 16));
    assert(first_book_match(k, 7) == first_book_match(k, 16));
    assert(first_book_match(k, 6) == first_book_match(k, 16));
    assert(first_book_match(k, 5) == first_book_match(k, 16));
    assert(first_book_match(k, 4) == first_book_match(k, 16));
    assert(first_book_match(k, 3) == first_book_match(k, 16));
    assert(first_book_match(k, 2) == first_book_match(k, 16));
    assert(first_book_match(k, 1) == first_book_match(k, 16));
    assert(first_book_match(k, 0) == first_book_match(k, 16));
}

#[verifier::rlimit(40)]
proof fn misses_osis_55_16()
    ensures
        first_book_match(canon_spec(55).osis@, 16) == first_book_match(canon_spec(55).osis@, 32),
{
    book_55();
    let k = canon_spec(55).osis@;
    book_16();
    book_17();
    book_18();
    book_19();
    book_20();
    book_21();
    book_22();
    book_23();
    book_24();
    lemma_not_same(canon_spec(24).name_zh@, k, 0);
    book_25();
    book_26();
    book_27();
    lemma_not_eq_ic(canon_spec(27).name_en@, k, 0);
    book_28();
    book_29();
    book_30();
    lemma_not_same(canon_spec(30).name_zh@, k, 0);
    book_31();
    lemma_not_eq_ic(canon_spec(31).osis@, k, 0);
    lemma_not_eq_ic(canon_spec(31).name_en@, k, 0);
    assert(first_book_match(k, 31) == first_book_match(k, 32));
    assert(first_book_match(k, 30) == first_book_match(k, 32));
    assert(first_book_match(k, 29) == first_book_match(k, 32));
    assert(first_book_match(k, 28) == first_book_match(k, 32));
    assert(first_book_match(k, 27) == first_book_match(k, 32));
    assert(first_book_match(k, 26) == first_book_match(k, 32));
    assert(first_book_match(k, 25) == first_book_match(k, 32));
    assert(first_book_match(k, 24) == first_book_match(k, 32));
    assert(first_book_match(k, 23) == first_book_match(k, 32));
    assert(first_book_match(k, 22) == first_book_match(k, 32));
    assert(first_book_match(k, 21) == first_book_match(k, 32));
    assert(first_book_match(k, 20) == first_book_match(k, 32));
    assert(first_book_match(k, 19) == first_book_match(k, 32));
    assert(first_book_match(k, 18) == first_book_match(k, 32));
    assert(first_book_match(k, 17) == first_book_match(k, 32));
    assert(first_book_match(k, 16) == first_book_match(k, 32));
}

#[verifier::rlimit(40)]
proof fn misses_osis_55_32()
    ensures
        first_book_match(canon_spec(55).osis@, 32) == first_book_match(canon_spec(55).osis@, 48),
{
    book_55();
    let k = canon_spec(55).osis@;
    book_32();
    lemma_not_eq_ic(canon_spec(32).name_en@, k, 0);
    book_33();
    lemma_not_eq_ic(canon_spec(33).name_en@, k, 0);
    book_34();
    book_35();
    book_36();
    book_37();
    lemma_not_same(canon_spec(37).name_zh@, k, 0);
    book_38();
    book_39();
    book_40();
    book_41();
    book_42();
    book_43();
    book_44();
    book_45();
    lemma_not_same(canon_spec(45).name_zh@, k, 0);
    book_46();
    lemma_not_same(canon_spec(46).name_zh@, k, 0);
    book_47();
    assert(first_book_match(k, 47) == first_book_match(k, 48));
    assert(first_book_match(k, 46) == first_book_match(k, 48));
    assert(first_book_match(k, 45) == first_book_match(k, 48));
    assert(first_book_match(k, 44) == first_book_match(k, 48));
    assert(first_book_match(k, 43) == first_book_match(k, 48));
    assert(first_book_match(k, 42) == first_book_match(k, 48));
    assert(first_book_match(k, 41) == first_book_match(k, 48));
    assert(first_book_match(k, 40) == first_book_match(k, 48));
    assert(first_book_match(k, 39) == first_book_match(k, 48));
    assert(first_book_match(k, 38) == first_book_match(k, 48));
    assert(first_book_match(k, 37) == first_book_match(k, 48));
    assert(first_book_match(k, 36) == first_book_match(k, 48));
    assert(first_book_match(k, 35) == first_book_match(k, 48));
    assert(first_book_match(k, 34) == first_book_match(k, 48));
    assert(first_book_match(k, 33) == first_book_match(k, 48));
    assert(first_book_match(k, 32) == first_book_match(k, 48));
}

#[verifier::rlimit(40)]
proof fn misses_osis_55_48()
    ensures
        first_book_match(canon_spec(55).osis@, 48) == first_book_match(canon_spec(55).osis@, 55),
{
    book_55();
    let k = canon_spec(55).osis@;
    book_48();
    book_49();
    book_50();
    book_51();
    book_52();
    book_53();
    lemma_not_same(canon_spec(53).name_zh@, k, 0);
    book_54();
    lemma_not_same(canon_spec(54).name_zh@, k, 0);
    assert(first_book_match(k, 54) == first_book_match(k, 55));
    assert(first_book_match(k, 53) == first_book_match(k, 55));
    assert(first_book_match(k, 52) == first_book_match(k, 55));
    assert(first_book_match(k, 51) == first_book_match(k, 55));
    assert(first_book_match(k, 50) == first_book_match(k, 55));
    assert(first_book_match(k, 49) == first_book_match(k, 55));
    assert(first_book_match(k, 48) == first_book_match(k, 55));
}

proof fn found_by_osis_55()
    ensures
        lookup_canon_spec(canon_spec(55).osis@) == Some(canon_spec(55)),
{
    book_55();
    let k = canon_spec(55).osis@;
    lemma_plain_key(k);
    lemma_not_number(k, 0);
    misses_osis_55_0();
    misses_osis_55_16();
    misses_osis_55_32();
    misses_osis_55_48();
    assert(first_book_match(k, 55) == Some(55int));
}

#[verifier::rlimit(40)]
proof fn misses_abbreviation_55_0()
    ensures
        first_book_match(canon_spec(55).name_zh_short@, 0) == first_book_match(canon_spec(55).name_zh_short@, 16),
{
    book_55();
    let k = canon_spec(55).name_zh_short@;
    book_0();
    lemma_not_same(canon_spec(0).name_zh_short@, k, 0);
    book_1();
    lemma_not_same(canon_spec(1).name_zh_short@, k, 0);
    book_2();
    lemma_not_same(canon_spec(2).name_zh_short@, k, 0);
    book_3();
    lemma_not_same(canon_spec(3).name_zh_short@, k, 0);
    book_4();
    lemma_not_same(canon_spec(4).name_zh_short@, k, 0);
    book_5();
    lemma_not_same(canon_spec(5).name_zh_short@, k, 0);
    book_6();
    lemma_not_same(canon_spec(6).name_zh_short@, k, 0);
    book_7();
    lemma_not_same(canon_spec(7).name_zh_short@, k, 0);
    book_8();
    book_9();
    book_10();
    book_11();
    book_12();
    book_13();
    book_14();
    lemma_not_same(canon_spec(14).name_zh_short@, k, 0);
    book_15();
    lemma_not_same(canon_spec(15).name_zh_short@, k, 0);
    assert(first_book_match(k, 15) == first_book_match(k, 16));
    assert(first_book_match(k, 14) == first_book_match(k, 16));
    assert(first_book_match(k, 13) == first_book_match(k, 16));
    assert(first_book_match(k, 12) == first_book_match(k, 16));
    assert(first_book_match(k, 11) == first_book_match(k, 16));
    assert(first_book_match(k, 10) == first_book_match(k, 16));
    assert(first_book_match(k, 9) == first_book_match(k, 16));
    assert(first_book_match(k, 8) == first_book_match(k, 16));
    assert(first_book_match(k, 7) == first_book_match(k, 16));
    assert(first_book_match(k, 6) == first_book_match(k, 16));
    assert(first_book_match(k, 5) == first_book_match(k, 16));
    assert(first_book_match(k, 4) == first_book_match(k, 16));
    assert(first_book_match(k, 3) == first_book_match(k, 16));
    assert(first_book_match(k, 2) == first_book_match(k, 16));
    assert(first_book_match(k, 1) == first_book_match(k, 16));
    assert(first_book_match(k, 0) == first_book_match(k, 16));
}

#[verifier::rlimit(40)]
proof fn misses_abbreviation_55_16()
    ensures
        first_book_match(canon_spec(55).name_zh_short@, 16) == first_book_match(canon_spec(55).name_zh_short@, 32),
{
    book_55();
    let k = canon_spec(55).name_zh_short@;
    book_16();
    lemma_not_same(canon_spec(16).name_zh_short@, k, 0);
    book_17();
    lemma_not_same(canon_spec(17).name_zh_short@, k, 0);
    book_18();
    lemma_not_same(canon_spec(18).name_zh_short@, k, 0);
    book_19();
    lemma_not_same(canon_spec(19).name_zh_short@, k, 0);
    book_20();
    lemma_not_same(canon_spec(20).name_zh_short@, k, 0);
    book_21();
    lemma_not_same(canon_spec(21).name_zh_short@, k, 0);
    book_22();
    lemma_not_same(canon_spec(22).name_zh_short@, k, 0);
    book_23();
    lemma_not_same(canon_spec(23).name_zh_short@, k, 0);
    book_24();
    lemma_not_same(canon_spec(24).name_zh_short@, k, 0);
    book_25();
    lemma_not_same(canon_spec(25).name_zh_short@, k, 0);
    book_26();
    lemma_not_same(canon_spec(26).name_zh_short@, k, 0);
    book_27();
    lemma_not_same(canon_spec(27).name_zh_short@, k, 0);
    book_28();
    lemma_not_same(canon_spec(28).name_zh_short@, k, 0);
    book_29();
    lemma_not_same(canon_spec(29).name_zh_short@, k, 0);
    book_30();
    lemma_not_same(canon_spec(30).name_zh_short@, k, 0);
    book_31();
    lemma_not_same(canon_spec(31).name_zh_short@, k, 0);
    assert(first_book_match(k, 31) == first_book_match(k, 32));
    assert(first_book_match(k, 30) == first_book_match(k, 32));
    assert(first_book_match(k, 29) == first_book_match(k, 32));
    assert(first_book_match(k, 28) == first_book_match(k, 32));
    assert(first_book_match(k, 27) == first_book_match(k, 32));
    assert(first_book_match(k, 26) == first_book_match(k, 32));
    assert(first_book_match(k, 25) == first_book_match(k, 32));
    assert(first_book_match(k, 24) == first_book_match(k, 32));
    assert(first_book_match(k, 23) == first_book_match(k, 32));
    assert(first_book_match(k, 22) == first_book_match(k, 32));
    assert(first_book_match(k, 21) == first_book_match(k, 32));
    assert(first_book_match(k, 20) == first_book_match(k, 32));
    assert(first_book_match(k, 19) == first_book_match(k, 32));
    assert(first_book_match(k, 18) == first_book_match(k, 32));
    assert(first_book_match(k, 17) == first_book_match(k, 32));
    assert(first_book_match(k, 16) == first_book_match(k, 32));
}

#[verifier::rlimit(40)]
proof fn misses_abbreviation_55_32()
    ensures
        first_book_match(canon_spec(55).name_zh_short@, 32) == first_book_match(canon_spec(55).name_zh_short@, 48),
{
    book_55();
    let k = canon_spec(55).name_zh_short@;
    book_32();
    lemma_not_same(canon_spec(32).name_zh_short@, k, 0);
    book_33();
    lemma_not_same(canon_spec(33).name_zh_short@, k, 0);
    book_34();
    lemma_not_same(canon_spec(34).name_zh_short@, k, 0);
    book_35();
    lemma_not_same(canon_spec(35).name_zh_short@, k, 0);
    book_36();
    lemma_not_same(canon_spec(36).name_zh_short@, k, 0);
    book_37();
    lemma_not_same(canon_spec(37).name_zh_short@, k, 0);
    book_38();
    lemma_not_same(canon_spec(38).name_zh_short@, k, 0);
    book_39();
    lemma_not_same(canon_spec(39).name_zh_short@, k, 0);
    book_40();
    lemma_not_same(canon_spec(40).name_zh_short@, k, 0);
    book_41();
    lemma_not_same(canon_spec(41).name_zh_short@, k, 0);
    book_42();
    lemma_not_same(canon_spec(42).name_zh_short@, k, 0);
    book_43();
    lemma_not_same(canon_spec(43).name_zh_short@, k, 0);
    book_44();
    lemma_not_same(canon_spec(44).name_zh_short@, k, 0);
    book_45();
    book_46();
    book_47();
    lemma_not_same(canon_spec(47).name_zh_short@, k, 0);
    assert(first_book_match(k, 47) == first_book_match(k, 48));
    assert(first_book_match(k, 46) == first_book_match(k, 48));
    assert(first_book_match(k, 45) == first_book_match(k, 48));
    assert(first_book_match(k, 44) == first_book_match(k, 48));
    assert(first_book_match(k, 43) == first_book_match(k, 48));
    assert(first_book_match(k, 42) == first_book_match(k, 48));
    assert(first_book_match(k, 41) == first_book_match(k, 48));
    assert(first_book_match(k, 40) == first_book_match(k, 48));
    assert(first_book_match(k, 39) == first_book_match(k, 48));
    assert(first_book_match(k, 38) == first_book_match(k, 48));
    assert(first_book_match(k, 37) == first_book_match(k, 48));
    assert(first_book_match(k, 36) == first_book_match(k, 48));
    assert(first_book_match(k, 35) == first_book_match(k, 48));
    assert(first_book_match(k, 34) == first_book_match(k, 48));
    assert(first_book_match(k, 33) == first_book_match(k, 48));
    assert(first_book_match(k, 32) == first_book_match(k, 48));
}

#[verifier::rlimit(40)]
proof fn misses_abbreviation_55_48()
    ensures
        first_book_match(canon_spec(55).name_zh_short@, 48) == first_book_match(canon_spec(55).name_zh_short@, 55),
{
    book_55();
    let k = canon_spec(55).name_zh_short@;
    book_48();
    lemma_not_same(canon_spec(48).name_zh_short@, k, 0);
    book_49();
    lemma_not_same(canon_spec(49).name_zh_short@, k, 0);
    book_50();
    lemma_not_same(canon_spec(50).name_zh_short@, k, 0);
    book_51();
    book_52();
    book_53();
    book_54();
    assert(first_book_match(k, 54) == first_book_match(k, 55));
    assert(first_book_match(k, 53) == first_book_match(k, 55));
    assert(first_book_match(k, 52) == first_book_match(k, 55));
    assert(first_book_match(k, 51) == first_book_match(k, 55));
    assert(first_book_match(k, 50) == first_book_match(k, 55));
    assert(first_book_match(k, 49) == first_book_match(k, 55));
    assert(first_book_match(k, 48) == first_book_match(k, 55));
}

proof fn found_by_abbreviation_55()
    ensures
        lookup_canon_spec(canon_spec(55).name_zh_short@) == Some(canon_spec(55)),
{
    book_55();
    let k = canon_spec(55).name_zh_short@;
    lemma_plain_key(k);
    lemma_not_number(k, 0);
    misses_abbreviation_55_0();
    misses_abbreviation_55_16();
    misses_abbreviation_55_32();
    misses_abbreviation_55_48();
    assert(first_book_match(k, 55) == Some(55int));
}

#[verifier::rlimit(40)]
proof fn misses_english_55_0()
    ensures
        first_book_match(canon_spec(55).name_en@, 0) == first_book_match(canon_spec(55).name_en@, 16),
{
    book_55();
    let k = canon_spec(55).name_en@;
    book_0();
    book_1();
    book_2();
    book_3();
    book_4();
    book_5();
    book_6();
    book_7();
    book_8();
    lemma_not_same(canon_spec(8).name_zh@, k, 0);
    book_9();
    lemma_not_same(canon_spec(9).name_zh@, k, 0);
    book_10();
    book_11();
    book_12();
    book_13();
    book_14();
    book_15();
    assert(first_book_match(k, 15) == first_book_match(k, 16));
    assert(first_book_match(k, 14) == first_book_match(k, 16));
    assert(first_book_match(k, 13) == first_book_match(k, 16));
    assert(first_book_match(k, 12) == first_book_match(k, 16));
    assert(first_book_match(k, 11) == first_book_match(k, 16));
    assert(first_book_match(k, 10) == first_book_match(k, 16));
    assert(first_book_match(k, 9) == first_book_match(k, 16));
    assert(first_book_match(k, 8) == first_book_match(k, 16));
    assert(first_book_match(k, 7) == first_book_match(k, 16));
    assert(first_book_match(k, 6) == first_book_match(k, 16));
    assert(first_book_match(k, 5) == first_book_match(k, 16));
    assert(first_book_match(k, 4) == first_book_match(k, 16));
    assert(first_book_match(k, 3) == first_book_match(k, 16));
    assert(first_book_match(k, 2) == first_book_match(k, 16));
    assert(first_book_match(k, 1) == first_book_match(k, 16));
    assert(first_book_match(k, 0) == first_book_match(k, 16));
}

#[verifier::rlimit(40)]
proof fn misses_english_55_16()
    ensures
        first_book_match(canon_spec(55).name_en@, 16) == first_book_match(canon_spec(55).name_en@, 32),
{
    book_55();
    let k = canon_spec(55).name_en@;
    book_16();
    book_17();
    book_18();
    book_19();
    book_20();
    book_21();
    book_22();
    book_23();
    book_24();
    lemma_not_same(canon_spec(24).name_zh@, k, 0);
    book_25();
    book_26();
    book_27();
    lemma_not_eq_ic(canon_spec(27).name_en@, k, 0);
    book_28();
    book_29();
    book_30();
    lemma_not_same(canon_spec(30).name_zh@, k, 0);
    book_31();
    lemma_not_eq_ic(canon_spec(31).osis@, k, 0);
    lemma_not_eq_ic(canon_spec(31).name_en@, k, 0);
    assert(first_book_match(k, 31) == first_book_match(k, 32));
    assert(first_book_match(k, 30) == first_book_match(k, 32));
    assert(first_book_match(k, 29) == first_book_match(k, 32));
    assert(first_book_match(k, 28) == first_book_match(k, 32));
    assert(first_book_match(k, 27) == first_book_match(k, 32));
    assert(first_book_match(k, 26) == first_book_match(k, 32));
    assert(first_book_match(k, 25) == first_book_match(k, 32));
    assert(first_book_match(k, 24) == first_book_match(k, 32));
    assert(first_book_match(k, 23) == first_book_match(k, 32));
    assert(first_book_match(k, 22) == first_book_match(k, 32));
    assert(first_book_match(k, 21) == first_book_match(k, 32));
    assert(first_book_match(k, 20) == first_book_match(k, 32));
    assert(first_book_match(k, 19) == first_book_match(k, 32));
    assert(first_book_match(k, 18) == first_book_match(k, 32));
    assert(first_book_match(k, 17) == first_book_match(k, 32));
    assert(first_book_match(k, 16) == first_book_match(k, 32));
}

#[verifier::rlimit(40)]
proof fn misses_english_55_32()
    ensures
        first_book_match(canon_spec(55).name_en@, 32) == first_book_match(canon_spec(55).name_en@, 48),
{
    book_55();
    let k = canon_spec(55).name_en@;
    book_32();
    lemma_not_eq_ic(canon_spec(32).name_en@, k, 0);
    book_33();
    lemma_not_eq_ic(canon_spec(33).name_en@, k, 0);
    book_34();
    book_35();
    book_36();
    book_37();
    lemma_not_same(canon_spec(37).name_zh@, k, 0);
    book_38();
    book_39();
    book_40();
    book_41();
    book_42();
    book_43();
    book_44();
    book_45();
    lemma_not_same(canon_spec(45).name_zh@, k, 0);
    book_46();
    lemma_not_same(canon_spec(46).name_zh@, k, 0);
    book_47();
    assert(first_book_match(k, 47) == first_book_match(k, 48));
    assert(first_book_match(k, 46) == first_book_match(k, 48));
    assert(first_book_match(k, 45) == first_book_match(k, 48));
    assert(first_book_match(k, 44) == first_book_match(k, 48));
    assert(first_book_match(k, 43) == first_book_match(k, 48));
    assert(first_book_match(k, 42) == first_book_match(k, 48));
    assert(first_book_match(k, 41) == first_book_match(k, 48));
    assert(first_book_match(k, 40) == first_book_match(k, 48));
    assert(first_book_match(k, 39) == first_book_match(k, 48));
    assert(first_book_match(k, 38) == first_book_match(k, 48));
    assert(first_book_match(k, 37) == first_book_match(k, 48));
    assert(first_book_match(k, 36) == first_book_match(k, 48));
    assert(first_book_match(k, 35) == first_book_match(k, 48));
    assert(first_book_match(k, 34) == first_book_match(k, 48));
    assert(first_book_match(k, 33) == first_book_match(k, 48));
    assert(first_book_match(k, 32) == first_book_match(k, 48));
}

#[verifier::rlimit(40)]
proof fn misses_english_55_48()
    ensures
        first_book_match(canon_spec(55).name_en@, 48) == first_book_match(canon_spec(55).name_en@, 55),
{
    book_55();
    let k = canon_spec(55).name_en@;
    book_48();
    book_49();
    book_50();
    book_51();
    book_52();
    book_53();
    lemma_not_same(canon_spec(53).name_zh@, k, 0);
    book_54();
    lemma_not_same(canon_spec(54).name_zh@, k, 0);
    assert(first_book_match(k, 54) == first_book_match(k, 55));
    assert(first_book_match(k, 53) == first_book_match(k, 55));
    assert(first_book_match(k, 52) == first_book_match(k, 55));
    assert(first_book_match(k, 51) == first_book_match(k, 55));
    assert(first_book_match(k, 50) == first_book_match(k, 55));
    assert(first_book_match(k, 49) == first_book_match(k, 55));
    assert(first_book_match(k, 48) == first_book_match(k, 55));
}

proof fn found_by_english_55()
    ensures
        lookup_canon_spec(canon_spec(55).name_en@) == Some(canon_spec(55)),
{
    book_55();
    let k = canon_spec(55).name_en@;
    lemma_plain_key(k);
    lemma_not_number(k, 0);
    misses_english_55_0();
    misses_english_55_16();
    misses_english_55_32();
    misses_english_55_48();
    assert(first_book_match(k, 55) == Some(55int));
}

#[verifier::rlimit(40)]
proof fn misses_osis_56_0()
    ensures
        first_book_match(canon_spec(56).osis@, 0) == first_book_match(canon_spec(56).osis@, 16),
{
    book_56();
    let k = canon_spec(56).osis@;
    book_0();
    book_1();
    lemma_not_eq_ic(canon_spec(1).osis@, k, 0);
    lemma_not_same(canon_spec(1).name_zh@, k, 0);
    book_2();
    book_3();
    book_4();
    lemma_not_eq_ic(canon_spec(4).osis@, k, 0);
    book_5();
    lemma_not_eq_ic(canon_spec(5).osis@, k, 0);
    lemma_not_same(canon_spec(5).name_zh@, k, 0);
    book_6();
    lemma_not_eq_ic(canon_spec(6).osis@, k, 0);
    book_7();
    lemma_not_eq_ic(canon_spec(7).osis@, k, 0);
    lemma_not_eq_ic(canon_spec(7).name_en@, k, 0);
    book_8();
    lemma_not_eq_ic(canon_spec(8).osis@, k, 0);
    book_9();
    lemma_not_eq_ic(canon_spec(9).osis@, k, 0);
    book_10();
    lemma_not_eq_ic(canon_spec(10).osis@, k, 0);
    lemma_not_same(canon_spec(10).name_zh@, k, 0);
    book_11();
    lemma_not_eq_ic(canon_spec(11).osis@, k, 0);
    lemma_not_same(canon_spec(11).name_zh@, k, 0);
    book_12();
    lemma_not_eq_ic(canon_spec(12).osis@, k, 0);
    lemma_not_same(canon_spec(12).name_zh@, k, 0);
    book_13();
    lemma_not_eq_ic(canon_spec(13).osis@, k, 0);
    lemma_not_same(canon_spec(13).name_zh@, k, 0);
    book_14();
    lemma_not_eq_ic(canon_spec(14).osis@, k, 0);
    lemma_not_same(canon_spec(14).name_zh@, k, 0);
    lemma_not_eq_ic(canon_spec(14).name_en@, k, 0);
    book_15();
    lemma_not_same(canon_spec(15).name_zh@, k, 0);
    assert(first_book_match(k, 15) == first_book_match(k, 16));
    assert(first_book_match(k, 14) == first_book_match(k, 16));
    assert(first_book_match(k, 13) == first_book_match(k, 16));
    assert(first_book_match(k, 12) == first_book_match(k, 16));
    assert(first_book_match(k, 11) == first_book_match(k, 16));
    assert(first_book_match(k, 10) == first_book_match(k, 16));
    assert(first_book_match(k, 9) == first_book_match(k, 16));
    assert(first_book_match(k, 8) == first_book_match(k, 16));
    assert(first_book_match(k, 7) == first_book_match(k, 16));
    assert(first_book_match(k, 6) == first_book_match(k, 16));
    assert(first_book_match(k, 5) == first_book_match(k, 16));
    assert(first_book_match(k, 4) == first_book_match(k, 16));
    assert(first_book_match(k, 3) == first_book_match(k, 16));
    assert(first_book_match(k, 2) == first_book_match(k, 16));
    assert(first_book_match(k, 1) == first_book_match(k, 16));
    assert(first_book_match(k, 0) == first_book_match(k, 16));
}

#[verifier::rlimit(40)]
proof fn misses_osis_56_16()
    ensures
        first_book_match(canon_spec(56).osis@, 16) == first_book_match(canon_spec(56).osis@, 32),
{
    book_56();
    let k = canon_spec(56).osis@;
    book_16();
    lemma_not_eq_ic(canon_spec(16).osis@, k, 0);
    lemma_not_same(canon_spec(16).name_zh@, k, 0);
    book_17();
    book_18();
    book_19();
    lemma_not_eq_ic(canon_spec(19).osis@, k, 1);
    book_20();
    lemma_not_eq_ic(canon_spec(20).osis@, k, 0);
    book_21();
    lemma_not_eq_ic(canon_spec(21).osis@, k, 0);
    book_22();
    lemma_not_same(canon_spec(22).name_zh@, k, 0);
    book_23();
    lemma_not_same(canon_spec(23).name_zh@, k, 0);
    book_24();
    book_25();
    lemma_not_eq_ic(canon_spec(25).osis@, k, 0);
    lemma_not_same(canon_spec(25).name_zh@, k, 0);
    book_26();
    lemma_not_same(canon_spec(26).name_zh@, k, 0);
    book_27();
    lemma_not_same(canon_spec(27).name_zh@, k, 0);
    book_28();
    lemma_not_eq_ic(canon_spec(28).osis@, k, 0);
    lemma_not_eq_ic(canon_spec(28).name_en@, k, 0);
    book_29();
    lemma_not_eq_ic(canon_spec(29).osis@, k, 0);
    lemma_not_same(canon_spec(29).name_zh@, k, 0);
    lemma_not_eq_ic(canon_spec(29).name_en@, k, 0);
    book_30();
    lemma_not_eq_ic(canon_spec(30).osis@, k, 0);
    book_31();
    assert(first_book_match(k, 31) == first_book_match(k, 32));
    assert(first_book_match(k, 30) == first_book_match(k, 32));
    assert(first_book_match(k, 29) == first_book_match(k, 32));
    assert(first_book_match(k, 28) == first_book_match(k, 32));
    assert(first_book_match(k, 27) == first_book_match(k, 32));
    assert(first_book_match(k, 26) == first_book_match(k, 32));
    assert(first_book_match(k, 25) == first_book_match(k, 32));
    assert(first_book_match(k, 24) == first_book_match(k, 32));
    assert(first_book_match(k, 23) == first_book_match(k, 32));
    assert(first_book_match(k, 22) == first_book_match(k, 32));
    assert(first_book_match(k, 21) == first_book_match(k, 32));
    assert(first_book_match(k, 20) == first_book_match(k, 32));
    assert(first_book_match(k, 19) == first_book_match(k, 32));
    assert(first_book_match(k, 18) == first_book_match(k, 32));
    assert(first_book_match(k, 17) == first_book_match(k, 32));
    assert(first_book_match(k, 16) == first_book_match(k, 32));
}

#[verifier::rlimit(40)]
proof fn misses_osis_56_32()
    ensures
        first_book_match(canon_spec(56).osis@, 32) == first_book_match(canon_spec(56).osis@, 48),
{
    book_56();
    let k = canon_spec(56).osis@;
    book_32();
    book_33();
    book_34();
    lemma_not_same(canon_spec(34).name_zh@, k, 0);
    book_35();
    lemma_not_eq_ic(canon_spec(35).osis@, k, 0);
    lemma_not_same(canon_spec(35).name_zh@, k, 0);
    book_36();
    book_37();
    lemma_not_eq_ic(canon_spec(37).osis@, k, 0);
    book_38();
    lemma_not_same(canon_spec(38).name_zh@, k, 0);
    book_39();
    lemma_not_eq_ic(canon_spec(39).osis@, k, 0);
    lemma_not_same(canon_spec(39).name_zh@, k, 0);
    book_40();
    lemma_not_eq_ic(canon_spec(40).osis@, k, 0);
    lemma_not_same(canon_spec(40).name_zh@, k, 0);
    lemma_not_eq_ic(canon_spec(40).name_en@, k, 0);
    book_41();
    lemma_not_eq_ic(canon_spec(41).osis@, k, 0);
    lemma_not_same(canon_spec(41).name_zh@, k, 0);
    lemma_not_eq_ic(canon_spec(41).name_en@, k, 0);
    book_42();
    lemma_not_eq_ic(canon_spec(42).osis@, k, 0);
    lemma_not_same(canon_spec(42).name_zh@, k, 0);
    lemma_not_eq_ic(canon_spec(42).name_en@, k, 0);
    book_43();
    lemma_not_eq_ic(canon_spec(43).osis@, k, 0);
    lemma_not_same(canon_spec(43).name_zh@, k, 0);
    lemma_not_eq_ic(canon_spec(43).name_en@, k, 0);
    book_44();
    book_45();
    lemma_not_eq_ic(canon_spec(45).osis@, k, 0);
    book_46();
    lemma_not_eq_ic(canon_spec(46).osis@, k, 0);
    book_47();
    lemma_not_same(canon_spec(47).name_zh@, k, 0);
    assert(first_book_match(k, 47) == first_book_match(k, 48));
    assert(first_book_match(k, 46) == first_book_match(k, 48));
    assert(first_book_match(k, 45) == first_book_match(k, 48));
    assert(first_book_match(k, 44) == first_book_match(k, 48));
    assert(first_book_match(k, 43) == first_book_match(k, 48));
    assert(first_book_match(k, 42) == first_book_match(k, 48));
    assert(first_book_match(k, 41) == first_book_match(k, 48));
    assert(first_book_match(k, 40) == first_book_match(k, 48));
    assert(first_book_match(k, 39) == first_book_match(k, 48));
    assert(first_book_match(k, 38) == first_book_match(k, 48));
    assert(first_book_match(k, 37) == first_book_match(k, 48));
    assert(first_book_match(k, 36) == first_book_match(k, 48));
    assert(first_book_match(k, 35) == first_book_match(k, 48));
    assert(first_book_match(k, 34) == first_book_match(k, 48));
    assert(first_book_match(k, 33) == first_book_match(k, 48));
    assert(first_book_match(k, 32) == first_book_match(k, 48));
}

#[verifier::rlimit(40)]
proof fn misses_osis_56_48()
    ensures
        first_book_match(canon_spec(56).osis@, 48) == first_book_match(canon_spec(56).osis@, 56),
{
    book_56();
    let k = canon_spec(56).osis@;
    book_48();
    lemma_not_same(canon_spec(48).name_zh@, k, 0);
    book_49();
    lemma_not_eq_ic(canon_spec(49).osis@, k, 2);
    lemma_not_same(canon_spec(49).name_zh@, k, 0);
    book_50();
    lemma_not_same(canon_spec(50).name_zh@, k, 0);
    book_51();
    book_52();
    book_53();
    lemma_not_eq_ic(canon_spec(53).osis@, k, 0);
    book_54();
    lemma_not_eq_ic(canon_spec(54).osis@, k, 0);
    book_55();
    assert(first_book_match(k, 55) == first_book_match(k, 56));
    assert(first_book_match(k, 54) == first_book_match(k, 56));
    assert(first_book_match(k, 53) == first_book_match(k, 56));
    assert(first_book_match(k, 52) == first_book_match(k, 56));
    assert(first_book_match(k, 51) == first_book_match(k, 56));
    assert(first_book_match(k, 50) == first_book_match(k, 56));
    assert(first_book_match(k, 49) == first_book_match(k, 56));
    assert(first_book_match(k, 48) == first_book_match(k, 56));
}

proof fn found_by_osis_56()
    ensures
        lookup_canon_spec(canon_spec(56).osis@) == Some(canon_spec(56)),
{
    book_56();
    let k = canon_spec(56).osis@;
    lemma_plain_key(k);
    lemma_not_number(k, 0);
    misses_osis_56_0();
    misses_osis_56_16();
    misses_osis_56_32();
    misses_osis_56_48();
    assert(first_book_match(k, 56) == Some(56int));
}

#[verifier::rlimit(40)]
proof fn misses_abbreviation_56_0()
    ensures
        first_book_match(canon_spec(56).name_zh_short@, 0) == first_book_match(canon_spec(56).name_zh_short@, 16),
{
    book_56();
    let k = canon_spec(56).name_zh_short@;
    book_0();
    lemma_not_same(canon_spec(0).name_zh_short@, k, 0);
    book_1();
    lemma_not_same(canon_spec(1).name_zh_short@, k, 0);
    book_2();
    lemma_not_same(canon_spec(2).name_zh_short@, k, 0);
    book_3();
    lemma_not_same(canon_spec(3).name_zh_short@, k, 0);
    book_4();
    lemma_not_same(canon_spec(4).name_zh_short@, k, 0);
    book_5();
    lemma_not_same(canon_spec(5).name_zh_short@, k, 0);
    book_6();
    lemma_not_same(canon_spec(6).name_zh_short@, k, 0);
    book_7();
    lemma_not_same(canon_spec(7).name_zh_short@, k, 0);
    book_8();
    book_9();
    book_10();
    book_11();
    book_12();
    book_13();
    book_14();
    lemma_not_same(canon_spec(14).name_zh_short@, k, 0);
    book_15();
    lemma_not_same(canon_spec(15).name_zh_short@, k, 0);
    assert(first_book_match(k, 15) == first_book_match(k, 16));
    assert(first_book_match(k, 14) == first_book_match(k, 16));
    assert(first_book_match(k, 13) == first_book_match(k, 16));
    assert(first_book_match(k, 12) == first_book_match(k, 16));
    assert(first_book_match(k, 11) == first_book_match(k, 16));
    assert(first_book_match(k, 10) == first_book_match(k, 16));
    assert(first_book_match(k, 9) == first_book_match(k, 16));
    assert(first_book_match(k, 8) == first_book_match(k, 16));
    assert(first_book_match(k, 7) == first_book_match(k, 16));
    assert(first_book_match(k, 6) == first_book_match(k, 16));
    assert(first_book_match(k, 5) == first_book_match(k, 16));
    assert(first_book_match(k, 4) == first_book_match(k, 16));
    assert(first_book_match(k, 3) == first_book_match(k, 16));
    assert(first_book_match(k, 2) == first_book_match(k, 16));
    assert(first_book_match(k, 1) == first_book_match(k, 16));
    assert(first_book_match(k, 0) == first_book_match(k, 16));
}

#[verifier::rlimit(40)]
proof fn misses_abbreviation_56_16()
    ensures
        first_book_match(canon_spec(56).name_zh_short@, 16) == first_book_match(canon_spec(56).name_zh_short@, 32),
{
    book_56();
    let k = canon_spec(56).name_zh_short@;
    book_16();
    lemma_not_same(canon_spec(16).name_zh_short@, k, 0);
    book_17();
    lemma_not_same(canon_spec(17).name_zh_short@, k, 0);
    book_18();
    lemma_not_same(canon_spec(18).name_zh_short@, k, 0);
    book_19();
    lemma_not_same(canon_spec(19).name_zh_short@, k, 0);
    book_20();
    lemma_not_same(canon_spec(20).name_zh_short@, k, 0);
    book_21();
    lemma_not_same(canon_spec(21).name_zh_short@, k, 0);
    book_22();
    lemma_not_same(canon_spec(22).name_zh_short@, k, 0);
    book_23();
    lemma_not_same(canon_spec(23).name_zh_short@, k, 0);
    book_24();
    lemma_not_same(canon_spec(24).name_zh_short@, k, 0);
    book_25();
    lemma_not_same(canon_spec(25).name_zh_short@, k, 0);
    book_26();
    lemma_not_same(canon_spec(26).name_zh_short@, k, 0);
    book_27();
    lemma_not_same(canon_spec(27).name_zh_short@, k, 0);
    book_28();
    lemma_not_same(canon_spec(28).name_zh_short@, k, 0);
    book_29();
    lemma_not_same(canon_spec(29).name_zh_short@, k, 0);
    book_30();
    lemma_not_same(canon_spec(30).name_zh_short@, k, 0);
    book_31();
    lemma_not_same(canon_spec(31).name_zh_short@, k, 0);
    assert(first_book_match(k, 31) == first_book_match(k, 32));
    assert(first_book_match(k, 30) == first_book_match(k, 32));
    assert(first_book_match(k, 29) == first_book_match(k, 32));
    assert(first_book_match(k, 28) == first_book_match(k, 32));
    assert(first_book_match(k, 27) == first_book_match(k, 32));
    assert(first_book_match(k, 26) == first_book_match(k, 32));
    assert(first_book_match(k, 25) == first_book_match(k, 32));
    assert(first_book_match(k, 24) == first_book_match(k, 32));
    assert(first_book_match(k, 23) == first_book_match(k, 32));
    assert(first_book_match(k, 22) == first_book_match(k, 32));
    assert(first_book_match(k, 21) == first_book_match(k, 32));
    assert(first_book_match(k, 20) == first_book_match(k, 32));
    assert(first_book_match(k, 19) == first_book_match(k, 32));
    assert(first_book_match(k, 18) == first_book_match(k, 32));
    assert(first_book_match(k, 17) == first_book_match(k, 32));
    assert(first_book_match(k, 16) == first_book_match(k, 32));
}

#[verifier::rlimit(40)]
proof fn misses_abbreviation_56_32()
    ensures
        first_book_match(canon_spec(56).name_zh_short@, 32) == first_book_match(canon_spec(56).name_zh_short@, 48),
{
    book_56();
    let k = canon_spec(56).name_zh_short@;
    book_32();
    lemma_not_same(canon_spec(32).name_zh_short@, k, 0);
    book_33();
    lemma_not_same(canon_spec(33).name_zh_short@, k, 0);
    book_34();
    lemma_not_same(canon_spec(34).name_zh_short@, k, 0);
    book_35();
    lemma_not_same(canon_spec(35).name_zh_short@, k, 0);
    book_36();
    lemma_not_same(canon_spec(36).name_zh_short@, k, 0);
    book_37();
    lemma_not_same(canon_spec(37).name_zh_short@, k, 0);
    book_38();
    lemma_not_same(canon_spec(38).name_zh_short@, k, 0);
    book_39();
    lemma_not_same(canon_spec(39).name_zh_short@, k, 0);
    book_40();
    lemma_not_same(canon_spec(40).name_zh_short@, k, 0);
    book_41();
    lemma_not_same(canon_spec(41).name_zh_short@, k, 0);
    book_42();
    lemma_not_same(canon_spec(42).name_zh_short@, k, 0);
    book_43();
    lemma_not_same(canon_spec(43).name_zh_short@, k, 0);
    book_44();
    lemma_not_same(canon_spec(44).name_zh_short@, k, 0);
    book_45();
    book_46();
    book_47();
    lemma_not_same(canon_spec(47).name_zh_short@, k, 0);
    assert(first_book_match(k, 47) == first_book_match(k, 48));
    assert(first_book_match(k, 46) == first_book_match(k, 48));
    assert(first_book_match(k, 45) == first_book_match(k, 48));
    assert(first_book_match(k, 44) == first_book_match(k, 48));
    assert(first_book_match(k, 43) == first_book_match(k, 48));
    assert(first_book_match(k, 42) == first_book_match(k, 48));
    assert(first_book_match(k, 41) == first_book_match(k, 48));
    assert(first_book_match(k, 40) == first_book_match(k, 48));
    assert(first_book_match(k, 39) == first_book_match(k, 48));
    assert(first_book_match(k, 38) == first_book_match(k, 48));
    assert(first_book_match(k, 37) == first_book_match(k, 48));
    assert(first_book_match(k, 36) == first_book_match(k, 48));
    assert(first_book_match(k, 35) == first_book_match(k, 48));
    assert(first_book_match(k, 34) == first_book_match(k, 48));
    assert(first_book_match(k, 33) == first_book_match(k, 48));
    assert(first_book_match(k, 32) == first_book_match(k, 48));
}

#[verifier::rlimit(40)]
proof fn misses_abbreviation_56_48()
    ensures
        first_book_match(canon_spec(56).name_zh_short@, 48) == first_book_match(canon_spec(56).name_zh_short@, 56),
{
    book_56();
    let k = canon_spec(56).name_zh_short@;
    book_48();
    lemma_not_same(canon_spec(48).name_zh_short@, k, 0);
    book_49();
    lemma_not_same(canon_spec(49).name_zh_short@, k, 0);
    book_50();
    lemma_not_same(canon_spec(50).name_zh_short@, k, 0);
    book_51();
    book_52();
    book_53();
    book_54();
    book_55();
    lemma_not_same(canon_spec(55).name_zh_short@, k, 0);
    assert(first_book_match(k, 55) == first_book_match(k, 56));
    assert(first_book_match(k, 54) == first_book_match(k, 56));
    assert(first_book_match(k, 53) == first_book_match(k, 56));
    assert(first_book_match(k, 52) == first_book_match(k, 56));
    assert(first_book_match(k, 51) == first_book_match(k, 56));
    assert(first_book_match(k, 50) == first_book_match(k, 56));
    assert(first_book_match(k, 49) == first_book_match(k, 56));
    assert(first_book_match(k, 48) == first_book_match(k, 56));
}

proof fn found_by_abbreviation_56()
    ensures
        lookup_canon_spec(canon_spec(56).name_zh_short@) == Some(canon_spec(56)),
{
    book_56();
    let k = canon_spec(56).name_zh_short@;
    lemma_plain_key(k);
    lemma_not_number(k, 0);
    misses_abbreviation_56_0();
    misses_abbreviation_56_16();
    misses_abbreviation_56_32();
    misses_abbreviation_56_48();
    assert(first_book_match(k, 56) == Some(56int));
}

#[verifier::rlimit(40)]
proof fn misses_english_56_0()
    ensures
        first_book_match(canon_spec(56).name_en@, 0) == first_book_match(canon_spec(56).name_en@, 16),
{
    book_56();
    let k = canon_spec(56).name_en@;
    book_0();
    book_1();
    book_2();
    book_3();
    book_4();
    book_5();
    book_6();
    book_7();
    book_8();
    lemma_not_eq_ic(canon_spec(8).name_en@, k, 0);
    book_9();
    lemma_not_eq_ic(canon_spec(9).name_en@, k, 0);
    book_10();
    book_11();
    book_12();
    book_13();
    book_14();
    book_15();
    lemma_not_eq_ic(canon_spec(15).name_en@, k, 0);
    assert(first_book_match(k, 15) == first_book_match(k, 16));
    assert(first_book_match(k, 14) == first_book_match(k, 16));
    assert(first_book_match(k, 13) == first_book_match(k, 16));
    assert(first_book_match(k, 12) == first_book_match(k, 16));
    assert(first_book_match(k, 11) == first_book_match(k, 16));
    assert(first_book_match(k, 10) == first_book_match(k, 16));
    assert(first_book_match(k, 9) == first_book_match(k, 16));
    assert(first_book_match(k, 8) == first_book_match(k, 16));
    assert(first_book_match(k, 7) == first_book_match(k, 16));
    assert(first_book_match(k, 6) == first_book_match(k, 16));
    assert(first_book_match(k, 5) == first_book_match(k, 16));
    assert(first_book_match(k, 4) == first_book_match(k, 16));
    assert(first_book_match(k, 3) == first_book_match(k, 16));
    assert(first_book_match(k, 2) == first_book_match(k, 16));
    assert(first_book_match(k, 1) == first_book_match(k, 16));
    assert(first_book_match(k, 0) == first_book_match(k, 16));
}

#[verifier::rlimit(40)]
proof fn misses_english_56_16()
    ensures
        first_book_match(canon_spec(56).name_en@, 16) == first_book_match(canon_spec(56).name_en@, 32),
{
    book_56();
    let k = canon_spec(56).name_en@;
    book_16();
    book_17();
    book_18();
    book_19();
    lemma_not_eq_ic(canon_spec(19).name_en@, k, 1);
    book_20();
    book_21();
    book_22();
    book_23();
    lemma_not_eq_ic(canon_spec(23).name_en@, k, 0);
    book_24();
    book_25();
    book_26();
    book_27();
    book_28();
    book_29();
    book_30();
    book_31();
    assert(first_book_match(k, 31) == first_book_match(k, 32));
    assert(first_book_match(k, 30) == first_book_match(k, 32));
    assert(first_book_match(k, 29) == first_book_match(k, 32));
    assert(first_book_match(k, 28) == first_book_match(k, 32));
    assert(first_book_match(k, 27) == first_book_match(k, 32));
    assert(first_book_match(k, 26) == first_book_match(k, 32));
    assert(first_book_match(k, 25) == first_book_match(k, 32));
    assert(first_book_match(k, 24) == first_book_match(k, 32));
    assert(first_book_match(k, 23) == first_book_match(k, 32));
    assert(first_book_match(k, 22) == first_book_match(k, 32));
    assert(first_book_match(k, 21) == first_book_match(k, 32));
    assert(first_book_match(k, 20) == first_book_match(k, 32));
    assert(first_book_match(k, 19) == first_book_match(k, 32));
    assert(first_book_match(k, 18) == first_book_match(k, 32));
    assert(first_book_match(k, 17) == first_book_match(k, 32));
    assert(first_book_match(k, 16) == first_book_match(k, 32));
}

#[verifier::rlimit(40)]
proof fn misses_english_56_32()
    ensures
        first_book_match(canon_spec(56).name_en@, 32) == first_book_match(canon_spec(56).name_en@, 48),
{
    book_56();
    let k = canon_spec(56).name_en@;
    book_32();
    book_33();
    book_34();
    lemma_not_eq_ic(canon_spec(34).name_en@, k, 0);
    book_35();
    book_36();
    book_37();
    book_38();
    book_39();
    book_40();
    book_41();
    book_42();
    book_43();
    book_44();
    book_45();
    book_46();
    book_47();
    assert(first_book_match(k, 47) == first_book_match(k, 48));
    assert(first_book_match(k, 46) == first_book_match(k, 48));
    assert(first_book_match(k, 45) == first_book_match(k, 48));
    assert(first_book_match(k, 44) == first_book_match(k, 48));
    assert(first_book_match(k, 43) == first_book_match(k, 48));
    assert(first_book_match(k, 42) == first_book_match(k, 48));
    assert(first_book_match(k, 41) == first_book_match(k, 48));
    assert(first_book_match(k, 40) == first_book_match(k, 48));
    assert(first_book_match(k, 39) == first_book_match(k, 48));
    assert(first_book_match(k, 38) == first_book_match(k, 48));
    assert(first_book_match(k, 37) == first_book_match(k, 48));
    assert(first_book_match(k, 36) == first_book_match(k, 48));
    assert(first_book_match(k, 35) == first_book_match(k, 48));
    assert(first_book_match(k, 34) == first_book_match(k, 48));
    assert(first_book_match(k, 33) == first_book_match(k, 48));
    assert(first_book_match(k, 32) == first_book_match(k, 48));
}

#[verifier::rlimit(40)]
proof fn misses_english_56_48()
    ensures
        first_book_match(canon_spec(56).name_en@, 48) == first_book_match(canon_spec(56).name_en@, 56),
{
    book_56();
    let k = canon_spec(56).name_en@;
    book_48();
    book_49();
    book_50();
    book_51();
    book_52();
    book_53();
    book_54();
    book_55();
    assert(first_book_match(k, 55) == first_book_match(k, 56));
    assert(first_book_match(k, 54) == first_book_match(k, 56));
    assert(first_book_match(k, 53) == first_book_match(k, 56));
    assert(first_book_match(k, 52) == first_book_match(k, 56));
    assert(first_book_match(k, 51) == first_book_match(k, 56));
    assert(first_book_match(k, 50) == first_book_match(k, 56));
    assert(first_book_match(k, 49) == first_book_match(k, 56));
    assert(first_book_match(k, 48) == first_book_match(k, 56));
}

proof fn found_by_english_56()
    ensures
        lookup_canon_spec(canon_spec(56).name_en@) == Some(canon_spec(56)),
{
    book_56();
    let k = canon_spec(56).name_en@;
    lemma_plain_key(k);
    lemma_not_number(k, 0);
    misses_english_56_0();
    misses_english_56_16();
    misses_english_56_32();
    misses_english_56_48();
    assert(first_book_match(k, 56) == Some(56int));
}

#[verifier::rlimit(40)]
proof fn misses_osis_57_0()
    ensures
        first_book_match(canon_spec(57).osis@, 0) == first_book_match(canon_spec(57).osis@, 16),
{
    book_57();
    let k = canon_spec(57).osis@;
    book_0();
    lemma_not_eq_ic(canon_spec(0).osis@, k, 0);
    lemma_not_same(canon_spec(0).name_zh@, k, 0);
    book_1();
    book_2();
    lemma_not_eq_ic(canon_spec(2).osis@, k, 0);
    lemma_not_same(canon_spec(2).name_zh@, k, 0);
    book_3();
    lemma_not_eq_ic(canon_spec(3).osis@, k, 0);
    lemma_not_same(canon_spec(3).name_zh@, k, 0);
    book_4();
    lemma_not_same(canon_spec(4).name_zh@, k, 0);
    book_5();
    book_6();
    lemma_not_same(canon_spec(6).name_zh@, k, 0);
    book_7();
    lemma_not_same(canon_spec(7).name_zh@, k, 0);
    book_8();
    book_9();
    book_10();
    book_11();
    book_12();
    book_13();
    book_14();
    book_15();
    lemma_not_eq_ic(canon_spec(15).osis@, k, 0);
    assert(first_book_match(k, 15) == first_book_match(k, 16));
    assert(first_book_match(k, 14) == first_book_match(k, 16));
    assert(first_book_match(k, 13) == first_book_match(k, 16));
    assert(first_book_match(k, 12) == first_book_match(k, 16));
    assert(first_book_match(k, 11) == first_book_match(k, 16));
    assert(first_book_match(k, 10) == first_book_match(k, 16));
    assert(first_book_match(k, 9) == first_book_match(k, 16));
    assert(first_book_match(k, 8) == first_book_match(k, 16));
    assert(first_book_match(k, 7) == first_book_match(k, 16));
    assert(first_book_match(k, 6) == first_book_match(k, 16));
    assert(first_book_match(k, 5) == first_book_match(k, 16));
    assert(first_book_match(k, 4) == first_book_match(k, 16));
    assert(first_book_match(k, 3) == first_book_match(k, 16));
    assert(first_book_match(k, 2) == first_book_match(k, 16));
    assert(first_book_match(k, 1) == first_book_match(k, 16));
    assert(first_book_match(k, 0) == first_book_match(k, 16));
}

#[verifier::rlimit(40)]
proof fn misses_osis_57_16()
    ensures
        first_book_match(canon_spec(57).osis@, 16) == first_book_match(canon_spec(57).osis@, 32),
{
    book_57();
    let k = canon_spec(57).osis@;
    book_16();
    book_17();
    lemma_not_eq_ic(canon_spec(17).osis@, k, 0);
    lemma_not_same(canon_spec(17).name_zh@, k, 0);
    lemma_not_eq_ic(canon_spec(17).name_en@, k, 0);
    book_18();
    book_19();
    book_20();
    lemma_not_same(canon_spec(20).name_zh@, k, 0);
    book_21();
    book_22();
    lemma_not_eq_ic(canon_spec(22).osis@, k, 0);
    book_23();
    lemma_not_eq_ic(canon_spec(23).osis@, k, 0);
    book_24();
    lemma_not_eq_ic(canon_spec(24).osis@, k, 0);
    book_25();
    book_26();
    lemma_not_eq_ic(canon_spec(26).osis@, k, 0);
    book_27();
    lemma_not_eq_ic(canon_spec(27).osis@, k, 1);
    book_28();
    lemma_not_same(canon_spec(28).name_zh@, k, 0);
    book_29();
    book_30();
    book_31();
    lemma_not_same(canon_spec(31).name_zh@, k, 0);
    assert(first_book_match(k, 31) == first_book_match(k, 32));
    assert(first_book_match(k, 30) == first_book_match(k, 32));
    assert(first_book_match(k, 29) == first_book_match(k, 32));
    assert(first_book_match(k, 28) == first_book_match(k, 32));
    assert(first_book_match(k, 27) == first_book_match(k, 32));
    assert(first_book_match(k, 26) == first_book_match(k, 32));
    assert(first_book_match(k, 25) == first_book_match(k, 32));
    assert(first_book_match(k, 24) == first_book_match(k, 32));
    assert(first_book_match(k, 23) == first_book_match(k, 32));
    assert(first_book_match(k, 22) == first_book_match(k, 32));
    assert(first_book_match(k, 21) == first_book_match(k, 32));
    assert(first_book_match(k, 20) == first_book_match(k, 32));
    assert(first_book_match(k, 19) == first_book_match(k, 32));
    assert(first_book_match(k, 18) == first_book_match(k, 32));
    assert(first_book_match(k, 17) == first_book_match(k, 32));
    assert(first_book_match(k, 16) == first_book_match(k, 32));
}

#[verifier::rlimit(40)]
proof fn misses_osis_57_32()
    ensures
        first_book_match(canon_spec(57).osis@, 32) == first_book_match(canon_spec(57).osis@, 48),
{
    book_57();
    let k = canon_spec(57).osis@;
    book_32();
    lemma_not_eq_ic(canon_spec(32).osis@, k, 0);
    lemma_not_same(canon_spec(32).name_zh@, k, 0);
    book_33();
    lemma_not_eq_ic(canon_spec(33).osis@, k, 0);
    lemma_not_same(canon_spec(33).name_zh@, k, 0);
    book_34();
    lemma_not_eq_ic(canon_spec(34).osis@, k, 1);
    book_35();
    book_36();
    lemma_not_eq_ic(canon_spec(36).osis@, k, 1);
    lemma_not_same(canon_spec(36).name_zh@, k, 0);
    book_37();
    book_38();
    lemma_not_eq_ic(canon_spec(38).osis@, k, 0);
    book_39();
    book_40();
    book_41();
    book_42();
    book_43();
    book_44();
    lemma_not_eq_ic(canon_spec(44).osis@, k, 0);
    lemma_not_same(canon_spec(44).name_zh@, k, 0);
    book_45();
    book_46();
    book_47();
    lemma_not_eq_ic(canon_spec(47).osis@, k, 0);
    assert(first_book_match(k, 47) == first_book_match(k, 48));
    assert(first_book_match(k, 46) == first_book_match(k, 48));
    assert(first_book_match(k, 45) == first_book_match(k, 48));
    assert(first_book_match(k, 44) == first_book_match(k, 48));
    assert(first_book_match(k, 43) == first_book_match(k, 48));
    assert(first_book_match(k, 42) == first_book_match(k, 48));
    assert(first_book_match(k, 41) == first_book_match(k, 48));
    assert(first_book_match(k, 40) == first_book_match(k, 48));
    assert(first_book_match(k, 39) == first_book_match(k, 48));
    assert(first_book_match(k, 38) == first_book_match(k, 48));
    assert(first_book_match(k, 37) == first_book_match(k, 48));
    assert(first_book_match(k, 36) == first_book_match(k, 48));
    assert(first_book_match(k, 35) == first_book_match(k, 48));
    assert(first_book_match(k, 34) == first_book_match(k, 48));
    assert(first_book_match(k, 33) == first_book_match(k, 48));
    assert(first_book_match(k, 32) == first_book_match(k, 48));
}

#[verifier::rlimit(40)]
proof fn misses_osis_57_48()
    ensures
        first_book_match(canon_spec(57).osis@, 48) == first_book_match(canon_spec(57).osis@, 57),
{
    book_57();
    let k = canon_spec(57).osis@;
    book_48();
    lemma_not_eq_ic(canon_spec(48).osis@, k, 0);
    book_49();
    book_50();
    lemma_not_eq_ic(canon_spec(50).osis@, k, 0);
    book_51();
    book_52();
    book_53();
    book_54();
    book_55();
    lemma_not_same(canon_spec(55).name_zh@, k, 0);
    book_56();
    assert(first_book_match(k, 56) == first_book_match(k, 57));
    assert(first_book_match(k, 55) == first_book_match(k, 57));
    assert(first_book_match(k, 54) == first_book_match(k, 57));
    assert(first_book_match(k, 53) == first_book_match(k, 57));
    assert(first_book_match(k, 52) == first_book_match(k, 57));
    assert(first_book_match(k, 51) == first_book_match(k, 57));
    assert(first_book_match(k, 50) == first_book_match(k, 57));
    assert(first_book_match(k, 49) == first_book_match(k, 57));
    assert(first_book_match(k, 48) == first_book_match(k, 57));
}

proof fn found_by_osis_57()
    ensures
        lookup_canon_spec(canon_spec(57).osis@) == Some(canon_spec(57)),
{
    book_57();
    let k = canon_spec(57).osis@;
    lemma_plain_key(k);
    lemma_not_number(k, 0);
    misses_osis_57_0();
    misses_osis_57_16();
    misses_osis_57_32();
    misses_osis_57_48();
    assert(first_book_match(k, 57) == Some(57int));
}

#[verifier::rlimit(40)]
proof fn misses_abbreviation_57_0()
    ensures
        first_book_match(canon_spec(57).name_zh_short@, 0) == first_book_match(canon_spec(57).name_zh_short@, 16),
{
    book_57();
    let k = canon_spec(57).name_zh_short@;
    book_0();
    lemma_not_same(canon_spec(0).name_zh_short@, k, 0);
    book_1();
    lemma_not_same(canon_spec(1).name_zh_short@, k, 0);
    book_2();
    lemma_not_same(canon_spec(2).name_zh_short@, k, 0);
    book_3();
    lemma_not_same(canon_spec(3).name_zh_short@, k, 0);
    book_4();
    lemma_not_same(canon_spec(4).name_zh_short@, k, 0);
    book_5();
    lemma_not_same(canon_spec(5).name_zh_short@, k, 0);
    book_6();
    lemma_not_same(canon_spec(6).name_zh_short@, k, 0);
    book_7();
    lemma_not_same(canon_spec(7).name_zh_short@, k, 0);
    book_8();
    book_9();
    book_10();
    book_11();
    book_12();
    book_13();
    book_14();
    lemma_not_same(canon_spec(14).name_zh_short@, k, 0);
    book_15();
    lemma_not_same(canon_spec(15).name_zh_short@, k, 0);
    assert(first_book_match(k, 15) == first_book_match(k, 16));
    assert(first_book_match(k, 14) == first_book_match(k, 16));
    assert(first_book_match(k, 13) == first_book_match(k, 16));
    assert(first_book_match(k, 12) == first_book_match(k, 16));
    assert(first_book_match(k, 11) == first_book_match(k, 16));
    assert(first_book_match(k, 10) == first_book_match(k, 16));
    assert(first_book_match(k, 9) == first_book_match(k, 16));
    assert(first_book_match(k, 8) == first_book_match(k, 16));
    assert(first_book_match(k, 7) == first_book_match(k, 16));
    assert(first_book_match(k, 6) == first_book_match(k, 16));
    assert(first_book_match(k, 5) == first_book_match(k, 16));
    assert(first_book_match(k, 4) == first_book_match(k, 16));
    assert(first_book_match(k, 3) == first_book_match(k, 16));
    assert(first_book_match(k, 2) == first_book_match(k, 16));
    assert(first_book_match(k, 1) == first_book_match(k, 16));
    assert(first_book_match(k, 0) == first_book_match(k, 16));
}

#[verifier::rlimit(40)]
proof fn misses_abbreviation_57_16()
    ensures
        first_book_match(canon_spec(57).name_zh_short@, 16) == first_book_match(canon_spec(57).name_zh_short@, 32),
{
    book_57();
    let k = canon_spec(57).name_zh_short@;
    book_16();
    lemma_not_same(canon_spec(16).name_zh_short@, k, 0);
    book_17();
    lemma_not_same(canon_spec(17).name_zh_short@, k, 0);
    book_18();
    lemma_not_same(canon_spec(18).name_zh_short@, k, 0);
    book_19();
    lemma_not_same(canon_spec(19).name_zh_short@, k, 0);
    book_20();
    lemma_not_same(canon_spec(20).name_zh_short@, k, 0);
    book_21();
    lemma_not_same(canon_spec(21).name_zh_short@, k, 0);
    book_22();
    lemma_not_same(canon_spec(22).name_zh_short@, k, 0);
    book_23();
    lemma_not_same(canon_spec(23).name_zh_short@, k, 0);
    book_24();
    lemma_not_same(canon_spec(24).name_zh_short@, k, 0);
    book_25();
    lemma_not_same(canon_spec(25).name_zh_short@, k, 0);
    book_26();
    lemma_not_same(canon_spec(26).name_zh_short@, k, 0);
    book_27();
    lemma_not_same(canon_spec(27).name_zh_short@, k, 0);
    book_28();
    lemma_not_same(canon_spec(28).name_zh_short@, k, 0);
    book_29();
    lemma_not_same(canon_spec(29).name_zh_short@, k, 0);
    book_30();
    lemma_not_same(canon_spec(30).name_zh_short@, k, 0);
    book_31();
    lemma_not_same(canon_spec(31).name_zh_short@, k, 0);
    assert(first_book_match(k, 31) == first_book_match(k, 32));
    assert(first_book_match(k, 30) == first_book_match(k, 32));
    assert(first_book_match(k, 29) == first_book_match(k, 32));
    assert(first_book_match(k, 28) == first_book_match(k, 32));
    assert(first_book_match(k, 27) == first_book_match(k, 32));
    assert(first_book_match(k, 26) == first_book_match(k, 32));
    assert(first_book_match(k, 25) == first_book_match(k, 32));
    assert(first_book_match(k, 24) == first_book_match(k, 32));
    assert(first_book_match(k, 23) == first_book_match(k, 32));
    assert(first_book_match(k, 22) == first_book_match(k, 32));
    assert(first_book_match(k, 21) == first_book_match(k, 32));
    assert(first_book_match(k, 20) == first_book_match(k, 32));
    assert(first_book_match(k, 19) == first_book_match(k, 32));
    assert(first_book_match(k, 18) == first_book_match(k, 32));
    assert(first_book_match(k, 17) == first_book_match(k, 32));
    assert(first_book_match(k, 16) == first_book_match(k, 32));
}

#[verifier::rlimit(40)]
proof fn misses_abbreviation_57_32()
    ensures
        first_book_match(canon_spec(57).name_zh_short@, 32) == first_book_match(canon_spec(57).name_zh_short@, 48),
{
    book_57();
    let k = canon_spec(57).name_zh_short@;
    book_32();
    lemma_not_same(canon_spec(32).name_zh_short@, k, 0);
    book_33();
    lemma_not_same(canon_spec(33).name_zh_short@, k, 0);
    book_34();
    lemma_not_same(canon_spec(34).name_zh_short@, k, 0);
    book_35();
    lemma_not_same(canon_spec(35).name_zh_short@, k, 0);
    book_36();
    lemma_not_same(canon_spec(36).name_zh_short@, k, 0);
    book_37();
    lemma_not_same(canon_spec(37).name_zh_short@, k, 0);
    book_38();
    lemma_not_same(canon_spec(38).name_zh_short@, k, 0);
    book_39();
    lemma_not_same(canon_spec(39).name_zh_short@, k, 0);
    book_40();
    lemma_not_same(canon_spec(40).name_zh_short@, k, 0);
    book_41();
    lemma_not_same(canon_spec(41).name_zh_short@, k, 0);
    book_42();
    lemma_not_same(canon_spec(42).name_zh_short@, k, 0);
    book_43();
    lemma_not_same(canon_spec(43).name_zh_short@, k, 0);
    book_44();
    lemma_not_same(canon_spec(44).name_zh_short@, k, 0);
    book_45();
    book_46();
    book_47();
    lemma_not_same(canon_spec(47).name_zh_short@, k, 0);
    assert(first_book_match(k, 47) == first_book_match(k, 48));
    assert(first_book_match(k, 46) == first_book_match(k, 48));
    assert(first_book_match(k, 45) == first_book_match(k, 48));
    assert(first_book_match(k, 44) == first_book_match(k, 48));
    assert(first_book_match(k, 43) == first_book_match(k, 48));
    assert(first_book_match(k, 42) == first_book_match(k, 48));
    assert(first_book_match(k, 41) == first_book_match(k, 48));
    assert(first_book_match(k, 40) == first_book_match(k, 48));
    assert(first_book_match(k, 39) == first_book_match(k, 48));
    assert(first_book_match(k, 38) == first_book_match(k, 48));
    assert(first_book_match(k, 37) == first_book_match(k, 48));
    assert(first_book_match(k, 36) == first_book_match(k, 48));
    assert(first_book_match(k, 35) == first_book_match(k, 48));
    assert(first_book_match(k, 34) == first_book_match(k, 48));
    assert(first_book_match(k, 33) == first_book_match(k, 48));
    assert(first_book_match(k, 32) == first_book_match(k, 48));
}

#[verifier::rlimit(40)]
proof fn misses_abbreviation_57_48()
    ensures
        first_book_match(canon_spec(57).name_zh_short@, 48) == first_book_match(canon_spec(57).name_zh_short@, 57),
{
    book_57();
    let k = canon_spec(57).name_zh_short@;
    book_48();
    lemma_not_same(canon_spec(48).name_zh_short@, k, 0);
    book_49();
    lemma_not_same(canon_spec(49).name_zh_short@, k, 0);
    book_50();
    lemma_not_same(canon_spec(50).name_zh_short@, k, 0);
    book_51();
    book_52();
    book_53();
    book_54();
    book_55();
    lemma_not_same(canon_spec(55).name_zh_short@, k, 0);
    book_56();
    lemma_not_same(canon_spec(56).name_zh_short@, k, 0);
    assert(first_book_match(k, 56) == first_book_match(k, 57));
    assert(first_book_match(k, 55) == first_book_match(k, 57));
    assert(first_book_match(k, 54) == first_book_match(k, 57));
    assert(first_book_match(k, 53) == first_book_match(k, 57));
    assert(first_book_match(k, 52) == first_book_match(k, 57));
    assert(first_book_match(k, 51) == first_book_match(k, 57));
    assert(first_book_match(k, 50) == first_book_match(k, 57));
    assert(first_book_match(k, 49) == first_book_match(k, 57));
    assert(first_book_match(k, 48) == first_book_match(k, 57));
}

proof fn found_by_abbreviation_57()
    ensures
        lookup_canon_spec(canon_spec(57).name_zh_short@) == Some(canon_spec(57)),
{
    book_57();
    let k = canon_spec(57).name_zh_short@;
    lemma_plain_key(k);
    lemma_not_number(k, 0);
    misses_abbreviation_57_0();
    misses_abbreviation_57_16();
    misses_abbreviation_57_32();
    misses_abbreviation_57_48();
    assert(first_book_match(k, 57) == Some(57int));
}

#[verifier::rlimit(40)]
proof fn misses_english_57_0()
    ensures
        first_book_match(canon_spec(57).name_en@, 0) == first_book_match(canon_spec(57).name_en@, 16),
{
    book_57();
    let k = canon_spec(57).name_en@;
    book_0();
    lemma_not_eq_ic(canon_spec(0).name_en@, k, 0);
    book_1();
    book_2();
    book_3();
    lemma_not_eq_ic(canon_spec(3).name_en@, k, 0);
    book_4();
    book_5();
    book_6();
    book_7();
    book_8();
    book_9();
    book_10();
    lemma_not_eq_ic(canon_spec(10).name_en@, k, 0);
    book_11();
    lemma_not_eq_ic(canon_spec(11).name_en@, k, 0);
    book_12();
    book_13();
    book_14();
    book_15();
    assert(first_book_match(k, 15) == first_book_match(k, 16));
    assert(first_book_match(k, 14) == first_book_match(k, 16));
    assert(first_book_match(k, 13) == first_book_match(k, 16));
    assert(first_book_match(k, 12) == first_book_match(k, 16));
    assert(first_book_match(k, 11) == first_book_match(k, 16));
    assert(first_book_match(k, 10) == first_book_match(k, 16));
    assert(first_book_match(k, 9) == first_book_match(k, 16));
    assert(first_book_match(k, 8) == first_book_match(k, 16));
    assert(first_book_match(k, 7) == first_book_match(k, 16));
    assert(first_book_match(k, 6) == first_book_match(k, 16));
    assert(first_book_match(k, 5) == first_book_match(k, 16));
    assert(first_book_match(k, 4) == first_book_match(k, 16));
    assert(first_book_match(k, 3) == first_book_match(k, 16));
    assert(first_book_match(k, 2) == first_book_match(k, 16));
    assert(first_book_match(k, 1) == first_book_match(k, 16));
    assert(first_book_match(k, 0) == first_book_match(k, 16));
}

#[verifier::rlimit(40)]
proof fn misses_english_57_16()
    ensures
        first_book_match(canon_spec(57).name_en@, 16) == first_book_match(canon_spec(57).name_en@, 32),
{
    book_57();
    let k = canon_spec(57).name_en@;
    book_16();
    book_17();
    book_18();
    book_19();
    book_20();
    book_21();
    book_22();
    book_23();
    book_24();
    book_25();
    lemma_not_eq_ic(canon_spec(25).name_en@, k, 0);
    book_26();
    book_27();
    book_28();
    book_29();
    book_30();
    lemma_not_eq_ic(canon_spec(30).name_en@, k, 0);
    book_31();
    assert(first_book_match(k, 31) == first_book_match(k, 32));
    assert(first_book_match(k, 30) == first_book_match(k, 32));
    assert(first_book_match(k, 29) == first_book_match(k, 32));
    assert(first_book_match(k, 28) == first_book_match(k, 32));
    assert(first_book_match(k, 27) == first_book_match(k, 32));
    assert(first_book_match(k, 26) == first_book_match(k, 32));
    assert(first_book_match(k, 25) == first_book_match(k, 32));
    assert(first_book_match(k, 24) == first_book_match(k, 32));
    assert(first_book_match(k, 23) == first_book_match(k, 32));
    assert(first_book_match(k, 22) == first_book_match(k, 32));
    assert(first_book_match(k, 21) == first_book_match(k, 32));
    assert(first_book_match(k, 20) == first_book_match(k, 32));
    assert(first_book_match(k, 19) == first_book_match(k, 32));
    assert(first_book_match(k, 18) == first_book_match(k, 32));
    assert(first_book_match(k, 17) == first_book_match(k, 32));
    assert(first_book_match(k, 16) == first_book_match(k, 32));
}

#[verifier::rlimit(40)]
proof fn misses_english_57_32()
    ensures
        first_book_match(canon_spec(57).name_en@, 32) == first_book_match(canon_spec(57).name_en@, 48),
{
    book_57();
    let k = canon_spec(57).name_en@;
    book_32();
    book_33();
    book_34();
    book_35();
    book_36();
    book_37();
    book_38();
    lemma_not_eq_ic(canon_spec(38).name_en@, k, 0);
    book_39();
    lemma_not_eq_ic(canon_spec(39).name_en@, k, 0);
    book_40();
    book_41();
    book_42();
    book_43();
    book_44();
    book_45();
    book_46();
    book_47();
    assert(first_book_match(k, 47) == first_book_match(k, 48));
    assert(first_book_match(k, 46) == first_book_match(k, 48));
    assert(first_book_match(k, 45) == first_book_match(k, 48));
    assert(first_book_match(k, 44) == first_book_match(k, 48));
    assert(first_book_match(k, 43) == first_book_match(k, 48));
    assert(first_book_match(k, 42) == first_book_match(k, 48));
    assert(first_book_match(k, 41) == first_book_match(k, 48));
    assert(first_book_match(k, 40) == first_book_match(k, 48));
    assert(first_book_match(k, 39) == first_book_match(k, 48));
    assert(first_book_match(k, 38) == first_book_match(k, 48));
    assert(first_book_match(k, 37) == first_book_match(k, 48));
    assert(first_book_match(k, 36) == first_book_match(k, 48));
    assert(first_book_match(k, 35) == first_book_match(k, 48));
    assert(first_book_match(k, 34) == first_book_match(k, 48));
    assert(first_book_match(k, 33) == first_book_match(k, 48));
    assert(first_book_match(k, 32) == first_book_match(k, 48));
}

#[verifier::rlimit(40)]
proof fn misses_english_57_48()
    ensures
        first_book_match(canon_spec(57).name_en@, 48) == first_book_match(canon_spec(57).name_en@, 57),
{
    book_57();
    let k = canon_spec(57).name_en@;
    book_48();
    book_49();
    book_50();
    book_51();
    lemma_not_same(canon_spec(51).name_zh@, k, 0);
    book_52();
    lemma_not_same(canon_spec(52).name_zh@, k, 0);
    book_53();
    book_54();
    book_55();
    book_56();
    assert(first_book_match(k, 56) == first_book_match(k, 57));
    assert(first_book_match(k, 55) == first_book_match(k, 57));
    assert(first_book_match(k, 54) == first_book_match(k, 57));
    assert(first_book_match(k, 53) == first_book_match(k, 57));
    assert(first_book_match(k, 52) == first_book_match(k, 57));
    assert(first_book_match(k, 51) == first_book_match(k, 57));
    assert(first_book_match(k, 50) == first_book_match(k, 57));
    assert(first_book_match(k, 49) == first_book_match(k, 57));
    assert(first_book_match(k, 48) == first_book_match(k, 57));
}

proof fn found_by_english_57()
    ensures
        lookup_canon_spec(canon_spec(57).name_en@) == Some(canon_spec(57)),
{
    book_57();
    let k = canon_spec(57).name_en@;
    lemma_plain_key(k);
    lemma_not_number(k, 0);
    misses_english_57_0();
    misses_english_57_16();
    misses_english_57_32();
    misses_english_57_48();
    assert(first_book_match(k, 57) == Some(57int));
}

#[verifier::rlimit(40)]
proof fn misses_osis_58_0()
    ensures
        first_book_match(canon_spec(58).osis@, 0) == first_book_match(canon_spec(58).osis@, 16),
{
    book_58();
    let k = canon_spec(58).osis@;
    book_0();
    lemma_not_eq_ic(canon_spec(0).osis@, k, 0);
    lemma_not_same(canon_spec(0).name_zh@, k, 0);
    book_1();
    book_2();
    lemma_not_eq_ic(canon_spec(2).osis@, k, 0);
    lemma_not_same(canon_spec(2).name_zh@, k, 0);
    book_3();
    lemma_not_eq_ic(canon_spec(3).osis@, k, 0);
    lemma_not_same(canon_spec(3).name_zh@, k, 0);
    book_4();
    lemma_not_same(canon_spec(4).name_zh@, k, 0);
    book_5();
    book_6();
    lemma_not_same(canon_spec(6).name_zh@, k, 0);
    book_7();
    lemma_not_same(canon_spec(7).name_zh@, k, 0);
    book_8();
    book_9();
    book_10();
    book_11();
    book_12();
    book_13();
    book_14();
    book_15();
    lemma_not_eq_ic(canon_spec(15).osis@, k, 0);
    assert(first_book_match(k, 15) == first_book_match(k, 16));
    assert(first_book_match(k, 14) == first_book_match(k, 16));
    assert(first_book_match(k, 13) == first_book_match(k, 16));
    assert(first_book_match(k, 12) == first_book_match(k, 16));
    assert(first_book_match(k, 11) == first_book_match(k, 16));
    assert(first_book_match(k, 10) == first_book_match(k, 16));
    assert(first_book_match(k, 9) == first_book_match(k, 16));
    assert(first_book_match(k, 8) == first_book_match(k, 16));
    assert(first_book_match(k, 7) == first_book_match(k, 16));
    assert(first_book_match(k, 6) == first_book_match(k, 16));
    assert(first_book_match(k, 5) == first_book_match(k, 16));
    assert(first_book_match(k, 4) == first_book_match(k, 16));
    assert(first_book_match(k, 3) == first_book_match(k, 16));
    assert(first_book_match(k, 2) == first_book_match(k, 16));
    assert(first_book_match(k, 1) == first_book_match(k, 16));
    assert(first_book_match(k, 0) == first_book_match(k, 16));
}

#[verifier::rlimit(40)]
proof fn misses_osis_58_16()
    ensures
        first_book_match(canon_spec(58).osis@, 16) == first_book_match(canon_spec(58).osis@, 32),
{
    book_58();
    let k = canon_spec(58).osis@;
    book_16();
    book_17();
    lemma_not_eq_ic(canon_spec(17).osis@, k, 1);
    lemma_not_same(canon_spec(17).name_zh@, k, 0);
    lemma_not_eq_ic(canon_spec(17).name_en@, k, 1);
    book_18();
    book_19();
    book_20();
    lemma_not_same(canon_spec(20).name_zh@, k, 0);
    book_21();
    book_22();
    lemma_not_eq_ic(canon_spec(22).osis@, k, 0);
    book_23();
    lemma_not_eq_ic(canon_spec(23).osis@, k, 1);
    book_24();
    lemma_not_eq_ic(canon_spec(24).osis@, k, 0);
    book_25();
    book_26();
    lemma_not_eq_ic(canon_spec(26).osis@, k, 0);
    book_27();
    lemma_not_eq_ic(canon_spec(27).osis@, k, 0);
    book_28();
    lemma_not_same(canon_spec(28).name_zh@, k, 0);
    book_29();
    book_30();
    book_31();
    lemma_not_same(canon_spec(31).name_zh@, k, 0);
    assert(first_book_match(k, 31) == first_book_match(k, 32));
    assert(first_book_match(k, 30) == first_book_match(k, 32));
    assert(first_book_match(k, 29) == first_book_match(k, 32));
    assert(first_book_match(k, 28) == first_book_match(k, 32));
    assert(first_book_match(k, 27) == first_book_match(k, 32));
    assert(first_book_match(k, 26) == first_book_match(k, 32));
    assert(first_book_match(k, 25) == first_book_match(k, 32));
    assert(first_book_match(k, 24) == first_book_match(k, 32));
    assert(first_book_match(k, 23) == first_book_match(k, 32));
    assert(first_book_match(k, 22) == first_book_match(k, 32));
    assert(first_book_match(k, 21) == first_book_match(k, 32));
    assert(first_book_match(k, 20) == first_book_match(k, 32));
    assert(first_book_match(k, 19) == first_book_match(k, 32));
    assert(first_book_match(k, 18) == first_book_match(k, 32));
    assert(first_book_match(k, 17) == first_book_match(k, 32));
    assert(first_book_match(k, 16) == first_book_match(k, 32));
}

#[verifier::rlimit(40)]
proof fn misses_osis_58_32()
    ensures
        first_book_match(canon_spec(58).osis@, 32) == first_book_match(canon_spec(58).osis@, 48),
{
    book_58();
    let k = canon_spec(58).osis@;
    book_32();
    lemma_not_eq_ic(canon_spec(32).osis@, k, 0);
    lemma_not_same(canon_spec(32).name_zh@, k, 0);
    book_33();
    lemma_not_eq_ic(canon_spec(33).osis@, k, 0);
    lemma_not_same(canon_spec(33).name_zh@, k, 0);
    book_34();
    lemma_not_eq_ic(canon_spec(34).osis@, k, 0);
    book_35();
    book_36();
    lemma_not_eq_ic(canon_spec(36).osis@, k, 0);
    lemma_not_same(canon_spec(36).name_zh@, k, 0);
    book_37();
    book_38();
    lemma_not_eq_ic(canon_spec(38).osis@, k, 0);
    book_39();
    book_40();
    book_41();
    book_42();
    book_43();
    book_44();
    lemma_not_eq_ic(canon_spec(44).osis@, k, 0);
    lemma_not_same(canon_spec(44).name_zh@, k, 0);
    book_45();
    book_46();
    book_47();
    lemma_not_eq_ic(canon_spec(47).osis@, k, 0);
    assert(first_book_match(k, 47) == first_book_match(k, 48));
    assert(first_book_match(k, 46) == first_book_match(k, 48));
    assert(first_book_match(k, 45) == first_book_match(k, 48));
    assert(first_book_match(k, 44) == first_book_match(k, 48));
    assert(first_book_match(k, 43) == first_book_match(k, 48));
    assert(first_book_match(k, 42) == first_book_match(k, 48));
    assert(first_book_match(k, 41) == first_book_match(k, 48));
    assert(first_book_match(k, 40) == first_book_match(k, 48));
    assert(first_book_match(k, 39) == first_book_match(k, 48));
    assert(first_book_match(k, 38) == first_book_match(k, 48));
    assert(first_book_match(k, 37) == first_book_match(k, 48));
    assert(first_book_match(k, 36) == first_book_match(k, 48));
    assert(first_book_match(k, 35) == first_book_match(k, 48));
    assert(first_book_match(k, 34) == first_book_match(k, 48));
    assert(first_book_match(k, 33) == first_book_match(k, 48));
    assert(first_book_match(k, 32) == first_book_match(k, 48));
}

#[verifier::rlimit(40)]
proof fn misses_osis_58_48()
    ensures
        first_book_match(canon_spec(58).osis@, 48) == first_book_match(canon_spec(58).osis@, 58),
{
    book_58();
    let k = canon_spec(58).osis@;
    book_48();
    lemma_not_eq_ic(canon_spec(48).osis@, k, 0);
    book_49();
    book_50();
    lemma_not_eq_ic(canon_spec(50).osis@, k, 0);
    book_51();
    book_52();
    book_53();
    book_54();
    book_55();
    lemma_not_same(canon_spec(55).name_zh@, k, 0);
    book_56();
    book_57();
    lemma_not_eq_ic(canon_spec(57).osis@, k, 0);
    assert(first_book_match(k, 57) == first_book_match(k, 58));
    assert(first_book_match(k, 56) == first_book_match(k, 58));
    assert(first_book_match(k, 55) == first_book_match(k, 58));
    assert(first_book_match(k, 54) == first_book_match(k, 58));
    assert(first_book_match(k, 53) == first_book_match(k, 58));
    assert(first_book_match(k, 52) == first_book_match(k, 58));
    assert(first_book_match(k, 51) == first_book_match(k, 58));
    assert(first_book_match(k, 50) == first_book_match(k, 58));
    assert(first_book_match(k, 49) == first_book_match(k, 58));
    assert(first_book_match(k, 48) == first_book_match(k, 58));
}

proof fn found_by_osis_58()
    ensures
        lookup_canon_spec(canon_spec(58).osis@) == Some(canon_spec(58)),
{
    book_58();
    let k = canon_spec(58).osis@;
    lemma_plain_key(k);
    lemma_not_number(k, 0);
    misses_osis_58_0();
    misses_osis_58_16();
    misses_osis_58_32();
    misses_osis_58_48();
    assert(first_book_match(k, 58) == Some(58int));
}

#[verifier::rlimit(40)]
proof fn misses_abbreviation_58_0()
    ensures
        first_book_match(canon_spec(58).name_zh_short@, 0) == first_book_match(canon_spec(58).name_zh_short@, 16),
{
    book_58();
    let k = canon_spec(58).name_zh_short@;
    book_0();
    lemma_not_same(canon_spec(0).name_zh_short@, k, 0);
    book_1();
    lemma_not_same(canon_spec(1).name_zh_short@, k, 0);
    book_2();
    lemma_not_same(canon_spec(2).name_zh_short@, k, 0);
    book_3();
    lemma_not_same(canon_spec(3).name_zh_short@, k, 0);
    book_4();
    lemma_not_same(canon_spec(4).name_zh_short@, k, 0);
    book_5();
    lemma_not_same(canon_spec(5).name_zh_short@, k, 0);
    book_6();
    lemma_not_same(canon_spec(6).name_zh_short@, k, 0);
    book_7();
    lemma_not_same(canon_spec(7).name_zh_short@, k, 0);
    book_8();
    book_9();
    book_10();
    book_11();
    book_12();
    book_13();
    book_14();
    lemma_not_same(canon_spec(14).name_zh_short@, k, 0);
    book_15();
    lemma_not_same(canon_spec(15).name_zh_short@, k, 0);
    assert(first_book_match(k, 15) == first_book_match(k, 16));
    assert(first_book_match(k, 14) == first_book_match(k, 16));
    assert(first_book_match(k, 13) == first_book_match(k, 16));
    assert(first_book_match(k, 12) == first_book_match(k, 16));
    assert(first_book_match(k, 11) == first_book_match(k, 16));
    assert(first_book_match(k, 10) == first_book_match(k, 16));
    assert(first_book_match(k, 9) == first_book_match(k, 16));
    assert(first_book_match(k, 8) == first_book_match(k, 16));
    assert(first_book_match(k, 7) == first_book_match(k, 16));
    assert(first_book_match(k, 6) == first_book_match(k, 16));
    assert(first_book_match(k, 5) == first_book_match(k, 16));
    assert(first_book_match(k, 4) == first_book_match(k, 16));
    assert(first_book_match(k, 3) == first_book_match(k, 16));
    assert(first_book_match(k, 2) == first_book_match(k, 16));
    assert(first_book_match(k, 1) == first_book_match(k, 16));
    assert(first_book_match(k, 0) == first_book_match(k, 16));
}

#[verifier::rlimit(40)]
proof fn misses_abbreviation_58_16()
    ensures
        first_book_match(canon_spec(58).name_zh_short@, 16) == first_book_match(canon_spec(58).name_zh_short@, 32),
{
    book_58();
    let k = canon_spec(58).name_zh_short@;
    book_16();
    lemma_not_same(canon_spec(16).name_zh_short@, k, 0);
    book_17();
    lemma_not_same(canon_spec(17).name_zh_short@, k, 0);
    book_18();
    lemma_not_same(canon_spec(18).name_zh_short@, k, 0);
    book_19();
    lemma_not_same(canon_spec(19).name_zh_short@, k, 0);
    book_20();
    lemma_not_same(canon_spec(20).name_zh_short@, k, 0);
    book_21();
    lemma_not_same(canon_spec(21).name_zh_short@, k, 0);
    book_22();
    lemma_not_same(canon_spec(22).name_zh_short@, k, 0);
    book_23();
    lemma_not_same(canon_spec(23).name_zh_short@, k, 0);
    book_24();
    lemma_not_same(canon_spec(24).name_zh_short@, k, 0);
    book_25();
    lemma_not_same(canon_spec(25).name_zh_short@, k, 0);
    book_26();
    lemma_not_same(canon_spec(26).name_zh_short@, k, 0);
    book_27();
    lemma_not_same(canon_spec(27).name_zh_short@, k, 0);
    book_28();
    lemma_not_same(canon_spec(28).name_zh_short@, k, 0);
    book_29();
    lemma_not_same(canon_spec(29).name_zh_short@, k, 0);
    book_30();
    lemma_not_same(canon_spec(30).name_zh_short@, k, 0);
    book_31();
    lemma_not_same(canon_spec(31).name_zh_short@, k, 0);
    assert(first_book_match(k, 31) == first_book_match(k, 32));
    assert(first_book_match(k, 30) == first_book_match(k, 32));
    assert(first_book_match(k, 29) == first_book_match(k, 32));
    assert(first_book_match(k, 28) == first_book_match(k, 32));
    assert(first_book_match(k, 27) == first_book_match(k, 32));
    assert(first_book_match(k, 26) == first_book_match(k, 32));
    assert(first_book_match(k, 25) == first_book_match(k, 32));
    assert(first_book_match(k, 24) == first_book_match(k, 32));
    assert(first_book_match(k, 23) == first_book_match(k, 32));
    assert(first_book_match(k, 22) == first_book_match(k, 32));
    assert(first_book_match(k, 21) == first_book_match(k, 32));
    assert(first_book_match(k, 20) == first_book_match(k, 32));
    assert(first_book_match(k, 19) == first_book_match(k, 32));
    assert(first_book_match(k, 18) == first_book_match(k, 32));
    assert(first_book_match(k, 17) == first_book_match(k, 32));
    assert(first_book_match(k, 16) == first_book_match(k, 32));
}

#[verifier::rlimit(40)]
proof fn misses_abbreviation_58_32()
    ensures
        first_book_match(canon_spec(58).name_zh_short@, 32) == first_book_match(canon_spec(58).name_zh_short@, 48),
{
    book_58();
    let k = canon_spec(58).name_zh_short@;
    book_32();
    lemma_not_same(canon_spec(32).name_zh_short@, k, 0);
    book_33();
    lemma_not_same(canon_spec(33).name_zh_short@, k, 0);
    book_34();
    lemma_not_same(canon_spec(34).name_zh_short@, k, 0);
    book_35();
    lemma_not_same(canon_spec(35).name_zh_short@, k, 0);
    book_36();
    lemma_not_same(canon_spec(36).name_zh_short@, k, 0);
    book_37();
    lemma_not_same(canon_spec(37).name_zh_short@, k, 0);
    book_38();
    lemma_not_same(canon_spec(38).name_zh_short@, k, 0);
    book_39();
    lemma_not_same(canon_spec(39).name_zh_short@, k, 0);
    book_40();
    lemma_not_same(canon_spec(40).name_zh_short@, k, 0);
    book_41();
    lemma_not_same(canon_spec(41).name_zh_short@, k, 0);
    book_42();
    lemma_not_same(canon_spec(42).name_zh_short@, k, 0);
    book_43();
    lemma_not_same(canon_spec(43).name_zh_short@, k, 0);
    book_44();
    lemma_not_same(canon_spec(44).name_zh_short@, k, 0);
    book_45();
    book_46();
    book_47();
    lemma_not_same(canon_spec(47).name_zh_short@, k, 0);
    assert(first_book_match(k, 47) == first_book_match(k, 48));
    assert(first_book_match(k, 46) == first_book_match(k, 48));
    assert(first_book_match(k, 45) == first_book_match(k, 48));
    assert(first_book_match(k, 44) == first_book_match(k, 48));
    assert(first_book_match(k, 43) == first_book_match(k, 48));
    assert(first_book_match(k, 42) == first_book_match(k, 48));
    assert(first_book_match(k, 41) == first_book_match(k, 48));
    assert(first_book_match(k, 40) == first_book_match(k, 48));
    assert(first_book_match(k, 39) == first_book_match(k, 48));
    assert(first_book_match(k, 38) == first_book_match(k, 48));
    assert(first_book_match(k, 37) == first_book_match(k, 48));
    assert(first_book_match(k, 36) == first_book_match(k, 48));
    assert(first_book_match(k, 35) == first_book_match(k, 48));
    assert(first_book_match(k, 34) == first_book_match(k, 48));
    assert(first_book_match(k, 33) == first_book_match(k, 48));
    assert(first_book_match(k, 32) == first_book_match(k, 48));
}

#[verifier::rlimit(40)]
proof fn misses_abbreviation_58_48()
    ensures
        first_book_match(canon_spec(58).name_zh_short@, 48) == first_book_match(canon_spec(58).name_zh_short@, 58),
{
    book_58();
    let k = canon_spec(58).name_zh_short@;
    book_48();
    lemma_not_same(canon_spec(48).name_zh_short@, k, 0);
    book_49();
    lemma_not_same(canon_spec(49).name_zh_short@, k, 0);
    book_50();
    lemma_not_same(canon_spec(50).name_zh_short@, k, 0);
    book_51();
    book_52();
    book_53();
    book_54();
    book_55();
    lemma_not_same(canon_spec(55).name_zh_short@, k, 0);
    book_56();
    lemma_not_same(canon_spec(56).name_zh_short@, k, 0);
    book_57();
    lemma_not_same(canon_spec(57).name_zh_short@, k, 0);
    assert(first_book_match(k, 57) == first_book_match(k, 58));
    assert(first_book_match(k, 56) == first_book_match(k, 58));
    assert(first_book_match(k, 55) == first_book_match(k, 58));
    assert(first_book_match(k, 54) == first_book_match(k, 58));
    assert(first_book_match(k, 53) == first_book_match(k, 58));
    assert(first_book_match(k, 52) == first_book_match(k, 58));
    assert(first_book_match(k, 51) == first_book_match(k, 58));
    assert(first_book_match(k, 50) == first_book_match(k, 58));
    assert(first_book_match(k, 49) == first_book_match(k, 58));
    assert(first_book_match(k, 48) == first_book_match(k, 58));
}

proof fn found_by_abbreviation_58()
    ensures
        lookup_canon_spec(canon_spec(58).name_zh_short@) == Some(canon_spec(58)),
{
    book_58();
    let k = canon_spec(58).name_zh_short@;
    lemma_plain_key(k);
    lemma_not_number(k, 0);
    misses_abbreviation_58_0();
    misses_abbreviation_58_16();
    misses_abbreviation_58_32();
    misses_abbreviation_58_48();
    assert(first_book_match(k, 58) == Some(58int));
}

#[verifier::rlimit(40)]
proof fn misses_english_58_0()
    ensures
        first_book_match(canon_spec(58).name_en@, 0) == first_book_match(canon_spec(58).name_en@, 16),
{
    book_58();
    let k = canon_spec(58).name_en@;
    book_0();
    book_1();
    book_2();
    book_3();
    book_4();
    book_5();
    book_6();
    book_7();
    book_8();
    lemma_not_same(canon_spec(8).name_zh@, k, 0);
    book_9();
    lemma_not_same(canon_spec(9).name_zh@, k, 0);
    book_10();
    book_11();
    book_12();
    book_13();
    book_14();
    book_15();
    assert(first_book_match(k, 15) == first_book_match(k, 16));
    assert(first_book_match(k, 14) == first_book_match(k, 16));
    assert(first_book_match(k, 13) == first_book_match(k, 16));
    assert(first_book_match(k, 12) == first_book_match(k, 16));
    assert(first_book_match(k, 11) == first_book_match(k, 16));
    assert(first_book_match(k, 10) == first_book_match(k, 16));
    assert(first_book_match(k, 9) == first_book_match(k, 16));
    assert(first_book_match(k, 8) == first_book_match(k, 16));
    assert(first_book_match(k, 7) == first_book_match(k, 16));
    assert(first_book_match(k, 6) == first_book_match(k, 16));
    assert(first_book_match(k, 5) == first_book_match(k, 16));
    assert(first_book_match(k, 4) == first_book_match(k, 16));
    assert(first_book_match(k, 3) == first_book_match(k, 16));
    assert(first_book_match(k, 2) == first_book_match(k, 16));
    assert(first_book_match(k, 1) == first_book_match(k, 16));
    assert(first_book_match(k, 0) == first_book_match(k, 16));
}

#[verifier::rlimit(40)]
proof fn misses_english_58_16()
    ensures
        first_book_match(canon_spec(58).name_en@, 16) == first_book_match(canon_spec(58).name_en@, 32),
{
    book_58();
    let k = canon_spec(58).name_en@;
    book_16();
    book_17();
    book_18();
    book_19();
    book_20();
    book_21();
    book_22();
    book_23();
    book_24();
    lemma_not_same(canon_spec(24).name_zh@, k, 0);
    book_25();
    book_26();
    book_27();
    lemma_not_eq_ic(canon_spec(27).name_en@, k, 0);
    book_28();
    book_29();
    book_30();
    lemma_not_same(canon_spec(30).name_zh@, k, 0);
    book_31();
    lemma_not_eq_ic(canon_spec(31).osis@, k, 1);
    lemma_not_eq_ic(canon_spec(31).name_en@, k, 1);
    assert(first_book_match(k, 31) == first_book_match(k, 32));
    assert(first_book_match(k, 30) == first_book_match(k, 32));
    assert(first_book_match(k, 29) == first_book_match(k, 32));
    assert(first_book_match(k, 28) == first_book_match(k, 32));
    assert(first_book_match(k, 27) == first_book_match(k, 32));
    assert(first_book_match(k, 26) == first_book_match(k, 32));
    assert(first_book_match(k, 25) == first_book_match(k, 32));
    assert(first_book_match(k, 24) == first_book_match(k, 32));
    assert(first_book_match(k, 23) == first_book_match(k, 32));
    assert(first_book_match(k, 22) == first_book_match(k, 32));
    assert(first_book_match(k, 21) == first_book_match(k, 32));
    assert(first_book_match(k, 20) == first_book_match(k, 32));
    assert(first_book_match(k, 19) == first_book_match(k, 32));
    assert(first_book_match(k, 18) == first_book_match(k, 32));
    assert(first_book_match(k, 17) == first_book_match(k, 32));
    assert(first_book_match(k, 16) == first_book_match(k, 32));
}

#[verifier::rlimit(40)]
proof fn misses_english_58_32()
    ensures
        first_book_match(canon_spec(58).name_en@, 32) == first_book_match(canon_spec(58).name_en@, 48),
{
    book_58();
    let k = canon_spec(58).name_en@;
    book_32();
    lemma_not_eq_ic(canon_spec(32).name_en@, k, 0);
    book_33();
    lemma_not_eq_ic(canon_spec(33).name_en@, k, 0);
    book_34();
    book_35();
    book_36();
    book_37();
    lemma_not_same(canon_spec(37).name_zh@, k, 0);
    book_38();
    book_39();
    book_40();
    book_41();
    book_42();
    book_43();
    book_44();
    book_45();
    lemma_not_same(canon_spec(45).name_zh@, k, 0);
    book_46();
    lemma_not_same(canon_spec(46).name_zh@, k, 0);
    book_47();
    assert(first_book_match(k, 47) == first_book_match(k, 48));
    assert(first_book_match(k, 46) == first_book_match(k, 48));
    assert(first_book_match(k, 45) == first_book_match(k, 48));
    assert(first_book_match(k, 44) == first_book_match(k, 48));
    assert(first_book_match(k, 43) == first_book_match(k, 48));
    assert(first_book_match(k, 42) == first_book_match(k, 48));
    assert(first_book_match(k, 41) == first_book_match(k, 48));
    assert(first_book_match(k, 40) == first_book_match(k, 48));
    assert(first_book_match(k, 39) == first_book_match(k, 48));
    assert(first_book_match(k, 38) == first_book_match(k, 48));
    assert(first_book_match(k, 37) == first_book_match(k, 48));
    assert(first_book_match(k, 36) == first_book_match(k, 48));
    assert(first_book_match(k, 35) == first_book_match(k, 48));
    assert(first_book_match(k, 34) == first_book_match(k, 48));
    assert(first_book_match(k, 33) == first_book_match(k, 48));
    assert(first_book_match(k, 32) == first_book_match(k, 48));
}

#[verifier::rlimit(40)]
proof fn misses_english_58_48()
    ensures
        first_book_match(canon_spec(58).name_en@, 48) == first_book_match(canon_spec(58).name_en@, 58),
{
    book_58();
    let k = canon_spec(58).name_en@;
    book_48();
    book_49();
    book_50();
    book_51();
    book_52();
    book_53();
    lemma_not_same(canon_spec(53).name_zh@, k, 0);
    book_54();
    lemma_not_same(canon_spec(54).name_zh@, k, 0);
    book_55();
    lemma_not_eq_ic(canon_spec(55).osis@, k, 0);
    lemma_not_eq_ic(canon_spec(55).name_en@, k, 0);
    book_56();
    book_57();
    assert(first_book_match(k, 57) == first_book_match(k, 58));
    assert(first_book_match(k, 56) == first_book_match(k, 58));
    assert(first_book_match(k, 55) == first_book_match(k, 58));
    assert(first_book_match(k, 54) == first_book_match(k, 58));
    assert(first_book_match(k, 53) == first_book_match(k, 58));
    assert(first_book_match(k, 52) == first_book_match(k, 58));
    assert(first_book_match(k, 51) == first_book_match(k, 58));
    assert(first_book_match(k, 50) == first_book_match(k, 58));
    assert(first_book_match(k, 49) == first_book_match(k, 58));
    assert(first_book_match(k, 48) == first_book_match(k, 58));
}

proof fn found_by_english_58()
    ensures
        lookup_canon_spec(canon_spec(58).name_en@) == Some(canon_spec(58)),
{
    book_58();
    let k = canon_spec(58).name_en@;
    lemma_plain_key(k);
    lemma_not_number(k, 0);
    misses_english_58_0();
    misses_english_58_16();
    misses_english_58_32();
    misses_english_58_48();
    assert(first_book_match(k, 58) == Some(58int));
}

#[verifier::rlimit(40)]
proof fn misses_osis_59_0()
    ensures
        first_book_match(canon_spec(59).osis@, 0) == first_book_match(canon_spec(59).osis@, 16),
{
    book_59();
    let k = canon_spec(59).osis@;
    book_0();
    book_1();
    lemma_not_eq_ic(canon_spec(1).osis@, k, 0);
    lemma_not_same(canon_spec(1).name_zh@, k, 0);
    book_2();
    book_3();
    book_4();
    lemma_not_eq_ic(canon_spec(4).osis@, k, 0);
    book_5();
    lemma_not_eq_ic(canon_spec(5).osis@, k, 0);
    lemma_not_same(canon_spec(5).name_zh@, k, 0);
    book_6();
    lemma_not_eq_ic(canon_spec(6).osis@, k, 0);
    book_7();
    lemma_not_eq_ic(canon_spec(7).osis@, k, 0);
    lemma_not_eq_ic(canon_spec(7).name_en@, k, 0);
    book_8();
    lemma_not_eq_ic(canon_spec(8).osis@, k, 1);
    book_9();
    lemma_not_eq_ic(canon_spec(9).osis@, k, 0);
    book_10();
    lemma_not_eq_ic(canon_spec(10).osis@, k, 1);
    lemma_not_same(canon_spec(10).name_zh@, k, 0);
    book_11();
    lemma_not_eq_ic(canon_spec(11).osis@, k, 0);
    lemma_not_same(canon_spec(11).name_zh@, k, 0);
    book_12();
    lemma_not_eq_ic(canon_spec(12).osis@, k, 1);
    lemma_not_same(canon_spec(12).name_zh@, k, 0);
    book_13();
    lemma_not_eq_ic(canon_spec(13).osis@, k, 0);
    lemma_not_same(canon_spec(13).name_zh@, k, 0);
    book_14();
    lemma_not_eq_ic(canon_spec(14).osis@, k, 0);
    lemma_not_same(canon_spec(14).name_zh@, k, 0);
    lemma_not_eq_ic(canon_spec(14).name_en@, k, 0);
    book_15();
    lemma_not_same(canon_spec(15).name_zh@, k, 0);
    assert(first_book_match(k, 15) == first_book_match(k, 16));
    assert(first_book_match(k, 14) == first_book_match(k, 16));
    assert(first_book_match(k, 13) == first_book_match(k, 16));
    assert(first_book_match(k, 12) == first_book_match(k, 16));
    assert(first_book_match(k, 11) == first_book_match(k, 16));
    assert(first_book_match(k, 10) == first_book_match(k, 16));
    assert(first_book_match(k, 9) == first_book_match(k, 16));
    assert(first_book_match(k, 8) == first_book_match(k, 16));
    assert(first_book_match(k, 7) == first_book_match(k, 16));
    assert(first_book_match(k, 6) == first_book_match(k, 16));
    assert(first_book_match(k, 5) == first_book_match(k, 16));
    assert(first_book_match(k, 4) == first_book_match(k, 16));
    assert(first_book_match(k, 3) == first_book_match(k, 16));
    assert(first_book_match(k, 2) == first_book_match(k, 16));
    assert(first_book_match(k, 1) == first_book_match(k, 16));
    assert(first_book_match(k, 0) == first_book_match(k, 16));
}

#[verifier::rlimit(40)]
proof fn misses_osis_59_16()
    ensures
        first_book_match(canon_spec(59).osis@, 16) == first_book_match(canon_spec(59).osis@, 32),
{
    book_59();
    let k = canon_spec(59).osis@;
    book_16();
    lemma_not_eq_ic(canon_spec(16).osis@, k, 0);
    lemma_not_same(canon_spec(16).name_zh@, k, 0);
    book_17();
    book_18();
    book_19();
    lemma_not_eq_ic(canon_spec(19).osis@, k, 0);
    book_20();
    lemma_not_eq_ic(canon_spec(20).osis@, k, 0);
    book_21();
    lemma_not_eq_ic(canon_spec(21).osis@, k, 0);
    book_22();
    lemma_not_same(canon_spec(22).name_zh@, k, 0);
    book_23();
    lemma_not_same(canon_spec(23).name_zh@, k, 0);
    book_24();
    book_25();
    lemma_not_eq_ic(canon_spec(25).osis@, k, 0);
    lemma_not_same(canon_spec(25).name_zh@, k, 0);
    book_26();
    lemma_not_same(canon_spec(26).name_zh@, k, 0);
    book_27();
    lemma_not_same(canon_spec(27).name_zh@, k, 0);
    book_28();
    lemma_not_eq_ic(canon_spec(28).osis@, k, 0);
    lemma_not_eq_ic(canon_spec(28).name_en@, k, 0);
    book_29();
    lemma_not_eq_ic(canon_spec(29).osis@, k, 0);
    lemma_not_same(canon_spec(29).name_zh@, k, 0);
    lemma_not_eq_ic(canon_spec(29).name_en@, k, 0);
    book_30();
    lemma_not_eq_ic(canon_spec(30).osis@, k, 0);
    book_31();
    assert(first_book_match(k, 31) == first_book_match(k, 32));
    assert(first_book_match(k, 30) == first_book_match(k, 32));
    assert(first_book_match(k, 29) == first_book_match(k, 32));
    assert(first_book_match(k, 28) == first_book_match(k, 32));
    assert(first_book_match(k, 27) == first_book_match(k, 32));
    assert(first_book_match(k, 26) == first_book_match(k, 32));
    assert(first_book_match(k, 25) == first_book_match(k, 32));
    assert(first_book_match(k, 24) == first_book_match(k, 32));
    assert(first_book_match(k, 23) == first_book_match(k, 32));
    assert(first_book_match(k, 22) == first_book_match(k, 32));
    assert(first_book_match(k, 21) == first_book_match(k, 32));
    assert(first_book_match(k, 20) == first_book_match(k, 32));
    assert(first_book_match(k, 19) == first_book_match(k, 32));
    assert(first_book_match(k, 18) == first_book_match(k, 32));
    assert(first_book_match(k, 17) == first_book_match(k, 32));
    assert(first_book_match(k, 16) == first_book_match(k, 32));
}

#[verifier::rlimit(40)]
proof fn misses_osis_59_32()
    ensures
        first_book_match(canon_spec(59).osis@, 32) == first_book_match(canon_spec(59).osis@, 48),
{
    book_59();
    let k = canon_spec(59).osis@;
    book_32();
    book_33();
    book_34();
    lemma_not_same(canon_spec(34).name_zh@, k, 0);
    book_35();
    lemma_not_eq_ic(canon_spec(35).osis@, k, 0);
    lemma_not_same(canon_spec(35).name_zh@, k, 0);
    book_36();
    book_37();
    lemma_not_eq_ic(canon_spec(37).osis@, k, 0);
    book_38();
    lemma_not_same(canon_spec(38).name_zh@, k, 0);
    book_39();
    lemma_not_eq_ic(canon_spec(39).osis@, k, 0);
    lemma_not_same(canon_spec(39).name_zh@, k, 0);
    book_40();
    lemma_not_eq_ic(canon_spec(40).osis@, k, 0);
    lemma_not_same(canon_spec(40).name_zh@, k, 0);
    lemma_not_eq_ic(canon_spec(40).name_en@, k, 0);
    book_41();
    lemma_not_eq_ic(canon_spec(41).osis@, k, 0);
    lemma_not_same(canon_spec(41).name_zh@, k, 0);
    lemma_not_eq_ic(canon_spec(41).name_en@, k, 0);
    book_42();
    lemma_not_eq_ic(canon_spec(42).osis@, k, 0);
    lemma_not_same(canon_spec(42).name_zh@, k, 0);
    lemma_not_eq_ic(canon_spec(42).name_en@, k, 0);
    book_43();
    lemma_not_eq_ic(canon_spec(43).osis@, k, 0);
    lemma_not_same(canon_spec(43).name_zh@, k, 0);
    lemma_not_eq_ic(canon_spec(43).name_en@, k, 0);
    book_44();
    book_45();
    lemma_not_eq_ic(canon_spec(45).osis@, k, 1);
    book_46();
    lemma_not_eq_ic(canon_spec(46).osis@, k, 0);
    book_47();
    lemma_not_same(canon_spec(47).name_zh@, k, 0);
    assert(first_book_match(k, 47) == first_book_match(k, 48));
    assert(first_book_match(k, 46) == first_book_match(k, 48));
    assert(first_book_match(k, 45) == first_book_match(k, 48));
    assert(first_book_match(k, 44) == first_book_match(k, 48));
    assert(first_book_match(k, 43) == first_book_match(k, 48));
    assert(first_book_match(k, 42) == first_book_match(k, 48));
    assert(first_book_match(k, 41) == first_book_match(k, 48));
    assert(first_book_match(k, 40) == first_book_match(k, 48));
    assert(first_book_match(k, 39) == first_book_match(k, 48));
    assert(first_book_match(k, 38) == first_book_match(k, 48));
    assert(first_book_match(k, 37) == first_book_match(k, 48));
    assert(first_book_match(k, 36) == first_book_match(k, 48));
    assert(first_book_match(k, 35) == first_book_match(k, 48));
    assert(first_book_match(k, 34) == first_book_match(k, 48));
    assert(first_book_match(k, 33) == first_book_match(k, 48));
    assert(first_book_match(k, 32) == first_book_match(k, 48));
}

#[verifier::rlimit(40)]
proof fn misses_osis_59_48()
    ensures
        first_book_match(canon_spec(59).osis@, 48) == first_book_match(canon_spec(59).osis@, 59),
{
    book_59();
    let k = canon_spec(59).osis@;
    book_48();
    lemma_not_same(canon_spec(48).name_zh@, k, 0);
    book_49();
    lemma_not_eq_ic(canon_spec(49).osis@, k, 0);
    lemma_not_same(canon_spec(49).name_zh@, k, 0);
    book_50();
    lemma_not_same(canon_spec(50).name_zh@, k, 0);
    book_51();
    book_52();
    book_53();
    lemma_not_eq_ic(canon_spec(53).osis@, k, 1);
    book_54();
    lemma_not_eq_ic(canon_spec(54).osis@, k, 0);
    book_55();
    book_56();
    lemma_not_eq_ic(canon_spec(56).osis@, k, 0);
    lemma_not_same(canon_spec(56).name_zh@, k, 0);
    book_57();
    lemma_not_same(canon_spec(57).name_zh@, k, 0);
    book_58();
    assert(first_book_match(k, 58) == first_book_match(k, 59));
    assert(first_book_match(k, 57) == first_book_match(k, 59));
    assert(first_book_match(k, 56) == first_book_match(k, 59));
    assert(first_book_match(k, 55) == first_book_match(k, 59));
    assert(first_book_match(k, 54) == first_book_match(k, 59));
    assert(first_book_match(k, 53) == first_book_match(k, 59));
    assert(first_book_match(k, 52) == first_book_match(k, 59));
    assert(first_book_match(k, 51) == first_book_match(k, 59));
    assert(first_book_match(k, 50) == first_book_match(k, 59));
    assert(first_book_match(k, 49) == first_book_match(k, 59));
    assert(first_book_match(k, 48) == first_book_match(k, 59));
}

proof fn found_by_osis_59()
    ensures
        lookup_canon_spec(canon_spec(59).osis@) == Some(canon_spec(59)),
{
    book_59();
    let k = canon_spec(59).osis@;
    lemma_plain_key(k);
    lemma_not_number(k, 1);
    misses_osis_59_0();
    misses_osis_59_16();
    misses_osis_59_32();
    misses_osis_59_48();
    assert(first_book_match(k, 59) == Some(59int));
}

#[verifier::rlimit(40)]
proof fn misses_abbreviation_59_0()
    ensures
        first_book_match(canon_spec(59).name_zh_short@, 0) == first_book_match(canon_spec(59).name_zh_short@, 16),
{
    book_59();
    let k = canon_spec(59).name_zh_short@;
    book_0();
    book_1();
    book_2();
    book_3();
    book_4();
    book_5();
    book_6();
    book_7();
    book_8();
    lemma_not_same(canon_spec(8).name_zh_short@, k, 0);
    book_9();
    lemma_not_same(canon_spec(9).name_zh_short@, k, 0);
    book_10();
    lemma_not_same(canon_spec(10).name_zh_short@, k, 0);
    book_11();
    lemma_not_same(canon_spec(11).name_zh_short@, k, 0);
    book_12();
    lemma_not_same(canon_spec(12).name_zh_short@, k, 0);
    book_13();
    lemma_not_same(canon_spec(13).name_zh_short@, k, 0);
    book_14();
    book_15();
    assert(first_book_match(k, 15) == first_book_match(k, 16));
    assert(first_book_match(k, 14) == first_book_match(k, 16));
    assert(first_book_match(k, 13) == first_book_match(k, 16));
    assert(first_book_match(k, 12) == first_book_match(k, 16));
    assert(first_book_match(k, 11) == first_book_match(k, 16));
    assert(first_book_match(k, 10) == first_book_match(k, 16));
    assert(first_book_match(k, 9) == first_book_match(k, 16));
    assert(first_book_match(k, 8) == first_book_match(k, 16));
    assert(first_book_match(k, 7) == first_book_match(k, 16));
    assert(first_book_match(k, 6) == first_book_match(k, 16));
    assert(first_book_match(k, 5) == first_book_match(k, 16));
    assert(first_book_match(k, 4) == first_book_match(k, 16));
    assert(first_book_match(k, 3) == first_book_match(k, 16));
    assert(first_book_match(k, 2) == first_book_match(k, 16));
    assert(first_book_match(k, 1) == first_book_match(k, 16));
    assert(first_book_match(k, 0) == first_book_match(k, 16));
}

#[verifier::rlimit(40)]
proof fn misses_abbreviation_59_16()
    ensures
        first_book_match(canon_spec(59).name_zh_short@, 16) == first_book_match(canon_spec(59).name_zh_short@, 32),
{
    book_59();
    let k = canon_spec(59).name_zh_short@;
    book_16();
    book_17();
    book_18();
    lemma_not_eq_ic(canon_spec(18).osis@, k, 0);
    lemma_not_same(canon_spec(18).name_zh@, k, 0);
    book_19();
    lemma_not_same(canon_spec(19).name_zh@, k, 0);
    book_20();
    book_21();
    lemma_not_same(canon_spec(21).name_zh@, k, 0);
    book_22();
    book_23();
    book_24();
    book_25();
    book_26();
    book_27();
    book_28();
    book_29();
    book_30();
    book_31();
    assert(first_book_match(k, 31) == first_book_match(k, 32));
    assert(first_book_match(k, 30) == first_book_match(k, 32));
    assert(first_book_match(k, 29) == first_book_match(k, 32));
    assert(first_book_match(k, 28) == first_book_match(k, 32));
    assert(first_book_match(k, 27) == first_book_match(k, 32));
    assert(first_book_match(k, 26) == first_book_match(k, 32));
    assert(first_book_match(k, 25) == first_book_match(k, 32));
    assert(first_book_match(k, 24) == first_book_match(k, 32));
    assert(first_book_match(k, 23) == first_book_match(k, 32));
    assert(first_book_match(k, 22) == first_book_match(k, 32));
    assert(first_book_match(k, 21) == first_book_match(k, 32));
    assert(first_book_match(k, 20) == first_book_match(k, 32));
    assert(first_book_match(k, 19) == first_book_match(k, 32));
    assert(first_book_match(k, 18) == first_book_match(k, 32));
    assert(first_book_match(k, 17) == first_book_match(k, 32));
    assert(first_book_match(k, 16) == first_book_match(k, 32));
}

#[verifier::rlimit(40)]
proof fn misses_abbreviation_59_32()
    ensures
        first_book_match(canon_spec(59).name_zh_short@, 32) == first_book_match(canon_spec(59).name_zh_short@, 48),
{
    book_59();
    let k = canon_spec(59).name_zh_short@;
    book_32();
    book_33();
    book_34();
    book_35();
    book_36();
    book_37();
    book_38();
    book_39();
    book_40();
    book_41();
    book_42();
    book_43();
    book_44();
    book_45();
    lemma_not_same(canon_spec(45).name_zh_short@, k, 0);
    book_46();
    lemma_not_same(canon_spec(46).name_zh_short@, k, 0);
    book_47();
    assert(first_book_match(k, 47) == first_book_match(k, 48));
    assert(first_book_match(k, 46) == first_book_match(k, 48));
    assert(first_book_match(k, 45) == first_book_match(k, 48));
    assert(first_book_match(k, 44) == first_book_match(k, 48));
    assert(first_book_match(k, 43) == first_book_match(k, 48));
    assert(first_book_match(k, 42) == first_book_match(k, 48));
    assert(first_book_match(k, 41) == first_book_match(k, 48));
    assert(first_book_match(k, 40) == first_book_match(k, 48));
    assert(first_book_match(k, 39) == first_book_match(k, 48));
    assert(first_book_match(k, 38) == first_book_match(k, 48));
    assert(first_book_match(k, 37) == first_book_match(k, 48));
    assert(first_book_match(k, 36) == first_book_match(k, 48));
    assert(first_book_match(k, 35) == first_book_match(k, 48));
    assert(first_book_match(k, 34) == first_book_match(k, 48));
    assert(first_book_match(k, 33) == first_book_match(k, 48));
    assert(first_book_match(k, 32) == first_book_match(k, 48));
}

#[verifier::rlimit(40)]
proof fn misses_abbreviation_59_48()
    ensures
        first_book_match(canon_spec(59).name_zh_short@, 48) == first_book_match(canon_spec(59).name_zh_short@, 59),
{
    book_59();
    let k = canon_spec(59).name_zh_short@;
    book_48();
    book_49();
    book_50();
    book_51();
    lemma_not_same(canon_spec(51).name_zh_short@, k, 0);
    book_52();
    lemma_not_same(canon_spec(52).name_zh_short@, k, 0);
    book_53();
    lemma_not_same(canon_spec(53).name_zh_short@, k, 0);
    book_54();
    lemma_not_same(canon_spec(54).name_zh_short@, k, 0);
    book_55();
    book_56();
    book_57();
    book_58();
    assert(first_book_match(k, 58) == first_book_match(k, 59));
    assert(first_book_match(k, 57) == first_book_match(k, 59));
    assert(first_book_match(k, 56) == first_book_match(k, 59));
    assert(first_book_match(k, 55) == first_book_match(k, 59));
    assert(first_book_match(k, 54) == first_book_match(k, 59));
    assert(first_book_match(k, 53) == first_book_match(k, 59));
    assert(first_book_match(k, 52) == first_book_match(k, 59));
    assert(first_book_match(k, 51) == first_book_match(k, 59));
    assert(first_book_match(k, 50) == first_book_match(k, 59));
    assert(first_book_match(k, 49) == first_book_match(k, 59));
    assert(first_book_match(k, 48) == first_book_match(k, 59));
}

proof fn found_by_abbreviation_59()
    ensures
        lookup_canon_spec(canon_spec(59).name_zh_short@) == Some(canon_spec(59)),
{
    book_59();
    let k = canon_spec(59).name_zh_short@;
    lemma_plain_key(k);
    lemma_not_number(k, 0);
    misses_abbreviation_59_0();
    misses_abbreviation_59_16();
    misses_abbreviation_59_32();
    misses_abbreviation_59_48();
    assert(first_book_match(k, 59) == Some(59int));
}

#[verifier::rlimit(40)]
proof fn misses_english_59_0()
    ensures
        first_book_match(canon_spec(59).name_en@, 0) == first_book_match(canon_spec(59).name_en@, 16),
{
    book_59();
    let k = canon_spec(59).name_en@;
    book_0();
    lemma_not_eq_ic(canon_spec(0).name_en@, k, 0);
    book_1();
    book_2();
    book_3();
    lemma_not_eq_ic(canon_spec(3).name_en@, k, 0);
    book_4();
    book_5();
    book_6();
    book_7();
    book_8();
    book_9();
    book_10();
    lemma_not_eq_ic(canon_spec(10).name_en@, k, 2);
    book_11();
    lemma_not_eq_ic(canon_spec(11).name_en@, k, 0);
    book_12();
    book_13();
    book_14();
    book_15();
    assert(first_book_match(k, 15) == first_book_match(k, 16));
    assert(first_book_match(k, 14) == first_book_match(k, 16));
    assert(first_book_match(k, 13) == first_book_match(k, 16));
    assert(first_book_match(k, 12) == first_book_match(k, 16));
    assert(first_book_match(k, 11) == first_book_match(k, 16));
    assert(first_book_match(k, 10) == first_book_match(k, 16));
    assert(first_book_match(k, 9) == first_book_match(k, 16));
    assert(first_book_match(k, 8) == first_book_match(k, 16));
    assert(first_book_match(k, 7) == first_book_match(k, 16));
    assert(first_book_match(k, 6) == first_book_match(k, 16));
    assert(first_book_match(k, 5) == first_book_match(k, 16));
    assert(first_book_match(k, 4) == first_book_match(k, 16));
    assert(first_book_match(k, 3) == first_book_match(k, 16));
    assert(first_book_match(k, 2) == first_book_match(k, 16));
    assert(first_book_match(k, 1) == first_book_match(k, 16));
    assert(first_book_match(k, 0) == first_book_match(k, 16));
}

#[verifier::rlimit(40)]
proof fn misses_english_59_16()
    ensures
        first_book_match(canon_spec(59).name_en@, 16) == first_book_match(canon_spec(59).name_en@, 32),
{
    book_59();
    let k = canon_spec(59).name_en@;
    book_16();
    book_17();
    book_18();
    book_19();
    book_20();
    book_21();
    book_22();
    book_23();
    book_24();
    book_25();
    lemma_not_eq_ic(canon_spec(25).name_en@, k, 0);
    book_26();
    book_27();
    book_28();
    book_29();
    book_30();
    lemma_not_eq_ic(canon_spec(30).name_en@, k, 0);
    book_31();
    assert(first_book_match(k, 31) == first_book_match(k, 32));
    assert(first_book_match(k, 30) == first_book_match(k, 32));
    assert(first_book_match(k, 29) == first_book_match(k, 32));
    assert(first_book_match(k, 28) == first_book_match(k, 32));
    assert(first_book_match(k, 27) == first_book_match(k, 32));
    assert(first_book_match(k, 26) == first_book_match(k, 32));
    assert(first_book_match(k, 25) == first_book_match(k, 32));
    assert(first_book_match(k, 24) == first_book_match(k, 32));
    assert(first_book_match(k, 23) == first_book_match(k, 32));
    assert(first_book_match(k, 22) == first_book_match(k, 32));
    assert(first_book_match(k, 21) == first_book_match(k, 32));
    assert(first_book_match(k, 20) == first_book_match(k, 32));
    assert(first_book_match(k, 19) == first_book_match(k, 32));
    assert(first_book_match(k, 18) == first_book_match(k, 32));
    assert(first_book_match(k, 17) == first_book_match(k, 32));
    assert(first_book_match(k, 16) == first_book_match(k, 32));
}

#[verifier::rlimit(40)]
proof fn misses_english_59_32()
    ensures
        first_book_match(canon_spec(59).name_en@, 32) == first_book_match(canon_spec(59).name_en@, 48),
{
    book_59();
    let k = canon_spec(59).name_en@;
    book_32();
    book_33();
    book_34();
    book_35();
    book_36();
    book_37();
    book_38();
    lemma_not_eq_ic(canon_spec(38).name_en@, k, 0);
    book_39();
    lemma_not_eq_ic(canon_spec(39).name_en@, k, 0);
    book_40();
    book_41();
    book_42();
    book_43();
    book_44();
    book_45();
    book_46();
    book_47();
    assert(first_book_match(k, 47) == first_book_match(k, 48));
    assert(first_book_match(k, 46) == first_book_match(k, 48));
    assert(first_book_match(k, 45) == first_book_match(k, 48));
    assert(first_book_match(k, 44) == first_book_match(k, 48));
    assert(first_book_match(k, 43) == first_book_match(k, 48));
    assert(first_book_match(k, 42) == first_book_match(k, 48));
    assert(first_book_match(k, 41) == first_book_match(k, 48));
    assert(first_book_match(k, 40) == first_book_match(k, 48));
    assert(first_book_match(k, 39) == first_book_match(k, 48));
    assert(first_book_match(k, 38) == first_book_match(k, 48));
    assert(first_book_match(k, 37) == first_book_match(k, 48));
    assert(first_book_match(k, 36) == first_book_match(k, 48));
    assert(first_book_match(k, 35) == first_book_match(k, 48));
    assert(first_book_match(k, 34) == first_book_match(k, 48));
    assert(first_book_match(k, 33) == first_book_match(k, 48));
    assert(first_book_match(k, 32) == first_book_match(k, 48));
}

#[verifier::rlimit(40)]
proof fn misses_english_59_48()
    ensures
        first_book_match(canon_spec(59).name_en@, 48) == first_book_match(canon_spec(59).name_en@, 59),
{
    book_59();
    let k = canon_spec(59).name_en@;
    book_48();
    book_49();
    book_50();
    book_51();
    lemma_not_same(canon_spec(51).name_zh@, k, 0);
    book_52();
    lemma_not_same(canon_spec(52).name_zh@, k, 0);
    book_53();
    book_54();
    book_55();
    book_56();
    book_57();
    lemma_not_eq_ic(canon_spec(57).name_en@, k, 0);
    book_58();
    assert(first_book_match(k, 58) == first_book_match(k, 59));
    assert(first_book_match(k, 57) == first_book_match(k, 59));
    assert(first_book_match(k, 56) == first_book_match(k, 59));
    assert(first_book_match(k, 55) == first_book_match(k, 59));
    assert(first_book_match(k, 54) == first_book_match(k, 59));
    assert(first_book_match(k, 53) == first_book_match(k, 59));
    assert(first_book_match(k, 52) == first_book_match(k, 59));
    assert(first_book_match(k, 51) == first_book_match(k, 59));
    assert(first_book_match(k, 50) == first_book_match(k, 59));
    assert(first_book_match(k, 49) == first_book_match(k, 59));
    assert(first_book_match(k, 48) == first_book_match(k, 59));
}

proof fn found_by_english_59()
    ensures
        lookup_canon_spec(canon_spec(59).name_en@) == Some(canon_spec(59)),
{
    book_59();
    let k = canon_spec(59).name_en@;
    lemma_plain_key(k);
    lemma_not_number(k, 1);
    misses_english_59_0();
    misses_english_59_16();
    misses_english_59_32();
    misses_english_59_48();
    assert(first_book_match(k, 59) == Some(59int));
}

#[verifier::rlimit(40)]
proof fn misses_osis_60_0()
    ensures
        first_book_match(canon_spec(60).osis@, 0) == first_book_match(canon_spec(60).osis@, 16),
{
    book_60();
    let k = canon_spec(60).osis@;
    book_0();
    book_1();
    lemma_not_eq_ic(canon_spec(1).osis@, k, 0);
    lemma_not_same(canon_spec(1).name_zh@, k, 0);
    book_2();
    book_3();
    book_4();
    lemma_not_eq_ic(canon_spec(4).osis@, k, 0);
    book_5();
    lemma_not_eq_ic(canon_spec(5).osis@, k, 0);
    lemma_not_same(canon_spec(5).name_zh@, k, 0);
    book_6();
    lemma_not_eq_ic(canon_spec(6).osis@, k, 0);
    book_7();
    lemma_not_eq_ic(canon_spec(7).osis@, k, 0);
    lemma_not_eq_ic(canon_spec(7).name_en@, k, 0);
    book_8();
    lemma_not_eq_ic(canon_spec(8).osis@, k, 0);
    book_9();
    lemma_not_eq_ic(canon_spec(9).osis@, k, 1);
    book_10();
    lemma_not_eq_ic(canon_spec(10).osis@, k, 0);
    lemma_not_same(canon_spec(10).name_zh@, k, 0);
    book_11();
    lemma_not_eq_ic(canon_spec(11).osis@, k, 1);
    lemma_not_same(canon_spec(11).name_zh@, k, 0);
    book_12();
    lemma_not_eq_ic(canon_spec(12).osis@, k, 0);
    lemma_not_same(canon_spec(12).name_zh@, k, 0);
    book_13();
    lemma_not_eq_ic(canon_spec(13).osis@, k, 1);
    lemma_not_same(canon_spec(13).name_zh@, k, 0);
    book_14();
    lemma_not_eq_ic(canon_spec(14).osis@, k, 0);
    lemma_not_same(canon_spec(14).name_zh@, k, 0);
    lemma_not_eq_ic(canon_spec(14).name_en@, k, 0);
    book_15();
    lemma_not_same(canon_spec(15).name_zh@, k, 0);
    assert(first_book_match(k, 15) == first_book_match(k, 16));
    assert(first_book_match(k, 14) == first_book_match(k, 16));
    assert(first_book_match(k, 13) == first_book_match(k, 16));
    assert(first_book_match(k, 12) == first_book_match(k, 16));
    assert(first_book_match(k, 11) == first_book_match(k, 16));
    assert(first_book_match(k, 10) == first_book_match(k, 16));
    assert(first_book_match(k, 9) == first_book_match(k, 16));
    assert(first_book_match(k, 8) == first_book_match(k, 16));
    assert(first_book_match(k, 7) == first_book_match(k, 16));
    assert(first_book_match(k, 6) == first_book_match(k, 16));
    assert(first_book_match(k, 5) == first_book_match(k, 16));
    assert(first_book_match(k, 4) == first_book_match(k, 16));
    assert(first_book_match(k, 3) == first_book_match(k, 16));
    assert(first_book_match(k, 2) == first_book_match(k, 16));
    assert(first_book_match(k, 1) == first_book_match(k, 16));
    assert(first_book_match(k, 0) == first_book_match(k, 16));
}

#[verifier::rlimit(40)]
proof fn misses_osis_60_16()
    ensures
        first_book_match(canon_spec(60).osis@, 16) == first_book_match(canon_spec(60).osis@, 32),
{
    book_60();
    let k = canon_spec(60).osis@;
    book_16();
    lemma_not_eq_ic(canon_spec(16).osis@, k, 0);
    lemma_not_same(canon_spec(16).name_zh@, k, 0);
    book_17();
    book_18();
    book_19();
    lemma_not_eq_ic(canon_spec(19).osis@, k, 0);
    book_20();
    lemma_not_eq_ic(canon_spec(20).osis@, k, 0);
    book_21();
    lemma_not_eq_ic(canon_spec(21).osis@, k, 0);
    book_22();
    lemma_not_same(canon_spec(22).name_zh@, k, 0);
    book_23();
    lemma_not_same(canon_spec(23).name_zh@, k, 0);
    book_24();
    book_25();
    lemma_not_eq_ic(canon_spec(25).osis@, k, 0);
    lemma_not_same(canon_spec(25).name_zh@, k, 0);
    book_26();
    lemma_not_same(canon_spec(26).name_zh@, k, 0);
    book_27();
    lemma_not_same(canon_spec(27).name_zh@, k, 0);
    book_28();
    lemma_not_eq_ic(canon_spec(28).osis@, k, 0);
    lemma_not_eq_ic(canon_spec(28).name_en@, k, 0);
    book_29();
    lemma_not_eq_ic(canon_spec(29).osis@, k, 0);
    lemma_not_same(canon_spec(29).name_zh@, k, 0);
    lemma_not_eq_ic(canon_spec(29).name_en@, k, 0);
    book_30();
    lemma_not_eq_ic(canon_spec(30).osis@, k, 0);
    book_31();
    assert(first_book_match(k, 31) == first_book_match(k, 32));
    assert(first_book_match(k, 30) == first_book_match(k, 32));
    assert(first_book_match(k, 29) == first_book_match(k, 32));
    assert(first_book_match(k, 28) == first_book_match(k, 32));
    assert(first_book_match(k, 27) == first_book_match(k, 32));
    assert(first_book_match(k, 26) == first_book_match(k, 32));
    assert(first_book_match(k, 25) == first_book_match(k, 32));
    assert(first_book_match(k, 24) == first_book_match(k, 32));
    assert(first_book_match(k, 23) == first_book_match(k, 32));
    assert(first_book_match(k, 22) == first_book_match(k, 32));
    assert(first_book_match(k, 21) == first_book_match(k, 32));
    assert(first_book_match(k, 20) == first_book_match(k, 32));
    assert(first_book_match(k, 19) == first_book_match(k, 32));
    assert(first_book_match(k, 18) == first_book_match(k, 32));
    assert(first_book_match(k, 17) == first_book_match(k, 32));
    assert(first_book_match(k, 16) == first_book_match(k, 32));
}

#[verifier::rlimit(40)]
proof fn misses_osis_60_32()
    ensures
        first_book_match(canon_spec(60).osis@, 32) == first_book_match(canon_spec(60).osis@, 48),
{
    book_60();
    let k = canon_spec(60).osis@;
    book_32();
    book_33();
    book_34();
    lemma_not_same(canon_spec(34).name_zh@, k, 0);
    book_35();
    lemma_not_eq_ic(canon_spec(35).osis@, k, 0);
    lemma_not_same(canon_spec(35).name_zh@, k, 0);
    book_36();
    book_37();
    lemma_not_eq_ic(canon_spec(37).osis@, k, 0);
    book_38();
    lemma_not_same(canon_spec(38).name_zh@, k, 0);
    book_39();
    lemma_not_eq_ic(canon_spec(39).osis@, k, 0);
    lemma_not_same(canon_spec(39).name_zh@, k, 0);
    book_40();
    lemma_not_eq_ic(canon_spec(40).osis@, k, 0);
    lemma_not_same(canon_spec(40).name_zh@, k, 0);
    lemma_not_eq_ic(canon_spec(40).name_en@, k, 0);
    book_41();
    lemma_not_eq_ic(canon_spec(41).osis@, k, 0);
    lemma_not_same(canon_spec(41).name_zh@, k, 0);
    lemma_not_eq_ic(canon_spec(41).name_en@, k, 0);
    book_42();
    lemma_not_eq_ic(canon_spec(42).osis@, k, 0);
    lemma_not_same(canon_spec(42).name_zh@, k, 0);
    lemma_not_eq_ic(canon_spec(42).name_en@, k, 0);
    book_43();
    lemma_not_eq_ic(canon_spec(43).osis@, k, 0);
    lemma_not_same(canon_spec(43).name_zh@, k, 0);
    lemma_not_eq_ic(canon_spec(43).name_en@, k, 0);
    book_44();
    book_45();
    lemma_not_eq_ic(canon_spec(45).osis@, k, 0);
    book_46();
    lemma_not_eq_ic(canon_spec(46).osis@, k, 1);
    book_47();
    lemma_not_same(canon_spec(47).name_zh@, k, 0);
    assert(first_book_match(k, 47) == first_book_match(k, 48));
    assert(first_book_match(k, 46) == first_book_match(k, 48));
    assert(first_book_match(k, 45) == first_book_match(k, 48));
    assert(first_book_match(k, 44) == first_book_match(k, 48));
    assert(first_book_match(k, 43) == first_book_match(k, 48));
    assert(first_book_match(k, 42) == first_book_match(k, 48));
    assert(first_book_match(k, 41) == first_book_match(k, 48));
    assert(first_book_match(k, 40) == first_book_match(k, 48));
    assert(first_book_match(k, 39) == first_book_match(k, 48));
    assert(first_book_match(k, 38) == first_book_match(k, 48));
    assert(first_book_match(k, 37) == first_book_match(k, 48));
    assert(first_book_match(k, 36) == first_book_match(k, 48));
    assert(first_book_match(k, 35) == first_book_match(k, 48));
    assert(first_book_match(k, 34) == first_book_match(k, 48));
    assert(first_book_match(k, 33) == first_book_match(k, 48));
    assert(first_book_match(k, 32) == first_book_match(k, 48));
}

#[verifier::rlimit(40)]
proof fn misses_osis_60_48()
    ensures
        first_book_match(canon_spec(60).osis@, 48) == first_book_match(canon_spec(60).osis@, 60),
{
    book_60();
    let k = canon_spec(60).osis@;
    book_48();
    lemma_not_same(canon_spec(48).name_zh@, k, 0);
    book_49();
    lemma_not_eq_ic(canon_spec(49).osis@, k, 0);
    lemma_not_same(canon_spec(49).name_zh@, k, 0);
    book_50();
    lemma_not_same(canon_spec(50).name_zh@, k, 0);
    book_51();
    book_52();
    book_53();
    lemma_not_eq_ic(canon_spec(53).osis@, k, 0);
    book_54();
    lemma_not_eq_ic(canon_spec(54).osis@, k, 1);
    book_55();
    book_56();
    lemma_not_eq_ic(canon_spec(56).osis@, k, 0);
    lemma_not_same(canon_spec(56).name_zh@, k, 0);
    book_57();
    lemma_not_same(canon_spec(57).name_zh@, k, 0);
    book_58();
    book_59();
    lemma_not_eq_ic(canon_spec(59).osis@, k, 0);
    lemma_not_same(canon_spec(59).name_zh@, k, 0);
    assert(first_book_match(k, 59) == first_book_match(k, 60));
    assert(first_book_match(k, 58) == first_book_match(k, 60));
    assert(first_book_match(k, 57) == first_book_match(k, 60));
    assert(first_book_match(k, 56) == first_book_match(k, 60));
    assert(first_book_match(k, 55) == first_book_match(k, 60));
    assert(first_book_match(k, 54) == first_book_match(k, 60));
    assert(first_book_match(k, 53) == first_book_match(k, 60));
    assert(first_book_match(k, 52) == first_book_match(k, 60));
    assert(first_book_match(k, 51) == first_book_match(k, 60));
    assert(first_book_match(k, 50) == first_book_match(k, 60));
    assert(first_book_match(k, 49) == first_book_match(k, 60));
    assert(first_book_match(k, 48) == first_book_match(k, 60));
}

proof fn found_by_osis_60()
    ensures
        lookup_canon_spec(canon_spec(60).osis@) == Some(canon_spec(60)),
{
    book_60();
    let k = canon_spec(60).osis@;
    lemma_plain_key(k);
    lemma_not_number(k, 1);
    misses_osis_60_0();
    misses_osis_60_16();
    misses_osis_60_32();
    misses_osis_60_48();
    assert(first_book_match(k, 60) == Some(60int));
}

#[verifier::rlimit(40)]
proof fn misses_abbreviation_60_0()
    ensures
        first_book_match(canon_spec(60).name_zh_short@, 0) == first_book_match(canon_spec(60).name_zh_short@, 16),
{
    book_60();
    let k = canon_spec(60).name_zh_short@;
    book_0();
    book_1();
    book_2();
    book_3();
    book_4();
    book_5();
    book_6();
    book_7();
    book_8();
    lemma_not_same(canon_spec(8).name_zh_short@, k, 0);
    book_9();
    lemma_not_same(canon_spec(9).name_zh_short@, k, 0);
    book_10();
    lemma_not_same(canon_spec(10).name_zh_short@, k, 0);
    book_11();
    lemma_not_same(canon_spec(11).name_zh_short@, k, 0);
    book_12();
    lemma_not_same(canon_spec(12).name_zh_short@, k, 0);
    book_13();
    lemma_not_same(canon_spec(13).name_zh_short@, k, 0);
    book_14();
    book_15();
    assert(first_book_match(k, 15) == first_book_match(k, 16));
    assert(first_book_match(k, 14) == first_book_match(k, 16));
    assert(first_book_match(k, 13) == first_book_match(k, 16));
    assert(first_book_match(k, 12) == first_book_match(k, 16));
    assert(first_book_match(k, 11) == first_book_match(k, 16));
    assert(first_book_match(k, 10) == first_book_match(k, 16));
    assert(first_book_match(k, 9) == first_book_match(k, 16));
    assert(first_book_match(k, 8) == first_book_match(k, 16));
    assert(first_book_match(k, 7) == first_book_match(k, 16));
    assert(first_book_match(k, 6) == first_book_match(k, 16));
    assert(first_book_match(k, 5) == first_book_match(k, 16));
    assert(first_book_match(k, 4) == first_book_match(k, 16));
    assert(first_book_match(k, 3) == first_book_match(k, 16));
    assert(first_book_match(k, 2) == first_book_match(k, 16));
    assert(first_book_match(k, 1) == first_book_match(k, 16));
    assert(first_book_match(k, 0) == first_book_match(k, 16));
}

#[verifier::rlimit(40)]
proof fn misses_abbreviation_60_16()
    ensures
        first_book_match(canon_spec(60).name_zh_short@, 16) == first_book_match(canon_spec(60).name_zh_short@, 32),
{
    book_60();
    let k = canon_spec(60).name_zh_short@;
    book_16();
    book_17();
    book_18();
    lemma_not_eq_ic(canon_spec(18).osis@, k, 0);
    lemma_not_same(canon_spec(18).name_zh@, k, 0);
    book_19();
    lemma_not_same(canon_spec(19).name_zh@, k, 0);
    book_20();
    book_21();
    lemma_not_same(canon_spec(21).name_zh@, k, 0);
    book_22();
    book_23();
    book_24();
    book_25();
    book_26();
    book_27();
    book_28();
    book_29();
    book_30();
    book_31();
    assert(first_book_match(k, 31) == first_book_match(k, 32));
    assert(first_book_match(k, 30) == first_book_match(k, 32));
    assert(first_book_match(k, 29) == first_book_match(k, 32));
    assert(first_book_match(k, 28) == first_book_match(k, 32));
    assert(first_book_match(k, 27) == first_book_match(k, 32));
    assert(first_book_match(k, 26) == first_book_match(k, 32));
    assert(first_book_match(k, 25) == first_book_match(k, 32));
    assert(first_book_match(k, 24) == first_book_match(k, 32));
    assert(first_book_match(k, 23) == first_book_match(k, 32));
    assert(first_book_match(k, 22) == first_book_match(k, 32));
    assert(first_book_match(k, 21) == first_book_match(k, 32));
    assert(first_book_match(k, 20) == first_book_match(k, 32));
    assert(first_book_match(k, 19) == first_book_match(k, 32));
    assert(first_book_match(k, 18) == first_book_match(k, 32));
    assert(first_book_match(k, 17) == first_book_match(k, 32));
    assert(first_book_match(k, 16) == first_book_match(k, 32));
}

#[verifier::rlimit(40)]
proof fn misses_abbreviation_60_32()
    ensures
        first_book_match(canon_spec(60).name_zh_short@, 32) == first_book_match(canon_spec(60).name_zh_short@, 48),
{
    book_60();
    let k = canon_spec(60).name_zh_short@;
    book_32();
    book_33();
    book_34();
    book_35();
    book_36();
    book_37();
    book_38();
    book_39();
    book_40();
    book_41();
    book_42();
    book_43();
    book_44();
    book_45();
    lemma_not_same(canon_spec(45).name_zh_short@, k, 0);
    book_46();
    lemma_not_same(canon_spec(46).name_zh_short@, k, 0);
    book_47();
    assert(first_book_match(k, 47) == first_book_match(k, 48));
    assert(first_book_match(k, 46) == first_book_match(k, 48));
    assert(first_book_match(k, 45) == first_book_match(k, 48));
    assert(first_book_match(k, 44) == first_book_match(k, 48));
    assert(first_book_match(k, 43) == first_book_match(k, 48));
    assert(first_book_match(k, 42) == first_book_match(k, 48));
    assert(first_book_match(k, 41) == first_book_match(k, 48));
    assert(first_book_match(k, 40) == first_book_match(k, 48));
    assert(first_book_match(k, 39) == first_book_match(k, 48));
    assert(first_book_match(k, 38) == first_book_match(k, 48));
    assert(first_book_match(k, 37) == first_book_match(k, 48));
    assert(first_book_match(k, 36) == first_book_match(k, 48));
    assert(first_book_match(k, 35) == first_book_match(k, 48));
    assert(first_book_match(k, 34) == first_book_match(k, 48));
    assert(first_book_match(k, 33) == first_book_match(k, 48));
    assert(first_book_match(k, 32) == first_book_match(k, 48));
}

#[verifier::rlimit(40)]
proof fn misses_abbreviation_60_48()
    ensures
        first_book_match(canon_spec(60).name_zh_short@, 48) == first_book_match(canon_spec(60).name_zh_short@, 60),
{
    book_60();
    let k = canon_spec(60).name_zh_short@;
    book_48();
    book_49();
    book_50();
    book_51();
    lemma_not_same(canon_spec(51).name_zh_short@, k, 0);
    book_52();
    lemma_not_same(canon_spec(52).name_zh_short@, k, 0);
    book_53();
    lemma_not_same(canon_spec(53).name_zh_short@, k, 0);
    book_54();
    lemma_not_same(canon_spec(54).name_zh_short@, k, 0);
    book_55();
    book_56();
    book_57();
    book_58();
    book_59();
    lemma_not_same(canon_spec(59).name_zh_short@, k, 1);
    assert(first_book_match(k, 59) == first_book_match(k, 60));
    assert(first_book_match(k, 58) == first_book_match(k, 60));
    assert(first_book_match(k, 57) == first_book_match(k, 60));
    assert(first_book_match(k, 56) == first_book_match(k, 60));
    assert(first_book_match(k, 55) == first_book_match(k, 60));
    assert(first_book_match(k, 54) == first_book_match(k, 60));
    assert(first_book_match(k, 53) == first_book_match(k, 60));
    assert(first_book_match(k, 52) == first_book_match(k, 60));
    assert(first_book_match(k, 51) == first_book_match(k, 60));
    assert(first_book_match(k, 50) == first_book_match(k, 60));
    assert(first_book_match(k, 49) == first_book_match(k, 60));
    assert(first_book_match(k, 48) == first_book_match(k, 60));
}

proof fn found_by_abbreviation_60()
    ensures
        lookup_canon_spec(canon_spec(60).name_zh_short@) == Some(canon_spec(60)),
{
    book_60();
    let k = canon_spec(60).name_zh_short@;
    lemma_plain_key(k);
    lemma_not_number(k, 0);
    misses_abbreviation_60_0();
    misses_abbreviation_60_16();
    misses_abbreviation_60_32();
    misses_abbreviation_60_48();
    assert(first_book_match(k, 60) == Some(60int));
}

#[verifier::rlimit(40)]
proof fn misses_english_60_0()
    ensures
        first_book_match(canon_spec(60).name_en@, 0) == first_book_match(canon_spec(60).name_en@, 16),
{
    book_60();
    let k = canon_spec(60).name_en@;
    book_0();
    lemma_not_eq_ic(canon_spec(0).name_en@, k, 0);
    book_1();
    book_2();
    book_3();
    lemma_not_eq_ic(canon_spec(3).name_en@, k, 0);
    book_4();
    book_5();
    book_6();
    book_7();
    book_8();
    book_9();
    book_10();
    lemma_not_eq_ic(canon_spec(10).name_en@, k, 0);
    book_11();
    lemma_not_eq_ic(canon_spec(11).name_en@, k, 2);
    book_12();
    book_13();
    book_14();
    book_15();
    assert(first_book_match(k, 15) == first_book_match(k, 16));
    assert(first_book_match(k, 14) == first_book_match(k, 16));
    assert(first_book_match(k, 13) == first_book_match(k, 16));
    assert(first_book_match(k, 12) == first_book_match(k, 16));
    assert(first_book_match(k, 11) == first_book_match(k, 16));
    assert(first_book_match(k, 10) == first_book_match(k, 16));
    assert(first_book_match(k, 9) == first_book_match(k, 16));
    assert(first_book_match(k, 8) == first_book_match(k, 16));
    assert(first_book_match(k, 7) == first_book_match(k, 16));
    assert(first_book_match(k, 6) == first_book_match(k, 16));
    assert(first_book_match(k, 5) == first_book_match(k, 16));
    assert(first_book_match(k, 4) == first_book_match(k, 16));
    assert(first_book_match(k, 3) == first_book_match(k, 16));
    assert(first_book_match(k, 2) == first_book_match(k, 16));
    assert(first_book_match(k, 1) == first_book_match(k, 16));
    assert(first_book_match(k, 0) == first_book_match(k, 16));
}

#[verifier::rlimit(40)]
proof fn misses_english_60_16()
    ensures
        first_book_match(canon_spec(60).name_en@, 16) == first_book_match(canon_spec(60).name_en@, 32),
{
    book_60();
    let k = canon_spec(60).name_en@;
    book_16();
    book_17();
    book_18();
    book_19();
    book_20();
    book_21();
    book_22();
    book_23();
    book_24();
    book_25();
    lemma_not_eq_ic(canon_spec(25).name_en@, k, 0);
    book_26();
    book_27();
    book_28();
    book_29();
    book_30();
    lemma_not_eq_ic(canon_spec(30).name_en@, k, 0);
    book_31();
    assert(first_book_match(k, 31) == first_book_match(k, 32));
    assert(first_book_match(k, 30) == first_book_match(k, 32));
    assert(first_book_match(k, 29) == first_book_match(k, 32));
    assert(first_book_match(k, 28) == first_book_match(k, 32));
    assert(first_book_match(k, 27) == first_book_match(k, 32));
    assert(first_book_match(k, 26) == first_book_match(k, 32));
    assert(first_book_match(k, 25) == first_book_match(k, 32));
    assert(first_book_match(k, 24) == first_book_match(k, 32));
    assert(first_book_match(k, 23) == first_book_match(k, 32));
    assert(first_book_match(k, 22) == first_book_match(k, 32));
    assert(first_book_match(k, 21) == first_book_match(k, 32));
    assert(first_book_match(k, 20) == first_book_match(k, 32));
    assert(first_book_match(k, 19) == first_book_match(k, 32));
    assert(first_book_match(k, 18) == first_book_match(k, 32));
    assert(first_book_match(k, 17) == first_book_match(k, 32));
    assert(first_book_match(k, 16) == first_book_match(k, 32));
}

#[verifier::rlimit(40)]
proof fn misses_english_60_32()
    ensures
        first_book_match(canon_spec(60).name_en@, 32) == first_book_match(canon_spec(60).name_en@, 48),
{
    book_60();
    let k = canon_spec(60).name_en@;
    book_32();
    book_33();
    book_34();
    book_35();
    book_36();
    book_37();
    book_38();
    lemma_not_eq_ic(canon_spec(38).name_en@, k, 0);
    book_39();
    lemma_not_eq_ic(canon_spec(39).name_en@, k, 0);
    book_40();
    book_41();
    book_42();
    book_43();
    book_44();
    book_45();
    book_46();
    book_47();
    assert(first_book_match(k, 47) == first_book_match(k, 48));
    assert(first_book_match(k, 46) == first_book_match(k, 48));
    assert(first_book_match(k, 45) == first_book_match(k, 48));
    assert(first_book_match(k, 44) == first_book_match(k, 48));
    assert(first_book_match(k, 43) == first_book_match(k, 48));
    assert(first_book_match(k, 42) == first_book_match(k, 48));
    assert(first_book_match(k, 41) == first_book_match(k, 48));
    assert(first_book_match(k, 40) == first_book_match(k, 48));
    assert(first_book_match(k, 39) == first_book_match(k, 48));
    assert(first_book_match(k, 38) == first_book_match(k, 48));
    assert(first_book_match(k, 37) == first_book_match(k, 48));
    assert(first_book_match(k, 36) == first_book_match(k, 48));
    assert(first_book_match(k, 35) == first_book_match(k, 48));
    assert(first_book_match(k, 34) == first_book_match(k, 48));
    assert(first_book_match(k, 33) == first_book_match(k, 48));
    assert(first_book_match(k, 32) == first_book_match(k, 48));
}

#[verifier::rlimit(40)]
proof fn misses_english_60_48()
    ensures
        first_book_match(canon_spec(60).name_en@, 48) == first_book_match(canon_spec(60).name_en@, 60),
{
    book_60();
    let k = canon_spec(60).name_en@;
    book_48();
    book_49();
    book_50();
    book_51();
    lemma_not_same(canon_spec(51).name_zh@, k, 0);
    book_52();
    lemma_not_same(canon_spec(52).name_zh@, k, 0);
    book_53();
    book_54();
    book_55();
    book_56();
    book_57();
    lemma_not_eq_ic(canon_spec(57).name_en@, k, 0);
    book_58();
    book_59();
    lemma_not_eq_ic(canon_spec(59).name_en@, k, 0);
    assert(first_book_match(k, 59) == first_book_match(k, 60));
    assert(first_book_match(k, 58) == first_book_match(k, 60));
    assert(first_book_match(k, 57) == first_book_match(k, 60));
    assert(first_book_match(k, 56) == first_book_match(k, 60));
    assert(first_book_match(k, 55) == first_book_match(k, 60));
    assert(first_book_match(k, 54) == first_book_match(k, 60));
    assert(first_book_match(k, 53) == first_book_match(k, 60));
    assert(first_book_match(k, 52) == first_book_match(k, 60));
    assert(first_book_match(k, 51) == first_book_match(k, 60));
    assert(first_book_match(k, 50) == first_book_match(k, 60));
    assert(first_book_match(k, 49) == first_book_match(k, 60));
    assert(first_book_match(k, 48) == first_book_match(k, 60));
}

proof fn found_by_english_60()
    ensures
        lookup_canon_spec(canon_spec(60).name_en@) == Some(canon_spec(60)),
{
    book_60();
    let k = canon_spec(60).name_en@;
    lemma_plain_key(k);
    lemma_not_number(k, 1);
    misses_english_60_0();
    misses_english_60_16();
    misses_english_60_32();
    misses_english_60_48();
    assert(first_book_match(k, 60) == Some(60int));
}

#[verifier::rlimit(40)]
proof fn misses_osis_61_0()
    ensures
        first_book_match(canon_spec(61).osis@, 0) == first_book_match(canon_spec(61).osis@, 16),
{
    book_61();
    let k = canon_spec(61).osis@;
    book_0();
    book_1();
    book_2();
    book_3();
    book_4();
    book_5();
    book_6();
    book_7();
    book_8();
    lemma_not_same(canon_spec(8).name_zh@, k, 0);
    book_9();
    lemma_not_same(canon_spec(9).name_zh@, k, 0);
    book_10();
    book_11();
    book_12();
    book_13();
    book_14();
    book_15();
    assert(first_book_match(k, 15) == first_book_match(k, 16));
    assert(first_book_match(k, 14) == first_book_match(k, 16));
    assert(first_book_match(k, 13) == first_book_match(k, 16));
    assert(first_book_match(k, 12) == first_book_match(k, 16));
    assert(first_book_match(k, 11) == first_book_match(k, 16));
    assert(first_book_match(k, 10) == first_book_match(k, 16));
    assert(first_book_match(k, 9) == first_book_match(k, 16));
    assert(first_book_match(k, 8) == first_book_match(k, 16));
    assert(first_book_match(k, 7) == first_book_match(k, 16));
    assert(first_book_match(k, 6) == first_book_match(k, 16));
    assert(first_book_match(k, 5) == first_book_match(k, 16));
    assert(first_book_match(k, 4) == first_book_match(k, 16));
    assert(first_book_match(k, 3) == first_book_match(k, 16));
    assert(first_book_match(k, 2) == first_book_match(k, 16));
    assert(first_book_match(k, 1) == first_book_match(k, 16));
    assert(first_book_match(k, 0) == first_book_match(k, 16));
}

#[verifier::rlimit(40)]
proof fn misses_osis_61_16()
    ensures
        first_book_match(canon_spec(61).osis@, 16) == first_book_match(canon_spec(61).osis@, 32),
{
    book_61();
    let k = canon_spec(61).osis@;
    book_16();
    book_17();
    book_18();
    book_19();
    book_20();
    book_21();
    book_22();
    book_23();
    book_24();
    lemma_not_same(canon_spec(24).name_zh@, k, 0);
    book_25();
    book_26();
    book_27();
    lemma_not_eq_ic(canon_spec(27).name_en@, k, 0);
    book_28();
    book_29();
    book_30();
    lemma_not_same(canon_spec(30).name_zh@, k, 0);
    book_31();
    lemma_not_eq_ic(canon_spec(31).osis@, k, 0);
    lemma_not_eq_ic(canon_spec(31).name_en@, k, 0);
    assert(first_book_match(k, 31) == first_book_match(k, 32));
    assert(first_book_match(k, 30) == first_book_match(k, 32));
    assert(first_book_match(k, 29) == first_book_match(k, 32));
    assert(first_book_match(k, 28) == first_book_match(k, 32));
    assert(first_book_match(k, 27) == first_book_match(k, 32));
    assert(first_book_match(k, 26) == first_book_match(k, 32));
    assert(first_book_match(k, 25) == first_book_match(k, 32));
    assert(first_book_match(k, 24) == first_book_match(k, 32));
    assert(first_book_match(k, 23) == first_book_match(k, 32));
    assert(first_book_match(k, 22) == first_book_match(k, 32));
    assert(first_book_match(k, 21) == first_book_match(k, 32));
    assert(first_book_match(k, 20) == first_book_match(k, 32));
    assert(first_book_match(k, 19) == first_book_match(k, 32));
    assert(first_book_match(k, 18) == first_book_match(k, 32));
    assert(first_book_match(k, 17) == first_book_match(k, 32));
    assert(first_book_match(k, 16) == first_book_match(k, 32));
}

#[verifier::rlimit(40)]
proof fn misses_osis_61_32()
    ensures
        first_book_match(canon_spec(61).osis@, 32) == first_book_match(canon_spec(61).osis@, 48),
{
    book_61();
    let k = canon_spec(61).osis@;
    book_32();
    lemma_not_eq_ic(canon_spec(32).name_en@, k, 0);
    book_33();
    lemma_not_eq_ic(canon_spec(33).name_en@, k, 0);
    book_34();
    book_35();
    book_36();
    book_37();
    lemma_not_same(canon_spec(37).name_zh@, k, 0);
    book_38();
    book_39();
    book_40();
    book_41();
    book_42();
    book_43();
    book_44();
    book_45();
    lemma_not_same(canon_spec(45).name_zh@, k, 0);
    book_46();
    lemma_not_same(canon_spec(46).name_zh@, k, 0);
    book_47();
    assert(first_book_match(k, 47) == first_book_match(k, 48));
    assert(first_book_match(k, 46) == first_book_match(k, 48));
    assert(first_book_match(k, 45) == first_book_match(k, 48));
    assert(first_book_match(k, 44) == first_book_match(k, 48));
    assert(first_book_match(k, 43) == first_book_match(k, 48));
    assert(first_book_match(k, 42) == first_book_match(k, 48));
    assert(first_book_match(k, 41) == first_book_match(k, 48));
    assert(first_book_match(k, 40) == first_book_match(k, 48));
    assert(first_book_match(k, 39) == first_book_match(k, 48));
    assert(first_book_match(k, 38) == first_book_match(k, 48));
    assert(first_book_match(k, 37) == first_book_match(k, 48));
    assert(first_book_match(k, 36) == first_book_match(k, 48));
    assert(first_book_match(k, 35) == first_book_match(k, 48));
    assert(first_book_match(k, 34) == first_book_match(k, 48));
    assert(first_book_match(k, 33) == first_book_match(k, 48));
    assert(first_book_match(k, 32) == first_book_match(k, 48));
}

#[verifier::rlimit(40)]
proof fn misses_osis_61_48()
    ensures
        first_book_match(canon_spec(61).osis@, 48) == first_book_match(canon_spec(61).osis@, 61),
{
    book_61();
    let k = canon_spec(61).osis@;
    book_48();
    book_49();
    book_50();
    book_51();
    book_52();
    book_53();
    lemma_not_same(canon_spec(53).name_zh@, k, 0);
    book_54();
    lemma_not_same(canon_spec(54).name_zh@, k, 0);
    book_55();
    lemma_not_eq_ic(canon_spec(55).osis@, k, 0);
    lemma_not_eq_ic(canon_spec(55).name_en@, k, 0);
    book_56();
    book_57();
    book_58();
    lemma_not_eq_ic(canon_spec(58).name_en@, k, 0);
    book_59();
    book_60();
    assert(first_book_match(k, 60) == first_book_match(k, 61));
    assert(first_book_match(k, 59) == first_book_match(k, 61));
    assert(first_book_match(k, 58) == first_book_match(k, 61));
    assert(first_book_match(k, 57) == first_book_match(k, 61));
    assert(first_book_match(k, 56) == first_book_match(k, 61));
    assert(first_book_match(k, 55) == first_book_match(k, 61));
    assert(first_book_match(k, 54) == first_book_match(k, 61));
    assert(first_book_match(k, 53) == first_book_match(k, 61));
    assert(first_book_match(k, 52) == first_book_match(k, 61));
    assert(first_book_match(k, 51) == first_book_match(k, 61));
    assert(first_book_match(k, 50) == first_book_match(k, 61));
    assert(first_book_match(k, 49) == first_book_match(k, 61));
    assert(first_book_match(k, 48) == first_book_match(k, 61));
}

proof fn found_by_osis_61()
    ensures
        lookup_canon_spec(canon_spec(61).osis@) == Some(canon_spec(61)),
{
    book_61();
    let k = canon_spec(61).osis@;
    lemma_plain_key(k);
    lemma_not_number(k, 1);
    misses_osis_61_0();
    misses_osis_61_16();
    misses_osis_61_32();
    misses_osis_61_48();
    assert(first_book_match(k, 61) == Some(61int));
}

#[verifier::rlimit(40)]
proof fn misses_abbreviation_61_0()
    ensures
        first_book_match(canon_spec(61).name_zh_short@, 0) == first_book_match(canon_spec(61).name_zh_short@, 16),
{
    book_61();
    let k = canon_spec(61).name_zh_short@;
    book_0();
    book_1();
    book_2();
    book_3();
    book_4();
    book_5();
    book_6();
    book_7();
    book_8();
    lemma_not_same(canon_spec(8).name_zh_short@, k, 0);
    book_9();
    lemma_not_same(canon_spec(9).name_zh_short@, k, 0);
    book_10();
    lemma_not_same(canon_spec(10).name_zh_short@, k, 0);
    book_11();
    lemma_not_same(canon_spec(11).name_zh_short@, k, 0);
    book_12();
    lemma_not_same(canon_spec(12).name_zh_short@, k, 0);
    book_13();
    lemma_not_same(canon_spec(13).name_zh_short@, k, 0);
    book_14();
    book_15();
    assert(first_book_match(k, 15) == first_book_match(k, 16));
    assert(first_book_match(k, 14) == first_book_match(k, 16));
    assert(first_book_match(k, 13) == first_book_match(k, 16));
    assert(first_book_match(k, 12) == first_book_match(k, 16));
    assert(first_book_match(k, 11) == first_book_match(k, 16));
    assert(first_book_match(k, 10) == first_book_match(k, 16));
    assert(first_book_match(k, 9) == first_book_match(k, 16));
    assert(first_book_match(k, 8) == first_book_match(k, 16));
    assert(first_book_match(k, 7) == first_book_match(k, 16));
    assert(first_book_match(k, 6) == first_book_match(k, 16));
    assert(first_book_match(k, 5) == first_book_match(k, 16));
    assert(first_book_match(k, 4) == first_book_match(k, 16));
    assert(first_book_match(k, 3) == first_book_match(k, 16));
    assert(first_book_match(k, 2) == first_book_match(k, 16));
    assert(first_book_match(k, 1) == first_book_match(k, 16));
    assert(first_book_match(k, 0) == first_book_match(k, 16));
}

#[verifier::rlimit(40)]
proof fn misses_abbreviation_61_16()
    ensures
        first_book_match(canon_spec(61).name_zh_short@, 16) == first_book_match(canon_spec(61).name_zh_short@, 32),
{
    book_61();
    let k = canon_spec(61).name_zh_short@;
    book_16();
    book_17();
    book_18();
    lemma_not_eq_ic(canon_spec(18).osis@, k, 0);
    lemma_not_same(canon_spec(18).name_zh@, k, 0);
    book_19();
    lemma_not_same(canon_spec(19).name_zh@, k, 0);
    book_20();
    book_21();
    lemma_not_same(canon_spec(21).name_zh@, k, 0);
    book_22();
    book_23();
    book_24();
    book_25();
    book_26();
    book_27();
    book_28();
    book_29();
    book_30();
    book_31();
    assert(first_book_match(k, 31) == first_book_match(k, 32));
    assert(first_book_match(k, 30) == first_book_match(k, 32));
    assert(first_book_match(k, 29) == first_book_match(k, 32));
    assert(first_book_match(k, 28) == first_book_match(k, 32));
    assert(first_book_match(k, 27) == first_book_match(k, 32));
    assert(first_book_match(k, 26) == first_book_match(k, 32));
    assert(first_book_match(k, 25) == first_book_match(k, 32));
    assert(first_book_match(k, 24) == first_book_match(k, 32));
    assert(first_book_match(k, 23) == first_book_match(k, 32));
    assert(first_book_match(k, 22) == first_book_match(k, 32));
    assert(first_book_match(k, 21) == first_book_match(k, 32));
    assert(first_book_match(k, 20) == first_book_match(k, 32));
    assert(first_book_match(k, 19) == first_book_match(k, 32));
    assert(first_book_match(k, 18) == first_book_match(k, 32));
    assert(first_book_match(k, 17) == first_book_match(k, 32));
    assert(first_book_match(k, 16) == first_book_match(k, 32));
}

#[verifier::rlimit(40)]
proof fn misses_abbreviation_61_32()
    ensures
        first_book_match(canon_spec(61).name_zh_short@, 32) == first_book_match(canon_spec(61).name_zh_short@, 48),
{
    book_61();
    let k = canon_spec(61).name_zh_short@;
    book_32();
    book_33();
    book_34();
    book_35();
    book_36();
    book_37();
    book_38();
    book_39();
    book_40();
    book_41();
    book_42();
    book_43();
    book_44();
    book_45();
    lemma_not_same(canon_spec(45).name_zh_short@, k, 0);
    book_46();
    lemma_not_same(canon_spec(46).name_zh_short@, k, 0);
    book_47();
    assert(first_book_match(k, 47) == first_book_match(k, 48));
    assert(first_book_match(k, 46) == first_book_match(k, 48));
    assert(first_book_match(k, 45) == first_book_match(k, 48));
    assert(first_book_match(k, 44) == first_book_match(k, 48));
    assert(first_book_match(k, 43) == first_book_match(k, 48));
    assert(first_book_match(k, 42) == first_book_match(k, 48));
    assert(first_book_match(k, 41) == first_book_match(k, 48));
    assert(first_book_match(k, 40) == first_book_match(k, 48));
    assert(first_book_match(k, 39) == first_book_match(k, 48));
    assert(first_book_match(k, 38) == first_book_match(k, 48));
    assert(first_book_match(k, 37) == first_book_match(k, 48));
    assert(first_book_match(k, 36) == first_book_match(k, 48));
    assert(first_book_match(k, 35) == first_book_match(k, 48));
    assert(first_book_match(k, 34) == first_book_match(k, 48));
    assert(first_book_match(k, 33) == first_book_match(k, 48));
    assert(first_book_match(k, 32) == first_book_match(k, 48));
}

#[verifier::rlimit(40)]
proof fn misses_abbreviation_61_48()
    ensures
        first_book_match(canon_spec(61).name_zh_short@, 48) == first_book_match(canon_spec(61).name_zh_short@, 61),
{
    book_61();
    let k = canon_spec(61).name_zh_short@;
    book_48();
    book_49();
    book_50();
    book_51();
    lemma_not_same(canon_spec(51).name_zh_short@, k, 0);
    book_52();
    lemma_not_same(canon_spec(52).name_zh_short@, k, 0);
    book_53();
    lemma_not_same(canon_spec(53).name_zh_short@, k, 0);
    book_54();
    lemma_not_same(canon_spec(54).name_zh_short@, k, 0);
    book_55();
    book_56();
    book_57();
    book_58();
    book_59();
    lemma_not_same(canon_spec(59).name_zh_short@, k, 0);
    book_60();
    lemma_not_same(canon_spec(60).name_zh_short@, k, 0);
    assert(first_book_match(k, 60) == first_book_match(k, 61));
    assert(first_book_match(k, 59) == first_book_match(k, 61));
    assert(first_book_match(k, 58) == first_book_match(k, 61));
    assert(first_book_match(k, 57) == first_book_match(k, 61));
    assert(first_book_match(k, 56) == first_book_match(k, 61));
    assert(first_book_match(k, 55) == first_book_match(k, 61));
    assert(first_book_match(k, 54) == first_book_match(k, 61));
    assert(first_book_match(k, 53) == first_book_match(k, 61));
    assert(first_book_match(k, 52) == first_book_match(k, 61));
    assert(first_book_match(k, 51) == first_book_match(k, 61));
    assert(first_book_match(k, 50) == first_book_match(k, 61));
    assert(first_book_match(k, 49) == first_book_match(k, 61));
    assert(first_book_match(k, 48) == first_book_match(k, 61));
}

proof fn found_by_abbreviation_61()
    ensures
        lookup_canon_spec(canon_spec(61).name_zh_short@) == Some(canon_spec(61)),
{
    book_61();
    let k = canon_spec(61).name_zh_short@;
    lemma_plain_key(k);
    lemma_not_number(k, 0);
    misses_abbreviation_61_0();
    misses_abbreviation_61_16();
    misses_abbreviation_61_32();
    misses_abbreviation_61_48();
    assert(first_book_match(k, 61) == Some(61int));
}

#[verifier::rlimit(40)]
proof fn misses_english_61_0()
    ensures
        first_book_match(canon_spec(61).name_en@, 0) == first_book_match(canon_spec(61).name_en@, 16),
{
    book_61();
    let k = canon_spec(61).name_en@;
    book_0();
    book_1();
    lemma_not_eq_ic(canon_spec(1).name_en@, k, 0);
    book_2();
    book_3();
    book_4();
    book_5();
    lemma_not_eq_ic(canon_spec(5).name_en@, k, 0);
    book_6();
    lemma_not_eq_ic(canon_spec(6).name_en@, k, 0);
    book_7();
    book_8();
    book_9();
    book_10();
    book_11();
    book_12();
    book_13();
    book_14();
    book_15();
    assert(first_book_match(k, 15) == first_book_match(k, 16));
    assert(first_book_match(k, 14) == first_book_match(k, 16));
    assert(first_book_match(k, 13) == first_book_match(k, 16));
    assert(first_book_match(k, 12) == first_book_match(k, 16));
    assert(first_book_match(k, 11) == first_book_match(k, 16));
    assert(first_book_match(k, 10) == first_book_match(k, 16));
    assert(first_book_match(k, 9) == first_book_match(k, 16));
    assert(first_book_match(k, 8) == first_book_match(k, 16));
    assert(first_book_match(k, 7) == first_book_match(k, 16));
    assert(first_book_match(k, 6) == first_book_match(k, 16));
    assert(first_book_match(k, 5) == first_book_match(k, 16));
    assert(first_book_match(k, 4) == first_book_match(k, 16));
    assert(first_book_match(k, 3) == first_book_match(k, 16));
    assert(first_book_match(k, 2) == first_book_match(k, 16));
    assert(first_book_match(k, 1) == first_book_match(k, 16));
    assert(first_book_match(k, 0) == first_book_match(k, 16));
}

#[verifier::rlimit(40)]
proof fn misses_english_61_16()
    ensures
        first_book_match(canon_spec(61).name_en@, 16) == first_book_match(canon_spec(61).name_en@, 32),
{
    book_61();
    let k = canon_spec(61).name_en@;
    book_16();
    lemma_not_eq_ic(canon_spec(16).name_en@, k, 0);
    book_17();
    book_18();
    lemma_not_eq_ic(canon_spec(18).name_en@, k, 0);
    book_19();
    book_20();
    book_21();
    book_22();
    lemma_not_eq_ic(canon_spec(22).name_en@, k, 0);
    book_23();
    book_24();
    book_25();
    book_26();
    lemma_not_eq_ic(canon_spec(26).name_en@, k, 0);
    book_27();
    book_28();
    book_29();
    book_30();
    book_31();
    assert(first_book_match(k, 31) == first_book_match(k, 32));
    assert(first_book_match(k, 30) == first_book_match(k, 32));
    assert(first_book_match(k, 29) == first_book_match(k, 32));
    assert(first_book_match(k, 28) == first_book_match(k, 32));
    assert(first_book_match(k, 27) == first_book_match(k, 32));
    assert(first_book_match(k, 26) == first_book_match(k, 32));
    assert(first_book_match(k, 25) == first_book_match(k, 32));
    assert(first_book_match(k, 24) == first_book_match(k, 32));
    assert(first_book_match(k, 23) == first_book_match(k, 32));
    assert(first_book_match(k, 22) == first_book_match(k, 32));
    assert(first_book_match(k, 21) == first_book_match(k, 32));
    assert(first_book_match(k, 20) == first_book_match(k, 32));
    assert(first_book_match(k, 19) == first_book_match(k, 32));
    assert(first_book_match(k, 18) == first_book_match(k, 32));
    assert(first_book_match(k, 17) == first_book_match(k, 32));
    assert(first_book_match(k, 16) == first_book_match(k, 32));
}

#[verifier::rlimit(40)]
proof fn misses_english_61_32()
    ensures
        first_book_match(canon_spec(61).name_en@, 32) == first_book_match(canon_spec(61).name_en@, 48),
{
    book_61();
    let k = canon_spec(61).name_en@;
    book_32();
    book_33();
    book_34();
    book_35();
    book_36();
    lemma_not_eq_ic(canon_spec(36).name_en@, k, 0);
    book_37();
    book_38();
    book_39();
    book_40();
    book_41();
    book_42();
    book_43();
    book_44();
    lemma_not_eq_ic(canon_spec(44).name_en@, k, 0);
    book_45();
    book_46();
    book_47();
    assert(first_book_match(k, 47) == first_book_match(k, 48));
    assert(first_book_match(k, 46) == first_book_match(k, 48));
    assert(first_book_match(k, 45) == first_book_match(k, 48));
    assert(first_book_match(k, 44) == first_book_match(k, 48));
    assert(first_book_match(k, 43) == first_book_match(k, 48));
    assert(first_book_match(k, 42) == first_book_match(k, 48));
    assert(first_book_match(k, 41) == first_book_match(k, 48));
    assert(first_book_match(k, 40) == first_book_match(k, 48));
    assert(first_book_match(k, 39) == first_book_match(k, 48));
    assert(first_book_match(k, 38) == first_book_match(k, 48));
    assert(first_book_match(k, 37) == first_book_match(k, 48));
    assert(first_book_match(k, 36) == first_book_match(k, 48));
    assert(first_book_match(k, 35) == first_book_match(k, 48));
    assert(first_book_match(k, 34) == first_book_match(k, 48));
    assert(first_book_match(k, 33) == first_book_match(k, 48));
    assert(first_book_match(k, 32) == first_book_match(k, 48));
}

#[verifier::rlimit(40)]
proof fn misses_english_61_48()
    ensures
        first_book_match(canon_spec(61).name_en@, 48) == first_book_match(canon_spec(61).name_en@, 61),
{
    book_61();
    let k = canon_spec(61).name_en@;
    book_48();
    book_49();
    book_50();
    book_51();
    lemma_not_eq_ic(canon_spec(51).osis@, k, 1);
    book_52();
    lemma_not_eq_ic(canon_spec(52).osis@, k, 0);
    book_53();
    book_54();
    book_55();
    book_56();
    book_57();
    book_58();
    book_59();
    book_60();
    assert(first_book_match(k, 60) == first_book_match(k, 61));
    assert(first_book_match(k, 59) == first_book_match(k, 61));
    assert(first_book_match(k, 58) == first_book_match(k, 61));
    assert(first_book_match(k, 57) == first_book_match(k, 61));
    assert(first_book_match(k, 56) == first_book_match(k, 61));
    assert(first_book_match(k, 55) == first_book_match(k, 61));
    assert(first_book_match(k, 54) == first_book_match(k, 61));
    assert(first_book_match(k, 53) == first_book_match(k, 61));
    assert(first_book_match(k, 52) == first_book_match(k, 61));
    assert(first_book_match(k, 51) == first_book_match(k, 61));
    assert(first_book_match(k, 50) == first_book_match(k, 61));
    assert(first_book_match(k, 49) == first_book_match(k, 61));
    assert(first_book_match(k, 48) == first_book_match(k, 61));
}

proof fn found_by_english_61()
    ensures
        lookup_canon_spec(canon_spec(61).name_en@) == Some(canon_spec(61)),
{
    book_61();
    let k = canon_spec(61).name_en@;
    lemma_plain_key(k);
    lemma_not_number(k, 1);
    misses_english_61_0();
    misses_english_61_16();
    misses_english_61_32();
    misses_english_61_48();
    assert(first_book_match(k, 61) == Some(61int));
}

#[verifier::rlimit(40)]
proof fn misses_osis_62_0()
    ensures
        first_book_match(canon_spec(62).osis@, 0) == first_book_match(canon_spec(62).osis@, 16),
{
    book_62();
    let k = canon_spec(62).osis@;
    book_0();
    book_1();
    book_2();
    book_3();
    book_4();
    book_5();
    book_6();
    book_7();
    book_8();
    lemma_not_same(canon_spec(8).name_zh@, k, 0);
    book_9();
    lemma_not_same(canon_spec(9).name_zh@, k, 0);
    book_10();
    book_11();
    book_12();
    book_13();
    book_14();
    book_15();
    assert(first_book_match(k, 15) == first_book_match(k, 16));
    assert(first_book_match(k, 14) == first_book_match(k, 16));
    assert(first_book_match(k, 13) == first_book_match(k, 16));
    assert(first_book_match(k, 12) == first_book_match(k, 16));
    assert(first_book_match(k, 11) == first_book_match(k, 16));
    assert(first_book_match(k, 10) == first_book_match(k, 16));
    assert(first_book_match(k, 9) == first_book_match(k, 16));
    assert(first_book_match(k, 8) == first_book_match(k, 16));
    assert(first_book_match(k, 7) == first_book_match(k, 16));
    assert(first_book_match(k, 6) == first_book_match(k, 16));
    assert(first_book_match(k, 5) == first_book_match(k, 16));
    assert(first_book_match(k, 4) == first_book_match(k, 16));
    assert(first_book_match(k, 3) == first_book_match(k, 16));
    assert(first_book_match(k, 2) == first_book_match(k, 16));
    assert(first_book_match(k, 1) == first_book_match(k, 16));
    assert(first_book_match(k, 0) == first_book_match(k, 16));
}

#[verifier::rlimit(40)]
proof fn misses_osis_62_16()
    ensures
        first_book_match(canon_spec(62).osis@, 16) == first_book_match(canon_spec(62).osis@, 32),
{
    book_62();
    let k = canon_spec(62).osis@;
    book_16();
    book_17();
    book_18();
    book_19();
    book_20();
    book_21();
    book_22();
    book_23();
    book_24();
    lemma_not_same(canon_spec(24).name_zh@, k, 0);
    book_25();
    book_26();
    book_27();
    lemma_not_eq_ic(canon_spec(27).name_en@, k, 0);
    book_28();
    book_29();
    book_30();
    lemma_not_same(canon_spec(30).name_zh@, k, 0);
    book_31();
    lemma_not_eq_ic(canon_spec(31).osis@, k, 0);
    lemma_not_eq_ic(canon_spec(31).name_en@, k, 0);
    assert(first_book_match(k, 31) == first_book_match(k, 32));
    assert(first_book_match(k, 30) == first_book_match(k, 32));
    assert(first_book_match(k, 29) == first_book_match(k, 32));
    assert(first_book_match(k, 28) == first_book_match(k, 32));
    assert(first_book_match(k, 27) == first_book_match(k, 32));
    assert(first_book_match(k, 26) == first_book_match(k, 32));
    assert(first_book_match(k, 25) == first_book_match(k, 32));
    assert(first_book_match(k, 24) == first_book_match(k, 32));
    assert(first_book_match(k, 23) == first_book_match(k, 32));
    assert(first_book_match(k, 22) == first_book_match(k, 32));
    assert(first_book_match(k, 21) == first_book_match(k, 32));
    assert(first_book_match(k, 20) == first_book_match(k, 32));
    assert(first_book_match(k, 19) == first_book_match(k, 32));
    assert(first_book_match(k, 18) == first_book_match(k, 32));
    assert(first_book_match(k, 17) == first_book_match(k, 32));
    assert(first_book_match(k, 16) == first_book_match(k, 32));
}

#[verifier::rlimit(40)]
proof fn misses_osis_62_32()
    ensures
        first_book_match(canon_spec(62).osis@, 32) == first_book_match(canon_spec(62).osis@, 48),
{
    book_62();
    let k = canon_spec(62).osis@;
    book_32();
    lemma_not_eq_ic(canon_spec(32).name_en@, k, 0);
    book_33();
    lemma_not_eq_ic(canon_spec(33).name_en@, k, 0);
    book_34();
    book_35();
    book_36();
    book_37();
    lemma_not_same(canon_spec(37).name_zh@, k, 0);
    book_38();
    book_39();
    book_40();
    book_41();
    book_42();
    book_43();
    book_44();
    book_45();
    lemma_not_same(canon_spec(45).name_zh@, k, 0);
    book_46();
    lemma_not_same(canon_spec(46).name_zh@, k, 0);
    book_47();
    assert(first_book_match(k, 47) == first_book_match(k, 48));
    assert(first_book_match(k, 46) == first_book_match(k, 48));
    assert(first_book_match(k, 45) == first_book_match(k, 48));
    assert(first_book_match(k, 44) == first_book_match(k, 48));
    assert(first_book_match(k, 43) == first_book_match(k, 48));
    assert(first_book_match(k, 42) == first_book_match(k, 48));
    assert(first_book_match(k, 41) == first_book_match(k, 48));
    assert(first_book_match(k, 40) == first_book_match(k, 48));
    assert(first_book_match(k, 39) == first_book_match(k, 48));
    assert(first_book_match(k, 38) == first_book_match(k, 48));
    assert(first_book_match(k, 37) == first_book_match(k, 48));
    assert(first_book_match(k, 36) == first_book_match(k, 48));
    assert(first_book_match(k, 35) == first_book_match(k, 48));
    assert(first_book_match(k, 34) == first_book_match(k, 48));
    assert(first_book_match(k, 33) == first_book_match(k, 48));
    assert(first_book_match(k, 32) == first_book_match(k, 48));
}

#[verifier::rlimit(40)]
proof fn misses_osis_62_48()
    ensures
        first_book_match(canon_spec(62).osis@, 48) == first_book_match(canon_spec(62).osis@, 62),
{
    book_62();
    let k = canon_spec(62).osis@;
    book_48();
    book_49();
    book_50();
    book_51();
    book_52();
    book_53();
    lemma_not_same(canon_spec(53).name_zh@, k, 0);
    book_54();
    lemma_not_same(canon_spec(54).name_zh@, k, 0);
    book_55();
    lemma_not_eq_ic(canon_spec(55).osis@, k, 0);
    lemma_not_eq_ic(canon_spec(55).name_en@, k, 0);
    book_56();
    book_57();
    book_58();
    lemma_not_eq_ic(canon_spec(58).name_en@, k, 0);
    book_59();
    book_60();
    book_61();
    lemma_not_eq_ic(canon_spec(61).osis@, k, 0);
    assert(first_book_match(k, 61) == first_book_match(k, 62));
    assert(first_book_match(k, 60) == first_book_match(k, 62));
    assert(first_book_match(k, 59) == first_book_match(k, 62));
    assert(first_book_match(k, 58) == first_book_match(k, 62));
    assert(first_book_match(k, 57) == first_book_match(k, 62));
    assert(first_book_match(k, 56) == first_book_match(k, 62));
    assert(first_book_match(k, 55) == first_book_match(k, 62));
    assert(first_book_match(k, 54) == first_book_match(k, 62));
    assert(first_book_match(k, 53) == first_book_match(k, 62));
    assert(first_book_match(k, 52) == first_book_match(k, 62));
    assert(first_book_match(k, 51) == first_book_match(k, 62));
    assert(first_book_match(k, 50) == first_book_match(k, 62));
    assert(first_book_match(k, 49) == first_book_match(k, 62));
    assert(first_book_match(k, 48) == first_book_match(k, 62));
}

proof fn found_by_osis_62()
    ensures
        lookup_canon_spec(canon_spec(62).osis@) == Some(canon_spec(62)),
{
    book_62();
    let k = canon_spec(62).osis@;
    lemma_plain_key(k);
    lemma_not_number(k, 1);
    misses_osis_62_0();
    misses_osis_62_16();
    misses_osis_62_32();
    misses_osis_62_48();
    assert(first_book_match(k, 62) == Some(62int));
}

#[verifier::rlimit(40)]
proof fn misses_abbreviation_62_0()
    ensures
        first_book_match(canon_spec(62).name_zh_short@, 0) == first_book_match(canon_spec(62).name_zh_short@, 16),
{
    book_62();
    let k = canon_spec(62).name_zh_short@;
    book_0();
    book_1();
    book_2();
    book_3();
    book_4();
    book_5();
    book_6();
    book_7();
    book_8();
    lemma_not_same(canon_spec(8).name_zh_short@, k, 0);
    book_9();
    lemma_not_same(canon_spec(9).name_zh_short@, k, 0);
    book_10();
    lemma_not_same(canon_spec(10).name_zh_short@, k, 0);
    book_11();
    lemma_not_same(canon_spec(11).name_zh_short@, k, 0);
    book_12();
    lemma_not_same(canon_spec(12).name_zh_short@, k, 0);
    book_13();
    lemma_not_same(canon_spec(13).name_zh_short@, k, 0);
    book_14();
    book_15();
    assert(first_book_match(k, 15) == first_book_match(k, 16));
    assert(first_book_match(k, 14) == first_book_match(k, 16));
    assert(first_book_match(k, 13) == first_book_match(k, 16));
    assert(first_book_match(k, 12) == first_book_match(k, 16));
    assert(first_book_match(k, 11) == first_book_match(k, 16));
    assert(first_book_match(k, 10) == first_book_match(k, 16));
    assert(first_book_match(k, 9) == first_book_match(k, 16));
    assert(first_book_match(k, 8) == first_book_match(k, 16));
    assert(first_book_match(k, 7) == first_book_match(k, 16));
    assert(first_book_match(k, 6) == first_book_match(k, 16));
    assert(first_book_match(k, 5) == first_book_match(k, 16));
    assert(first_book_match(k, 4) == first_book_match(k, 16));
    assert(first_book_match(k, 3) == first_book_match(k, 16));
    assert(first_book_match(k, 2) == first_book_match(k, 16));
    assert(first_book_match(k, 1) == first_book_match(k, 16));
    assert(first_book_match(k, 0) == first_book_match(k, 16));
}

#[verifier::rlimit(40)]
proof fn misses_abbreviation_62_16()
    ensures
        first_book_match(canon_spec(62).name_zh_short@, 16) == first_book_match(canon_spec(62).name_zh_short@, 32),
{
    book_62();
    let k = canon_spec(62).name_zh_short@;
    book_16();
    book_17();
    book_18();
    lemma_not_eq_ic(canon_spec(18).osis@, k, 0);
    lemma_not_same(canon_spec(18).name_zh@, k, 0);
    book_19();
    lemma_not_same(canon_spec(19).name_zh@, k, 0);
    book_20();
    book_21();
    lemma_not_same(canon_spec(21).name_zh@, k, 0);
    book_22();
    book_23();
    book_24();
    book_25();
    book_26();
    book_27();
    book_28();
    book_29();
    book_30();
    book_31();
    assert(first_book_match(k, 31) == first_book_match(k, 32));
    assert(first_book_match(k, 30) == first_book_match(k, 32));
    assert(first_book_match(k, 29) == first_book_match(k, 32));
    assert(first_book_match(k, 28) == first_book_match(k, 32));
    assert(first_book_match(k, 27) == first_book_match(k, 32));
    assert(first_book_match(k, 26) == first_book_match(k, 32));
    assert(first_book_match(k, 25) == first_book_match(k, 32));
    assert(first_book_match(k, 24) == first_book_match(k, 32));
    assert(first_book_match(k, 23) == first_book_match(k, 32));
    assert(first_book_match(k, 22) == first_book_match(k, 32));
    assert(first_book_match(k, 21) == first_book_match(k, 32));
    assert(first_book_match(k, 20) == first_book_match(k, 32));
    assert(first_book_match(k, 19) == first_book_match(k, 32));
    assert(first_book_match(k, 18) == first_book_match(k, 32));
    assert(first_book_match(k, 17) == first_book_match(k, 32));
    assert(first_book_match(k, 16) == first_book_match(k, 32));
}

#[verifier::rlimit(40)]
proof fn misses_abbreviation_62_32()
    ensures
        first_book_match(canon_spec(62).name_zh_short@, 32) == first_book_match(canon_spec(62).name_zh_short@, 48),
{
    book_62();
    let k = canon_spec(62).name_zh_short@;
    book_32();
    book_33();
    book_34();
    book_35();
    book_36();
    book_37();
    book_38();
    book_39();
    book_40();
    book_41();
    book_42();
    book_43();
    book_44();
    book_45();
    lemma_not_same(canon_spec(45).name_zh_short@, k, 0);
    book_46();
    lemma_not_same(canon_spec(46).name_zh_short@, k, 0);
    book_47();
    assert(first_book_match(k, 47) == first_book_match(k, 48));
    assert(first_book_match(k, 46) == first_book_match(k, 48));
    assert(first_book_match(k, 45) == first_book_match(k, 48));
    assert(first_book_match(k, 44) == first_book_match(k, 48));
    assert(first_book_match(k, 43) == first_book_match(k, 48));
    assert(first_book_match(k, 42) == first_book_match(k, 48));
    assert(first_book_match(k, 41) == first_book_match(k, 48));
    assert(first_book_match(k, 40) == first_book_match(k, 48));
    assert(first_book_match(k, 39) == first_book_match(k, 48));
    assert(first_book_match(k, 38) == first_book_match(k, 48));
    assert(first_book_match(k, 37) == first_book_match(k, 48));
    assert(first_book_match(k, 36) == first_book_match(k, 48));
    assert(first_book_match(k, 35) == first_book_match(k, 48));
    assert(first_book_match(k, 34) == first_book_match(k, 48));
    assert(first_book_match(k, 33) == first_book_match(k, 48));
    assert(first_book_match(k, 32) == first_book_match(k, 48));
}

#[verifier::rlimit(40)]
proof fn misses_abbreviation_62_48()
    ensures
        first_book_match(canon_spec(62).name_zh_short@, 48) == first_book_match(canon_spec(62).name_zh_short@, 62),
{
    book_62();
    let k = canon_spec(62).name_zh_short@;
    book_48();
    book_49();
    book_50();
    book_51();
    lemma_not_same(canon_spec(51).name_zh_short@, k, 0);
    book_52();
    lemma_not_same(canon_spec(52).name_zh_short@, k, 0);
    book_53();
    lemma_not_same(canon_spec(53).name_zh_short@, k, 0);
    book_54();
    lemma_not_same(canon_spec(54).name_zh_short@, k, 0);
    book_55();
    book_56();
    book_57();
    book_58();
    book_59();
    lemma_not_same(canon_spec(59).name_zh_short@, k, 0);
    book_60();
    lemma_not_same(canon_spec(60).name_zh_short@, k, 0);
    book_61();
    lemma_not_same(canon_spec(61).name_zh_short@, k, 1);
    assert(first_book_match(k, 61) == first_book_match(k, 62));
    assert(first_book_match(k, 60) == first_book_match(k, 62));
    assert(first_book_match(k, 59) == first_book_match(k, 62));
    assert(first_book_match(k, 58) == first_book_match(k, 62));
    assert(first_book_match(k, 57) == first_book_match(k, 62));
    assert(first_book_match(k, 56) == first_book_match(k, 62));
    assert(first_book_match(k, 55) == first_book_match(k, 62));
    assert(first_book_match(k, 54) == first_book_match(k, 62));
    assert(first_book_match(k, 53) == first_book_match(k, 62));
    assert(first_book_match(k, 52) == first_book_match(k, 62));
    assert(first_book_match(k, 51) == first_book_match(k, 62));
    assert(first_book_match(k, 50) == first_book_match(k, 62));
    assert(first_book_match(k, 49) == first_book_match(k, 62));
    assert(first_book_match(k, 48) == first_book_match(k, 62));
}

proof fn found_by_abbreviation_62()
    ensures
        lookup_canon_spec(canon_spec(62).name_zh_short@) == Some(canon_spec(62)),
{
    book_62();
    let k = canon_spec(62).name_zh_short@;
    lemma_plain_key(k);
    lemma_not_number(k, 0);
    misses_abbreviation_62_0();
    misses_abbreviation_62_16();
    misses_abbreviation_62_32();
    misses_abbreviation_62_48();
    assert(first_book_match(k, 62) == Some(62int));
}

#[verifier::rlimit(40)]
proof fn misses_english_62_0()
    ensures
        first_book_match(canon_spec(62).name_en@, 0) == first_book_match(canon_spec(62).name_en@, 16),
{
    book_62();
    let k = canon_spec(62).name_en@;
    book_0();
    book_1();
    lemma_not_eq_ic(canon_spec(1).name_en@, k, 0);
    book_2();
    book_3();
    book_4();
    book_5();
    lemma_not_eq_ic(canon_spec(5).name_en@, k, 0);
    book_6();
    lemma_not_eq_ic(canon_spec(6).name_en@, k, 0);
    book_7();
    book_8();
    book_9();
    book_10();
    book_11();
    book_12();
    book_13();
    book_14();
    book_15();
    assert(first_book_match(k, 15) == first_book_match(k, 16));
    assert(first_book_match(k, 14) == first_book_match(k, 16));
    assert(first_book_match(k, 13) == first_book_match(k, 16));
    assert(first_book_match(k, 12) == first_book_match(k, 16));
    assert(first_book_match(k, 11) == first_book_match(k, 16));
    assert(first_book_match(k, 10) == first_book_match(k, 16));
    assert(first_book_match(k, 9) == first_book_match(k, 16));
    assert(first_book_match(k, 8) == first_book_match(k, 16));
    assert(first_book_match(k, 7) == first_book_match(k, 16));
    assert(first_book_match(k, 6) == first_book_match(k, 16));
    assert(first_book_match(k, 5) == first_book_match(k, 16));
    assert(first_book_match(k, 4) == first_book_match(k, 16));
    assert(first_book_match(k, 3) == first_book_match(k, 16));
    assert(first_book_match(k, 2) == first_book_match(k, 16));
    assert(first_book_match(k, 1) == first_book_match(k, 16));
    assert(first_book_match(k, 0) == first_book_match(k, 16));
}

#[verifier::rlimit(40)]
proof fn misses_english_62_16()
    ensures
        first_book_match(canon_spec(62).name_en@, 16) == first_book_match(canon_spec(62).name_en@, 32),
{
    book_62();
    let k = canon_spec(62).name_en@;
    book_16();
    lemma_not_eq_ic(canon_spec(16).name_en@, k, 0);
    book_17();
    book_18();
    lemma_not_eq_ic(canon_spec(18).name_en@, k, 0);
    book_19();
    book_20();
    book_21();
    book_22();
    lemma_not_eq_ic(canon_spec(22).name_en@, k, 0);
    book_23();
    book_24();
    book_25();
    book_26();
    lemma_not_eq_ic(canon_spec(26).name_en@, k, 0);
    book_27();
    book_28();
    book_29();
    book_30();
    book_31();
    assert(first_book_match(k, 31) == first_book_match(k, 32));
    assert(first_book_match(k, 30) == first_book_match(k, 32));
    assert(first_book_match(k, 29) == first_book_match(k, 32));
    assert(first_book_match(k, 28) == first_book_match(k, 32));
    assert(first_book_match(k, 27) == first_book_match(k, 32));
    assert(first_book_match(k, 26) == first_book_match(k, 32));
    assert(first_book_match(k, 25) == first_book_match(k, 32));
    assert(first_book_match(k, 24) == first_book_match(k, 32));
    assert(first_book_match(k, 23) == first_book_match(k, 32));
    assert(first_book_match(k, 22) == first_book_match(k, 32));
    assert(first_book_match(k, 21) == first_book_match(k, 32));
    assert(first_book_match(k, 20) == first_book_match(k, 32));
    assert(first_book_match(k, 19) == first_book_match(k, 32));
    assert(first_book_match(k, 18) == first_book_match(k, 32));
    assert(first_book_match(k, 17) == first_book_match(k, 32));
    assert(first_book_match(k, 16) == first_book_match(k, 32));
}

#[verifier::rlimit(40)]
proof fn misses_english_62_32()
    ensures
        first_book_match(canon_spec(62).name_en@, 32) == first_book_match(canon_spec(62).name_en@, 48),
{
    book_62();
    let k = canon_spec(62).name_en@;
    book_32();
    book_33();
    book_34();
    book_35();
    book_36();
    lemma_not_eq_ic(canon_spec(36).name_en@, k, 0);
    book_37();
    book_38();
    book_39();
    book_40();
    book_41();
    book_42();
    book_43();
    book_44();
    lemma_not_eq_ic(canon_spec(44).name_en@, k, 0);
    book_45();
    book_46();
    book_47();
    assert(first_book_match(k, 47) == first_book_match(k, 48));
    assert(first_book_match(k, 46) == first_book_match(k, 48));
    assert(first_book_match(k, 45) == first_book_match(k, 48));
    assert(first_book_match(k, 44) == first_book_match(k, 48));
    assert(first_book_match(k, 43) == first_book_match(k, 48));
    assert(first_book_match(k, 42) == first_book_match(k, 48));
    assert(first_book_match(k, 41) == first_book_match(k, 48));
    assert(first_book_match(k, 40) == first_book_match(k, 48));
    assert(first_book_match(k, 39) == first_book_match(k, 48));
    assert(first_book_match(k, 38) == first_book_match(k, 48));
    assert(first_book_match(k, 37) == first_book_match(k, 48));
    assert(first_book_match(k, 36) == first_book_match(k, 48));
    assert(first_book_match(k, 35) == first_book_match(k, 48));
    assert(first_book_match(k, 34) == first_book_match(k, 48));
    assert(first_book_match(k, 33) == first_book_match(k, 48));
    assert(first_book_match(k, 32) == first_book_match(k, 48));
}

#[verifier::rlimit(40)]
proof fn misses_english_62_48()
    ensures
        first_book_match(canon_spec(62).name_en@, 48) == first_book_match(canon_spec(62).name_en@, 62),
{
    book_62();
    let k = canon_spec(62).name_en@;
    book_48();
    book_49();
    book_50();
    book_51();
    lemma_not_eq_ic(canon_spec(51).osis@, k, 0);
    book_52();
    lemma_not_eq_ic(canon_spec(52).osis@, k, 1);
    book_53();
    book_54();
    book_55();
    book_56();
    book_57();
    book_58();
    book_59();
    book_60();
    book_61();
    lemma_not_eq_ic(canon_spec(61).name_en@, k, 0);
    assert(first_book_match(k, 61) == first_book_match(k, 62));
    assert(first_book_match(k, 60) == first_book_match(k, 62));
    assert(first_book_match(k, 59) == first_book_match(k, 62));
    assert(first_book_match(k, 58) == first_book_match(k, 62));
    assert(first_book_match(k, 57) == first_book_match(k, 62));
    assert(first_book_match(k, 56) == first_book_match(k, 62));
    assert(first_book_match(k, 55) == first_book_match(k, 62));
    assert(first_book_match(k, 54) == first_book_match(k, 62));
    assert(first_book_match(k, 53) == first_book_match(k, 62));
    assert(first_book_match(k, 52) == first_book_match(k, 62));
    assert(first_book_match(k, 51) == first_book_match(k, 62));
    assert(first_book_match(k, 50) == first_book_match(k, 62));
    assert(first_book_match(k, 49) == first_book_match(k, 62));
    assert(first_book_match(k, 48) == first_book_match(k, 62));
}

proof fn found_by_english_62()
    ensures
        lookup_canon_spec(canon_spec(62).name_en@) == Some(canon_spec(62)),
{
    book_62();
    let k = canon_spec(62).name_en@;
    lemma_plain_key(k);
    lemma_not_number(k, 1);
    misses_english_62_0();
    misses_english_62_16();
    misses_english_62_32();
    misses_english_62_48();
    assert(first_book_match(k, 62) == Some(62int));
}

#[verifier::rlimit(40)]
proof fn misses_osis_63_0()
    ensures
        first_book_match(canon_spec(63).osis@, 0) == first_book_match(canon_spec(63).osis@, 16),
{
    book_63();
    let k = canon_spec(63).osis@;
    book_0();
    book_1();
    book_2();
    book_3();
    book_4();
    book_5();
    book_6();
    book_7();
    book_8();
    lemma_not_same(canon_spec(8).name_zh@, k, 0);
    book_9();
    lemma_not_same(canon_spec(9).name_zh@, k, 0);
    book_10();
    book_11();
    book_12();
    book_13();
    book_14();
    book_15();
    assert(first_book_match(k, 15) == first_book_match(k, 16));
    assert(first_book_match(k, 14) == first_book_match(k, 16));
    assert(first_book_match(k, 13) == first_book_match(k, 16));
    assert(first_book_match(k, 12) == first_book_match(k, 16));
    assert(first_book_match(k, 11) == first_book_match(k, 16));
    assert(first_book_match(k, 10) == first_book_match(k, 16));
    assert(first_book_match(k, 9) == first_book_match(k, 16));
    assert(first_book_match(k, 8) == first_book_match(k, 16));
    assert(first_book_match(k, 7) == first_book_match(k, 16));
    assert(first_book_match(k, 6) == first_book_match(k, 16));
    assert(first_book_match(k, 5) == first_book_match(k, 16));
    assert(first_book_match(k, 4) == first_book_match(k, 16));
    assert(first_book_match(k, 3) == first_book_match(k, 16));
    assert(first_book_match(k, 2) == first_book_match(k, 16));
    assert(first_book_match(k, 1) == first_book_match(k, 16));
    assert(first_book_match(k, 0) == first_book_match(k, 16));
}

#[verifier::rlimit(40)]
proof fn misses_osis_63_16()
    ensures
        first_book_match(canon_spec(63).osis@, 16) == first_book_match(canon_spec(63).osis@, 32),
{
    book_63();
    let k = canon_spec(63).osis@;
    book_16();
    book_17();
    book_18();
    book_19();
    book_20();
    book_21();
    book_22();
    book_23();
    book_24();
    lemma_not_same(canon_spec(24).name_zh@, k, 0);
    book_25();
    book_26();
    book_27();
    lemma_not_eq_ic(canon_spec(27).name_en@, k, 0);
    book_28();
    book_29();
    book_30();
    lemma_not_same(canon_spec(30).name_zh@, k, 0);
    book_31();
    lemma_not_eq_ic(canon_spec(31).osis@, k, 0);
    lemma_not_eq_ic(canon_spec(31).name_en@, k, 0);
    assert(first_book_match(k, 31) == first_book_match(k, 32));
    assert(first_book_match(k, 30) == first_book_match(k, 32));
    assert(first_book_match(k, 29) == first_book_match(k, 32));
    assert(first_book_match(k, 28) == first_book_match(k, 32));
    assert(first_book_match(k, 27) == first_book_match(k, 32));
    assert(first_book_match(k, 26) == first_book_match(k, 32));
    assert(first_book_match(k, 25) == first_book_match(k, 32));
    assert(first_book_match(k, 24) == first_book_match(k, 32));
    assert(first_book_match(k, 23) == first_book_match(k, 32));
    assert(first_book_match(k, 22) == first_book_match(k, 32));
    assert(first_book_match(k, 21) == first_book_match(k, 32));
    assert(first_book_match(k, 20) == first_book_match(k, 32));
    assert(first_book_match(k, 19) == first_book_match(k, 32));
    assert(first_book_match(k, 18) == first_book_match(k, 32));
    assert(first_book_match(k, 17) == first_book_match(k, 32));
    assert(first_book_match(k, 16) == first_book_match(k, 32));
}

#[verifier::rlimit(40)]
proof fn misses_osis_63_32()
    ensures
        first_book_match(canon_spec(63).osis@, 32) == first_book_match(canon_spec(63).osis@, 48),
{
    book_63();
    let k = canon_spec(63).osis@;
    book_32();
    lemma_not_eq_ic(canon_spec(32).name_en@, k, 0);
    book_33();
    lemma_not_eq_ic(canon_spec(33).name_en@, k, 0);
    book_34();
    book_35();
    book_36();
    book_37();
    lemma_not_same(canon_spec(37).name_zh@, k, 0);
    book_38();
    book_39();
    book_40();
    book_41();
    book_42();
    book_43();
    book_44();
    book_45();
    lemma_not_same(canon_spec(45).name_zh@, k, 0);
    book_46();
    lemma_not_same(canon_spec(46).name_zh@, k, 0);
    book_47();
    assert(first_book_match(k, 47) == first_book_match(k, 48));
    assert(first_book_match(k, 46) == first_book_match(k, 48));
    assert(first_book_match(k, 45) == first_book_match(k, 48));
    assert(first_book_match(k, 44) == first_book_match(k, 48));
    assert(first_book_match(k, 43) == first_book_match(k, 48));
    assert(first_book_match(k, 42) == first_book_match(k, 48));
    assert(first_book_match(k, 41) == first_book_match(k, 48));
    assert(first_book_match(k, 40) == first_book_match(k, 48));
    assert(first_book_match(k, 39) == first_book_match(k, 48));
    assert(first_book_match(k, 38) == first_book_match(k, 48));
    assert(first_book_match(k, 37) == first_book_match(k, 48));
    assert(first_book_match(k, 36) == first_book_match(k, 48));
    assert(first_book_match(k, 35) == first_book_match(k, 48));
    assert(first_book_match(k, 34) == first_book_match(k, 48));
    assert(first_book_match(k, 33) == first_book_match(k, 48));
    assert(first_book_match(k, 32) == first_book_match(k, 48));
}

#[verifier::rlimit(40)]
proof fn misses_osis_63_48()
    ensures
        first_book_match(canon_spec(63).osis@, 48) == first_book_match(canon_spec(63).osis@, 63),
{
    book_63();
    let k = canon_spec(63).osis@;
    book_48();
    book_49();
    book_50();
    book_51();
    book_52();
    book_53();
    lemma_not_same(canon_spec(53).name_zh@, k, 0);
    book_54();
    lemma_not_same(canon_spec(54).name_zh@, k, 0);
    book_55();
    lemma_not_eq_ic(canon_spec(55).osis@, k, 0);
    lemma_not_eq_ic(canon_spec(55).name_en@, k, 0);
    book_56();
    book_57();
    book_58();
    lemma_not_eq_ic(canon_spec(58).name_en@, k, 0);
    book_59();
    book_60();
    book_61();
    lemma_not_eq_ic(canon_spec(61).osis@, k, 0);
    book_62();
    lemma_not_eq_ic(canon_spec(62).osis@, k, 0);
    assert(first_book_match(k, 62) == first_book_match(k, 63));
    assert(first_book_match(k, 61) == first_book_match(k, 63));
    assert(first_book_match(k, 60) == first_book_match(k, 63));
    assert(first_book_match(k, 59) == first_book_match(k, 63));
    assert(first_book_match(k, 58) == first_book_match(k, 63));
    assert(first_book_match(k, 57) == first_book_match(k, 63));
    assert(first_book_match(k, 56) == first_book_match(k, 63));
    assert(first_book_match(k, 55) == first_book_match(k, 63));
    assert(first_book_match(k, 54) == first_book_match(k, 63));
    assert(first_book_match(k, 53) == first_book_match(k, 63));
    assert(first_book_match(k, 52) == first_book_match(k, 63));
    assert(first_book_match(k, 51) == first_book_match(k, 63));
    assert(first_book_match(k, 50) == first_book_match(k, 63));
    assert(first_book_match(k, 49) == first_book_match(k, 63));
    assert(first_book_match(k, 48) == first_book_match(k, 63));
}

proof fn found_by_osis_63()
    ensures
        lookup_canon_spec(canon_spec(63).osis@) == Some(canon_spec(63)),
{
    book_63();
    let k = canon_spec(63).osis@;
    lemma_plain_key(k);
    lemma_not_number(k, 1);
    misses_osis_63_0();
    misses_osis_63_16();
    misses_osis_63_32();
    misses_osis_63_48();
    assert(first_book_match(k, 63) == Some(63int));
}

#[verifier::rlimit(40)]
proof fn misses_abbreviation_63_0()
    ensures
        first_book_match(canon_spec(63).name_zh_short@, 0) == first_book_match(canon_spec(63).name_zh_short@, 16),
{
    book_63();
    let k = canon_spec(63).name_zh_short@;
    book_0();
    book_1();
    book_2();
    book_3();
    book_4();
    book_5();
    book_6();
    book_7();
    book_8();
    lemma_not_same(canon_spec(8).name_zh_short@, k, 0);
    book_9();
    lemma_not_same(canon_spec(9).name_zh_short@, k, 0);
    book_10();
    lemma_not_same(canon_spec(10).name_zh_short@, k, 0);
    book_11();
    lemma_not_same(canon_spec(11).name_zh_short@, k, 0);
    book_12();
    lemma_not_same(canon_spec(12).name_zh_short@, k, 0);
    book_13();
    lemma_not_same(canon_spec(13).name_zh_short@, k, 0);
    book_14();
    book_15();
    assert(first_book_match(k, 15) == first_book_match(k, 16));
    assert(first_book_match(k, 14) == first_book_match(k, 16));
    assert(first_book_match(k, 13) == first_book_match(k, 16));
    assert(first_book_match(k, 12) == first_book_match(k, 16));
    assert(first_book_match(k, 11) == first_book_match(k, 16));
    assert(first_book_match(k, 10) == first_book_match(k, 16));
    assert(first_book_match(k, 9) == first_book_match(k, 16));
    assert(first_book_match(k, 8) == first_book_match(k, 16));
    assert(first_book_match(k, 7) == first_book_match(k, 16));
    assert(first_book_match(k, 6) == first_book_match(k, 16));
    assert(first_book_match(k, 5) == first_book_match(k, 16));
    assert(first_book_match(k, 4) == first_book_match(k, 16));
    assert(first_book_match(k, 3) == first_book_match(k, 16));
    assert(first_book_match(k, 2) == first_book_match(k, 16));
    assert(first_book_match(k, 1) == first_book_match(k, 16));
    assert(first_book_match(k, 0) == first_book_match(k, 16));
}

#[verifier::rlimit(40)]
proof fn misses_abbreviation_63_16()
    ensures
        first_book_match(canon_spec(63).name_zh_short@, 16) == first_book_match(canon_spec(63).name_zh_short@, 32),
{
    book_63();
    let k = canon_spec(63).name_zh_short@;
    book_16();
    book_17();
    book_18();
    lemma_not_eq_ic(canon_spec(18).osis@, k, 0);
    lemma_not_same(canon_spec(18).name_zh@, k, 0);
    book_19();
    lemma_not_same(canon_spec(19).name_zh@, k, 0);
    book_20();
    book_21();
    lemma_not_same(canon_spec(21).name_zh@, k, 0);
    book_22();
    book_23();
    book_24();
    book_25();
    book_26();
    book_27();
    book_28();
    book_29();
    book_30();
    book_31();
    assert(first_book_match(k, 31) == first_book_match(k, 32));
    assert(first_book_match(k, 30) == first_book_match(k, 32));
    assert(first_book_match(k, 29) == first_book_match(k, 32));
    assert(first_book_match(k, 28) == first_book_match(k, 32));
    assert(first_book_match(k, 27) == first_book_match(k, 32));
    assert(first_book_match(k, 26) == first_book_match(k, 32));
    assert(first_book_match(k, 25) == first_book_match(k, 32));
    assert(first_book_match(k, 24) == first_book_match(k, 32));
    assert(first_book_match(k, 23) == first_book_match(k, 32));
    assert(first_book_match(k, 22) == first_book_match(k, 32));
    assert(first_book_match(k, 21) == first_book_match(k, 32));
    assert(first_book_match(k, 20) == first_book_match(k, 32));
    assert(first_book_match(k, 19) == first_book_match(k, 32));
    assert(first_book_match(k, 18) == first_book_match(k, 32));
    assert(first_book_match(k, 17) == first_book_match(k, 32));
    assert(first_book_match(k, 16) == first_book_match(k, 32));
}

#[verifier::rlimit(40)]
proof fn misses_abbreviation_63_32()
    ensures
        first_book_match(canon_spec(63).name_zh_short@, 32) == first_book_match(canon_spec(63).name_zh_short@, 48),
{
    book_63();
    let k = canon_spec(63).name_zh_short@;
    book_32();
    book_33();
    book_34();
    book_35();
    book_36();
    book_37();
    book_38();
    book_39();
    book_40();
    book_41();
    book_42();
    book_43();
    book_44();
    book_45();
    lemma_not_same(canon_spec(45).name_zh_short@, k, 0);
    book_46();
    lemma_not_same(canon_spec(46).name_zh_short@, k, 0);
    book_47();
    assert(first_book_match(k, 47) == first_book_match(k, 48));
    assert(first_book_match(k, 46) == first_book_match(k, 48));
    assert(first_book_match(k, 45) == first_book_match(k, 48));
    assert(first_book_match(k, 44) == first_book_match(k, 48));
    assert(first_book_match(k, 43) == first_book_match(k, 48));
    assert(first_book_match(k, 42) == first_book_match(k, 48));
    assert(first_book_match(k, 41) == first_book_match(k, 48));
    assert(first_book_match(k, 40) == first_book_match(k, 48));
    assert(first_book_match(k, 39) == first_book_match(k, 48));
    assert(first_book_match(k, 38) == first_book_match(k, 48));
    assert(first_book_match(k, 37) == first_book_match(k, 48));
    assert(first_book_match(k, 36) == first_book_match(k, 48));
    assert(first_book_match(k, 35) == first_book_match(k, 48));
    assert(first_book_match(k, 34) == first_book_match(k, 48));
    assert(first_book_match(k, 33) == first_book_match(k, 48));
    assert(first_book_match(k, 32) == first_book_match(k, 48));
}

#[verifier::rlimit(40)]
proof fn misses_abbreviation_63_48()
    ensures
        first_book_match(canon_spec(63).name_zh_short@, 48) == first_book_match(canon_spec(63).name_zh_short@, 63),
{
    book_63();
    let k = canon_spec(63).name_zh_short@;
    book_48();
    book_49();
    book_50();
    book_51();
    lemma_not_same(canon_spec(51).name_zh_short@, k, 0);
    book_52();
    lemma_not_same(canon_spec(52).name_zh_short@, k, 0);
    book_53();
    lemma_not_same(canon_spec(53).name_zh_short@, k, 0);
    book_54();
    lemma_not_same(canon_spec(54).name_zh_short@, k, 0);
    book_55();
    book_56();
    book_57();
    book_58();
    book_59();
    lemma_not_same(canon_spec(59).name_zh_short@, k, 0);
    book_60();
    lemma_not_same(canon_spec(60).name_zh_short@, k, 0);
    book_61();
    lemma_not_same(canon_spec(61).name_zh_short@, k, 1);
    book_62();
    lemma_not_same(canon_spec(62).name_zh_short@, k, 1);
    assert(first_book_match(k, 62) == first_book_match(k, 63));
    assert(first_book_match(k, 61) == first_book_match(k, 63));
    assert(first_book_match(k, 60) == first_book_match(k, 63));
    assert(first_book_match(k, 59) == first_book_match(k, 63));
    assert(first_book_match(k, 58) == first_book_match(k, 63));
    assert(first_book_match(k, 57) == first_book_match(k, 63));
    assert(first_book_match(k, 56) == first_book_match(k, 63));
    assert(first_book_match(k, 55) == first_book_match(k, 63));
    assert(first_book_match(k, 54) == first_book_match(k, 63));
    assert(first_book_match(k, 53) == first_book_match(k, 63));
    assert(first_book_match(k, 52) == first_book_match(k, 63));
    assert(first_book_match(k, 51) == first_book_match(k, 63));
    assert(first_book_match(k, 50) == first_book_match(k, 63));
    assert(first_book_match(k, 49) == first_book_match(k, 63));
    assert(first_book_match(k, 48) == first_book_match(k, 63));
}

proof fn found_by_abbreviation_63()
    ensures
        lookup_canon_spec(canon_spec(63).name_zh_short@) == Some(canon_spec(63)),
{
    book_63();
    let k = canon_spec(63).name_zh_short@;
    lemma_plain_key(k);
    lemma_not_number(k, 0);
    misses_abbreviation_63_0();
    misses_abbreviation_63_16();
    misses_abbreviation_63_32();
    misses_abbreviation_63_48();
    assert(first_book_match(k, 63) == Some(63int));
}

#[verifier::rlimit(40)]
proof fn misses_english_63_0()
    ensures
        first_book_match(canon_spec(63).name_en@, 0) == first_book_match(canon_spec(63).name_en@, 16),
{
    book_63();
    let k = canon_spec(63).name_en@;
    book_0();
    book_1();
    lemma_not_eq_ic(canon_spec(1).name_en@, k, 0);
    book_2();
    book_3();
    book_4();
    book_5();
    lemma_not_eq_ic(canon_spec(5).name_en@, k, 0);
    book_6();
    lemma_not_eq_ic(canon_spec(6).name_en@, k, 0);
    book_7();
    book_8();
    book_9();
    book_10();
    book_11();
    book_12();
    book_13();
    book_14();
    book_15();
    assert(first_book_match(k, 15) == first_book_match(k, 16));
    assert(first_book_match(k, 14) == first_book_match(k, 16));
    assert(first_book_match(k, 13) == first_book_match(k, 16));
    assert(first_book_match(k, 12) == first_book_match(k, 16));
    assert(first_book_match(k, 11) == first_book_match(k, 16));
    assert(first_book_match(k, 10) == first_book_match(k, 16));
    assert(first_book_match(k, 9) == first_book_match(k, 16));
    assert(first_book_match(k, 8) == first_book_match(k, 16));
    assert(first_book_match(k, 7) == first_book_match(k, 16));
    assert(first_book_match(k, 6) == first_book_match(k, 16));
    assert(first_book_match(k, 5) == first_book_match(k, 16));
    assert(first_book_match(k, 4) == first_book_match(k, 16));
    assert(first_book_match(k, 3) == first_book_match(k, 16));
    assert(first_book_match(k, 2) == first_book_match(k, 16));
    assert(first_book_match(k, 1) == first_book_match(k, 16));
    assert(first_book_match(k, 0) == first_book_match(k, 16));
}

#[verifier::rlimit(40)]
proof fn misses_english_63_16()
    ensures
        first_book_match(canon_spec(63).name_en@, 16) == first_book_match(canon_spec(63).name_en@, 32),
{
    book_63();
    let k = canon_spec(63).name_en@;
    book_16();
    lemma_not_eq_ic(canon_spec(16).name_en@, k, 0);
    book_17();
    book_18();
    lemma_not_eq_ic(canon_spec(18).name_en@, k, 0);
    book_19();
    book_20();
    book_21();
    book_22();
    lemma_not_eq_ic(canon_spec(22).name_en@, k, 0);
    book_23();
    book_24();
    book_25();
    book_26();
    lemma_not_eq_ic(canon_spec(26).name_en@, k, 0);
    book_27();
    book_28();
    book_29();
    book_30();
    book_31();
    assert(first_book_match(k, 31) == first_book_match(k, 32));
    assert(first_book_match(k, 30) == first_book_match(k, 32));
    assert(first_book_match(k, 29) == first_book_match(k, 32));
    assert(first_book_match(k, 28) == first_book_match(k, 32));
    assert(first_book_match(k, 27) == first_book_match(k, 32));
    assert(first_book_match(k, 26) == first_book_match(k, 32));
    assert(first_book_match(k, 25) == first_book_match(k, 32));
    assert(first_book_match(k, 24) == first_book_match(k, 32));
    assert(first_book_match(k, 23) == first_book_match(k, 32));
    assert(first_book_match(k, 22) == first_book_match(k, 32));
    assert(first_book_match(k, 21) == first_book_match(k, 32));
    assert(first_book_match(k, 20) == first_book_match(k, 32));
    assert(first_book_match(k, 19) == first_book_match(k, 32));
    assert(first_book_match(k, 18) == first_book_match(k, 32));
    assert(first_book_match(k, 17) == first_book_match(k, 32));
    assert(first_book_match(k, 16) == first_book_match(k, 32));
}

#[verifier::rlimit(40)]
proof fn misses_english_63_32()
    ensures
        first_book_match(canon_spec(63).name_en@, 32) == first_book_match(canon_spec(63).name_en@, 48),
{
    book_63();
    let k = canon_spec(63).name_en@;
    book_32();
    book_33();
    book_34();
    book_35();
    book_36();
    lemma_not_eq_ic(canon_spec(36).name_en@, k, 0);
    book_37();
    book_38();
    book_39();
    book_40();
    book_41();
    book_42();
    book_43();
    book_44();
    lemma_not_eq_ic(canon_spec(44).name_en@, k, 0);
    book_45();
    book_46();
    book_47();
    assert(first_book_match(k, 47) == first_book_match(k, 48));
    assert(first_book_match(k, 46) == first_book_match(k, 48));
    assert(first_book_match(k, 45) == first_book_match(k, 48));
    assert(first_book_match(k, 44) == first_book_match(k, 48));
    assert(first_book_match(k, 43) == first_book_match(k, 48));
    assert(first_book_match(k, 42) == first_book_match(k, 48));
    assert(first_book_match(k, 41) == first_book_match(k, 48));
    assert(first_book_match(k, 40) == first_book_match(k, 48));
    assert(first_book_match(k, 39) == first_book_match(k, 48));
    assert(first_book_match(k, 38) == first_book_match(k, 48));
    assert(first_book_match(k, 37) == first_book_match(k, 48));
    assert(first_book_match(k, 36) == first_book_match(k, 48));
    assert(first_book_match(k, 35) == first_book_match(k, 48));
    assert(first_book_match(k, 34) == first_book_match(k, 48));
    assert(first_book_match(k, 33) == first_book_match(k, 48));
    assert(first_book_match(k, 32) == first_book_match(k, 48));
}

#[verifier::rlimit(40)]
proof fn misses_english_63_48()
    ensures
        first_book_match(canon_spec(63).name_en@, 48) == first_book_match(canon_spec(63).name_en@, 63),
{
    book_63();
    let k = canon_spec(63).name_en@;
    book_48();
    book_49();
    book_50();
    book_51();
    lemma_not_eq_ic(canon_spec(51).osis@, k, 0);
    book_52();
    lemma_not_eq_ic(canon_spec(52).osis@, k, 0);
    book_53();
    book_54();
    book_55();
    book_56();
    book_57();
    book_58();
    book_59();
    book_60();
    book_61();
    lemma_not_eq_ic(canon_spec(61).name_en@, k, 0);
    book_62();
    lemma_not_eq_ic(canon_spec(62).name_en@, k, 0);
    assert(first_book_match(k, 62) == first_book_match(k, 63));
    assert(first_book_match(k, 61) == first_book_match(k, 63));
    assert(first_book_match(k, 60) == first_book_match(k, 63));
    assert(first_book_match(k, 59) == first_book_match(k, 63));
    assert(first_book_match(k, 58) == first_book_match(k, 63));
    assert(first_book_match(k, 57) == first_book_match(k, 63));
    assert(first_book_match(k, 56) == first_book_match(k, 63));
    assert(first_book_match(k, 55) == first_book_match(k, 63));
    assert(first_book_match(k, 54) == first_book_match(k, 63));
    assert(first_book_match(k, 53) == first_book_match(k, 63));
    assert(first_book_match(k, 52) == first_book_match(k, 63));
    assert(first_book_match(k, 51) == first_book_match(k, 63));
    assert(first_book_match(k, 50) == first_book_match(k, 63));
    assert(first_book_match(k, 49) == first_book_match(k, 63));
    assert(first_book_match(k, 48) == first_book_match(k, 63));
}

proof fn found_by_english_63()
    ensures
        lookup_canon_spec(canon_spec(63).name_en@) == Some(canon_spec(63)),
{
    book_63();
    let k = canon_spec(63).name_en@;
    lemma_plain_key(k);
    lemma_not_number(k, 1);
    misses_english_63_0();
    misses_english_63_16();
    misses_english_63_32();
    misses_english_63_48();
    assert(first_book_match(k, 63) == Some(63int));
}

#[verifier::rlimit(40)]
proof fn misses_osis_64_0()
    ensures
        first_book_match(canon_spec(64).osis@, 0) == first_book_match(canon_spec(64).osis@, 16),
{
    book_64();
    let k = canon_spec(64).osis@;
    book_0();
    book_1();
    lemma_not_eq_ic(canon_spec(1).osis@, k, 0);
    lemma_not_same(canon_spec(1).name_zh@, k, 0);
    book_2();
    book_3();
    book_4();
    lemma_not_eq_ic(canon_spec(4).osis@, k, 0);
    book_5();
    lemma_not_eq_ic(canon_spec(5).osis@, k, 1);
    lemma_not_same(canon_spec(5).name_zh@, k, 0);
    book_6();
    lemma_not_eq_ic(canon_spec(6).osis@, k, 3);
    book_7();
    lemma_not_eq_ic(canon_spec(7).osis@, k, 0);
    lemma_not_eq_ic(canon_spec(7).name_en@, k, 0);
    book_8();
    lemma_not_eq_ic(canon_spec(8).osis@, k, 0);
    book_9();
    lemma_not_eq_ic(canon_spec(9).osis@, k, 0);
    book_10();
    lemma_not_eq_ic(canon_spec(10).osis@, k, 0);
    lemma_not_same(canon_spec(10).name_zh@, k, 0);
    book_11();
    lemma_not_eq_ic(canon_spec(11).osis@, k, 0);
    lemma_not_same(canon_spec(11).name_zh@, k, 0);
    book_12();
    lemma_not_eq_ic(canon_spec(12).osis@, k, 0);
    lemma_not_same(canon_spec(12).name_zh@, k, 0);
    book_13();
    lemma_not_eq_ic(canon_spec(13).osis@, k, 0);
    lemma_not_same(canon_spec(13).name_zh@, k, 0);
    book_14();
    lemma_not_eq_ic(canon_spec(14).osis@, k, 0);
    lemma_not_same(canon_spec(14).name_zh@, k, 0);
    lemma_not_eq_ic(canon_spec(14).name_en@, k, 0);
    book_15();
    lemma_not_same(canon_spec(15).name_zh@, k, 0);
    assert(first_book_match(k, 15) == first_book_match(k, 16));
    assert(first_book_match(k, 14) == first_book_match(k, 16));
    assert(first_book_match(k, 13) == first_book_match(k, 16));
    assert(first_book_match(k, 12) == first_book_match(k, 16));
    assert(first_book_match(k, 11) == first_book_match(k, 16));
    assert(first_book_match(k, 10) == first_book_match(k, 16));
    assert(first_book_match(k, 9) == first_book_match(k, 16));
    assert(first_book_match(k, 8) == first_book_match(k, 16));
    assert(first_book_match(k, 7) == first_book_match(k, 16));
    assert(first_book_match(k, 6) == first_book_match(k, 16));
    assert(first_book_match(k, 5) == first_book_match(k, 16));
    assert(first_book_match(k, 4) == first_book_match(k, 16));
    assert(first_book_match(k, 3) == first_book_match(k, 16));
    assert(first_book_match(k, 2) == first_book_match(k, 16));
    assert(first_book_match(k, 1) == first_book_match(k, 16));
    assert(first_book_match(k, 0) == first_book_match(k, 16));
}

#[verifier::rlimit(40)]
proof fn misses_osis_64_16()
    ensures
        first_book_match(canon_spec(64).osis@, 16) == first_book_match(canon_spec(64).osis@, 32),
{
    book_64();
    let k = canon_spec(64).osis@;
    book_16();
    lemma_not_eq_ic(canon_spec(16).osis@, k, 0);
    lemma_not_same(canon_spec(16).name_zh@, k, 0);
    book_17();
    book_18();
    book_19();
    lemma_not_eq_ic(canon_spec(19).osis@, k, 0);
    book_20();
    lemma_not_eq_ic(canon_spec(20).osis@, k, 0);
    book_21();
    lemma_not_eq_ic(canon_spec(21).osis@, k, 0);
    book_22();
    lemma_not_same(canon_spec(22).name_zh@, k, 0);
    book_23();
    lemma_not_same(canon_spec(23).name_zh@, k, 0);
    book_24();
    book_25();
    lemma_not_eq_ic(canon_spec(25).osis@, k, 0);
    lemma_not_same(canon_spec(25).name_zh@, k, 0);
    book_26();
    lemma_not_same(canon_spec(26).name_zh@, k, 0);
    book_27();
    lemma_not_same(canon_spec(27).name_zh@, k, 0);
    book_28();
    lemma_not_eq_ic(canon_spec(28).osis@, k, 1);
    lemma_not_eq_ic(canon_spec(28).name_en@, k, 1);
    book_29();
    lemma_not_eq_ic(canon_spec(29).osis@, k, 0);
    lemma_not_same(canon_spec(29).name_zh@, k, 0);
    lemma_not_eq_ic(canon_spec(29).name_en@, k, 0);
    book_30();
    lemma_not_eq_ic(canon_spec(30).osis@, k, 0);
    book_31();
    assert(first_book_match(k, 31) == first_book_match(k, 32));
    assert(first_book_match(k, 30) == first_book_match(k, 32));
    assert(first_book_match(k, 29) == first_book_match(k, 32));
    assert(first_book_match(k, 28) == first_book_match(k, 32));
    assert(first_book_match(k, 27) == first_book_match(k, 32));
    assert(first_book_match(k, 26) == first_book_match(k, 32));
    assert(first_book_match(k, 25) == first_book_match(k, 32));
    assert(first_book_match(k, 24) == first_book_match(k, 32));
    assert(first_book_match(k, 23) == first_book_match(k, 32));
    assert(first_book_match(k, 22) == first_book_match(k, 32));
    assert(first_book_match(k, 21) == first_book_match(k, 32));
    assert(first_book_match(k, 20) == first_book_match(k, 32));
    assert(first_book_match(k, 19) == first_book_match(k, 32));
    assert(first_book_match(k, 18) == first_book_match(k, 32));
    assert(first_book_match(k, 17) == first_book_match(k, 32));
    assert(first_book_match(k, 16) == first_book_match(k, 32));
}

#[verifier::rlimit(40)]
proof fn misses_osis_64_32()
    ensures
        first_book_match(canon_spec(64).osis@, 32) == first_book_match(canon_spec(64).osis@, 48),
{
    book_64();
    let k = canon_spec(64).osis@;
    book_32();
    book_33();
    book_34();
    lemma_not_same(canon_spec(34).name_zh@, k, 0);
    book_35();
    lemma_not_eq_ic(canon_spec(35).osis@, k, 0);
    lemma_not_same(canon_spec(35).name_zh@, k, 0);
    book_36();
    book_37();
    lemma_not_eq_ic(canon_spec(37).osis@, k, 0);
    book_38();
    lemma_not_same(canon_spec(38).name_zh@, k, 0);
    book_39();
    lemma_not_eq_ic(canon_spec(39).osis@, k, 0);
    lemma_not_same(canon_spec(39).name_zh@, k, 0);
    book_40();
    lemma_not_eq_ic(canon_spec(40).osis@, k, 0);
    lemma_not_same(canon_spec(40).name_zh@, k, 0);
    lemma_not_eq_ic(canon_spec(40).name_en@, k, 0);
    book_41();
    lemma_not_eq_ic(canon_spec(41).osis@, k, 0);
    lemma_not_same(canon_spec(41).name_zh@, k, 0);
    lemma_not_eq_ic(canon_spec(41).name_en@, k, 0);
    book_42();
    lemma_not_eq_ic(canon_spec(42).osis@, k, 1);
    lemma_not_same(canon_spec(42).name_zh@, k, 0);
    lemma_not_eq_ic(canon_spec(42).name_en@, k, 1);
    book_43();
    lemma_not_eq_ic(canon_spec(43).osis@, k, 0);
    lemma_not_same(canon_spec(43).name_zh@, k, 0);
    lemma_not_eq_ic(canon_spec(43).name_en@, k, 0);
    book_44();
    book_45();
    lemma_not_eq_ic(canon_spec(45).osis@, k, 0);
    book_46();
    lemma_not_eq_ic(canon_spec(46).osis@, k, 0);
    book_47();
    lemma_not_same(canon_spec(47).name_zh@, k, 0);
    assert(first_book_match(k, 47) == first_book_match(k, 48));
    assert(first_book_match(k, 46) == first_book_match(k, 48));
    assert(first_book_match(k, 45) == first_book_match(k, 48));
    assert(first_book_match(k, 44) == first_book_match(k, 48));
    assert(first_book_match(k, 43) == first_book_match(k, 48));
    assert(first_book_match(k, 42) == first_book_match(k, 48));
    assert(first_book_match(k, 41) == first_book_match(k, 48));
    assert(first_book_match(k, 40) == first_book_match(k, 48));
    assert(first_book_match(k, 39) == first_book_match(k, 48));
    assert(first_book_match(k, 38) == first_book_match(k, 48));
    assert(first_book_match(k, 37) == first_book_match(k, 48));
    assert(first_book_match(k, 36) == first_book_match(k, 48));
    assert(first_book_match(k, 35) == first_book_match(k, 48));
    assert(first_book_match(k, 34) == first_book_match(k, 48));
    assert(first_book_match(k, 33) == first_book_match(k, 48));
    assert(first_book_match(k, 32) == first_book_match(k, 48));
}

#[verifier::rlimit(40)]
proof fn misses_osis_64_48()
    ensures
        first_book_match(canon_spec(64).osis@, 48) == first_book_match(canon_spec(64).osis@, 64),
{
    book_64();
    let k = canon_spec(64).osis@;
    book_48();
    lemma_not_same(canon_spec(48).name_zh@, k, 0);
    book_49();
    lemma_not_eq_ic(canon_spec(49).osis@, k, 0);
    lemma_not_same(canon_spec(49).name_zh@, k, 0);
    book_50();
    lemma_not_same(canon_spec(50).name_zh@, k, 0);
    book_51();
    book_52();
    book_53();
    lemma_not_eq_ic(canon_spec(53).osis@, k, 0);
    book_54();
    lemma_not_eq_ic(canon_spec(54).osis@, k, 0);
    book_55();
    book_56();
    lemma_not_eq_ic(canon_spec(56).osis@, k, 0);
    lemma_not_same(canon_spec(56).name_zh@, k, 0);
    book_57();
    lemma_not_same(canon_spec(57).name_zh@, k, 0);
    book_58();
    book_59();
    lemma_not_eq_ic(canon_spec(59).osis@, k, 0);
    lemma_not_same(canon_spec(59).name_zh@, k, 0);
    book_60();
    lemma_not_eq_ic(canon_spec(60).osis@, k, 0);
    lemma_not_same(canon_spec(60).name_zh@, k, 0);
    book_61();
    lemma_not_same(canon_spec(61).name_zh@, k, 0);
    book_62();
    lemma_not_same(canon_spec(62).name_zh@, k, 0);
    book_63();
    lemma_not_same(canon_spec(63).name_zh@, k, 0);
    assert(first_book_match(k, 63) == first_book_match(k, 64));
    assert(first_book_match(k, 62) == first_book_match(k, 64));
    assert(first_book_match(k, 61) == first_book_match(k, 64));
    assert(first_book_match(k, 60) == first_book_match(k, 64));
    assert(first_book_match(k, 59) == first_book_match(k, 64));
    assert(first_book_match(k, 58) == first_book_match(k, 64));
    assert(first_book_match(k, 57) == first_book_match(k, 64));
    assert(first_book_match(k, 56) == first_book_match(k, 64));
    assert(first_book_match(k, 55) == first_book_match(k, 64));
    assert(first_book_match(k, 54) == first_book_match(k, 64));
    assert(first_book_match(k, 53) == first_book_match(k, 64));
    assert(first_book_match(k, 52) == first_book_match(k, 64));
    assert(first_book_match(k, 51) == first_book_match(k, 64));
    assert(first_book_match(k, 50) == first_book_match(k, 64));
    assert(first_book_match(k, 49) == first_book_match(k, 64));
    assert(first_book_match(k, 48) == first_book_match(k, 64));
}

proof fn found_by_osis_64()
    ensures
        lookup_canon_spec(canon_spec(64).osis@) == Some(canon_spec(64)),
{
    book_64();
    let k = canon_spec(64).osis@;
    lemma_plain_key(k);
    lemma_not_number(k, 0);
    misses_osis_64_0();
    misses_osis_64_16();
    misses_osis_64_32();
    misses_osis_64_48();
    assert(first_book_match(k, 64) == Some(64int));
}

#[verifier::rlimit(40)]
proof fn misses_abbreviation_64_0()
    ensures
        first_book_match(canon_spec(64).name_zh_short@, 0) == first_book_match(canon_spec(64).name_zh_short@, 16),
{
    book_64();
    let k = canon_spec(64).name_zh_short@;
    book_0();
    lemma_not_same(canon_spec(0).name_zh_short@, k, 0);
    book_1();
    lemma_not_same(canon_spec(1).name_zh_short@, k, 0);
    book_2();
    lemma_not_same(canon_spec(2).name_zh_short@, k, 0);
    book_3();
    lemma_not_same(canon_spec(3).name_zh_short@, k, 0);
    book_4();
    lemma_not_same(canon_spec(4).name_zh_short@, k, 0);
    book_5();
    lemma_not_same(canon_spec(5).name_zh_short@, k, 0);
    book_6();
    lemma_not_same(canon_spec(6).name_zh_short@, k, 0);
    book_7();
    lemma_not_same(canon_spec(7).name_zh_short@, k, 0);
    book_8();
    book_9();
    book_10();
    book_11();
    book_12();
    book_13();
    book_14();
    lemma_not_same(canon_spec(14).name_zh_short@, k, 0);
    book_15();
    lemma_not_same(canon_spec(15).name_zh_short@, k, 0);
    assert(first_book_match(k, 15) == first_book_match(k, 16));
    assert(first_book_match(k, 14) == first_book_match(k, 16));
    assert(first_book_match(k, 13) == first_book_match(k, 16));
    assert(first_book_match(k, 12) == first_book_match(k, 16));
    assert(first_book_match(k, 11) == first_book_match(k, 16));
    assert(first_book_match(k, 10) == first_book_match(k, 16));
    assert(first_book_match(k, 9) == first_book_match(k, 16));
    assert(first_book_match(k, 8) == first_book_match(k, 16));
    assert(first_book_match(k, 7) == first_book_match(k, 16));
    assert(first_book_match(k, 6) == first_book_match(k, 16));
    assert(first_book_match(k, 5) == first_book_match(k, 16));
    assert(first_book_match(k, 4) == first_book_match(k, 16));
    assert(first_book_match(k, 3) == first_book_match(k, 16));
    assert(first_book_match(k, 2) == first_book_match(k, 16));
    assert(first_book_match(k, 1) == first_book_match(k, 16));
    assert(first_book_match(k, 0) == first_book_match(k, 16));
}

#[verifier::rlimit(40)]
proof fn misses_abbreviation_64_16()
    ensures
        first_book_match(canon_spec(64).name_zh_short@, 16) == first_book_match(canon_spec(64).name_zh_short@, 32),
{
    book_64();
    let k = canon_spec(64).name_zh_short@;
    book_16();
    lemma_not_same(canon_spec(16).name_zh_short@, k, 0);
    book_17();
    lemma_not_same(canon_spec(17).name_zh_short@, k, 0);
    book_18();
    lemma_not_same(canon_spec(18).name_zh_short@, k, 0);
    book_19();
    lemma_not_same(canon_spec(19).name_zh_short@, k, 0);
    book_20();
    lemma_not_same(canon_spec(20).name_zh_short@, k, 0);
    book_21();
    lemma_not_same(canon_spec(21).name_zh_short@, k, 0);
    book_22();
    lemma_not_same(canon_spec(22).name_zh_short@, k, 0);
    book_23();
    lemma_not_same(canon_spec(23).name_zh_short@, k, 0);
    book_24();
    lemma_not_same(canon_spec(24).name_zh_short@, k, 0);
    book_25();
    lemma_not_same(canon_spec(25).name_zh_short@, k, 0);
    book_26();
    lemma_not_same(canon_spec(26).name_zh_short@, k, 0);
    book_27();
    lemma_not_same(canon_spec(27).name_zh_short@, k, 0);
    book_28();
    lemma_not_same(canon_spec(28).name_zh_short@, k, 0);
    book_29();
    lemma_not_same(canon_spec(29).name_zh_short@, k, 0);
    book_30();
    lemma_not_same(canon_spec(30).name_zh_short@, k, 0);
    book_31();
    lemma_not_same(canon_spec(31).name_zh_short@, k, 0);
    assert(first_book_match(k, 31) == first_book_match(k, 32));
    assert(first_book_match(k, 30) == first_book_match(k, 32));
    assert(first_book_match(k, 29) == first_book_match(k, 32));
    assert(first_book_match(k, 28) == first_book_match(k, 32));
    assert(first_book_match(k, 27) == first_book_match(k, 32));
    assert(first_book_match(k, 26) == first_book_match(k, 32));
    assert(first_book_match(k, 25) == first_book_match(k, 32));
    assert(first_book_match(k, 24) == first_book_match(k, 32));
    assert(first_book_match(k, 23) == first_book_match(k, 32));
    assert(first_book_match(k, 22) == first_book_match(k, 32));
    assert(first_book_match(k, 21) == first_book_match(k, 32));
    assert(first_book_match(k, 20) == first_book_match(k, 32));
    assert(first_book_match(k, 19) == first_book_match(k, 32));
    assert(first_book_match(k, 18) == first_book_match(k, 32));
    assert(first_book_match(k, 17) == first_book_match(k, 32));
    assert(first_book_match(k, 16) == first_book_match(k, 32));
}

#[verifier::rlimit(40)]
proof fn misses_abbreviation_64_32()
    ensures
        first_book_match(canon_spec(64).name_zh_short@, 32) == first_book_match(canon_spec(64).name_zh_short@, 48),
{
    book_64();
    let k = canon_spec(64).name_zh_short@;
    book_32();
    lemma_not_same(canon_spec(32).name_zh_short@, k, 0);
    book_33();
    lemma_not_same(canon_spec(33).name_zh_short@, k, 0);
    book_34();
    lemma_not_same(canon_spec(34).name_zh_short@, k, 0);
    book_35();
    lemma_not_same(canon_spec(35).name_zh_short@, k, 0);
    book_36();
    lemma_not_same(canon_spec(36).name_zh_short@, k, 0);
    book_37();
    lemma_not_same(canon_spec(37).name_zh_short@, k, 0);
    book_38();
    lemma_not_same(canon_spec(38).name_zh_short@, k, 0);
    book_39();
    lemma_not_same(canon_spec(39).name_zh_short@, k, 0);
    book_40();
    lemma_not_same(canon_spec(40).name_zh_short@, k, 0);
    book_41();
    lemma_not_same(canon_spec(41).name_zh_short@, k, 0);
    book_42();
    lemma_not_same(canon_spec(42).name_zh_short@, k, 0);
    book_43();
    lemma_not_same(canon_spec(43).name_zh_short@, k, 0);
    book_44();
    lemma_not_same(canon_spec(44).name_zh_short@, k, 0);
    book_45();
    book_46();
    book_47();
    lemma_not_same(canon_spec(47).name_zh_short@, k, 0);
    assert(first_book_match(k, 47) == first_book_match(k, 48));
    assert(first_book_match(k, 46) == first_book_match(k, 48));
    assert(first_book_match(k, 45) == first_book_match(k, 48));
    assert(first_book_match(k, 44) == first_book_match(k, 48));
    assert(first_book_match(k, 43) == first_book_match(k, 48));
    assert(first_book_match(k, 42) == first_book_match(k, 48));
    assert(first_book_match(k, 41) == first_book_match(k, 48));
    assert(first_book_match(k, 40) == first_book_match(k, 48));
    assert(first_book_match(k, 39) == first_book_match(k, 48));
    assert(first_book_match(k, 38) == first_book_match(k, 48));
    assert(first_book_match(k, 37) == first_book_match(k, 48));
    assert(first_book_match(k, 36) == first_book_match(k, 48));
    assert(first_book_match(k, 35) == first_book_match(k, 48));
    assert(first_book_match(k, 34) == first_book_match(k, 48));
    assert(first_book_match(k, 33) == first_book_match(k, 48));
    assert(first_book_match(k, 32) == first_book_match(k, 48));
}

#[verifier::rlimit(40)]
proof fn misses_abbreviation_64_48()
    ensures
        first_book_match(canon_spec(64).name_zh_short@, 48) == first_book_match(canon_spec(64).name_zh_short@, 64),
{
    book_64();
    let k = canon_spec(64).name_zh_short@;
    book_48();
    lemma_not_same(canon_spec(48).name_zh_short@, k, 0);
    book_49();
    lemma_not_same(canon_spec(49).name_zh_short@, k, 0);
    book_50();
    lemma_not_same(canon_spec(50).name_zh_short@, k, 0);
    book_51();
    book_52();
    book_53();
    book_54();
    book_55();
    lemma_not_same(canon_spec(55).name_zh_short@, k, 0);
    book_56();
    lemma_not_same(canon_spec(56).name_zh_short@, k, 0);
    book_57();
    lemma_not_same(canon_spec(57).name_zh_short@, k, 0);
    book_58();
    lemma_not_same(canon_spec(58).name_zh_short@, k, 0);
    book_59();
    book_60();
    book_61();
    book_62();
    book_63();
    assert(first_book_match(k, 63) == first_book_match(k, 64));
    assert(first_book_match(k, 62) == first_book_match(k, 64));
    assert(first_book_match(k, 61) == first_book_match(k, 64));
    assert(first_book_match(k, 60) == first_book_match(k, 64));
    assert(first_book_match(k, 59) == first_book_match(k, 64));
    assert(first_book_match(k, 58) == first_book_match(k, 64));
    assert(first_book_match(k, 57) == first_book_match(k, 64));
    assert(first_book_match(k, 56) == first_book_match(k, 64));
    assert(first_book_match(k, 55) == first_book_match(k, 64));
    assert(first_book_match(k, 54) == first_book_match(k, 64));
    assert(first_book_match(k, 53) == first_book_match(k, 64));
    assert(first_book_match(k, 52) == first_book_match(k, 64));
    assert(first_book_match(k, 51) == first_book_match(k, 64));
    assert(first_book_match(k, 50) == first_book_match(k, 64));
    assert(first_book_match(k, 49) == first_book_match(k, 64));
    assert(first_book_match(k, 48) == first_book_match(k, 64));
}

proof fn found_by_abbreviation_64()
    ensures
        lookup_canon_spec(canon_spec(64).name_zh_short@) == Some(canon_spec(64)),
{
    book_64();
    let k = canon_spec(64).name_zh_short@;
    lemma_plain_key(k);
    lemma_not_number(k, 0);
    misses_abbreviation_64_0();
    misses_abbreviation_64_16();
    misses_abbreviation_64_32();
    misses_abbreviation_64_48();
    assert(first_book_match(k, 64) == Some(64int));
}

#[verifier::rlimit(40)]
proof fn misses_english_64_0()
    ensures
        first_book_match(canon_spec(64).name_en@, 0) == first_book_match(canon_spec(64).name_en@, 16),
{
    book_64();
    let k = canon_spec(64).name_en@;
    book_0();
    book_1();
    lemma_not_eq_ic(canon_spec(1).osis@, k, 0);
    lemma_not_same(canon_spec(1).name_zh@, k, 0);
    book_2();
    book_3();
    book_4();
    lemma_not_eq_ic(canon_spec(4).osis@, k, 0);
    book_5();
    lemma_not_eq_ic(canon_spec(5).osis@, k, 1);
    lemma_not_same(canon_spec(5).name_zh@, k, 0);
    book_6();
    lemma_not_eq_ic(canon_spec(6).osis@, k, 3);
    book_7();
    lemma_not_eq_ic(canon_spec(7).osis@, k, 0);
    lemma_not_eq_ic(canon_spec(7).name_en@, k, 0);
    book_8();
    lemma_not_eq_ic(canon_spec(8).osis@, k, 0);
    book_9();
    lemma_not_eq_ic(canon_spec(9).osis@, k, 0);
    book_10();
    lemma_not_eq_ic(canon_spec(10).osis@, k, 0);
    lemma_not_same(canon_spec(10).name_zh@, k, 0);
    book_11();
    lemma_not_eq_ic(canon_spec(11).osis@, k, 0);
    lemma_not_same(canon_spec(11).name_zh@, k, 0);
    book_12();
    lemma_not_eq_ic(canon_spec(12).osis@, k, 0);
    lemma_not_same(canon_spec(12).name_zh@, k, 0);
    book_13();
    lemma_not_eq_ic(canon_spec(13).osis@, k, 0);
    lemma_not_same(canon_spec(13).name_zh@, k, 0);
    book_14();
    lemma_not_eq_ic(canon_spec(14).osis@, k, 0);
    lemma_not_same(canon_spec(14).name_zh@, k, 0);
    lemma_not_eq_ic(canon_spec(14).name_en@, k, 0);
    book_15();
    lemma_not_same(canon_spec(15).name_zh@, k, 0);
    assert(first_book_match(k, 15) == first_book_match(k, 16));
    assert(first_book_match(k, 14) == first_book_match(k, 16));
    assert(first_book_match(k, 13) == first_book_match(k, 16));
    assert(first_book_match(k, 12) == first_book_match(k, 16));
    assert(first_book_match(k, 11) == first_book_match(k, 16));
    assert(first_book_match(k, 10) == first_book_match(k, 16));
    assert(first_book_match(k, 9) == first_book_match(k, 16));
    assert(first_book_match(k, 8) == first_book_match(k, 16));
    assert(first_book_match(k, 7) == first_book_match(k, 16));
    assert(first_book_match(k, 6) == first_book_match(k, 16));
    assert(first_book_match(k, 5) == first_book_match(k, 16));
    assert(first_book_match(k, 4) == first_book_match(k, 16));
    assert(first_book_match(k, 3) == first_book_match(k, 16));
    assert(first_book_match(k, 2) == first_book_match(k, 16));
    assert(first_book_match(k, 1) == first_book_match(k, 16));
    assert(first_book_match(k, 0) == first_book_match(k, 16));
}

#[verifier::rlimit(40)]
proof fn misses_english_64_16()
    ensures
        first_book_match(canon_spec(64).name_en@, 16) == first_book_match(canon_spec(64).name_en@, 32),
{
    book_64();
    let k = canon_spec(64).name_en@;
    book_16();
    lemma_not_eq_ic(canon_spec(16).osis@, k, 0);
    lemma_not_same(canon_spec(16).name_zh@, k, 0);
    book_17();
    book_18();
    book_19();
    lemma_not_eq_ic(canon_spec(19).osis@, k, 0);
    book_20();
    lemma_not_eq_ic(canon_spec(20).osis@, k, 0);
    book_21();
    lemma_not_eq_ic(canon_spec(21).osis@, k, 0);
    book_22();
    lemma_not_same(canon_spec(22).name_zh@, k, 0);
    book_23();
    lemma_not_same(canon_spec(23).name_zh@, k, 0);
    book_24();
    book_25();
    lemma_not_eq_ic(canon_spec(25).osis@, k, 0);
    lemma_not_same(canon_spec(25).name_zh@, k, 0);
    book_26();
    lemma_not_same(canon_spec(26).name_zh@, k, 0);
    book_27();
    lemma_not_same(canon_spec(27).name_zh@, k, 0);
    book_28();
    lemma_not_eq_ic(canon_spec(28).osis@, k, 1);
    lemma_not_eq_ic(canon_spec(28).name_en@, k, 1);
    book_29();
    lemma_not_eq_ic(canon_spec(29).osis@, k, 0);
    lemma_not_same(canon_spec(29).name_zh@, k, 0);
    lemma_not_eq_ic(canon_spec(29).name_en@, k, 0);
    book_30();
    lemma_not_eq_ic(canon_spec(30).osis@, k, 0);
    book_31();
    assert(first_book_match(k, 31) == first_book_match(k, 32));
    assert(first_book_match(k, 30) == first_book_match(k, 32));
    assert(first_book_match(k, 29) == first_book_match(k, 32));
    assert(first_book_match(k, 28) == first_book_match(k, 32));
    assert(first_book_match(k, 27) == first_book_match(k, 32));
    assert(first_book_match(k, 26) == first_book_match(k, 32));
    assert(first_book_match(k, 25) == first_book_match(k, 32));
    assert(first_book_match(k, 24) == first_book_match(k, 32));
    assert(first_book_match(k, 23) == first_book_match(k, 32));
    assert(first_book_match(k, 22) == first_book_match(k, 32));
    assert(first_book_match(k, 21) == first_book_match(k, 32));
    assert(first_book_match(k, 20) == first_book_match(k, 32));
    assert(first_book_match(k, 19) == first_book_match(k, 32));
    assert(first_book_match(k, 18) == first_book_match(k, 32));
    assert(first_book_match(k, 17) == first_book_match(k, 32));
    assert(first_book_match(k, 16) == first_book_match(k, 32));
}

#[verifier::rlimit(40)]
proof fn misses_english_64_32()
    ensures
        first_book_match(canon_spec(64).name_en@, 32) == first_book_match(canon_spec(64).name_en@, 48),
{
    book_64();
    let k = canon_spec(64).name_en@;
    book_32();
    book_33();
    book_34();
    lemma_not_same(canon_spec(34).name_zh@, k, 0);
    book_35();
    lemma_not_eq_ic(canon_spec(35).osis@, k, 0);
    lemma_not_same(canon_spec(35).name_zh@, k, 0);
    book_36();
    book_37();
    lemma_not_eq_ic(canon_spec(37).osis@, k, 0);
    book_38();
    lemma_not_same(canon_spec(38).name_zh@, k, 0);
    book_39();
    lemma_not_eq_ic(canon_spec(39).osis@, k, 0);
    lemma_not_same(canon_spec(39).name_zh@, k, 0);
    book_40();
    lemma_not_eq_ic(canon_spec(40).osis@, k, 0);
    lemma_not_same(canon_spec(40).name_zh@, k, 0);
    lemma_not_eq_ic(canon_spec(40).name_en@, k, 0);
    book_41();
    lemma_not_eq_ic(canon_spec(41).osis@, k, 0);
    lemma_not_same(canon_spec(41).name_zh@, k, 0);
    lemma_not_eq_ic(canon_spec(41).name_en@, k, 0);
    book_42();
    lemma_not_eq_ic(canon_spec(42).osis@, k, 1);
    lemma_not_same(canon_spec(42).name_zh@, k, 0);
    lemma_not_eq_ic(canon_spec(42).name_en@, k, 1);
    book_43();
    lemma_not_eq_ic(canon_spec(43).osis@, k, 0);
    lemma_not_same(canon_spec(43).name_zh@, k, 0);
    lemma_not_eq_ic(canon_spec(43).name_en@, k, 0);
    book_44();
    book_45();
    lemma_not_eq_ic(canon_spec(45).osis@, k, 0);
    book_46();
    lemma_not_eq_ic(canon_spec(46).osis@, k, 0);
    book_47();
    lemma_not_same(canon_spec(47).name_zh@, k, 0);
    assert(first_book_match(k, 47) == first_book_match(k, 48));
    assert(first_book_match(k, 46) == first_book_match(k, 48));
    assert(first_book_match(k, 45) == first_book_match(k, 48));
    assert(first_book_match(k, 44) == first_book_match(k, 48));
    assert(first_book_match(k, 43) == first_book_match(k, 48));
    assert(first_book_match(k, 42) == first_book_match(k, 48));
    assert(first_book_match(k, 41) == first_book_match(k, 48));
    assert(first_book_match(k, 40) == first_book_match(k, 48));
    assert(first_book_match(k, 39) == first_book_match(k, 48));
    assert(first_book_match(k, 38) == first_book_match(k, 48));
    assert(first_book_match(k, 37) == first_book_match(k, 48));
    assert(first_book_match(k, 36) == first_book_match(k, 48));
    assert(first_book_match(k, 35) == first_book_match(k, 48));
    assert(first_book_match(k, 34) == first_book_match(k, 48));
    assert(first_book_match(k, 33) == first_book_match(k, 48));
    assert(first_book_match(k, 32) == first_book_match(k, 48));
}

#[verifier::rlimit(40)]
proof fn misses_english_64_48()
    ensures
        first_book_match(canon_spec(64).name_en@, 48) == first_book_match(canon_spec(64).name_en@, 64),
{
    book_64();
    let k = canon_spec(64).name_en@;
    book_48();
    lemma_not_same(canon_spec(48).name_zh@, k, 0);
    book_49();
    lemma_not_eq_ic(canon_spec(49).osis@, k, 0);
    lemma_not_same(canon_spec(49).name_zh@, k, 0);
    book_50();
    lemma_not_same(canon_spec(50).name_zh@, k, 0);
    book_51();
    book_52();
    book_53();
    lemma_not_eq_ic(canon_spec(53).osis@, k, 0);
    book_54();
    lemma_not_eq_ic(canon_spec(54).osis@, k, 0);
    book_55();
    book_56();
    lemma_not_eq_ic(canon_spec(56).osis@, k, 0);
    lemma_not_same(canon_spec(56).name_zh@, k, 0);
    book_57();
    lemma_not_same(canon_spec(57).name_zh@, k, 0);
    book_58();
    book_59();
    lemma_not_eq_ic(canon_spec(59).osis@, k, 0);
    lemma_not_same(canon_spec(59).name_zh@, k, 0);
    book_60();
    lemma_not_eq_ic(canon_spec(60).osis@, k, 0);
    lemma_not_same(canon_spec(60).name_zh@, k, 0);
    book_61();
    lemma_not_same(canon_spec(61).name_zh@, k, 0);
    book_62();
    lemma_not_same(canon_spec(62).name_zh@, k, 0);
    book_63();
    lemma_not_same(canon_spec(63).name_zh@, k, 0);
    assert(first_book_match(k, 63) == first_book_match(k, 64));
    assert(first_book_match(k, 62) == first_book_match(k, 64));
    assert(first_book_match(k, 61) == first_book_match(k, 64));
    assert(first_book_match(k, 60) == first_book_match(k, 64));
    assert(first_book_match(k, 59) == first_book_match(k, 64));
    assert(first_book_match(k, 58) == first_book_match(k, 64));
    assert(first_book_match(k, 57) == first_book_match(k, 64));
    assert(first_book_match(k, 56) == first_book_match(k, 64));
    assert(first_book_match(k, 55) == first_book_match(k, 64));
    assert(first_book_match(k, 54) == first_book_match(k, 64));
    assert(first_book_match(k, 53) == first_book_match(k, 64));
    assert(first_book_match(k, 52) == first_book_match(k, 64));
    assert(first_book_match(k, 51) == first_book_match(k, 64));
    assert(first_book_match(k, 50) == first_book_match(k, 64));
    assert(first_book_match(k, 49) == first_book_match(k, 64));
    assert(first_book_match(k, 48) == first_book_match(k, 64));
}

proof fn found_by_english_64()
    ensures
        lookup_canon_spec(canon_spec(64).name_en@) == Some(canon_spec(64)),
{
    book_64();
    let k = canon_spec(64).name_en@;
    lemma_plain_key(k);
    lemma_not_number(k, 0);
    misses_english_64_0();
    misses_english_64_16();
    misses_english_64_32();
    misses_english_64_48();
    assert(first_book_match(k, 64) == Some(64int));
}

#[verifier::rlimit(40)]
proof fn misses_osis_65_0()
    ensures
        first_book_match(canon_spec(65).osis@, 0) == first_book_match(canon_spec(65).osis@, 16),
{
    book_65();
    let k = canon_spec(65).osis@;
    book_0();
    lemma_not_eq_ic(canon_spec(0).osis@, k, 0);
    lemma_not_same(canon_spec(0).name_zh@, k, 0);
    book_1();
    book_2();
    lemma_not_eq_ic(canon_spec(2).osis@, k, 0);
    lemma_not_same(canon_spec(2).name_zh@, k, 0);
    book_3();
    lemma_not_eq_ic(canon_spec(3).osis@, k, 0);
    lemma_not_same(canon_spec(3).name_zh@, k, 0);
    book_4();
    lemma_not_same(canon_spec(4).name_zh@, k, 0);
    book_5();
    book_6();
    lemma_not_same(canon_spec(6).name_zh@, k, 0);
    book_7();
    lemma_not_same(canon_spec(7).name_zh@, k, 0);
    book_8();
    book_9();
    book_10();
    book_11();
    book_12();
    book_13();
    book_14();
    book_15();
    lemma_not_eq_ic(canon_spec(15).osis@, k, 0);
    assert(first_book_match(k, 15) == first_book_match(k, 16));
    assert(first_book_match(k, 14) == first_book_match(k, 16));
    assert(first_book_match(k, 13) == first_book_match(k, 16));
    assert(first_book_match(k, 12) == first_book_match(k, 16));
    assert(first_book_match(k, 11) == first_book_match(k, 16));
    assert(first_book_match(k, 10) == first_book_match(k, 16));
    assert(first_book_match(k, 9) == first_book_match(k, 16));
    assert(first_book_match(k, 8) == first_book_match(k, 16));
    assert(first_book_match(k, 7) == first_book_match(k, 16));
    assert(first_book_match(k, 6) == first_book_match(k, 16));
    assert(first_book_match(k, 5) == first_book_match(k, 16));
    assert(first_book_match(k, 4) == first_book_match(k, 16));
    assert(first_book_match(k, 3) == first_book_match(k, 16));
    assert(first_book_match(k, 2) == first_book_match(k, 16));
    assert(first_book_match(k, 1) == first_book_match(k, 16));
    assert(first_book_match(k, 0) == first_book_match(k, 16));
}

#[verifier::rlimit(40)]
proof fn misses_osis_65_16()
    ensures
        first_book_match(canon_spec(65).osis@, 16) == first_book_match(canon_spec(65).osis@, 32),
{
    book_65();
    let k = canon_spec(65).osis@;
    book_16();
    book_17();
    lemma_not_eq_ic(canon_spec(17).osis@, k, 0);
    lemma_not_same(canon_spec(17).name_zh@, k, 0);
    lemma_not_eq_ic(canon_spec(17).name_en@, k, 0);
    book_18();
    book_19();
    book_20();
    lemma_not_same(canon_spec(20).name_zh@, k, 0);
    book_21();
    book_22();
    lemma_not_eq_ic(canon_spec(22).osis@, k, 0);
    book_23();
    lemma_not_eq_ic(canon_spec(23).osis@, k, 0);
    book_24();
    lemma_not_eq_ic(canon_spec(24).osis@, k, 0);
    book_25();
    book_26();
    lemma_not_eq_ic(canon_spec(26).osis@, k, 0);
    book_27();
    lemma_not_eq_ic(canon_spec(27).osis@, k, 0);
    book_28();
    lemma_not_same(canon_spec(28).name_zh@, k, 0);
    book_29();
    book_30();
    book_31();
    lemma_not_same(canon_spec(31).name_zh@, k, 0);
    assert(first_book_match(k, 31) == first_book_match(k, 32));
    assert(first_book_match(k, 30) == first_book_match(k, 32));
    assert(first_book_match(k, 29) == first_book_match(k, 32));
    assert(first_book_match(k, 28) == first_book_match(k, 32));
    assert(first_book_match(k, 27) == first_book_match(k, 32));
    assert(first_book_match(k, 26) == first_book_match(k, 32));
    assert(first_book_match(k, 25) == first_book_match(k, 32));
    assert(first_book_match(k, 24) == first_book_match(k, 32));
    assert(first_book_match(k, 23) == first_book_match(k, 32));
    assert(first_book_match(k, 22) == first_book_match(k, 32));
    assert(first_book_match(k, 21) == first_book_match(k, 32));
    assert(first_book_match(k, 20) == first_book_match(k, 32));
    assert(first_book_match(k, 19) == first_book_match(k, 32));
    assert(first_book_match(k, 18) == first_book_match(k, 32));
    assert(first_book_match(k, 17) == first_book_match(k, 32));
    assert(first_book_match(k, 16) == first_book_match(k, 32));
}

#[verifier::rlimit(40)]
proof fn misses_osis_65_32()
    ensures
        first_book_match(canon_spec(65).osis@, 32) == first_book_match(canon_spec(65).osis@, 48),
{
    book_65();
    let k = canon_spec(65).osis@;
    book_32();
    lemma_not_eq_ic(canon_spec(32).osis@, k, 0);
    lemma_not_same(canon_spec(32).name_zh@, k, 0);
    book_33();
    lemma_not_eq_ic(canon_spec(33).osis@, k, 0);
    lemma_not_same(canon_spec(33).name_zh@, k, 0);
    book_34();
    lemma_not_eq_ic(canon_spec(34).osis@, k, 0);
    book_35();
    book_36();
    lemma_not_eq_ic(canon_spec(36).osis@, k, 0);
    lemma_not_same(canon_spec(36).name_zh@, k, 0);
    book_37();
    book_38();
    lemma_not_eq_ic(canon_spec(38).osis@, k, 0);
    book_39();
    book_40();
    book_41();
    book_42();
    book_43();
    book_44();
    lemma_not_eq_ic(canon_spec(44).osis@, k, 1);
    lemma_not_same(canon_spec(44).name_zh@, k, 0);
    book_45();
    book_46();
    book_47();
    lemma_not_eq_ic(canon_spec(47).osis@, k, 0);
    assert(first_book_match(k, 47) == first_book_match(k, 48));
    assert(first_book_match(k, 46) == first_book_match(k, 48));
    assert(first_book_match(k, 45) == first_book_match(k, 48));
    assert(first_book_match(k, 44) == first_book_match(k, 48));
    assert(first_book_match(k, 43) == first_book_match(k, 48));
    assert(first_book_match(k, 42) == first_book_match(k, 48));
    assert(first_book_match(k, 41) == first_book_match(k, 48));
    assert(first_book_match(k, 40) == first_book_match(k, 48));
    assert(first_book_match(k, 39) == first_book_match(k, 48));
    assert(first_book_match(k, 38) == first_book_match(k, 48));
    assert(first_book_match(k, 37) == first_book_match(k, 48));
    assert(first_book_match(k, 36) == first_book_match(k, 48));
    assert(first_book_match(k, 35) == first_book_match(k, 48));
    assert(first_book_match(k, 34) == first_book_match(k, 48));
    assert(first_book_match(k, 33) == first_book_match(k, 48));
    assert(first_book_match(k, 32) == first_book_match(k, 48));
}

#[verifier::rlimit(40)]
proof fn misses_osis_65_48()
    ensures
        first_book_match(canon_spec(65).osis@, 48) == first_book_match(canon_spec(65).osis@, 64),
{
    book_65();
    let k = canon_spec(65).osis@;
    book_48();
    lemma_not_eq_ic(canon_spec(48).osis@, k, 0);
    book_49();
    book_50();
    lemma_not_eq_ic(canon_spec(50).osis@, k, 0);
    book_51();
    book_52();
    book_53();
    book_54();
    book_55();
    lemma_not_same(canon_spec(55).name_zh@, k, 0);
    book_56();
    book_57();
    lemma_not_eq_ic(canon_spec(57).osis@, k, 0);
    book_58();
    lemma_not_eq_ic(canon_spec(58).osis@, k, 0);
    lemma_not_same(canon_spec(58).name_zh@, k, 0);
    book_59();
    book_60();
    book_61();
    book_62();
    book_63();
    assert(first_book_match(k, 63) == first_book_match(k, 64));
    assert(first_book_match(k, 62) == first_book_match(k, 64));
    assert(first_book_match(k, 61) == first_book_match(k, 64));
    assert(first_book_match(k, 60) == first_book_match(k, 64));
    assert(first_book_match(k, 59) == first_book_match(k, 64));
    assert(first_book_match(k, 58) == first_book_match(k, 64));
    assert(first_book_match(k, 57) == first_book_match(k, 64));
    assert(first_book_match(k, 56) == first_book_match(k, 64));
    assert(first_book_match(k, 55) == first_book_match(k, 64));
    assert(first_book_match(k, 54) == first_book_match(k, 64));
    assert(first_book_match(k, 53) == first_book_match(k, 64));
    assert(first_book_match(k, 52) == first_book_match(k, 64));
    assert(first_book_match(k, 51) == first_book_match(k, 64));
    assert(first_book_match(k, 50) == first_book_match(k, 64));
    assert(first_book_match(k, 49) == first_book_match(k, 64));
    assert(first_book_match(k, 48) == first_book_match(k, 64));
}

#[verifier::rlimit(40)]
proof fn misses_osis_65_64()
    ensures
        first_book_match(canon_spec(65).osis@, 64) == first_book_match(canon_spec(65).osis@, 65),
{
    book_65();
    let k = canon_spec(65).osis@;
    book_64();
    lemma_not_same(canon_spec(64).name_zh@, k, 0);
    assert(first_book_match(k, 64) == first_book_match(k, 65));
}

proof fn found_by_osis_65()
    ensures
        lookup_canon_spec(canon_spec(65).osis@) == Some(canon_spec(65)),
{
    book_65();
    let k = canon_spec(65).osis@;
    lemma_plain_key(k);
    lemma_not_number(k, 0);
    misses_osis_65_0();
    misses_osis_65_16();
    misses_osis_65_32();
    misses_osis_65_48();
    misses_osis_65_64();
    assert(first_book_match(k, 65) == Some(65int));
}

#[verifier::rlimit(40)]
proof fn misses_abbreviation_65_0()
    ensures
        first_book_match(canon_spec(65).name_zh_short@, 0) == first_book_match(canon_spec(65).name_zh_short@, 16),
{
    book_65();
    let k = canon_spec(65).name_zh_short@;
    book_0();
    lemma_not_same(canon_spec(0).name_zh_short@, k, 0);
    book_1();
    lemma_not_same(canon_spec(1).name_zh_short@, k, 0);
    book_2();
    lemma_not_same(canon_spec(2).name_zh_short@, k, 0);
    book_3();
    lemma_not_same(canon_spec(3).name_zh_short@, k, 0);
    book_4();
    lemma_not_same(canon_spec(4).name_zh_short@, k, 0);
    book_5();
    lemma_not_same(canon_spec(5).name_zh_short@, k, 0);
    book_6();
    lemma_not_same(canon_spec(6).name_zh_short@, k, 0);
    book_7();
    lemma_not_same(canon_spec(7).name_zh_short@, k, 0);
    book_8();
    book_9();
    book_10();
    book_11();
    book_12();
    book_13();
    book_14();
    lemma_not_same(canon_spec(14).name_zh_short@, k, 0);
    book_15();
    lemma_not_same(canon_spec(15).name_zh_short@, k, 0);
    assert(first_book_match(k, 15) == first_book_match(k, 16));
    assert(first_book_match(k, 14) == first_book_match(k, 16));
    assert(first_book_match(k, 13) == first_book_match(k, 16));
    assert(first_book_match(k, 12) == first_book_match(k, 16));
    assert(first_book_match(k, 11) == first_book_match(k, 16));
    assert(first_book_match(k, 10) == first_book_match(k, 16));
    assert(first_book_match(k, 9) == first_book_match(k, 16));
    assert(first_book_match(k, 8) == first_book_match(k, 16));
    assert(first_book_match(k, 7) == first_book_match(k, 16));
    assert(first_book_match(k, 6) == first_book_match(k, 16));
    assert(first_book_match(k, 5) == first_book_match(k, 16));
    assert(first_book_match(k, 4) == first_book_match(k, 16));
    assert(first_book_match(k, 3) == first_book_match(k, 16));
    assert(first_book_match(k, 2) == first_book_match(k, 16));
    assert(first_book_match(k, 1) == first_book_match(k, 16));
    assert(first_book_match(k, 0) == first_book_match(k, 16));
}

#[verifier::rlimit(40)]
proof fn misses_abbreviation_65_16()
    ensures
        first_book_match(canon_spec(65).name_zh_short@, 16) == first_book_match(canon_spec(65).name_zh_short@, 32),
{
    book_65();
    let k = canon_spec(65).name_zh_short@;
    book_16();
    lemma_not_same(canon_spec(16).name_zh_short@, k, 0);
    book_17();
    lemma_not_same(canon_spec(17).name_zh_short@, k, 0);
    book_18();
    lemma_not_same(canon_spec(18).name_zh_short@, k, 0);
    book_19();
    lemma_not_same(canon_spec(19).name_zh_short@, k, 0);
    book_20();
    lemma_not_same(canon_spec(20).name_zh_short@, k, 0);
    book_21();
    lemma_not_same(canon_spec(21).name_zh_short@, k, 0);
    book_22();
    lemma_not_same(canon_spec(22).name_zh_short@, k, 0);
    book_23();
    lemma_not_same(canon_spec(23).name_zh_short@, k, 0);
    book_24();
    lemma_not_same(canon_spec(24).name_zh_short@, k, 0);
    book_25();
    lemma_not_same(canon_spec(25).name_zh_short@, k, 0);
    book_26();
    lemma_not_same(canon_spec(26).name_zh_short@, k, 0);
    book_27();
    lemma_not_same(canon_spec(27).name_zh_short@, k, 0);
    book_28();
    lemma_not_same(canon_spec(28).name_zh_short@, k, 0);
    book_29();
    lemma_not_same(canon_spec(29).name_zh_short@, k, 0);
    book_30();
    lemma_not_same(canon_spec(30).name_zh_short@, k, 0);
    book_31();
    lemma_not_same(canon_spec(31).name_zh_short@, k, 0);
    assert(first_book_match(k, 31) == first_book_match(k, 32));
    assert(first_book_match(k, 30) == first_book_match(k, 32));
    assert(first_book_match(k, 29) == first_book_match(k, 32));
    assert(first_book_match(k, 28) == first_book_match(k, 32));
    assert(first_book_match(k, 27) == first_book_match(k, 32));
    assert(first_book_match(k, 26) == first_book_match(k, 32));
    assert(first_book_match(k, 25) == first_book_match(k, 32));
    assert(first_book_match(k, 24) == first_book_match(k, 32));
    assert(first_book_match(k, 23) == first_book_match(k, 32));
    assert(first_book_match(k, 22) == first_book_match(k, 32));
    assert(first_book_match(k, 21) == first_book_match(k, 32));
    assert(first_book_match(k, 20) == first_book_match(k, 32));
    assert(first_book_match(k, 19) == first_book_match(k, 32));
    assert(first_book_match(k, 18) == first_book_match(k, 32));
    assert(first_book_match(k, 17) == first_book_match(k, 32));
    assert(first_book_match(k, 16) == first_book_match(k, 32));
}

#[verifier::rlimit(40)]
proof fn misses_abbreviation_65_32()
    ensures
        first_book_match(canon_spec(65).name_zh_short@, 32) == first_book_match(canon_spec(65).name_zh_short@, 48),
{
    book_65();
    let k = canon_spec(65).name_zh_short@;
    book_32();
    lemma_not_same(canon_spec(32).name_zh_short@, k, 0);
    book_33();
    lemma_not_same(canon_spec(33).name_zh_short@, k, 0);
    book_34();
    lemma_not_same(canon_spec(34).name_zh_short@, k, 0);
    book_35();
    lemma_not_same(canon_spec(35).name_zh_short@, k, 0);
    book_36();
    lemma_not_same(canon_spec(36).name_zh_short@, k, 0);
    book_37();
    lemma_not_same(canon_spec(37).name_zh_short@, k, 0);
    book_38();
    lemma_not_same(canon_spec(38).name_zh_short@, k, 0);
    book_39();
    lemma_not_same(canon_spec(39).name_zh_short@, k, 0);
    book_40();
    lemma_not_same(canon_spec(40).name_zh_short@, k, 0);
    book_41();
    lemma_not_same(canon_spec(41).name_zh_short@, k, 0);
    book_42();
    lemma_not_same(canon_spec(42).name_zh_short@, k, 0);
    book_43();
    lemma_not_same(canon_spec(43).name_zh_short@, k, 0);
    book_44();
    lemma_not_same(canon_spec(44).name_zh_short@, k, 0);
    book_45();
    book_46();
    book_47();
    lemma_not_same(canon_spec(47).name_zh_short@, k, 0);
    assert(first_book_match(k, 47) == first_book_match(k, 48));
    assert(first_book_match(k, 46) == first_book_match(k, 48));
    assert(first_book_match(k, 45) == first_book_match(k, 48));
    assert(first_book_match(k, 44) == first_book_match(k, 48));
    assert(first_book_match(k, 43) == first_book_match(k, 48));
    assert(first_book_match(k, 42) == first_book_match(k, 48));
    assert(first_book_match(k, 41) == first_book_match(k, 48));
    assert(first_book_match(k, 40) == first_book_match(k, 48));
    assert(first_book_match(k, 39) == first_book_match(k, 48));
    assert(first_book_match(k, 38) == first_book_match(k, 48));
    assert(first_book_match(k, 37) == first_book_match(k, 48));
    assert(first_book_match(k, 36) == first_book_match(k, 48));
    assert(first_book_match(k, 35) == first_book_match(k, 48));
    assert(first_book_match(k, 34) == first_book_match(k, 48));
    assert(first_book_match(k, 33) == first_book_match(k, 48));
    assert(first_book_match(k, 32) == first_book_match(k, 48));
}

#[verifier::rlimit(40)]
proof fn misses_abbreviation_65_48()
    ensures
        first_book_match(canon_spec(65).name_zh_short@, 48) == first_book_match(canon_spec(65).name_zh_short@, 64),
{
    book_65();
    let k = canon_spec(65).name_zh_short@;
    book_48();
    lemma_not_same(canon_spec(48).name_zh_short@, k, 0);
    book_49();
    lemma_not_same(canon_spec(49).name_zh_short@, k, 0);
    book_50();
    lemma_not_same(canon_spec(50).name_zh_short@, k, 0);
    book_51();
    book_52();
    book_53();
    book_54();
    book_55();
    lemma_not_same(canon_spec(55).name_zh_short@, k, 0);
    book_56();
    lemma_not_same(canon_spec(56).name_zh_short@, k, 0);
    book_57();
    lemma_not_same(canon_spec(57).name_zh_short@, k, 0);
    book_58();
    lemma_not_same(canon_spec(58).name_zh_short@, k, 0);
    book_59();
    book_60();
    book_61();
    book_62();
    book_63();
    assert(first_book_match(k, 63) == first_book_match(k, 64));
    assert(first_book_match(k, 62) == first_book_match(k, 64));
    assert(first_book_match(k, 61) == first_book_match(k, 64));
    assert(first_book_match(k, 60) == first_book_match(k, 64));
    assert(first_book_match(k, 59) == first_book_match(k, 64));
    assert(first_book_match(k, 58) == first_book_match(k, 64));
    assert(first_book_match(k, 57) == first_book_match(k, 64));
    assert(first_book_match(k, 56) == first_book_match(k, 64));
    assert(first_book_match(k, 55) == first_book_match(k, 64));
    assert(first_book_match(k, 54) == first_book_match(k, 64));
    assert(first_book_match(k, 53) == first_book_match(k, 64));
    assert(first_book_match(k, 52) == first_book_match(k, 64));
    assert(first_book_match(k, 51) == first_book_match(k, 64));
    assert(first_book_match(k, 50) == first_book_match(k, 64));
    assert(first_book_match(k, 49) == first_book_match(k, 64));
    assert(first_book_match(k, 48) == first_book_match(k, 64));
}

#[verifier::rlimit(40)]
proof fn misses_abbreviation_65_64()
    ensures
        first_book_match(canon_spec(65).name_zh_short@, 64) == first_book_match(canon_spec(65).name_zh_short@, 65),
{
    book_65();
    let k = canon_spec(65).name_zh_short@;
    book_64();
    lemma_not_same(canon_spec(64).name_zh_short@, k, 0);
    assert(first_book_match(k, 64) == first_book_match(k, 65));
}

proof fn found_by_abbreviation_65()
    ensures
        lookup_canon_spec(canon_spec(65).name_zh_short@) == Some(canon_spec(65)),
{
    book_65();
    let k = canon_spec(65).name_zh_short@;
    lemma_plain_key(k);
    lemma_not_number(k, 0);
    misses_abbreviation_65_0();
    misses_abbreviation_65_16();
    misses_abbreviation_65_32();
    misses_abbreviation_65_48();
    misses_abbreviation_65_64();
    assert(first_book_match(k, 65) == Some(65int));
}

#[verifier::rlimit(40)]
proof fn misses_english_65_0()
    ensures
        first_book_match(canon_spec(65).name_en@, 0) == first_book_match(canon_spec(65).name_en@, 16),
{
    book_65();
    let k = canon_spec(65).name_en@;
    book_0();
    book_1();
    book_2();
    book_3();
    book_4();
    book_5();
    book_6();
    book_7();
    book_8();
    book_9();
    book_10();
    book_11();
    book_12();
    book_13();
    book_14();
    book_15();
    assert(first_book_match(k, 15) == first_book_match(k, 16));
    assert(first_book_match(k, 14) == first_book_match(k, 16));
    assert(first_book_match(k, 13) == first_book_match(k, 16));
    assert(first_book_match(k, 12) == first_book_match(k, 16));
    assert(first_book_match(k, 11) == first_book_match(k, 16));
    assert(first_book_match(k, 10) == first_book_match(k, 16));
    assert(first_book_match(k, 9) == first_book_match(k, 16));
    assert(first_book_match(k, 8) == first_book_match(k, 16));
    assert(first_book_match(k, 7) == first_book_match(k, 16));
    assert(first_book_match(k, 6) == first_book_match(k, 16));
    assert(first_book_match(k, 5) == first_book_match(k, 16));
    assert(first_book_match(k, 4) == first_book_match(k, 16));
    assert(first_book_match(k, 3) == first_book_match(k, 16));
    assert(first_book_match(k, 2) == first_book_match(k, 16));
    assert(first_book_match(k, 1) == first_book_match(k, 16));
    assert(first_book_match(k, 0) == first_book_match(k, 16));
}

#[verifier::rlimit(40)]
proof fn misses_english_65_16()
    ensures
        first_book_match(canon_spec(65).name_en@, 16) == first_book_match(canon_spec(65).name_en@, 32),
{
    book_65();
    let k = canon_spec(65).name_en@;
    book_16();
    book_17();
    book_18();
    book_19();
    book_20();
    book_21();
    book_22();
    book_23();
    book_24();
    book_25();
    book_26();
    book_27();
    book_28();
    book_29();
    book_30();
    book_31();
    assert(first_book_match(k, 31) == first_book_match(k, 32));
    assert(first_book_match(k, 30) == first_book_match(k, 32));
    assert(first_book_match(k, 29) == first_book_match(k, 32));
    assert(first_book_match(k, 28) == first_book_match(k, 32));
    assert(first_book_match(k, 27) == first_book_match(k, 32));
    assert(first_book_match(k, 26) == first_book_match(k, 32));
    assert(first_book_match(k, 25) == first_book_match(k, 32));
    assert(first_book_match(k, 24) == first_book_match(k, 32));
    assert(first_book_match(k, 23) == first_book_match(k, 32));
    assert(first_book_match(k, 22) == first_book_match(k, 32));
    assert(first_book_match(k, 21) == first_book_match(k, 32));
    assert(first_book_match(k, 20) == first_book_match(k, 32));
    assert(first_book_match(k, 19) == first_book_match(k, 32));
    assert(first_book_match(k, 18) == first_book_match(k, 32));
    assert(first_book_match(k, 17) == first_book_match(k, 32));
    assert(first_book_match(k, 16) == first_book_match(k, 32));
}

#[verifier::rlimit(40)]
proof fn misses_english_65_32()
    ensures
        first_book_match(canon_spec(65).name_en@, 32) == first_book_match(canon_spec(65).name_en@, 48),
{
    book_65();
    let k = canon_spec(65).name_en@;
    book_32();
    book_33();
    book_34();
    book_35();
    book_36();
    book_37();
    book_38();
    book_39();
    book_40();
    book_41();
    book_42();
    book_43();
    book_44();
    book_45();
    book_46();
    book_47();
    assert(first_book_match(k, 47) == first_book_match(k, 48));
    assert(first_book_match(k, 46) == first_book_match(k, 48));
    assert(first_book_match(k, 45) == first_book_match(k, 48));
    assert(first_book_match(k, 44) == first_book_match(k, 48));
    assert(first_book_match(k, 43) == first_book_match(k, 48));
    assert(first_book_match(k, 42) == first_book_match(k, 48));
    assert(first_book_match(k, 41) == first_book_match(k, 48));
    assert(first_book_match(k, 40) == first_book_match(k, 48));
    assert(first_book_match(k, 39) == first_book_match(k, 48));
    assert(first_book_match(k, 38) == first_book_match(k, 48));
    assert(first_book_match(k, 37) == first_book_match(k, 48));
    assert(first_book_match(k, 36) == first_book_match(k, 48));
    assert(first_book_match(k, 35) == first_book_match(k, 48));
    assert(first_book_match(k, 34) == first_book_match(k, 48));
    assert(first_book_match(k, 33) == first_book_match(k, 48));
    assert(first_book_match(k, 32) == first_book_match(k, 48));
}

#[verifier::rlimit(40)]
proof fn misses_english_65_48()
    ensures
        first_book_match(canon_spec(65).name_en@, 48) == first_book_match(canon_spec(65).name_en@, 64),
{
    book_65();
    let k = canon_spec(65).name_en@;
    book_48();
    book_49();
    book_50();
    lemma_not_eq_ic(canon_spec(50).name_en@, k, 0);
    book_51();
    book_52();
    book_53();
    book_54();
    book_55();
    book_56();
    book_57();
    book_58();
    book_59();
    book_60();
    book_61();
    book_62();
    book_63();
    assert(first_book_match(k, 63) == first_book_match(k, 64));
    assert(first_book_match(k, 62) == first_book_match(k, 64));
    assert(first_book_match(k, 61) == first_book_match(k, 64));
    assert(first_book_match(k, 60) == first_book_match(k, 64));
    assert(first_book_match(k, 59) == first_book_match(k, 64));
    assert(first_book_match(k, 58) == first_book_match(k, 64));
    assert(first_book_match(k, 57) == first_book_match(k, 64));
    assert(first_book_match(k, 56) == first_book_match(k, 64));
    assert(first_book_match(k, 55) == first_book_match(k, 64));
    assert(first_book_match(k, 54) == first_book_match(k, 64));
    assert(first_book_match(k, 53) == first_book_match(k, 64));
    assert(first_book_match(k, 52) == first_book_match(k, 64));
    assert(first_book_match(k, 51) == first_book_match(k, 64));
    assert(first_book_match(k, 50) == first_book_match(k, 64));
    assert(first_book_match(k, 49) == first_book_match(k, 64));
    assert(first_book_match(k, 48) == first_book_match(k, 64));
}

#[verifier::rlimit(40)]
proof fn misses_english_65_64()
    ensures
        first_book_match(canon_spec(65).name_en@, 64) == first_book_match(canon_spec(65).name_en@, 65),
{
    book_65();
    let k = canon_spec(65).name_en@;
    book_64();
    assert(first_book_match(k, 64) == first_book_match(k, 65));
}

proof fn found_by_english_65()
    ensures
        lookup_canon_spec(canon_spec(65).name_en@) == Some(canon_spec(65)),
{
    book_65();
    let k = canon_spec(65).name_en@;
    lemma_plain_key(k);
    lemma_not_number(k, 0);
    misses_english_65_0();
    misses_english_65_16();
    misses_english_65_32();
    misses_english_65_48();
    misses_english_65_64();
    assert(first_book_match(k, 65) == Some(65int));
}

/// Every canonical book is found by `lookup_canon` under its OSIS id, under its Chinese
/// abbreviation and under its English name.
pub proof fn law_books_found_by_osis_and_abbreviation(i: int)
    requires
        0 <= i < CANON_LEN,
    ensures
        lookup_canon_spec(canon_spec(i).osis@) == Some(canon_spec(i)),
        lookup_canon_spec(canon_spec(i).name_zh_short@) == Some(canon_spec(i)),
        lookup_canon_spec(canon_spec(i).name_en@) == Some(canon_spec(i)),
{
    if i == 0 {
        found_by_osis_0();
        found_by_abbreviation_0();
        found_by_english_0();
    } else if i == 1 {
        found_by_osis_1();
        found_by_abbreviation_1();
        found_by_english_1();
    } else if i == 2 {
        found_by_osis_2();
        found_by_abbreviation_2();
        found_by_english_2();
    } else if i == 3 {
        found_by_osis_3();
        found_by_abbreviation_3();
        found_by_english_3();
    } else if i == 4 {
        found_by_osis_4();
        found_by_abbreviation_4();
        found_by_english_4();
    } else if i == 5 {
        found_by_osis_5();
        found_by_abbreviation_5();
        found_by_english_5();
    } else if i == 6 {
        found_by_osis_6();
        found_by_abbreviation_6();
        found_by_english_6();
    } else if i == 7 {
        found_by_osis_7();
        found_by_abbreviation_7();
        found_by_english_7();
    } else if i == 8 {
        found_by_osis_8();
        found_by_abbreviation_8();
        found_by_english_8();
    } else if i == 9 {
        found_by_osis_9();
        found_by_abbreviation_9();
        found_by_english_9();
    } else if i == 10 {
        found_by_osis_10();
        found_by_abbreviation_10();
        found_by_english_10();
    } else if i == 11 {
        found_by_osis_11();
        found_by_abbreviation_11();
        found_by_english_11();
    } else if i == 12 {
        found_by_osis_12();
        found_by_abbreviation_12();
        found_by_english_12();
    } else if i == 13 {
        found_by_osis_13();
        found_by_abbreviation_13();
        found_by_english_13();
    } else if i == 14 {
        found_by_osis_14();
        found_by_abbreviation_14();
        found_by_english_14();
    } else if i == 15 {
        found_by_osis_15();
        found_by_abbreviation_15();
        found_by_english_15();
    } else if i == 16 {
        found_by_osis_16();
        found_by_abbreviation_16();
        found_by_english_16();
    } else if i == 17 {
        found_by_osis_17();
        found_by_abbreviation_17();
        found_by_english_17();
    } else if i == 18 {
        found_by_osis_18();
        found_by_abbreviation_18();
        found_by_english_18();
    } else if i == 19 {
        found_by_osis_19();
        found_by_abbreviation_19();
        found_by_english_19();
    } else if i == 20 {
        found_by_osis_20();
        found_by_abbreviation_20();
        found_by_english_20();
    } else if i == 21 {
        found_by_osis_21();
        found_by_abbreviation_21();
        found_by_english_21();
    } else if i == 22 {
        found_by_osis_22();
        found_by_abbreviation_22();
        found_by_english_22();
    } else if i == 23 {
        found_by_osis_23();
        found_by_abbreviation_23();
        found_by_english_23();
    } else if i == 24 {
        found_by_osis_24();
        found_by_abbreviation_24();
        found_by_english_24();
    } else if i == 25 {
        found_by_osis_25();
        found_by_abbreviation_25();
        found_by_english_25();
    } else if i == 26 {
        found_by_osis_26();
        found_by_abbreviation_26();
        found_by_english_26();
    } else if i == 27 {
        found_by_osis_27();
        found_by_abbreviation_27();
        found_by_english_27();
    } else if i == 28 {
        found_by_osis_28();
        found_by_abbreviation_28();
        found_by_english_28();
    } else if i == 29 {
        found_by_osis_29();
        found_by_abbreviation_29();
        found_by_english_29();
    } else if i == 30 {
        found_by_osis_30();
        found_by_abbreviation_30();
        found_by_english_30();
    } else if i == 31 {
        found_by_osis_31();
        found_by_abbreviation_31();
        found_by_english_31();
    } else if i == 32 {
        found_by_osis_32();
        found_by_abbreviation_32();
        found_by_english_32();
    } else if i == 33 {
        found_by_osis_33();
        found_by_abbreviation_33();
        found_by_english_33();
    } else if i == 34 {
        found_by_osis_34();
        found_by_abbreviation_34();
        found_by_english_34();
    } else if i == 35 {
        found_by_osis_35();
        found_by_abbreviation_35();
        found_by_english_35();
    } else if i == 36 {
        found_by_osis_36();
        found_by_abbreviation_36();
        found_by_english_36();
    } else if i == 37 {
        found_by_osis_37();
        found_by_abbreviation_37();
        found_by_english_37();
    } else if i == 38 {
        found_by_osis_38();
        found_by_abbreviation_38();
        found_by_english_38();
    } else if i == 39 {
        found_by_osis_39();
        found_by_abbreviation_39();
        found_by_english_39();
    } else if i == 40 {
        found_by_osis_40();
        found_by_abbreviation_40();
        found_by_english_40();
    } else if i == 41 {
        found_by_osis_41();
        found_by_abbreviation_41();
        found_by_english_41();
    } else if i == 42 {
        found_by_osis_42();
        found_by_abbreviation_42();
        found_by_english_42();
    } else if i == 43 {
        found_by_osis_43();
        found_by_abbreviation_43();
        found_by_english_43();
    } else if i == 44 {
        found_by_osis_44();
        found_by_abbreviation_44();
        found_by_english_44();
    } else if i == 45 {
        found_by_osis_45();
        found_by_abbreviation_45();
        found_by_english_45();
    } else if i == 46 {
        found_by_osis_46();
        found_by_abbreviation_46();
        found_by_english_46();
    } else if i == 47 {
        found_by_osis_47();
        found_by_abbreviation_47();
        found_by_english_47();
    } else if i == 48 {
        found_by_osis_48();
        found_by_abbreviation_48();
        found_by_english_48();
    } else if i == 49 {
        found_by_osis_49();
        found_by_abbreviation_49();
        found_by_english_49();
    } else if i == 50 {
        found_by_osis_50();
        found_by_abbreviation_50();
        found_by_english_50();
    } else if i == 51 {
        found_by_osis_51();
        found_by_abbreviation_51();
        found_by_english_51();
    } else if i == 52 {
        found_by_osis_52();
        found_by_abbreviation_52();
        found_by_english_52();
    } else if i == 53 {
        found_by_osis_53();
        found_by_abbreviation_53();
        found_by_english_53();
    } else if i == 54 {
        found_by_osis_54();
        found_by_abbreviation_54();
        found_by_english_54();
    } else if i == 55 {
        found_by_osis_55();
        found_by_abbreviation_55();
        found_by_english_55();
    } else if i == 56 {
        found_by_osis_56();
        found_by_abbreviation_56();
        found_by_english_56();
    } else if i == 57 {
        found_by_osis_57();
        found_by_abbreviation_57();
        found_by_english_57();
    } else if i == 58 {
        found_by_osis_58();
        found_by_abbreviation_58();
        found_by_english_58();
    } else if i == 59 {
        found_by_osis_59();
        found_by_abbreviation_59();
        found_by_english_59();
    } else if i == 60 {
        found_by_osis_60();
        found_by_abbreviation_60();
        found_by_english_60();
    } else if i == 61 {
        found_by_osis_61();
        found_by_abbreviation_61();
        found_by_english_61();
    } else if i == 62 {
        found_by_osis_62();
        found_by_abbreviation_62();
        found_by_english_62();
    } else if i == 63 {
        found_by_osis_63();
        found_by_abbreviation_63();
        found_by_english_63();
    } else if i == 64 {
        found_by_osis_64();
        found_by_abbreviation_64();
        found_by_english_64();
    } else if i == 65 {
        found_by_osis_65();
        found_by_abbreviation_65();
        found_by_english_65();
    }
}

} // verus!
