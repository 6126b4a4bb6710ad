//! Verses with ordered translation lanes, loaded chapters, and search hits.

use vstd::prelude::*;

use crate::catalog::BookMeta;
use crate::hebrew::{duplicate_words, HebrewWord, WordView};
use crate::text;
use crate::text::{chars_of, push_decimal, to_lowercase};
use crate::translation;
use crate::translation::TranslationId;

verus! {

/// Translation lanes as characters, in order.
pub type TextsView = Seq<(TranslationId, Seq<char>)>;

/// A verse as number, lanes, Hebrew words and the lowercase search folds of its lanes.
pub type VerseView = (u32, TextsView, Option<Seq<WordView>>, TextsView);

/// One verse: a number plus ordered translation lanes.
///
/// The loader reads CUV+KJV; the UI never assumes only Chinese/English fields.
#[derive(Debug, Clone, PartialEq, Eq)]
pub struct Verse {
    pub number: u32,
    pub texts: Vec<(TranslationId, String)>,
    /// MorphHB words in Hebrew reading order; `None` for NT or chapters without data.
    pub hebrew: Option<Vec<HebrewWord>>,
    /// Precomputed lowercase of non-CJK lanes (same ids as in `texts`), which search reads.
    /// `from_texts` and `bilingual` set it from the lanes; a verse built otherwise is
    /// searched by whatever folds it was given.
    pub folded: Vec<(TranslationId, String)>,
}

impl DeepView for Verse {
    type V = VerseView;

    open spec fn deep_view(&self) -> VerseView {
        (self.number, self.texts.deep_view(), self.hebrew.deep_view(), self.folded.deep_view())
    }
}

/// The lowercase search folds of the non-CJK lanes of `texts`, in order.
pub open spec fn fold_lanes(texts: TextsView) -> TextsView
    decreases texts.len(),
{
    if texts.len() == 0 {
        Seq::empty()
    } else {
        let prev = fold_lanes(texts.drop_last());
        let (id, t) = texts.last();
        if translation::is_cjk_spec(id) {
            prev
        } else {
            prev.push((id, text::lowercase(t)))
        }
    }
}

/// The index of the first lane at or after `i` with translation `id`.
pub open spec fn first_lane(texts: TextsView, id: TranslationId, i: int) -> Option<int>
    decreases texts.len() - i,
{
    if i < 0 || i >= texts.len() {
        None
    } else if texts[i].0 == id {
        Some(i)
    } else {
        first_lane(texts, id, i + 1)
    }
}

/// The text of the first lane with translation `id`.
pub open spec fn lane_text(texts: TextsView, id: TranslationId) -> Option<Seq<char>> {
    match first_lane(texts, id, 0) {
        Some(k) => Some(texts[k].1),
        None => None,
    }
}

/// The lanes of `texts` asked for by `lanes`, in the order of `lanes`, skipping any absent.
pub open spec fn texts_for_spec(texts: TextsView, lanes: Seq<TranslationId>) -> TextsView
    decreases lanes.len(),
{
    if lanes.len() == 0 {
        Seq::empty()
    } else {
        let prev = texts_for_spec(texts, lanes.drop_last());
        match lane_text(texts, lanes.last()) {
            Some(t) => prev.push((lanes.last(), t)),
            None => prev,
        }
    }
}

/// The UTF-8 length in bytes of the strings of `texts`, summed.
pub open spec fn texts_bytes(texts: TextsView) -> int
    decreases texts.len(),
{
    if texts.len() == 0 {
        0
    } else {
        texts_bytes(texts.drop_last()) + vstd::utf8::encode_utf8(texts.last().1).len()
    }
}

fn copy_texts(texts: &Vec<(TranslationId, String)>) -> (r: Vec<(TranslationId, String)>)
    ensures
        r.deep_view() == texts.deep_view(),
{
    let mut out: Vec<(TranslationId, String)> = Vec::new();
    let mut i: usize = 0;
    while i < texts.len()
        invariant
            i <= texts@.len(),
            out.deep_view() == texts.deep_view().take(i as int),
        decreases texts@.len() - i,
    {
        let ghost before = out.deep_view();
        let (id, t) = &texts[i];
        out.push((*id, t.clone()));
        assert(texts.deep_view()[i as int] == (*id, t@));
        assert(out.deep_view() =~= before.push((*id, t@)));
        i = i + 1;
        assert(out.deep_view() =~= texts.deep_view().take(i as int));
    }
    assert(texts.deep_view().take(texts@.len() as int) =~= texts.deep_view());
    out
}

fn find_lane(texts: &Vec<(TranslationId, String)>, id: TranslationId) -> (r: Option<usize>)
    ensures
        match r {
            Some(k) => first_lane(texts.deep_view(), id, 0) == Some(k as int) && k
                < texts@.len(),
            None => first_lane(texts.deep_view(), id, 0) is None,
        },
{
    let ghost tv = texts.deep_view();
    let mut i: usize = 0;
    while i < texts.len()
        invariant
            i <= texts@.len(),
            tv == texts.deep_view(),
            tv.len() == texts@.len(),
            first_lane(tv, id, 0) == first_lane(tv, id, i as int),
        decreases texts@.len() - i,
    {
        assert(tv[i as int].0 == texts@[i as int].0);
        if texts[i].0 == id {
            return Some(i);
        }
        i = i + 1;
    }
    None
}

impl Verse {
    /// A verse whose search folds are the lowercase of its non-CJK lanes.
    pub fn from_texts(number: u32, texts: Vec<(TranslationId, String)>) -> (r: Verse)
        ensures
            r.number == number,
            r.texts == texts,
            r.hebrew is None,
            r.deep_view() == (number, texts.deep_view(), None::<Seq<WordView>>, fold_lanes(
                texts.deep_view(),
            )),
    {
        let mut folded: Vec<(TranslationId, String)> = Vec::new();
        let mut i: usize = 0;
        while i < texts.len()
            invariant
                i <= texts@.len(),
                folded.deep_view() == fold_lanes(texts.deep_view().take(i as int)),
            decreases texts@.len() - i,
        {
            let ghost before = folded.deep_view();
            let (id, t) = &texts[i];
            proof {
                assert(texts.deep_view().take(i + 1).drop_last() =~= texts.deep_view().take(
                    i as int,
                ));
                assert(texts.deep_view().take(i + 1).last() == (*id, t@));
            }
            if !id.is_cjk() {
                let lower = to_lowercase(t.as_str());
                folded.push((*id, lower));
                assert(folded.deep_view() =~= before.push((*id, text::lowercase(t@))));
            }
            i = i + 1;
        }
        assert(texts.deep_view().take(texts@.len() as int) =~= texts.deep_view());
        Verse { number, texts, hebrew: None, folded }
    }

    /// A CUV 1919 神版 + KJV verse.
    pub fn bilingual(number: u32, chinese: &str, english: &str) -> (r: Verse)
        ensures
            r.number == number,
            r.hebrew is None,
            r.texts.deep_view() == seq![
                (TranslationId::Cuv1919, chinese@),
                (TranslationId::Kjv, english@),
            ],
            r.deep_view().3 == seq![(TranslationId::Kjv, text::lowercase(english@))],
    {
        let mut texts: Vec<(TranslationId, String)> = Vec::new();
        texts.push((TranslationId::Cuv1919, String::from_str(chinese)));
        texts.push((TranslationId::Kjv, String::from_str(english)));
        let ghost tv = texts.deep_view();
        assert(tv =~= seq![(TranslationId::Cuv1919, chinese@), (TranslationId::Kjv, english@)]);
        proof {
            assert(tv.drop_last() =~= seq![(TranslationId::Cuv1919, chinese@)]);
            assert(tv.drop_last().drop_last() =~= Seq::<(TranslationId, Seq<char>)>::empty());
            let t1 = tv.drop_last();
            assert(t1.last() == (TranslationId::Cuv1919, chinese@));
            assert(fold_lanes(t1.drop_last()) =~= Seq::<(TranslationId, Seq<char>)>::empty());
            assert(fold_lanes(t1) =~= Seq::<(TranslationId, Seq<char>)>::empty());
            assert(tv.last() == (TranslationId::Kjv, english@));
            assert(fold_lanes(tv) =~= seq![(TranslationId::Kjv, text::lowercase(english@))]);
        }
        Verse::from_texts(number, texts)
    }

    /// An exact copy.
    pub fn duplicate(&self) -> (r: Verse)
        ensures
            r.deep_view() == self.deep_view(),
            r.number == self.number,
    {
        let hebrew = match &self.hebrew {
            Some(w) => {
                let c = duplicate_words(w);
                assert(c.deep_view() =~= w.deep_view());
                Some(c)
            },
            None => None,
        };
        Verse {
            number: self.number,
            texts: copy_texts(&self.texts),
            hebrew,
            folded: copy_texts(&self.folded),
        }
    }

    /// This verse with its Hebrew words replaced.
    pub fn with_hebrew(&self, hebrew: Option<Vec<HebrewWord>>) -> (r: Verse)
        ensures
            r.deep_view() == (
                self.deep_view().0,
                self.deep_view().1,
                hebrew.deep_view(),
                self.deep_view().3,
            ),
            r.number == self.number,
    {
        Verse {
            number: self.number,
            texts: copy_texts(&self.texts),
            hebrew,
            folded: copy_texts(&self.folded),
        }
    }

    /// The text of the first lane with translation `id`.
    pub fn get(&self, id: TranslationId) -> (r: Option<&str>)
        ensures
            match r {
                Some(t) => lane_text(self.texts.deep_view(), id) == Some(t@),
                None => lane_text(self.texts.deep_view(), id) is None,
            },
    {
        match find_lane(&self.texts, id) {
            Some(k) => {
                assert(self.texts.deep_view()[k as int] == (self.texts@[k as int].0, self.texts@[k as int].1@));
                Some(self.texts[k].1.as_str())
            },
            None => None,
        }
    }

    /// The search fold of the first lane with translation `id`.
    pub fn folded_get(&self, id: TranslationId) -> (r: Option<&str>)
        ensures
            match r {
                Some(t) => lane_text(self.deep_view().3, id) == Some(t@),
                None => lane_text(self.deep_view().3, id) is None,
            },
    {
        match find_lane(&self.folded, id) {
            Some(k) => {
                assert(self.folded.deep_view()[k as int] == (self.folded@[k as int].0, self.folded@[k as int].1@));
                Some(self.folded[k].1.as_str())
            },
            None => None,
        }
    }

    /// The texts of `lanes` in that order, skipping lanes this verse lacks.
    pub fn texts_for(&self, lanes: &[TranslationId]) -> (r: Vec<(TranslationId, &str)>)
        ensures
            r.deep_view() == texts_for_spec(self.texts.deep_view(), lanes@),
    {
        let mut out: Vec<(TranslationId, &str)> = Vec::new();
        let mut i: usize = 0;
        while i < lanes.len()
            invariant
                i <= lanes@.len(),
                out.deep_view() == texts_for_spec(self.texts.deep_view(), lanes@.take(i as int)),
            decreases lanes@.len() - i,
        {
            let ghost before = out.deep_view();
            let id = lanes[i];
            proof {
                assert(lanes@.take(i + 1).drop_last() =~= lanes@.take(i as int));
                assert(lanes@.take(i + 1).last() == id);
            }
            match self.get(id) {
                Some(t) => {
                    out.push((id, t));
                    assert(out.deep_view() =~= before.push((id, t@)));
                },
                None => {},
            }
            i = i + 1;
        }
        assert(lanes@.take(lanes@.len() as int) =~= lanes@);
        out
    }

    /// Bytes of display strings plus precomputed search folds.
    pub fn stored_string_bytes(&self) -> (r: usize)
        requires
            texts_bytes(self.deep_view().1) + texts_bytes(self.deep_view().3) <= usize::MAX,
        ensures
            r == texts_bytes(self.deep_view().1) + texts_bytes(self.deep_view().3),
    {
        proof {
            lemma_texts_bytes_mono(self.texts.deep_view(), 0);
            lemma_texts_bytes_mono(self.folded.deep_view(), 0);
        }
        let a = sum_bytes(&self.texts);
        let b = sum_bytes(&self.folded);
        a + b
    }

    /// Number of stored strings: lanes plus search folds.
    pub fn stored_string_count(&self) -> (r: usize)
        requires
            self.deep_view().1.len() + self.deep_view().3.len() <= usize::MAX,
        ensures
            r == self.deep_view().1.len() + self.deep_view().3.len(),
    {
        self.texts.len() + self.folded.len()
    }
}

proof fn lemma_texts_bytes_mono(t: TextsView, i: int)
    requires
        0 <= i <= t.len(),
    ensures
        texts_bytes(t.take(i)) <= texts_bytes(t),
    decreases t.len() - i,
{
    if i < t.len() {
        lemma_texts_bytes_mono(t, i + 1);
        assert(t.take(i + 1).drop_last() =~= t.take(i));
    } else {
        assert(t.take(i) =~= t);
    }
}

fn sum_bytes(texts: &Vec<(TranslationId, String)>) -> (r: usize)
    requires
        texts_bytes(texts.deep_view()) <= usize::MAX,
    ensures
        r == texts_bytes(texts.deep_view()),
{
    let ghost tv = texts.deep_view();
    let mut sum: usize = 0;
    let mut i: usize = 0;
    while i < texts.len()
        invariant
            i <= texts@.len(),
            tv == texts.deep_view(),
            texts_bytes(tv) <= usize::MAX,
            sum == texts_bytes(tv.take(i as int)),
        decreases texts@.len() - i,
    {
        let n = texts[i].1.as_str().len();
        proof {
            assert(tv.take(i + 1).drop_last() =~= tv.take(i as int));
            assert(tv.take(i + 1).last() == tv[i as int]);
            lemma_texts_bytes_mono(tv, i + 1);
        }
        sum = sum + n;
        i = i + 1;
    }
    assert(tv.take(texts@.len() as int) =~= tv);
    sum
}

/// A verse hit from a search, as characters: book OSIS id, Chinese book name, book index,
/// chapter, verse, lane, snippet.
pub type HitView = (Seq<char>, Seq<char>, usize, u32, u32, TranslationId, Seq<char>);

/// One verse hit from a search.
#[derive(Debug, Clone, PartialEq, Eq)]
pub struct SearchHit {
    /// OSIS id, e.g. `"Gen"`, `"John"`.
    pub book: String,
    pub book_name_zh: String,
    /// 0-based index in the loaded store (for `load_chapter_at`).
    pub book_index: usize,
    pub chapter: u32,
    pub verse: u32,
    pub translation: TranslationId,
    /// Short excerpt of the matching lane, truncated with ellipsis.
    pub snippet: String,
}

impl DeepView for SearchHit {
    type V = HitView;

    open spec fn deep_view(&self) -> HitView {
        (
            self.book@,
            self.book_name_zh@,
            self.book_index,
            self.chapter,
            self.verse,
            self.translation,
            self.snippet@,
        )
    }
}

/// `"{name} {chapter}:{verse}"`.
pub open spec fn verse_ref(name: Seq<char>, chapter: u32, verse: u32) -> Seq<char> {
    name + " "@ + text::decimal(chapter as nat) + ":"@ + text::decimal(verse as nat)
}

/// `"{name} {chapter}"`.
pub open spec fn chapter_title(name: Seq<char>, chapter: u32) -> Seq<char> {
    name + " "@ + text::decimal(chapter as nat)
}

impl SearchHit {
    /// `約翰福音 3:16`.
    pub fn ref_zh(&self) -> (r: String)
        ensures
            r@ == verse_ref(self.book_name_zh@, self.chapter, self.verse),
    {
        let mut out = self.book_name_zh.clone();
        out.append(" ");
        push_decimal(&mut out, self.chapter as u64);
        out.append(":");
        push_decimal(&mut out, self.verse as u64);
        out
    }
}

/// A chapter as characters: OSIS id, book number, Chinese and English names, chapter, verses.
pub type ChapterView = (Seq<char>, u32, Seq<char>, Seq<char>, u32, Seq<VerseView>);

#[derive(Debug, Clone, PartialEq, Eq)]
pub struct Chapter {
    pub book: String,
    pub book_id: u32,
    pub book_name_zh: String,
    pub book_name_en: String,
    pub chapter: u32,
    pub verses: Vec<Verse>,
}

impl DeepView for Chapter {
    type V = ChapterView;

    open spec fn deep_view(&self) -> ChapterView {
        (
            self.book@,
            self.book_id,
            self.book_name_zh@,
            self.book_name_en@,
            self.chapter,
            self.verses.deep_view(),
        )
    }
}

/// The distinct translation ids of `verses`, in the order they are first seen.
pub open spec fn ids_first_seen(verses: Seq<VerseView>) -> Seq<TranslationId>
    decreases verses.len(),
{
    if verses.len() == 0 {
        Seq::empty()
    } else {
        add_new_ids(ids_first_seen(verses.drop_last()), verses.last().1)
    }
}

/// `ids` followed by the ids of `texts` that it lacks, each once, in order.
pub open spec fn add_new_ids(ids: Seq<TranslationId>, texts: TextsView) -> Seq<TranslationId>
    decreases texts.len(),
{
    if texts.len() == 0 {
        ids
    } else {
        let prev = add_new_ids(ids, texts.drop_last());
        if prev.contains(texts.last().0) {
            prev
        } else {
            prev.push(texts.last().0)
        }
    }
}

fn contains_id(ids: &Vec<TranslationId>, id: TranslationId) -> (r: bool)
    ensures
        r == ids@.contains(id),
{
    let mut i: usize = 0;
    while i < ids.len()
        invariant
            i <= ids@.len(),
            forall|j: int| 0 <= j < i ==> ids@[j] != id,
        decreases ids@.len() - i,
    {
        if ids[i] == id {
            assert(ids@[i as int] == id);
            return true;
        }
        i = i + 1;
    }
    false
}

impl Chapter {
    /// Unique translation ids present in this chapter, in first-seen order.
    pub fn available_translations(&self) -> (r: Vec<TranslationId>)
        ensures
            r@ == ids_first_seen(self.verses.deep_view()),
    {
        let ghost vv = self.verses.deep_view();
        let mut ids: Vec<TranslationId> = Vec::new();
        let mut i: usize = 0;
        while i < self.verses.len()
            invariant
                i <= self.verses@.len(),
                vv == self.verses.deep_view(),
                ids@ == ids_first_seen(vv.take(i as int)),
            decreases self.verses@.len() - i,
        {
            let verse = &self.verses[i];
            let ghost start = ids@;
            let ghost tv = verse.texts.deep_view();
            proof {
                assert(vv[i as int] == verse.deep_view());
                assert(vv.take(i + 1).drop_last() =~= vv.take(i as int));
                assert(vv.take(i + 1).last() == vv[i as int]);
            }
            let mut j: usize = 0;
            while j < verse.texts.len()
                invariant
                    j <= verse.texts@.len(),
                    tv == verse.texts.deep_view(),
                    ids@ == add_new_ids(start, tv.take(j as int)),
                decreases verse.texts@.len() - j,
            {
                let id = verse.texts[j].0;
                proof {
                    assert(tv.take(j + 1).drop_last() =~= tv.take(j as int));
                    assert(tv.take(j + 1).last().0 == id);
                }
                if !contains_id(&ids, id) {
                    ids.push(id);
                }
                j = j + 1;
            }
            assert(tv.take(verse.texts@.len() as int) =~= tv);
            i = i + 1;
        }
        assert(vv.take(self.verses@.len() as int) =~= vv);
        ids
    }

    /// `創世記 1`.
    pub fn title_zh(&self) -> (r: String)
        ensures
            r@ == chapter_title(self.book_name_zh@, self.chapter),
    {
        let mut out = self.book_name_zh.clone();
        out.append(" ");
        push_decimal(&mut out, self.chapter as u64);
        out
    }

    /// `Genesis 1`.
    pub fn title_en(&self) -> (r: String)
        ensures
            r@ == chapter_title(self.book_name_en@, self.chapter),
    {
        let mut out = self.book_name_en.clone();
        out.append(" ");
        push_decimal(&mut out, self.chapter as u64);
        out
    }
}

/// A canonical book in a loaded store, with its chapter count.
#[derive(Debug, Clone, Copy, PartialEq, Eq)]
pub struct BookEntry {
    pub index: usize,
    pub meta: BookMeta,
    pub chapter_count: u32,
}

} // verus!
