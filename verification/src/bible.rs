//! The offline 66-book bilingual store (CUV 1919 神版 + KJV): building it from the aligned
//! pack, listing and finding books, loading chapters with their Hebrew words, and search.

use vstd::prelude::*;

use crate::catalog;
use crate::catalog::{canon_at, lookup_canon, BookMeta};
use crate::chapter;
use crate::chapter::{BookEntry, Chapter, HitView, SearchHit, Verse, VerseView};
use crate::hebrew;
use crate::hebrew::{hebrew_verse, HebrewStore, StoreView};
use crate::search;
use crate::search::verse_hit;
use crate::text;
use crate::text::{chars_of, parse_u32_slice, push_decimal, slice_eq, slice_eq_ic, to_lowercase, trim_str};
use crate::translation::TranslationId;

verus! {

/// `serde_json::Error`, carried opaquely by `LoadError::Json`.
#[verifier::external_type_specification]
#[verifier::external_body]
pub struct ExJsonError(serde_json::Error);

/// Why a chapter or the store could not be loaded.
#[derive(Debug)]
pub enum LoadError {
    Json(serde_json::Error),
    Empty,
    UnknownBook(String),
    MissingChapter { book: String, chapter: u32 },
}

// ---------------------------------------------------------------------------------------
// The aligned pack, as parsed
// ---------------------------------------------------------------------------------------

/// One aligned verse of the pack: number, CUV text, KJV text.
pub struct FileAlignedVerse {
    pub n: u32,
    pub zh: String,
    pub en: String,
}

/// One chapter of the pack: its number and verses.
pub struct FileAlignedChapter {
    pub c: u32,
    pub v: Vec<FileAlignedVerse>,
}

/// One book of the pack.
pub struct FileAlignedBook {
    pub book: String,
    pub book_id: u32,
    pub chapters: Vec<FileAlignedChapter>,
}

/// The whole aligned pack: 66 books in canonical order.
pub struct FileStore {
    pub books: Vec<FileAlignedBook>,
}

/// The view of a verse built by [`Verse::bilingual`].
pub open spec fn bilingual_view(n: u32, zh: Seq<char>, en: Seq<char>) -> VerseView {
    (
        n,
        seq![(TranslationId::Cuv1919, zh), (TranslationId::Kjv, en)],
        None,
        seq![(TranslationId::Kjv, text::lowercase(en))],
    )
}

/// The verses of a pack chapter.
pub open spec fn pack_verses(vs: Seq<FileAlignedVerse>) -> Seq<VerseView> {
    Seq::new(vs.len(), |i: int| bilingual_view(vs[i].n, vs[i].zh@, vs[i].en@))
}

/// Put chapter `c` (1-based) into `chapters`, growing it with empty chapters as needed;
/// chapter 0 is skipped.
pub open spec fn place_chapter(chapters: Seq<Seq<VerseView>>, c: u32, verses: Seq<VerseView>) -> Seq<
    Seq<VerseView>,
> {
    if c == 0 {
        chapters
    } else {
        let grown = if chapters.len() < c {
            chapters + Seq::new((c - chapters.len()) as nat, |i: int| Seq::<VerseView>::empty())
        } else {
            chapters
        };
        grown.update(c - 1, verses)
    }
}

/// The chapters of a pack book, each placed at its number in turn (a later chapter with
/// the same number wins).
pub open spec fn pack_chapters(chs: Seq<FileAlignedChapter>) -> Seq<Seq<VerseView>>
    decreases chs.len(),
{
    if chs.len() == 0 {
        Seq::empty()
    } else {
        place_chapter(pack_chapters(chs.drop_last()), chs.last().c, pack_verses(chs.last().v@))
    }
}

/// The canonical metadata for pack book `index` named `name`: the book `lookup_canon`
/// finds, else the canonical book at that position, else Genesis; the pack's book number
/// replaces the canonical one unless it is 0.
pub open spec fn pack_meta(index: int, name: Seq<char>, book_id: u32) -> BookMeta {
    let base = match catalog::lookup_canon_spec(name) {
        Some(m) => m,
        None => if index < catalog::CANON_LEN {
            catalog::canon_spec(index)
        } else {
            catalog::canon_spec(0)
        },
    };
    BookMeta {
        osis: base.osis,
        book_id: if book_id == 0 {
            base.book_id
        } else {
            book_id
        },
        name_zh: base.name_zh,
        name_zh_short: base.name_zh_short,
        name_en: base.name_en,
        testament: base.testament,
    }
}

/// A book of the store: its catalog entry and its chapters (index = chapter number - 1).
pub type BookView = (BookEntry, Seq<Seq<VerseView>>);

/// The store built from pack book `index`.
pub open spec fn pack_book(index: int, raw: FileAlignedBook) -> BookView {
    let chapters = pack_chapters(raw.chapters@);
    (
        BookEntry {
            index: index as usize,
            meta: pack_meta(index, raw.book@, raw.book_id),
            chapter_count: chapters.len() as u32,
        },
        chapters,
    )
}

/// The books of the store built from the pack, in pack order.
pub open spec fn pack_books(books: Seq<FileAlignedBook>) -> Seq<BookView> {
    Seq::new(books.len(), |i: int| pack_book(i, books[i]))
}

proof fn lemma_pack_chapters_len(chs: Seq<FileAlignedChapter>)
    ensures
        pack_chapters(chs).len() <= u32::MAX,
    decreases chs.len(),
{
    if chs.len() > 0 {
        lemma_pack_chapters_len(chs.drop_last());
    }
}

// ---------------------------------------------------------------------------------------
// The store
// ---------------------------------------------------------------------------------------

struct BookData {
    entry: BookEntry,
    /// Index = chapter number - 1.
    chapters: Vec<Vec<Verse>>,
}

impl DeepView for BookData {
    type V = BookView;

    closed spec fn deep_view(&self) -> BookView {
        (self.entry, self.chapters.deep_view())
    }
}

/// Offline 66-book bilingual store (CUV 神版 + KJV), with the Hebrew words of the Old
/// Testament.
pub struct Bible {
    books: Vec<BookData>,
    hebrew: HebrewStore,
}

/// The books of a store and its Hebrew words.
pub type BibleModel = (Seq<BookView>, StoreView);

/// Every book's entry holds its position, and its chapter count is its number of
/// chapters, which fits in `u32`.
pub open spec fn books_well_formed(books: Seq<BookView>) -> bool {
    forall|b: int|
        0 <= b < books.len() ==> {
            &&& (#[trigger] books[b]).1.len() <= u32::MAX
            &&& books[b].0.chapter_count == books[b].1.len()
            &&& books[b].0.index == b
        }
}

impl View for Bible {
    type V = BibleModel;

    closed spec fn view(&self) -> BibleModel {
        (self.books.deep_view(), self.hebrew@)
    }
}

impl Bible {
    #[verifier::type_invariant]
    closed spec fn well_formed(self) -> bool {
        books_well_formed(self.books.deep_view())
    }
}

fn pack_verses_exec(vs: &Vec<FileAlignedVerse>) -> (r: Vec<Verse>)
    ensures
        r.deep_view() == pack_verses(vs@),
{
    let mut out: Vec<Verse> = Vec::new();
    let mut i: usize = 0;
    while i < vs.len()
        invariant
            i <= vs@.len(),
            out.deep_view() == pack_verses(vs@).take(i as int),
        decreases vs@.len() - i,
    {
        let ghost before = out.deep_view();
        let raw = &vs[i];
        let verse = Verse::bilingual(raw.n, raw.zh.as_str(), raw.en.as_str());
        out.push(verse);
        assert(verse.deep_view() == bilingual_view(raw.n, raw.zh@, raw.en@));
        assert(out.deep_view() =~= before.push(verse.deep_view()));
        i = i + 1;
        assert(out.deep_view() =~= pack_verses(vs@).take(i as int));
    }
    assert(pack_verses(vs@).take(vs@.len() as int) =~= pack_verses(vs@));
    out
}

fn pack_chapters_exec(chs: &Vec<FileAlignedChapter>) -> (r: Vec<Vec<Verse>>)
    ensures
        r.deep_view() == pack_chapters(chs@),
        r@.len() <= u32::MAX,
{
    let mut chapters: Vec<Vec<Verse>> = Vec::new();
    let mut i: usize = 0;
    assert(chs@.take(0) =~= Seq::<FileAlignedChapter>::empty());
    assert(chapters.deep_view() =~= Seq::<Seq<VerseView>>::empty());
    while i < chs.len()
        invariant
            i <= chs@.len(),
            chapters.deep_view() == pack_chapters(chs@.take(i as int)),
        decreases chs@.len() - i,
    {
        proof {
            lemma_pack_chapters_len(chs@.take(i as int));
            assert(chs@.take(i + 1).drop_last() =~= chs@.take(i as int));
            assert(chs@.take(i + 1).last() == chs@[i as int]);
        }
        let ch = &chs[i];
        let n = ch.c;
        if n != 0 {
            let ghost prev = chapters.deep_view();
            let target = n as usize;
            while chapters.len() < target
                invariant
                    prev.len() <= u32::MAX,
                    target == n,
                    chapters@.len() <= target || chapters@.len() == prev.len(),
                    prev.len() <= chapters@.len(),
                    chapters.deep_view() == prev + Seq::new(
                        (chapters@.len() - prev.len()) as nat,
                        |k: int| Seq::<VerseView>::empty(),
                    ),
                decreases target - chapters@.len(),
            {
                let ghost before = chapters.deep_view();
                let empty: Vec<Verse> = Vec::new();
                chapters.push(empty);
                assert(empty.deep_view() =~= Seq::<VerseView>::empty());
                assert(chapters.deep_view() =~= before.push(Seq::<VerseView>::empty()));
                assert(chapters.deep_view() =~= prev + Seq::new(
                    (chapters@.len() - prev.len()) as nat,
                    |k: int| Seq::<VerseView>::empty(),
                ));
            }
            let ghost grown = chapters.deep_view();
            proof {
                if prev.len() < n {
                    assert(grown =~= prev + Seq::new(
                        (n - prev.len()) as nat,
                        |k: int| Seq::<VerseView>::empty(),
                    ));
                } else {
                    assert(grown =~= prev);
                }
            }
            let verses = pack_verses_exec(&ch.v);
            let ghost vv = verses.deep_view();
            chapters[target - 1] = verses;
            assert(chapters.deep_view() =~= grown.update(n - 1, vv));
        }
        i = i + 1;
    }
    assert(chs@.take(chs@.len() as int) =~= chs@);
    proof {
        lemma_pack_chapters_len(chs@);
    }
    chapters
}

impl Bible {
    /// Build the store from the parsed aligned pack and the Hebrew store.
    pub fn from_store(file: FileStore, hebrew: HebrewStore) -> (r: Result<Bible, LoadError>)
        ensures
            file.books@.len() == 0 ==> r matches Err(LoadError::Empty),
            file.books@.len() > 0 ==> (r matches Ok(b) && b@ == (pack_books(file.books@), hebrew@)),
    {
        if file.books.len() == 0 {
            return Err(LoadError::Empty);
        }
        let mut books: Vec<BookData> = Vec::new();
        let mut index: usize = 0;
        while index < file.books.len()
            invariant
                index <= file.books@.len(),
                books.deep_view() == pack_books(file.books@).take(index as int),
                books_well_formed(books.deep_view()),
            decreases file.books@.len() - index,
        {
            let ghost before = books.deep_view();
            let raw = &file.books[index];
            let base = match lookup_canon(raw.book.as_str()) {
                Some(m) => m,
                None => match canon_at(index) {
                    Some(m) => m,
                    None => canon_at(0).unwrap(),
                },
            };
            let chapters = pack_chapters_exec(&raw.chapters);
            let meta = BookMeta {
                osis: base.osis,
                book_id: if raw.book_id == 0 {
                    base.book_id
                } else {
                    raw.book_id
                },
                name_zh: base.name_zh,
                name_zh_short: base.name_zh_short,
                name_en: base.name_en,
                testament: base.testament,
            };
            let entry = BookEntry { index, meta, chapter_count: chapters.len() as u32 };
            let data = BookData { entry, chapters };
            assert(data.deep_view() == pack_book(index as int, file.books@[index as int]));
            books.push(data);
            assert(books.deep_view() =~= before.push(data.deep_view()));
            index = index + 1;
            assert(books.deep_view() =~= pack_books(file.books@).take(index as int));
        }
        assert(pack_books(file.books@).take(file.books@.len() as int) =~= pack_books(file.books@));
        Ok(Bible { books, hebrew })
    }
}


// ---------------------------------------------------------------------------------------
// Books
// ---------------------------------------------------------------------------------------

/// Whether `key` (already trimmed) names a loaded book: its OSIS id or English name ignoring
/// ASCII case, its Chinese name exactly, or its number.
pub open spec fn entry_matches(m: BookMeta, key: Seq<char>) -> bool {
    ||| text::eq_ic(m.osis@, key)
    ||| m.name_zh@ == key
    ||| text::eq_ic(m.name_en@, key)
    ||| text::parse_u32(key) == Some(m.book_id)
}

/// The first book at or after `i` that `key` names.
pub open spec fn first_entry_match(books: Seq<BookView>, key: Seq<char>, i: int) -> Option<int>
    decreases books.len() - i,
{
    if i < 0 || i >= books.len() {
        None
    } else if entry_matches(books[i].0.meta, key) {
        Some(i)
    } else {
        first_entry_match(books, key, i + 1)
    }
}

proof fn lemma_named_from(books: Seq<BookView>, i: int, key: Seq<char>, s: int)
    requires
        0 <= s <= i < books.len(),
        entry_matches(books[i].0.meta, key),
    ensures
        first_entry_match(books, key, s) matches Some(j) && s <= j <= i,
    decreases i - s,
{
    if s < i && !entry_matches(books[s].0.meta, key) {
        lemma_named_from(books, i, key, s + 1);
    }
}

/// A book is found by its OSIS id or English name in any ASCII case, by its Chinese name,
/// or by its number: the first book so named is this one or one before it.
pub proof fn law_named_book_found(books: Seq<BookView>, i: int, key: Seq<char>)
    requires
        0 <= i < books.len(),
        text::eq_ic(books[i].0.meta.osis@, key) || books[i].0.meta.name_zh@ == key
            || text::eq_ic(books[i].0.meta.name_en@, key) || text::parse_u32(key) == Some(
            books[i].0.meta.book_id,
        ),
    ensures
        first_entry_match(books, key, 0) matches Some(j) && j <= i,
{
    lemma_named_from(books, i, key, 0);
}

/// Hebrew words for each verse of a chapter, when the store has any for one of them;
/// otherwise the verses as stored.
pub open spec fn attach_spec(store: StoreView, osis: Seq<char>, chapter: u32, vs: Seq<VerseView>) -> Seq<
    VerseView,
> {
    if exists|i: int|
        0 <= i < vs.len() && (#[trigger] hebrew::hebrew_verse_spec(store, osis, chapter, vs[i].0))
            is Some {
        Seq::new(
            vs.len(),
            |i: int| (vs[i].0, vs[i].1, hebrew::hebrew_verse_spec(store, osis, chapter, vs[i].0), vs[i].3),
        )
    } else {
        vs
    }
}

/// The chapter that loads from book `index` of a store, once it is known to exist.
pub open spec fn loaded_chapter(view: BibleModel, index: int, chapter: u32) -> chapter::ChapterView {
    let (entry, chapters) = view.0[index];
    (
        entry.meta.osis@,
        entry.meta.book_id,
        entry.meta.name_zh@,
        entry.meta.name_en@,
        chapter,
        attach_spec(view.1, entry.meta.osis@, chapter, chapters[chapter - 1]),
    )
}

fn attach_hebrew(store: &HebrewStore, osis: &str, chapter: u32, verses: &Vec<Verse>) -> (r: Vec<
    Verse,
>)
    ensures
        r.deep_view() == attach_spec(store@, osis@, chapter, verses.deep_view()),
{
    let ghost vs = verses.deep_view();
    let ghost looked = Seq::new(
        vs.len(),
        |i: int| (vs[i].0, vs[i].1, hebrew::hebrew_verse_spec(store@, osis@, chapter, vs[i].0), vs[i].3),
    );
    let mut changed = false;
    let mut enriched: Vec<Verse> = Vec::new();
    let mut plain: Vec<Verse> = Vec::new();
    let mut i: usize = 0;
    while i < verses.len()
        invariant
            i <= verses@.len(),
            vs == verses.deep_view(),
            looked.len() == vs.len(),
            looked == Seq::new(
                vs.len(),
                |i: int| (vs[i].0, vs[i].1, hebrew::hebrew_verse_spec(store@, osis@, chapter, vs[i].0), vs[i].3),
            ),
            enriched.deep_view() == looked.take(i as int),
            plain.deep_view() == vs.take(i as int),
            changed <==> exists|j: int|
                0 <= j < i && (#[trigger] hebrew::hebrew_verse_spec(store@, osis@, chapter, vs[j].0))
                    is Some,
        decreases verses@.len() - i,
    {
        let v = &verses[i];
        assert(vs[i as int] == v.deep_view());
        let h = hebrew_verse(store, osis, chapter, v.number);
        assert(h.deep_view() == hebrew::hebrew_verse_spec(store@, osis@, chapter, v.number));
        if h.is_some() {
            changed = true;
        }
        let ghost e0 = enriched.deep_view();
        let ghost p0 = plain.deep_view();
        let w = v.with_hebrew(h);
        enriched.push(w);
        let d = v.duplicate();
        plain.push(d);
        assert(enriched.deep_view() =~= e0.push(w.deep_view()));
        assert(plain.deep_view() =~= p0.push(d.deep_view()));
        i = i + 1;
        assert(enriched.deep_view() =~= looked.take(i as int));
        assert(plain.deep_view() =~= vs.take(i as int));
    }
    assert(looked.take(vs.len() as int) =~= looked);
    assert(vs.take(vs.len() as int) =~= vs);
    if changed {
        enriched
    } else {
        plain
    }
}

impl Bible {
    /// The catalog entries of the loaded books, in order.
    pub fn catalog(&self) -> (r: Vec<BookEntry>)
        ensures
            r@ == self@.0.map_values(|b: BookView| b.0),
    {
        let ghost bv = self@.0;
        let mut out: Vec<BookEntry> = Vec::new();
        let mut i: usize = 0;
        while i < self.books.len()
            invariant
                i <= self.books@.len(),
                bv == self.books.deep_view(),
                bv == self@.0,
                out@ == bv.map_values(|b: BookView| b.0).take(i as int),
            decreases self.books@.len() - i,
        {
            assert(bv[i as int].0 == self.books@[i as int].entry);
            out.push(self.books[i].entry);
            i = i + 1;
            assert(out@ =~= bv.map_values(|b: BookView| b.0).take(i as int));
        }
        assert(bv.map_values(|b: BookView| b.0).take(bv.len() as int) =~= bv.map_values(
            |b: BookView| b.0,
        ));
        out
    }

    /// Number of loaded books (each book's chapter count is its number of chapters).
    pub fn len(&self) -> (r: usize)
        ensures
            r == self@.0.len(),
            books_well_formed(self@.0),
    {
        proof {
            use_type_invariant(self);
        }
        self.books.len()
    }

    pub fn is_empty(&self) -> (r: bool)
        ensures
            r == (self@.0.len() == 0),
    {
        self.books.len() == 0
    }

    /// The catalog entry of book `index`, if there is one.
    pub fn book_at(&self, index: usize) -> (r: Option<BookEntry>)
        ensures
            index < self@.0.len() ==> r == Some(self@.0[index as int].0),
            index >= self@.0.len() ==> r is None,
            r matches Some(e) ==> e.chapter_count == self@.0[index as int].1.len(),
    {
        proof {
            use_type_invariant(self);
        }
        if index < self.books.len() {
            assert(self@.0[index as int].0 == self.books@[index as int].entry);
            Some(self.books[index].entry)
        } else {
            None
        }
    }

    /// The index of the first book that `book` (trimmed) names: OSIS id or English name
    /// ignoring ASCII case, Chinese name, or 1-based book number.
    pub fn index_of(&self, book: &str) -> (r: Option<usize>)
        ensures
            match r {
                Some(i) => first_entry_match(self@.0, text::trim(book@), 0) == Some(i as int),
                None => first_entry_match(self@.0, text::trim(book@), 0) is None,
            },
    {
        let key = trim_str(book);
        let kc = chars_of(key);
        let num = parse_u32_slice(kc.as_slice());
        let ghost bv = self@.0;
        let mut i: usize = 0;
        while i < self.books.len()
            invariant
                i <= self.books@.len(),
                bv == self.books.deep_view(),
                bv == self@.0,
                kc@ == text::trim(book@),
                num == text::parse_u32(kc@),
                first_entry_match(bv, kc@, 0) == first_entry_match(bv, kc@, i as int),
            decreases self.books@.len() - i,
        {
            let m = self.books[i].entry.meta;
            assert(bv[i as int].0.meta == m);
            let osis = chars_of(m.osis);
            let zh = chars_of(m.name_zh);
            let en = chars_of(m.name_en);
            let hit = slice_eq_ic(osis.as_slice(), kc.as_slice()) || slice_eq(
                zh.as_slice(),
                kc.as_slice(),
            ) || slice_eq_ic(en.as_slice(), kc.as_slice()) || match num {
                Some(n) => n == m.book_id,
                None => false,
            };
            if hit {
                return Some(i);
            }
            i = i + 1;
        }
        None
    }

    /// Load chapter `chapter` (1-based) of book `index` (0-based), with its Hebrew words.
    pub fn load_chapter_at(&self, index: usize, chapter: u32) -> (r: Result<Chapter, LoadError>)
        ensures
            index >= self@.0.len() ==> (r matches Err(LoadError::UnknownBook(s)) && s@
                == text::decimal(index as nat)),
            index < self@.0.len() && (chapter == 0 || chapter > self@.0[index as int].1.len())
                ==> (r matches Err(LoadError::MissingChapter { book, chapter: c }) && book@
                == self@.0[index as int].0.meta.osis@ && c == chapter),
            index < self@.0.len() && 0 < chapter <= self@.0[index as int].1.len()
                && self@.0[index as int].1[chapter - 1].len() == 0 ==> r matches Err(
                LoadError::Empty,
            ),
            index < self@.0.len() && 0 < chapter <= self@.0[index as int].1.len()
                && self@.0[index as int].1[chapter - 1].len() > 0 ==> (r matches Ok(c)
                && c.deep_view() == loaded_chapter(self@, index as int, chapter)),
    {
        if index >= self.books.len() {
            let mut s = String::new();
            push_decimal(&mut s, index as u64);
            return Err(LoadError::UnknownBook(s));
        }
        let book = &self.books[index];
        let ghost bv = self@;
        assert(bv.0[index as int] == book.deep_view());
        let meta = book.entry.meta;
        if chapter == 0 || chapter as usize > book.chapters.len() {
            return Err(LoadError::MissingChapter { book: String::from_str(meta.osis), chapter });
        }
        let verses = &book.chapters[(chapter - 1) as usize];
        assert(book.chapters.deep_view()[chapter - 1] == verses.deep_view());
        if verses.len() == 0 {
            return Err(LoadError::Empty);
        }
        let verses = attach_hebrew(&self.hebrew, meta.osis, chapter, verses);
        Ok(
            Chapter {
                book: String::from_str(meta.osis),
                book_id: meta.book_id,
                book_name_zh: String::from_str(meta.name_zh),
                book_name_en: String::from_str(meta.name_en),
                chapter,
                verses,
            },
        )
    }

    /// Load a chapter by OSIS id, Traditional Chinese name, English name, or 1-based book id.
    pub fn load_chapter(&self, book: &str, chapter: u32) -> (r: Result<Chapter, LoadError>)
        ensures
            first_entry_match(self@.0, text::trim(book@), 0) is None ==> (r matches Err(
                LoadError::UnknownBook(s),
            ) && s@ == book@),
            first_entry_match(self@.0, text::trim(book@), 0) matches Some(i) ==> ({
                let index = i;
                &&& (chapter == 0 || chapter > self@.0[index].1.len()) ==> (r matches Err(
                    LoadError::MissingChapter { book: b, chapter: c },
                ) && b@ == self@.0[index].0.meta.osis@ && c == chapter)
                &&& (0 < chapter <= self@.0[index].1.len() && self@.0[index].1[chapter - 1].len()
                    == 0) ==> (r matches Err(LoadError::Empty))
                &&& (0 < chapter <= self@.0[index].1.len() && self@.0[index].1[chapter - 1].len()
                    > 0) ==> (r matches Ok(c) && c.deep_view() == loaded_chapter(
                    self@,
                    index,
                    chapter,
                ))
            }),
    {
        match self.index_of(book) {
            None => Err(LoadError::UnknownBook(String::from_str(book))),
            Some(index) => {
                proof {
                    lemma_first_entry_match_in_range(self@.0, text::trim(book@), 0);
                }
                self.load_chapter_at(index, chapter)
            },
        }
    }
}

proof fn lemma_first_entry_match_in_range(books: Seq<BookView>, key: Seq<char>, i: int)
    ensures
        first_entry_match(books, key, i) matches Some(k) ==> i <= k < books.len(),
    decreases books.len() - i,
{
    if 0 <= i < books.len() {
        lemma_first_entry_match_in_range(books, key, i + 1);
    }
}

// ---------------------------------------------------------------------------------------
// Search
// ---------------------------------------------------------------------------------------

/// `lanes` without repeats, each at its first position.
pub open spec fn dedup_lanes(lanes: Seq<TranslationId>) -> Seq<TranslationId>
    decreases lanes.len(),
{
    if lanes.len() == 0 {
        Seq::empty()
    } else {
        let prev = dedup_lanes(lanes.drop_last());
        if prev.contains(lanes.last()) {
            prev
        } else {
            prev.push(lanes.last())
        }
    }
}

/// The hits of the verses `vs` of one chapter, in verse order.
pub open spec fn hits_in_verses(
    entry: BookEntry,
    chapter: u32,
    vs: Seq<VerseView>,
    lanes: Seq<TranslationId>,
    q: Seq<char>,
    ql: Seq<char>,
) -> Seq<HitView>
    decreases vs.len(),
{
    if vs.len() == 0 {
        Seq::empty()
    } else {
        hits_in_verses(entry, chapter, vs.drop_last(), lanes, q, ql) + search::verse_hits(
            entry,
            chapter,
            vs.last(),
            lanes,
            q,
            ql,
        )
    }
}

/// The hits of the chapters `chs` of one book (chapter number = index + 1), in order.
pub open spec fn hits_in_chapters(
    entry: BookEntry,
    chs: Seq<Seq<VerseView>>,
    lanes: Seq<TranslationId>,
    q: Seq<char>,
    ql: Seq<char>,
) -> Seq<HitView>
    decreases chs.len(),
{
    if chs.len() == 0 {
        Seq::empty()
    } else {
        hits_in_chapters(entry, chs.drop_last(), lanes, q, ql) + hits_in_verses(
            entry,
            chs.len() as u32,
            chs.last(),
            lanes,
            q,
            ql,
        )
    }
}

/// The hits of the books `books`, in store order.
pub open spec fn hits_in_books(
    books: Seq<BookView>,
    lanes: Seq<TranslationId>,
    q: Seq<char>,
    ql: Seq<char>,
) -> Seq<HitView>
    decreases books.len(),
{
    if books.len() == 0 {
        Seq::empty()
    } else {
        hits_in_books(books.drop_last(), lanes, q, ql) + hits_in_chapters(
            books.last().0,
            books.last().1,
            lanes,
            q,
            ql,
        )
    }
}

/// What a search returns: nothing for a blank query or no lanes; otherwise one hit per
/// verse whose lane (first match in `lanes` order, repeats ignored) contains the trimmed
/// query, exactly in a CJK lane and ignoring case otherwise, in store order.
pub open spec fn search_spec(view: BibleModel, query: Seq<char>, lanes: Seq<TranslationId>) -> Seq<
    HitView,
> {
    let q = text::trim(query);
    if q.len() == 0 || lanes.len() == 0 {
        Seq::empty()
    } else {
        hits_in_books(view.0, dedup_lanes(lanes), q, text::lowercase(q))
    }
}

/// Every hit of `hits` is in one of `lanes`.
pub open spec fn hits_in_lanes(hits: Seq<HitView>, lanes: Seq<TranslationId>) -> bool {
    forall|i: int| 0 <= i < hits.len() ==> lanes.contains(#[trigger] hits[i].5)
}

proof fn lemma_dedup_lanes_within(lanes: Seq<TranslationId>, x: TranslationId)
    ensures
        dedup_lanes(lanes).contains(x) ==> lanes.contains(x),
    decreases lanes.len(),
{
    if lanes.len() > 0 {
        let init = lanes.drop_last();
        lemma_dedup_lanes_within(init, x);
        if dedup_lanes(lanes).contains(x) {
            if init.contains(x) {
                let k = choose|k: int| 0 <= k < init.len() && init[k] == x;
                assert(lanes[k] == x);
            } else {
                assert(dedup_lanes(init).push(lanes.last()).contains(x));
                let k = choose|k: int|
                    0 <= k < dedup_lanes(lanes).len() && dedup_lanes(lanes)[k] == x;
                assert(lanes[lanes.len() - 1] == x);
            }
        }
    }
}

proof fn lemma_first_hit_lane_in_range(
    v: VerseView,
    lanes: Seq<TranslationId>,
    q: Seq<char>,
    ql: Seq<char>,
    i: int,
)
    ensures
        search::first_hit_lane(v, lanes, q, ql, i) matches Some(k) ==> 0 <= k < lanes.len(),
    decreases lanes.len() - i,
{
    if 0 <= i < lanes.len() {
        lemma_first_hit_lane_in_range(v, lanes, q, ql, i + 1);
    }
}

proof fn lemma_concat_in_lanes(a: Seq<HitView>, b: Seq<HitView>, lanes: Seq<TranslationId>)
    requires
        hits_in_lanes(a, lanes),
        hits_in_lanes(b, lanes),
    ensures
        hits_in_lanes(a + b, lanes),
{
    assert forall|i: int| 0 <= i < (a + b).len() implies lanes.contains(#[trigger] (a + b)[i].5) by {
        if i < a.len() {
            assert((a + b)[i] == a[i]);
        } else {
            assert((a + b)[i] == b[i - a.len()]);
        }
    }
}

proof fn lemma_verses_in_lanes(
    entry: BookEntry,
    chapter: u32,
    vs: Seq<VerseView>,
    lanes: Seq<TranslationId>,
    q: Seq<char>,
    ql: Seq<char>,
)
    ensures
        hits_in_lanes(hits_in_verses(entry, chapter, vs, lanes, q, ql), lanes),
    decreases vs.len(),
{
    if vs.len() > 0 {
        lemma_verses_in_lanes(entry, chapter, vs.drop_last(), lanes, q, ql);
        let h = search::verse_hits(entry, chapter, vs.last(), lanes, q, ql);
        lemma_first_hit_lane_in_range(vs.last(), lanes, q, ql, 0);
        assert(hits_in_lanes(h, lanes)) by {
            match search::first_hit_lane(vs.last(), lanes, q, ql, 0) {
                Some(k) => {
                    assert(h[0].5 == lanes[k]);
                },
                None => {},
            }
        }
        lemma_concat_in_lanes(hits_in_verses(entry, chapter, vs.drop_last(), lanes, q, ql), h, lanes);
    }
}

proof fn lemma_chapters_in_lanes(
    entry: BookEntry,
    chs: Seq<Seq<VerseView>>,
    lanes: Seq<TranslationId>,
    q: Seq<char>,
    ql: Seq<char>,
)
    ensures
        hits_in_lanes(hits_in_chapters(entry, chs, lanes, q, ql), lanes),
    decreases chs.len(),
{
    if chs.len() > 0 {
        lemma_chapters_in_lanes(entry, chs.drop_last(), lanes, q, ql);
        lemma_verses_in_lanes(entry, chs.len() as u32, chs.last(), lanes, q, ql);
        lemma_concat_in_lanes(
            hits_in_chapters(entry, chs.drop_last(), lanes, q, ql),
            hits_in_verses(entry, chs.len() as u32, chs.last(), lanes, q, ql),
            lanes,
        );
    }
}

proof fn lemma_books_in_lanes(
    books: Seq<BookView>,
    lanes: Seq<TranslationId>,
    q: Seq<char>,
    ql: Seq<char>,
)
    ensures
        hits_in_lanes(hits_in_books(books, lanes, q, ql), lanes),
    decreases books.len(),
{
    if books.len() > 0 {
        lemma_books_in_lanes(books.drop_last(), lanes, q, ql);
        lemma_chapters_in_lanes(books.last().0, books.last().1, lanes, q, ql);
        lemma_concat_in_lanes(
            hits_in_books(books.drop_last(), lanes, q, ql),
            hits_in_chapters(books.last().0, books.last().1, lanes, q, ql),
            lanes,
        );
    }
}

/// A blank query (or no lanes) finds nothing.
pub proof fn law_blank_query_finds_nothing(view: BibleModel, query: Seq<char>, lanes: Seq<TranslationId>)
    requires
        text::trim(query).len() == 0 || lanes.len() == 0,
    ensures
        search_spec(view, query, lanes) == Seq::<HitView>::empty(),
{
}

/// Every hit of a search is in one of the lanes searched.
pub proof fn law_hits_stay_in_lanes(view: BibleModel, query: Seq<char>, lanes: Seq<TranslationId>)
    ensures
        hits_in_lanes(search_spec(view, query, lanes), lanes),
{
    let q = text::trim(query);
    if q.len() > 0 && lanes.len() > 0 {
        let d = dedup_lanes(lanes);
        lemma_books_in_lanes(view.0, d, q, text::lowercase(q));
        let hits = search_spec(view, query, lanes);
        assert forall|i: int| 0 <= i < hits.len() implies lanes.contains(#[trigger] hits[i].5) by {
            lemma_dedup_lanes_within(lanes, hits[i].5);
        }
    }
}

proof fn lemma_dedup_lanes_keeps(lanes: Seq<TranslationId>, x: TranslationId)
    requires
        lanes.contains(x),
    ensures
        dedup_lanes(lanes).contains(x),
    decreases lanes.len(),
{
    let init = lanes.drop_last();
    if init.contains(x) {
        lemma_dedup_lanes_keeps(init, x);
        let k = choose|k: int| 0 <= k < dedup_lanes(init).len() && dedup_lanes(init)[k] == x;
        if !dedup_lanes(init).contains(lanes.last()) {
            assert(dedup_lanes(lanes)[k] == x);
        }
    } else {
        let k = choose|k: int| 0 <= k < lanes.len() && lanes[k] == x;
        if k < lanes.len() - 1 {
            assert(init[k] == x);
        }
        if !dedup_lanes(init).contains(lanes.last()) {
            assert(dedup_lanes(lanes)[dedup_lanes(init).len() as int] == x);
        }
    }
}

proof fn lemma_first_hit_lane_found(
    v: VerseView,
    lanes: Seq<TranslationId>,
    q: Seq<char>,
    ql: Seq<char>,
    s: int,
    k: int,
)
    requires
        0 <= s <= k < lanes.len(),
        chapter::lane_text(v.1, lanes[k]) matches Some(x) && search::text_matches_spec(
            v,
            x,
            q,
            ql,
            lanes[k],
        ),
    ensures
        search::first_hit_lane(v, lanes, q, ql, s) is Some,
    decreases k - s,
{
    if s < k {
        lemma_first_hit_lane_found(v, lanes, q, ql, s + 1, k);
    }
}

/// The hit of a verse, once it has one.
pub open spec fn hit_of(entry: BookEntry, c: u32, v: VerseView, lanes: Seq<TranslationId>, q: Seq<char>, ql: Seq<char>) -> HitView {
    search::verse_hits(entry, c, v, lanes, q, ql)[0]
}

proof fn lemma_in_verses(
    entry: BookEntry,
    c: u32,
    vs: Seq<VerseView>,
    lanes: Seq<TranslationId>,
    q: Seq<char>,
    ql: Seq<char>,
    v: int,
)
    requires
        0 <= v < vs.len(),
        search::verse_hits(entry, c, vs[v], lanes, q, ql).len() > 0,
    ensures
        hits_in_verses(entry, c, vs, lanes, q, ql).contains(hit_of(entry, c, vs[v], lanes, q, ql)),
    decreases vs.len(),
{
    let prev = hits_in_verses(entry, c, vs.drop_last(), lanes, q, ql);
    let all = hits_in_verses(entry, c, vs, lanes, q, ql);
    if v == vs.len() - 1 {
        assert(all[prev.len() as int] == hit_of(entry, c, vs[v], lanes, q, ql));
    } else {
        assert(vs.drop_last()[v] == vs[v]);
        lemma_in_verses(entry, c, vs.drop_last(), lanes, q, ql, v);
        let k = choose|k: int| 0 <= k < prev.len() && prev[k] == hit_of(entry, c, vs[v], lanes, q, ql);
        assert(all[k] == prev[k]);
    }
}

proof fn lemma_in_chapters(
    entry: BookEntry,
    chs: Seq<Seq<VerseView>>,
    lanes: Seq<TranslationId>,
    q: Seq<char>,
    ql: Seq<char>,
    c: u32,
    x: HitView,
)
    requires
        1 <= c <= chs.len(),
        hits_in_verses(entry, c, chs[c - 1], lanes, q, ql).contains(x),
    ensures
        hits_in_chapters(entry, chs, lanes, q, ql).contains(x),
    decreases chs.len(),
{
    let prev = hits_in_chapters(entry, chs.drop_last(), lanes, q, ql);
    let all = hits_in_chapters(entry, chs, lanes, q, ql);
    if c == chs.len() {
        let last = hits_in_verses(entry, chs.len() as u32, chs.last(), lanes, q, ql);
        let k = choose|k: int| 0 <= k < last.len() && last[k] == x;
        assert(all[prev.len() + k] == last[k]);
    } else {
        assert(chs.drop_last()[c - 1] == chs[c - 1]);
        lemma_in_chapters(entry, chs.drop_last(), lanes, q, ql, c, x);
        let k = choose|k: int| 0 <= k < prev.len() && prev[k] == x;
        assert(all[k] == prev[k]);
    }
}

proof fn lemma_in_books(
    books: Seq<BookView>,
    lanes: Seq<TranslationId>,
    q: Seq<char>,
    ql: Seq<char>,
    b: int,
    x: HitView,
)
    requires
        0 <= b < books.len(),
        hits_in_chapters(books[b].0, books[b].1, lanes, q, ql).contains(x),
    ensures
        hits_in_books(books, lanes, q, ql).contains(x),
    decreases books.len(),
{
    let prev = hits_in_books(books.drop_last(), lanes, q, ql);
    let all = hits_in_books(books, lanes, q, ql);
    if b == books.len() - 1 {
        let last = hits_in_chapters(books.last().0, books.last().1, lanes, q, ql);
        let k = choose|k: int| 0 <= k < last.len() && last[k] == x;
        assert(all[prev.len() + k] == last[k]);
    } else {
        assert(books.drop_last()[b] == books[b]);
        lemma_in_books(books.drop_last(), lanes, q, ql, b, x);
        let k = choose|k: int| 0 <= k < prev.len() && prev[k] == x;
        assert(all[k] == prev[k]);
    }
}

/// Search misses no verse: whenever one of the lanes asked for holds a text of verse `v`
/// of chapter `c` of book `b` that matches the trimmed query, the hits hold one for that
/// verse: same book, chapter and verse number.
pub proof fn law_search_finds_every_matching_verse(
    view: BibleModel,
    query: Seq<char>,
    lanes: Seq<TranslationId>,
    b: int,
    c: u32,
    v: int,
    t: int,
)
    requires
        text::trim(query).len() > 0,
        0 <= b < view.0.len(),
        1 <= c <= view.0[b].1.len(),
        0 <= v < view.0[b].1[c - 1].len(),
        0 <= t < lanes.len(),
        chapter::lane_text(view.0[b].1[c - 1][v].1, lanes[t]) matches Some(x)
            && search::text_matches_spec(
            view.0[b].1[c - 1][v],
            x,
            text::trim(query),
            text::lowercase(text::trim(query)),
            lanes[t],
        ),
    ensures
        exists|k: int|
            0 <= k < search_spec(view, query, lanes).len() && {
                let h = #[trigger] search_spec(view, query, lanes)[k];
                &&& h.2 == view.0[b].0.index
                &&& h.3 == c
                &&& h.4 == view.0[b].1[c - 1][v].0
            },
{
    let q = text::trim(query);
    let ql = text::lowercase(q);
    let d = dedup_lanes(lanes);
    let verse = view.0[b].1[c - 1][v];
    let entry = view.0[b].0;
    assert(lanes.contains(lanes[t]));
    lemma_dedup_lanes_keeps(lanes, lanes[t]);
    let k = choose|k: int| 0 <= k < d.len() && d[k] == lanes[t];
    lemma_first_hit_lane_found(verse, d, q, ql, 0, k);
    lemma_first_hit_lane_in_range(verse, d, q, ql, 0);
    let h = hit_of(entry, c, verse, d, q, ql);
    lemma_in_verses(entry, c, view.0[b].1[c - 1], d, q, ql, v);
    lemma_in_chapters(entry, view.0[b].1, d, q, ql, c, h);
    lemma_in_books(view.0, d, q, ql, b, h);
    let hits = search_spec(view, query, lanes);
    let m = choose|m: int| 0 <= m < hits.len() && hits[m] == h;
    assert(hits[m] == h);
}

fn dedup_lanes_exec(lanes: &[TranslationId]) -> (r: Vec<TranslationId>)
    ensures
        r@ == dedup_lanes(lanes@),
{
    let mut out: Vec<TranslationId> = Vec::new();
    let mut i: usize = 0;
    while i < lanes.len()
        invariant
            i <= lanes@.len(),
            out@ == dedup_lanes(lanes@.take(i as int)),
        decreases lanes@.len() - i,
    {
        let id = lanes[i];
        proof {
            assert(lanes@.take(i + 1).drop_last() =~= lanes@.take(i as int));
            assert(lanes@.take(i + 1).last() == id);
        }
        let mut seen = false;
        let mut j: usize = 0;
        while j < out.len()
            invariant
                j <= out@.len(),
                seen <==> exists|k: int| 0 <= k < j && out@[k] == id,
            decreases out@.len() - j,
        {
            if out[j] == id {
                seen = true;
            }
            j = j + 1;
        }
        if !seen {
            assert(!out@.contains(id));
            out.push(id);
        } else {
            assert(out@.contains(id));
        }
        i = i + 1;
    }
    assert(lanes@.take(lanes@.len() as int) =~= lanes@);
    out
}

impl Bible {
    /// In-memory substring search over the given translation lanes.
    ///
    /// - Empty / whitespace-only queries return no hits (query is trimmed).
    /// - CJK lanes (`TranslationId::is_cjk`): exact substring.
    /// - Other lanes: case-insensitive substring.
    /// - One hit per verse (first matching lane in `lanes` order).
    pub fn search(&self, query: &str, lanes: &[TranslationId]) -> (r: Vec<SearchHit>)
        ensures
            r.deep_view() == search_spec(self@, query@, lanes@),
    {
        proof {
            use_type_invariant(self);
        }
        let q = trim_str(query);
        let qc = chars_of(q);
        if qc.len() == 0 || lanes.len() == 0 {
            let empty: Vec<SearchHit> = Vec::new();
            assert(empty.deep_view() =~= Seq::<HitView>::empty());
            return empty;
        }
        let unique = dedup_lanes_exec(lanes);
        let lower = to_lowercase(q);
        let qlc = chars_of(lower.as_str());
        let ghost u = unique@;
        let ghost ql = qlc@;
        let ghost bv = self@.0;
        let mut hits: Vec<SearchHit> = Vec::new();
        assert(hits.deep_view() =~= hits_in_books(bv.take(0), u, q@, ql));
        let mut b: usize = 0;
        while b < self.books.len()
            invariant
                b <= self.books@.len(),
                bv == self.books.deep_view(),
                books_well_formed(bv),
                qc@ == q@,
                u == unique@,
                ql == qlc@,
                hits.deep_view() == hits_in_books(bv.take(b as int), u, q@, ql),
            decreases self.books@.len() - b,
        {
            let book = &self.books[b];
            let entry = book.entry;
            let ghost chs = book.chapters.deep_view();
            assert(bv[b as int] == (entry, chs));
            let ghost base = hits.deep_view();
            assert(hits.deep_view() =~= base + hits_in_chapters(entry, chs.take(0), u, q@, ql));
            let mut c: usize = 0;
            while c < book.chapters.len()
                invariant
                    c <= book.chapters@.len(),
                    chs == book.chapters.deep_view(),
                    chs.len() <= u32::MAX,
                    qc@ == q@,
                    u == unique@,
                    ql == qlc@,
                    hits.deep_view() == base + hits_in_chapters(entry, chs.take(c as int), u, q@, ql),
                decreases book.chapters@.len() - c,
            {
                let verses = &book.chapters[c];
                let ghost vs = verses.deep_view();
                assert(chs[c as int] == vs);
                let number: u32 = (c as u32) + 1;
                let ghost mid = hits.deep_view();
                assert(hits.deep_view() =~= mid + hits_in_verses(entry, number, vs.take(0), u, q@, ql));
                let mut v: usize = 0;
                while v < verses.len()
                    invariant
                        v <= verses@.len(),
                        vs == verses.deep_view(),
                        qc@ == q@,
                        u == unique@,
                        ql == qlc@,
                        hits.deep_view() == mid + hits_in_verses(entry, number, vs.take(v as int), u, q@, ql),
                    decreases verses@.len() - v,
                {
                    let ghost before = hits.deep_view();
                    let verse = &verses[v];
                    assert(vs[v as int] == verse.deep_view());
                    proof {
                        assert(vs.take(v + 1).drop_last() =~= vs.take(v as int));
                        assert(vs.take(v + 1).last() == vs[v as int]);
                    }
                    match verse_hit(&entry, number, verse, unique.as_slice(), q, &qc, &qlc) {
                        Some(h) => {
                            hits.push(h);
                            assert(hits.deep_view() =~= before + seq![h.deep_view()]);
                        },
                        None => {},
                    }
                    assert(hits.deep_view() =~= mid + hits_in_verses(
                        entry,
                        number,
                        vs.take(v + 1),
                        u,
                        q@,
                        ql,
                    ));
                    v = v + 1;
                }
                proof {
                    assert(vs.take(vs.len() as int) =~= vs);
                    assert(chs.take(c + 1).drop_last() =~= chs.take(c as int));
                    assert(chs.take(c + 1).last() == vs);
                    assert(chs.take(c + 1).len() == number);
                    assert(hits.deep_view() =~= base + hits_in_chapters(
                        entry,
                        chs.take(c + 1),
                        u,
                        q@,
                        ql,
                    ));
                }
                c = c + 1;
            }
            proof {
                assert(chs.take(chs.len() as int) =~= chs);
                assert(bv.take(b + 1).drop_last() =~= bv.take(b as int));
                assert(bv.take(b + 1).last() == (entry, chs));
                assert(hits.deep_view() =~= hits_in_books(bv.take(b + 1), u, q@, ql));
            }
            b = b + 1;
        }
        assert(bv.take(bv.len() as int) =~= bv);
        hits
    }
}

// ---------------------------------------------------------------------------------------
// Single aligned chapters
// ---------------------------------------------------------------------------------------

/// One verse of an aligned chapter file.
pub struct FileVerse {
    pub number: u32,
    pub zh: String,
    pub en: String,
}

/// An aligned chapter file (CUV 1919 神版 + KJV), such as the Genesis 1 snapshot.
pub struct FileChapter {
    pub book: String,
    pub book_id: u32,
    pub book_name_zh: String,
    pub book_name_en: String,
    pub chapter: u32,
    pub chinese_label: String,
    pub english_label: String,
    pub verses: Vec<FileVerse>,
}

/// The chapter an aligned chapter file loads as, when it has verses.
pub open spec fn aligned_file_chapter(file: FileChapter, store: StoreView) -> chapter::ChapterView {
    (
        file.book@,
        file.book_id,
        file.book_name_zh@,
        file.book_name_en@,
        file.chapter,
        attach_spec(
            store,
            file.book@,
            file.chapter,
            Seq::new(
                file.verses@.len(),
                |i: int|
                    bilingual_view(
                        file.verses@[i].number,
                        file.verses@[i].zh@,
                        file.verses@[i].en@,
                    ),
            ),
        ),
    )
}

/// Load an aligned chapter file with the Hebrew words of its verses.
pub fn load_aligned_chapter(file: FileChapter, store: &HebrewStore) -> (r: Result<Chapter, LoadError>)
    ensures
        file.verses@.len() == 0 ==> r matches Err(LoadError::Empty),
        file.verses@.len() > 0 ==> (r matches Ok(c) && c.deep_view() == aligned_file_chapter(
            file,
            store@,
        )),
{
    if file.verses.len() == 0 {
        return Err(LoadError::Empty);
    }
    let ghost fv = file.verses@;
    let ghost want = Seq::new(
        fv.len(),
        |i: int| bilingual_view(fv[i].number, fv[i].zh@, fv[i].en@),
    );
    let mut verses: Vec<Verse> = Vec::new();
    let mut i: usize = 0;
    while i < file.verses.len()
        invariant
            i <= fv.len(),
            fv == file.verses@,
            want == Seq::new(
                fv.len(),
                |i: int| bilingual_view(fv[i].number, fv[i].zh@, fv[i].en@),
            ),
            verses.deep_view() == want.take(i as int),
        decreases fv.len() - i,
    {
        let ghost before = verses.deep_view();
        let raw = &file.verses[i];
        let verse = Verse::bilingual(raw.number, raw.zh.as_str(), raw.en.as_str());
        verses.push(verse);
        assert(verses.deep_view() =~= before.push(verse.deep_view()));
        i = i + 1;
        assert(verses.deep_view() =~= want.take(i as int));
    }
    assert(want.take(fv.len() as int) =~= want);
    let attached = attach_hebrew(store, file.book.as_str(), file.chapter, &verses);
    Ok(
        Chapter {
            book: file.book,
            book_id: file.book_id,
            book_name_zh: file.book_name_zh,
            book_name_en: file.book_name_en,
            chapter: file.chapter,
            verses: attached,
        },
    )
}

/// Schema of midvash/bible-data `versions/*/books/*.json`.
#[derive(Debug)]
pub struct FileBook {
    pub version: String,
    pub book: String,
    pub book_id: u32,
    pub english_name: String,
    pub testament: String,
    pub chapters: Vec<FileBookChapter>,
}

#[derive(Debug)]
pub struct FileBookChapter {
    pub chapter: u32,
    pub verses: Vec<FileBookVerse>,
}

#[derive(Debug)]
pub struct FileBookVerse {
    pub number: u32,
    pub text: String,
}

/// The first chapter of `chs` at or after `i` numbered `chapter`.
pub open spec fn first_file_chapter(chs: Seq<FileBookChapter>, chapter: u32, i: int) -> Option<int>
    decreases chs.len() - i,
{
    if i < 0 || i >= chs.len() {
        None
    } else if chs[i].chapter == chapter {
        Some(i)
    } else {
        first_file_chapter(chs, chapter, i + 1)
    }
}

/// The text of the last verse of `vs` numbered `n` (a later verse with the same number
/// replaces an earlier one).
pub open spec fn last_verse_text(vs: Seq<FileBookVerse>, n: u32) -> Option<Seq<char>>
    decreases vs.len(),
{
    if vs.len() == 0 {
        None
    } else if vs.last().number == n {
        Some(vs.last().text@)
    } else {
        last_verse_text(vs.drop_last(), n)
    }
}

/// The verses of `zh` that `en` has too, each with `上帝` written `神` in its Chinese text.
pub open spec fn aligned_verses(zh: Seq<FileBookVerse>, en: Seq<FileBookVerse>) -> Seq<VerseView>
    decreases zh.len(),
{
    if zh.len() == 0 {
        Seq::empty()
    } else {
        let prev = aligned_verses(zh.drop_last(), en);
        let v = zh.last();
        match last_verse_text(en, v.number) {
            Some(t) => prev.push(
                bilingual_view(v.number, text::replace_all(v.text@, "上帝"@, "神"@), t),
            ),
            None => prev,
        }
    }
}

fn last_verse_text_exec(vs: &Vec<FileBookVerse>, n: u32) -> (r: Option<&str>)
    ensures
        match r {
            Some(t) => last_verse_text(vs@, n) == Some(t@),
            None => last_verse_text(vs@, n) is None,
        },
{
    let mut k: usize = vs.len();
    assert(vs@.take(k as int) =~= vs@);
    while k > 0
        invariant
            k <= vs@.len(),
            last_verse_text(vs@, n) == last_verse_text(vs@.take(k as int), n),
        decreases k,
    {
        let ghost p = vs@.take(k as int);
        assert(p.drop_last() =~= vs@.take(k - 1));
        assert(p.last() == vs@[k - 1]);
        if vs[k - 1].number == n {
            return Some(vs[k - 1].text.as_str());
        }
        k = k - 1;
    }
    assert(vs@.take(0) =~= Seq::<FileBookVerse>::empty());
    None
}

fn find_file_chapter(chs: &Vec<FileBookChapter>, chapter: u32) -> (r: Option<usize>)
    ensures
        match r {
            Some(i) => first_file_chapter(chs@, chapter, 0) == Some(i as int) && i < chs@.len(),
            None => first_file_chapter(chs@, chapter, 0) is None,
        },
{
    let mut i: usize = 0;
    while i < chs.len()
        invariant
            i <= chs@.len(),
            first_file_chapter(chs@, chapter, 0) == first_file_chapter(chs@, chapter, i as int),
        decreases chs@.len() - i,
    {
        if chs[i].chapter == chapter {
            return Some(i);
        }
        i = i + 1;
    }
    None
}

proof fn lemma_replace_first_char(t: Seq<char>)
    requires
        t.len() > 0,
        t[0] != '帝',
    ensures
        text::replace_all(t, seq!['上', '帝'], seq!['神']).len() > 0,
        text::replace_all(t, seq!['上', '帝'], seq!['神'])[0] != '帝',
{
    let from = seq!['上', '帝'];
    let to = seq!['神'];
    if t.len() < 2 {
    } else if t.take(2) == from {
        assert((to + text::replace_all(t.skip(2), from, to))[0] == '神');
    } else {
        assert((seq![t[0]] + text::replace_all(t.drop_first(), from, to))[0] == t[0]);
    }
}

proof fn lemma_no_shangdi_after_replace(s: Seq<char>)
    ensures
        !text::contains(text::replace_all(s, seq!['上', '帝'], seq!['神']), seq!['上', '帝']),
    decreases s.len(),
{
    let from = seq!['上', '帝'];
    let to = seq!['神'];
    let r = text::replace_all(s, from, to);
    if s.len() < 2 {
        assert(r == s);
        if text::contains(r, from) {
            let i = choose|i: int| text::occurs_at(r, from, i);
        }
    } else if s.take(2) == from {
        let rest = text::replace_all(s.skip(2), from, to);
        lemma_no_shangdi_after_replace(s.skip(2));
        assert(r == to + rest);
        if text::contains(r, from) {
            let i = choose|i: int| text::occurs_at(r, from, i);
            assert(r.subrange(i, i + 2) == from);
            if i == 0 {
                assert(r[0] == '神');
                assert(r.subrange(0, 2)[0] == r[0]);
            } else {
                assert(rest.subrange(i - 1, i + 1) =~= r.subrange(i, i + 2));
                assert(text::occurs_at(rest, from, i - 1));
            }
        }
    } else {
        let t = s.drop_first();
        let rest = text::replace_all(t, from, to);
        lemma_no_shangdi_after_replace(t);
        assert(r == seq![s[0]] + rest);
        if text::contains(r, from) {
            let i = choose|i: int| text::occurs_at(r, from, i);
            assert(r.subrange(i, i + 2) == from);
            if i == 0 {
                assert(r.subrange(0, 2)[0] == s[0]);
                assert(r.subrange(0, 2)[1] == r[1]);
                assert(s[0] == '上');
                assert(s[1] != '帝') by {
                    if s[1] == '帝' {
                        assert(s.take(2) =~= from);
                    }
                }
                assert(t[0] == s[1]);
                lemma_replace_first_char(t);
                assert(r[1] == rest[0]);
            } else {
                assert(rest.subrange(i - 1, i + 1) =~= r.subrange(i, i + 2));
                assert(text::occurs_at(rest, from, i - 1));
            }
        }
    }
}

/// Writing `上帝` as `神` leaves no `上帝` behind, whatever the text.
pub proof fn law_shangdi_never_survives(s: Seq<char>)
    ensures
        !text::contains(text::replace_all(s, "上帝"@, "神"@), "上帝"@),
{
    reveal_strlit("上帝");
    reveal_strlit("神");
    assert("上帝"@ =~= seq!['上', '帝']);
    assert("神"@ =~= seq!['神']);
    lemma_no_shangdi_after_replace(s);
}

/// No Chinese lane of an aligned chapter holds `上帝`.
pub proof fn law_aligned_chinese_has_no_shangdi(
    zh: Seq<FileBookVerse>,
    en: Seq<FileBookVerse>,
    k: int,
)
    requires
        0 <= k < aligned_verses(zh, en).len(),
    ensures
        aligned_verses(zh, en)[k].1[0].0 == TranslationId::Cuv1919,
        !text::contains(aligned_verses(zh, en)[k].1[0].1, "上帝"@),
    decreases zh.len(),
{
    let prev = aligned_verses(zh.drop_last(), en);
    let v = zh.last();
    match last_verse_text(en, v.number) {
        Some(t) => {
            if k < prev.len() {
                law_aligned_chinese_has_no_shangdi(zh.drop_last(), en, k);
            } else {
                law_shangdi_never_survives(v.text@);
            }
        },
        None => {
            law_aligned_chinese_has_no_shangdi(zh.drop_last(), en, k);
        },
    }
}

/// What [`align_chapter`] builds when both books have the chapter and some verse aligns.
pub open spec fn aligned_chapter(
    chinese: FileBook,
    zh: Seq<FileBookVerse>,
    en: Seq<FileBookVerse>,
    chapter: u32,
) -> chapter::ChapterView {
    let meta = catalog::lookup_canon_spec(chinese.book@);
    (
        chinese.book@,
        chinese.book_id,
        match meta {
            Some(m) => m.name_zh@,
            None => "創世記"@,
        },
        match meta {
            Some(m) => m.name_en@,
            None => chinese.english_name@,
        },
        chapter,
        aligned_verses(zh, en),
    )
}

/// Align two bible-data book files by verse number for a single chapter.
pub fn align_chapter(chinese: &FileBook, english: &FileBook, chapter: u32) -> (r: Result<
    Chapter,
    LoadError,
>)
    ensures
        first_file_chapter(chinese.chapters@, chapter, 0) is None ==> r matches Err(
            LoadError::Empty,
        ),
        first_file_chapter(english.chapters@, chapter, 0) is None ==> r matches Err(
            LoadError::Empty,
        ),
        first_file_chapter(chinese.chapters@, chapter, 0) matches Some(a) ==> (
        first_file_chapter(english.chapters@, chapter, 0) matches Some(b) ==> ({
            let zh = chinese.chapters@[a].verses@;
            let en = english.chapters@[b].verses@;
            &&& aligned_verses(zh, en).len() == 0 ==> (r matches Err(LoadError::Empty))
            &&& aligned_verses(zh, en).len() > 0 ==> (r matches Ok(c) && c.deep_view()
                == aligned_chapter(*chinese, zh, en, chapter))
        })),
{
    let a = match find_file_chapter(&chinese.chapters, chapter) {
        Some(a) => a,
        None => {
            return Err(LoadError::Empty);
        },
    };
    let b = match find_file_chapter(&english.chapters, chapter) {
        Some(b) => b,
        None => {
            return Err(LoadError::Empty);
        },
    };
    let zh = &chinese.chapters[a].verses;
    let en = &english.chapters[b].verses;
    proof {
        reveal_strlit("上帝");
    }
    let mut verses: Vec<Verse> = Vec::new();
    let mut i: usize = 0;
    while i < zh.len()
        invariant
            i <= zh@.len(),
            verses.deep_view() == aligned_verses(zh@.take(i as int), en@),
        decreases zh@.len() - i,
    {
        let ghost before = verses.deep_view();
        let v = &zh[i];
        proof {
            assert(zh@.take(i + 1).drop_last() =~= zh@.take(i as int));
            assert(zh@.take(i + 1).last() == zh@[i as int]);
        }
        match last_verse_text_exec(en, v.number) {
            Some(t) => {
                proof {
                    reveal_strlit("上帝");
                }
                let chinese_text = crate::text::replace_str(v.text.as_str(), "上帝", "神");
                let verse = Verse::bilingual(v.number, chinese_text.as_str(), t);
                verses.push(verse);
                assert(verses.deep_view() =~= before.push(verse.deep_view()));
            },
            None => {},
        }
        i = i + 1;
    }
    assert(zh@.take(zh@.len() as int) =~= zh@);
    if verses.len() == 0 {
        return Err(LoadError::Empty);
    }
    let meta = lookup_canon(chinese.book.as_str());
    let name_zh = match meta {
        Some(m) => String::from_str(m.name_zh),
        None => String::from_str("創世記"),
    };
    let name_en = match meta {
        Some(m) => String::from_str(m.name_en),
        None => chinese.english_name.clone(),
    };
    Ok(
        Chapter {
            book: chinese.book.clone(),
            book_id: chinese.book_id,
            book_name_zh: name_zh,
            book_name_en: name_en,
            chapter,
            verses,
        },
    )
}

/// The text of a `serde_json` parse error. Trusted: calls `serde_json::Error`'s `Display`;
/// nothing is claimed of the text.
#[verifier::external_body]
fn json_error_text(e: &serde_json::Error) -> String {
    e.to_string()
}

impl LoadError {
    /// The message shown for this error.
    pub fn message(&self) -> (r: String)
        ensures
            match self {
                LoadError::Json(_) => r@.take(32) == "failed to parse scripture JSON: "@,
                LoadError::Empty => r@ == "chapter contains no verses"@,
                LoadError::UnknownBook(book) => r@ == "unknown book: "@ + book@,
                LoadError::MissingChapter { book, chapter } => r@ == "missing "@ + book@
                    + " chapter "@ + text::decimal(*chapter as nat),
            },
    {
        match self {
            LoadError::Json(e) => {
                let mut out = String::from_str("failed to parse scripture JSON: ");
                let t = json_error_text(e);
                out.append(t.as_str());
                proof {
                    reveal_strlit("failed to parse scripture JSON: ");
                    assert(out@.take(32) =~= "failed to parse scripture JSON: "@);
                }
                out
            },
            LoadError::Empty => String::from_str("chapter contains no verses"),
            LoadError::UnknownBook(book) => {
                let mut out = String::from_str("unknown book: ");
                out.append(book.as_str());
                out
            },
            LoadError::MissingChapter { book, chapter } => {
                let mut out = String::from_str("missing ");
                out.append(book.as_str());
                out.append(" chapter ");
                push_decimal(&mut out, *chapter as u64);
                out
            },
        }
    }
}

} // verus!
