//! MorphHB / Open Scriptures Hebrew morphology for the Old Testament.
//!
//! The pack is a JSON object keyed by OSIS id; each value is chapters → verses → words,
//! and each word is `[text, lemma, morph]`. Versification is English/CUV-aligned. New
//! Testament books are absent, so [`hebrew_verse`] answers `None` for them.

use vstd::prelude::*;

use crate::catalog;
use crate::catalog::canon_at;
use crate::json;
use crate::json::JsonValue;
use crate::text;
use crate::text::{chars_of, str_eq, trim_bounds, trim_str};

verus! {

/// One MorphHB word in Hebrew reading order (first = rightmost in RTL display).
#[derive(Debug, Clone, PartialEq, Eq)]
pub struct HebrewWord {
    pub text: String,
    pub strongs: Option<String>,
    pub morph: Option<String>,
}

/// A word as characters: text, Strong's number, morphology code.
pub type WordView = (Seq<char>, Option<Seq<char>>, Option<Seq<char>>);

impl View for HebrewWord {
    type V = WordView;

    open spec fn view(&self) -> WordView {
        (
            self.text@,
            match self.strongs {
                Some(s) => Some(s@),
                None => None,
            },
            match self.morph {
                Some(s) => Some(s@),
                None => None,
            },
        )
    }
}

impl DeepView for HebrewWord {
    type V = WordView;

    open spec fn deep_view(&self) -> WordView {
        self@
    }
}

fn clone_opt_string(s: &Option<String>) -> (r: Option<String>)
    ensures
        r == *s,
{
    match s {
        Some(x) => Some(x.clone()),
        None => None,
    }
}

impl HebrewWord {
    /// An exact copy.
    pub fn duplicate(&self) -> (r: HebrewWord)
        ensures
            r == *self,
    {
        HebrewWord {
            text: self.text.clone(),
            strongs: clone_opt_string(&self.strongs),
            morph: clone_opt_string(&self.morph),
        }
    }
}

/// An exact copy of a list of words.
pub fn duplicate_words(words: &Vec<HebrewWord>) -> (r: Vec<HebrewWord>)
    ensures
        r@ == words@,
{
    let mut out: Vec<HebrewWord> = Vec::new();
    let mut i: usize = 0;
    while i < words.len()
        invariant
            i <= words@.len(),
            out@ == words@.take(i as int),
        decreases words@.len() - i,
    {
        out.push(words[i].duplicate());
        i = i + 1;
        assert(out@ =~= words@.take(i as int));
    }
    assert(words@.take(words@.len() as int) =~= words@);
    out
}

// ---------------------------------------------------------------------------------------
// Words
// ---------------------------------------------------------------------------------------

/// Part `i` of a word, trimmed, when present and not blank.
pub open spec fn word_field(parts: Seq<Seq<char>>, i: int) -> Option<Seq<char>> {
    if i < parts.len() && text::trim(parts[i]).len() > 0 {
        Some(text::trim(parts[i]))
    } else {
        None
    }
}

/// A word from its string parts: the trimmed text must be non-blank; the Strong's number
/// and the morphology code are optional.
pub open spec fn word_spec(parts: Seq<Seq<char>>) -> Option<WordView> {
    if parts.len() == 0 || text::trim(parts[0]).len() == 0 {
        None
    } else {
        Some((text::trim(parts[0]), word_field(parts, 1), word_field(parts, 2)))
    }
}

fn optional_part(parts: &[String], i: usize) -> (r: Option<String>)
    ensures
        match r {
            Some(s) => word_field(parts.deep_view(), i as int) == Some(s@),
            None => word_field(parts.deep_view(), i as int) is None,
        },
{
    if i < parts.len() {
        let t = trim_str(parts[i].as_str());
        assert(parts.deep_view()[i as int] == parts@[i as int]@);
        if t.unicode_len() > 0 {
            return Some(String::from_str(t));
        }
    }
    None
}

/// Build a word from `[text, strongs, morph]`; `None` when the text is missing or blank.
pub fn parse_word(parts: &[String]) -> (r: Option<HebrewWord>)
    ensures
        match r {
            Some(w) => word_spec(parts.deep_view()) == Some(w@),
            None => word_spec(parts.deep_view()) is None,
        },
{
    if parts.len() == 0 {
        return None;
    }
    let text = trim_str(parts[0].as_str());
    assert(parts.deep_view()[0] == parts@[0]@);
    if text.unicode_len() == 0 {
        return None;
    }
    let strongs = optional_part(parts, 1);
    let morph = optional_part(parts, 2);
    Some(HebrewWord { text: String::from_str(text), strongs, morph })
}

/// The strings among `items`, in order.
pub open spec fn json_strings(items: Seq<JsonValue>) -> Seq<Seq<char>>
    decreases items.len(),
{
    if items.len() == 0 {
        Seq::empty()
    } else {
        let prev = json_strings(items.drop_last());
        match items.last() {
            JsonValue::Str(s) => prev.push(s@),
            _ => prev,
        }
    }
}

/// A word from a JSON value: an array whose string elements are its parts.
pub open spec fn word_from_json_spec(v: JsonValue) -> Option<WordView> {
    match v {
        JsonValue::Array(items) => word_spec(json_strings(items@)),
        _ => None,
    }
}

/// A word from a JSON array of strings (other elements are skipped).
pub fn word_from_json(v: &JsonValue) -> (r: Option<HebrewWord>)
    ensures
        match r {
            Some(w) => word_from_json_spec(*v) == Some(w@),
            None => word_from_json_spec(*v) is None,
        },
{
    match v {
        JsonValue::Array(items) => {
            let mut parts: Vec<String> = Vec::new();
            let mut i: usize = 0;
            while i < items.len()
                invariant
                    i <= items@.len(),
                    parts.deep_view() == json_strings(items@.take(i as int)),
                decreases items@.len() - i,
            {
                let ghost before = parts.deep_view();
                assert(items@.take(i + 1).drop_last() =~= items@.take(i as int));
                match &items[i] {
                    JsonValue::Str(s) => {
                        parts.push(s.clone());
                        assert(parts.deep_view() =~= before.push(s@));
                    },
                    _ => {},
                }
                i = i + 1;
            }
            assert(items@.take(items@.len() as int) =~= items@);
            parse_word(parts.as_slice())
        },
        _ => None,
    }
}

// ---------------------------------------------------------------------------------------
// Books
// ---------------------------------------------------------------------------------------

pub open spec fn book_not_array_msg() -> Seq<char> {
    "hebrew book JSON must be an array of chapters"@
}

pub open spec fn chapter_not_array_msg() -> Seq<char> {
    "chapter must be an array of verses"@
}

pub open spec fn verse_not_array_msg() -> Seq<char> {
    "verse must be an array of words"@
}

/// The words of a verse: every element that reads as a word, in order.
pub open spec fn verse_words(items: Seq<JsonValue>) -> Seq<WordView>
    decreases items.len(),
{
    if items.len() == 0 {
        Seq::empty()
    } else {
        let prev = verse_words(items.drop_last());
        match word_from_json_spec(items.last()) {
            Some(w) => prev.push(w),
            None => prev,
        }
    }
}

/// The verses of a chapter; every verse must be an array.
pub open spec fn chapter_verses(verses: Seq<JsonValue>) -> Result<Seq<Seq<WordView>>, Seq<char>>
    decreases verses.len(),
{
    if verses.len() == 0 {
        Ok(Seq::empty())
    } else {
        match chapter_verses(verses.drop_last()) {
            Err(e) => Err(e),
            Ok(prev) => match verses.last() {
                JsonValue::Array(items) => Ok(prev.push(verse_words(items@))),
                _ => Err(verse_not_array_msg()),
            },
        }
    }
}

/// One chapter: an array of verses.
pub open spec fn chapter_spec(c: JsonValue) -> Result<Seq<Seq<WordView>>, Seq<char>> {
    match c {
        JsonValue::Array(verses) => chapter_verses(verses@),
        _ => Err(chapter_not_array_msg()),
    }
}

/// The chapters of a book, checked in order; the first bad chapter or verse decides the
/// error.
pub open spec fn book_chapters(chapters: Seq<JsonValue>) -> Result<
    Seq<Seq<Seq<WordView>>>,
    Seq<char>,
>
    decreases chapters.len(),
{
    if chapters.len() == 0 {
        Ok(Seq::empty())
    } else {
        match book_chapters(chapters.drop_last()) {
            Err(e) => Err(e),
            Ok(prev) => match chapter_spec(chapters.last()) {
                Err(e) => Err(e),
                Ok(c) => Ok(prev.push(c)),
            },
        }
    }
}

/// A whole book: an array of chapters.
pub open spec fn book_spec(v: JsonValue) -> Result<Seq<Seq<Seq<WordView>>>, Seq<char>> {
    match v {
        JsonValue::Array(chapters) => book_chapters(chapters@),
        _ => Err(book_not_array_msg()),
    }
}

fn load_verse(items: &Vec<JsonValue>) -> (r: Vec<HebrewWord>)
    ensures
        r.deep_view() == verse_words(items@),
{
    let mut words: Vec<HebrewWord> = Vec::new();
    let mut i: usize = 0;
    while i < items.len()
        invariant
            i <= items@.len(),
            words.deep_view() == verse_words(items@.take(i as int)),
        decreases items@.len() - i,
    {
        let ghost before = words.deep_view();
        assert(items@.take(i + 1).drop_last() =~= items@.take(i as int));
        match word_from_json(&items[i]) {
            Some(w) => {
                words.push(w);
                assert(words.deep_view() =~= before.push(w@));
            },
            None => {},
        }
        i = i + 1;
    }
    assert(items@.take(items@.len() as int) =~= items@);
    words
}

fn load_chapter_value(c: &JsonValue) -> (r: Result<Vec<Vec<HebrewWord>>, String>)
    ensures
        match r {
            Ok(v) => chapter_spec(*c) == Ok::<Seq<Seq<WordView>>, Seq<char>>(v.deep_view()),
            Err(e) => chapter_spec(*c) == Err::<Seq<Seq<WordView>>, Seq<char>>(e@),
        },
{
    let verses = match c {
        JsonValue::Array(v) => v,
        _ => {
            return Err(String::from_str("chapter must be an array of verses"));
        },
    };
    let mut out: Vec<Vec<HebrewWord>> = Vec::new();
    let mut i: usize = 0;
    assert(verses@.take(0) =~= Seq::<JsonValue>::empty());
    assert(out.deep_view() =~= Seq::<Seq<WordView>>::empty());
    while i < verses.len()
        invariant
            i <= verses@.len(),
            *c == JsonValue::Array(*verses),
            chapter_verses(verses@.take(i as int)) == Ok::<Seq<Seq<WordView>>, Seq<char>>(
                out.deep_view(),
            ),
        decreases verses@.len() - i,
    {
        let ghost before = out.deep_view();
        assert(verses@.take(i + 1).drop_last() =~= verses@.take(i as int));
        assert(verses@.take(i + 1).last() == verses@[i as int]);
        match &verses[i] {
            JsonValue::Array(items) => {
                let words = load_verse(items);
                out.push(words);
                assert(out.deep_view() =~= before.push(verse_words(items@)));
            },
            _ => {
                proof {
                    assert(chapter_verses(verses@.take(i + 1)) == Err::<Seq<Seq<WordView>>, Seq<char>>(verse_not_array_msg()));
                    lemma_chapter_verses_err_prefix(verses@, i as int + 1);
                }
                return Err(String::from_str("verse must be an array of words"));
            },
        }
        i = i + 1;
    }
    assert(verses@.take(verses@.len() as int) =~= verses@);
    Ok(out)
}

proof fn lemma_chapter_verses_err_prefix(verses: Seq<JsonValue>, n: int)
    requires
        0 < n <= verses.len(),
        chapter_verses(verses.take(n)) is Err,
    ensures
        chapter_verses(verses) == chapter_verses(verses.take(n)),
    decreases verses.len() - n,
{
    if n == verses.len() {
        assert(verses.take(n) =~= verses);
    } else {
        assert(verses.take(n + 1).drop_last() =~= verses.take(n));
        lemma_chapter_verses_err_prefix(verses, n + 1);
    }
}

proof fn lemma_book_chapters_err_prefix(chapters: Seq<JsonValue>, n: int)
    requires
        0 < n <= chapters.len(),
        book_chapters(chapters.take(n)) is Err,
    ensures
        book_chapters(chapters) == book_chapters(chapters.take(n)),
    decreases chapters.len() - n,
{
    if n == chapters.len() {
        assert(chapters.take(n) =~= chapters);
    } else {
        assert(chapters.take(n + 1).drop_last() =~= chapters.take(n));
        lemma_book_chapters_err_prefix(chapters, n + 1);
    }
}

/// Read one book of the pack: chapters → verses → words.
pub fn load_book_value(value: &JsonValue) -> (r: Result<Vec<Vec<Vec<HebrewWord>>>, String>)
    ensures
        match r {
            Ok(v) => book_spec(*value) == Ok::<Seq<Seq<Seq<WordView>>>, Seq<char>>(
                v.deep_view(),
            ),
            Err(e) => book_spec(*value) == Err::<Seq<Seq<Seq<WordView>>>, Seq<char>>(e@),
        },
{
    let chapters = match value {
        JsonValue::Array(v) => v,
        _ => {
            return Err(String::from_str("hebrew book JSON must be an array of chapters"));
        },
    };
    let mut out: Vec<Vec<Vec<HebrewWord>>> = Vec::new();
    let mut i: usize = 0;
    assert(chapters@.take(0) =~= Seq::<JsonValue>::empty());
    assert(out.deep_view() =~= Seq::<Seq<Seq<WordView>>>::empty());
    while i < chapters.len()
        invariant
            i <= chapters@.len(),
            *value == JsonValue::Array(*chapters),
            book_chapters(chapters@.take(i as int)) == Ok::<Seq<Seq<Seq<WordView>>>, Seq<char>>(
                out.deep_view(),
            ),
        decreases chapters@.len() - i,
    {
        let ghost before = out.deep_view();
        assert(chapters@.take(i + 1).drop_last() =~= chapters@.take(i as int));
        assert(chapters@.take(i + 1).last() == chapters@[i as int]);
        match load_chapter_value(&chapters[i]) {
            Ok(c) => {
                out.push(c);
                assert(out.deep_view() =~= before.push(c.deep_view()));
            },
            Err(e) => {
                proof {
                    assert(book_chapters(chapters@.take(i + 1)) == Err::<Seq<Seq<Seq<WordView>>>, Seq<char>>(e@));
                    lemma_book_chapters_err_prefix(chapters@, i as int + 1);
                }
                return Err(e);
            },
        }
        i = i + 1;
    }
    assert(chapters@.take(chapters@.len() as int) =~= chapters@);
    Ok(out)
}

// ---------------------------------------------------------------------------------------
// The Old Testament store
// ---------------------------------------------------------------------------------------

/// Number of Old Testament books, the first books of the canon.
pub const OT_BOOK_COUNT: usize = 39;

/// The store's contents: OSIS id and chapters → verses → words, per book.
pub type StoreView = Seq<(Seq<char>, Seq<Seq<Seq<WordView>>>)>;

/// MorphHB words for the Old Testament, keyed by OSIS id.
pub struct HebrewStore {
    books: Vec<(String, Vec<Vec<Vec<HebrewWord>>>)>,
}

impl View for HebrewStore {
    type V = StoreView;

    closed spec fn view(&self) -> StoreView {
        self.books.deep_view()
    }
}

pub open spec fn root_not_object_msg() -> Seq<char> {
    "morphhb-ot.json.gz root must be an object keyed by OSIS"@
}

/// The message for an Old Testament book that the pack lacks.
pub open spec fn missing_book_msg(osis: Seq<char>) -> Seq<char> {
    "morphhb-ot.json.gz missing book "@ + osis
}

/// The message for a book of the pack that does not read.
pub open spec fn bad_book_msg(osis: Seq<char>, e: Seq<char>) -> Seq<char> {
    "hebrew book "@ + osis + ": "@ + e
}

/// The store read from the books `0..n` of the Old Testament in `members`.
pub open spec fn store_prefix(members: Seq<(String, JsonValue)>, n: int) -> Result<
    StoreView,
    Seq<char>,
>
    decreases n,
{
    if n <= 0 {
        Ok(Seq::empty())
    } else {
        match store_prefix(members, n - 1) {
            Err(e) => Err(e),
            Ok(prev) => {
                let osis = catalog::canon_spec(n - 1).osis@;
                match json::first_member(members, osis, 0) {
                    None => Err(missing_book_msg(osis)),
                    Some(k) => match book_spec(members[k].1) {
                        Err(e) => Err(bad_book_msg(osis, e)),
                        Ok(b) => Ok(prev.push((osis, b))),
                    },
                }
            },
        }
    }
}

/// What [`HebrewStore::from_json`] reads from the root of the pack: each of the 39 Old
/// Testament books, in canonical order, from the member named by its OSIS id.
pub open spec fn store_spec(root: JsonValue) -> Result<StoreView, Seq<char>> {
    match root {
        JsonValue::Object(members) => store_prefix(members@, OT_BOOK_COUNT as int),
        _ => Err(root_not_object_msg()),
    }
}

/// The first book of `books` at or after `i` with OSIS id `osis`.
pub open spec fn first_store_book(books: StoreView, osis: Seq<char>, i: int) -> Option<int>
    decreases books.len() - i,
{
    if i < 0 || i >= books.len() {
        None
    } else if books[i].0 == osis {
        Some(i)
    } else {
        first_store_book(books, osis, i + 1)
    }
}

/// What [`hebrew_verse`] answers: the non-empty word list of a verse (1-based chapter and
/// verse) of a book in the store; `None` for a 0, a missing book, chapter or verse, or an
/// empty verse.
pub open spec fn hebrew_verse_spec(books: StoreView, osis: Seq<char>, chapter: u32, verse: u32) -> Option<
    Seq<WordView>,
> {
    if chapter == 0 || verse == 0 {
        None
    } else {
        match first_store_book(books, osis, 0) {
            None => None,
            Some(b) => {
                let chapters = books[b].1;
                if chapter > chapters.len() {
                    None
                } else {
                    let verses = chapters[chapter - 1];
                    if verse > verses.len() {
                        None
                    } else {
                        let words = verses[verse - 1];
                        if words.len() == 0 {
                            None
                        } else {
                            Some(words)
                        }
                    }
                }
            },
        }
    }
}

impl HebrewStore {
    /// A store with no books: every lookup answers `None`.
    pub fn empty() -> (r: HebrewStore)
        ensures
            r@ == Seq::<(Seq<char>, Seq<Seq<Seq<WordView>>>)>::empty(),
    {
        HebrewStore { books: Vec::new() }
    }

    /// Read the 39 Old Testament books from the root object of the pack.
    pub fn from_json(root: &JsonValue) -> (r: Result<HebrewStore, String>)
        ensures
            match r {
                Ok(s) => store_spec(*root) == Ok::<StoreView, Seq<char>>(s@),
                Err(e) => store_spec(*root) == Err::<StoreView, Seq<char>>(e@),
            },
    {
        let members = match root {
            JsonValue::Object(m) => m,
            _ => {
                return Err(String::from_str("morphhb-ot.json.gz root must be an object keyed by OSIS"));
            },
        };
        let mut books: Vec<(String, Vec<Vec<Vec<HebrewWord>>>)> = Vec::new();
        let mut i: usize = 0;
        assert(books.deep_view() =~= Seq::<(Seq<char>, Seq<Seq<Seq<WordView>>>)>::empty());
        while i < OT_BOOK_COUNT
            invariant
                i <= OT_BOOK_COUNT,
                *root == JsonValue::Object(*members),
                store_prefix(members@, i as int) == Ok::<StoreView, Seq<char>>(
                    books.deep_view(),
                ),
            decreases OT_BOOK_COUNT - i,
        {
            let ghost before = books.deep_view();
            let osis = canon_at(i).unwrap().osis;
            let value = match root.get(osis) {
                Some(v) => v,
                None => {
                    let mut msg = String::from_str("morphhb-ot.json.gz missing book ");
                    msg.append(osis);
                    proof {
                        lemma_store_prefix_err(members@, i as int + 1);
                    }
                    return Err(msg);
                },
            };
            match load_book_value(value) {
                Ok(book) => {
                    books.push((String::from_str(osis), book));
                    assert(books.deep_view() =~= before.push((osis@, book.deep_view())));
                },
                Err(e) => {
                    let mut msg = String::from_str("hebrew book ");
                    msg.append(osis);
                    msg.append(": ");
                    msg.append(e.as_str());
                    proof {
                        lemma_store_prefix_err(members@, i as int + 1);
                    }
                    return Err(msg);
                },
            }
            i = i + 1;
        }
        Ok(HebrewStore { books })
    }

    /// The store of the gzip-compressed MorphHB pack `gz`: decompressed, parsed as JSON,
    /// and read as `from_json` reads it; an error names the step that failed.
    pub fn from_pack(gz: &[u8]) -> (r: Result<HebrewStore, String>)
        ensures
            match gunzip_text(gz@) {
                Err(e) => r matches Err(m) && m@ == "decompress morphhb-ot.json.gz: "@ + e,
                Ok(t) => match json::json_parse(t) {
                    Err(e) => r matches Err(m) && m@ == "parse morphhb-ot.json.gz: "@ + e,
                    Ok(root) => match store_spec(root) {
                        Ok(b) => r matches Ok(s) && s@ == b,
                        Err(m) => r matches Err(x) && x@ == m,
                    },
                },
            },
    {
        let text = match hebrew_pack_text(gz) {
            Ok(t) => t,
            Err(e) => {
                return Err(e);
            },
        };
        let root = match json::parse_json(text.as_str()) {
            Ok(v) => v,
            Err(e) => {
                let mut m = String::from_str("parse morphhb-ot.json.gz: ");
                m.append(e.as_str());
                return Err(m);
            },
        };
        HebrewStore::from_json(&root)
    }

    /// Number of books in the store (39 once read from the pack).
    pub fn book_count(&self) -> (r: usize)
        ensures
            r == self@.len(),
    {
        self.books.len()
    }
}

proof fn lemma_store_prefix_err(members: Seq<(String, JsonValue)>, n: int)
    requires
        0 < n <= OT_BOOK_COUNT,
        store_prefix(members, n) is Err,
    ensures
        store_prefix(members, OT_BOOK_COUNT as int) == store_prefix(members, n),
    decreases OT_BOOK_COUNT - n,
{
    if n < OT_BOOK_COUNT {
        lemma_store_prefix_err(members, n + 1);
    }
}

/// Look up MorphHB words for a verse (1-based chapter and verse).
///
/// Returns `None` for the New Testament, missing books, out-of-range numbers, or empty
/// verses.
pub fn hebrew_verse(store: &HebrewStore, osis: &str, chapter: u32, verse: u32) -> (r: Option<
    Vec<HebrewWord>,
>)
    ensures
        match r {
            Some(w) => hebrew_verse_spec(store@, osis@, chapter, verse) == Some(w.deep_view()),
            None => hebrew_verse_spec(store@, osis@, chapter, verse) is None,
        },
{
    if chapter == 0 || verse == 0 {
        return None;
    }
    let books = &store.books;
    let ghost view = store@;
    assert(view == books.deep_view());
    let mut b: usize = 0;
    while b < books.len()
        invariant
            b <= books@.len(),
            view == books.deep_view(),
            view == store@,
            view.len() == books@.len(),
            chapter > 0,
            verse > 0,
            first_store_book(view, osis@, 0) == first_store_book(view, osis@, b as int),
        decreases books@.len() - b,
    {
        assert(view[b as int].0 == books@[b as int].0@);
        if str_eq(books[b].0.as_str(), osis) {
            let chapters = &books[b].1;
            assert(first_store_book(view, osis@, b as int) == Some(b as int));
            assert(view[b as int].1 == chapters.deep_view());
            assert(chapters.deep_view().len() == chapters@.len());
            if chapter as usize > chapters.len() {
                return None;
            }
            let verses = &chapters[(chapter - 1) as usize];
            assert(chapters.deep_view()[chapter - 1] == verses.deep_view());
            assert(verses.deep_view().len() == verses@.len());
            if verse as usize > verses.len() {
                return None;
            }
            let words = &verses[(verse - 1) as usize];
            assert(verses.deep_view()[verse - 1] == words.deep_view());
            assert(words.deep_view().len() == words@.len());
            if words.len() == 0 {
                return None;
            }
            let copy = duplicate_words(words);
            assert(copy.deep_view() =~= words.deep_view());
            return Some(copy);
        }
        b = b + 1;
    }
    None
}

/// Whether [`hebrew_verse`] has words for this verse: the UI shows † exactly then.
pub fn has_hebrew_notes(store: &HebrewStore, osis: &str, chapter: u32, verse: u32) -> (r: bool)
    ensures
        r == hebrew_verse_spec(store@, osis@, chapter, verse) is Some,
{
    hebrew_verse(store, osis, chapter, verse).is_some()
}

/// What decompressing the gzip stream `gz` and reading it to the end as UTF-8 gives: the
/// text, or the message of the error that stopped it.
pub uninterp spec fn gunzip_text(gz: Seq<u8>) -> Result<Seq<char>, Seq<char>>;

/// `flate2::read::GzDecoder` over `gz`, read to the end with `Read::read_to_string`. The
/// contract claims only that the outcome (the text, or the error's message) is a function
/// of the bytes, named `gunzip_text`; what that function is, is left to flate2.
#[verifier::external_body]
fn gunzip_to_string(gz: &[u8]) -> (r: Result<String, String>)
    ensures
        match r {
            Ok(t) => gunzip_text(gz@) == Ok::<Seq<char>, Seq<char>>(t@),
            Err(e) => gunzip_text(gz@) == Err::<Seq<char>, Seq<char>>(e@),
        },
{
    let mut decoder = flate2::read::GzDecoder::new(gz);
    let mut text = String::new();
    match std::io::Read::read_to_string(&mut decoder, &mut text) {
        Ok(_) => Ok(text),
        Err(e) => Err(e.to_string()),
    }
}

/// The JSON text of the gzip-compressed MorphHB pack `gz`; an error names the failed
/// decompression.
pub fn hebrew_pack_text(gz: &[u8]) -> (r: Result<String, String>)
    ensures
        match gunzip_text(gz@) {
            Ok(t) => r matches Ok(s) && s@ == t,
            Err(e) => r matches Err(m) && m@ == "decompress morphhb-ot.json.gz: "@ + e,
        },
{
    match gunzip_to_string(gz) {
        Ok(t) => Ok(t),
        Err(e) => {
            let mut m = String::from_str("decompress morphhb-ot.json.gz: ");
            m.append(e.as_str());
            Err(m)
        },
    }
}

proof fn lemma_store_prefix_keys(members: Seq<(String, JsonValue)>, n: int)
    requires
        0 <= n,
    ensures
        store_prefix(members, n) matches Ok(v) ==> v.len() == n && forall|i: int|
            0 <= i < n ==> (#[trigger] v[i]).0 == catalog::canon_spec(i).osis@,
    decreases n,
{
    if n > 0 {
        lemma_store_prefix_keys(members, n - 1);
    }
}

/// A pack that loads holds the 39 Old Testament books, in canonical order, keyed by their
/// OSIS ids.
pub proof fn law_pack_holds_the_old_testament(root: JsonValue)
    ensures
        store_spec(root) matches Ok(v) ==> v.len() == OT_BOOK_COUNT && forall|i: int|
            0 <= i < OT_BOOK_COUNT ==> (#[trigger] v[i]).0 == catalog::canon_spec(i).osis@,
{
    match root {
        JsonValue::Object(members) => lemma_store_prefix_keys(members@, OT_BOOK_COUNT as int),
        _ => {},
    }
}

proof fn lemma_first_store_book_in_range(books: StoreView, osis: Seq<char>, i: int)
    ensures
        first_store_book(books, osis, i) matches Some(k) ==> i <= k < books.len() && books[k].0
            == osis,
    decreases books.len() - i,
{
    if 0 <= i < books.len() {
        lemma_first_store_book_in_range(books, osis, i + 1);
    }
}

/// Words come only for a verse and chapter numbered from 1 of a book that the store
/// holds, and never as an empty list.
pub proof fn law_words_only_for_stored_books(
    books: StoreView,
    osis: Seq<char>,
    chapter: u32,
    verse: u32,
)
    ensures
        hebrew_verse_spec(books, osis, chapter, verse) matches Some(w) ==> {
            &&& chapter > 0 && verse > 0
            &&& w.len() > 0
            &&& exists|i: int| 0 <= i < books.len() && (#[trigger] books[i]).0 == osis
        },
{
    lemma_first_store_book_in_range(books, osis, 0);
}

/// Number of Old Testament books loaded in the store.
pub fn hebrew_book_count(store: &HebrewStore) -> (r: usize)
    ensures
        r == store@.len(),
{
    store.book_count()
}

// ---------------------------------------------------------------------------------------
// Part of speech
// ---------------------------------------------------------------------------------------

/// The short Traditional Chinese label of a MorphHB part-of-speech letter.
pub open spec fn pos_label_spec(pos: char) -> Option<&'static str> {
    if pos == 'A' {
        Some("形容詞")
    } else if pos == 'C' {
        Some("連接詞")
    } else if pos == 'D' {
        Some("副詞")
    } else if pos == 'N' {
        Some("名詞")
    } else if pos == 'P' {
        Some("代名詞")
    } else if pos == 'R' {
        Some("介詞")
    } else if pos == 'S' {
        Some("詞綴")
    } else if pos == 'T' {
        Some("助詞")
    } else if pos == 'V' {
        Some("動詞")
    } else {
        None
    }
}

/// Map MorphHB part-of-speech letter to a short Traditional Chinese label.
pub fn pos_letter_label(pos: char) -> (r: Option<&'static str>)
    ensures
        r == pos_label_spec(pos),
{
    match pos {
        'A' => Some("形容詞"),
        'C' => Some("連接詞"),
        'D' => Some("副詞"),
        'N' => Some("名詞"),
        'P' => Some("代名詞"),
        'R' => Some("介詞"),
        'S' => Some("詞綴"),
        'T' => Some("助詞"),
        'V' => Some("動詞"),
        _ => None,
    }
}

/// A `/`-separated segment of `body` starts at `i`.
pub open spec fn segment_starts_at(body: Seq<char>, i: int) -> bool {
    0 <= i <= body.len() && (i == 0 || body[i - 1] == '/')
}

/// The segment starting at `i` begins with a known part of speech other than a suffix.
pub open spec fn content_at(body: Seq<char>, i: int) -> bool {
    &&& segment_starts_at(body, i)
    &&& i < body.len()
    &&& body[i] != 'S'
    &&& pos_label_spec(body[i]) is Some
}

/// The segment starting at `i` is a suffix (begins with `S`).
pub open spec fn suffix_at(body: Seq<char>, i: int) -> bool {
    segment_starts_at(body, i) && i < body.len() && body[i] == 'S'
}

/// The last content segment start before `n`.
pub open spec fn last_content_before(body: Seq<char>, n: int) -> Option<int>
    decreases n,
{
    if n <= 0 {
        None
    } else if content_at(body, n - 1) {
        Some(n - 1)
    } else {
        last_content_before(body, n - 1)
    }
}

/// A suffix segment starts before `n`.
pub open spec fn suffix_before(body: Seq<char>, n: int) -> bool
    decreases n,
{
    if n <= 0 {
        false
    } else {
        suffix_at(body, n - 1) || suffix_before(body, n - 1)
    }
}

/// What [`morph_pos_label`] answers: after trimming and dropping one leading language code
/// (`H` or `A`), the label of the last segment that starts with a known non-suffix letter;
/// failing that `詞綴` when some segment is a suffix; `None` for a blank code or no known
/// letter.
pub open spec fn morph_pos_spec(morph: Seq<char>) -> Option<&'static str> {
    let m = text::trim(morph);
    if m.len() == 0 {
        None
    } else {
        let body = if m[0] == 'H' || m[0] == 'A' {
            m.drop_first()
        } else {
            m
        };
        match last_content_before(body, body.len() + 1int) {
            Some(i) => pos_label_spec(body[i]),
            None => if suffix_before(body, body.len() + 1int) {
                pos_label_spec('S')
            } else {
                None
            },
        }
    }
}

/// Derive a short 詞性 label from a MorphHB morph code.
///
/// Codes look like `HNcmpa`, `HVqp3ms`, or compounds `HR/Ncfsa` (language `H`/`A` then
/// `/`-separated segments). The **last non-suffix** segment's letter decides (suffixes start
/// with `S`), so `HNcmpa` → 名詞 and `HR/Ncfsa` → 名詞.
pub fn morph_pos_label(morph: &str) -> (r: Option<&'static str>)
    ensures
        r == morph_pos_spec(morph@),
{
    let c = chars_of(morph);
    let (a, b) = trim_bounds(c.as_slice());
    let m = vstd::slice::slice_subrange(c.as_slice(), a, b);
    if m.len() == 0 {
        return None;
    }
    let body = if m[0] == 'H' || m[0] == 'A' {
        let t = vstd::slice::slice_subrange(m, 1, m.len());
        assert(t@ =~= m@.drop_first());
        t
    } else {
        m
    };
    let n = body.len();
    let mut last_content: Option<usize> = None;
    let mut suffix = false;
    let mut i: usize = 0;
    while i < n
        invariant
            n == body@.len(),
            i <= n,
            match last_content_before(body@, i as int) {
                Some(k) => 0 <= k < i && last_content == Some(k as usize),
                None => last_content is None,
            },
            suffix == suffix_before(body@, i as int),
        decreases n - i,
    {
        let starts = i == 0 || body[i - 1] == '/';
        if starts {
            let p = body[i];
            if p == 'S' {
                suffix = true;
            } else if pos_letter_label(p).is_some() {
                last_content = Some(i);
            }
        }
        i = i + 1;
    }
    assert(last_content_before(body@, n as int + 1) == last_content_before(body@, n as int)) by {
        assert(!content_at(body@, n as int));
    }
    assert(suffix_before(body@, n as int + 1) == suffix_before(body@, n as int)) by {
        assert(!suffix_at(body@, n as int));
    }
    match last_content {
        Some(k) => pos_letter_label(body[k]),
        None => {
            if suffix {
                pos_letter_label('S')
            } else {
                None
            }
        },
    }
}

} // verus!
