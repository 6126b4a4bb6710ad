//! The reading window's state and its decisions: where a chapter turn, a click or a typed
//! reference leads, which panel Esc closes, select-mode taps and copying, the debounced
//! search, the book picker's pages and the Hebrew word panel.
//!
//! The window draws this state and performs what the decisions hand back: moving the
//! keyboard focus, saving the settings, writing the clipboard, starting the search timer.

use vstd::prelude::*;

use crate::bible;
use crate::bible::{Bible, BibleModel, LoadError};
use crate::catalog;
use crate::catalog::Testament;
use crate::chapter;
use crate::chapter::{BookEntry, Chapter, SearchHit};
use crate::hebrew;
use crate::hebrew::HebrewWord;
use crate::selection;
use crate::selection::{VerseSelection, VerseUnit};
use crate::settings;
use crate::settings::{AppSettings, ThemePreference};
use crate::text;
use crate::text::trim_str;
use crate::translation;
use crate::translation::{TranslationId, ViewMode};

verus! {

/// Milliseconds the search waits after the last keystroke.
pub const SEARCH_DEBOUNCE_MS: u64 = 180;

/// Most hits kept for display.
pub const SEARCH_DISPLAY_CAP: usize = 80;

/// Books per page of the book picker (a 4 × 4 grid; the New Testament fits in two pages).
pub const BOOK_GRID_PAGE_SIZE: usize = 16;

/// The open section of the Hebrew word panel (at most one is open).
#[derive(Debug, Clone, Copy, PartialEq, Eq, Structural)]
pub enum HebrewDetailSection {
    Strongs,
    Morph,
    Pos,
}

/// A field with nothing but whitespace, or none at all.
pub open spec fn blank(s: Option<Seq<char>>) -> bool {
    match s {
        Some(x) => text::trim(x).len() == 0,
        None => true,
    }
}

/// A word field for display: trimmed, or `—` when it is blank.
pub fn hebrew_opt_or_dash(opt: &Option<String>) -> (r: String)
    ensures
        r@ == (match *opt {
            Some(s) => if text::trim(s@).len() > 0 {
                text::trim(s@)
            } else {
                "—"@
            },
            None => "—"@,
        }),
{
    match opt {
        Some(s) => {
            let t = trim_str(s.as_str());
            if t.unicode_len() > 0 {
                String::from_str(t)
            } else {
                String::from_str("—")
            }
        },
        None => String::from_str("—"),
    }
}

/// The section a word's panel opens on: Strong's number when the word has one, else its
/// morphology when it has that, else none.
pub open spec fn default_section_spec(w: crate::hebrew::WordView) -> Option<HebrewDetailSection> {
    if !blank(w.1) {
        Some(HebrewDetailSection::Strongs)
    } else if !blank(w.2) {
        Some(HebrewDetailSection::Morph)
    } else {
        None
    }
}

/// The section a word's panel opens on (see `default_section_spec`).
pub fn default_hebrew_detail_section(word: &HebrewWord) -> (r: Option<HebrewDetailSection>)
    ensures
        r == default_section_spec(word@),
{
    let strongs_ok = match &word.strongs {
        Some(s) => trim_str(s.as_str()).unicode_len() > 0,
        None => false,
    };
    if strongs_ok {
        return Some(HebrewDetailSection::Strongs);
    }
    let morph_ok = match &word.morph {
        Some(s) => trim_str(s.as_str()).unicode_len() > 0,
        None => false,
    };
    if morph_ok {
        return Some(HebrewDetailSection::Morph);
    }
    None
}

/// The panels, marks and pickers of the window.
#[derive(Debug, Clone, Copy, PartialEq, Eq, Structural)]
pub struct Panels {
    pub settings_open: bool,
    pub search_open: bool,
    /// Search every bundled translation rather than the lanes on screen.
    pub search_all_lanes: bool,
    /// Bumped whenever a pending search must be dropped.
    pub search_seq: u64,
    pub highlight_verse: Option<u32>,
    pub pending_scroll_verse: Option<u32>,
    pub chapter_picker_open: bool,
    pub book_picker_open: bool,
    pub book_picker_testament: Testament,
    pub book_picker_page: usize,
    /// The verse whose Hebrew words are shown.
    pub hebrew_verse: Option<u32>,
    /// The word of that verse whose details are open.
    pub hebrew_word_idx: Option<usize>,
    pub hebrew_detail_section: Option<HebrewDetailSection>,
    pub select_mode: bool,
}

/// The panels of a freshly opened window.
pub open spec fn initial_panels() -> Panels {
    Panels {
        settings_open: false,
        search_open: false,
        search_all_lanes: false,
        search_seq: 0,
        highlight_verse: None,
        pending_scroll_verse: None,
        chapter_picker_open: false,
        book_picker_open: false,
        book_picker_testament: Testament::Old,
        book_picker_page: 0,
        hebrew_verse: None,
        hebrew_word_idx: None,
        hebrew_detail_section: None,
        select_mode: false,
    }
}

/// Chapter `c` of book `b` exists in the store and has verses.
pub open spec fn loadable(view: BibleModel, b: int, c: u32) -> bool {
    &&& 0 <= b < view.0.len()
    &&& 0 < c <= view.0[b].1.len()
    &&& view.0[b].1[c - 1].len() > 0
}

/// The catalog entries of `books` in testament `t`, in order.
pub open spec fn testament_books(books: Seq<bible::BookView>, t: Testament) -> Seq<BookEntry>
    decreases books.len(),
{
    if books.len() == 0 {
        Seq::empty()
    } else if books.last().0.meta.testament == t {
        testament_books(books.drop_last(), t).push(books.last().0)
    } else {
        testament_books(books.drop_last(), t)
    }
}

/// Pages of the book picker for testament `t`: enough for its books, at least one.
pub open spec fn page_count_spec(view: BibleModel, t: Testament) -> int {
    let n = testament_books(view.0, t).len();
    if n == 0 {
        1
    } else {
        (n + BOOK_GRID_PAGE_SIZE - 1) / (BOOK_GRID_PAGE_SIZE as int)
    }
}

/// Where the window is: a book of the store and one of its chapters, loaded.
struct Place {
    book_index: usize,
    chapter: Chapter,
}

/// The reading window: a store, the chapter on screen, the settings, the panels, the
/// search results and the selection.
pub struct BibleView {
    bible: Bible,
    place: Place,
    settings: AppSettings,
    panels: Panels,
    search_hits: Vec<SearchHit>,
    search_total: usize,
    selected: VerseSelection,
}

impl BibleView {
    /// The store.
    pub closed spec fn bible_view(&self) -> BibleModel {
        self.bible@
    }

    /// The index of the book on screen.
    pub closed spec fn book(&self) -> int {
        self.place.book_index as int
    }

    /// The number of the chapter on screen.
    pub closed spec fn chapter_number(&self) -> u32 {
        self.place.chapter.chapter
    }

    /// The chapter on screen.
    pub closed spec fn shown(&self) -> chapter::ChapterView {
        self.place.chapter.deep_view()
    }

    /// The chapter on screen, as a value.
    pub closed spec fn chapter_value(&self) -> Chapter {
        self.place.chapter
    }

    pub closed spec fn settings_view(&self) -> AppSettings {
        self.settings
    }

    pub closed spec fn panels_view(&self) -> Panels {
        self.panels
    }

    /// The hits kept for display.
    pub closed spec fn hits(&self) -> Seq<chapter::HitView> {
        self.search_hits.deep_view()
    }

    /// How many hits the last search found.
    pub closed spec fn hit_total(&self) -> usize {
        self.search_total
    }

    /// The selected units.
    pub closed spec fn selection(&self) -> Seq<VerseUnit> {
        self.selected@
    }

    /// The window shows a chapter of its store that has verses, as the store loads it; the
    /// settings are clamped and the book picker's page is one of its pages.
    #[verifier::type_invariant]
    closed spec fn consistent(self) -> bool {
        &&& loadable(self.bible@, self.place.book_index as int, self.place.chapter.chapter)
        &&& self.place.chapter.deep_view() == bible::loaded_chapter(
            self.bible@,
            self.place.book_index as int,
            self.place.chapter.chapter,
        )
        &&& bible::books_well_formed(self.bible@.0)
        &&& settings::FONT_MIN <= self.settings.font_size <= settings::FONT_MAX
        &&& self.panels.book_picker_page < page_count_spec(
            self.bible@,
            self.panels.book_picker_testament,
        )
    }
}


/// `new` is `old` moved to chapter `c` of book `b`, with the panels `p` and nothing
/// selected; the settings and the search results stay.
pub open spec fn moved_to(old: BibleView, new: BibleView, b: int, c: u32, p: Panels) -> bool {
    &&& new.bible_view() == old.bible_view()
    &&& new.book() == b
    &&& new.chapter_number() == c
    &&& new.shown() == bible::loaded_chapter(old.bible_view(), b, c)
    &&& new.panels_view() == p
    &&& new.selection() == Seq::<VerseUnit>::empty()
    &&& new.settings_view() == old.settings_view()
    &&& new.hits() == old.hits()
    &&& new.hit_total() == old.hit_total()
}

/// The panels after a move that marks verse `h`: the pickers close.
pub open spec fn arrived(p: Panels, h: Option<u32>) -> Panels {
    Panels {
        highlight_verse: h,
        pending_scroll_verse: h,
        chapter_picker_open: false,
        book_picker_open: false,
        ..p
    }
}

/// `new` is `old` moved to chapter `c` of book `b`, marking verse `h`: the pickers close,
/// the selection empties, all else stays.
pub open spec fn went_to(old: BibleView, new: BibleView, b: int, c: u32, h: Option<u32>) -> bool {
    moved_to(old, new, b, c, arrived(old.panels_view(), h))
}

/// A move to chapter `c` of book `b`: made when that chapter has verses, else nothing
/// changes.
pub open spec fn goto_outcome(old: BibleView, new: BibleView, b: int, c: u32, h: Option<u32>) -> bool {
    if loadable(old.bible_view(), b, c) {
        went_to(old, new, b, c, h)
    } else {
        new == old
    }
}

/// The chapter before chapter `c` of book `b`: the previous chapter of the book, else
/// the last chapter of the previous book; none before the first book's first chapter.
pub open spec fn prev_target(view: BibleModel, b: int, c: u32) -> Option<(int, u32)> {
    if c > 1 {
        Some((b, (c - 1) as u32))
    } else if b > 0 {
        Some((b - 1, view.0[b - 1].0.chapter_count))
    } else {
        None
    }
}

/// The chapter after chapter `c` of book `b`: the next chapter of the book, else the
/// first chapter of the next book; none after the last book's last chapter.
pub open spec fn next_target(view: BibleModel, b: int, c: u32) -> Option<(int, u32)> {
    if c < view.0[b].0.chapter_count {
        Some((b, (c + 1) as u32))
    } else if b + 1 < view.0.len() {
        Some((b + 1, 1u32))
    } else {
        None
    }
}

/// A chapter turn: nothing while the search is open or where there is no chapter to turn
/// to; else a move to `target`.
pub open spec fn turn_outcome(old: BibleView, new: BibleView, target: Option<(int, u32)>) -> bool {
    if old.panels_view().search_open {
        new == old
    } else {
        match target {
            Some((b, c)) => goto_outcome(old, new, b, c, None),
            None => new == old,
        }
    }
}

impl BibleView {
    /// Open the window on the first chapter of the first book, with `settings` clamped.
    /// Fails as loading that chapter fails.
    pub fn new(bible: Bible, settings: AppSettings) -> (r: Result<BibleView, LoadError>)
        ensures
            match r {
                Ok(rd) => {
                    &&& loadable(bible@, 0, 1)
                    &&& rd.bible_view() == bible@
                    &&& rd.book() == 0
                    &&& rd.chapter_number() == 1
                    &&& rd.shown() == bible::loaded_chapter(bible@, 0, 1)
                    &&& rd.panels_view() == initial_panels()
                    &&& rd.selection() == Seq::<VerseUnit>::empty()
                    &&& rd.hits() == Seq::<chapter::HitView>::empty()
                    &&& rd.hit_total() == 0
                    &&& rd.settings_view().theme == settings.theme
                    &&& rd.settings_view().font_size == settings::clamp_font(settings.font_size)
                    &&& rd.settings_view().view_mode@ == translation::sanitize_spec(
                        settings.view_mode@,
                    )
                    &&& rd.settings_view().sidebar_abbrev == settings.sidebar_abbrev
                },
                Err(e) => {
                    &&& !loadable(bible@, 0, 1)
                    &&& bible@.0.len() == 0 ==> (e matches LoadError::UnknownBook(s) && s@
                        == "0"@)
                    &&& bible@.0.len() > 0 && bible@.0[0].1.len() == 0 ==> (e matches LoadError::MissingChapter {
                        book,
                        chapter,
                    } && book@ == bible@.0[0].0.meta.osis@ && chapter == 1)
                    &&& bible@.0.len() > 0 && bible@.0[0].1.len() > 0 ==> e matches LoadError::Empty
                },
            },
    {
        let n = bible.len();
        let first = bible.load_chapter_at(0, 1);
        let chapter = match first {
            Ok(c) => c,
            Err(e) => {
                proof {
                    if bible@.0.len() == 0 {
                        reveal_strlit("0");
                        assert(text::decimal(0) =~= "0"@);
                    }
                }
                return Err(e);
            },
        };
        let ghost view = bible@;
        let settings = settings.clamp();
        let selected = VerseSelection::new();
        let search_hits: Vec<SearchHit> = Vec::new();
        proof {
            assert(search_hits.deep_view() =~= Seq::<chapter::HitView>::empty());
            if testament_books(view.0, Testament::Old).len() > 0 {
                assert((testament_books(view.0, Testament::Old).len() + BOOK_GRID_PAGE_SIZE - 1)
                    / (BOOK_GRID_PAGE_SIZE as int) >= 1);
            }
        }
        Ok(
            BibleView {
                bible,
                place: Place { book_index: 0, chapter },
                settings,
                panels: Panels {
                    settings_open: false,
                    search_open: false,
                    search_all_lanes: false,
                    search_seq: 0,
                    highlight_verse: None,
                    pending_scroll_verse: None,
                    chapter_picker_open: false,
                    book_picker_open: false,
                    book_picker_testament: Testament::Old,
                    book_picker_page: 0,
                    hebrew_verse: None,
                    hebrew_word_idx: None,
                    hebrew_detail_section: None,
                    select_mode: false,
                },
                search_hits,
                search_total: 0,
                selected,
            },
        )
    }

    /// The store.
    pub fn bible(&self) -> (r: &Bible)
        ensures
            r@ == self.bible_view(),
    {
        &self.bible
    }

    /// The index of the book on screen (whose chapter on screen exists and has verses).
    pub fn book_index(&self) -> (r: usize)
        ensures
            r == self.book(),
            loadable(self.bible_view(), self.book(), self.chapter_number()),
            bible::books_well_formed(self.bible_view().0),
    {
        proof {
            use_type_invariant(self);
        }
        self.place.book_index
    }

    /// The chapter on screen.
    pub fn chapter(&self) -> (r: &Chapter)
        ensures
            r.deep_view() == self.shown(),
            r.chapter == self.chapter_number(),
    {
        &self.place.chapter
    }

    pub fn settings(&self) -> (r: &AppSettings)
        ensures
            *r == self.settings_view(),
    {
        &self.settings
    }

    pub fn panels(&self) -> (r: Panels)
        ensures
            r == self.panels_view(),
    {
        self.panels
    }

    /// The hits kept for display, in order.
    pub fn search_hits(&self) -> (r: &Vec<SearchHit>)
        ensures
            r.deep_view() == self.hits(),
    {
        &self.search_hits
    }

    /// How many hits the last search found.
    pub fn search_total(&self) -> (r: usize)
        ensures
            r == self.hit_total(),
    {
        self.search_total
    }

    /// The selected units in selection order.
    pub fn selected_units(&self) -> (r: Vec<VerseUnit>)
        ensures
            r@ == self.selection(),
    {
        self.selected.units()
    }

    /// The catalog entry of the book on screen.
    pub fn current_entry(&self) -> (r: BookEntry)
        ensures
            r == self.bible_view().0[self.book()].0,
    {
        proof {
            use_type_invariant(self);
        }
        self.bible.book_at(self.place.book_index).unwrap()
    }

    /// Move to chapter `chapter` of book `book_index`, marking verse `highlight`; nothing
    /// happens when that chapter has no verses. Answers whether the window moved.
    pub fn goto_internal(&mut self, book_index: usize, chapter: u32, highlight: Option<u32>) -> (moved:
        bool)
        ensures
            moved == loadable(old(self).bible_view(), book_index as int, chapter),
            goto_outcome(*old(self), *final(self), book_index as int, chapter, highlight),
    {
        proof {
            use_type_invariant(&*self);
        }
        match self.bible.load_chapter_at(book_index, chapter) {
            Ok(loaded) => {
                self.place = Place { book_index, chapter: loaded };
                self.panels = Panels {
                    highlight_verse: highlight,
                    pending_scroll_verse: highlight,
                    chapter_picker_open: false,
                    book_picker_open: false,
                    ..self.panels
                };
                self.selected = VerseSelection::new();
                true
            },
            Err(_) => false,
        }
    }

    /// Move to chapter `chapter` of book `book_index`.
    pub fn goto(&mut self, book_index: usize, chapter: u32)
        ensures
            goto_outcome(*old(self), *final(self), book_index as int, chapter, None),
    {
        self.goto_internal(book_index, chapter, None);
    }

    /// Open book `index` at its first chapter.
    pub fn select_book(&mut self, index: usize)
        ensures
            goto_outcome(*old(self), *final(self), index as int, 1, None),
    {
        self.goto(index, 1);
    }

    /// Move to chapter `chapter` of the book on screen.
    pub fn goto_chapter(&mut self, chapter: u32)
        ensures
            goto_outcome(*old(self), *final(self), old(self).book(), chapter, None),
    {
        self.goto(self.place.book_index, chapter);
    }

    /// `[`: the previous chapter, across the start of a book.
    pub fn prev_chapter(&mut self)
        ensures
            turn_outcome(
                *old(self),
                *final(self),
                prev_target(old(self).bible_view(), old(self).book(), old(self).chapter_number()),
            ),
    {
        proof {
            use_type_invariant(&*self);
        }
        if self.panels.search_open {
            return;
        }
        if self.place.chapter.chapter > 1 {
            self.goto_chapter(self.place.chapter.chapter - 1);
            return;
        }
        if self.place.book_index > 0 {
            let prev = self.place.book_index - 1;
            match self.bible.book_at(prev) {
                Some(entry) => {
                    self.goto(prev, entry.chapter_count);
                },
                None => {},
            }
        }
    }

    /// `]`: the next chapter, across the end of a book.
    pub fn next_chapter(&mut self)
        ensures
            turn_outcome(
                *old(self),
                *final(self),
                next_target(old(self).bible_view(), old(self).book(), old(self).chapter_number()),
            ),
    {
        proof {
            use_type_invariant(&*self);
        }
        if self.panels.search_open {
            return;
        }
        let entry = self.current_entry();
        if self.place.chapter.chapter < entry.chapter_count {
            self.goto_chapter(self.place.chapter.chapter + 1);
            return;
        }
        let n = self.bible.len();
        if self.place.book_index < n - 1 {
            self.goto(self.place.book_index + 1, 1);
        }
    }
}

/// Turning back from a chapter and then forward lands on the chapter again, across the
/// border of two books too.
pub proof fn law_next_undoes_prev(view: BibleModel, b: int, c: u32)
    requires
        bible::books_well_formed(view.0),
        loadable(view, b, c),
        prev_target(view, b, c) matches Some((pb, pc)) && loadable(view, pb, pc),
    ensures
        prev_target(view, b, c) matches Some((pb, pc)) && next_target(view, pb, pc) == Some((b, c)),
{
    assert(view.0[b].1.len() <= u32::MAX);
    if b > 0 {
        assert(view.0[b - 1].1.len() <= u32::MAX);
    }
}

/// Turning forward from a chapter and then back lands on the chapter again, across the
/// border of two books too.
pub proof fn law_prev_undoes_next(view: BibleModel, b: int, c: u32)
    requires
        bible::books_well_formed(view.0),
        loadable(view, b, c),
        next_target(view, b, c) matches Some((nb, nc)) && loadable(view, nb, nc),
    ensures
        next_target(view, b, c) matches Some((nb, nc)) && prev_target(view, nb, nc) == Some((b, c)),
{
    assert(view.0[b].1.len() <= u32::MAX);
}

/// In the window: `[` then `]` comes back to the chapter that was on screen, whenever
/// `[` moved.
pub proof fn law_window_back_then_forward(r0: BibleView, r1: BibleView, r2: BibleView)
    requires
        loadable(r0.bible_view(), r0.book(), r0.chapter_number()),
        bible::books_well_formed(r0.bible_view().0),
        turn_outcome(r0, r1, prev_target(r0.bible_view(), r0.book(), r0.chapter_number())),
        turn_outcome(r1, r2, next_target(r1.bible_view(), r1.book(), r1.chapter_number())),
        r1 != r0,
    ensures
        r2.book() == r0.book(),
        r2.chapter_number() == r0.chapter_number(),
{
    let view = r0.bible_view();
    law_next_undoes_prev(view, r0.book(), r0.chapter_number());
}

/// In the window: `]` then `[` comes back to the chapter that was on screen, whenever
/// `]` moved.
pub proof fn law_window_forward_then_back(r0: BibleView, r1: BibleView, r2: BibleView)
    requires
        loadable(r0.bible_view(), r0.book(), r0.chapter_number()),
        bible::books_well_formed(r0.bible_view().0),
        turn_outcome(r0, r1, next_target(r0.bible_view(), r0.book(), r0.chapter_number())),
        turn_outcome(r1, r2, prev_target(r1.bible_view(), r1.book(), r1.chapter_number())),
        r1 != r0,
    ensures
        r2.book() == r0.book(),
        r2.chapter_number() == r0.chapter_number(),
{
    let view = r0.bible_view();
    law_prev_undoes_next(view, r0.book(), r0.chapter_number());
}

/// `new` is `old` with the panels `p`; all else stays.
pub open spec fn only_panels(old: BibleView, new: BibleView, p: Panels) -> bool {
    &&& new.bible_view() == old.bible_view()
    &&& new.book() == old.book()
    &&& new.chapter_number() == old.chapter_number()
    &&& new.shown() == old.shown()
    &&& new.chapter_value() == old.chapter_value()
    &&& new.panels_view() == p
    &&& new.selection() == old.selection()
    &&& new.settings_view() == old.settings_view()
    &&& new.hits() == old.hits()
    &&& new.hit_total() == old.hit_total()
}

/// `new` is `old` with the panels `p` and a selection holding the units of `units`.
pub open spec fn panels_and_selection(old: BibleView, new: BibleView, p: Panels, units: Set<VerseUnit>) -> bool {
    &&& new.bible_view() == old.bible_view()
    &&& new.book() == old.book()
    &&& new.chapter_number() == old.chapter_number()
    &&& new.shown() == old.shown()
    &&& new.chapter_value() == old.chapter_value()
    &&& new.panels_view() == p
    &&& new.selection().to_set() == units
    &&& new.settings_view() == old.settings_view()
    &&& new.hits() == old.hits()
    &&& new.hit_total() == old.hit_total()
}

/// The search counter after a bump (it wraps).
pub open spec fn bumped(seq: u64) -> u64 {
    if seq == u64::MAX {
        0
    } else {
        (seq + 1) as u64
    }
}

/// The panels once the Hebrew view is closed: its verse becomes the marked one.
pub open spec fn hebrew_closed(p: Panels) -> Panels {
    Panels {
        highlight_verse: if p.hebrew_verse is Some {
            p.hebrew_verse
        } else {
            p.highlight_verse
        },
        pending_scroll_verse: if p.hebrew_verse is Some {
            p.hebrew_verse
        } else {
            p.pending_scroll_verse
        },
        hebrew_verse: None,
        hebrew_word_idx: None,
        hebrew_detail_section: None,
        ..p
    }
}

/// The verse numbers of a chapter, in order.
pub open spec fn verse_numbers(ch: chapter::ChapterView) -> Seq<u32> {
    ch.5.map_values(|v: chapter::VerseView| v.0)
}

impl BibleView {
    /// Show or hide the settings panel.
    pub fn toggle_settings(&mut self)
        ensures
            only_panels(
                *old(self),
                *final(self),
                Panels { settings_open: !old(self).panels_view().settings_open, ..old(self).panels_view() },
            ),
    {
        proof {
            use_type_invariant(&*self);
        }
        self.panels = Panels { settings_open: !self.panels.settings_open, ..self.panels };
    }

    /// Close the Hebrew view; its verse becomes the marked one. The window then takes the
    /// keyboard focus back.
    pub fn close_hebrew_view(&mut self)
        ensures
            only_panels(*old(self), *final(self), hebrew_closed(old(self).panels_view())),
    {
        proof {
            use_type_invariant(&*self);
        }
        self.panels = Panels {
            highlight_verse: match self.panels.hebrew_verse {
                Some(n) => Some(n),
                None => self.panels.highlight_verse,
            },
            pending_scroll_verse: match self.panels.hebrew_verse {
                Some(n) => Some(n),
                None => self.panels.pending_scroll_verse,
            },
            hebrew_verse: None,
            hebrew_word_idx: None,
            hebrew_detail_section: None,
            ..self.panels
        };
    }

    /// Leave select mode; the selection empties.
    pub fn exit_select_mode(&mut self)
        ensures
            panels_and_selection(
                *old(self),
                *final(self),
                Panels { select_mode: false, ..old(self).panels_view() },
                Set::empty(),
            ),
    {
        proof {
            use_type_invariant(&*self);
        }
        self.panels = Panels { select_mode: false, ..self.panels };
        self.selected = VerseSelection::new();
        assert(self.selected@.to_set() =~= Set::<VerseUnit>::empty());
    }

    /// Close the search; a pending search is dropped. Answers whether it was open (the
    /// window then takes the keyboard focus back).
    pub fn close_search(&mut self) -> (was_open: bool)
        ensures
            was_open == old(self).panels_view().search_open,
            !was_open ==> *final(self) == *old(self),
            was_open ==> only_panels(
                *old(self),
                *final(self),
                Panels {
                    search_open: false,
                    search_seq: bumped(old(self).panels_view().search_seq),
                    ..old(self).panels_view()
                },
            ),
    {
        proof {
            use_type_invariant(&*self);
        }
        if !self.panels.search_open {
            return false;
        }
        self.panels = Panels {
            search_open: false,
            search_seq: self.panels.search_seq.wrapping_add(1),
            ..self.panels
        };
        true
    }

    /// Esc: close the innermost thing that is open: the Hebrew view, else select mode, else
    /// the book picker, else the chapter picker, else the search, else the settings.
    /// Answers whether the window takes the keyboard focus back.
    pub fn close_settings(&mut self) -> (refocus: bool)
        ensures
            ({
                let p = old(self).panels_view();
                if p.hebrew_verse is Some {
                    refocus && only_panels(*old(self), *final(self), hebrew_closed(p))
                } else if p.select_mode {
                    !refocus && panels_and_selection(
                        *old(self),
                        *final(self),
                        Panels { select_mode: false, ..p },
                        Set::empty(),
                    )
                } else if p.book_picker_open {
                    refocus && only_panels(
                        *old(self),
                        *final(self),
                        Panels { book_picker_open: false, ..p },
                    )
                } else if p.chapter_picker_open {
                    refocus && only_panels(
                        *old(self),
                        *final(self),
                        Panels { chapter_picker_open: false, ..p },
                    )
                } else if p.search_open {
                    refocus && only_panels(
                        *old(self),
                        *final(self),
                        Panels { search_open: false, search_seq: bumped(p.search_seq), ..p },
                    )
                } else if p.settings_open {
                    refocus && only_panels(
                        *old(self),
                        *final(self),
                        Panels { settings_open: false, ..p },
                    )
                } else {
                    !refocus && *final(self) == *old(self)
                }
            }),
    {
        proof {
            use_type_invariant(&*self);
        }
        if self.panels.hebrew_verse.is_some() {
            self.close_hebrew_view();
            return true;
        }
        if self.panels.select_mode {
            self.exit_select_mode();
            return false;
        }
        if self.panels.book_picker_open {
            self.panels = Panels { book_picker_open: false, ..self.panels };
            return true;
        }
        if self.panels.chapter_picker_open {
            self.panels = Panels { chapter_picker_open: false, ..self.panels };
            return true;
        }
        if self.panels.search_open {
            return self.close_search();
        }
        if self.panels.settings_open {
            self.panels = Panels { settings_open: false, ..self.panels };
            return true;
        }
        false
    }

    /// Enter select mode with nothing selected, or leave it.
    pub fn toggle_select_mode(&mut self)
        ensures
            panels_and_selection(
                *old(self),
                *final(self),
                Panels { select_mode: !old(self).panels_view().select_mode, ..old(self).panels_view() },
                Set::empty(),
            ),
    {
        proof {
            use_type_invariant(&*self);
        }
        if self.panels.select_mode {
            self.exit_select_mode();
        } else {
            self.panels = Panels { select_mode: true, ..self.panels };
            self.selected = VerseSelection::new();
            assert(self.selected@.to_set() =~= Set::<VerseUnit>::empty());
        }
    }

    /// The verse numbers of the chapter on screen.
    fn verse_numbers_exec(&self) -> (r: Vec<u32>)
        ensures
            r@ == verse_numbers(self.shown()),
    {
        let verses = &self.place.chapter.verses;
        let ghost vs = self.shown().5;
        let mut out: Vec<u32> = Vec::new();
        let mut i: usize = 0;
        while i < verses.len()
            invariant
                i <= verses@.len(),
                vs == verses.deep_view(),
                out@ == vs.map_values(|v: chapter::VerseView| v.0).take(i as int),
            decreases verses@.len() - i,
        {
            assert(vs[i as int].0 == verses@[i as int].number);
            out.push(verses[i].number);
            i = i + 1;
            assert(out@ =~= vs.map_values(|v: chapter::VerseView| v.0).take(i as int));
        }
        assert(vs.map_values(|v: chapter::VerseView| v.0).take(vs.len() as int) =~= vs.map_values(
            |v: chapter::VerseView| v.0,
        ));
        out
    }

    /// A tap on verse `number` of lane `translation` in select mode (see
    /// `selection::apply_verse_tap`); ignored outside select mode and for a lane that is
    /// not on screen.
    pub fn on_verse_select(&mut self, number: u32, translation: TranslationId)
        ensures
            !old(self).panels_view().select_mode || !old(self).settings_view().view_mode@.1.contains(
                translation,
            ) ==> *final(self) == *old(self),
            old(self).panels_view().select_mode && old(self).settings_view().view_mode@.1.contains(
                translation,
            ) ==> panels_and_selection(
                *old(self),
                *final(self),
                old(self).panels_view(),
                selection::tap_spec(
                    old(self).selection(),
                    number,
                    translation,
                    verse_numbers(old(self).shown()),
                ),
            ),
    {
        proof {
            use_type_invariant(&*self);
        }
        if !self.panels.select_mode {
            return;
        }
        let lanes = self.settings.view_mode.lanes();
        let mut on_screen = false;
        let mut i: usize = 0;
        while i < lanes.len()
            invariant
                i <= lanes@.len(),
                on_screen <==> exists|k: int| 0 <= k < i && lanes@[k] == translation,
            decreases lanes@.len() - i,
        {
            if lanes[i] == translation {
                on_screen = true;
            }
            i = i + 1;
        }
        if !on_screen {
            return;
        }
        let numbers = self.verse_numbers_exec();
        let mut sel = VerseSelection::new();
        std::mem::swap(&mut sel, &mut self.selected);
        selection::apply_verse_tap(&mut sel, number, translation, numbers.as_slice());
        self.selected = sel;
    }

    /// Drop the selected units of lanes that are no longer on screen.
    pub fn prune_hidden_selection(&mut self)
        ensures
            panels_and_selection(
                *old(self),
                *final(self),
                old(self).panels_view(),
                old(self).selection().to_set().filter(
                    |u: VerseUnit| old(self).settings_view().view_mode@.1.contains(u.translation),
                ),
            ),
    {
        proof {
            use_type_invariant(&*self);
        }
        let lanes = self.settings.view_mode.lanes();
        let mut sel = VerseSelection::new();
        std::mem::swap(&mut sel, &mut self.selected);
        sel.retain_lanes(lanes.as_slice());
        self.selected = sel;
    }

    /// The clipboard text of the selection, after dropping hidden lanes; none when nothing
    /// stays selected.
    pub fn copy_selection(&mut self) -> (r: Option<String>)
        ensures
            panels_and_selection(
                *old(self),
                *final(self),
                old(self).panels_view(),
                old(self).selection().to_set().filter(
                    |u: VerseUnit| old(self).settings_view().view_mode@.1.contains(u.translation),
                ),
            ),
            final(self).selection().len() == 0 ==> r is None,
            final(self).selection().len() > 0 ==> (r matches Some(t) && t@ == selection::join(
                selection::copy_blocks(
                    old(self).chapter_value(),
                    final(self).selection(),
                    translation::all_spec(),
                ),
                "\n"@,
            )),
    {
        self.prune_hidden_selection();
        if self.selected.is_empty() {
            return None;
        }
        let units = self.selected.units();
        Some(selection::format_verse_copy(&self.place.chapter, units.as_slice()))
    }
}

/// The first `SEARCH_DISPLAY_CAP` of `hits`.
pub open spec fn capped(hits: Seq<chapter::HitView>) -> Seq<chapter::HitView> {
    if hits.len() > SEARCH_DISPLAY_CAP {
        hits.take(SEARCH_DISPLAY_CAP as int)
    } else {
        hits
    }
}

/// The lanes a search looks in: every bundled translation, or the lanes on screen.
pub open spec fn search_lanes_spec(r: BibleView) -> Seq<TranslationId> {
    if r.panels_view().search_all_lanes {
        translation::all_spec()
    } else {
        r.settings_view().view_mode@.1
    }
}

/// `new` is `old` holding the results of a search for `query`.
pub open spec fn searched(old: BibleView, new: BibleView, query: Seq<char>) -> bool {
    let all = bible::search_spec(old.bible_view(), query, search_lanes_spec(old));
    &&& new.bible_view() == old.bible_view()
    &&& new.book() == old.book()
    &&& new.chapter_number() == old.chapter_number()
    &&& new.shown() == old.shown()
    &&& new.chapter_value() == old.chapter_value()
    &&& new.panels_view() == old.panels_view()
    &&& new.selection() == old.selection()
    &&& new.settings_view() == old.settings_view()
    &&& new.hits() == capped(all)
    &&& new.hit_total() == all.len()
}

/// A jump to verse `v` of chapter `c` of book `b` from the search: the search closes (a
/// pending one is dropped) and, when that chapter has verses, the window moves there and
/// marks the verse.
pub open spec fn jump_outcome(old: BibleView, new: BibleView, b: int, c: u32, v: u32) -> bool {
    let p = Panels {
        search_open: false,
        search_seq: bumped(old.panels_view().search_seq),
        ..old.panels_view()
    };
    if loadable(old.bible_view(), b, c) {
        moved_to(old, new, b, c, arrived(p, Some(v)))
    } else {
        only_panels(old, new, p)
    }
}

impl BibleView {
    /// Open the search (the window then focuses its input).
    pub fn open_search(&mut self)
        ensures
            only_panels(
                *old(self),
                *final(self),
                Panels { search_open: true, ..old(self).panels_view() },
            ),
    {
        proof {
            use_type_invariant(&*self);
        }
        self.panels = Panels { search_open: true, ..self.panels };
    }

    /// The lanes a search looks in.
    pub fn search_lanes(&self) -> (r: Vec<TranslationId>)
        ensures
            r@ == search_lanes_spec(*self),
    {
        if self.panels.search_all_lanes {
            TranslationId::all()
        } else {
            self.settings.view_mode.lanes()
        }
    }

    /// The search input changed to `raw`. A blank query clears the results; any change
    /// drops the pending search. Answers the number under which to run the search once
    /// the typing pauses (`SEARCH_DEBOUNCE_MS`), or none for a blank query.
    pub fn on_search_input_change(&mut self, raw: &str) -> (r: Option<u64>)
        ensures
            ({
                let p = Panels {
                    search_seq: bumped(old(self).panels_view().search_seq),
                    ..old(self).panels_view()
                };
                &&& final(self).bible_view() == old(self).bible_view()
                &&& final(self).book() == old(self).book()
                &&& final(self).chapter_number() == old(self).chapter_number()
                &&& final(self).shown() == old(self).shown()
                &&& final(self).chapter_value() == old(self).chapter_value()
                &&& final(self).panels_view() == p
                &&& final(self).selection() == old(self).selection()
                &&& final(self).settings_view() == old(self).settings_view()
                &&& text::trim(raw@).len() == 0 ==> {
                    &&& r is None
                    &&& final(self).hits() == Seq::<chapter::HitView>::empty()
                    &&& final(self).hit_total() == 0
                }
                &&& text::trim(raw@).len() > 0 ==> {
                    &&& r == Some(p.search_seq)
                    &&& final(self).hits() == old(self).hits()
                    &&& final(self).hit_total() == old(self).hit_total()
                }
            }),
    {
        proof {
            use_type_invariant(&*self);
        }
        let blank_query = trim_str(raw).unicode_len() == 0;
        self.panels = Panels { search_seq: self.panels.search_seq.wrapping_add(1), ..self.panels };
        if blank_query {
            self.search_hits = Vec::new();
            self.search_total = 0;
            assert(self.search_hits.deep_view() =~= Seq::<chapter::HitView>::empty());
            return None;
        }
        Some(self.panels.search_seq)
    }

    /// Whether the search numbered `seq` is still wanted when its pause ends: no later
    /// change dropped it and the search is still open.
    pub fn search_still_wanted(&self, seq: u64) -> (r: bool)
        ensures
            r == (seq == self.panels_view().search_seq && self.panels_view().search_open),
    {
        seq == self.panels.search_seq && self.panels.search_open
    }

    /// Search for `query` in the search lanes; keep the first `SEARCH_DISPLAY_CAP` hits
    /// and the total.
    pub fn run_search(&mut self, query: &str)
        ensures
            searched(*old(self), *final(self), query@),
    {
        proof {
            use_type_invariant(&*self);
        }
        let lanes = self.search_lanes();
        let mut hits = self.bible.search(query, lanes.as_slice());
        let ghost all = hits.deep_view();
        self.search_total = hits.len();
        hits.truncate(SEARCH_DISPLAY_CAP);
        assert(hits.deep_view() =~= capped(all));
        self.search_hits = hits;
    }

    /// Search the lanes on screen, or every translation, and run the search again.
    pub fn set_search_all_lanes(&mut self, all: bool, query: &str)
        ensures
            ({
                let mid = Panels { search_all_lanes: all, ..old(self).panels_view() };
                let lanes = if all {
                    translation::all_spec()
                } else {
                    old(self).settings_view().view_mode@.1
                };
                let found = bible::search_spec(old(self).bible_view(), query@, lanes);
                &&& final(self).panels_view() == mid
                &&& final(self).bible_view() == old(self).bible_view()
                &&& final(self).book() == old(self).book()
                &&& final(self).chapter_number() == old(self).chapter_number()
                &&& final(self).shown() == old(self).shown()
                &&& final(self).selection() == old(self).selection()
                &&& final(self).settings_view() == old(self).settings_view()
                &&& final(self).hits() == capped(found)
                &&& final(self).hit_total() == found.len()
            }),
    {
        proof {
            use_type_invariant(&*self);
        }
        self.panels = Panels { search_all_lanes: all, ..self.panels };
        self.run_search(query);
    }

    fn jump_to(&mut self, book_index: usize, chapter: u32, verse: u32)
        ensures
            jump_outcome(*old(self), *final(self), book_index as int, chapter, verse),
    {
        proof {
            use_type_invariant(&*self);
        }
        self.goto_internal(book_index, chapter, Some(verse));
        self.panels = Panels {
            search_open: false,
            search_seq: self.panels.search_seq.wrapping_add(1),
            ..self.panels
        };
    }

    /// Go to a search hit; the search closes (the window then takes the keyboard focus
    /// back).
    pub fn jump_to_search_hit(&mut self, hit: &SearchHit)
        ensures
            jump_outcome(*old(self), *final(self), hit.book_index as int, hit.chapter, hit.verse),
    {
        self.jump_to(hit.book_index, hit.chapter, hit.verse);
    }

    /// Enter in the search: go to the first hit shown. Answers whether there was one.
    pub fn jump_first_search_hit(&mut self) -> (jumped: bool)
        ensures
            jumped == (old(self).hits().len() > 0),
            !jumped ==> *final(self) == *old(self),
            jumped ==> jump_outcome(
                *old(self),
                *final(self),
                old(self).hits()[0].2 as int,
                old(self).hits()[0].3,
                old(self).hits()[0].4,
            ),
    {
        if self.search_hits.len() == 0 {
            return false;
        }
        let b = self.search_hits[0].book_index;
        let c = self.search_hits[0].chapter;
        let v = self.search_hits[0].verse;
        assert(self.hits()[0] == self.search_hits@[0].deep_view());
        self.jump_to(b, c, v);
        true
    }
}

/// The first book at or after `i` whose OSIS id is `osis`.
pub open spec fn first_osis_entry(books: Seq<bible::BookView>, osis: Seq<char>, i: int) -> Option<int>
    decreases books.len() - i,
{
    if i < 0 || i >= books.len() {
        None
    } else if books[i].0.meta.osis@ == osis {
        Some(i)
    } else {
        first_osis_entry(books, osis, i + 1)
    }
}

/// Chapter `c` kept between 1 and the book's last chapter (1 for a book without
/// chapters).
pub open spec fn clamp_chapter(c: u32, count: u32) -> u32 {
    let hi: u32 = if count == 0 {
        1
    } else {
        count
    };
    if c < 1 {
        1
    } else if c > hi {
        hi
    } else {
        c
    }
}

/// Where a typed reference leads: the book at the position its number gives when that
/// book has its OSIS id, else the first book with that id; the chapter clamped into the
/// book; the verse marked. Nowhere when no such book is loaded.
pub open spec fn jump_target(view: BibleModel, r: catalog::BibleRef) -> Option<(int, u32, Option<u32>)> {
    let i: int = if r.book.book_id == 0 {
        0
    } else {
        r.book.book_id - 1
    };
    if i >= view.0.len() {
        None
    } else if view.0[i].0.meta.osis@ == r.book.osis@ {
        Some((i, clamp_chapter(r.chapter, view.0[i].0.chapter_count), r.verse))
    } else {
        match first_osis_entry(view.0, r.book.osis@, 0) {
            Some(k) => Some((k, clamp_chapter(r.chapter, view.0[k].0.chapter_count), r.verse)),
            None => None,
        }
    }
}

proof fn lemma_first_osis_entry_in_range(books: Seq<bible::BookView>, osis: Seq<char>, i: int)
    ensures
        first_osis_entry(books, osis, i) matches Some(k) ==> i <= k < books.len()
            && books[k].0.meta.osis@ == osis,
    decreases books.len() - i,
{
    if 0 <= i < books.len() {
        lemma_first_osis_entry_in_range(books, osis, i + 1);
    }
}

fn clamp_chapter_exec(c: u32, count: u32) -> (r: u32)
    ensures
        r == clamp_chapter(c, count),
{
    let hi: u32 = if count == 0 {
        1
    } else {
        count
    };
    if c < 1 {
        1
    } else if c > hi {
        hi
    } else {
        c
    }
}

impl BibleView {
    /// The position of the first loaded book whose OSIS id is `osis`.
    fn find_osis(&self, osis: &str) -> (r: Option<usize>)
        ensures
            match r {
                Some(k) => first_osis_entry(self.bible_view().0, osis@, 0) == Some(k as int),
                None => first_osis_entry(self.bible_view().0, osis@, 0) is None,
            },
    {
        let catalog = self.bible.catalog();
        let ghost books = self.bible_view().0;
        let mut i: usize = 0;
        while i < catalog.len()
            invariant
                i <= catalog@.len(),
                catalog@ == books.map_values(|b: bible::BookView| b.0),
                books == self.bible_view().0,
                first_osis_entry(books, osis@, 0) == first_osis_entry(books, osis@, i as int),
            decreases catalog@.len() - i,
        {
            assert(catalog@[i as int] == books[i as int].0);
            if text::str_eq(catalog[i].meta.osis, osis) {
                return Some(i);
            }
            i = i + 1;
        }
        None
    }

    /// Enter in the jump box: go where the typed reference `raw` leads (see
    /// `jump_target`). Answers whether it named a loaded book (the window then takes the
    /// keyboard focus back).
    pub fn submit_jump(&mut self, raw: &str) -> (named: bool)
        ensures
            match catalog::parse_ref_spec(raw@) {
                None => !named && *final(self) == *old(self),
                Some(pr) => match jump_target(old(self).bible_view(), pr) {
                    None => !named && *final(self) == *old(self),
                    Some((b, c, h)) => named && goto_outcome(*old(self), *final(self), b, c, h),
                },
            },
    {
        proof {
            use_type_invariant(&*self);
        }
        let parsed = match catalog::parse_bible_ref(raw) {
            Some(p) => p,
            None => {
                return false;
            },
        };
        let book_index: usize = if parsed.book.book_id == 0 {
            0
        } else {
            (parsed.book.book_id - 1) as usize
        };
        let entry = match self.bible.book_at(book_index) {
            Some(e) => e,
            None => {
                return false;
            },
        };
        if !text::str_eq(entry.meta.osis, parsed.book.osis) {
            let idx = match self.find_osis(parsed.book.osis) {
                Some(k) => k,
                None => {
                    return false;
                },
            };
            proof {
                lemma_first_osis_entry_in_range(self.bible_view().0, parsed.book.osis@, 0);
            }
            let entry = self.bible.book_at(idx).unwrap();
            let chapter = clamp_chapter_exec(parsed.chapter, entry.chapter_count);
            self.goto_internal(idx, chapter, parsed.verse);
        } else {
            let chapter = clamp_chapter_exec(parsed.chapter, entry.chapter_count);
            self.goto_internal(book_index, chapter, parsed.verse);
        }
        true
    }
}

/// The first position at or after `i` of the entry of book `index` in `books`.
pub open spec fn position_of(books: Seq<BookEntry>, index: usize, i: int) -> Option<int>
    decreases books.len() - i,
{
    if i < 0 || i >= books.len() {
        None
    } else if books[i].index == index {
        Some(i)
    } else {
        position_of(books, index, i + 1)
    }
}

proof fn lemma_position_in_range(books: Seq<BookEntry>, index: usize, i: int)
    ensures
        position_of(books, index, i) matches Some(k) ==> i <= k < books.len(),
    decreases books.len() - i,
{
    if 0 <= i < books.len() {
        lemma_position_in_range(books, index, i + 1);
    }
}

/// The page of the book picker that shows the entry at position `pos`.
pub open spec fn page_of(pos: int) -> int {
    pos / (BOOK_GRID_PAGE_SIZE as int)
}

proof fn lemma_page_of_in_range(pos: int, n: int)
    requires
        0 <= pos < n,
    ensures
        0 <= page_of(pos) < (n + BOOK_GRID_PAGE_SIZE - 1) / (BOOK_GRID_PAGE_SIZE as int),
{
    assert(pos / 16 < (n + 15) / 16) by (nonlinear_arith)
        requires
            0 <= pos < n,
    ;
}

/// The books the picker shows on page `page` of testament `t` (the last page when
/// `page` is past it).
pub open spec fn page_books(view: BibleModel, t: Testament, page: int) -> Seq<BookEntry> {
    let books = testament_books(view.0, t);
    let last = page_count_spec(view, t) - 1;
    let p = if page < last {
        page
    } else {
        last
    };
    let start = p * (BOOK_GRID_PAGE_SIZE as int);
    let end = if start + BOOK_GRID_PAGE_SIZE < books.len() {
        start + BOOK_GRID_PAGE_SIZE
    } else {
        books.len() as int
    };
    books.subrange(start, end)
}

impl BibleView {
    /// The catalog entries of the loaded books in testament `t`, in order.
    fn testament_books_exec(&self, t: Testament) -> (r: Vec<BookEntry>)
        ensures
            r@ == testament_books(self.bible_view().0, t),
    {
        let catalog = self.bible.catalog();
        let ghost books = self.bible_view().0;
        let mut out: Vec<BookEntry> = Vec::new();
        let mut i: usize = 0;
        while i < catalog.len()
            invariant
                i <= catalog@.len(),
                catalog@ == books.map_values(|b: bible::BookView| b.0),
                books == self.bible_view().0,
                out@ == testament_books(books.take(i as int), t),
            decreases catalog@.len() - i,
        {
            proof {
                assert(books.take(i + 1).drop_last() =~= books.take(i as int));
                assert(books.take(i + 1).last() == books[i as int]);
                assert(catalog@[i as int] == books[i as int].0);
            }
            let e = catalog[i];
            if e.meta.testament == t {
                out.push(e);
            }
            i = i + 1;
        }
        assert(books.take(books.len() as int) =~= books);
        out
    }

    /// Pages of the book picker for its testament.
    pub fn book_picker_page_count(&self) -> (r: usize)
        ensures
            r == page_count_spec(self.bible_view(), self.panels_view().book_picker_testament),
    {
        let n = self.testament_books_exec(self.panels.book_picker_testament).len();
        if n == 0 {
            return 1;
        }
        let r = n / BOOK_GRID_PAGE_SIZE + if n % BOOK_GRID_PAGE_SIZE == 0 {
            0
        } else {
            1
        };
        assert(r == (n + 15) / 16) by (nonlinear_arith)
            requires
                r == n / 16 + if n % 16 == 0 {
                    0int
                } else {
                    1int
                },
        ;
        r
    }

    /// Show the chapter picker (closing the book picker), or hide it.
    pub fn toggle_chapter_picker(&mut self)
        ensures
            only_panels(
                *old(self),
                *final(self),
                Panels {
                    chapter_picker_open: !old(self).panels_view().chapter_picker_open,
                    book_picker_open: if old(self).panels_view().chapter_picker_open {
                        old(self).panels_view().book_picker_open
                    } else {
                        false
                    },
                    ..old(self).panels_view()
                },
            ),
    {
        proof {
            use_type_invariant(&*self);
        }
        let open = !self.panels.chapter_picker_open;
        self.panels = Panels {
            chapter_picker_open: open,
            book_picker_open: if open {
                false
            } else {
                self.panels.book_picker_open
            },
            ..self.panels
        };
    }

    /// Show the book picker on the testament and page of the book on screen (closing the
    /// chapter picker), or hide it.
    pub fn open_book_picker(&mut self)
        ensures
            ({
                let p = old(self).panels_view();
                let view = old(self).bible_view();
                let t = view.0[old(self).book()].0.meta.testament;
                let pos = match position_of(testament_books(view.0, t), old(self).book() as usize, 0) {
                    Some(k) => k,
                    None => 0,
                };
                if p.book_picker_open {
                    only_panels(*old(self), *final(self), Panels { book_picker_open: false, ..p })
                } else {
                    only_panels(
                        *old(self),
                        *final(self),
                        Panels {
                            book_picker_testament: t,
                            book_picker_page: page_of(pos) as usize,
                            book_picker_open: true,
                            chapter_picker_open: false,
                            ..p
                        },
                    )
                }
            }),
    {
        proof {
            use_type_invariant(&*self);
        }
        if self.panels.book_picker_open {
            self.panels = Panels { book_picker_open: false, ..self.panels };
            return;
        }
        let entry = self.current_entry();
        let t = entry.meta.testament;
        let books = self.testament_books_exec(t);
        let mut pos: usize = 0;
        let mut i: usize = 0;
        let mut found = false;
        while i < books.len()
            invariant
                i <= books@.len(),
                !found ==> pos == 0,
                !found ==> position_of(books@, self.place.book_index, 0) == position_of(
                    books@,
                    self.place.book_index,
                    i as int,
                ),
                found ==> position_of(books@, self.place.book_index, 0) == Some(pos as int),
            decreases books@.len() - i,
        {
            if !found && books[i].index == self.place.book_index {
                pos = i;
                found = true;
            }
            i = i + 1;
        }
        proof {
            lemma_position_in_range(books@, self.place.book_index, 0);
            if found {
                lemma_page_of_in_range(pos as int, books@.len() as int);
            }
        }
        self.panels = Panels {
            book_picker_testament: t,
            book_picker_page: pos / BOOK_GRID_PAGE_SIZE,
            book_picker_open: true,
            chapter_picker_open: false,
            ..self.panels
        };
    }

    /// Show testament `t` in the book picker, from its first page.
    pub fn set_book_picker_testament(&mut self, t: Testament)
        ensures
            only_panels(
                *old(self),
                *final(self),
                Panels { book_picker_testament: t, book_picker_page: 0, ..old(self).panels_view() },
            ),
    {
        proof {
            use_type_invariant(&*self);
        }
        self.panels = Panels { book_picker_testament: t, book_picker_page: 0, ..self.panels };
    }

    /// Show page `page` of the book picker (one of the page dots).
    pub fn set_book_picker_page(&mut self, page: usize)
        requires
            page < page_count_spec(old(self).bible_view(), old(self).panels_view().book_picker_testament),
        ensures
            only_panels(
                *old(self),
                *final(self),
                Panels { book_picker_page: page, ..old(self).panels_view() },
            ),
    {
        proof {
            use_type_invariant(&*self);
        }
        self.panels = Panels { book_picker_page: page, ..self.panels };
    }

    /// Turn the book picker's pages by `delta`, wrapping around.
    pub fn shift_book_picker_page(&mut self, delta: i32)
        ensures
            only_panels(
                *old(self),
                *final(self),
                Panels {
                    book_picker_page: ((old(self).panels_view().book_picker_page + delta)
                        % page_count_spec(
                        old(self).bible_view(),
                        old(self).panels_view().book_picker_testament,
                    )) as usize,
                    ..old(self).panels_view()
                },
            ),
    {
        proof {
            use_type_invariant(&*self);
        }
        let pages = self.book_picker_page_count();
        let page = self.panels.book_picker_page;
        let ghost want = (page + delta) % (pages as int);
        let next: usize = if delta >= 0 {
            let d = (delta as usize) % pages;
            assert(d < pages);
            let r = ((page as u128 + d as u128) % (pages as u128)) as usize;
            proof {
                vstd::arithmetic::div_mod::lemma_fundamental_div_mod(delta as int, pages as int);
                vstd::arithmetic::div_mod::lemma_mod_multiples_vanish(
                    (delta as int) / (pages as int),
                    page + d,
                    pages as int,
                );
                assert(page + delta == (pages as int) * ((delta as int) / (pages as int)) + (page + d));
            }
            r
        } else {
            let m: usize = ((-(delta as i64)) as usize) % pages;
            assert(m < pages);
            let r = ((page as u128 + (pages - m) as u128) % (pages as u128)) as usize;
            proof {
                let md = -(delta as int);
                vstd::arithmetic::div_mod::lemma_fundamental_div_mod(md, pages as int);
                let q = md / (pages as int);
                assert(page + (pages - m) == (pages as int) * (q + 1) + (page + delta)) by (nonlinear_arith)
                    requires
                        md == (pages as int) * q + m,
                        md == -(delta as int),
                ;
                vstd::arithmetic::div_mod::lemma_mod_multiples_vanish(q + 1, page + delta, pages as int);
            }
            r
        };
        assert(next == want);
        self.panels = Panels { book_picker_page: next, ..self.panels };
    }

    /// The books on the book picker's page.
    pub fn book_picker_page_books(&self) -> (r: Vec<BookEntry>)
        ensures
            r@ == page_books(
                self.bible_view(),
                self.panels_view().book_picker_testament,
                self.panels_view().book_picker_page as int,
            ),
    {
        proof {
            use_type_invariant(self);
        }
        let books = self.testament_books_exec(self.panels.book_picker_testament);
        let pages = self.book_picker_page_count();
        let page = if self.panels.book_picker_page < pages - 1 {
            self.panels.book_picker_page
        } else {
            pages - 1
        };
        let n = books.len();
        proof {
            if n > 0 {
                assert(page * 16 <= n - 1) by (nonlinear_arith)
                    requires
                        page < (n + 15) / 16,
                        n > 0,
                ;
            }
        }
        let start = page * BOOK_GRID_PAGE_SIZE;
        let end = if n - start > BOOK_GRID_PAGE_SIZE {
            start + BOOK_GRID_PAGE_SIZE
        } else {
            n
        };
        let mut out: Vec<BookEntry> = Vec::new();
        let mut k: usize = start;
        while k < end
            invariant
                start <= k <= end <= books@.len(),
                out@ == books@.subrange(start as int, k as int),
            decreases end - k,
        {
            out.push(books[k]);
            k = k + 1;
            assert(out@ =~= books@.subrange(start as int, k as int));
        }
        out
    }
}

/// Word `idx` of the Hebrew words of verse `verse` of a chapter, if there is one.
pub open spec fn hebrew_word_at(ch: chapter::ChapterView, verse: Option<u32>, idx: usize) -> Option<
    crate::hebrew::WordView,
> {
    match verse {
        Some(n) => match selection::first_verse_numbered(ch.5, n, 0) {
            Some(k) => match ch.5[k].2 {
                Some(words) => if idx < words.len() {
                    Some(words[idx as int])
                } else {
                    None
                },
                None => None,
            },
            None => None,
        },
        None => None,
    }
}

proof fn lemma_first_verse_numbered_in_range(vs: Seq<chapter::VerseView>, n: u32, i: int)
    ensures
        selection::first_verse_numbered(vs, n, i) matches Some(k) ==> i <= k < vs.len() && vs[k].0
            == n,
    decreases vs.len() - i,
{
    if 0 <= i < vs.len() {
        lemma_first_verse_numbered_in_range(vs, n, i + 1);
    }
}

/// `new` is `old` with at most its settings and its selection changed.
pub open spec fn settings_changed(old: BibleView, new: BibleView) -> bool {
    &&& new.bible_view() == old.bible_view()
    &&& new.book() == old.book()
    &&& new.chapter_number() == old.chapter_number()
    &&& new.shown() == old.shown()
    &&& new.chapter_value() == old.chapter_value()
    &&& new.panels_view() == old.panels_view()
    &&& new.hits() == old.hits()
    &&& new.hit_total() == old.hit_total()
}

/// `new` is `old` after a tap on word `idx` of the Hebrew view: the word closes when it
/// was open, else it opens on its default section.
pub open spec fn word_tapped(old: BibleView, new: BibleView, idx: usize) -> bool {
    let p = old.panels_view();
    if p.hebrew_word_idx == Some(idx) {
        only_panels(old, new, Panels { hebrew_word_idx: None, hebrew_detail_section: None, ..p })
    } else {
        only_panels(
            old,
            new,
            Panels {
                hebrew_word_idx: Some(idx),
                hebrew_detail_section: match hebrew_word_at(old.shown(), p.hebrew_verse, idx) {
                    Some(w) => default_section_spec(w),
                    None => None,
                },
                ..p
            },
        )
    }
}

/// `new` is `old` with section `section` of the word panel opened, or closed when it was
/// the open one.
pub open spec fn section_toggled(old: BibleView, new: BibleView, section: HebrewDetailSection) -> bool {
    only_panels(
        old,
        new,
        Panels {
            hebrew_detail_section: if old.panels_view().hebrew_detail_section == Some(section) {
                None
            } else {
                Some(section)
            },
            ..old.panels_view()
        },
    )
}

impl BibleView {
    /// Show the Hebrew words of verse `verse`, with no word open; the pickers close.
    pub fn open_hebrew_view(&mut self, verse: u32)
        ensures
            only_panels(
                *old(self),
                *final(self),
                Panels {
                    hebrew_verse: Some(verse),
                    hebrew_word_idx: None,
                    hebrew_detail_section: None,
                    chapter_picker_open: false,
                    book_picker_open: false,
                    ..old(self).panels_view()
                },
            ),
    {
        proof {
            use_type_invariant(&*self);
        }
        self.panels = Panels {
            hebrew_verse: Some(verse),
            hebrew_word_idx: None,
            hebrew_detail_section: None,
            chapter_picker_open: false,
            book_picker_open: false,
            ..self.panels
        };
    }

    /// A tap on word `idx` of the Hebrew view: closes that word when it is open, else
    /// opens it on its default section.
    pub fn select_hebrew_word(&mut self, idx: usize)
        ensures
            word_tapped(*old(self), *final(self), idx),
    {
        proof {
            use_type_invariant(&*self);
        }
        if self.panels.hebrew_word_idx == Some(idx) {
            self.panels = Panels { hebrew_word_idx: None, hebrew_detail_section: None, ..self.panels };
            return;
        }
        let ghost ch = self.shown();
        let mut section: Option<HebrewDetailSection> = None;
        match self.panels.hebrew_verse {
            Some(n) => {
                let verses = &self.place.chapter.verses;
                let mut k: usize = 0;
                while k < verses.len() && verses[k].number != n
                    invariant
                        k <= verses@.len(),
                        ch.5 == verses.deep_view(),
                        selection::first_verse_numbered(ch.5, n, 0)
                            == selection::first_verse_numbered(ch.5, n, k as int),
                    decreases verses@.len() - k,
                {
                    assert(ch.5[k as int].0 == verses@[k as int].number);
                    k = k + 1;
                }
                if k < verses.len() {
                    assert(ch.5[k as int].0 == verses@[k as int].number);
                    assert(ch.5[k as int].2 == verses@[k as int].hebrew.deep_view());
                    match &verses[k].hebrew {
                        Some(words) => {
                            if idx < words.len() {
                                assert(words.deep_view()[idx as int] == words@[idx as int]@);
                                section = default_hebrew_detail_section(&words[idx]);
                            }
                        },
                        None => {},
                    }
                }
            },
            None => {},
        }
        self.panels = Panels {
            hebrew_word_idx: Some(idx),
            hebrew_detail_section: section,
            ..self.panels
        };
    }

    /// Open section `section` of the word panel, or close it when it is the open one.
    pub fn toggle_hebrew_detail_section(&mut self, section: HebrewDetailSection)
        ensures
            section_toggled(*old(self), *final(self), section),
    {
        proof {
            use_type_invariant(&*self);
        }
        let next = if self.panels.hebrew_detail_section == Some(section) {
            None
        } else {
            Some(section)
        };
        self.panels = Panels { hebrew_detail_section: next, ..self.panels };
    }

    /// Use theme preference `pref` (the window then saves the settings and applies the
    /// theme).
    pub fn set_theme_pref(&mut self, pref: ThemePreference)
        ensures
            settings_changed(*old(self), *final(self)),
            final(self).selection() == old(self).selection(),
            final(self).settings_view().theme == pref,
            final(self).settings_view().font_size == old(self).settings_view().font_size,
            final(self).settings_view().view_mode@ == translation::sanitize_spec(
                old(self).settings_view().view_mode@,
            ),
            final(self).settings_view().sidebar_abbrev == old(self).settings_view().sidebar_abbrev,
    {
        proof {
            use_type_invariant(&*self);
        }
        let mut st = AppSettings::default();
        std::mem::swap(&mut st, &mut self.settings);
        st.theme = pref;
        self.settings = st.clamp();
    }

    /// Use font size `size`, kept within `FONT_MIN..=FONT_MAX` (the window then saves the
    /// settings).
    pub fn set_font_size(&mut self, size: u32)
        ensures
            settings_changed(*old(self), *final(self)),
            final(self).selection() == old(self).selection(),
            final(self).settings_view().theme == old(self).settings_view().theme,
            final(self).settings_view().font_size == settings::clamp_font(size),
            final(self).settings_view().view_mode@ == translation::sanitize_spec(
                old(self).settings_view().view_mode@,
            ),
            final(self).settings_view().sidebar_abbrev == old(self).settings_view().sidebar_abbrev,
    {
        proof {
            use_type_invariant(&*self);
        }
        let mut st = AppSettings::default();
        std::mem::swap(&mut st, &mut self.settings);
        st.font_size = size;
        self.settings = st.clamp();
    }

    /// Make the font `delta` steps larger (smaller when negative), within
    /// `FONT_MIN..=FONT_MAX`.
    pub fn bump_font(&mut self, delta: i32)
        ensures
            settings_changed(*old(self), *final(self)),
            final(self).selection() == old(self).selection(),
            final(self).settings_view().theme == old(self).settings_view().theme,
            final(self).settings_view().font_size == ({
                let want = old(self).settings_view().font_size + delta;
                if want < settings::FONT_MIN {
                    settings::FONT_MIN
                } else if want > settings::FONT_MAX {
                    settings::FONT_MAX
                } else {
                    want as u32
                }
            }),
            final(self).settings_view().view_mode@ == translation::sanitize_spec(
                old(self).settings_view().view_mode@,
            ),
            final(self).settings_view().sidebar_abbrev == old(self).settings_view().sidebar_abbrev,
    {
        proof {
            use_type_invariant(&*self);
        }
        let want: i64 = self.settings.font_size as i64 + delta as i64;
        let next: u32 = if want < settings::FONT_MIN as i64 {
            settings::FONT_MIN
        } else if want > settings::FONT_MAX as i64 {
            settings::FONT_MAX
        } else {
            want as u32
        };
        self.set_font_size(next);
    }

    /// Show the lanes of `mode` (sanitized); selected units of lanes no longer on screen are
    /// dropped (the window then saves the settings).
    pub fn set_view_mode(&mut self, mode: ViewMode)
        ensures
            settings_changed(*old(self), *final(self)),
            final(self).settings_view().theme == old(self).settings_view().theme,
            final(self).settings_view().font_size == old(self).settings_view().font_size,
            final(self).settings_view().view_mode@ == translation::sanitize_spec(mode@),
            final(self).settings_view().sidebar_abbrev == old(self).settings_view().sidebar_abbrev,
            final(self).selection().to_set() == old(self).selection().to_set().filter(
                |u: VerseUnit| translation::sanitize_spec(mode@).1.contains(u.translation),
            ),
    {
        proof {
            use_type_invariant(&*self);
        }
        let mut st = AppSettings::default();
        std::mem::swap(&mut st, &mut self.settings);
        st.view_mode = mode.sanitized();
        proof {
            translation::law_sanitized_idempotent(mode);
        }
        self.settings = st.clamp();
        self.prune_hidden_selection();
    }
}

/// Two taps on the same Hebrew word undo each other as far as that word goes: a word that
/// was not open ends closed (with no section open), the open word ends open.
pub proof fn law_word_tap_twice(r0: BibleView, r1: BibleView, r2: BibleView, idx: usize)
    requires
        word_tapped(r0, r1, idx),
        word_tapped(r1, r2, idx),
    ensures
        r0.panels_view().hebrew_word_idx != Some(idx) ==> r2.panels_view().hebrew_word_idx is None
            && r2.panels_view().hebrew_detail_section is None,
        r0.panels_view().hebrew_word_idx == Some(idx) ==> r2.panels_view().hebrew_word_idx == Some(
            idx,
        ),
{
}

/// Toggling the same section of the word panel twice gives back the panels as they were.
pub proof fn law_section_toggle_twice_restores(
    r0: BibleView,
    r1: BibleView,
    r2: BibleView,
    section: HebrewDetailSection,
)
    requires
        section_toggled(r0, r1, section),
        section_toggled(r1, r2, section),
        r0.panels_view().hebrew_detail_section is None || r0.panels_view().hebrew_detail_section
            == Some(section),
    ensures
        only_panels(r0, r2, r0.panels_view()),
{
}

/// Turning the book picker's pages by `delta` and then by `-delta` shows the page that
/// was shown.
pub proof fn law_page_turn_back(page: int, delta: int, pages: int)
    requires
        0 <= page < pages,
    ensures
        (((page + delta) % pages) + (-delta)) % pages == page,
{
    vstd::arithmetic::div_mod::lemma_fundamental_div_mod(page + delta, pages);
    let q = (page + delta) / pages;
    let a = (page + delta) % pages;
    assert(a + (-delta) == pages * (-q) + page) by (nonlinear_arith)
        requires
            page + delta == pages * q + a,
    ;
    vstd::arithmetic::div_mod::lemma_mod_multiples_vanish(-q, page, pages);
    vstd::arithmetic::div_mod::lemma_small_mod(page as nat, pages as nat);
}

/// `舊約` or `新約`.
pub open spec fn testament_label(t: Testament) -> Seq<char> {
    match t {
        Testament::Old => "舊約"@,
        Testament::New => "新約"@,
    }
}

/// The status line of the search panel.
pub open spec fn search_status_spec(query_blank: bool, shown: nat, total: nat) -> Seq<char> {
    if query_blank {
        "輸入關鍵字（預設搜尋目前譯本）"@
    } else if total == 0 {
        "沒有符合的經文"@
    } else if shown < total {
        "顯示 "@ + text::decimal(shown) + "／共 "@ + text::decimal(total) + " 筆"@
    } else {
        text::decimal(total) + " 筆"@
    }
}

impl BibleView {
    /// The book chip of the header: testament and short name, e.g. `新約 · 約`.
    pub fn book_chip_label(&self) -> (r: String)
        ensures
            ({
                let m = self.bible_view().0[self.book()].0.meta;
                r@ == testament_label(m.testament) + " · "@ + m.name_zh_short@
            }),
    {
        let entry = self.current_entry();
        let mut out = String::from_str(entry.meta.testament.label_zh());
        out.append(" · ");
        out.append(entry.meta.name_zh_short);
        out
    }

    /// The chapter counter of the navigation row, e.g. `3/21`.
    pub fn chapter_position_label(&self) -> (r: String)
        ensures
            r@ == text::decimal(self.chapter_number() as nat) + "/"@ + text::decimal(
                self.bible_view().0[self.book()].0.chapter_count as nat,
            ),
    {
        let entry = self.current_entry();
        let mut out = String::new();
        text::push_decimal(&mut out, self.place.chapter.chapter as u64);
        out.append("/");
        text::push_decimal(&mut out, entry.chapter_count as u64);
        out
    }

    /// The title of the Hebrew view, e.g. `創世記 1:1 · 希伯來文` (verse 1 when none is set).
    pub fn hebrew_view_title(&self) -> (r: String)
        ensures
            ({
                let m = self.bible_view().0[self.book()].0.meta;
                let v: u32 = match self.panels_view().hebrew_verse {
                    Some(n) => n,
                    None => 1,
                };
                r@ == m.name_zh@ + " "@ + text::decimal(self.chapter_number() as nat) + ":"@
                    + text::decimal(v as nat) + " · 希伯來文"@
            }),
    {
        let entry = self.current_entry();
        let v: u32 = match self.panels.hebrew_verse {
            Some(n) => n,
            None => 1,
        };
        let mut out = String::from_str(entry.meta.name_zh);
        out.append(" ");
        text::push_decimal(&mut out, self.place.chapter.chapter as u64);
        out.append(":");
        text::push_decimal(&mut out, v as u64);
        out.append(" · 希伯來文");
        out
    }

    /// The status line of the search panel, given whether the query is blank.
    pub fn search_status(&self, query_blank: bool) -> (r: String)
        ensures
            r@ == search_status_spec(query_blank, self.hits().len(), self.hit_total() as nat),
    {
        let shown = self.search_hits.len();
        let total = self.search_total;
        if query_blank {
            String::from_str("輸入關鍵字（預設搜尋目前譯本）")
        } else if total == 0 {
            String::from_str("沒有符合的經文")
        } else if shown < total {
            let mut out = String::from_str("顯示 ");
            text::push_decimal(&mut out, shown as u64);
            out.append("／共 ");
            text::push_decimal(&mut out, total as u64);
            out.append(" 筆");
            out
        } else {
            let mut out = String::new();
            text::push_decimal(&mut out, total as u64);
            out.append(" 筆");
            out
        }
    }

    /// The position of the first verse numbered `n` in the chapter on screen.
    fn verse_position(&self, n: u32) -> (r: Option<usize>)
        ensures
            match r {
                Some(k) => selection::first_verse_numbered(self.shown().5, n, 0) == Some(k as int),
                None => selection::first_verse_numbered(self.shown().5, n, 0) is None,
            },
    {
        let verses = &self.place.chapter.verses;
        let ghost vs = self.shown().5;
        let mut k: usize = 0;
        while k < verses.len()
            invariant
                k <= verses@.len(),
                vs == verses.deep_view(),
                vs == self.shown().5,
                selection::first_verse_numbered(vs, n, 0) == selection::first_verse_numbered(
                    vs,
                    n,
                    k as int,
                ),
            decreases verses@.len() - k,
        {
            assert(vs[k as int].0 == verses@[k as int].number);
            if verses[k].number == n {
                return Some(k);
            }
            k = k + 1;
        }
        None
    }

    /// The row to scroll to, once: the position of the verse waiting to be scrolled to
    /// (which is then no longer waiting), if the chapter has it.
    pub fn take_scroll_target(&mut self) -> (r: Option<usize>)
        ensures
            only_panels(
                *old(self),
                *final(self),
                Panels { pending_scroll_verse: None, ..old(self).panels_view() },
            ),
            r == (match old(self).panels_view().pending_scroll_verse {
                Some(n) => match selection::first_verse_numbered(old(self).shown().5, n, 0) {
                    Some(k) => Some(k as usize),
                    None => None,
                },
                None => None,
            }),
    {
        proof {
            use_type_invariant(&*self);
        }
        let pending = self.panels.pending_scroll_verse;
        let target = match pending {
            None => None,
            Some(n) => self.verse_position(n),
        };
        self.panels = Panels { pending_scroll_verse: None, ..self.panels };
        target
    }
}

/// A trimmed field when it is not blank.
pub open spec fn filled(s: Option<Seq<char>>) -> Option<Seq<char>> {
    match s {
        Some(x) => if text::trim(x).len() > 0 {
            Some(text::trim(x))
        } else {
            None
        },
        None => None,
    }
}

/// The rows of the word panel: the Strong's number, the morphology code and the part of
/// speech that code gives, each when the word has it.
pub open spec fn detail_rows_spec(w: hebrew::WordView) -> Seq<(HebrewDetailSection, Seq<char>)> {
    let strongs = match filled(w.1) {
        Some(x) => seq![(HebrewDetailSection::Strongs, x)],
        None => Seq::empty(),
    };
    let morph = match filled(w.2) {
        Some(x) => seq![(HebrewDetailSection::Morph, x)],
        None => Seq::empty(),
    };
    let pos = match filled(w.2) {
        Some(x) => match hebrew::morph_pos_spec(x) {
            Some(label) => seq![(HebrewDetailSection::Pos, label@)],
            None => Seq::empty(),
        },
        None => Seq::empty(),
    };
    strongs + morph + pos
}

fn filled_exec(s: &Option<String>) -> (r: Option<String>)
    ensures
        match r {
            Some(t) => filled(s.deep_view()) == Some(t@),
            None => filled(s.deep_view()) is None,
        },
{
    match s {
        Some(x) => {
            let t = trim_str(x.as_str());
            if t.unicode_len() > 0 {
                Some(String::from_str(t))
            } else {
                None
            }
        },
        None => None,
    }
}

/// The rows of the word panel for `word` (see `detail_rows_spec`).
pub fn word_detail_rows(word: &HebrewWord) -> (r: Vec<(HebrewDetailSection, String)>)
    ensures
        r@.map_values(|e: (HebrewDetailSection, String)| (e.0, e.1@)) == detail_rows_spec(word@),
{
    let mut rows: Vec<(HebrewDetailSection, String)> = Vec::new();
    let strongs = filled_exec(&word.strongs);
    let morph = filled_exec(&word.morph);
    assert(word.strongs.deep_view() == word@.1);
    assert(word.morph.deep_view() == word@.2);
    match strongs {
        Some(t) => rows.push((HebrewDetailSection::Strongs, t)),
        None => {},
    }
    match &morph {
        Some(t) => {
            let label = hebrew::morph_pos_label(t.as_str());
            rows.push((HebrewDetailSection::Morph, String::from_str(t.as_str())));
            match label {
                Some(l) => rows.push((HebrewDetailSection::Pos, String::from_str(l))),
                None => {},
            }
        },
        None => {},
    }
    assert(rows@.map_values(|e: (HebrewDetailSection, String)| (e.0, e.1@)) =~= detail_rows_spec(
        word@,
    ));
    rows
}

/// The Hebrew words the Hebrew view shows: those of its verse (verse 1 when none is set)
/// in the chapter on screen; none when that verse has no words.
pub open spec fn panel_words_spec(ch: chapter::ChapterView, verse: Option<u32>) -> Seq<
    hebrew::WordView,
> {
    let n: u32 = match verse {
        Some(v) => v,
        None => 1,
    };
    match selection::first_verse_numbered(ch.5, n, 0) {
        Some(k) => match ch.5[k].2 {
            Some(words) => words,
            None => Seq::empty(),
        },
        None => Seq::empty(),
    }
}

impl BibleView {
    /// The Hebrew words the Hebrew view shows.
    pub fn hebrew_panel_words(&self) -> (r: Vec<HebrewWord>)
        ensures
            r.deep_view() == panel_words_spec(self.shown(), self.panels_view().hebrew_verse),
    {
        let n: u32 = match self.panels.hebrew_verse {
            Some(v) => v,
            None => 1,
        };
        proof {
            lemma_first_verse_numbered_in_range(self.shown().5, n, 0);
        }
        match self.verse_position(n) {
            Some(k) => {
                let v = &self.place.chapter.verses[k];
                assert(self.shown().5[k as int] == v.deep_view());
                match &v.hebrew {
                    Some(words) => {
                        let r = crate::hebrew::duplicate_words(words);
                        assert(r.deep_view() =~= words.deep_view());
                        r
                    },
                    None => {
                        let r: Vec<HebrewWord> = Vec::new();
                        assert(r.deep_view() =~= Seq::<hebrew::WordView>::empty());
                        r
                    },
                }
            },
            None => {
                let r: Vec<HebrewWord> = Vec::new();
                assert(r.deep_view() =~= Seq::<hebrew::WordView>::empty());
                r
            },
        }
    }

    /// The open word of the Hebrew view, when it is one of the words shown.
    pub fn selected_hebrew_word(&self) -> (r: Option<usize>)
        ensures
            r == (match self.panels_view().hebrew_word_idx {
                Some(i) => if i < panel_words_spec(self.shown(), self.panels_view().hebrew_verse).len() {
                    Some(i)
                } else {
                    None
                },
                None => None,
            }),
    {
        let words = self.hebrew_panel_words();
        match self.panels.hebrew_word_idx {
            Some(i) => if i < words.len() {
                Some(i)
            } else {
                None
            },
            None => None,
        }
    }
}

/// The lane that single mode shows when it is chosen: the single lane, else the first
/// lane compared, else CUV.
pub open spec fn single_lane_spec(m: translation::ModeView) -> TranslationId {
    if m.1.len() > 0 {
        m.1[0]
    } else {
        TranslationId::Cuv1919
    }
}

impl BibleView {
    /// The lane that single mode shows when it is chosen.
    pub fn current_single_lane(&self) -> (r: TranslationId)
        ensures
            r == single_lane_spec(self.settings_view().view_mode@),
    {
        match &self.settings.view_mode {
            ViewMode::Single(id) => *id,
            ViewMode::Compare(ids) => if ids.len() > 0 {
                ids[0]
            } else {
                TranslationId::Cuv1919
            },
        }
    }

    /// The `單語` chip: show the current single lane alone.
    pub fn choose_single_mode(&mut self)
        ensures
            settings_changed(*old(self), *final(self)),
            final(self).settings_view().view_mode@ == (
                true,
                seq![single_lane_spec(old(self).settings_view().view_mode@)],
            ),
            final(self).settings_view().theme == old(self).settings_view().theme,
            final(self).settings_view().font_size == old(self).settings_view().font_size,
            final(self).selection().to_set() == old(self).selection().to_set().filter(
                |u: VerseUnit| u.translation == single_lane_spec(old(self).settings_view().view_mode@),
            ),
    {
        let lane = self.current_single_lane();
        self.set_view_mode(ViewMode::single(lane));
        proof {
            let t = single_lane_spec(old(self).settings_view().view_mode@);
            assert forall|u: VerseUnit| seq![t].contains(u.translation) <==> u.translation == t by {
                if seq![t].contains(u.translation) {
                    let k = choose|k: int| 0 <= k < 1 && seq![t][k] == u.translation;
                }
                if u.translation == t {
                    assert(seq![t][0] == t);
                }
            }
            assert(final(self).selection().to_set() =~= old(self).selection().to_set().filter(
                |u: VerseUnit| u.translation == t,
            ));
        }
    }

    /// The `對照` chip: compare every bundled translation.
    pub fn choose_compare_mode(&mut self)
        ensures
            settings_changed(*old(self), *final(self)),
            final(self).settings_view().view_mode@ == translation::default_mode(),
            final(self).settings_view().theme == old(self).settings_view().theme,
            final(self).settings_view().font_size == old(self).settings_view().font_size,
            final(self).selection().to_set() == old(self).selection().to_set(),
    {
        self.set_view_mode(ViewMode::default());
        proof {
            let all = translation::all_spec();
            assert forall|u: VerseUnit| all.contains(u.translation) by {
                match u.translation {
                    TranslationId::Cuv1919 => assert(all[0] == TranslationId::Cuv1919),
                    TranslationId::Kjv => assert(all[1] == TranslationId::Kjv),
                }
            }
            assert(final(self).selection().to_set() =~= old(self).selection().to_set());
        }
    }
}

/// The Hebrew view's line of the original: the texts of its words joined by spaces, or a
/// note that the verse has no MorphHB words.
pub open spec fn original_line_spec(words: Seq<hebrew::WordView>) -> Seq<char> {
    let line = selection::join(words.map_values(|w: hebrew::WordView| w.0), " "@);
    if line.len() == 0 {
        "（無 MorphHB 資料）"@
    } else {
        line
    }
}

impl BibleView {
    /// The Hebrew view's line of the original (see `original_line_spec`).
    pub fn hebrew_original_line(&self) -> (r: String)
        ensures
            r@ == original_line_spec(panel_words_spec(self.shown(), self.panels_view().hebrew_verse)),
    {
        let words = self.hebrew_panel_words();
        let ghost wv = words.deep_view();
        let mut texts: Vec<String> = Vec::new();
        let mut i: usize = 0;
        while i < words.len()
            invariant
                i <= words@.len(),
                wv == words.deep_view(),
                texts.deep_view() == wv.map_values(|w: hebrew::WordView| w.0).take(i as int),
            decreases words@.len() - i,
        {
            assert(wv[i as int] == words@[i as int]@);
            let ghost before = texts.deep_view();
            let t = String::from_str(words[i].text.as_str());
            texts.push(t);
            assert(texts.deep_view() =~= before.push(t@));
            i = i + 1;
            assert(texts.deep_view() =~= wv.map_values(|w: hebrew::WordView| w.0).take(i as int));
        }
        assert(wv.map_values(|w: hebrew::WordView| w.0).take(wv.len() as int) =~= wv.map_values(
            |w: hebrew::WordView| w.0,
        ));
        let line = selection::join_strings(&texts, " ");
        if line.unicode_len() == 0 {
            String::from_str("（無 MorphHB 資料）")
        } else {
            line
        }
    }
}

} // verus!
