//! Matching one verse against a search query, and the snippet shown for a hit.

use vstd::prelude::*;

use crate::chapter;
use crate::chapter::{BookEntry, HitView, SearchHit, TextsView, Verse, VerseView};
use crate::text;
use crate::text::{chars_of, contains_slice, find_slice, to_lowercase};
use crate::translation;
use crate::translation::TranslationId;

verus! {

/// `…`, which marks text cut from a snippet.
pub open spec fn ellipsis() -> Seq<char> {
    seq!['\u{2026}']
}

/// The first `max` characters, with `…` appended when something was cut.
pub open spec fn truncate_spec(chars: Seq<char>, max: nat) -> Seq<char> {
    if chars.len() <= max {
        chars
    } else {
        chars.take(max as int) + ellipsis()
    }
}

/// Characters of context kept on each side of a match: 12 for CJK lanes, 24 otherwise.
pub open spec fn context_of(lane: TranslationId) -> int {
    if translation::is_cjk_spec(lane) {
        12
    } else {
        24
    }
}

/// Where the query is found in a lane's text: the exact query in a CJK lane; the
/// lowercase query in the lowercase text otherwise. Counted in characters.
pub open spec fn match_pos(text: Seq<char>, q: Seq<char>, ql: Seq<char>, lane: TranslationId) -> Option<
    int,
> {
    if translation::is_cjk_spec(lane) {
        text::find(text, q)
    } else {
        text::find(text::lowercase(text), ql)
    }
}

/// The end of the snippet window around a match at `m`.
pub open spec fn window_end(text: Seq<char>, q: Seq<char>, lane: TranslationId, m: int) -> int {
    let qlen = if q.len() == 0 {
        1
    } else {
        q.len() as int
    };
    if m + qlen + context_of(lane) < text.len() {
        m + qlen + context_of(lane)
    } else {
        text.len() as int
    }
}

/// The start of the snippet window around a match at `m`, never past its end.
pub open spec fn window_start(text: Seq<char>, q: Seq<char>, lane: TranslationId, m: int) -> int {
    let s = if m - context_of(lane) > 0 {
        m - context_of(lane)
    } else {
        0
    };
    if s < window_end(text, q, lane, m) {
        s
    } else {
        window_end(text, q, lane, m)
    }
}

/// The snippet of a hit: the match with up to `context_of(lane)` characters on each side,
/// `…` where text was cut; the first 40 characters when the match cannot be placed.
pub open spec fn snippet_spec(text: Seq<char>, q: Seq<char>, ql: Seq<char>, lane: TranslationId) -> Seq<
    char,
> {
    match match_pos(text, q, ql, lane) {
        None => truncate_spec(text, 40),
        Some(m) => {
            let start = window_start(text, q, lane, m);
            let end = window_end(text, q, lane, m);
            (if start > 0 {
                ellipsis()
            } else {
                Seq::empty()
            }) + text.subrange(start, end) + (if end < text.len() {
                ellipsis()
            } else {
                Seq::empty()
            })
        },
    }
}

/// Whether a lane's text matches: exact substring in a CJK lane; otherwise the lowercase
/// query must occur in the lane's search fold, or in the lowercase text when the verse has
/// no fold for that lane.
pub open spec fn text_matches_spec(
    v: VerseView,
    text: Seq<char>,
    q: Seq<char>,
    ql: Seq<char>,
    lane: TranslationId,
) -> bool {
    if translation::is_cjk_spec(lane) {
        text::contains(text, q)
    } else {
        match chapter::lane_text(v.3, lane) {
            Some(f) => text::contains(f, ql),
            None => text::contains(text::lowercase(text), ql),
        }
    }
}

/// The first lane of `lanes`, at or after `i`, that the verse has and that matches.
pub open spec fn first_hit_lane(
    v: VerseView,
    lanes: Seq<TranslationId>,
    q: Seq<char>,
    ql: Seq<char>,
    i: int,
) -> Option<int>
    decreases lanes.len() - i,
{
    if i < 0 || i >= lanes.len() {
        None
    } else {
        match chapter::lane_text(v.1, lanes[i]) {
            Some(t) => if text_matches_spec(v, t, q, ql, lanes[i]) {
                Some(i)
            } else {
                first_hit_lane(v, lanes, q, ql, i + 1)
            },
            None => first_hit_lane(v, lanes, q, ql, i + 1),
        }
    }
}

/// The hit of one verse (none or one): the first matching lane in `lanes` order.
pub open spec fn verse_hits(
    entry: BookEntry,
    chapter: u32,
    v: VerseView,
    lanes: Seq<TranslationId>,
    q: Seq<char>,
    ql: Seq<char>,
) -> Seq<HitView> {
    match first_hit_lane(v, lanes, q, ql, 0) {
        Some(k) => {
            let lane = lanes[k];
            let t = chapter::lane_text(v.1, lane).unwrap();
            seq![
                (
                    entry.meta.osis@,
                    entry.meta.name_zh@,
                    entry.index,
                    chapter,
                    v.0,
                    lane,
                    snippet_spec(t, q, ql, lane),
                ),
            ]
        },
        None => Seq::empty(),
    }
}

fn ellipsis_str() -> (r: &'static str)
    ensures
        r@ == ellipsis(),
{
    proof {
        reveal_strlit("\u{2026}");
    }
    "\u{2026}"
}

fn truncate_chars(text: &str, tc: &Vec<char>, max: usize) -> (r: String)
    requires
        tc@ == text@,
    ensures
        r@ == truncate_spec(text@, max as nat),
{
    if tc.len() <= max {
        return String::from_str(text);
    }
    let mut out = String::from_str(text.substring_char(0, max));
    out.append(ellipsis_str());
    assert(text@.subrange(0, max as int) =~= text@.take(max as int));
    out
}

/// The snippet of a hit in `text` (`tc` holds its characters; `qc` and `qlc` those of the
/// trimmed query and its lowercase).
pub fn make_snippet(
    text: &str,
    tc: &Vec<char>,
    q: &str,
    qc: &Vec<char>,
    qlc: &Vec<char>,
    lane: TranslationId,
) -> (r: String)
    requires
        tc@ == text@,
        qc@ == q@,
    ensures
        r@ == snippet_spec(text@, q@, qlc@, lane),
{
    let cjk = lane.is_cjk();
    let context: usize = if cjk {
        12
    } else {
        24
    };
    let found = if cjk {
        find_slice(tc.as_slice(), qc.as_slice())
    } else {
        let lower = to_lowercase(text);
        let lc = chars_of(lower.as_str());
        find_slice(lc.as_slice(), qlc.as_slice())
    };
    let m = match found {
        None => {
            return truncate_chars(text, tc, 40);
        },
        Some(m) => m,
    };
    let n = tc.len();
    let qlen: usize = if qc.len() == 0 {
        1
    } else {
        qc.len()
    };
    let end: usize = if m < n && qlen < n - m && context < n - m - qlen {
        m + qlen + context
    } else {
        n
    };
    let s: usize = if m > context {
        m - context
    } else {
        0
    };
    let start: usize = if s < end {
        s
    } else {
        end
    };
    assert(end as int == window_end(text@, q@, lane, m as int));
    assert(start as int == window_start(text@, q@, lane, m as int));
    let mut out = String::new();
    if start > 0 {
        out.append(ellipsis_str());
    }
    out.append(text.substring_char(start, end));
    if end < n {
        out.append(ellipsis_str());
    }
    proof {
        if start > 0 {
            if end < n {
                assert(out@ =~= ellipsis() + text@.subrange(start as int, end as int) + ellipsis());
            } else {
                assert(out@ =~= ellipsis() + text@.subrange(start as int, end as int) + Seq::<
                    char,
                >::empty());
            }
        } else {
            if end < n {
                assert(out@ =~= Seq::<char>::empty() + text@.subrange(start as int, end as int)
                    + ellipsis());
            } else {
                assert(out@ =~= Seq::<char>::empty() + text@.subrange(start as int, end as int)
                    + Seq::<char>::empty());
            }
        }
    }
    out
}

/// Whether `text`, the lane `lane` of `verse`, matches the query.
pub fn text_matches(
    verse: &Verse,
    text: &str,
    tc: &Vec<char>,
    qc: &Vec<char>,
    qlc: &Vec<char>,
    lane: TranslationId,
) -> (r: bool)
    requires
        tc@ == text@,
    ensures
        r == text_matches_spec(verse.deep_view(), text@, qc@, qlc@, lane),
{
    if lane.is_cjk() {
        contains_slice(tc.as_slice(), qc.as_slice())
    } else {
        match verse.folded_get(lane) {
            Some(f) => {
                let fc = chars_of(f);
                contains_slice(fc.as_slice(), qlc.as_slice())
            },
            None => {
                let lower = to_lowercase(text);
                let lc = chars_of(lower.as_str());
                contains_slice(lc.as_slice(), qlc.as_slice())
            },
        }
    }
}

/// The hit of one verse, when one of `lanes` (in order) matches.
pub fn verse_hit(
    entry: &BookEntry,
    chapter: u32,
    verse: &Verse,
    lanes: &[TranslationId],
    q: &str,
    qc: &Vec<char>,
    qlc: &Vec<char>,
) -> (r: Option<SearchHit>)
    requires
        qc@ == q@,
    ensures
        match r {
            Some(h) => verse_hits(*entry, chapter, verse.deep_view(), lanes@, q@, qlc@) == seq![
                h.deep_view(),
            ],
            None => verse_hits(*entry, chapter, verse.deep_view(), lanes@, q@, qlc@)
                == Seq::<HitView>::empty(),
        },
{
    let ghost v = verse.deep_view();
    let mut k: usize = 0;
    while k < lanes.len()
        invariant
            k <= lanes@.len(),
            v == verse.deep_view(),
            qc@ == q@,
            first_hit_lane(v, lanes@, q@, qlc@, 0) == first_hit_lane(v, lanes@, q@, qlc@, k as int),
        decreases lanes@.len() - k,
    {
        let id = lanes[k];
        match verse.get(id) {
            None => {},
            Some(text) => {
                let tc = chars_of(text);
                if text_matches(verse, text, &tc, qc, qlc, id) {
                    assert(first_hit_lane(v, lanes@, q@, qlc@, k as int) == Some(k as int));
                    let snippet = make_snippet(text, &tc, q, qc, qlc, id);
                    let hit = SearchHit {
                        book: String::from_str(entry.meta.osis),
                        book_name_zh: String::from_str(entry.meta.name_zh),
                        book_index: entry.index,
                        chapter,
                        verse: verse.number,
                        translation: id,
                        snippet,
                    };
                    assert(verse_hits(*entry, chapter, v, lanes@, q@, qlc@) =~= seq![
                        hit.deep_view(),
                    ]);
                    return Some(hit);
                }
            },
        }
        k = k + 1;
    }
    None
}

} // verus!
