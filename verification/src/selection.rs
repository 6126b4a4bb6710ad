//! Select mode: which verses of which translation are selected, the tap rule, and the
//! reference, summary and clipboard text built from a selection.

use vstd::prelude::*;

use crate::chapter;
use crate::chapter::Chapter;
use crate::text;
use crate::text::push_decimal;
use crate::translation;
use crate::translation::TranslationId;

verus! {

/// One selected unit: a verse number in a specific translation lane.
#[derive(Debug, Clone, Copy, PartialEq, Eq, PartialOrd, Ord, Hash, Structural)]
pub struct VerseUnit {
    pub number: u32,
    pub translation: TranslationId,
}

impl VerseUnit {
    pub fn new(number: u32, translation: TranslationId) -> (r: Self)
        ensures
            r == (VerseUnit { number, translation }),
    {
        Self { number, translation }
    }
}

/// The position of a unit in selection order: by verse number, then CUV before KJV (the
/// order of the derived `Ord`).
pub open spec fn unit_key(u: VerseUnit) -> int {
    u.number as int * 2 + match u.translation {
        TranslationId::Cuv1919 => 0int,
        TranslationId::Kjv => 1int,
    }
}

fn unit_key_exec(u: VerseUnit) -> (r: u64)
    ensures
        r == unit_key(u),
{
    let t: u64 = match u.translation {
        TranslationId::Cuv1919 => 0,
        TranslationId::Kjv => 1,
    };
    (u.number as u64) * 2 + t
}

/// Units in strictly increasing selection order (so none occurs twice).
pub open spec fn sorted_units(s: Seq<VerseUnit>) -> bool {
    forall|i: int, j: int| 0 <= i < j < s.len() ==> unit_key(s[i]) < unit_key(s[j])
}

proof fn lemma_unit_key_injective(a: VerseUnit, b: VerseUnit)
    requires
        unit_key(a) == unit_key(b),
    ensures
        a == b,
{
}

/// A set of selected verse units, kept in selection order.
#[derive(Debug, PartialEq, Eq)]
pub struct VerseSelection {
    units: Vec<VerseUnit>,
}

impl View for VerseSelection {
    type V = Seq<VerseUnit>;

    closed spec fn view(&self) -> Seq<VerseUnit> {
        self.units@
    }
}

impl VerseSelection {
    #[verifier::type_invariant]
    closed spec fn ordered(self) -> bool {
        sorted_units(self.units@)
    }

    /// Nothing selected.
    pub fn new() -> (r: Self)
        ensures
            r@ == Seq::<VerseUnit>::empty(),
    {
        VerseSelection { units: Vec::new() }
    }

    /// The selected units in selection order.
    pub fn units(&self) -> (r: Vec<VerseUnit>)
        ensures
            r@ == self@,
            sorted_units(r@),
    {
        proof {
            use_type_invariant(self);
        }
        let mut out: Vec<VerseUnit> = Vec::new();
        let mut i: usize = 0;
        while i < self.units.len()
            invariant
                i <= self.units@.len(),
                out@ == self.units@.take(i as int),
            decreases self.units@.len() - i,
        {
            out.push(self.units[i]);
            i = i + 1;
            assert(out@ =~= self.units@.take(i as int));
        }
        assert(self.units@.take(self.units@.len() as int) =~= self.units@);
        out
    }

    pub fn len(&self) -> (r: usize)
        ensures
            r == self@.len(),
    {
        self.units.len()
    }

    pub fn is_empty(&self) -> (r: bool)
        ensures
            r == (self@.len() == 0),
    {
        self.units.len() == 0
    }

    /// The position of the first unit not before `u` in selection order.
    fn position(&self, u: VerseUnit) -> (p: usize)
        ensures
            p <= self@.len(),
            forall|i: int| 0 <= i < p ==> unit_key(#[trigger] self@[i]) < unit_key(u),
            p < self@.len() ==> unit_key(self@[p as int]) >= unit_key(u),
    {
        let k = unit_key_exec(u);
        let mut p: usize = 0;
        while p < self.units.len() && unit_key_exec(self.units[p]) < k
            invariant
                p <= self.units@.len(),
                k == unit_key(u),
                forall|i: int| 0 <= i < p ==> unit_key(#[trigger] self.units@[i]) < unit_key(u),
            decreases self.units@.len() - p,
        {
            p = p + 1;
        }
        p
    }

    pub fn contains(&self, u: VerseUnit) -> (r: bool)
        ensures
            r == self@.contains(u),
    {
        proof {
            use_type_invariant(self);
        }
        let p = self.position(u);
        if p < self.units.len() && self.units[p] == u {
            assert(self@[p as int] == u);
            return true;
        }
        proof {
            if self@.contains(u) {
                let i = choose|i: int| 0 <= i < self@.len() && self@[i] == u;
                if i < p {
                } else if i > p {
                    assert(unit_key(self@[p as int]) < unit_key(self@[i]));
                } else {
                }
            }
        }
        false
    }

    /// Add `u` (no change when it is already selected).
    pub fn insert(&mut self, u: VerseUnit)
        ensures
            final(self)@.to_set() == old(self)@.to_set().insert(u),
    {
        proof {
            use_type_invariant(&*self);
        }
        let p = self.position(u);
        if p < self.units.len() && self.units[p] == u {
            proof {
                assert(old(self)@.to_set().insert(u) =~= old(self)@.to_set());
            }
            return;
        }
        let ghost before = self.units@;
        proof {
            if p < before.len() {
                assert(unit_key(before[p as int]) != unit_key(u)) by {
                    if unit_key(before[p as int]) == unit_key(u) {
                        lemma_unit_key_injective(before[p as int], u);
                    }
                }
            }
        }
        let mut units: Vec<VerseUnit> = Vec::new();
        std::mem::swap(&mut units, &mut self.units);
        units.insert(p, u);
        proof {
            assert(units@ =~= before.take(p as int).push(u) + before.skip(p as int));
            assert(sorted_units(units@)) by {
                assert forall|i: int, j: int| 0 <= i < j < units@.len() implies unit_key(
                    units@[i],
                ) < unit_key(units@[j]) by {
                    if j < p {
                        assert(units@[i] == before[i] && units@[j] == before[j]);
                    } else if j == p {
                        assert(units@[i] == before[i]);
                    } else if i < p {
                        assert(units@[i] == before[i] && units@[j] == before[j - 1]);
                    } else if i == p {
                        assert(units@[j] == before[j - 1]);
                        assert(unit_key(before[p as int]) <= unit_key(before[j - 1]));
                    } else {
                        assert(units@[i] == before[i - 1] && units@[j] == before[j - 1]);
                    }
                }
            }
            assert(units@.to_set() =~= before.to_set().insert(u)) by {
                assert forall|x: VerseUnit| units@.contains(x) <==> (before.contains(x) || x == u) by {
                    if units@.contains(x) {
                        let i = choose|i: int| 0 <= i < units@.len() && units@[i] == x;
                        if i < p {
                            assert(before[i] == x);
                        } else if i > p {
                            assert(before[i - 1] == x);
                        }
                    }
                    if before.contains(x) {
                        let i = choose|i: int| 0 <= i < before.len() && before[i] == x;
                        if i < p {
                            assert(units@[i] == x);
                        } else {
                            assert(units@[i + 1] == x);
                        }
                    }
                    if x == u {
                        assert(units@[p as int] == u);
                    }
                }
            }
        }
        self.units = units;
    }

    /// Remove `u` (no change when it is not selected).
    pub fn remove(&mut self, u: VerseUnit)
        ensures
            final(self)@.to_set() == old(self)@.to_set().remove(u),
    {
        proof {
            use_type_invariant(&*self);
        }
        let p = self.position(u);
        if !(p < self.units.len() && self.units[p] == u) {
            proof {
                assert(!old(self)@.contains(u)) by {
                    if old(self)@.contains(u) {
                        let i = choose|i: int| 0 <= i < old(self)@.len() && old(self)@[i] == u;
                        if i > p {
                            assert(unit_key(old(self)@[p as int]) < unit_key(old(self)@[i]));
                        }
                    }
                }
                assert(old(self)@.to_set().remove(u) =~= old(self)@.to_set());
            }
            return;
        }
        let ghost before = self.units@;
        let mut units: Vec<VerseUnit> = Vec::new();
        std::mem::swap(&mut units, &mut self.units);
        units.remove(p);
        proof {
            assert(units@ =~= before.take(p as int) + before.skip(p + 1));
            assert(sorted_units(units@)) by {
                assert forall|i: int, j: int| 0 <= i < j < units@.len() implies unit_key(
                    units@[i],
                ) < unit_key(units@[j]) by {
                    if j < p {
                        assert(units@[i] == before[i] && units@[j] == before[j]);
                    } else if i < p {
                        assert(units@[i] == before[i] && units@[j] == before[j + 1]);
                    } else {
                        assert(units@[i] == before[i + 1] && units@[j] == before[j + 1]);
                    }
                }
            }
            assert(units@.to_set() =~= before.to_set().remove(u)) by {
                assert forall|x: VerseUnit| units@.contains(x) <==> (before.contains(x) && x != u) by {
                    if units@.contains(x) {
                        let i = choose|i: int| 0 <= i < units@.len() && units@[i] == x;
                        if i < p {
                            assert(before[i] == x);
                            assert(unit_key(before[i]) < unit_key(before[p as int]));
                        } else {
                            assert(before[i + 1] == x);
                            assert(unit_key(before[p as int]) < unit_key(before[i + 1]));
                        }
                    }
                    if before.contains(x) && x != u {
                        let i = choose|i: int| 0 <= i < before.len() && before[i] == x;
                        if i < p {
                            assert(units@[i] == x);
                        } else if i > p {
                            assert(units@[i - 1] == x);
                        }
                    }
                }
            }
        }
        self.units = units;
    }

    /// Deselect everything.
    pub fn clear(&mut self)
        ensures
            final(self)@ == Seq::<VerseUnit>::empty(),
    {
        self.units = Vec::new();
    }

    /// Keep only the units of translations in `lanes`.
    pub fn retain_lanes(&mut self, lanes: &[TranslationId])
        ensures
            final(self)@.to_set() == old(self)@.to_set().filter(
                |u: VerseUnit| lanes@.contains(u.translation),
            ),
    {
        proof {
            use_type_invariant(&*self);
        }
        let ghost before = self.units@;
        let mut kept: Vec<VerseUnit> = Vec::new();
        let mut i: usize = 0;
        while i < self.units.len()
            invariant
                i <= before.len(),
                before == self.units@,
                sorted_units(before),
                sorted_units(kept@),
                forall|k: int| 0 <= k < kept@.len() ==> exists|m: int|
                    0 <= m < i && before[m] == #[trigger] kept@[k],
                forall|x: VerseUnit| #[trigger]
                    kept@.contains(x) <==> (exists|m: int| 0 <= m < i && before[m] == x)
                        && lanes@.contains(x.translation),
            decreases before.len() - i,
        {
            let u = self.units[i];
            let mut found = false;
            let mut j: usize = 0;
            while j < lanes.len()
                invariant
                    j <= lanes@.len(),
                    found <==> exists|k: int| 0 <= k < j && lanes@[k] == u.translation,
                decreases lanes@.len() - j,
            {
                if lanes[j] == u.translation {
                    found = true;
                }
                j = j + 1;
            }
            let ghost k0 = kept@;
            if found {
                kept.push(u);
                proof {
                    assert forall|a: int, b: int| 0 <= a < b < kept@.len() implies unit_key(
                        kept@[a],
                    ) < unit_key(kept@[b]) by {
                        if b == kept@.len() - 1 {
                            let m = choose|m: int| 0 <= m < i && before[m] == #[trigger] k0[a];
                            assert(unit_key(before[m]) < unit_key(before[i as int]));
                        }
                    }
                    assert forall|k: int| 0 <= k < kept@.len() implies exists|m: int|
                        0 <= m < i + 1 && before[m] == #[trigger] kept@[k] by {
                        if k == kept@.len() - 1 {
                            assert(before[i as int] == kept@[k]);
                        } else {
                            let m = choose|m: int| 0 <= m < i && before[m] == #[trigger] k0[k];
                            assert(before[m] == kept@[k]);
                        }
                    }
                    assert forall|x: VerseUnit| #[trigger]
                        kept@.contains(x) <==> (exists|m: int| 0 <= m < i + 1 && before[m] == x)
                            && lanes@.contains(x.translation) by {
                        if kept@.contains(x) && x != u {
                            let k = choose|k: int| 0 <= k < kept@.len() && kept@[k] == x;
                            assert(k0[k] == x);
                            assert(k0.contains(x));
                        }
                        if (exists|m: int| 0 <= m < i + 1 && before[m] == x) && lanes@.contains(
                            x.translation,
                        ) && x != u {
                            let m = choose|m: int| 0 <= m < i + 1 && before[m] == x;
                            if m == i {
                                assert(before[i as int] == u);
                            }
                            assert(k0.contains(x));
                            let k = choose|k: int| 0 <= k < k0.len() && k0[k] == x;
                            assert(kept@[k] == x);
                        }
                        if x == u {
                            assert(kept@[kept@.len() - 1] == u);
                            assert(lanes@.contains(u.translation)) by {
                                let k = choose|k: int| 0 <= k < lanes@.len() && lanes@[k] == u.translation;
                            }
                        }
                    }
                }
            } else {
                proof {
                    assert(!lanes@.contains(u.translation));
                    assert forall|x: VerseUnit| #[trigger]
                        kept@.contains(x) <==> (exists|m: int| 0 <= m < i + 1 && before[m] == x)
                            && lanes@.contains(x.translation) by {
                        if (exists|m: int| 0 <= m < i + 1 && before[m] == x) && lanes@.contains(
                            x.translation,
                        ) {
                            let m = choose|m: int| 0 <= m < i + 1 && before[m] == x;
                            if m == i {
                                assert(before[i as int] == u);
                            }
                        }
                    }
                }
            }
            i = i + 1;
        }
        proof {
            assert(kept@.to_set() =~= before.to_set().filter(
                |u: VerseUnit| lanes@.contains(u.translation),
            )) by {
                assert forall|x: VerseUnit| kept@.contains(x) <==> (before.contains(x)
                    && lanes@.contains(x.translation)) by {
                    if before.contains(x) {
                        let m = choose|m: int| 0 <= m < before.len() && before[m] == x;
                        assert(exists|m: int| 0 <= m < before.len() && before[m] == x);
                    }
                    if kept@.contains(x) {
                        let m = choose|m: int| 0 <= m < before.len() && before[m] == x;
                        assert(before.contains(x));
                    }
                }
            }
        }
        self.units = kept;
    }
}

// ---------------------------------------------------------------------------------------
// The tap rule
// ---------------------------------------------------------------------------------------

/// The units of `sel` in translation `t`, in order.
pub open spec fn in_lane(sel: Seq<VerseUnit>, t: TranslationId) -> Seq<VerseUnit> {
    sel.filter(|u: VerseUnit| u.translation == t)
}

/// The units that a range fill from `a` to `b` in translation `t` selects: the listed verse
/// numbers between them, inclusive.
pub open spec fn range_units(a: u32, b: u32, t: TranslationId, verse_numbers: Seq<u32>) -> Set<
    VerseUnit,
> {
    let lo = if a <= b {
        a
    } else {
        b
    };
    let hi = if a <= b {
        b
    } else {
        a
    };
    Set::new(
        |u: VerseUnit| u.translation == t && verse_numbers.contains(u.number) && lo <= u.number
            <= hi,
    )
}

/// The selection after a tap on verse `number` of translation `t`:
/// - already selected → toggled off;
/// - exactly one unit selected in that translation → the inclusive range between it and
///   the tap is added (a union: nothing is unchecked);
/// - otherwise → the tapped unit is added.
pub open spec fn tap_spec(sel: Seq<VerseUnit>, number: u32, t: TranslationId, verse_numbers: Seq<
    u32,
>) -> Set<VerseUnit> {
    let unit = VerseUnit { number, translation: t };
    if sel.contains(unit) {
        sel.to_set().remove(unit)
    } else if in_lane(sel, t).len() == 1 {
        sel.to_set().union(range_units(in_lane(sel, t)[0].number, number, t, verse_numbers))
    } else {
        sel.to_set().insert(unit)
    }
}

/// Apply a select-mode tap to `translation` at `number`.
///
/// - Already selected → toggle off.
/// - Exactly one unit selected in that translation → fill the inclusive range
///   (union; does not uncheck units outside the range or in other translations).
/// - Otherwise → toggle this unit on.
pub fn apply_verse_tap(
    selected: &mut VerseSelection,
    number: u32,
    translation: TranslationId,
    verse_numbers: &[u32],
)
    ensures
        final(selected)@.to_set() == tap_spec(old(selected)@, number, translation, verse_numbers@),
{
    let unit = VerseUnit::new(number, translation);
    if selected.contains(unit) {
        selected.remove(unit);
        return;
    }
    let units = selected.units();
    let ghost sel = units@;
    let mut count: usize = 0;
    let mut first: u32 = 0;
    let mut i: usize = 0;
    while i < units.len()
        invariant
            i <= sel.len(),
            sel == units@,
            count == in_lane(sel.take(i as int), translation).len(),
            count >= 1 ==> first == in_lane(sel.take(i as int), translation)[0].number,
        decreases sel.len() - i,
    {
        proof {
            assert(sel.take(i + 1).drop_last() =~= sel.take(i as int));
            assert(sel.take(i + 1).last() == sel[i as int]);
            reveal_with_fuel(Seq::filter, 1);
        }
        if units[i].translation == translation {
            if count == 0 {
                first = units[i].number;
            }
            count = count + 1;
        }
        i = i + 1;
    }
    assert(sel.take(sel.len() as int) =~= sel);
    if count == 1 {
        let a = first;
        let lo = if a <= number {
            a
        } else {
            number
        };
        let hi = if a <= number {
            number
        } else {
            a
        };
        let ghost start = selected@.to_set();
        let ghost fill = range_units(a, number, translation, verse_numbers@);
        let mut k: usize = 0;
        while k < verse_numbers.len()
            invariant
                k <= verse_numbers@.len(),
                selected@.to_set() == start.union(
                    Set::new(
                        |u: VerseUnit|
                            u.translation == translation && (exists|m: int|
                                0 <= m < k && verse_numbers@[m] == u.number) && lo <= u.number
                                <= hi,
                    ),
                ),
            decreases verse_numbers@.len() - k,
        {
            let n = verse_numbers[k];
            let ghost s0 = selected@.to_set();
            if n >= lo && n <= hi {
                selected.insert(VerseUnit::new(n, translation));
            }
            proof {
                assert(selected@.to_set() =~= start.union(
                    Set::new(
                        |u: VerseUnit|
                            u.translation == translation && (exists|m: int|
                                0 <= m < k + 1 && verse_numbers@[m] == u.number) && lo
                                <= u.number <= hi,
                    ),
                )) by {
                    assert forall|u: VerseUnit|
                        u.translation == translation && (exists|m: int|
                            0 <= m < k + 1 && verse_numbers@[m] == u.number) && lo <= u.number
                            <= hi implies selected@.to_set().contains(u) by {
                        let m = choose|m: int| 0 <= m < k + 1 && verse_numbers@[m] == u.number;
                        if m == k {
                            assert(u == VerseUnit { number: n, translation });
                        } else {
                            assert(s0.contains(u));
                        }
                    }
                }
            }
            k = k + 1;
        }
        proof {
            assert(selected@.to_set() =~= start.union(fill)) by {
                assert forall|u: VerseUnit|
                    (exists|m: int| 0 <= m < verse_numbers@.len() && verse_numbers@[m] == u.number)
                        <==> verse_numbers@.contains(u.number) by {}
            }
        }
    } else {
        selected.insert(unit);
    }
}

// ---------------------------------------------------------------------------------------
// References and copy text
// ---------------------------------------------------------------------------------------

/// `s` is strictly increasing.
pub open spec fn increasing(s: Seq<u32>) -> bool {
    forall|i: int, j: int| 0 <= i < j < s.len() ==> s[i] < s[j]
}

/// `x` inserted into the increasing `s` at its place (no change when present).
pub open spec fn insert_sorted(s: Seq<u32>, x: u32) -> Seq<u32>
    decreases s.len(),
{
    if s.len() == 0 {
        seq![x]
    } else if x < s[0] {
        seq![x] + s
    } else if x == s[0] {
        s
    } else {
        seq![s[0]] + insert_sorted(s.drop_first(), x)
    }
}

/// The verse numbers selected in translation `id`, sorted, each once.
pub open spec fn lane_numbers(sel: Seq<VerseUnit>, id: TranslationId) -> Seq<u32>
    decreases sel.len(),
{
    if sel.len() == 0 {
        Seq::empty()
    } else {
        let prev = lane_numbers(sel.drop_last(), id);
        if sel.last().translation == id {
            insert_sorted(prev, sel.last().number)
        } else {
            prev
        }
    }
}

proof fn lemma_insert_sorted_shape(s: Seq<u32>, x: u32, p: int)
    requires
        increasing(s),
        0 <= p <= s.len(),
        forall|i: int| 0 <= i < p ==> s[i] < x,
        p < s.len() ==> s[p] >= x,
    ensures
        insert_sorted(s, x) == (if p < s.len() && s[p] == x {
            s
        } else {
            s.take(p).push(x) + s.skip(p)
        }),
    decreases s.len(),
{
    if s.len() == 0 {
        assert(s.take(p).push(x) + s.skip(p) =~= seq![x]);
    } else if p == 0 {
        if s[0] != x {
            assert(s.take(0).push(x) + s.skip(0) =~= seq![x] + s);
        }
    } else {
        let t = s.drop_first();
        assert forall|i: int| 0 <= i < p - 1 implies t[i] < x by {
            assert(t[i] == s[i + 1]);
        }
        if p - 1 < t.len() {
            assert(t[p - 1] == s[p]);
        }
        assert forall|i: int, j: int| 0 <= i < j < t.len() implies t[i] < t[j] by {
            assert(t[i] == s[i + 1] && t[j] == s[j + 1]);
        }
        lemma_insert_sorted_shape(t, x, p - 1);
        assert(s[0] < x);
        if p < s.len() && s[p] == x {
            assert(seq![s[0]] + t =~= s);
        } else {
            assert(seq![s[0]] + (t.take(p - 1).push(x) + t.skip(p - 1)) =~= s.take(p).push(x)
                + s.skip(p));
        }
    }
}

proof fn lemma_insert_sorted_at(s: Seq<u32>, x: u32, p: int)
    requires
        increasing(s),
        0 <= p <= s.len(),
        forall|i: int| 0 <= i < p ==> s[i] < x,
        p < s.len() ==> s[p] >= x,
    ensures
        p < s.len() && s[p] == x ==> insert_sorted(s, x) == s,
        !(p < s.len() && s[p] == x) ==> insert_sorted(s, x) == s.take(p).push(x) + s.skip(p),
        increasing(insert_sorted(s, x)),
        insert_sorted(s, x).to_set() == s.to_set().insert(x),
{
    lemma_insert_sorted_shape(s, x, p);
    if p < s.len() && s[p] == x {
        assert(s.contains(x));
        assert(s.to_set().insert(x) =~= s.to_set());
    } else {
        let r = s.take(p).push(x) + s.skip(p);
        assert(r.len() == s.len() + 1);
        assert forall|i: int| 0 <= i < r.len() implies #[trigger] r[i] == (if i < p {
            s[i]
        } else if i == p {
            x
        } else {
            s[i - 1]
        }) by {}
        assert forall|i: int, j: int| 0 <= i < j < r.len() implies r[i] < r[j] by {
            assert(r[i] == (if i < p {
                s[i]
            } else if i == p {
                x
            } else {
                s[i - 1]
            }));
            assert(r[j] == (if j < p {
                s[j]
            } else if j == p {
                x
            } else {
                s[j - 1]
            }));
            if i == p && j > p {
                assert(s[p] <= s[j - 1]);
            }
        }
        assert forall|y: u32| r.contains(y) <==> (s.contains(y) || y == x) by {
            if r.contains(y) {
                let k = choose|k: int| 0 <= k < r.len() && r[k] == y;
                assert(r[k] == (if k < p {
                    s[k]
                } else if k == p {
                    x
                } else {
                    s[k - 1]
                }));
                if k < p {
                    assert(s[k] == y);
                } else if k > p {
                    assert(s[k - 1] == y);
                }
            }
            if s.contains(y) {
                let k = choose|k: int| 0 <= k < s.len() && s[k] == y;
                if k < p {
                    assert(r[k] == y);
                } else {
                    assert(r[k + 1] == y);
                }
            }
            if y == x {
                assert(r[p] == x);
            }
        }
        assert(r.to_set() =~= s.to_set().insert(x));
    }
}

fn insert_number(v: &mut Vec<u32>, x: u32)
    requires
        increasing(old(v)@),
    ensures
        final(v)@ == insert_sorted(old(v)@, x),
        increasing(final(v)@),
{
    let mut p: usize = 0;
    while p < v.len() && v[p] < x
        invariant
            p <= v@.len(),
            forall|i: int| 0 <= i < p ==> v@[i] < x,
        decreases v@.len() - p,
    {
        p = p + 1;
    }
    proof {
        lemma_insert_sorted_at(v@, x, p as int);
    }
    if p < v.len() && v[p] == x {
        return;
    }
    v.insert(p, x);
    assert(v@ =~= old(v)@.take(p as int).push(x) + old(v)@.skip(p as int));
}

proof fn lemma_split_point(s: Seq<u32>, x: u32, p: int) -> (r: int)
    requires
        0 <= p <= s.len(),
        forall|i: int| 0 <= i < p ==> s[i] < x,
    ensures
        p <= r <= s.len(),
        forall|i: int| 0 <= i < r ==> s[i] < x,
        r < s.len() ==> s[r] >= x,
    decreases s.len() - p,
{
    if p < s.len() && s[p] < x {
        lemma_split_point(s, x, p + 1)
    } else {
        p
    }
}

proof fn lemma_lane_numbers_increasing(sel: Seq<VerseUnit>, id: TranslationId)
    ensures
        increasing(lane_numbers(sel, id)),
    decreases sel.len(),
{
    if sel.len() > 0 {
        lemma_lane_numbers_increasing(sel.drop_last(), id);
        if sel.last().translation == id {
            let prev = lane_numbers(sel.drop_last(), id);
            let x = sel.last().number;
            let p = lemma_split_point(prev, x, 0);
            lemma_insert_sorted_at(prev, x, p);
        }
    }
}

/// The verse numbers selected in translation `id`, sorted and without repeats.
pub fn numbers_for(selected: &[VerseUnit], id: TranslationId) -> (r: Vec<u32>)
    ensures
        r@ == lane_numbers(selected@, id),
        increasing(r@),
{
    let mut nums: Vec<u32> = Vec::new();
    let mut i: usize = 0;
    while i < selected.len()
        invariant
            i <= selected@.len(),
            nums@ == lane_numbers(selected@.take(i as int), id),
            increasing(nums@),
        decreases selected@.len() - i,
    {
        proof {
            assert(selected@.take(i + 1).drop_last() =~= selected@.take(i as int));
            assert(selected@.take(i + 1).last() == selected@[i as int]);
        }
        let u = selected[i];
        if u.translation == id {
            insert_number(&mut nums, u.number);
        }
        i = i + 1;
    }
    assert(selected@.take(selected@.len() as int) =~= selected@);
    nums
}

/// The smallest of `s`.
pub open spec fn seq_min(s: Seq<u32>) -> u32
    decreases s.len(),
{
    if s.len() <= 1 {
        s[0]
    } else if s.last() < seq_min(s.drop_last()) {
        s.last()
    } else {
        seq_min(s.drop_last())
    }
}

/// The largest of `s`.
pub open spec fn seq_max(s: Seq<u32>) -> u32
    decreases s.len(),
{
    if s.len() <= 1 {
        s[0]
    } else if s.last() > seq_max(s.drop_last()) {
        s.last()
    } else {
        seq_max(s.drop_last())
    }
}

/// The inclusive range of the selected numbers: smallest and largest; `None` when empty.
pub open spec fn range_spec(numbers: Seq<u32>) -> Option<(u32, u32)> {
    if numbers.len() == 0 {
        None
    } else {
        Some((seq_min(numbers), seq_max(numbers)))
    }
}

/// Inclusive verse-number range currently selected.
pub fn selected_verse_range(numbers: &[u32]) -> (r: Option<(u32, u32)>)
    ensures
        r == range_spec(numbers@),
{
    if numbers.len() == 0 {
        return None;
    }
    let mut lo = numbers[0];
    let mut hi = numbers[0];
    let mut i: usize = 1;
    assert(numbers@.take(1) =~= seq![numbers@[0]]);
    while i < numbers.len()
        invariant
            1 <= i <= numbers@.len(),
            lo == seq_min(numbers@.take(i as int)),
            hi == seq_max(numbers@.take(i as int)),
        decreases numbers@.len() - i,
    {
        proof {
            assert(numbers@.take(i + 1).drop_last() =~= numbers@.take(i as int));
            assert(numbers@.take(i + 1).last() == numbers@[i as int]);
        }
        if numbers[i] < lo {
            lo = numbers[i];
        }
        if numbers[i] > hi {
            hi = numbers[i];
        }
        i = i + 1;
    }
    assert(numbers@.take(numbers@.len() as int) =~= numbers@);
    Some((lo, hi))
}

/// `en dash`, between the ends of a verse range.
pub open spec fn dash() -> Seq<char> {
    seq!['\u{2013}']
}

/// `"{name} {chapter}:{a}"` for one verse, `"{name} {chapter}:{a}–{b}"` for a range, and
/// the chapter title when nothing is selected.
pub open spec fn ref_spec(name: Seq<char>, chapter: u32, numbers: Seq<u32>) -> Seq<char> {
    match range_spec(numbers) {
        Some((a, b)) => if a == b {
            chapter::verse_ref(name, chapter, a)
        } else {
            chapter::verse_ref(name, chapter, a) + dash() + text::decimal(b as nat)
        },
        None => chapter::chapter_title(name, chapter),
    }
}

fn format_ref(name: &String, chapter: u32, numbers: &[u32]) -> (r: String)
    ensures
        r@ == ref_spec(name@, chapter, numbers@),
{
    let mut out = name.clone();
    out.append(" ");
    push_decimal(&mut out, chapter as u64);
    match selected_verse_range(numbers) {
        Some((a, b)) => {
            out.append(":");
            push_decimal(&mut out, a as u64);
            if a != b {
                proof {
                    reveal_strlit("\u{2013}");
                }
                out.append("\u{2013}");
                push_decimal(&mut out, b as u64);
            }
        },
        None => {},
    }
    out
}

/// Bottom-bar / copy header reference, e.g. `約翰福音 3:16–18`.
pub fn format_ref_zh(chapter: &Chapter, numbers: &[u32]) -> (r: String)
    ensures
        r@ == ref_spec(chapter.book_name_zh@, chapter.chapter, numbers@),
{
    format_ref(&chapter.book_name_zh, chapter.chapter, numbers)
}

/// English reference, e.g. `John 3:16–18`.
pub fn format_ref_en(chapter: &Chapter, numbers: &[u32]) -> (r: String)
    ensures
        r@ == ref_spec(chapter.book_name_en@, chapter.chapter, numbers@),
{
    format_ref(&chapter.book_name_en, chapter.chapter, numbers)
}

/// The reference in the language of translation `id`.
pub open spec fn ref_for_spec(chapter: Chapter, id: TranslationId, numbers: Seq<u32>) -> Seq<char> {
    if translation::is_cjk_spec(id) {
        ref_spec(chapter.book_name_zh@, chapter.chapter, numbers)
    } else {
        ref_spec(chapter.book_name_en@, chapter.chapter, numbers)
    }
}

fn format_ref_for(chapter: &Chapter, id: TranslationId, numbers: &[u32]) -> (r: String)
    ensures
        r@ == ref_for_spec(*chapter, id, numbers@),
{
    if id.is_cjk() {
        format_ref_zh(chapter, numbers)
    } else {
        format_ref_en(chapter, numbers)
    }
}

/// `中文` or `英文`.
pub open spec fn short_label_spec(id: TranslationId) -> Seq<char> {
    match id {
        TranslationId::Cuv1919 => "中文"@,
        TranslationId::Kjv => "英文"@,
    }
}

/// Short language label for the select bar (`中文` / `英文`).
pub fn translation_short_label(id: TranslationId) -> (r: &'static str)
    ensures
        r@ == short_label_spec(id),
{
    match id {
        TranslationId::Cuv1919 => "中文",
        TranslationId::Kjv => "英文",
    }
}

/// `parts` joined by `sep`.
pub open spec fn join(parts: Seq<Seq<char>>, sep: Seq<char>) -> Seq<char>
    decreases parts.len(),
{
    if parts.len() == 0 {
        Seq::empty()
    } else if parts.len() == 1 {
        parts[0]
    } else {
        join(parts.drop_last(), sep) + sep + parts.last()
    }
}

pub(crate) fn join_strings(parts: &Vec<String>, sep: &str) -> (r: String)
    ensures
        r@ == join(parts.deep_view(), sep@),
{
    let ghost pv = parts.deep_view();
    let mut out = String::new();
    let mut i: usize = 0;
    while i < parts.len()
        invariant
            i <= parts@.len(),
            pv == parts.deep_view(),
            out@ == join(pv.take(i as int), sep@),
        decreases parts@.len() - i,
    {
        if i > 0 {
            out.append(sep);
        }
        out.append(parts[i].as_str());
        proof {
            let p = pv.take(i + 1);
            assert(p.drop_last() =~= pv.take(i as int));
            assert(p.last() == parts@[i as int]@);
            if i == 0 {
                assert(out@ =~= join(p, sep@));
            } else {
                assert(out@ =~= join(p, sep@));
            }
        }
        i = i + 1;
    }
    assert(pv.take(pv.len() as int) =~= pv);
    out
}

/// The summary parts of the translations of `ids` that have a selection, in that order:
/// counts (`中文 3 節`) and references.
pub open spec fn summary_counts(sel: Seq<VerseUnit>, ids: Seq<TranslationId>) -> Seq<Seq<char>>
    decreases ids.len(),
{
    if ids.len() == 0 {
        Seq::empty()
    } else {
        let prev = summary_counts(sel, ids.drop_last());
        let nums = lane_numbers(sel, ids.last());
        if nums.len() == 0 {
            prev
        } else {
            prev.push(short_label_spec(ids.last()) + " "@ + text::decimal(nums.len()) + " 節"@)
        }
    }
}

pub open spec fn summary_refs(chapter: Chapter, sel: Seq<VerseUnit>, ids: Seq<TranslationId>) -> Seq<
    Seq<char>,
>
    decreases ids.len(),
{
    if ids.len() == 0 {
        Seq::empty()
    } else {
        let prev = summary_refs(chapter, sel, ids.drop_last());
        let nums = lane_numbers(sel, ids.last());
        if nums.len() == 0 {
            prev
        } else {
            prev.push(ref_for_spec(chapter, ids.last(), nums))
        }
    }
}

/// `已選 0 節` for nothing; else `已選 ` + the counts + ` · ` + the references, each list
/// joined by ` · `, translations in default compare order.
pub open spec fn summary_spec(chapter: Chapter, sel: Seq<VerseUnit>) -> Seq<char> {
    let counts = summary_counts(sel, translation::all_spec());
    let refs = summary_refs(chapter, sel, translation::all_spec());
    if sel.len() == 0 || counts.len() == 0 {
        "已選 0 節"@
    } else {
        "已選 "@ + join(counts, " · "@) + " · "@ + join(refs, " · "@)
    }
}

/// Bottom-bar summary, e.g. `已選 中文 3 節 · 英文 1 節 · 約翰福音 3:16–18 · John 3:16`.
pub fn format_selection_summary(chapter: &Chapter, selected: &[VerseUnit]) -> (r: String)
    ensures
        r@ == summary_spec(*chapter, selected@),
{
    if selected.len() == 0 {
        return String::from_str("已選 0 節");
    }
    let ids = TranslationId::all();
    let mut counts: Vec<String> = Vec::new();
    let mut refs: Vec<String> = Vec::new();
    let mut i: usize = 0;
    while i < ids.len()
        invariant
            i <= ids@.len(),
            ids@ == translation::all_spec(),
            counts.deep_view() == summary_counts(selected@, ids@.take(i as int)),
            refs.deep_view() == summary_refs(*chapter, selected@, ids@.take(i as int)),
        decreases ids@.len() - i,
    {
        let id = ids[i];
        proof {
            assert(ids@.take(i + 1).drop_last() =~= ids@.take(i as int));
            assert(ids@.take(i + 1).last() == id);
        }
        let nums = numbers_for(selected, id);
        if nums.len() > 0 {
            let ghost c0 = counts.deep_view();
            let ghost r0 = refs.deep_view();
            let mut bit = String::from_str(translation_short_label(id));
            bit.append(" ");
            push_decimal(&mut bit, nums.len() as u64);
            bit.append(" 節");
            counts.push(bit);
            let rf = format_ref_for(chapter, id, nums.as_slice());
            refs.push(rf);
            assert(counts.deep_view() =~= c0.push(bit@));
            assert(refs.deep_view() =~= r0.push(rf@));
        }
        i = i + 1;
    }
    assert(ids@.take(ids@.len() as int) =~= ids@);
    if counts.len() == 0 {
        return String::from_str("已選 0 節");
    }
    let mut out = String::from_str("已選 ");
    let c = join_strings(&counts, " · ");
    out.append(c.as_str());
    out.append(" · ");
    let r = join_strings(&refs, " · ");
    out.append(r.as_str());
    out
}

/// The index of the first verse of `vs` numbered `n`.
pub open spec fn first_verse_numbered(vs: Seq<chapter::VerseView>, n: u32, i: int) -> Option<int>
    decreases vs.len() - i,
{
    if i < 0 || i >= vs.len() {
        None
    } else if vs[i].0 == n {
        Some(i)
    } else {
        first_verse_numbered(vs, n, i + 1)
    }
}

/// The copy lines of the verses `nums` in translation `id`: `"{n} {text}\n"` for each that
/// the chapter has with a text in that lane.
pub open spec fn copy_lines(vs: Seq<chapter::VerseView>, id: TranslationId, nums: Seq<u32>) -> Seq<
    char,
>
    decreases nums.len(),
{
    if nums.len() == 0 {
        Seq::empty()
    } else {
        let prev = copy_lines(vs, id, nums.drop_last());
        let n = nums.last();
        match first_verse_numbered(vs, n, 0) {
            None => prev,
            Some(k) => match chapter::lane_text(vs[k].1, id) {
                None => prev,
                Some(t) => prev + text::decimal(n as nat) + " "@ + t + "\n"@,
            },
        }
    }
}

/// The copy block of translation `id`: a header line, then its verse lines.
pub open spec fn copy_block(chapter: Chapter, id: TranslationId, nums: Seq<u32>) -> Seq<char> {
    let header = if translation::is_cjk_spec(id) {
        ref_spec(chapter.book_name_zh@, chapter.chapter, nums) + "（"@ + translation::label_spec(
            id,
        ) + "）"@
    } else {
        ref_spec(chapter.book_name_en@, chapter.chapter, nums) + " ("@ + translation::label_spec(
            id,
        ) + ")"@
    };
    header + "\n"@ + copy_lines(chapter.verses.deep_view(), id, nums)
}

/// The blocks of the translations of `ids` that have a selection, in that order.
pub open spec fn copy_blocks(chapter: Chapter, sel: Seq<VerseUnit>, ids: Seq<TranslationId>) -> Seq<
    Seq<char>,
>
    decreases ids.len(),
{
    if ids.len() == 0 {
        Seq::empty()
    } else {
        let prev = copy_blocks(chapter, sel, ids.drop_last());
        let nums = lane_numbers(sel, ids.last());
        if nums.len() == 0 {
            prev
        } else {
            prev.push(copy_block(chapter, ids.last(), nums))
        }
    }
}

fn find_verse(verses: &Vec<chapter::Verse>, n: u32) -> (r: Option<usize>)
    ensures
        match r {
            Some(k) => first_verse_numbered(verses.deep_view(), n, 0) == Some(k as int) && k
                < verses@.len(),
            None => first_verse_numbered(verses.deep_view(), n, 0) is None,
        },
{
    let ghost vs = verses.deep_view();
    let mut k: usize = 0;
    while k < verses.len()
        invariant
            k <= verses@.len(),
            vs == verses.deep_view(),
            first_verse_numbered(vs, n, 0) == first_verse_numbered(vs, n, k as int),
        decreases verses@.len() - k,
    {
        assert(vs[k as int].0 == verses@[k as int].number);
        if verses[k].number == n {
            return Some(k);
        }
        k = k + 1;
    }
    None
}

fn copy_block_exec(chapter: &Chapter, id: TranslationId, nums: &Vec<u32>) -> (r: String)
    ensures
        r@ == copy_block(*chapter, id, nums@),
{
    let mut block = if id.is_cjk() {
        let mut h = format_ref_zh(chapter, nums.as_slice());
        h.append("（");
        h.append(id.label());
        h.append("）");
        h
    } else {
        let mut h = format_ref_en(chapter, nums.as_slice());
        h.append(" (");
        h.append(id.label());
        h.append(")");
        h
    };
    block.append("\n");
    let ghost head = block@;
    let ghost vs = chapter.verses.deep_view();
    let mut i: usize = 0;
    while i < nums.len()
        invariant
            i <= nums@.len(),
            vs == chapter.verses.deep_view(),
            block@ == head + copy_lines(vs, id, nums@.take(i as int)),
        decreases nums@.len() - i,
    {
        let n = nums[i];
        proof {
            assert(nums@.take(i + 1).drop_last() =~= nums@.take(i as int));
            assert(nums@.take(i + 1).last() == n);
        }
        let ghost b0 = block@;
        match find_verse(&chapter.verses, n) {
            None => {},
            Some(k) => {
                let verse = &chapter.verses[k];
                assert(vs[k as int] == verse.deep_view());
                match verse.get(id) {
                    None => {},
                    Some(t) => {
                        push_decimal(&mut block, n as u64);
                        block.append(" ");
                        block.append(t);
                        block.append("\n");
                        assert(block@ =~= b0 + text::decimal(n as nat) + " "@ + t@ + "\n"@);
                    },
                }
            },
        }
        i = i + 1;
    }
    assert(nums@.take(nums@.len() as int) =~= nums@);
    block
}

/// Clipboard payload grouped by translation: only selected lanes, blocks joined by an empty
/// line.
///
/// ```text
/// 約翰福音 3:16–18（和合本 1919 神版）
/// 16 …
/// 17 …
///
/// John 3:16–18 (KJV)
/// 16 …
/// ```
pub fn format_verse_copy(chapter: &Chapter, selected: &[VerseUnit]) -> (r: String)
    ensures
        r@ == join(copy_blocks(*chapter, selected@, translation::all_spec()), "\n"@),
{
    let ids = TranslationId::all();
    let mut blocks: Vec<String> = Vec::new();
    let mut i: usize = 0;
    while i < ids.len()
        invariant
            i <= ids@.len(),
            ids@ == translation::all_spec(),
            blocks.deep_view() == copy_blocks(*chapter, selected@, ids@.take(i as int)),
        decreases ids@.len() - i,
    {
        let id = ids[i];
        proof {
            assert(ids@.take(i + 1).drop_last() =~= ids@.take(i as int));
            assert(ids@.take(i + 1).last() == id);
        }
        let nums = numbers_for(selected, id);
        if nums.len() > 0 {
            let ghost b0 = blocks.deep_view();
            let block = copy_block_exec(chapter, id, &nums);
            blocks.push(block);
            assert(blocks.deep_view() =~= b0.push(block@));
        }
        i = i + 1;
    }
    assert(ids@.take(ids@.len() as int) =~= ids@);
    join_strings(&blocks, "\n")
}


// ---------------------------------------------------------------------------------------
// Laws of the tap rule and of the lane numbers
// ---------------------------------------------------------------------------------------

/// A tap never unchecks anything but the tapped unit: every other selected unit, in any
/// translation and any verse, stays selected.
pub proof fn law_tap_keeps_other_units(
    sel: Seq<VerseUnit>,
    number: u32,
    t: TranslationId,
    verse_numbers: Seq<u32>,
    u: VerseUnit,
)
    requires
        sel.contains(u),
        u != (VerseUnit { number, translation: t }),
    ensures
        tap_spec(sel, number, t, verse_numbers).contains(u),
{
    assert(sel.to_set().contains(u));
}

/// A tap on a selected unit unchecks exactly that unit.
pub proof fn law_tap_on_selected_toggles_off(
    sel: Seq<VerseUnit>,
    number: u32,
    t: TranslationId,
    verse_numbers: Seq<u32>,
)
    requires
        sel.contains(VerseUnit { number, translation: t }),
    ensures
        tap_spec(sel, number, t, verse_numbers) == sel.to_set().remove(
            VerseUnit { number, translation: t },
        ),
        !tap_spec(sel, number, t, verse_numbers).contains(VerseUnit { number, translation: t }),
{
}

/// A tap leaves the other translation's lane as it was.
pub proof fn law_tap_leaves_other_lanes(
    sel: Seq<VerseUnit>,
    number: u32,
    t: TranslationId,
    verse_numbers: Seq<u32>,
    u: VerseUnit,
)
    requires
        u.translation != t,
    ensures
        tap_spec(sel, number, t, verse_numbers).contains(u) <==> sel.contains(u),
{
}

/// A tap on an unselected verse of the chapter selects it.
pub proof fn law_tap_on_unselected_selects_it(
    sel: Seq<VerseUnit>,
    number: u32,
    t: TranslationId,
    verse_numbers: Seq<u32>,
)
    requires
        !sel.contains(VerseUnit { number, translation: t }),
        verse_numbers.contains(number),
    ensures
        tap_spec(sel, number, t, verse_numbers).contains(VerseUnit { number, translation: t }),
{
}

/// A range fill adds nothing outside the tapped lane and outside the range between the
/// one selected unit and the tap.
pub proof fn law_range_fill_is_bounded(
    sel: Seq<VerseUnit>,
    number: u32,
    t: TranslationId,
    verse_numbers: Seq<u32>,
    u: VerseUnit,
)
    requires
        !sel.contains(VerseUnit { number, translation: t }),
        in_lane(sel, t).len() == 1,
        tap_spec(sel, number, t, verse_numbers).contains(u),
        !sel.contains(u),
    ensures
        u.translation == t,
        verse_numbers.contains(u.number),
        in_lane(sel, t)[0].number <= u.number <= number || number <= u.number <= in_lane(
            sel,
            t,
        )[0].number,
{
}

/// Where the lane holds no unit or two or more, tapping a fresh unit twice gives back the
/// selection that was there before.
pub proof fn law_tap_twice_restores(
    sel: Seq<VerseUnit>,
    after: Seq<VerseUnit>,
    number: u32,
    t: TranslationId,
    verse_numbers: Seq<u32>,
)
    requires
        !sel.contains(VerseUnit { number, translation: t }),
        in_lane(sel, t).len() != 1,
        after.to_set() == tap_spec(sel, number, t, verse_numbers),
    ensures
        tap_spec(after, number, t, verse_numbers) == sel.to_set(),
{
    let unit = VerseUnit { number, translation: t };
    assert(after.to_set().contains(unit));
    assert(after.contains(unit));
    assert(sel.to_set().insert(unit).remove(unit) =~= sel.to_set());
}

proof fn lemma_lane_numbers_members(sel: Seq<VerseUnit>, id: TranslationId)
    ensures
        increasing(lane_numbers(sel, id)),
        forall|n: u32|
            lane_numbers(sel, id).contains(n) <==> sel.contains(
                VerseUnit { number: n, translation: id },
            ),
    decreases sel.len(),
{
    lemma_lane_numbers_increasing(sel, id);
    if sel.len() > 0 {
        let init = sel.drop_last();
        lemma_lane_numbers_members(init, id);
        let prev = lane_numbers(init, id);
        assert forall|n: u32|
            sel.contains(VerseUnit { number: n, translation: id }) <==> (init.contains(
                VerseUnit { number: n, translation: id },
            ) || sel.last() == VerseUnit { number: n, translation: id }) by {
            let v = VerseUnit { number: n, translation: id };
            if sel.contains(v) {
                let k = choose|k: int| 0 <= k < sel.len() && sel[k] == v;
                if k < sel.len() - 1 {
                    assert(init[k] == v);
                }
            }
            if init.contains(v) {
                let k = choose|k: int| 0 <= k < init.len() && init[k] == v;
                assert(sel[k] == v);
            }
        }
        if sel.last().translation == id {
            let x = sel.last().number;
            let p = lemma_split_point(prev, x, 0);
            lemma_insert_sorted_at(prev, x, p);
            assert forall|n: u32| lane_numbers(sel, id).contains(n) <==> (prev.contains(n) || n
                == x) by {
                assert(lane_numbers(sel, id).to_set().contains(n) == prev.to_set().insert(
                    x,
                ).contains(n));
            }
        }
        assert forall|n: u32|
            lane_numbers(sel, id).contains(n) <==> sel.contains(
                VerseUnit { number: n, translation: id },
            ) by {
            let v = VerseUnit { number: n, translation: id };
            assert(sel.contains(v) <==> (init.contains(v) || sel.last() == v));
            assert(prev.contains(n) <==> init.contains(v));
        }
    }
}

/// The numbers of a lane come out increasing, and they are exactly the verse numbers
/// selected in that lane.
pub proof fn law_lane_numbers_are_the_lane(sel: Seq<VerseUnit>, id: TranslationId, n: u32)
    ensures
        increasing(lane_numbers(sel, id)),
        lane_numbers(sel, id).contains(n) <==> sel.contains(
            VerseUnit { number: n, translation: id },
        ),
{
    lemma_lane_numbers_members(sel, id);
}

proof fn lemma_range_bounds(s: Seq<u32>)
    requires
        s.len() > 0,
    ensures
        s.contains(seq_min(s)),
        s.contains(seq_max(s)),
        forall|i: int| 0 <= i < s.len() ==> seq_min(s) <= #[trigger] s[i] <= seq_max(s),
    decreases s.len(),
{
    if s.len() > 1 {
        let init = s.drop_last();
        lemma_range_bounds(init);
        assert forall|i: int| 0 <= i < s.len() implies seq_min(s) <= #[trigger] s[i] <= seq_max(
            s,
        ) by {
            if i < s.len() - 1 {
                assert(s[i] == init[i]);
            }
        }
        let k = choose|k: int| 0 <= k < init.len() && init[k] == seq_min(init);
        assert(s[k] == init[k]);
        let k2 = choose|k: int| 0 <= k < init.len() && init[k] == seq_max(init);
        assert(s[k2] == init[k2]);
        assert(s[s.len() - 1] == s.last());
    } else {
        assert(s[0] == seq_min(s));
    }
}

/// The selected range runs from a selected number to a selected number and holds every
/// selected number.
pub proof fn law_range_covers_selection(numbers: Seq<u32>)
    requires
        numbers.len() > 0,
    ensures
        range_spec(numbers) matches Some((lo, hi)) && numbers.contains(lo) && numbers.contains(
            hi,
        ) && forall|i: int| 0 <= i < numbers.len() ==> lo <= #[trigger] numbers[i] <= hi,
{
    lemma_range_bounds(numbers);
}

proof fn lemma_increasing_by_members(a: Seq<u32>, b: Seq<u32>)
    requires
        increasing(a),
        increasing(b),
        forall|x: u32| a.contains(x) <==> b.contains(x),
    ensures
        a == b,
    decreases a.len() + b.len(),
{
    if a.len() == 0 {
        if b.len() > 0 {
            assert(b.contains(b[0]));
        }
        assert(a =~= b);
    } else if b.len() == 0 {
        assert(a.contains(a[0]));
    } else {
        assert(a.contains(a[0]));
        assert(b.contains(b[0]));
        let ka = choose|k: int| 0 <= k < a.len() && a[k] == b[0];
        let kb = choose|k: int| 0 <= k < b.len() && b[k] == a[0];
        assert(a[0] <= a[ka]);
        assert(b[0] <= b[kb]);
        assert(a[0] == b[0]);
        let ta = a.drop_first();
        let tb = b.drop_first();
        assert forall|x: u32| ta.contains(x) <==> tb.contains(x) by {
            if ta.contains(x) {
                let k = choose|k: int| 0 <= k < ta.len() && ta[k] == x;
                assert(a[k + 1] == x && a[0] < x);
                assert(b.contains(x));
                let m = choose|m: int| 0 <= m < b.len() && b[m] == x;
                assert(m != 0);
                assert(tb[m - 1] == x);
            }
            if tb.contains(x) {
                let k = choose|k: int| 0 <= k < tb.len() && tb[k] == x;
                assert(b[k + 1] == x && b[0] < x);
                assert(a.contains(x));
                let m = choose|m: int| 0 <= m < a.len() && a[m] == x;
                assert(m != 0);
                assert(ta[m - 1] == x);
            }
        }
        assert forall|i: int, j: int| 0 <= i < j < ta.len() implies ta[i] < ta[j] by {
            assert(ta[i] == a[i + 1] && ta[j] == a[j + 1]);
        }
        assert forall|i: int, j: int| 0 <= i < j < tb.len() implies tb[i] < tb[j] by {
            assert(tb[i] == b[i + 1] && tb[j] == b[j + 1]);
        }
        lemma_increasing_by_members(ta, tb);
        assert(a =~= seq![a[0]] + ta);
        assert(b =~= seq![b[0]] + tb);
    }
}

proof fn lemma_same_lanes(s1: Seq<VerseUnit>, s2: Seq<VerseUnit>, id: TranslationId)
    requires
        s1.to_set() == s2.to_set(),
    ensures
        lane_numbers(s1, id) == lane_numbers(s2, id),
{
    lemma_lane_numbers_members(s1, id);
    lemma_lane_numbers_members(s2, id);
    assert forall|x: u32| lane_numbers(s1, id).contains(x) <==> lane_numbers(s2, id).contains(x) by {
        let u = VerseUnit { number: x, translation: id };
        assert(s1.to_set().contains(u) == s2.to_set().contains(u));
        assert(s1.to_set().contains(u) == s1.contains(u));
        assert(s2.to_set().contains(u) == s2.contains(u));
        assert(lane_numbers(s1, id).contains(x) == s1.contains(u));
        assert(lane_numbers(s2, id).contains(x) == s2.contains(u));
    }
    lemma_increasing_by_members(lane_numbers(s1, id), lane_numbers(s2, id));
}

proof fn lemma_same_texts(
    chapter: Chapter,
    s1: Seq<VerseUnit>,
    s2: Seq<VerseUnit>,
    ids: Seq<TranslationId>,
)
    requires
        s1.to_set() == s2.to_set(),
    ensures
        summary_counts(s1, ids) == summary_counts(s2, ids),
        summary_refs(chapter, s1, ids) == summary_refs(chapter, s2, ids),
        copy_blocks(chapter, s1, ids) == copy_blocks(chapter, s2, ids),
    decreases ids.len(),
{
    if ids.len() > 0 {
        lemma_same_texts(chapter, s1, s2, ids.drop_last());
        lemma_same_lanes(s1, s2, ids.last());
    }
}

/// The summary line and the clipboard text depend only on which units are selected: not
/// on their order, nor on repeats.
pub proof fn law_summary_and_copy_ignore_order(chapter: Chapter, s1: Seq<VerseUnit>, s2: Seq<VerseUnit>)
    requires
        s1.to_set() == s2.to_set(),
    ensures
        summary_spec(chapter, s1) == summary_spec(chapter, s2),
        copy_blocks(chapter, s1, translation::all_spec()) == copy_blocks(
            chapter,
            s2,
            translation::all_spec(),
        ),
{
    lemma_same_texts(chapter, s1, s2, translation::all_spec());
    if s1.len() == 0 && s2.len() > 0 {
        assert(s2.to_set().contains(s2[0]));
        assert(!s1.to_set().contains(s2[0]));
    }
    if s2.len() == 0 && s1.len() > 0 {
        assert(s1.to_set().contains(s1[0]));
        assert(!s2.to_set().contains(s1[0]));
    }
}

} // verus!
