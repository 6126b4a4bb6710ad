//! Translations and how many of them the reading pane shows side by side.

use vstd::prelude::*;

verus! {

/// Identifies a translation. Ships CUV 1919 神版 and KJV.
///
/// Additional translations later become new variants; UI lanes are keyed by this id.
#[derive(Debug, Clone, Copy, PartialEq, Eq, Hash, PartialOrd, Ord, Structural)]
pub enum TranslationId {
    /// Chinese Union Version, 1919, 神版 (public domain).
    Cuv1919,
    /// King James Version (public domain).
    Kjv,
}

impl View for TranslationId {
    type V = TranslationId;

    open spec fn view(&self) -> TranslationId {
        *self
    }
}

impl DeepView for TranslationId {
    type V = TranslationId;

    open spec fn deep_view(&self) -> TranslationId {
        *self
    }
}

/// The display label of a translation.
pub open spec fn label_spec(id: TranslationId) -> Seq<char> {
    match id {
        TranslationId::Cuv1919 => "和合本 1919 神版"@,
        TranslationId::Kjv => "KJV"@,
    }
}

/// Whether a translation is set in CJK script (exact-substring search, Chinese font size).
pub open spec fn is_cjk_spec(id: TranslationId) -> bool {
    id == TranslationId::Cuv1919
}

/// The bundled translations in default compare order (中 then 英).
pub open spec fn all_spec() -> Seq<TranslationId> {
    seq![TranslationId::Cuv1919, TranslationId::Kjv]
}

impl TranslationId {
    /// Translations bundled with this build, in default compare order (中 then 英).
    pub fn all() -> (r: Vec<TranslationId>)
        ensures
            r@ == all_spec(),
    {
        let mut v: Vec<TranslationId> = Vec::new();
        v.push(TranslationId::Cuv1919);
        v.push(TranslationId::Kjv);
        assert(v@ =~= all_spec());
        v
    }

    pub fn label(self) -> (r: &'static str)
        ensures
            r@ == label_spec(self),
    {
        match self {
            TranslationId::Cuv1919 => "和合本 1919 神版",
            TranslationId::Kjv => "KJV",
        }
    }

    /// CJK body text uses the Chinese font size; Latin uses a slightly smaller size.
    pub fn is_cjk(self) -> (r: bool)
        ensures
            r == is_cjk_spec(self),
    {
        match self {
            TranslationId::Cuv1919 => true,
            TranslationId::Kjv => false,
        }
    }
}

/// How many translation lanes the reading pane shows.
///
/// `Compare` renders every id in the vec (1..=N, N>=2), so a third translation later
/// is data + a checkbox, not a rewrite of the verse view.
#[derive(Debug, Clone, PartialEq, Eq)]
pub enum ViewMode {
    Single(TranslationId),
    Compare(Vec<TranslationId>),
}

/// A view mode as a flag (`true` for `Single`) and its lanes.
pub type ModeView = (bool, Seq<TranslationId>);

impl View for ViewMode {
    type V = ModeView;

    open spec fn view(&self) -> ModeView {
        match *self {
            ViewMode::Single(id) => (true, seq![id]),
            ViewMode::Compare(ids) => (false, ids@),
        }
    }
}

/// The default mode: compare every bundled translation.
pub open spec fn default_mode() -> ModeView {
    (false, all_spec())
}

/// `sanitized`: single stays; a compare of two or more stays; a one-lane compare becomes
/// single; an empty compare becomes the default.
pub open spec fn sanitize_spec(m: ModeView) -> ModeView {
    if m.0 {
        m
    } else if m.1.len() >= 2 {
        m
    } else if m.1.len() == 1 {
        (true, m.1)
    } else {
        default_mode()
    }
}

/// A mode in the shape that `sanitized` keeps: one lane when single, two or more when
/// comparing.
pub open spec fn well_shaped(m: ModeView) -> bool {
    if m.0 {
        m.1.len() == 1
    } else {
        m.1.len() >= 2
    }
}

/// The lane labels joined by ` · `.
pub open spec fn join_labels(ids: Seq<TranslationId>) -> Seq<char>
    decreases ids.len(),
{
    if ids.len() == 0 {
        Seq::empty()
    } else if ids.len() == 1 {
        label_spec(ids[0])
    } else {
        join_labels(ids.drop_last()) + " · "@ + label_spec(ids.last())
    }
}

fn copy_ids(ids: &Vec<TranslationId>) -> (r: Vec<TranslationId>)
    ensures
        r@ == ids@,
{
    let mut out: Vec<TranslationId> = Vec::new();
    let mut i: usize = 0;
    while i < ids.len()
        invariant
            i <= ids@.len(),
            out@ == ids@.take(i as int),
        decreases ids@.len() - i,
    {
        out.push(ids[i]);
        i = i + 1;
        assert(out@ =~= ids@.take(i as int));
    }
    assert(ids@.take(ids@.len() as int) =~= ids@);
    out
}

impl Default for ViewMode {
    fn default() -> (r: Self)
        ensures
            r@ == default_mode(),
            r is Compare,
    {
        ViewMode::Compare(TranslationId::all())
    }
}

impl ViewMode {
    pub fn single(id: TranslationId) -> (r: Self)
        ensures
            r == ViewMode::Single(id),
            r@ == (true, seq![id]),
    {
        ViewMode::Single(id)
    }

    pub fn compare(ids: Vec<TranslationId>) -> (r: Self)
        ensures
            r@ == sanitize_spec((false, ids@)),
    {
        ViewMode::Compare(ids).sanitized()
    }

    /// Drop empty compare lists; a 1-item compare becomes single.
    pub fn sanitized(self) -> (r: Self)
        ensures
            r@ == sanitize_spec(self@),
            r is Single <==> r@.0,
    {
        match self {
            ViewMode::Single(id) => ViewMode::Single(id),
            ViewMode::Compare(ids) => {
                if ids.len() >= 2 {
                    ViewMode::Compare(ids)
                } else if ids.len() == 1 {
                    let r = ViewMode::Single(ids[0]);
                    assert(r@.1 =~= ids@);
                    r
                } else {
                    ViewMode::default()
                }
            },
        }
    }

    pub fn lanes(&self) -> (r: Vec<TranslationId>)
        ensures
            r@ == self@.1,
    {
        match self {
            ViewMode::Single(id) => {
                let mut v: Vec<TranslationId> = Vec::new();
                v.push(*id);
                assert(v@ =~= seq![*id]);
                v
            },
            ViewMode::Compare(ids) => copy_ids(ids),
        }
    }

    pub fn lane_count(&self) -> (r: usize)
        ensures
            r == self@.1.len(),
    {
        self.lanes().len()
    }

    pub fn is_single(&self) -> (r: bool)
        ensures
            r == self@.0,
            r == self is Single,
    {
        match self {
            ViewMode::Single(_) => true,
            ViewMode::Compare(_) => false,
        }
    }

    pub fn is_compare(&self) -> (r: bool)
        ensures
            r == !self@.0,
            r == self is Compare,
    {
        match self {
            ViewMode::Single(_) => false,
            ViewMode::Compare(_) => true,
        }
    }

    /// Header chrome, e.g. `和合本 1919 神版` or `和合本 1919 神版 · KJV`.
    pub fn header_label(&self) -> (r: String)
        ensures
            r@ == join_labels(self@.1),
    {
        let lanes = self.lanes();
        let mut out = String::new();
        let mut i: usize = 0;
        while i < lanes.len()
            invariant
                i <= lanes@.len(),
                out@ == join_labels(lanes@.take(i as int)),
            decreases lanes@.len() - i,
        {
            let ghost before = out@;
            if i > 0 {
                out.append(" · ");
            }
            out.append(lanes[i].label());
            proof {
                let p = lanes@.take(i + 1);
                assert(p.drop_last() =~= lanes@.take(i as int));
                assert(p.last() == lanes@[i as int]);
                if i == 0 {
                    assert(out@ =~= join_labels(p));
                } else {
                    assert(out@ =~= join_labels(p));
                }
            }
            i = i + 1;
        }
        assert(lanes@.take(lanes@.len() as int) =~= lanes@);
        out
    }
}

/// `sanitized` gives a well-shaped mode, every time: a single mode shows one lane, a
/// compare mode two or more.
pub proof fn law_sanitized_is_well_shaped(m: ViewMode)
    ensures
        well_shaped(sanitize_spec(m@)),
{
}

/// `sanitized` changes nothing the second time.
pub proof fn law_sanitized_idempotent(m: ViewMode)
    ensures
        sanitize_spec(sanitize_spec(m@)) == sanitize_spec(m@),
{
}

/// A well-shaped mode is left as it is by `sanitized`.
pub proof fn law_sanitized_keeps_well_shaped(m: ViewMode)
    requires
        well_shaped(m@),
    ensures
        sanitize_spec(m@) == m@,
{
}

} // verus!
