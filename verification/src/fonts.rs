//! Choosing the font family for Chinese text among the fonts the system has installed.

use vstd::prelude::*;

use crate::text;
use crate::text::{chars_of, contains_slice, slice_eq_ic};

verus! {

/// The preferred CJK families, best first: on macOS the system's own Traditional Chinese
/// families come before Noto and Source Han.
pub open spec fn candidates_spec(macos: bool) -> Seq<Seq<char>> {
    let shared = seq![
        "Noto Serif CJK TC"@,
        "Noto Sans CJK TC"@,
        "Source Han Serif TC"@,
        "Source Han Sans TC"@,
        "Noto Serif CJK"@,
        "Noto Sans CJK"@,
    ];
    if macos {
        seq!["PingFang TC"@, "Songti TC"@, "Heiti TC"@] + shared
    } else {
        shared
    }
}

/// The preferred CJK families, best first.
pub fn cjk_font_candidates(macos: bool) -> (r: Vec<&'static str>)
    ensures
        r@.map_values(|s: &'static str| s@) == candidates_spec(macos),
{
    let mut v: Vec<&'static str> = Vec::new();
    if macos {
        v.push("PingFang TC");
        v.push("Songti TC");
        v.push("Heiti TC");
    }
    v.push("Noto Serif CJK TC");
    v.push("Noto Sans CJK TC");
    v.push("Source Han Serif TC");
    v.push("Source Han Sans TC");
    v.push("Noto Serif CJK");
    v.push("Noto Sans CJK");
    assert(v@.map_values(|s: &'static str| s@) =~= candidates_spec(macos));
    v
}

/// Some installed name equals `name`, ignoring ASCII case.
pub open spec fn installed_has(installed: Seq<Seq<char>>, name: Seq<char>) -> bool {
    exists|j: int| 0 <= j < installed.len() && text::eq_ic(#[trigger] installed[j], name)
}

/// The first candidate at or after `i` that is installed.
pub open spec fn first_installed(cands: Seq<Seq<char>>, installed: Seq<Seq<char>>, i: int) -> Option<
    int,
>
    decreases cands.len() - i,
{
    if i < 0 || i >= cands.len() {
        None
    } else if installed_has(installed, cands[i]) {
        Some(i)
    } else {
        first_installed(cands, installed, i + 1)
    }
}

/// A family name that looks like a Traditional Chinese or CJK face.
pub open spec fn cjk_looking(name: Seq<char>) -> bool {
    ||| text::contains(name, "CJK TC"@)
    ||| text::contains(name, "Noto Serif CJK"@)
    ||| text::contains(name, "PingFang"@)
    ||| text::contains(name, "Songti TC"@)
    ||| text::contains(name, "Heiti TC"@)
}

/// The first installed name at or after `j` that looks like a CJK face.
pub open spec fn first_cjk_looking(installed: Seq<Seq<char>>, j: int) -> Option<int>
    decreases installed.len() - j,
{
    if j < 0 || j >= installed.len() {
        None
    } else if cjk_looking(installed[j]) {
        Some(j)
    } else {
        first_cjk_looking(installed, j + 1)
    }
}

/// The family for Chinese text: the first preferred family that is installed, else the
/// first installed family that looks like a CJK face, else `sans-serif`.
pub open spec fn pick_spec(macos: bool, installed: Seq<Seq<char>>) -> Seq<char> {
    let cands = candidates_spec(macos);
    match first_installed(cands, installed, 0) {
        Some(i) => cands[i],
        None => match first_cjk_looking(installed, 0) {
            Some(j) => installed[j],
            None => "sans-serif"@,
        },
    }
}

fn is_installed(installed: &[String], name: &str) -> (r: bool)
    ensures
        r == installed_has(installed@.map_values(|s: String| s@), name@),
{
    let ghost names = installed@.map_values(|s: String| s@);
    let nc = chars_of(name);
    let mut j: usize = 0;
    while j < installed.len()
        invariant
            j <= installed@.len(),
            names == installed@.map_values(|s: String| s@),
            nc@ == name@,
            forall|k: int| 0 <= k < j ==> !text::eq_ic(#[trigger] names[k], name@),
        decreases installed@.len() - j,
    {
        let c = chars_of(installed[j].as_str());
        assert(names[j as int] == installed@[j as int]@);
        if slice_eq_ic(c.as_slice(), nc.as_slice()) {
            return true;
        }
        j = j + 1;
    }
    false
}

fn looks_cjk(name: &str) -> (r: bool)
    ensures
        r == cjk_looking(name@),
{
    let c = chars_of(name);
    let a = chars_of("CJK TC");
    let b = chars_of("Noto Serif CJK");
    let p = chars_of("PingFang");
    let s = chars_of("Songti TC");
    let h = chars_of("Heiti TC");
    contains_slice(c.as_slice(), a.as_slice()) || contains_slice(c.as_slice(), b.as_slice())
        || contains_slice(c.as_slice(), p.as_slice()) || contains_slice(
        c.as_slice(),
        s.as_slice(),
    ) || contains_slice(c.as_slice(), h.as_slice())
}

/// The family for Chinese text among the `installed` families (see `pick_spec`).
pub fn pick_cjk_font(macos: bool, installed: &[String]) -> (r: String)
    ensures
        r@ == pick_spec(macos, installed@.map_values(|s: String| s@)),
{
    let ghost names = installed@.map_values(|s: String| s@);
    let cands = cjk_font_candidates(macos);
    let ghost cv = cands@.map_values(|s: &'static str| s@);
    let mut i: usize = 0;
    while i < cands.len()
        invariant
            i <= cands@.len(),
            cv == cands@.map_values(|s: &'static str| s@),
            cv == candidates_spec(macos),
            names == installed@.map_values(|s: String| s@),
            first_installed(cv, names, 0) == first_installed(cv, names, i as int),
        decreases cands@.len() - i,
    {
        assert(cv[i as int] == cands@[i as int]@);
        if is_installed(installed, cands[i]) {
            return String::from_str(cands[i]);
        }
        i = i + 1;
    }
    let mut j: usize = 0;
    while j < installed.len()
        invariant
            j <= installed@.len(),
            names == installed@.map_values(|s: String| s@),
            first_installed(candidates_spec(macos), names, 0) is None,
            first_cjk_looking(names, 0) == first_cjk_looking(names, j as int),
        decreases installed@.len() - j,
    {
        assert(names[j as int] == installed@[j as int]@);
        if looks_cjk(installed[j].as_str()) {
            return String::from_str(installed[j].as_str());
        }
        j = j + 1;
    }
    String::from_str("sans-serif")
}

} // verus!
