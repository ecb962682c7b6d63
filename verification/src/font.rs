use vstd::prelude::*;

verus! {

/// The ordered font preference list: families able to render CJK captions,
/// most preferred first.
pub open spec fn spec_font_preferences() -> Seq<Seq<char>> {
    seq![
        "LXGW WenKai"@,
        "Microsoft YaHei"@,
        "SimHei"@,
        "WenQuanYi Micro Hei"@,
        "Noto Sans CJK SC"@,
        "PingFang SC"@,
    ]
}

/// The generic family the resolver falls back to when no preferred family
/// is available.
pub open spec fn spec_fallback_font() -> Seq<char> {
    "sans-serif"@
}

/// The font preference list, in order.
pub fn font_preferences() -> (r: Vec<&'static str>)
    ensures
        r@.len() == spec_font_preferences().len(),
        forall|i: int| 0 <= i < r@.len() ==> r@[i]@ == spec_font_preferences()[i],
{
    let mut v: Vec<&'static str> = Vec::new();
    v.push("LXGW WenKai");
    v.push("Microsoft YaHei");
    v.push("SimHei");
    v.push("WenQuanYi Micro Hei");
    v.push("Noto Sans CJK SC");
    v.push("PingFang SC");
    proof {
        assert forall|i: int| 0 <= i < v@.len() implies v@[i]@ == spec_font_preferences()[i] by {
            assert(spec_font_preferences()[i] == v@[i]@);
        }
    }
    v
}

/// Relies on plotters' FontFamily::try_from (through its From<&str>
/// impl): whether the drawing backend accepts `name` as a font family.
/// The result is taken as the family's availability; nothing more is
/// assumed of it.
#[verifier::external_body]
fn font_family_known(name: &str) -> (r: bool) {
    plotters::style::FontFamily::try_from(name).is_ok()
}

/// The index of the first available entry of a preference list, if any:
/// the fallback rule of the resolver, separated from the live backend so
/// it can be exercised on any availability pattern.
pub fn pick_first_available(available: &Vec<bool>) -> (r: Option<usize>)
    ensures
        match r {
            Some(i) => {
                &&& i < available@.len()
                &&& available@[i as int]
                &&& forall|j: int| 0 <= j < i ==> !available@[j]
            },
            None => forall|j: int| 0 <= j < available@.len() ==> !available@[j],
        },
{
    let mut i: usize = 0;
    while i < available.len()
        invariant
            i <= available@.len(),
            forall|j: int| 0 <= j < i ==> !available@[j],
        decreases available@.len() - i,
    {
        if available[i] {
            return Some(i);
        }
        i = i + 1;
    }
    None
}

/// Select the font family for one whole rendering pass: probe each
/// preferred family in order and take the first the backend reports
/// available; fall back to the generic sans-serif family when none is.
/// This never fails — the result is always a usable family name.
pub fn resolve_font() -> (r: String)
    ensures
        (exists|i: int|
            0 <= i < spec_font_preferences().len() && r@ == spec_font_preferences()[i]) || r@
            == spec_fallback_font(),
{
    let prefs = font_preferences();
    let mut available: Vec<bool> = Vec::new();
    let mut i: usize = 0;
    while i < prefs.len()
        invariant
            i <= prefs@.len(),
            available@.len() == i,
        decreases prefs@.len() - i,
    {
        available.push(font_family_known(prefs[i]));
        i = i + 1;
    }
    match pick_first_available(&available) {
        Some(k) => {
            let chosen: &str = prefs[k];
            proof {
                assert(chosen@ == spec_font_preferences()[k as int]);
            }
            chosen.to_owned()
        },
        None => String::from_str("sans-serif"),
    }
}

} // verus!
