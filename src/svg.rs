//! Recoloring of SVG icons for inline embedding. The document is rewritten
//! as text, one rule after another, each rule scanning from left to right
//! and replacing the matches it finds without looking at its own output:
//! the XML declaration and comments are dropped, fixed `width` and `height`
//! attributes are removed, and every `fill` and `stroke` color, as an
//! attribute or inside a style declaration, becomes `currentColor` unless it
//! is `none`.
use vstd::prelude::*;
use crate::text::{
    chars_of, is_space, lemma_next_match_found, lemma_next_of_first, next_match, next_match_exec, next_of, next_of_exec, same_chars, skip_spaces,
    skip_spaces_exec, slice_chars, space, starts_at, starts_at_exec, text_of,
};

verus! {

/// One rewriting rule of the recoloring.
#[derive(Clone, Copy, Debug, PartialEq, Eq, Structural)]
pub enum Rule {
    /// `<?xml ... ?>` is removed.
    XmlDeclaration,
    /// `<!--` up to the first `-->` after it is removed.
    Comment,
    /// White space followed by `width="..."` is removed.
    WidthAttr,
    /// White space followed by `height="..."` is removed.
    HeightAttr,
    /// `fill="..."` becomes `fill="currentColor"` unless the value is `none`.
    FillAttr,
    /// `stroke="..."` becomes `stroke="currentColor"` unless the value is `none`.
    StrokeAttr,
    /// `fill:` and its value, up to `;` or `"`, becomes `fill:currentColor`
    /// unless the value is `none`.
    FillStyle,
    /// `stroke:` and its value, up to `;` or `"`, becomes
    /// `stroke:currentColor` unless the value is `none`.
    StrokeStyle,
}

/// The text that starts a match of the rule.
pub open spec fn rule_pattern(r: Rule) -> Seq<char> {
    match r {
        Rule::XmlDeclaration => "<?xml"@,
        Rule::Comment => "<!--"@,
        Rule::WidthAttr => "width=\""@,
        Rule::HeightAttr => "height=\""@,
        Rule::FillAttr => "fill=\""@,
        Rule::StrokeAttr => "stroke=\""@,
        Rule::FillStyle => "fill:"@,
        Rule::StrokeStyle => "stroke:"@,
    }
}

/// What a recolored match becomes.
pub open spec fn rule_paint(r: Rule) -> Seq<char> {
    match r {
        Rule::FillAttr => "fill=\"currentColor\""@,
        Rule::StrokeAttr => "stroke=\"currentColor\""@,
        Rule::FillStyle => "fill:currentColor"@,
        Rule::StrokeStyle => "stroke:currentColor"@,
        _ => Seq::empty(),
    }
}

/// The marker that tells the renderer to insert the text as markup.
pub open spec fn inline_marker() -> Seq<char> {
    "__INLINE_SVG__"@
}

/// Whether a style value is `none`, followed by white space only.
pub open spec fn is_none_token(v: Seq<char>) -> bool {
    starts_at(v, 0, "none"@) && forall|k: int| "none"@.len() <= k < v.len() ==> is_space(v[k])
}

/// The match of rule `r` that starts at position `i` of `s`, if any: where
/// it ends and what replaces it.
pub open spec fn match_at(s: Seq<char>, i: int, r: Rule) -> Option<(int, Seq<char>)> {
    let p = rule_pattern(r);
    match r {
        Rule::XmlDeclaration => {
            let q = next_of(s, i + p.len(), '?', '?');
            if starts_at(s, i, p) && q + 1 < s.len() && s[q + 1] == '>' {
                Some((q + 2, Seq::empty()))
            } else {
                None
            }
        },
        Rule::Comment => {
            let c = next_match(s, i + p.len(), "-->"@);
            if starts_at(s, i, p) && c < s.len() {
                Some((c + "-->"@.len(), Seq::empty()))
            } else {
                None
            }
        },
        Rule::WidthAttr | Rule::HeightAttr => {
            let j = skip_spaces(s, i);
            let q = next_of(s, j + p.len(), '"', '"');
            if 0 <= i < s.len() && is_space(s[i]) && starts_at(s, j, p) && q < s.len() {
                Some((q + 1, Seq::empty()))
            } else {
                None
            }
        },
        Rule::FillAttr | Rule::StrokeAttr => {
            let q = next_of(s, i + p.len(), '"', '"');
            if starts_at(s, i, p) && q < s.len() {
                let v = s.subrange(i + p.len(), q);
                Some(
                    (
                        q + 1,
                        if v == "none"@ {
                            s.subrange(i, q + 1)
                        } else {
                            rule_paint(r)
                        },
                    ),
                )
            } else {
                None
            }
        },
        Rule::FillStyle | Rule::StrokeStyle => {
            let k = i + p.len();
            let j = skip_spaces(s, k);
            let e = next_of(s, j, ';', '"');
            if starts_at(s, i, p) && e > k {
                let v = s.subrange(j, e);
                Some(
                    (
                        e,
                        if is_none_token(v) {
                            p + v
                        } else {
                            rule_paint(r)
                        },
                    ),
                )
            } else {
                None
            }
        },
    }
}

/// `s` from position `i` on, rewritten by rule `r`.
pub open spec fn rewrite_from(s: Seq<char>, i: int, r: Rule) -> Seq<char>
    decreases s.len() - i,
{
    if i < 0 || i >= s.len() {
        Seq::empty()
    } else {
        match match_at(s, i, r) {
            Some((e, rep)) => if i < e <= s.len() {
                rep + rewrite_from(s, e, r)
            } else {
                seq![s[i]] + rewrite_from(s, i + 1, r)
            },
            None => seq![s[i]] + rewrite_from(s, i + 1, r),
        }
    }
}

/// `s` rewritten by rule `r`.
pub open spec fn rewrite(s: Seq<char>, r: Rule) -> Seq<char> {
    rewrite_from(s, 0, r)
}

/// `s` rewritten by all rules, in their order.
pub open spec fn recolor(s: Seq<char>) -> Seq<char> {
    let a = rewrite(s, Rule::XmlDeclaration);
    let b = rewrite(a, Rule::Comment);
    let c = rewrite(b, Rule::WidthAttr);
    let d = rewrite(c, Rule::HeightAttr);
    let e = rewrite(d, Rule::FillAttr);
    let f = rewrite(e, Rule::StrokeAttr);
    let g = rewrite(f, Rule::FillStyle);
    rewrite(g, Rule::StrokeStyle)
}

/// The pattern and the paint text of a rule.
fn rule_texts(r: Rule) -> (t: (Vec<char>, Vec<char>))
    ensures
        t.0@ == rule_pattern(r),
        t.1@ == rule_paint(r),
{
    match r {
        Rule::XmlDeclaration => (chars_of("<?xml"), Vec::new()),
        Rule::Comment => (chars_of("<!--"), Vec::new()),
        Rule::WidthAttr => (chars_of("width=\""), Vec::new()),
        Rule::HeightAttr => (chars_of("height=\""), Vec::new()),
        Rule::FillAttr => (chars_of("fill=\""), chars_of("fill=\"currentColor\"")),
        Rule::StrokeAttr => (chars_of("stroke=\""), chars_of("stroke=\"currentColor\"")),
        Rule::FillStyle => (chars_of("fill:"), chars_of("fill:currentColor")),
        Rule::StrokeStyle => (chars_of("stroke:"), chars_of("stroke:currentColor")),
    }
}

/// Whether a style value is `none`, followed by white space only.
fn none_token(v: &Vec<char>, none: &Vec<char>) -> (b: bool)
    requires
        none@ == "none"@,
    ensures
        b == is_none_token(v@),
{
    if !starts_at_exec(v, 0, none) {
        return false;
    }
    let mut k = none.len();
    while k < v.len()
        invariant
            none@ == "none"@,
            none@.len() <= k <= v.len(),
            forall|m: int| none@.len() <= m < k ==> is_space(v@[m]),
        decreases v.len() - k,
    {
        if !space(v[k]) {
            assert(!is_space(v@[k as int]));
            return false;
        }
        k = k + 1;
    }
    true
}

/// The match of rule `r` at position `i` of `s`, if any.
fn match_at_exec(
    s: &Vec<char>,
    i: usize,
    r: Rule,
    p: &Vec<char>,
    paint: &Vec<char>,
    none: &Vec<char>,
) -> (m: Option<(usize, Vec<char>)>)
    requires
        i < s.len(),
        p@ == rule_pattern(r),
        paint@ == rule_paint(r),
        none@ == "none"@,
    ensures
        match m {
            Some((e, rep)) => match_at(s@, i as int, r) == Some((e as int, rep@)) && i < e
                <= s.len(),
            None => match_at(s@, i as int, r) is None,
        },
{
    match r {
        Rule::XmlDeclaration => {
            if !starts_at_exec(s, i, p) {
                return None;
            }
            let q = next_of_exec(s, i + p.len(), '?', '?');
            if q < s.len() - 1 && s[q + 1] == '>' {
                Some((q + 2, Vec::new()))
            } else {
                None
            }
        },
        Rule::Comment => {
            if !starts_at_exec(s, i, p) {
                return None;
            }
            let close = chars_of("-->");
            let c = next_match_exec(s, i + p.len(), &close);
            if c < s.len() {
                proof {
                    reveal_strlit("-->");
                    lemma_next_match_found(s@, (i + p.len()) as int, "-->"@);
                }
                Some((c + close.len(), Vec::new()))
            } else {
                None
            }
        },
        Rule::WidthAttr | Rule::HeightAttr => {
            if !space(s[i]) {
                return None;
            }
            let j = skip_spaces_exec(s, i);
            if !starts_at_exec(s, j, p) {
                return None;
            }
            let q = next_of_exec(s, j + p.len(), '"', '"');
            if q < s.len() {
                Some((q + 1, Vec::new()))
            } else {
                None
            }
        },
        Rule::FillAttr | Rule::StrokeAttr => {
            if !starts_at_exec(s, i, p) {
                return None;
            }
            let q = next_of_exec(s, i + p.len(), '"', '"');
            if q < s.len() {
                let v = slice_chars(s, i + p.len(), q);
                if same_chars(&v, none) {
                    Some((q + 1, slice_chars(s, i, q + 1)))
                } else {
                    Some((q + 1, paint.clone()))
                }
            } else {
                None
            }
        },
        Rule::FillStyle | Rule::StrokeStyle => {
            if !starts_at_exec(s, i, p) {
                return None;
            }
            let k = i + p.len();
            let j = skip_spaces_exec(s, k);
            let e = next_of_exec(s, j, ';', '"');
            if e > k {
                let v = slice_chars(s, j, e);
                if none_token(&v, none) {
                    let mut rep = p.clone();
                    let mut tail = v;
                    rep.append(&mut tail);
                    Some((e, rep))
                } else {
                    Some((e, paint.clone()))
                }
            } else {
                None
            }
        },
    }
}

/// Rewrites `s` by rule `r`.
pub fn apply_rule(s: &Vec<char>, r: Rule) -> (out: Vec<char>)
    ensures
        out@ == rewrite(s@, r),
{
    let (p, paint) = rule_texts(r);
    let none = chars_of("none");
    let mut out: Vec<char> = Vec::new();
    let mut i: usize = 0;
    while i < s.len()
        invariant
            i <= s.len(),
            p@ == rule_pattern(r),
            paint@ == rule_paint(r),
            none@ == "none"@,
            out@ + rewrite_from(s@, i as int, r) == rewrite(s@, r),
        decreases s.len() - i,
    {
        let ghost before = out@;
        match match_at_exec(s, i, r, &p, &paint, &none) {
            Some((e, rep)) => {
                let mut rep = rep;
                let ghost rep_v = rep@;
                out.append(&mut rep);
                assert(before + (rep_v + rewrite_from(s@, e as int, r)) =~= out@ + rewrite_from(
                    s@,
                    e as int,
                    r,
                ));
                i = e;
            },
            None => {
                out.push(s[i]);
                assert(before + (seq![s@[i as int]] + rewrite_from(s@, i + 1, r)) =~= out@
                    + rewrite_from(s@, i + 1, r));
                i = i + 1;
            },
        }
    }
    assert(out@ + rewrite_from(s@, i as int, r) =~= out@);
    out
}

/// Rewrites `s` by all rules, in their order.
pub fn recolor_chars(s: &Vec<char>) -> (out: Vec<char>)
    ensures
        out@ == recolor(s@),
{
    let a = apply_rule(s, Rule::XmlDeclaration);
    let b = apply_rule(&a, Rule::Comment);
    let c = apply_rule(&b, Rule::WidthAttr);
    let d = apply_rule(&c, Rule::HeightAttr);
    let e = apply_rule(&d, Rule::FillAttr);
    let f = apply_rule(&e, Rule::StrokeAttr);
    let g = apply_rule(&f, Rule::FillStyle);
    apply_rule(&g, Rule::StrokeStyle)
}

/// The inline form of SVG text: the marker, then the recolored text.
pub fn recolor_svg_text(text: &str) -> (r: String)
    ensures
        r@ == inline_marker() + recolor(text@),
{
    let mut out = chars_of("__INLINE_SVG__");
    let mut body = recolor_chars(&chars_of(text));
    out.append(&mut body);
    text_of(&out)
}

/// Relies on `std::str::from_utf8`: it accepts exactly the valid UTF-8
/// byte sequences, and the text decodes them.
#[verifier::external_body]
fn utf8_text(b: &[u8]) -> (r: Option<String>)
    ensures
        r is Some <==> vstd::utf8::valid_utf8(b@),
        r matches Some(t) ==> t@ == vstd::utf8::decode_utf8(b@),
{
    match std::str::from_utf8(b) {
        Ok(t) => Some(t.to_string()),
        Err(_) => None,
    }
}

/// The inline form of an SVG document given as bytes; `None` when the bytes
/// are not UTF-8.
pub fn process_svg_for_inline(svg_data: &[u8]) -> (r: Option<String>)
    ensures
        r is Some <==> vstd::utf8::valid_utf8(svg_data@),
        r matches Some(t) ==> t@ == inline_marker() + recolor(vstd::utf8::decode_utf8(svg_data@)),
{
    match utf8_text(svg_data) {
        Some(t) => Some(recolor_svg_text(t.as_str())),
        None => None,
    }
}

/// A lone `fill="v"` attribute, with `v` free of quotes, is rewritten to
/// `fill="currentColor"`, but for `fill="none"`, which stays as it is.
pub proof fn lemma_fill_attribute(v: Seq<char>)
    requires
        forall|k: int| 0 <= k < v.len() ==> v[k] != '"',
    ensures
        ({
            let s = rule_pattern(Rule::FillAttr) + v + seq!['"'];
            rewrite(s, Rule::FillAttr) == if v == "none"@ {
                s
            } else {
                "fill=\"currentColor\""@
            }
        }),
{
    let p = rule_pattern(Rule::FillAttr);
    let s = p + v + seq!['"'];
    let q = s.len() - 1;
    assert(s.subrange(0, p.len() as int) =~= p);
    assert forall|m: int| p.len() <= m < q implies s[m] != '"' && s[m] != '"' by {
        assert(s[m] == v[m - p.len()]);
    }
    lemma_next_of_first(s, p.len() as int, q, '"', '"');
    assert(s.subrange(p.len() as int, q) =~= v);
    assert(s.subrange(0, q + 1) =~= s);
    let rep = if v == "none"@ {
        s
    } else {
        "fill=\"currentColor\""@
    };
    assert(rewrite_from(s, q + 1, Rule::FillAttr) == Seq::<char>::empty());
    assert(rep + Seq::<char>::empty() =~= rep);
}

} // verus!
