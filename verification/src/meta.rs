//! The grammar of a `#[morph(...)]` argument list: comma-separated items,
//! each a path optionally followed by what the item's key reads (`= "..."`).
//!
//! Items are read one at a time, in order; reading stops at the first error,
//! so the error reported is the first one met from left to right.
use vstd::prelude::*;
use crate::model::{
    Tok, LitFacts, StrFacts, StrFactsView, Owner, Site, Diagnostic, DiagView, diag, res_view,
    copy_str_facts,
};
use crate::text::{cat, owned};

verus! {

pub open spec fn is_punct(t: Tok, c: char) -> bool {
    match t {
        Tok::Punct(ch, _) => ch == c,
        _ => false,
    }
}

/// Token `p` exists and is the punctuation `c`.
pub open spec fn at_punct(toks: Seq<Tok>, p: int, c: char) -> bool {
    0 <= p < toks.len() && is_punct(toks[p], c)
}

/// Tokens `p` and `p + 1` form `::` (the first `:` joined to the second).
pub open spec fn at_path_sep(toks: Seq<Tok>, p: int) -> bool {
    &&& 0 <= p
    &&& p + 1 < toks.len()
    &&& toks[p] matches Tok::Punct(c, joint) && c == ':' && joint
    &&& is_punct(toks[p + 1], ':')
}

pub open spec fn ident_text(t: Tok) -> Seq<char> {
    match t {
        Tok::Ident(s) => s@,
        _ => Seq::empty(),
    }
}

pub open spec fn is_ascii_digit(c: char) -> bool {
    '0' <= c && c <= '9'
}

/// A literal token whose text starts with a digit (a numeric literal).
pub open spec fn starts_with_digit(t: Tok) -> bool {
    match t {
        Tok::Lit(s, _) => s@.len() > 0 && is_ascii_digit(s@[0]),
        _ => false,
    }
}

/// What was read of a token that is a string literal; `None` for any other
/// token, and for a literal that was not read.
pub open spec fn str_facts_of(t: Tok) -> Option<StrFactsView> {
    match t {
        Tok::Lit(_, LitFacts::Str(f)) => Some(f@),
        _ => None,
    }
}

/// A literal starts at token `p`: a literal token, or `-` followed by a
/// numeric literal.
pub open spec fn at_literal(toks: Seq<Tok>, p: int) -> bool {
    &&& 0 <= p < toks.len()
    &&& {
        ||| toks[p] is Lit
        ||| (is_punct(toks[p], '-') && p + 1 < toks.len() && starts_with_digit(toks[p + 1]))
    }
}

/// The site of token `p` of attribute `a` of `o`.
pub open spec fn tok_site(o: Owner, a: usize, p: int) -> Site {
    Site::AttrTokens(o, a, p as usize, p as usize)
}

/// `msg`, prefixed with "unexpected end of input, " when `p` is past the last
/// token.
pub open spec fn eof_msg(toks: Seq<Tok>, p: int, msg: Seq<char>) -> Seq<char> {
    if p >= toks.len() {
        "unexpected end of input, "@ + msg
    } else {
        msg
    }
}

/// The view of a nested item's path.
pub struct MetaPathView {
    pub leading_colon: bool,
    pub segments: Seq<Seq<char>>,
    /// Index of the token of the first segment.
    pub first: int,
    /// Index of the first token after the path.
    pub end: int,
}

/// A nested item's path, as read from an argument list.
pub struct MetaPath {
    pub leading_colon: bool,
    pub segments: Vec<String>,
    pub first: usize,
    pub end: usize,
}

impl View for MetaPath {
    type V = MetaPathView;

    open spec fn view(&self) -> MetaPathView {
        MetaPathView {
            leading_colon: self.leading_colon,
            segments: self.segments@.map_values(|s: String| s@),
            first: self.first as int,
            end: self.end as int,
        }
    }
}

/// Whether `path` is the single identifier `name` (no leading `::`).
pub open spec fn is_ident_path(path: MetaPathView, name: Seq<char>) -> bool {
    &&& !path.leading_colon
    &&& path.segments.len() == 1
    &&& path.segments[0] == name
}

/// Reads `:: ident` pairs from token `p` on, after the segments `acc`.
pub open spec fn scan_segments(
    toks: Seq<Tok>,
    p: int,
    acc: Seq<Seq<char>>,
    o: Owner,
    a: usize,
) -> Result<(Seq<Seq<char>>, int), DiagView>
    decreases toks.len() - p,
{
    if at_path_sep(toks, p) {
        if p + 2 < toks.len() && toks[p + 2] is Ident {
            scan_segments(toks, p + 3, acc.push(ident_text(toks[p + 2])), o, a)
        } else {
            Err(diag(eof_msg(toks, p + 2, "expected ident"@), tok_site(o, a, p + 2)))
        }
    } else {
        Ok((acc, p))
    }
}

/// Reads the path of a nested item starting at token `p`: an optional
/// leading `::`, then identifiers (keywords included) joined by `::`.
pub open spec fn spec_parse_meta_path(toks: Seq<Tok>, p: int, o: Owner, a: usize) -> Result<
    MetaPathView,
    DiagView,
> {
    let lead = at_path_sep(toks, p);
    let q = if lead {
        p + 2
    } else {
        p
    };
    if 0 <= q < toks.len() && toks[q] is Ident {
        match scan_segments(toks, q + 1, seq![ident_text(toks[q])], o, a) {
            Ok((segs, e)) => Ok(MetaPathView { leading_colon: lead, segments: segs, first: q, end: e }),
            Err(d) => Err(d),
        }
    } else if q >= toks.len() {
        Err(diag("unexpected end of input, expected nested attribute"@, tok_site(o, a, q)))
    } else if at_literal(toks, q) {
        Err(diag("unexpected literal in nested attribute, expected ident"@, tok_site(o, a, q)))
    } else {
        Err(diag("unexpected token in nested attribute, expected ident"@, tok_site(o, a, q)))
    }
}

/// Expects `=` at token `p`; the position after it.
pub open spec fn spec_expect_eq(toks: Seq<Tok>, p: int, o: Owner, a: usize) -> Result<int, DiagView> {
    if at_punct(toks, p, '=') {
        Ok(p + 1)
    } else {
        Err(diag("expected `=`"@, tok_site(o, a, p)))
    }
}

/// Expects a string literal at token `p`; what was read of it and the
/// position after it.
pub open spec fn spec_expect_str(toks: Seq<Tok>, p: int, o: Owner, a: usize) -> Result<
    (StrFactsView, int),
    DiagView,
> {
    if 0 <= p < toks.len() && str_facts_of(toks[p]) is Some {
        Ok((str_facts_of(toks[p]).unwrap(), p + 1))
    } else {
        Err(diag(eof_msg(toks, p, "expected string literal"@), tok_site(o, a, p)))
    }
}

/// Expects `= "literal"` at token `p`: what was read of the literal and the
/// position after it. The literal, if any, is token `p + 1`.
pub open spec fn spec_value_str(toks: Seq<Tok>, p: int, o: Owner, a: usize) -> Result<
    (StrFactsView, int),
    DiagView,
> {
    match spec_expect_eq(toks, p, o, a) {
        Ok(q) => spec_expect_str(toks, q, o, a),
        Err(d) => Err(d),
    }
}

/// What follows an item that ends at token `q`: the end of the list
/// (`None`), or a comma and the next item's start (`Some`). A comma at the
/// very end ends the list too.
pub open spec fn spec_after_item(toks: Seq<Tok>, q: int, o: Owner, a: usize) -> Result<
    Option<int>,
    DiagView,
> {
    if q >= toks.len() {
        Ok(None)
    } else if at_punct(toks, q, ',') {
        if q + 1 >= toks.len() {
            Ok(None)
        } else {
            Ok(Some(q + 1))
        }
    } else {
        Err(diag("expected `,`"@, tok_site(o, a, q)))
    }
}

pub proof fn lemma_scan_segments_advances(
    toks: Seq<Tok>,
    p: int,
    acc: Seq<Seq<char>>,
    o: Owner,
    a: usize,
)
    requires
        0 <= p <= toks.len(),
    ensures
        scan_segments(toks, p, acc, o, a) matches Ok((segs, e)) ==> p <= e <= toks.len() && segs.len() >= acc.len(),
    decreases toks.len() - p,
{
    if at_path_sep(toks, p) {
        if p + 2 < toks.len() && toks[p + 2] is Ident {
            lemma_scan_segments_advances(toks, p + 3, acc.push(ident_text(toks[p + 2])), o, a);
        }
    }
}

/// A path read from token `p` ends after `p` and within the list.
pub proof fn lemma_meta_path_advances(toks: Seq<Tok>, p: int, o: Owner, a: usize)
    requires
        0 <= p <= toks.len(),
    ensures
        spec_parse_meta_path(toks, p, o, a) matches Ok(m) ==> p <= m.first < m.end <= toks.len(),
{
    let lead = at_path_sep(toks, p);
    let q = if lead {
        p + 2
    } else {
        p
    };
    if 0 <= q < toks.len() && toks[q] is Ident {
        lemma_scan_segments_advances(toks, q + 1, seq![ident_text(toks[q])], o, a);
    }
}

/// The site of token `p` of attribute `a` of `o`.
pub fn token_site(o: Owner, a: usize, p: usize) -> (r: Site)
    ensures
        r == tok_site(o, a, p as int),
{
    Site::AttrTokens(o, a, p, p)
}

/// `msg`, prefixed with "unexpected end of input, " when `at_end`.
pub fn eof_message(toks: &Vec<Tok>, p: usize, msg: &str) -> (r: String)
    ensures
        r@ == eof_msg(toks@, p as int, msg@),
{
    if p >= toks.len() {
        cat("unexpected end of input, ", msg)
    } else {
        owned(msg)
    }
}

/// Whether token `p` is the punctuation `c`.
pub fn punct_at(toks: &Vec<Tok>, p: usize, c: char) -> (r: bool)
    ensures
        r == at_punct(toks@, p as int, c),
{
    if p < toks.len() {
        match &toks[p] {
            Tok::Punct(ch, _) => *ch == c,
            _ => false,
        }
    } else {
        false
    }
}

/// Whether tokens `p` and `p + 1` form `::`.
pub fn path_sep_at(toks: &Vec<Tok>, p: usize) -> (r: bool)
    ensures
        r == at_path_sep(toks@, p as int),
{
    if p < toks.len() && p + 1 < toks.len() {
        let first = match &toks[p] {
            Tok::Punct(c, joint) => *c == ':' && *joint,
            _ => false,
        };
        first && punct_at(toks, p + 1, ':')
    } else {
        false
    }
}

/// Whether a literal starts at token `p`.
pub fn literal_at(toks: &Vec<Tok>, p: usize) -> (r: bool)
    ensures
        r == at_literal(toks@, p as int),
{
    if p >= toks.len() {
        return false;
    }
    match &toks[p] {
        Tok::Lit(_, _) => true,
        Tok::Punct(c, _) => {
            if *c == '-' && p + 1 < toks.len() {
                match &toks[p + 1] {
                    Tok::Lit(t, _) => t.unicode_len() > 0 && {
                        let d = t.as_str().get_char(0);
                        '0' <= d && d <= '9'
                    },
                    _ => false,
                }
            } else {
                false
            }
        },
        _ => false,
    }
}

/// Reads the path of the nested item that starts at token `p`.
pub fn parse_meta_path(toks: &Vec<Tok>, p: usize, o: Owner, a: usize) -> (r: Result<
    MetaPath,
    Diagnostic,
>)
    requires
        p <= toks.len(),
    ensures
        res_view(r) == spec_parse_meta_path(toks@, p as int, o, a),
        r matches Ok(m) ==> p <= m.first < m.end <= toks.len(),
{
    proof {
        lemma_meta_path_advances(toks@, p as int, o, a);
    }
    let lead = path_sep_at(toks, p);
    let q = if lead {
        p + 2
    } else {
        p
    };
    if q < toks.len() {
        if let Tok::Ident(first) = &toks[q] {
            let mut segments: Vec<String> = Vec::new();
            segments.push(first.clone());
            let mut i = q + 1;
            assert(segments@.map_values(|s: String| s@) =~= seq![ident_text(toks@[q as int])]);
            while path_sep_at(toks, i)
                invariant
                    q < i <= toks.len(),
                    q + 1 <= i,
                    p <= toks.len(),
                    lead == at_path_sep(toks@, p as int),
                    q == (if lead { p + 2 } else { p as int }),
                    toks@[q as int] is Ident,
                    scan_segments(toks@, q as int + 1, seq![ident_text(toks@[q as int])], o, a)
                        == scan_segments(toks@, i as int, segments@.map_values(|s: String| s@), o, a),
                decreases toks.len() - i,
            {
                if i + 2 < toks.len() {
                    if let Tok::Ident(seg) = &toks[i + 2] {
                        let ghost before = segments@.map_values(|s: String| s@);
                        segments.push(seg.clone());
                        assert(segments@.map_values(|s: String| s@) =~= before.push(ident_text(toks@[i + 2])));
                        i = i + 3;
                        continue;
                    }
                }
                let msg = eof_message(toks, i + 2, "expected ident");
                return Err(Diagnostic { message: msg, site: token_site(o, a, i + 2) });
            }
            return Ok(MetaPath { leading_colon: lead, segments, first: q, end: i });
        }
    }
    if q >= toks.len() {
        Err(Diagnostic {
            message: owned("unexpected end of input, expected nested attribute"),
            site: token_site(o, a, q),
        })
    } else if literal_at(toks, q) {
        Err(Diagnostic {
            message: owned("unexpected literal in nested attribute, expected ident"),
            site: token_site(o, a, q),
        })
    } else {
        Err(Diagnostic {
            message: owned("unexpected token in nested attribute, expected ident"),
            site: token_site(o, a, q),
        })
    }
}

/// Whether `path` is the single identifier `name`.
pub fn path_is_ident(path: &MetaPath, name: &str) -> (r: bool)
    ensures
        r == is_ident_path(path@, name@),
{
    if path.leading_colon || path.segments.len() != 1 {
        false
    } else {
        crate::model::string_eq(path.segments[0].as_str(), name)
    }
}

/// Expects `=` at token `p`.
pub fn expect_eq(toks: &Vec<Tok>, p: usize, o: Owner, a: usize) -> (r: Result<usize, Diagnostic>)
    requires
        p <= toks.len(),
    ensures
        match r {
            Ok(q) => spec_expect_eq(toks@, p as int, o, a) == Ok::<int, DiagView>(q as int),
            Err(d) => spec_expect_eq(toks@, p as int, o, a) == Err::<int, DiagView>(d@),
        },
{
    if punct_at(toks, p, '=') {
        Ok(p + 1)
    } else {
        Err(Diagnostic { message: owned("expected `=`"), site: token_site(o, a, p) })
    }
}

/// Expects a string literal at token `p`: what was read of it and the
/// position after it.
pub fn expect_str(toks: &Vec<Tok>, p: usize, o: Owner, a: usize) -> (r: Result<
    (StrFacts, usize),
    Diagnostic,
>)
    requires
        p <= toks.len(),
    ensures
        match r {
            Ok((f, q)) => spec_expect_str(toks@, p as int, o, a) == Ok::<(StrFactsView, int), DiagView>((f@, q as int)),
            Err(d) => spec_expect_str(toks@, p as int, o, a) == Err::<(StrFactsView, int), DiagView>(d@),
        },
{
    if p < toks.len() {
        if let Tok::Lit(_, LitFacts::Str(f)) = &toks[p] {
            return Ok((copy_str_facts(f), p + 1));
        }
    }
    Err(Diagnostic { message: eof_message(toks, p, "expected string literal"), site: token_site(o, a, p) })
}

/// Expects `= "literal"` at token `p`.
pub fn value_str(toks: &Vec<Tok>, p: usize, o: Owner, a: usize) -> (r: Result<
    (StrFacts, usize),
    Diagnostic,
>)
    requires
        p <= toks.len(),
    ensures
        match r {
            Ok((f, q)) => spec_value_str(toks@, p as int, o, a) == Ok::<(StrFactsView, int), DiagView>((f@, q as int))
                && q == p + 2,
            Err(d) => spec_value_str(toks@, p as int, o, a) == Err::<(StrFactsView, int), DiagView>(d@),
        },
{
    let q = expect_eq(toks, p, o, a)?;
    expect_str(toks, q, o, a)
}

/// What follows an item that ends at token `q`.
pub fn after_item(toks: &Vec<Tok>, q: usize, o: Owner, a: usize) -> (r: Result<
    Option<usize>,
    Diagnostic,
>)
    ensures
        match r {
            Ok(None) => spec_after_item(toks@, q as int, o, a) == Ok::<Option<int>, DiagView>(None),
            Ok(Some(n)) => spec_after_item(toks@, q as int, o, a) == Ok::<Option<int>, DiagView>(Some(n as int))
                && n == q + 1 && n < toks.len(),
            Err(d) => spec_after_item(toks@, q as int, o, a) == Err::<Option<int>, DiagView>(d@),
        },
{
    if q >= toks.len() {
        Ok(None)
    } else if punct_at(toks, q, ',') {
        if q + 1 >= toks.len() {
            Ok(None)
        } else {
            Ok(Some(q + 1))
        }
    } else {
        Err(Diagnostic { message: owned("expected `,`"), site: token_site(o, a, q) })
    }
}

} // verus!
