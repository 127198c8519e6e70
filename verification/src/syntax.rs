//! The parts of Rust's syntax that the derive reads through outside crates:
//! the value of a string literal, whether a string is a path (and whether its
//! last segment carries generic arguments), whether a string is an expression
//! (all through `syn`), and whether a string is an identifier (through the
//! Unicode identifier tables of `unicode-ident`).
//!
//! What `syn` answers depends on the lexer it runs on, so it is recorded in
//! the model (`LitFacts`) by `read_literals`, and every decision of the
//! derive is then taken over what was recorded.
use vstd::prelude::*;

verus! {

/// Whether `r` is a possible answer of reading `text` as a string literal
/// (its value, or `None` when it is not one). A relation, not a function:
/// the answer also depends on the lexer the call runs on.
pub uninterp spec fn lit_value_outcome(text: Seq<char>, r: Option<Seq<char>>) -> bool;

/// Whether `r` is a possible answer of reading `text` as a path (`None` when
/// it is not one, else whether its last segment has generic arguments).
pub uninterp spec fn path_shape_outcome(text: Seq<char>, r: Option<bool>) -> bool;

/// Whether `r` is a possible answer of asking if `text` is an expression.
pub uninterp spec fn expr_outcome(text: Seq<char>, r: bool) -> bool;

pub open spec fn opt_seq(r: Option<String>) -> Option<Seq<char>> {
    match r {
        Some(v) => Some(v@),
        None => None,
    }
}

/// Calls `syn::parse_str::<syn::LitStr>` on `text` and, on success,
/// `syn::LitStr::value`. The contract claims only that the answer is one
/// that reading `text` can give: how `text` is lexed depends on where the
/// call runs (inside a procedural macro the compiler lexes it, by the edition
/// of the crate being compiled), so no single answer is named.
#[verifier::external_body]
pub(crate) fn string_literal_value(text: &str) -> (r: Option<String>)
    ensures
        lit_value_outcome(text@, opt_seq(r)),
{
    match syn::parse_str::<syn::LitStr>(text) {
        Ok(lit) => Some(lit.value()),
        Err(_) => None,
    }
}

/// Calls `syn::parse_str::<syn::Path>` on `text`: `None` when it fails,
/// otherwise whether the last segment's `syn::PathArguments` are non-empty.
/// The contract claims only that the answer is one that reading `text` as a
/// path can give, for the reason given at `string_literal_value`.
#[verifier::external_body]
pub(crate) fn path_shape(text: &str) -> (r: Option<bool>)
    ensures
        path_shape_outcome(text@, r),
{
    match syn::parse_str::<syn::Path>(text) {
        Ok(path) => match path.segments.last() {
            Some(seg) => Some(!seg.arguments.is_empty()),
            None => Some(false),
        },
        Err(_) => None,
    }
}

/// Calls `syn::parse_str::<syn::Expr>` on `text` and tells whether it
/// succeeded. The contract claims only that the answer is one that reading
/// `text` as an expression can give, for the reason given at
/// `string_literal_value`.
#[verifier::external_body]
pub(crate) fn expr_parses(text: &str) -> (r: bool)
    ensures
        expr_outcome(text@, r),
{
    syn::parse_str::<syn::Expr>(text).is_ok()
}

/// Whether `c` has the Unicode property XID_Start.
pub uninterp spec fn xid_start(c: char) -> bool;

/// Whether `c` has the Unicode property XID_Continue.
pub uninterp spec fn xid_continue(c: char) -> bool;

/// An ASCII letter.
pub open spec fn ascii_letter(c: char) -> bool {
    ('A' <= c && c <= 'Z') || ('a' <= c && c <= 'z')
}

/// Whether `c` may start an identifier: an ASCII letter among ASCII
/// characters, XID_Start beyond them.
pub open spec fn id_start(c: char) -> bool {
    if c <= '\x7f' {
        ascii_letter(c)
    } else {
        xid_start(c)
    }
}

/// Whether `c` may continue an identifier: an ASCII letter, digit or `_`
/// among ASCII characters, XID_Continue beyond them.
pub open spec fn id_continue(c: char) -> bool {
    if c <= '\x7f' {
        ascii_letter(c) || ascii_digit(c) || c == '_'
    } else {
        xid_continue(c)
    }
}

/// Calls `unicode_ident::is_xid_start`. The contract claims what its ASCII
/// table (`ASCII_START`) holds, the letters, and beyond ASCII only that the
/// result is the named function `xid_start` of the character.
#[verifier::external_body]
pub fn is_xid_start(c: char) -> (r: bool)
    ensures
        r == (if c <= '\x7f' { ascii_letter(c) } else { xid_start(c) }),
{
    unicode_ident::is_xid_start(c)
}

/// Calls `unicode_ident::is_xid_continue`. The contract claims what its
/// ASCII table (`ASCII_CONTINUE`) holds, letters, digits and `_`, and beyond
/// ASCII only that the result is the named function `xid_continue` of the
/// character.
#[verifier::external_body]
pub fn is_xid_continue(c: char) -> (r: bool)
    ensures
        r == (if c <= '\x7f' { ascii_letter(c) || ascii_digit(c) || c == '_' } else { xid_continue(c) }),
{
    unicode_ident::is_xid_continue(c)
}

pub open spec fn ascii_digit(c: char) -> bool {
    '0' <= c && c <= '9'
}

/// Whether `s` can be made into an identifier (a keyword or a legal variable
/// name): not empty, not a number, a first character that is `_` or may
/// start an identifier, and characters after it that may continue one.
pub open spec fn is_ident_text(s: Seq<char>) -> bool {
    &&& s.len() > 0
    &&& !(forall|i: int| 0 <= i < s.len() ==> ascii_digit(#[trigger] s[i]))
    &&& (s[0] == '_' || id_start(s[0]))
    &&& forall|i: int| 1 <= i < s.len() ==> id_continue(#[trigger] s[i])
}

/// Whether `s` can be made into an identifier.
pub fn is_identifier(s: &str) -> (r: bool)
    ensures
        r == is_ident_text(s@),
{
    let n = s.unicode_len();
    if n == 0 {
        return false;
    }
    let mut all_digits = true;
    let mut i: usize = 0;
    while i < n
        invariant
            n == s@.len(),
            i <= n,
            all_digits == (forall|j: int| 0 <= j < i ==> ascii_digit(#[trigger] s@[j])),
        decreases n - i,
    {
        let c = s.get_char(i);
        if !('0' <= c && c <= '9') {
            all_digits = false;
        }
        i = i + 1;
    }
    if all_digits {
        return false;
    }
    let first = s.get_char(0);
    if !(first == '_' || is_xid_start(first)) {
        return false;
    }
    let mut k: usize = 1;
    while k < n
        invariant
            n == s@.len(),
            1 <= k <= n,
            forall|j: int| 1 <= j < k ==> id_continue(#[trigger] s@[j]),
        decreases n - k,
    {
        if !is_xid_continue(s.get_char(k)) {
            return false;
        }
        k = k + 1;
    }
    true
}

} // verus!
