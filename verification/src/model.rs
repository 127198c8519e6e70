//! A plain model of the item that `#[derive(Morph)]` is applied to.
//!
//! The derive front end turns the compiler's tokens into these values one for
//! one; every decision of the derive is then taken over this model.
use vstd::prelude::*;

verus! {

/// One token of an attribute's argument list.
///
/// A delimited group counts as one token: the attribute grammar never looks
/// inside one. Groups without delimiters are flattened into their tokens.
#[derive(Clone, Debug, PartialEq, Eq)]
pub enum Tok {
    /// An identifier or keyword, as written (raw identifiers keep `r#`).
    Ident(String),
    /// A punctuation character and whether it is joined to the next one.
    Punct(char, bool),
    /// A literal, as written in the source (quotes and escapes included),
    /// and what has been read of it.
    Lit(String, LitFacts),
    /// A parenthesized, bracketed or braced group.
    Group,
}

/// What has been read of a literal token.
#[derive(Clone, Debug, PartialEq, Eq)]
pub enum LitFacts {
    /// Nothing yet: the literal counts as no string literal.
    Unread,
    /// The literal is not a string literal.
    NotStr,
    /// The literal is a string literal.
    Str(StrFacts),
}

/// What was read of a string literal: its value, and how that value parses.
#[derive(Clone, Debug, PartialEq, Eq)]
pub struct StrFacts {
    /// The literal's value, escapes resolved.
    pub value: String,
    /// `None` when the value does not parse as a path; otherwise whether the
    /// path's last segment carries generic arguments.
    pub path_args: Option<bool>,
    /// Whether the value parses as an expression.
    pub is_expr: bool,
}

pub struct StrFactsView {
    pub value: Seq<char>,
    pub path_args: Option<bool>,
    pub is_expr: bool,
}

impl View for StrFacts {
    type V = StrFactsView;

    open spec fn view(&self) -> StrFactsView {
        StrFactsView { value: self.value@, path_args: self.path_args, is_expr: self.is_expr }
    }
}

/// A copy of the facts of a string literal.
pub fn copy_str_facts(f: &StrFacts) -> (r: StrFacts)
    ensures
        r@ == f@,
{
    StrFacts { value: f.value.clone(), path_args: f.path_args, is_expr: f.is_expr }
}

/// The path of an attribute, such as `morph` or `serde`.
#[derive(Clone, Debug, PartialEq, Eq)]
pub struct AttrPath {
    pub leading_colon: bool,
    pub segments: Vec<String>,
}

/// The shape of an attribute's arguments.
#[derive(Clone, Debug, PartialEq, Eq)]
pub enum AttrArgs {
    /// `#[path]`
    Word,
    /// `#[path = value]`
    NameValue,
    /// `#[path(tokens)]` (or with brackets or braces)
    List(Vec<Tok>),
}

/// An outer attribute of the item, of a variant or of a field.
#[derive(Clone, Debug, PartialEq, Eq)]
pub struct AttrDef {
    pub path: AttrPath,
    pub args: AttrArgs,
}

/// What the derive reads of a field's type: the identifier of the last path
/// segment when the type is a path type (`Option` for `std::option::Option<T>`),
/// and nothing otherwise (references, tuples, arrays, ...).
#[derive(Clone, Debug, PartialEq, Eq)]
pub struct TypeDef {
    pub last_segment: Option<String>,
}

/// A field of a struct or of an enum variant.
#[derive(Clone, Debug, PartialEq, Eq)]
pub struct FieldDef {
    /// The field's name; `None` for a positional field.
    pub ident: Option<String>,
    pub ty: TypeDef,
    pub attrs: Vec<AttrDef>,
}

/// The fields of a struct or of a variant.
#[derive(Clone, Debug, PartialEq, Eq)]
pub enum FieldsDef {
    Named(Vec<FieldDef>),
    Unnamed(Vec<FieldDef>),
    Unit,
}

/// A variant of an enum.
#[derive(Clone, Debug, PartialEq, Eq)]
pub struct VariantDef {
    pub ident: String,
    pub attrs: Vec<AttrDef>,
    pub fields: FieldsDef,
}

/// The body of the item.
#[derive(Clone, Debug, PartialEq, Eq)]
pub enum DataDef {
    Struct(FieldsDef),
    Enum(Vec<VariantDef>),
    Union,
}

/// The whole item: its name, its generics as source text, its attributes and
/// its body.
#[derive(Clone, Debug, PartialEq, Eq)]
pub struct DeriveDef {
    pub ident: String,
    /// Generics for the `impl` header, such as `<'a, T: Clone>`; empty if none.
    pub impl_generics: String,
    /// Generics for naming the type, such as `<'a, T>`; empty if none.
    pub ty_generics: String,
    /// The `where` clause, such as `where T: Send`; empty if none.
    pub where_clause: String,
    pub attrs: Vec<AttrDef>,
    pub data: DataDef,
}

/// Whose attribute or field a diagnostic points at.
#[derive(Clone, Copy, Debug, PartialEq, Eq)]
pub enum Owner {
    /// The item itself.
    Item,
    /// Field `i` of a struct.
    Field(usize),
    /// Variant `v` of an enum.
    Variant(usize),
    /// Field `f` of variant `v`.
    VariantField(usize, usize),
}

/// Where a diagnostic points.
#[derive(Clone, Copy, Debug, PartialEq, Eq)]
pub enum Site {
    /// The item's name.
    Ident,
    /// A struct's field list.
    Fields,
    /// A whole field.
    Field(Owner),
    /// A whole attribute: `(owner, attribute index)`.
    Attr(Owner, usize),
    /// The path of an attribute.
    AttrPath(Owner, usize),
    /// The `=` of a `#[path = value]` attribute.
    AttrEq(Owner, usize),
    /// Tokens `first..=last` of an attribute's argument list; an index equal
    /// to the list's length means the end of the list.
    AttrTokens(Owner, usize, usize, usize),
}

/// A compile-time error of the derive: its message and where it points.
#[derive(Clone, Debug, PartialEq, Eq)]
pub struct Diagnostic {
    pub message: String,
    pub site: Site,
}

/// The view of a diagnostic.
pub struct DiagView {
    pub message: Seq<char>,
    pub site: Site,
}

impl View for Diagnostic {
    type V = DiagView;

    open spec fn view(&self) -> DiagView {
        DiagView { message: self.message@, site: self.site }
    }
}

pub open spec fn diag(message: Seq<char>, site: Site) -> DiagView {
    DiagView { message, site }
}

/// Views a result whose error is a diagnostic.
pub open spec fn res_view<T: View>(r: Result<T, Diagnostic>) -> Result<T::V, DiagView> {
    match r {
        Ok(v) => Ok(v@),
        Err(d) => Err(d@),
    }
}

/// Views a `String`, as a `Result`'s payload.
pub open spec fn str_res_view(r: Result<String, Diagnostic>) -> Result<Seq<char>, DiagView> {
    match r {
        Ok(s) => Ok(s@),
        Err(d) => Err(d@),
    }
}

impl TypeDef {
    /// Whether the type is a path type whose last segment is `target`.
    pub open spec fn spec_is_type_name(&self, target: Seq<char>) -> bool {
        match self.last_segment {
            Some(s) => s@ == target,
            None => false,
        }
    }
}

/// Whether `ty` is a path type whose last segment is named `target`
/// (`Option`, `std::option::Option`, `Option<u32>` all count for `Option`).
pub fn is_type_name(ty: &TypeDef, target: &str) -> (r: bool)
    ensures
        r == ty.spec_is_type_name(target@),
{
    match &ty.last_segment {
        Some(s) => string_eq(s.as_str(), target),
        None => false,
    }
}

/// Character-wise equality of two strings.
pub fn string_eq(a: &str, b: &str) -> (r: bool)
    ensures
        r == (a@ == b@),
{
    let n = a.unicode_len();
    if n != b.unicode_len() {
        return false;
    }
    let mut i: usize = 0;
    while i < n
        invariant
            n == a@.len(),
            n == b@.len(),
            i <= n,
            forall|j: int| 0 <= j < i ==> a@[j] == b@[j],
        decreases n - i,
    {
        if a.get_char(i) != b.get_char(i) {
            return false;
        }
        i = i + 1;
    }
    assert(a@ =~= b@);
    true
}

} // verus!
