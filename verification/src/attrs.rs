//! How the derive reads `#[morph(...)]` attributes on the item, on its fields
//! and on enum variants.
//!
//! Attributes are read in order; within a list, items are read in order, and
//! a key given twice keeps its last value. Attributes with another path than
//! `morph` are ignored.
use vstd::prelude::*;
use crate::model::{
    AttrArgs, AttrDef, DeriveDef, Diagnostic, DiagView, FieldDef, Owner, Site, Tok, VariantDef,
    diag, res_view, str_res_view, string_eq,
};
use crate::meta::{
    MetaPath, MetaPathView, after_item, is_ident_path, lemma_meta_path_advances,
    parse_meta_path, path_is_ident, spec_after_item, spec_parse_meta_path, spec_value_str,
    tok_site, token_site, value_str,
};
use crate::text::owned;
use crate::syntax::{is_ident_text, is_identifier};

verus! {

// ---------------------------------------------------------------------------
// Messages

pub open spec fn msg_attr_word() -> Seq<char> {
    "expected attribute arguments in parentheses: #[morph(...)]"@
}

pub open spec fn msg_attr_name_value() -> Seq<char> {
    "expected parentheses: #[morph(...)]"@
}

pub open spec fn msg_field_key() -> Seq<char> {
    "Unsupported field morph key. Expected one of: from, with, default, skip"@
}

pub open spec fn msg_with_path() -> Seq<char> {
    "Malformed #[morph(with = \"...\")] attribute. `with` must be a valid Rust path string."@
}

pub open spec fn msg_default_expr() -> Seq<char> {
    "Malformed #[morph(default = \"...\")] expression."@
}

pub open spec fn msg_field_from_ident() -> Seq<char> {
    "Malformed #[morph(from = \"...\")] attribute. `from` must be a valid Rust identifier."@
}

pub open spec fn msg_skip_value() -> Seq<char> {
    "`skip` does not take a value."@
}

pub open spec fn msg_skip_with() -> Seq<char> {
    "`skip` and `with` cannot be used together."@
}

// ---------------------------------------------------------------------------
// Attribute paths

/// Whether an attribute is a `#[morph ...]` attribute (its path is the single
/// identifier `morph`).
pub open spec fn is_morph_attr(at: AttrDef) -> bool {
    &&& !at.path.leading_colon
    &&& at.path.segments@.len() == 1
    &&& at.path.segments@[0]@ == "morph"@
}

pub fn attr_is_morph(at: &AttrDef) -> (r: bool)
    ensures
        r == is_morph_attr(*at),
{
    !at.path.leading_colon && at.path.segments.len() == 1 && string_eq(
        at.path.segments[0].as_str(),
        "morph",
    )
}

/// The error for a `#[morph]` or `#[morph = ...]` attribute, whose arguments
/// are not a list.
pub open spec fn spec_not_list_error(at: AttrDef, o: Owner, i: int) -> DiagView {
    match at.args {
        AttrArgs::Word => diag(msg_attr_word(), Site::AttrPath(o, i as usize)),
        _ => diag(msg_attr_name_value(), Site::AttrEq(o, i as usize)),
    }
}

pub fn not_list_error(at: &AttrDef, o: Owner, i: usize) -> (r: Diagnostic)
    requires
        !(at.args is List),
    ensures
        r@ == spec_not_list_error(*at, o, i as int),
{
    match &at.args {
        AttrArgs::Word => Diagnostic {
            message: owned("expected attribute arguments in parentheses: #[morph(...)]"),
            site: Site::AttrPath(o, i),
        },
        _ => Diagnostic {
            message: owned("expected parentheses: #[morph(...)]"),
            site: Site::AttrEq(o, i),
        },
    }
}

// ---------------------------------------------------------------------------
// Field attributes

/// How a strict field falls back when its source value is `None`.
pub enum DefaultKind {
    /// `#[morph(default)]`: `Default::default()`.
    TraitDefault,
    /// `#[morph(default = "expr")]`: the expression, as written.
    Expr(String),
}

pub enum DefaultKindView {
    TraitDefault,
    Expr(Seq<char>),
}

impl View for DefaultKind {
    type V = DefaultKindView;

    open spec fn view(&self) -> DefaultKindView {
        match self {
            DefaultKind::TraitDefault => DefaultKindView::TraitDefault,
            DefaultKind::Expr(e) => DefaultKindView::Expr(e@),
        }
    }
}

/// What the `#[morph(...)]` attributes of a field say.
pub struct FieldMorphAttrs {
    /// `from = "name"`: the source field's name.
    pub from: Option<String>,
    /// `with = "path"`: the transform function.
    pub with_path: Option<String>,
    /// `default` or `default = "expr"`.
    pub default_kind: Option<DefaultKind>,
    /// `skip`.
    pub skip: bool,
}

pub struct FieldAttrsView {
    pub from: Option<Seq<char>>,
    pub with_path: Option<Seq<char>>,
    pub default_kind: Option<DefaultKindView>,
    pub skip: bool,
}

pub open spec fn opt_str_view(o: Option<String>) -> Option<Seq<char>> {
    match o {
        Some(s) => Some(s@),
        None => None,
    }
}

impl View for FieldMorphAttrs {
    type V = FieldAttrsView;

    open spec fn view(&self) -> FieldAttrsView {
        FieldAttrsView {
            from: opt_str_view(self.from),
            with_path: opt_str_view(self.with_path),
            default_kind: match self.default_kind {
                Some(k) => Some(k@),
                None => None,
            },
            skip: self.skip,
        }
    }
}

/// A field without `#[morph(...)]` attributes.
pub open spec fn no_field_attrs() -> FieldAttrsView {
    FieldAttrsView { from: None, with_path: None, default_kind: None, skip: false }
}

/// Reads the item whose path is `path`, within a field's attribute list.
pub open spec fn spec_field_item(
    toks: Seq<Tok>,
    path: MetaPathView,
    acc: FieldAttrsView,
    o: Owner,
    a: usize,
) -> Result<(FieldAttrsView, int), DiagView> {
    let p = path.end;
    let key_site = Site::AttrTokens(o, a, path.first as usize, (p - 1) as usize);
    if is_ident_path(path, "from"@) {
        match spec_value_str(toks, p, o, a) {
            Ok((f, q)) => if !is_ident_text(f.value) {
                Err(diag(msg_field_from_ident(), tok_site(o, a, p + 1)))
            } else {
                Ok((FieldAttrsView { from: Some(f.value), ..acc }, q))
            },
            Err(d) => Err(d),
        }
    } else if is_ident_path(path, "with"@) {
        match spec_value_str(toks, p, o, a) {
            Ok((f, q)) => if f.path_args is None {
                Err(diag(msg_with_path(), tok_site(o, a, p + 1)))
            } else {
                Ok((FieldAttrsView { with_path: Some(f.value), ..acc }, q))
            },
            Err(d) => Err(d),
        }
    } else if is_ident_path(path, "default"@) {
        if p >= toks.len() {
            Ok((FieldAttrsView { default_kind: Some(DefaultKindView::TraitDefault), ..acc }, p))
        } else {
            match spec_value_str(toks, p, o, a) {
                Ok((f, q)) => if !f.is_expr {
                    Err(diag(msg_default_expr(), tok_site(o, a, p + 1)))
                } else {
                    Ok((FieldAttrsView { default_kind: Some(DefaultKindView::Expr(f.value)), ..acc }, q))
                },
                Err(d) => Err(d),
            }
        }
    } else if is_ident_path(path, "skip"@) {
        if p < toks.len() {
            Err(diag(msg_skip_value(), key_site))
        } else {
            Ok((FieldAttrsView { skip: true, ..acc }, p))
        }
    } else {
        Err(diag(msg_field_key(), key_site))
    }
}

pub proof fn lemma_field_item_advances(
    toks: Seq<Tok>,
    path: MetaPathView,
    acc: FieldAttrsView,
    o: Owner,
    a: usize,
)
    ensures
        spec_field_item(toks, path, acc, o, a) matches Ok((_, q)) ==> q >= path.end,
{
}

/// Reads a field's attribute list from token `p` on, starting from `acc`.
pub open spec fn spec_field_list(
    toks: Seq<Tok>,
    p: int,
    acc: FieldAttrsView,
    o: Owner,
    a: usize,
) -> Result<FieldAttrsView, DiagView>
    decreases toks.len() - p,
{
    if p < 0 || p >= toks.len() {
        Ok(acc)
    } else {
        match spec_parse_meta_path(toks, p, o, a) {
            Err(d) => Err(d),
            Ok(path) => match spec_field_item(toks, path, acc, o, a) {
                Err(d) => Err(d),
                Ok((acc2, q)) => match spec_after_item(toks, q, o, a) {
                    Err(d) => Err(d),
                    Ok(None) => Ok(acc2),
                    Ok(Some(n)) => {
                        proof {
                            lemma_meta_path_advances(toks, p, o, a);
                            lemma_field_item_advances(toks, path, acc, o, a);
                        }
                        spec_field_list(toks, n, acc2, o, a)
                    },
                },
            },
        }
    }
}

/// Reads the attributes `attrs[i..]` of a field, starting from `acc`.
pub open spec fn spec_field_attrs_from(
    attrs: Seq<AttrDef>,
    i: int,
    acc: FieldAttrsView,
    o: Owner,
) -> Result<FieldAttrsView, DiagView>
    decreases attrs.len() - i,
{
    if i < 0 || i >= attrs.len() {
        Ok(acc)
    } else if !is_morph_attr(attrs[i]) {
        spec_field_attrs_from(attrs, i + 1, acc, o)
    } else {
        match attrs[i].args {
            AttrArgs::List(toks) => match spec_field_list(toks@, 0, acc, o, i as usize) {
                Err(d) => Err(d),
                Ok(acc2) => spec_field_attrs_from(attrs, i + 1, acc2, o),
            },
            _ => Err(spec_not_list_error(attrs[i], o, i)),
        }
    }
}

/// What the `#[morph(...)]` attributes of `field` (owned by `o`) say, or the
/// first error in them. `skip` together with `with` is an error.
pub open spec fn spec_parse_field_morph_attrs(field: FieldDef, o: Owner) -> Result<
    FieldAttrsView,
    DiagView,
> {
    match spec_field_attrs_from(field.attrs@, 0, no_field_attrs(), o) {
        Err(d) => Err(d),
        Ok(a) => if a.skip && a.with_path is Some {
            Err(diag(msg_skip_with(), Site::Field(o)))
        } else {
            Ok(a)
        },
    }
}

fn field_item(
    toks: &Vec<Tok>,
    path: &MetaPath,
    acc: FieldMorphAttrs,
    o: Owner,
    a: usize,
) -> (r: Result<(FieldMorphAttrs, usize), Diagnostic>)
    requires
        path.first < path.end <= toks.len(),
    ensures
        match r {
            Ok((acc2, q)) => spec_field_item(toks@, path@, acc@, o, a) == Ok::<
                (FieldAttrsView, int),
                DiagView,
            >((acc2@, q as int)),
            Err(d) => spec_field_item(toks@, path@, acc@, o, a) == Err::<
                (FieldAttrsView, int),
                DiagView,
            >(d@),
        },
{
    let p = path.end;
    let key_site = Site::AttrTokens(o, a, path.first, p - 1);
    if path_is_ident(path, "from") {
        let (f, q) = value_str(toks, p, o, a)?;
        if !is_identifier(f.value.as_str()) {
            Err(
                Diagnostic {
                    message: owned(
                        "Malformed #[morph(from = \"...\")] attribute. `from` must be a valid Rust identifier.",
                    ),
                    site: token_site(o, a, p + 1),
                },
            )
        } else {
            Ok((FieldMorphAttrs { from: Some(f.value), ..acc }, q))
        }
    } else if path_is_ident(path, "with") {
        let (f, q) = value_str(toks, p, o, a)?;
        if f.path_args.is_none() {
            Err(
                Diagnostic {
                    message: owned(
                        "Malformed #[morph(with = \"...\")] attribute. `with` must be a valid Rust path string.",
                    ),
                    site: token_site(o, a, p + 1),
                },
            )
        } else {
            Ok((FieldMorphAttrs { with_path: Some(f.value), ..acc }, q))
        }
    } else if path_is_ident(path, "default") {
        if p >= toks.len() {
            Ok((FieldMorphAttrs { default_kind: Some(DefaultKind::TraitDefault), ..acc }, p))
        } else {
            let (f, q) = value_str(toks, p, o, a)?;
            if !f.is_expr {
                Err(
                    Diagnostic {
                        message: owned("Malformed #[morph(default = \"...\")] expression."),
                        site: token_site(o, a, p + 1),
                    },
                )
            } else {
                Ok((FieldMorphAttrs { default_kind: Some(DefaultKind::Expr(f.value)), ..acc }, q))
            }
        }
    } else if path_is_ident(path, "skip") {
        if p < toks.len() {
            Err(Diagnostic { message: owned("`skip` does not take a value."), site: key_site })
        } else {
            Ok((FieldMorphAttrs { skip: true, ..acc }, p))
        }
    } else {
        Err(
            Diagnostic {
                message: owned(
                    "Unsupported field morph key. Expected one of: from, with, default, skip",
                ),
                site: key_site,
            },
        )
    }
}

#[verifier::loop_isolation(false)]
fn field_list(toks: &Vec<Tok>, acc: FieldMorphAttrs, o: Owner, a: usize) -> (r: Result<
    FieldMorphAttrs,
    Diagnostic,
>)
    ensures
        res_view(r) == spec_field_list(toks@, 0, acc@, o, a),
{
    let ghost total = spec_field_list(toks@, 0, acc@, o, a);
    let mut acc = acc;
    let mut p: usize = 0;
    if toks.len() == 0 {
        return Ok(acc);
    }
    loop
        invariant
            p < toks.len(),
            total == spec_field_list(toks@, p as int, acc@, o, a),
        decreases toks.len() - p,
    {
        let path = parse_meta_path(toks, p, o, a)?;
        let (acc2, q) = field_item(toks, &path, acc, o, a)?;
        match after_item(toks, q, o, a)? {
            None => {
                return Ok(acc2);
            },
            Some(n) => {
                acc = acc2;
                p = n;
            },
        }
    }
}

/// What the `#[morph(...)]` attributes of `field` say, or the first error in
/// them; `o` names the field in diagnostics.
#[verifier::loop_isolation(false)]
pub fn parse_field_morph_attrs(field: &FieldDef, o: Owner) -> (r: Result<
    FieldMorphAttrs,
    Diagnostic,
>)
    ensures
        res_view(r) == spec_parse_field_morph_attrs(*field, o),
{
    let ghost total = spec_field_attrs_from(field.attrs@, 0, no_field_attrs(), o);
    let mut acc = FieldMorphAttrs { from: None, with_path: None, default_kind: None, skip: false };
    let mut i: usize = 0;
    while i < field.attrs.len()
        invariant
            i <= field.attrs.len(),
            total == spec_field_attrs_from(field.attrs@, i as int, acc@, o),
        decreases field.attrs.len() - i,
    {
        let at = &field.attrs[i];
        if attr_is_morph(at) {
            match &at.args {
                AttrArgs::List(toks) => {
                    acc = field_list(toks, acc, o, i)?;
                },
                _ => {
                    return Err(not_list_error(at, o, i));
                },
            }
        }
        i = i + 1;
    }
    if acc.skip && acc.with_path.is_some() {
        return Err(
            Diagnostic { message: owned("`skip` and `with` cannot be used together."), site: Site::Field(o) },
        );
    }
    Ok(acc)
}

// ---------------------------------------------------------------------------
// Item attributes

pub open spec fn msg_type_key() -> Seq<char> {
    "Unsupported type-level morph key. Expected one of: from, validate"@
}

pub open spec fn msg_from_type() -> Seq<char> {
    "Malformed #[morph(from = \"...\")] on struct. `from` must be a valid Rust type path string."@
}

pub open spec fn msg_validate_path() -> Seq<char> {
    "Malformed #[morph(validate = \"...\")] on type. `validate` must be a valid Rust path string."@
}

/// What the `#[morph(...)]` attributes of the item say.
pub struct TypeMorphAttrs {
    /// `from = "Type"`: the source type, as it appears in the generated
    /// `impl` (the item's generics appended when the path carries none).
    pub from_type: Option<String>,
    /// `validate = "path"`: the validation function.
    pub validate_path: Option<String>,
}

pub struct TypeAttrsView {
    pub from_type: Option<Seq<char>>,
    pub validate_path: Option<Seq<char>>,
}

impl View for TypeMorphAttrs {
    type V = TypeAttrsView;

    open spec fn view(&self) -> TypeAttrsView {
        TypeAttrsView {
            from_type: opt_str_view(self.from_type),
            validate_path: opt_str_view(self.validate_path),
        }
    }
}

pub open spec fn no_type_attrs() -> TypeAttrsView {
    TypeAttrsView { from_type: None, validate_path: None }
}

/// The source type named by `from = "path"`: the path as written when its
/// last segment carries generic arguments, otherwise the path followed by the
/// item's own generics `ty_generics`. The path ends its own line, so that a
/// comment written inside the string cannot reach the generics or the code
/// after them.
pub open spec fn source_type_text(path: Seq<char>, has_generics: bool, ty_generics: Seq<char>) -> Seq<
    char,
> {
    if has_generics {
        path + "\n"@
    } else {
        path + "\n"@ + ty_generics
    }
}

/// Reads the item whose path is `path`, within the item's attribute list.
pub open spec fn spec_type_item(
    toks: Seq<Tok>,
    path: MetaPathView,
    acc: TypeAttrsView,
    ty_generics: Seq<char>,
    a: usize,
) -> Result<(TypeAttrsView, int), DiagView> {
    let o = Owner::Item;
    let p = path.end;
    if is_ident_path(path, "from"@) {
        match spec_value_str(toks, p, o, a) {
            Ok((f, q)) => match f.path_args {
                None => Err(diag(msg_from_type(), tok_site(o, a, p + 1))),
                Some(has) => Ok(
                    (
                        TypeAttrsView {
                            from_type: Some(source_type_text(f.value, has, ty_generics)),
                            ..acc
                        },
                        q,
                    ),
                ),
            },
            Err(d) => Err(d),
        }
    } else if is_ident_path(path, "validate"@) {
        match spec_value_str(toks, p, o, a) {
            Ok((f, q)) => if f.path_args is None {
                Err(diag(msg_validate_path(), tok_site(o, a, p + 1)))
            } else {
                Ok((TypeAttrsView { validate_path: Some(f.value), ..acc }, q))
            },
            Err(d) => Err(d),
        }
    } else {
        Err(diag(msg_type_key(), Site::AttrTokens(o, a, path.first as usize, (p - 1) as usize)))
    }
}

pub proof fn lemma_type_item_advances(
    toks: Seq<Tok>,
    path: MetaPathView,
    acc: TypeAttrsView,
    ty_generics: Seq<char>,
    a: usize,
)
    ensures
        spec_type_item(toks, path, acc, ty_generics, a) matches Ok((_, q)) ==> q >= path.end,
{
}

/// Reads the item's attribute list from token `p` on, starting from `acc`.
pub open spec fn spec_type_list(
    toks: Seq<Tok>,
    p: int,
    acc: TypeAttrsView,
    ty_generics: Seq<char>,
    a: usize,
) -> Result<TypeAttrsView, DiagView>
    decreases toks.len() - p,
{
    if p < 0 || p >= toks.len() {
        Ok(acc)
    } else {
        match spec_parse_meta_path(toks, p, Owner::Item, a) {
            Err(d) => Err(d),
            Ok(path) => match spec_type_item(toks, path, acc, ty_generics, a) {
                Err(d) => Err(d),
                Ok((acc2, q)) => match spec_after_item(toks, q, Owner::Item, a) {
                    Err(d) => Err(d),
                    Ok(None) => Ok(acc2),
                    Ok(Some(n)) => {
                        proof {
                            lemma_meta_path_advances(toks, p, Owner::Item, a);
                            lemma_type_item_advances(toks, path, acc, ty_generics, a);
                        }
                        spec_type_list(toks, n, acc2, ty_generics, a)
                    },
                },
            },
        }
    }
}

/// Reads the item's attributes `attrs[i..]`, starting from `acc`.
pub open spec fn spec_type_attrs_from(
    attrs: Seq<AttrDef>,
    i: int,
    acc: TypeAttrsView,
    ty_generics: Seq<char>,
) -> Result<TypeAttrsView, DiagView>
    decreases attrs.len() - i,
{
    if i < 0 || i >= attrs.len() {
        Ok(acc)
    } else if !is_morph_attr(attrs[i]) {
        spec_type_attrs_from(attrs, i + 1, acc, ty_generics)
    } else {
        match attrs[i].args {
            AttrArgs::List(toks) => match spec_type_list(toks@, 0, acc, ty_generics, i as usize) {
                Err(d) => Err(d),
                Ok(acc2) => spec_type_attrs_from(attrs, i + 1, acc2, ty_generics),
            },
            _ => Err(spec_not_list_error(attrs[i], Owner::Item, i)),
        }
    }
}

/// What the item's `#[morph(...)]` attributes say, or the first error in
/// them.
pub open spec fn spec_parse_type_morph_attrs(def: DeriveDef) -> Result<TypeAttrsView, DiagView> {
    spec_type_attrs_from(def.attrs@, 0, no_type_attrs(), def.ty_generics@)
}

fn type_item(
    toks: &Vec<Tok>,
    path: &MetaPath,
    acc: TypeMorphAttrs,
    ty_generics: &str,
    a: usize,
) -> (r: Result<(TypeMorphAttrs, usize), Diagnostic>)
    requires
        path.first < path.end <= toks.len(),
    ensures
        match r {
            Ok((acc2, q)) => spec_type_item(toks@, path@, acc@, ty_generics@, a) == Ok::<
                (TypeAttrsView, int),
                DiagView,
            >((acc2@, q as int)),
            Err(d) => spec_type_item(toks@, path@, acc@, ty_generics@, a) == Err::<
                (TypeAttrsView, int),
                DiagView,
            >(d@),
        },
{
    let o = Owner::Item;
    let p = path.end;
    if path_is_ident(path, "from") {
        let (f, q) = value_str(toks, p, o, a)?;
        match f.path_args {
            None => Err(
                Diagnostic {
                    message: owned(
                        "Malformed #[morph(from = \"...\")] on struct. `from` must be a valid Rust type path string.",
                    ),
                    site: token_site(o, a, p + 1),
                },
            ),
            Some(with_args) => {
                let mut text = f.value;
                text.append("\n");
                if !with_args {
                    text.append(ty_generics);
                }
                Ok((TypeMorphAttrs { from_type: Some(text), ..acc }, q))
            },
        }
    } else if path_is_ident(path, "validate") {
        let (f, q) = value_str(toks, p, o, a)?;
        if f.path_args.is_none() {
            Err(
                Diagnostic {
                    message: owned(
                        "Malformed #[morph(validate = \"...\")] on type. `validate` must be a valid Rust path string.",
                    ),
                    site: token_site(o, a, p + 1),
                },
            )
        } else {
            Ok((TypeMorphAttrs { validate_path: Some(f.value), ..acc }, q))
        }
    } else {
        Err(
            Diagnostic {
                message: owned("Unsupported type-level morph key. Expected one of: from, validate"),
                site: Site::AttrTokens(o, a, path.first, p - 1),
            },
        )
    }
}

#[verifier::loop_isolation(false)]
fn type_list(toks: &Vec<Tok>, acc: TypeMorphAttrs, ty_generics: &str, a: usize) -> (r: Result<
    TypeMorphAttrs,
    Diagnostic,
>)
    ensures
        res_view(r) == spec_type_list(toks@, 0, acc@, ty_generics@, a),
{
    let ghost total = spec_type_list(toks@, 0, acc@, ty_generics@, a);
    let mut acc = acc;
    let mut p: usize = 0;
    if toks.len() == 0 {
        return Ok(acc);
    }
    loop
        invariant
            p < toks.len(),
            total == spec_type_list(toks@, p as int, acc@, ty_generics@, a),
        decreases toks.len() - p,
    {
        let path = parse_meta_path(toks, p, Owner::Item, a)?;
        let (acc2, q) = type_item(toks, &path, acc, ty_generics, a)?;
        match after_item(toks, q, Owner::Item, a)? {
            None => {
                return Ok(acc2);
            },
            Some(n) => {
                acc = acc2;
                p = n;
            },
        }
    }
}

/// What the item's `#[morph(...)]` attributes say, or the first error in
/// them.
#[verifier::loop_isolation(false)]
pub fn parse_type_morph_attrs(def: &DeriveDef) -> (r: Result<TypeMorphAttrs, Diagnostic>)
    ensures
        res_view(r) == spec_parse_type_morph_attrs(*def),
{
    let ghost total = spec_type_attrs_from(def.attrs@, 0, no_type_attrs(), def.ty_generics@);
    let mut acc = TypeMorphAttrs { from_type: None, validate_path: None };
    let mut i: usize = 0;
    while i < def.attrs.len()
        invariant
            i <= def.attrs.len(),
            total == spec_type_attrs_from(def.attrs@, i as int, acc@, def.ty_generics@),
        decreases def.attrs.len() - i,
    {
        let at = &def.attrs[i];
        if attr_is_morph(at) {
            match &at.args {
                AttrArgs::List(toks) => {
                    acc = type_list(toks, acc, def.ty_generics.as_str(), i)?;
                },
                _ => {
                    return Err(not_list_error(at, Owner::Item, i));
                },
            }
        }
        i = i + 1;
    }
    Ok(acc)
}

// ---------------------------------------------------------------------------
// Variant attributes

pub open spec fn msg_variant_key() -> Seq<char> {
    "Unsupported enum variant morph key. Expected: from"@
}

pub open spec fn msg_variant_from_ident() -> Seq<char> {
    "Malformed #[morph(from = \"...\")] on enum variant. `from` must be a valid Rust identifier."@
}

pub open spec fn msg_variant_malformed() -> Seq<char> {
    "Malformed #[morph(...)] on enum variant. Expected: #[morph(from = \"SourceVariant\")]."@
}

/// Reads the item whose path is `path`, within a variant's attribute list.
pub open spec fn spec_variant_item(
    toks: Seq<Tok>,
    path: MetaPathView,
    acc: Option<Seq<char>>,
    o: Owner,
    a: usize,
) -> Result<(Option<Seq<char>>, int), DiagView> {
    let p = path.end;
    if is_ident_path(path, "from"@) {
        match spec_value_str(toks, p, o, a) {
            Ok((f, q)) => if !is_ident_text(f.value) {
                Err(diag(msg_variant_from_ident(), tok_site(o, a, p + 1)))
            } else {
                Ok((Some(f.value), q))
            },
            Err(d) => Err(d),
        }
    } else {
        Err(diag(msg_variant_key(), Site::AttrTokens(o, a, path.first as usize, (p - 1) as usize)))
    }
}

pub proof fn lemma_variant_item_advances(
    toks: Seq<Tok>,
    path: MetaPathView,
    acc: Option<Seq<char>>,
    o: Owner,
    a: usize,
)
    ensures
        spec_variant_item(toks, path, acc, o, a) matches Ok((_, q)) ==> q >= path.end,
{
}

/// Reads a variant's attribute list from token `p` on: the last `from`
/// value, if any.
pub open spec fn spec_variant_list(
    toks: Seq<Tok>,
    p: int,
    acc: Option<Seq<char>>,
    o: Owner,
    a: usize,
) -> Result<Option<Seq<char>>, DiagView>
    decreases toks.len() - p,
{
    if p < 0 || p >= toks.len() {
        Ok(acc)
    } else {
        match spec_parse_meta_path(toks, p, o, a) {
            Err(d) => Err(d),
            Ok(path) => match spec_variant_item(toks, path, acc, o, a) {
                Err(d) => Err(d),
                Ok((acc2, q)) => match spec_after_item(toks, q, o, a) {
                    Err(d) => Err(d),
                    Ok(None) => Ok(acc2),
                    Ok(Some(n)) => {
                        proof {
                            lemma_meta_path_advances(toks, p, o, a);
                            lemma_variant_item_advances(toks, path, acc, o, a);
                        }
                        spec_variant_list(toks, n, acc2, o, a)
                    },
                },
            },
        }
    }
}

/// The source variant named by the variant's attributes `attrs[i..]`: the
/// first `#[morph ...]` attribute decides; without one, the variant's own
/// name `ident`.
pub open spec fn spec_variant_source_from(
    attrs: Seq<AttrDef>,
    i: int,
    ident: Seq<char>,
    o: Owner,
) -> Result<Seq<char>, DiagView>
    decreases attrs.len() - i,
{
    if i < 0 || i >= attrs.len() {
        Ok(ident)
    } else if !is_morph_attr(attrs[i]) {
        spec_variant_source_from(attrs, i + 1, ident, o)
    } else {
        match attrs[i].args {
            AttrArgs::List(toks) => match spec_variant_list(toks@, 0, None, o, i as usize) {
                Err(d) => Err(d),
                Ok(Some(s)) => Ok(s),
                Ok(None) => Err(diag(msg_variant_malformed(), Site::Attr(o, i as usize))),
            },
            _ => Err(spec_not_list_error(attrs[i], o, i)),
        }
    }
}

/// The name of the source variant that variant `v` maps from, or the error
/// in its attributes.
pub open spec fn spec_resolve_source_variant_ident(variant: VariantDef, v: usize) -> Result<
    Seq<char>,
    DiagView,
> {
    spec_variant_source_from(variant.attrs@, 0, variant.ident@, Owner::Variant(v))
}

fn variant_item(
    toks: &Vec<Tok>,
    path: &MetaPath,
    o: Owner,
    a: usize,
) -> (r: Result<(Option<String>, usize), Diagnostic>)
    requires
        path.first < path.end <= toks.len(),
    ensures
        forall|acc: Option<Seq<char>>|
            match r {
                Ok((acc2, q)) => #[trigger] spec_variant_item(toks@, path@, acc, o, a) == Ok::<
                    (Option<Seq<char>>, int),
                    DiagView,
                >((opt_str_view(acc2), q as int)),
                Err(d) => spec_variant_item(toks@, path@, acc, o, a) == Err::<
                    (Option<Seq<char>>, int),
                    DiagView,
                >(d@),
            },
{
    let p = path.end;
    if path_is_ident(path, "from") {
        let (f, q) = value_str(toks, p, o, a)?;
        if !is_identifier(f.value.as_str()) {
            Err(
                Diagnostic {
                    message: owned(
                        "Malformed #[morph(from = \"...\")] on enum variant. `from` must be a valid Rust identifier.",
                    ),
                    site: token_site(o, a, p + 1),
                },
            )
        } else {
            Ok((Some(f.value), q))
        }
    } else {
        Err(
            Diagnostic {
                message: owned("Unsupported enum variant morph key. Expected: from"),
                site: Site::AttrTokens(o, a, path.first, p - 1),
            },
        )
    }
}

#[verifier::loop_isolation(false)]
fn variant_list(toks: &Vec<Tok>, o: Owner, a: usize) -> (r: Result<Option<String>, Diagnostic>)
    ensures
        match r {
            Ok(s) => spec_variant_list(toks@, 0, None, o, a) == Ok::<Option<Seq<char>>, DiagView>(
                opt_str_view(s),
            ),
            Err(d) => spec_variant_list(toks@, 0, None, o, a) == Err::<Option<Seq<char>>, DiagView>(
                d@,
            ),
        },
{
    let ghost total = spec_variant_list(toks@, 0, None, o, a);
    let mut acc: Option<String> = None;
    let mut p: usize = 0;
    if toks.len() == 0 {
        return Ok(acc);
    }
    loop
        invariant
            p < toks.len(),
            total == spec_variant_list(toks@, p as int, opt_str_view(acc), o, a),
        decreases toks.len() - p,
    {
        let path = parse_meta_path(toks, p, o, a)?;
        let (acc2, q) = variant_item(toks, &path, o, a)?;
        match after_item(toks, q, o, a)? {
            None => {
                return Ok(acc2);
            },
            Some(n) => {
                acc = acc2;
                p = n;
            },
        }
    }
}

/// The name of the source variant that variant `v` maps from: the `from`
/// of its first `#[morph(...)]` attribute, or its own name without one.
#[verifier::loop_isolation(false)]
pub fn resolve_source_variant_ident(variant: &VariantDef, v: usize) -> (r: Result<
    String,
    Diagnostic,
>)
    ensures
        str_res_view(r) == spec_resolve_source_variant_ident(*variant, v),
{
    let o = Owner::Variant(v);
    let mut i: usize = 0;
    while i < variant.attrs.len()
        invariant
            i <= variant.attrs.len(),
            spec_resolve_source_variant_ident(*variant, v) == spec_variant_source_from(
                variant.attrs@,
                i as int,
                variant.ident@,
                o,
            ),
        decreases variant.attrs.len() - i,
    {
        let at = &variant.attrs[i];
        if attr_is_morph(at) {
            match &at.args {
                AttrArgs::List(toks) => {
                    return match variant_list(toks, o, i)? {
                        Some(s) => Ok(s),
                        None => Err(
                            Diagnostic {
                                message: owned(
                                    "Malformed #[morph(...)] on enum variant. Expected: #[morph(from = \"SourceVariant\")].",
                                ),
                                site: Site::Attr(o, i),
                            },
                        ),
                    };
                },
                _ => {
                    return Err(not_list_error(at, o, i));
                },
            }
        }
        i = i + 1;
    }
    Ok(variant.ident.clone())
}

} // verus!
