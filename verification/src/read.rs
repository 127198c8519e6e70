//! Reading the literals of an item's attributes.
//!
//! A literal's value, and whether that value is a path or an expression, come
//! from `syn`, whose answers depend on the lexer it runs on. They are read
//! once, here, and recorded in the model; the rest of the derive decides over
//! what was recorded, so every rule holds whatever `syn` answered.
use vstd::prelude::*;
use crate::model::{
    AttrArgs, AttrDef, DataDef, DeriveDef, Diagnostic, FieldDef, FieldsDef, LitFacts, StrFacts,
    Tok, VariantDef, str_res_view,
};
use crate::syntax::{
    expr_outcome, expr_parses, lit_value_outcome, path_shape, path_shape_outcome,
    string_literal_value,
};
use crate::expand::{expand_morph, fields_wf, spec_expand_morph};

verus! {

// ---------------------------------------------------------------------------
// The relation between an item and the same item with its literals read

/// Whether `facts` is a possible reading of the literal written as `text`:
/// a string literal's value is an answer of reading `text`, and what is
/// recorded of that value is an answer of reading the value (not the text)
/// as a path and as an expression; a literal that is no string literal is
/// one that reading `text` can refuse.
pub open spec fn read_outcome(text: Seq<char>, facts: LitFacts) -> bool {
    match facts {
        LitFacts::Str(f) => {
            &&& lit_value_outcome(text, Some(f.value@))
            &&& path_shape_outcome(f.value@, f.path_args)
            &&& expr_outcome(f.value@, f.is_expr)
        },
        LitFacts::NotStr => lit_value_outcome(text, None),
        LitFacts::Unread => false,
    }
}

/// `after` is `before`, except that a literal has been read.
pub open spec fn tok_read(before: Tok, after: Tok) -> bool {
    match before {
        Tok::Lit(text, _) => after matches Tok::Lit(t, facts) && t == text && read_outcome(text@, facts),
        _ => after == before,
    }
}

pub open spec fn toks_read(before: Seq<Tok>, after: Seq<Tok>) -> bool {
    &&& before.len() == after.len()
    &&& forall|i: int| 0 <= i < before.len() ==> tok_read(before[i], #[trigger] after[i])
}

pub open spec fn attr_read(before: AttrDef, after: AttrDef) -> bool {
    &&& after.path == before.path
    &&& match before.args {
        AttrArgs::List(ts) => after.args matches AttrArgs::List(us) && toks_read(ts@, us@),
        _ => after.args == before.args,
    }
}

pub open spec fn attrs_read(before: Seq<AttrDef>, after: Seq<AttrDef>) -> bool {
    &&& before.len() == after.len()
    &&& forall|i: int| 0 <= i < before.len() ==> attr_read(before[i], #[trigger] after[i])
}

pub open spec fn field_read(before: FieldDef, after: FieldDef) -> bool {
    &&& after.ident == before.ident
    &&& after.ty == before.ty
    &&& attrs_read(before.attrs@, after.attrs@)
}

pub open spec fn field_list_read(before: Seq<FieldDef>, after: Seq<FieldDef>) -> bool {
    &&& before.len() == after.len()
    &&& forall|i: int| 0 <= i < before.len() ==> field_read(before[i], #[trigger] after[i])
}

pub open spec fn fields_read(before: FieldsDef, after: FieldsDef) -> bool {
    match before {
        FieldsDef::Named(fs) => after matches FieldsDef::Named(gs) && field_list_read(fs@, gs@),
        FieldsDef::Unnamed(fs) => after matches FieldsDef::Unnamed(gs) && field_list_read(fs@, gs@),
        FieldsDef::Unit => after is Unit,
    }
}

pub open spec fn variant_read(before: VariantDef, after: VariantDef) -> bool {
    &&& after.ident == before.ident
    &&& attrs_read(before.attrs@, after.attrs@)
    &&& fields_read(before.fields, after.fields)
}

pub open spec fn variants_read(before: Seq<VariantDef>, after: Seq<VariantDef>) -> bool {
    &&& before.len() == after.len()
    &&& forall|i: int| 0 <= i < before.len() ==> variant_read(before[i], #[trigger] after[i])
}

pub open spec fn data_read(before: DataDef, after: DataDef) -> bool {
    match before {
        DataDef::Struct(f) => after matches DataDef::Struct(g) && fields_read(f, g),
        DataDef::Enum(vs) => after matches DataDef::Enum(ws) && variants_read(vs@, ws@),
        DataDef::Union => after is Union,
    }
}

/// `after` is the item `before` with every literal of its attributes' argument
/// lists read, and nothing else changed.
pub open spec fn def_read(before: DeriveDef, after: DeriveDef) -> bool {
    &&& after.ident == before.ident
    &&& after.impl_generics == before.impl_generics
    &&& after.ty_generics == before.ty_generics
    &&& after.where_clause == before.where_clause
    &&& attrs_read(before.attrs@, after.attrs@)
    &&& data_read(before.data, after.data)
}

/// Reading literals keeps an item well formed: field names are untouched.
pub proof fn lemma_read_keeps_well_formed(before: DeriveDef, after: DeriveDef)
    requires
        def_read(before, after),
        before.well_formed(),
    ensures
        after.well_formed(),
{
    match before.data {
        DataDef::Struct(f) => {
            if let DataDef::Struct(g) = after.data {
                lemma_fields_read_wf(f, g);
            }
        },
        DataDef::Enum(vs) => {
            if let DataDef::Enum(ws) = after.data {
                assert forall|v: int| 0 <= v < ws.len() implies fields_wf(#[trigger] ws@[v].fields) by {
                    assert(variant_read(vs@[v], ws@[v]));
                    assert(fields_wf(vs@[v].fields));
                    lemma_fields_read_wf(vs@[v].fields, ws@[v].fields);
                }
            }
        },
        DataDef::Union => {},
    }
}

pub proof fn lemma_fields_read_wf(f: FieldsDef, g: FieldsDef)
    requires
        fields_read(f, g),
        fields_wf(f),
    ensures
        fields_wf(g),
{
    if let FieldsDef::Named(fs) = f {
        if let FieldsDef::Named(gs) = g {
            assert forall|i: int| 0 <= i < gs@.len() implies (#[trigger] gs@[i]).ident is Some by {
                assert(field_read(fs@[i], gs@[i]));
                assert(fs@[i].ident is Some);
            }
        }
    }
}

// ---------------------------------------------------------------------------
// Reading

/// Reads one literal written as `text`: whether it is a string literal and,
/// if it is, its value and whether that value parses as a path (and with
/// generic arguments on its last segment) or as an expression.
pub fn read_literal(text: &str) -> (r: LitFacts)
    ensures
        read_outcome(text@, r),
{
    match string_literal_value(text) {
        Some(value) => {
            let path_args = path_shape(value.as_str());
            let is_expr = expr_parses(value.as_str());
            LitFacts::Str(StrFacts { value, path_args, is_expr })
        },
        None => LitFacts::NotStr,
    }
}

fn read_tok(t: Tok) -> (r: Tok)
    ensures
        tok_read(t, r),
{
    match t {
        Tok::Lit(text, _) => {
            let facts = read_literal(text.as_str());
            Tok::Lit(text, facts)
        },
        other => other,
    }
}

fn read_toks(toks: Vec<Tok>) -> (r: Vec<Tok>)
    ensures
        toks_read(toks@, r@),
{
    let ghost orig = toks@;
    let mut rest = toks;
    let mut out: Vec<Tok> = Vec::new();
    while rest.len() > 0
        invariant
            out.len() + rest.len() == orig.len(),
            rest@ == orig.subrange(out.len() as int, orig.len() as int),
            forall|i: int| 0 <= i < out.len() ==> tok_read(orig[i], #[trigger] out@[i]),
        decreases rest.len(),
    {
        let t = rest.remove(0);
        out.push(read_tok(t));
    }
    out
}

fn read_attr(a: AttrDef) -> (r: AttrDef)
    ensures
        attr_read(a, r),
{
    let AttrDef { path, args } = a;
    let args = match args {
        AttrArgs::List(ts) => AttrArgs::List(read_toks(ts)),
        other => other,
    };
    AttrDef { path, args }
}

fn read_attrs(attrs: Vec<AttrDef>) -> (r: Vec<AttrDef>)
    ensures
        attrs_read(attrs@, r@),
{
    let ghost orig = attrs@;
    let mut rest = attrs;
    let mut out: Vec<AttrDef> = Vec::new();
    while rest.len() > 0
        invariant
            out.len() + rest.len() == orig.len(),
            rest@ == orig.subrange(out.len() as int, orig.len() as int),
            forall|i: int| 0 <= i < out.len() ==> attr_read(orig[i], #[trigger] out@[i]),
        decreases rest.len(),
    {
        let a = rest.remove(0);
        out.push(read_attr(a));
    }
    out
}

fn read_field_list(fields: Vec<FieldDef>) -> (r: Vec<FieldDef>)
    ensures
        field_list_read(fields@, r@),
{
    let ghost orig = fields@;
    let mut rest = fields;
    let mut out: Vec<FieldDef> = Vec::new();
    while rest.len() > 0
        invariant
            out.len() + rest.len() == orig.len(),
            rest@ == orig.subrange(out.len() as int, orig.len() as int),
            forall|i: int| 0 <= i < out.len() ==> field_read(orig[i], #[trigger] out@[i]),
        decreases rest.len(),
    {
        let FieldDef { ident, ty, attrs } = rest.remove(0);
        out.push(FieldDef { ident, ty, attrs: read_attrs(attrs) });
    }
    out
}

fn read_fields(fields: FieldsDef) -> (r: FieldsDef)
    ensures
        fields_read(fields, r),
{
    match fields {
        FieldsDef::Named(fs) => FieldsDef::Named(read_field_list(fs)),
        FieldsDef::Unnamed(fs) => FieldsDef::Unnamed(read_field_list(fs)),
        FieldsDef::Unit => FieldsDef::Unit,
    }
}

fn read_variants(variants: Vec<VariantDef>) -> (r: Vec<VariantDef>)
    ensures
        variants_read(variants@, r@),
{
    let ghost orig = variants@;
    let mut rest = variants;
    let mut out: Vec<VariantDef> = Vec::new();
    while rest.len() > 0
        invariant
            out.len() + rest.len() == orig.len(),
            rest@ == orig.subrange(out.len() as int, orig.len() as int),
            forall|i: int| 0 <= i < out.len() ==> variant_read(orig[i], #[trigger] out@[i]),
        decreases rest.len(),
    {
        let VariantDef { ident, attrs, fields } = rest.remove(0);
        out.push(VariantDef { ident, attrs: read_attrs(attrs), fields: read_fields(fields) });
    }
    out
}

/// The item `def` with every literal of its attributes' argument lists read
/// (see `read_literal`), and nothing else changed.
pub fn read_literals(def: DeriveDef) -> (r: DeriveDef)
    ensures
        def_read(def, r),
        def.well_formed() ==> r.well_formed(),
{
    let ghost before = def;
    let DeriveDef { ident, impl_generics, ty_generics, where_clause, attrs, data } = def;
    let data = match data {
        DataDef::Struct(f) => DataDef::Struct(read_fields(f)),
        DataDef::Enum(vs) => DataDef::Enum(read_variants(vs)),
        DataDef::Union => DataDef::Union,
    };
    let r = DeriveDef { ident, impl_generics, ty_generics, where_clause, attrs: read_attrs(attrs), data };
    proof {
        if before.well_formed() {
            lemma_read_keeps_well_formed(before, r);
        }
    }
    r
}

/// What `#[derive(Morph)]` writes for `def`: its literals are read, then the
/// `TryMorph` implementation is expanded from what was read.
pub fn derive_text(def: DeriveDef) -> (r: Result<String, Diagnostic>)
    requires
        def.well_formed(),
    ensures
        exists|read: DeriveDef| def_read(def, read) && str_res_view(r) == spec_expand_morph(read),
{
    let ghost before = def;
    let read = read_literals(def);
    let r = expand_morph(&read);
    assert(def_read(before, read) && str_res_view(r) == spec_expand_morph(read));
    r
}

} // verus!
