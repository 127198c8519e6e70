//! Properties of the derive and of the runtime that hold for every input.
use vstd::prelude::*;
use crate::model::{
    AttrArgs, AttrDef, DataDef, DeriveDef, DiagView, FieldDef, FieldsDef, Owner, Site, Tok,
    VariantDef, diag,
};
use crate::attrs::{
    DefaultKindView, FieldAttrsView, is_morph_attr, msg_field_from_ident, msg_field_key,
    msg_skip_with, no_field_attrs, spec_field_attrs_from, spec_field_list,
    spec_parse_field_morph_attrs, spec_parse_type_morph_attrs, spec_resolve_source_variant_ident,
    spec_variant_source_from,
};
use crate::meta::{at_path_sep, str_facts_of};
use crate::syntax::{ascii_digit, ascii_letter, is_ident_text};
use crate::plan::{
    FieldPlanView, default_call, msg_default_on_option, spec_field_name_for_error, spec_plan_field,
    spec_render_field_expr, spec_validate_call,
};
use crate::text::{collect, join};
use crate::expand::{
    arm_fn, arm_text, default_source_type, field_ident, impl_text, janitor_impl_text, msg_not_struct_or_enum,
    named_mapping_fn, plain_impl_text, spec_build_named_field_mappings, spec_expand_enum_body,
    spec_expand_morph, spec_expand_struct_body, spec_named_field_mapping, spec_source_binding,
    spec_source_destructure, spec_source_name, spec_variant_arm, spec_variant_mapping,
    destructure_fn, variant_mapping_fn, spec_build_named_source_destructures,
    spec_build_named_variant_mappings, positional_fn, positional_bindings,
};

verus! {

/// Producing parts for indices `0..n` succeeds exactly when every index
/// succeeds; when it fails, it reports the error of the first index that
/// fails, and every index before that one succeeded.
pub proof fn law_first_error_wins(n: int, f: spec_fn(int) -> Result<Seq<Seq<char>>, DiagView>)
    requires
        n >= 0,
    ensures
        collect(n, f) is Ok <==> (forall|i: int| 0 <= i < n ==> (#[trigger] f(i)) is Ok),
        collect(n, f) matches Err(d) ==> exists|k: int|
            0 <= k < n && #[trigger] f(k) == Err::<Seq<Seq<char>>, DiagView>(d) && (forall|i: int|
                0 <= i < k ==> (#[trigger] f(i)) is Ok),
    decreases n,
{
    if n > 0 {
        law_first_error_wins(n - 1, f);
        match collect(n - 1, f) {
            Ok(_) => {
                if f(n - 1) is Err {
                    assert(forall|i: int| 0 <= i < n - 1 ==> (#[trigger] f(i)) is Ok);
                }
            },
            Err(d) => {
                let k = choose|k: int|
                    0 <= k < n - 1 && #[trigger] f(k) == Err::<Seq<Seq<char>>, DiagView>(d) && (
                    forall|i: int| 0 <= i < k ==> (#[trigger] f(i)) is Ok);
                assert(f(k) is Err);
            },
        }
    }
}

/// A struct's field initializers are produced field by field in declaration
/// order: all of them when every field is fine, otherwise the error of the
/// first field in declaration order that has one.
pub proof fn law_struct_fields_first_error(fields: Seq<FieldDef>)
    ensures
        spec_build_named_field_mappings(fields) is Ok <==> (forall|i: int|
            0 <= i < fields.len() ==> (#[trigger] named_mapping_fn(fields)(i)) is Ok),
        spec_build_named_field_mappings(fields) matches Err(d) ==> exists|k: int|
            0 <= k < fields.len() && #[trigger] named_mapping_fn(fields)(k) == Err::<
                Seq<Seq<char>>,
                DiagView,
            >(d),
{
    law_first_error_wins(fields.len() as int, named_mapping_fn(fields));
}

/// Without attributes, a field's strategy follows its type: a `Cow` field
/// borrows, an `Option` field passes through, any other field is strict and
/// reports its own name when the source value is missing.
pub proof fn law_strategy_follows_type(field: FieldDef, o: Owner)
    ensures
        spec_plan_field(field, no_field_attrs(), o) == Ok::<FieldPlanView, DiagView>(plain_plan(field)),
{
}

/// A strict field (neither `Option` nor `Cow`) with `default` falls back to
/// `Default::default()`, or to the given expression, when its source value
/// is missing; `skip` and `with` take precedence.
pub proof fn law_default_fallback(field: FieldDef, attrs: FieldAttrsView, o: Owner)
    requires
        !attrs.skip,
        attrs.with_path is None,
        !field.ty.spec_is_type_name("Option"@),
        !field.ty.spec_is_type_name("Cow"@),
    ensures
        attrs.default_kind == Some(DefaultKindView::TraitDefault) ==> spec_plan_field(field, attrs, o)
            == Ok::<FieldPlanView, DiagView>(FieldPlanView::OrDefault),
        attrs.default_kind matches Some(DefaultKindView::Expr(e)) ==> spec_plan_field(field, attrs, o)
            == Ok::<FieldPlanView, DiagView>(FieldPlanView::OrExpr(e)),
{
}

/// `skip` sets the field to `Default::default()`, whatever else is said.
pub proof fn law_skip_gives_default(field: FieldDef, attrs: FieldAttrsView, o: Owner)
    requires
        attrs.skip,
    ensures
        spec_plan_field(field, attrs, o) == Ok::<FieldPlanView, DiagView>(FieldPlanView::DefaultValue),
{
}

/// `default` applies only to strict `Option<T> -> T` mappings: on an
/// `Option` field that is not skipped it is an error, and no `Option` field
/// ever gets a fallback strategy.
pub proof fn law_default_only_on_strict(field: FieldDef, attrs: FieldAttrsView, o: Owner)
    requires
        field.ty.spec_is_type_name("Option"@),
    ensures
        !attrs.skip && attrs.default_kind is Some ==> spec_plan_field(field, attrs, o) == Err::<
            FieldPlanView,
            DiagView,
        >(diag(msg_default_on_option(), Site::Field(o))),
        !(spec_plan_field(field, attrs, o) matches Ok(FieldPlanView::OrDefault)),
        !(spec_plan_field(field, attrs, o) matches Ok(FieldPlanView::OrExpr(_))),
{
}

/// A field's attributes, once read, never hold both `skip` and `with`: the
/// combination is reported on the field.
pub proof fn law_skip_excludes_with(field: FieldDef, o: Owner)
    ensures
        spec_parse_field_morph_attrs(field, o) matches Ok(a) ==> !(a.skip && a.with_path is Some),
        spec_field_attrs_from(field.attrs@, 0, no_field_attrs(), o) matches Ok(a) ==> (a.skip
            && a.with_path is Some ==> spec_parse_field_morph_attrs(field, o) == Err::<
            FieldAttrsView,
            DiagView,
        >(diag(msg_skip_with(), Site::Field(o)))),
{
}

/// A `#[morph(key ...)]` field attribute whose key is not one of `from`,
/// `with`, `default`, `skip` is refused, pointing at the key.
pub proof fn law_unknown_field_key_refused(field: FieldDef, o: Owner, toks: Seq<Tok>, key: Seq<char>)
    requires
        field.attrs@.len() > 0,
        is_morph_attr(field.attrs@[0]),
        field.attrs@[0].args matches AttrArgs::List(list) && list@ == toks,
        toks.len() > 0,
        toks[0] matches Tok::Ident(k) && k@ == key,
        !at_path_sep(toks, 1),
        key != "from"@,
        key != "with"@,
        key != "default"@,
        key != "skip"@,
    ensures
        spec_parse_field_morph_attrs(field, o) == Err::<FieldAttrsView, DiagView>(
            diag(msg_field_key(), Site::AttrTokens(o, 0, 0, 0)),
        ),
{
    assert(!at_path_sep(toks, 0));
}

/// A variant without `#[morph ...]` attributes maps from the source variant
/// of the same name.
pub proof fn law_variant_same_name(variant: VariantDef, v: usize)
    requires
        forall|i: int| 0 <= i < variant.attrs@.len() ==> !is_morph_attr(#[trigger] variant.attrs@[i]),
    ensures
        spec_resolve_source_variant_ident(variant, v) == Ok::<Seq<char>, DiagView>(variant.ident@),
{
    lemma_no_morph_attrs_same_name(variant.attrs@, 0, variant.ident@, Owner::Variant(v));
}

proof fn lemma_no_morph_attrs_same_name(attrs: Seq<AttrDef>, i: int, ident: Seq<char>, o: Owner)
    requires
        0 <= i,
        forall|j: int| 0 <= j < attrs.len() ==> !is_morph_attr(#[trigger] attrs[j]),
    ensures
        spec_variant_source_from(attrs, i, ident, o) == Ok::<Seq<char>, DiagView>(ident),
    decreases attrs.len() - i,
{
    if i < attrs.len() {
        lemma_no_morph_attrs_same_name(attrs, i + 1, ident, o);
    }
}

/// A variant whose first `#[morph ...]` attribute is `#[morph(from = "X")]`,
/// with `X` an identifier, maps from the source variant `X`.
pub proof fn law_variant_from_override(variant: VariantDef, v: usize, k: int, toks: Seq<Tok>, source: Seq<char>)
    requires
        0 <= k < variant.attrs@.len(),
        forall|i: int| 0 <= i < k ==> !is_morph_attr(#[trigger] variant.attrs@[i]),
        is_morph_attr(variant.attrs@[k]),
        variant.attrs@[k].args matches AttrArgs::List(list) && list@ == toks,
        toks.len() == 3,
        toks[0] matches Tok::Ident(key) && key@ == "from"@,
        toks[1] matches Tok::Punct(c, _) && c == '=',
        str_facts_of(toks[2]) matches Some(f) && f.value == source,
        is_ident_text(source),
    ensures
        spec_resolve_source_variant_ident(variant, v) == Ok::<Seq<char>, DiagView>(source),
{
    lemma_skip_plain_attrs(variant.attrs@, 0, k, variant.ident@, Owner::Variant(v));
    assert(!at_path_sep(toks, 0));
    assert(!at_path_sep(toks, 1));
}

proof fn lemma_skip_plain_attrs(attrs: Seq<AttrDef>, i: int, k: int, ident: Seq<char>, o: Owner)
    requires
        0 <= i <= k < attrs.len(),
        forall|j: int| 0 <= j < k ==> !is_morph_attr(#[trigger] attrs[j]),
    ensures
        spec_variant_source_from(attrs, i, ident, o) == spec_variant_source_from(attrs, k, ident, o),
    decreases k - i,
{
    if i < k {
        lemma_skip_plain_attrs(attrs, i + 1, k, ident, o);
    }
}

/// A field without `#[morph ...]` attributes reads the source field of the
/// same name, with the strategy its type calls for.
pub proof fn law_plain_field_reads_same_name(field: FieldDef, i: int)
    requires
        field.ident is Some,
        forall|j: int| 0 <= j < field.attrs@.len() ==> !is_morph_attr(#[trigger] field.attrs@[j]),
    ensures
        spec_named_field_mapping(field, i) == Ok::<Seq<Seq<char>>, DiagView>(
            seq![
                field_ident(field) + ": "@ + spec_render_field_expr(
                    plain_plan(field),
                    "old."@ + field_ident(field),
                ),
            ],
        ),
{
    lemma_no_morph_field_attrs(field.attrs@, 0, Owner::Field(i as usize));
}

/// The strategy of a field without attributes.
pub open spec fn plain_plan(field: FieldDef) -> FieldPlanView {
    if field.ty.spec_is_type_name("Cow"@) {
        FieldPlanView::Borrow
    } else if field.ty.spec_is_type_name("Option"@) {
        FieldPlanView::Passthrough
    } else {
        FieldPlanView::Strict(spec_field_name_for_error(field))
    }
}

proof fn lemma_no_morph_field_attrs(attrs: Seq<AttrDef>, i: int, o: Owner)
    requires
        0 <= i,
        forall|j: int| 0 <= j < attrs.len() ==> !is_morph_attr(#[trigger] attrs[j]),
    ensures
        spec_field_attrs_from(attrs, i, no_field_attrs(), o) == Ok::<FieldAttrsView, DiagView>(
            no_field_attrs(),
        ),
    decreases attrs.len() - i,
{
    if i < attrs.len() {
        lemma_no_morph_field_attrs(attrs, i + 1, o);
    }
}

/// `#[morph(from = "name")]` on a struct field, with `name` an identifier,
/// makes it read the source field `name`, with the strategy its type calls for.
pub proof fn law_field_from_renames(field: FieldDef, i: int, toks: Seq<Tok>, source: Seq<char>)
    requires
        field.ident is Some,
        field.attrs@.len() == 1,
        is_morph_attr(field.attrs@[0]),
        field.attrs@[0].args matches AttrArgs::List(list) && list@ == toks,
        toks.len() == 3,
        toks[0] matches Tok::Ident(key) && key@ == "from"@,
        toks[1] matches Tok::Punct(c, _) && c == '=',
        str_facts_of(toks[2]) matches Some(f) && f.value == source,
        is_ident_text(source),
    ensures
        spec_named_field_mapping(field, i) == Ok::<Seq<Seq<char>>, DiagView>(
            seq![field_ident(field) + ": "@ + spec_render_field_expr(plain_plan(field), "old."@ + source)],
        ),
{
    assert(!at_path_sep(toks, 0));
    assert(!at_path_sep(toks, 1));
    let o = Owner::Field(i as usize);
    let a = FieldAttrsView { from: Some(source), ..no_field_attrs() };
    assert(spec_field_list(toks, 0, no_field_attrs(), o, 0) == Ok::<FieldAttrsView, DiagView>(a));
    assert(spec_field_attrs_from(field.attrs@, 1, a, o) == Ok::<FieldAttrsView, DiagView>(a));
}

/// When each index yields exactly one part, a successful collection holds
/// one part per index, in index order.
pub proof fn law_one_part_each(n: int, f: spec_fn(int) -> Result<Seq<Seq<char>>, DiagView>)
    requires
        n >= 0,
        forall|i: int| 0 <= i < n ==> ((#[trigger] f(i)) matches Ok(ys) ==> ys.len() == 1),
    ensures
        collect(n, f) matches Ok(xs) ==> xs.len() == n && forall|i: int|
            0 <= i < n ==> #[trigger] f(i) == Ok::<Seq<Seq<char>>, DiagView>(seq![xs[i]]),
    decreases n,
{
    if n > 0 {
        law_one_part_each(n - 1, f);
        if let (Ok(xs), Ok(prev), Ok(last)) = (collect(n, f), collect(n - 1, f), f(n - 1)) {
            assert(xs == prev + last);
            assert forall|i: int| 0 <= i < n implies #[trigger] f(i) == Ok::<Seq<Seq<char>>, DiagView>(
                seq![xs[i]],
            ) by {
                if i < n - 1 {
                    assert(xs[i] == prev[i]);
                } else {
                    assert(last =~= seq![xs[i]]);
                }
            }
        }
    }
}

/// The generated `match` has exactly one arm per target variant, in
/// declaration order: arm `v` is the arm built for variant `v`.
pub proof fn law_one_arm_per_variant(
    name: Seq<char>,
    variants: Seq<VariantDef>,
    validate_path: Option<Seq<char>>,
)
    ensures
        spec_expand_enum_body(name, variants, validate_path) is Ok ==> {
            let f = arm_fn(name, variants, spec_validate_call(validate_path));
            &&& collect(variants.len() as int, f) matches Ok(arms)
            &&& arms.len() == variants.len()
            &&& spec_expand_enum_body(name, variants, validate_path) == Ok::<Seq<char>, DiagView>(
                "match old { "@ + join(arms, ", "@) + " }"@,
            )
            &&& forall|v: int|
                0 <= v < variants.len() ==> #[trigger] spec_variant_arm(
                    name,
                    variants[v],
                    v,
                    spec_validate_call(validate_path),
                ) == Ok::<Seq<Seq<char>>, DiagView>(seq![arms[v]])
        },
{
    let validate = spec_validate_call(validate_path);
    let f = arm_fn(name, variants, validate);
    assert forall|v: int| 0 <= v < variants.len() implies ((#[trigger] f(v)) matches Ok(ys) ==> ys.len()
        == 1) by {
        assert(f(v) == spec_variant_arm(name, variants[v], v, validate));
    }
    law_one_part_each(variants.len() as int, f);
    if let Ok(arms) = collect(variants.len() as int, f) {
        assert forall|v: int| 0 <= v < variants.len() implies #[trigger] spec_variant_arm(
            name,
            variants[v],
            v,
            validate,
        ) == Ok::<Seq<Seq<char>>, DiagView>(seq![arms[v]]) by {
            assert(f(v) == spec_variant_arm(name, variants[v], v, validate));
        }
    }
}

/// The generated struct expression initializes every field exactly once, in
/// declaration order: initializer `i` is the one built for field `i`.
pub proof fn law_one_initializer_per_field(fields: Seq<FieldDef>)
    ensures
        spec_build_named_field_mappings(fields) matches Ok(ms) ==> ms.len() == fields.len()
            && forall|i: int|
            0 <= i < fields.len() ==> #[trigger] spec_named_field_mapping(fields[i], i) == Ok::<
                Seq<Seq<char>>,
                DiagView,
            >(seq![ms[i]]),
{
    let f = named_mapping_fn(fields);
    assert forall|i: int| 0 <= i < fields.len() implies ((#[trigger] f(i)) matches Ok(ys) ==> ys.len()
        == 1) by {
        assert(f(i) == spec_named_field_mapping(fields[i], i));
    }
    law_one_part_each(fields.len() as int, f);
    if let Ok(ms) = collect(fields.len() as int, f) {
        assert forall|i: int| 0 <= i < fields.len() implies #[trigger] spec_named_field_mapping(
            fields[i],
            i,
        ) == Ok::<Seq<Seq<char>>, DiagView>(seq![ms[i]]) by {
            assert(f(i) == spec_named_field_mapping(fields[i], i));
        }
    }
}

/// Whether the text `e` contains the text `src`.
pub open spec fn reads(e: Seq<char>, src: Seq<char>) -> bool {
    exists|pre: Seq<char>, post: Seq<char>| e == pre + src + post
}

/// Every strategy but `skip`'s reads its source expression.
pub proof fn law_strategy_reads_source(plan: FieldPlanView, src: Seq<char>)
    requires
        !(plan is DefaultValue),
    ensures
        reads(spec_render_field_expr(plan, src), src),
{
    let e = spec_render_field_expr(plan, src);
    match plan {
        FieldPlanView::Transform(path) => {
            let post = ").map_err(|e| velomorph::MorphError::TransformError(e.to_string()))?"@;
            assert(e =~= (path + "\n("@) + src + post);
        },
        FieldPlanView::Borrow => {
            assert(e =~= "std::borrow::Cow::from("@ + src + ")"@);
        },
        FieldPlanView::Passthrough => {
            assert(e =~= Seq::<char>::empty() + src + Seq::<char>::empty());
        },
        FieldPlanView::OrDefault => {
            let post = " { Some(value) => value, None => "@ + default_call() + ", }"@;
            assert(e =~= "match "@ + src + post);
        },
        FieldPlanView::OrExpr(x) => {
            let post = " { Some(value) => value, None => "@ + x + "\n, }"@;
            assert(e =~= "match "@ + src + post);
        },
        FieldPlanView::Strict(name) => {
            let post = ".ok_or(velomorph::MorphError::MissingField(\""@ + name
                + "\".to_string()))?"@;
            assert(e =~= Seq::<char>::empty() + src + post);
        },
        FieldPlanView::DefaultValue => {},
    }
}

/// A struct's field reads the source only through `old.<source>`, and only
/// when it is not skipped: a skipped field is `Default::default()`, any other
/// field applies its strategy to `old.<source>` (its `from`, or its own
/// name). Source fields that no field names are never read.
pub proof fn law_struct_reads_only_mapped_sources(field: FieldDef, i: int)
    ensures
        spec_parse_field_morph_attrs(field, Owner::Field(i as usize)) matches Ok(a) ==> {
            let src = "old."@ + spec_source_name(field, a);
            &&& a.skip ==> spec_named_field_mapping(field, i) == Ok::<Seq<Seq<char>>, DiagView>(
                seq![field_ident(field) + ": "@ + default_call()],
            )
            &&& !a.skip ==> match spec_plan_field(field, a, Owner::Field(i as usize)) {
                Ok(plan) => spec_named_field_mapping(field, i) == Ok::<Seq<Seq<char>>, DiagView>(
                    seq![field_ident(field) + ": "@ + spec_render_field_expr(plan, src)],
                ) && reads(spec_render_field_expr(plan, src), src),
                Err(d) => spec_named_field_mapping(field, i) == Err::<Seq<Seq<char>>, DiagView>(d),
            }
        },
{
    let o = Owner::Field(i as usize);
    if let Ok(a) = spec_parse_field_morph_attrs(field, o) {
        if !a.skip {
            if let Ok(plan) = spec_plan_field(field, a, o) {
                law_strategy_reads_source(plan, "old."@ + spec_source_name(field, a));
            }
        }
    }
}

/// In the arm of a named variant, the bindings that the initializers read are
/// exactly those that the pattern binds: a skipped field is neither bound nor
/// read; any other field binds `__src_<name>` (as `__src_<name>` or as
/// `source: __src_<name>`), and its initializer reads that binding.
pub proof fn law_variant_bindings_match(field: FieldDef, v: int, i: int)
    ensures
        spec_parse_field_morph_attrs(field, Owner::VariantField(v as usize, i as usize)) matches Ok(
            a,
        ) ==> {
            let o = Owner::VariantField(v as usize, i as usize);
            let binding = spec_source_binding(field);
            &&& a.skip ==> spec_source_destructure(field, v, i) == Ok::<Seq<Seq<char>>, DiagView>(
                Seq::empty(),
            ) && spec_variant_mapping(field, v, i) == Ok::<Seq<Seq<char>>, DiagView>(
                seq![field_ident(field) + ": "@ + default_call()],
            )
            &&& (!a.skip && is_ident_text(binding)) ==> {
                &&& spec_source_destructure(field, v, i) matches Ok(ds)
                &&& ds.len() == 1
                &&& (ds[0] == binding || ds[0] == spec_source_name(field, a) + ": "@ + binding)
                &&& match spec_plan_field(field, a, o) {
                    Ok(plan) => spec_variant_mapping(field, v, i) == Ok::<Seq<Seq<char>>, DiagView>(
                        seq![field_ident(field) + ": "@ + spec_render_field_expr(plan, binding)],
                    ) && reads(spec_render_field_expr(plan, binding), binding),
                    Err(d) => spec_variant_mapping(field, v, i) == Err::<Seq<Seq<char>>, DiagView>(d),
                }
            }
        },
{
    let o = Owner::VariantField(v as usize, i as usize);
    if let Ok(a) = spec_parse_field_morph_attrs(field, o) {
        if !a.skip {
            if let Ok(plan) = spec_plan_field(field, a, o) {
                law_strategy_reads_source(plan, spec_source_binding(field));
            }
        }
    }
}

/// The derive writes two implementations with the same body, one per setting
/// of the `janitor` feature; in the `janitor` one, the janitor is only bound
/// to `_`, so the generated code never calls it.
pub proof fn law_two_impls_share_body(def: DeriveDef)
    ensures
        spec_expand_morph(def) matches Ok(t) ==> exists|from_type: Seq<char>, body: Seq<char>|
            t == janitor_impl_text(def, from_type, body) + plain_impl_text(def, from_type, body),
{
    if let Ok(ta) = spec_parse_type_morph_attrs(def) {
        let from_type = match ta.from_type {
            Some(t) => t,
            None => default_source_type(def),
        };
        let body = match def.data {
            DataDef::Struct(fields) => spec_expand_struct_body(def.ident@, fields, ta.validate_path),
            DataDef::Enum(vs) => spec_expand_enum_body(def.ident@, vs@, ta.validate_path),
            DataDef::Union => Err(diag(msg_not_struct_or_enum(), Site::Ident)),
        };
        if let Ok(b) = body {
            assert(spec_expand_morph(def) == Ok::<Seq<char>, DiagView>(impl_text(def, from_type, b)));
        }
    }
}

/// A field's `from` that is not an identifier is refused at its literal.
pub proof fn law_field_from_must_be_identifier(field: FieldDef, o: Owner, toks: Seq<Tok>, source: Seq<char>)
    requires
        field.attrs@.len() > 0,
        is_morph_attr(field.attrs@[0]),
        field.attrs@[0].args matches AttrArgs::List(list) && list@ == toks,
        toks.len() >= 3,
        toks[0] matches Tok::Ident(key) && key@ == "from"@,
        toks[1] matches Tok::Punct(c, _) && c == '=',
        str_facts_of(toks[2]) matches Some(f) && f.value == source,
        !is_ident_text(source),
    ensures
        spec_parse_field_morph_attrs(field, o) == Err::<FieldAttrsView, DiagView>(
            diag(msg_field_from_ident(), Site::AttrTokens(o, 0, 2, 2)),
        ),
{
    assert(!at_path_sep(toks, 0));
    assert(!at_path_sep(toks, 1));
}

/// The parts a producer gave at one index; none where it failed.
pub open spec fn parts_of(r: Result<Seq<Seq<char>>, DiagView>) -> Seq<Seq<char>> {
    match r {
        Ok(ys) => ys,
        Err(_) => Seq::empty(),
    }
}

/// When producing parts for indices `0..n` succeeds, every index succeeded,
/// each part of each index is in the result, and each part of the result
/// came from some index.
proof fn lemma_collect_parts(n: int, f: spec_fn(int) -> Result<Seq<Seq<char>>, DiagView>)
    requires
        n >= 0,
    ensures
        collect(n, f) matches Ok(xs) ==> {
            &&& forall|i: int| 0 <= i < n ==> (#[trigger] f(i)) is Ok
            &&& forall|i: int, x: Seq<char>|
                0 <= i < n && #[trigger] parts_of(f(i)).contains(x) ==> xs.contains(x)
            &&& forall|x: Seq<char>|
                xs.contains(x) ==> exists|i: int| 0 <= i < n && #[trigger] parts_of(f(i)).contains(x)
        },
    decreases n,
{
    if n > 0 {
        lemma_collect_parts(n - 1, f);
        if let (Ok(xs), Ok(prev), Ok(last)) = (collect(n, f), collect(n - 1, f), f(n - 1)) {
            assert(xs == prev + last);
            assert forall|i: int, x: Seq<char>|
                0 <= i < n && #[trigger] parts_of(f(i)).contains(x) implies xs.contains(x) by {
                if i < n - 1 {
                    let j = choose|j: int| 0 <= j < prev.len() && prev[j] == x;
                    assert(xs[j] == x);
                } else {
                    let j = choose|j: int| 0 <= j < last.len() && last[j] == x;
                    assert(xs[prev.len() + j] == x);
                }
            }
            assert forall|x: Seq<char>| xs.contains(x) implies exists|i: int|
                0 <= i < n && #[trigger] parts_of(f(i)).contains(x) by {
                let j = choose|j: int| 0 <= j < xs.len() && xs[j] == x;
                if j < prev.len() {
                    assert(prev[j] == x);
                    assert(prev.contains(x));
                } else {
                    assert(last[j - prev.len()] == x);
                    assert(parts_of(f(n - 1)).contains(x));
                }
            }
        }
    }
}

/// Over a struct's whole field list: when the initializers are built, there
/// is one per field, in order; a skipped field's is `Default::default()`, and
/// any other field's applies its strategy to `old.<source>` (its `from`, or
/// its own name) and reads it. No other source field is read.
pub proof fn law_struct_initializers_read_mapped_sources(fields: Seq<FieldDef>)
    ensures
        spec_build_named_field_mappings(fields) matches Ok(ms) ==> {
            &&& ms.len() == fields.len()
            &&& forall|i: int| 0 <= i < fields.len() ==> {
                let o = Owner::Field(i as usize);
                let field = #[trigger] fields[i];
                &&& spec_parse_field_morph_attrs(field, o) matches Ok(a)
                &&& a.skip ==> ms[i] == field_ident(field) + ": "@ + default_call()
                &&& !a.skip ==> {
                    let src = "old."@ + spec_source_name(field, a);
                    &&& spec_plan_field(field, a, o) matches Ok(plan)
                    &&& ms[i] == field_ident(field) + ": "@ + spec_render_field_expr(plan, src)
                    &&& reads(spec_render_field_expr(plan, src), src)
                }
            }
        },
{
    law_one_initializer_per_field(fields);
    if let Ok(ms) = spec_build_named_field_mappings(fields) {
        assert forall|i: int| 0 <= i < fields.len() implies {
            let o = Owner::Field(i as usize);
            let field = #[trigger] fields[i];
            &&& spec_parse_field_morph_attrs(field, o) matches Ok(a)
            &&& a.skip ==> ms[i] == field_ident(field) + ": "@ + default_call()
            &&& !a.skip ==> {
                let src = "old."@ + spec_source_name(field, a);
                &&& spec_plan_field(field, a, o) matches Ok(plan)
                &&& ms[i] == field_ident(field) + ": "@ + spec_render_field_expr(plan, src)
                &&& reads(spec_render_field_expr(plan, src), src)
            }
        } by {
            let o = Owner::Field(i as usize);
            let field = fields[i];
            assert(spec_named_field_mapping(field, i) == Ok::<Seq<Seq<char>>, DiagView>(seq![ms[i]]));
            law_struct_reads_only_mapped_sources(field, i);
            if let Ok(a) = spec_parse_field_morph_attrs(field, o) {
                if a.skip {
                    assert(seq![ms[i]][0] == ms[i]);
                } else {
                    if let Ok(plan) = spec_plan_field(field, a, o) {
                        assert(seq![ms[i]][0] == ms[i]);
                    }
                }
            }
        }
    }
}

/// The attributes of field `i` of named variant `v`, as read; none where
/// they cannot be read.
pub open spec fn variant_field_attrs(field: FieldDef, v: int, i: int) -> FieldAttrsView {
    match spec_parse_field_morph_attrs(field, Owner::VariantField(v as usize, i as usize)) {
        Ok(a) => a,
        Err(_) => no_field_attrs(),
    }
}

/// The pattern that binds a field of a source variant to its binding
/// `__src_<name>`: the binding alone when the source field has that name,
/// `source: binding` otherwise.
pub open spec fn field_pattern(field: FieldDef, a: FieldAttrsView) -> Seq<char> {
    let source = spec_source_name(field, a);
    let binding = spec_source_binding(field);
    if source == binding {
        source
    } else {
        source + ": "@ + binding
    }
}

/// Over a named variant's whole field list: when both the pattern and the
/// initializers are built, there is one initializer per field, in order; a
/// skipped field's is `Default::default()` and binds nothing; any other
/// field's pattern is in the pattern list and its initializer applies its
/// strategy to its binding and reads it; and every part of the pattern binds
/// a field that is not skipped.
pub proof fn law_variant_arm_bindings(fields: Seq<FieldDef>, v: int)
    ensures
        spec_build_named_source_destructures(fields, v) matches Ok(ds) ==> (
        spec_build_named_variant_mappings(fields, v) matches Ok(ms) ==> {
            &&& ms.len() == fields.len()
            &&& forall|i: int| 0 <= i < fields.len() ==> {
                let o = Owner::VariantField(v as usize, i as usize);
                let field = #[trigger] fields[i];
                let a = variant_field_attrs(field, v, i);
                let binding = spec_source_binding(field);
                &&& spec_parse_field_morph_attrs(field, o) == Ok::<FieldAttrsView, DiagView>(a)
                &&& a.skip ==> ms[i] == field_ident(field) + ": "@ + default_call()
                &&& !a.skip ==> {
                    &&& ds.contains(field_pattern(field, a))
                    &&& spec_plan_field(field, a, o) matches Ok(plan)
                    &&& ms[i] == field_ident(field) + ": "@ + spec_render_field_expr(plan, binding)
                    &&& reads(spec_render_field_expr(plan, binding), binding)
                }
            }
            &&& forall|x: Seq<char>| ds.contains(x) ==> exists|i: int|
                0 <= i < fields.len() && !variant_field_attrs(#[trigger] fields[i], v, i).skip
                    && x == field_pattern(fields[i], variant_field_attrs(fields[i], v, i))
        }),
{
    let fd = destructure_fn(fields, v);
    let fm = variant_mapping_fn(fields, v);
    if let (Ok(ds), Ok(ms)) = (
        spec_build_named_source_destructures(fields, v),
        spec_build_named_variant_mappings(fields, v),
    ) {
        lemma_collect_parts(fields.len() as int, fd);
        assert forall|i: int| 0 <= i < fields.len() implies ((#[trigger] fm(i)) matches Ok(ys) ==> ys.len()
            == 1) by {
            assert(fm(i) == spec_variant_mapping(fields[i], v, i));
        }
        law_one_part_each(fields.len() as int, fm);
        assert forall|i: int| 0 <= i < fields.len() implies {
            let o = Owner::VariantField(v as usize, i as usize);
            let field = #[trigger] fields[i];
            let a = variant_field_attrs(field, v, i);
            let binding = spec_source_binding(field);
            &&& spec_parse_field_morph_attrs(field, o) == Ok::<FieldAttrsView, DiagView>(a)
            &&& a.skip ==> ms[i] == field_ident(field) + ": "@ + default_call()
            &&& !a.skip ==> {
                &&& ds.contains(field_pattern(field, a))
                &&& spec_plan_field(field, a, o) matches Ok(plan)
                &&& ms[i] == field_ident(field) + ": "@ + spec_render_field_expr(plan, binding)
                &&& reads(spec_render_field_expr(plan, binding), binding)
            }
        } by {
            assert(fd(i) == spec_source_destructure(fields[i], v, i));
            assert(fd(i) is Ok);
            assert(fm(i) == spec_variant_mapping(fields[i], v, i));
            law_variant_bindings_match(fields[i], v, i);
            let o = Owner::VariantField(v as usize, i as usize);
            let a = variant_field_attrs(fields[i], v, i);
            assert(spec_variant_mapping(fields[i], v, i) == Ok::<Seq<Seq<char>>, DiagView>(seq![ms[i]]));
            assert(seq![ms[i]][0] == ms[i]);
            if !a.skip {
                let p = field_pattern(fields[i], a);
                assert(parts_of(fd(i)) =~= seq![p]);
                assert(parts_of(fd(i))[0] == p);
                assert(parts_of(fd(i)).contains(p));
                if let Ok(plan) = spec_plan_field(fields[i], a, o) {
                    assert(seq![ms[i]][0] == ms[i]);
                }
            }
        }
        assert forall|x: Seq<char>| ds.contains(x) implies exists|i: int|
            0 <= i < fields.len() && !variant_field_attrs(#[trigger] fields[i], v, i).skip
                && x == field_pattern(fields[i], variant_field_attrs(fields[i], v, i)) by {
            let i = choose|i: int| 0 <= i < fields.len() && #[trigger] parts_of(fd(i)).contains(x);
            assert(fd(i) == spec_source_destructure(fields[i], v, i));
            law_variant_bindings_match(fields[i], v, i);
            let a = variant_field_attrs(fields[i], v, i);
            if !a.skip {
                assert(parts_of(fd(i)) =~= seq![field_pattern(fields[i], a)]);
            }
        }
    }
}

/// Among ASCII strings, the identifiers that `from` accepts are exactly the
/// usual ones: not empty, a letter or `_` first, then letters, digits and `_`.
pub proof fn law_ascii_identifiers(s: Seq<char>)
    requires
        forall|i: int| 0 <= i < s.len() ==> #[trigger] s[i] <= '\x7f',
    ensures
        is_ident_text(s) <==> {
            &&& s.len() > 0
            &&& (s[0] == '_' || ascii_letter(s[0]))
            &&& forall|i: int|
                1 <= i < s.len() ==> ascii_letter(#[trigger] s[i]) || ascii_digit(s[i]) || s[i] == '_'
        },
{
    if s.len() > 0 && (s[0] == '_' || ascii_letter(s[0])) {
        assert(!ascii_digit(s[0]));
    }
}

/// The text a step gave; empty where it failed.
pub open spec fn ok_text(r: Result<Seq<char>, DiagView>) -> Seq<char> {
    match r {
        Ok(t) => t,
        Err(_) => Seq::empty(),
    }
}

/// `text` begins with the name `name`, which ends there: nothing, a space or
/// an opening parenthesis follows it.
pub open spec fn starts_with_name(text: Seq<char>, name: Seq<char>) -> bool {
    &&& name.len() <= text.len()
    &&& text.subrange(0, name.len() as int) == name
    &&& (text.len() == name.len() || text[name.len() as int] == ' ' || text[name.len() as int] == '(')
}

/// The text of a match arm: `pattern => { let mapped = value; <validate> Ok(mapped) }`.
pub open spec fn arm_parts(pattern: Seq<char>, value: Seq<char>, validate: Seq<char>) -> Seq<char> {
    pattern + " => { "@ + "let mapped = "@ + value + ";\n"@ + validate + "\nOk(mapped)"@ + " }"@
}

/// `arm` matches the source variant `source`, builds a value of the target
/// variant `target` (a path such as `Enum::Variant`), runs `validate` on it
/// and returns it.
pub open spec fn is_arm(arm: Seq<char>, source: Seq<char>, target: Seq<char>, validate: Seq<char>) -> bool {
    exists|pattern: Seq<char>, value: Seq<char>|
        #[trigger] arm_parts(pattern, value, validate) == arm && starts_with_name(pattern, "Self::"@ + source)
            && starts_with_name(value, target)
}

proof fn lemma_name_then(name: Seq<char>, tail: Seq<char>)
    requires
        tail.len() == 0 || tail[0] == ' ' || tail[0] == '(',
    ensures
        starts_with_name(name + tail, name),
{
    assert((name + tail).subrange(0, name.len() as int) =~= name);
    if tail.len() > 0 {
        assert((name + tail)[name.len() as int] == tail[0]);
    }
}

/// An arm written from a pattern and a value that each begin with their name
/// is such an arm.
proof fn lemma_arm_text_is_arm(
    sv: Seq<char>,
    pt: Seq<char>,
    target: Seq<char>,
    vt: Seq<char>,
    validate: Seq<char>,
)
    requires
        pt.len() == 0 || pt[0] == ' ' || pt[0] == '(',
        vt.len() == 0 || vt[0] == ' ' || vt[0] == '(',
    ensures
        is_arm(arm_text("Self::"@ + sv + pt, target + vt, validate), sv, target, validate),
{
    lemma_name_then("Self::"@ + sv, pt);
    lemma_name_then(target, vt);
    let pattern = "Self::"@ + sv + pt;
    let value = target + vt;
    assert(arm_text(pattern, value, validate) =~= arm_parts(pattern, value, validate));
}

proof fn lemma_braces_start(inner: Seq<char>)
    ensures
        (" { "@ + inner + " }"@)[0] == ' ',
        ("( "@ + inner + " )"@)[0] == '(',
{
    reveal_strlit(" { ");
    reveal_strlit("( ");
    assert((" { "@ + inner + " }"@)[0] == " { "@[0]);
    assert(("( "@ + inner + " )"@)[0] == "( "@[0]);
}

/// Whatever the shape of a variant (unit, named or tuple fields), its arm
/// matches the source variant that the variant resolves to (its `from`, or
/// its own name), builds the target variant, and runs the `validate`
/// statement on the built value before returning it.
pub proof fn law_variant_arm_matches_source(name: Seq<char>, variant: VariantDef, v: int, validate: Seq<char>)
    ensures
        spec_variant_arm(name, variant, v, validate) matches Ok(parts) ==> {
            &&& parts.len() == 1
            &&& spec_resolve_source_variant_ident(variant, v as usize) matches Ok(sv)
            &&& is_arm(parts[0], sv, name + "::"@ + variant.ident@, validate)
        },
{
    if let Ok(parts) = spec_variant_arm(name, variant, v, validate) {
        let sv = ok_text(spec_resolve_source_variant_ident(variant, v as usize));
        let target = name + "::"@ + variant.ident@;
        match variant.fields {
            FieldsDef::Unit => {
                assert("Self::"@ + sv + Seq::<char>::empty() =~= "Self::"@ + sv);
                assert(target + Seq::<char>::empty() =~= target);
                lemma_arm_text_is_arm(sv, Seq::empty(), target, Seq::empty(), validate);
            },
            FieldsDef::Named(fs) => {
                let ds = parts_of(spec_build_named_source_destructures(fs@, v));
                let ms = parts_of(spec_build_named_variant_mappings(fs@, v));
                let pt = " { "@ + join(ds, ", "@) + " }"@;
                let vt = " { "@ + join(ms, ", "@) + " }"@;
                lemma_braces_start(join(ds, ", "@));
                lemma_braces_start(join(ms, ", "@));
                assert("Self::"@ + sv + " { "@ + join(ds, ", "@) + " }"@ =~= "Self::"@ + sv + pt);
                assert(target + " { "@ + join(ms, ", "@) + " }"@ =~= target + vt);
                lemma_arm_text_is_arm(sv, pt, target, vt, validate);
            },
            FieldsDef::Unnamed(fs) => {
                let es = parts_of(collect(fs.len() as int, positional_fn(fs@, v)));
                let bs = join(positional_bindings(fs.len() as int), ", "@);
                let pt = "( "@ + bs + " )"@;
                let vt = "( "@ + join(es, ", "@) + " )"@;
                lemma_braces_start(bs);
                lemma_braces_start(join(es, ", "@));
                assert("Self::"@ + sv + "( "@ + bs + " )"@ =~= "Self::"@ + sv + pt);
                assert(target + "( "@ + join(es, ", "@) + " )"@ =~= target + vt);
                lemma_arm_text_is_arm(sv, pt, target, vt, validate);
            },
        }
    }
}

/// The `match` an enum's body is made of has one arm per target variant, in
/// order; each matches the source variant its variant resolves to and runs
/// the item's `validate` hook (if any) on the built value before returning it.
pub proof fn law_enum_arms_match_sources_and_validate(
    name: Seq<char>,
    variants: Seq<VariantDef>,
    validate_path: Option<Seq<char>>,
)
    ensures
        spec_expand_enum_body(name, variants, validate_path) matches Ok(body) ==> exists|arms: Seq<Seq<char>>|
            {
                &&& arms.len() == variants.len()
                &&& body == "match old { "@ + #[trigger] join(arms, ", "@) + " }"@
                &&& forall|v: int|
                    0 <= v < variants.len() ==> (spec_resolve_source_variant_ident(
                        #[trigger] variants[v],
                        v as usize,
                    ) matches Ok(sv) && is_arm(
                        arms[v],
                        sv,
                        name + "::"@ + variants[v].ident@,
                        spec_validate_call(validate_path),
                    ))
            },
{
    law_one_arm_per_variant(name, variants, validate_path);
    let validate = spec_validate_call(validate_path);
    if let Ok(body) = spec_expand_enum_body(name, variants, validate_path) {
        let arms = parts_of(collect(variants.len() as int, arm_fn(name, variants, validate)));
        assert forall|v: int| 0 <= v < variants.len() implies (spec_resolve_source_variant_ident(
            #[trigger] variants[v],
            v as usize,
        ) matches Ok(sv) && is_arm(arms[v], sv, name + "::"@ + variants[v].ident@, validate)) by {
            assert(spec_variant_arm(name, variants[v], v, validate) == Ok::<Seq<Seq<char>>, DiagView>(seq![arms[v]]));
            law_variant_arm_matches_source(name, variants[v], v, validate);
            assert(seq![arms[v]][0] == arms[v]);
        }
        assert(body == "match old { "@ + join(arms, ", "@) + " }"@);
    }
}

/// A struct's body builds the struct from one initializer per field, in
/// order, then runs the item's `validate` hook (if any) on the built value
/// before returning it.
pub proof fn law_struct_body_runs_validate(
    name: Seq<char>,
    fields: FieldsDef,
    validate_path: Option<Seq<char>>,
)
    ensures
        spec_expand_struct_body(name, fields, validate_path) matches Ok(body) ==> {
            &&& fields matches FieldsDef::Named(fs)
            &&& spec_build_named_field_mappings(fs@) matches Ok(ms)
            &&& ms.len() == fs@.len()
            &&& body == "let mapped = "@ + (name + " { "@ + join(ms, ", "@) + " }"@) + ";\n"@
                + spec_validate_call(validate_path) + "\nOk(mapped)"@
        },
{
    if let FieldsDef::Named(fs) = fields {
        law_one_initializer_per_field(fs@);
    }
}

/// A field with `with = "p"` is transformed by `p`, whatever its type
/// (`Option` and `Cow` fields included), unless it is skipped or is an
/// `Option` field with a `default` (an error).
pub proof fn law_with_wins_over_type(field: FieldDef, attrs: FieldAttrsView, o: Owner, p: Seq<char>)
    requires
        !attrs.skip,
        attrs.with_path == Some(p),
        !(attrs.default_kind is Some && field.ty.spec_is_type_name("Option"@)),
    ensures
        spec_plan_field(field, attrs, o) == Ok::<FieldPlanView, DiagView>(FieldPlanView::Transform(p)),
{
}

} // verus!
