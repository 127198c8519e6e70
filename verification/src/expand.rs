//! The Rust source of the `TryMorph` implementation that `#[derive(Morph)]`
//! writes for a struct or an enum.
use vstd::prelude::*;
use crate::model::{
    DataDef, DeriveDef, Diagnostic, DiagView, FieldDef, FieldsDef, Owner, Site, VariantDef, diag,
    str_res_view,
};
use crate::attrs::{
    FieldAttrsView, opt_str_view, parse_field_morph_attrs, parse_type_morph_attrs,
    resolve_source_variant_ident, spec_parse_field_morph_attrs, spec_parse_type_morph_attrs,
    spec_resolve_source_variant_ident,
};
use crate::plan::{build_field_expr, generate_validate_call, spec_build_field_expr, spec_validate_call};
use crate::syntax::{is_ident_text, is_identifier};
use crate::text::{collect, decimal, decimal_string, join, join_strings, owned, views};

verus! {

// ---------------------------------------------------------------------------
// Well-formed items

/// Every field of a named field list has a name.
pub open spec fn named_fields_wf(fields: Seq<FieldDef>) -> bool {
    forall|i: int| 0 <= i < fields.len() ==> (#[trigger] fields[i]).ident is Some
}

pub open spec fn fields_wf(fields: FieldsDef) -> bool {
    match fields {
        FieldsDef::Named(fs) => named_fields_wf(fs@),
        _ => true,
    }
}

impl DeriveDef {
    /// The item is one that Rust's parser can produce: named fields have
    /// names.
    pub open spec fn well_formed(&self) -> bool {
        match self.data {
            DataDef::Struct(fields) => fields_wf(fields),
            DataDef::Enum(vs) => forall|v: int| 0 <= v < vs.len() ==> fields_wf(
                (#[trigger] vs@[v]).fields,
            ),
            DataDef::Union => true,
        }
    }
}

pub open spec fn field_ident(field: FieldDef) -> Seq<char> {
    match field.ident {
        Some(s) => s@,
        None => Seq::empty(),
    }
}

/// The source field a target field reads: its `from`, or its own name.
pub open spec fn spec_source_name(field: FieldDef, attrs: FieldAttrsView) -> Seq<char> {
    match attrs.from {
        Some(s) => s,
        None => field_ident(field),
    }
}

pub proof fn lemma_collect_err_stays(
    k: int,
    n: int,
    f: spec_fn(int) -> Result<Seq<Seq<char>>, DiagView>,
)
    requires
        k <= n,
        collect(k, f) is Err,
    ensures
        collect(n, f) == collect(k, f),
    decreases n - k,
{
    if n > k {
        lemma_collect_err_stays(k, n - 1, f);
    }
}

// ---------------------------------------------------------------------------
// Struct bodies

/// `name: expr` for field `i` of a struct, reading `old.<source>`.
pub open spec fn spec_named_field_mapping(field: FieldDef, i: int) -> Result<
    Seq<Seq<char>>,
    DiagView,
> {
    let o = Owner::Field(i as usize);
    match spec_parse_field_morph_attrs(field, o) {
        Err(d) => Err(d),
        Ok(a) => match spec_build_field_expr(field, a, "old."@ + spec_source_name(field, a), o) {
            Err(d) => Err(d),
            Ok(e) => Ok(seq![field_ident(field) + ": "@ + e]),
        },
    }
}

pub open spec fn named_mapping_fn(fields: Seq<FieldDef>) -> spec_fn(int) -> Result<
    Seq<Seq<char>>,
    DiagView,
> {
    |i: int| spec_named_field_mapping(fields[i], i)
}

/// The `name: expr` initializers of a struct's fields, in order, or the
/// first error.
pub open spec fn spec_build_named_field_mappings(fields: Seq<FieldDef>) -> Result<
    Seq<Seq<char>>,
    DiagView,
> {
    collect(fields.len() as int, named_mapping_fn(fields))
}

fn named_field_mapping(field: &FieldDef, i: usize) -> (r: Result<String, Diagnostic>)
    requires
        field.ident is Some,
    ensures
        match r {
            Ok(m) => spec_named_field_mapping(*field, i as int) == Ok::<Seq<Seq<char>>, DiagView>(
                seq![m@],
            ),
            Err(d) => spec_named_field_mapping(*field, i as int) == Err::<Seq<Seq<char>>, DiagView>(
                d@,
            ),
        },
{
    let o = Owner::Field(i);
    let attrs = parse_field_morph_attrs(field, o)?;
    let target = field.ident.as_ref().unwrap();
    let mut src = owned("old.");
    match &attrs.from {
        Some(s) => src.append(s.as_str()),
        None => src.append(target.as_str()),
    }
    let e = build_field_expr(field, &attrs, src.as_str(), o)?;
    let mut m = target.clone();
    m.append(": ");
    m.append(e.as_str());
    Ok(m)
}

/// The `name: expr` initializers of a struct's fields, in order.
pub fn build_named_field_mappings(fields: &Vec<FieldDef>) -> (r: Result<Vec<String>, Diagnostic>)
    requires
        named_fields_wf(fields@),
    ensures
        match r {
            Ok(v) => spec_build_named_field_mappings(fields@) == Ok::<Seq<Seq<char>>, DiagView>(
                views(v@),
            ),
            Err(d) => spec_build_named_field_mappings(fields@) == Err::<Seq<Seq<char>>, DiagView>(
                d@,
            ),
        },
{
    let ghost f = named_mapping_fn(fields@);
    let mut out: Vec<String> = Vec::new();
    let mut i: usize = 0;
    assert(views(out@) =~= Seq::<Seq<char>>::empty());
    while i < fields.len()
        invariant
            i <= fields.len(),
            named_fields_wf(fields@),
            f == named_mapping_fn(fields@),
            collect(i as int, f) == Ok::<Seq<Seq<char>>, DiagView>(views(out@)),
        decreases fields.len() - i,
    {
        assert(fields@[i as int].ident is Some);
        match named_field_mapping(&fields[i], i) {
            Ok(m) => {
                let ghost before = views(out@);
                out.push(m);
                assert(views(out@) =~= before + seq![m@]);
            },
            Err(d) => {
                proof {
                    lemma_collect_err_stays(i + 1, fields.len() as int, f);
                }
                return Err(d);
            },
        }
        i = i + 1;
    }
    Ok(out)
}

/// `let mapped = <value>; <validate> Ok(mapped)`.
pub open spec fn mapped_block(value: Seq<char>, validate: Seq<char>) -> Seq<char> {
    "let mapped = "@ + value + ";\n"@ + validate + "\nOk(mapped)"@
}

fn mapped_block_text(value: &str, validate: &str) -> (r: String)
    ensures
        r@ == mapped_block(value@, validate@),
{
    let mut r = owned("let mapped = ");
    r.append(value);
    r.append(";\n");
    r.append(validate);
    r.append("\nOk(mapped)");
    r
}

pub open spec fn msg_named_fields() -> Seq<char> {
    "Velomorph requires named fields for structs."@
}

/// The body of `try_morph` for a struct `name` with `fields`: build the
/// struct from the fields' initializers, run the validation, return it.
/// Only structs with named fields are supported.
pub open spec fn spec_expand_struct_body(
    name: Seq<char>,
    fields: FieldsDef,
    validate_path: Option<Seq<char>>,
) -> Result<Seq<char>, DiagView> {
    match fields {
        FieldsDef::Named(fs) => match spec_build_named_field_mappings(fs@) {
            Err(d) => Err(d),
            Ok(ms) => Ok(
                mapped_block(name + " { "@ + join(ms, ", "@) + " }"@, spec_validate_call(validate_path)),
            ),
        },
        _ => Err(diag(msg_named_fields(), Site::Fields)),
    }
}

pub fn expand_struct_body(name: &str, fields: &FieldsDef, validate_path: &Option<String>) -> (r:
    Result<String, Diagnostic>)
    requires
        fields_wf(*fields),
    ensures
        str_res_view(r) == spec_expand_struct_body(name@, *fields, opt_str_view(*validate_path)),
{
    match fields {
        FieldsDef::Named(fs) => {
            let ms = build_named_field_mappings(fs)?;
            let mut value = owned(name);
            value.append(" { ");
            value.append(join_strings(&ms, ", ").as_str());
            value.append(" }");
            let validate = generate_validate_call(validate_path);
            Ok(mapped_block_text(value.as_str(), validate.as_str()))
        },
        _ => Err(
            Diagnostic {
                message: owned("Velomorph requires named fields for structs."),
                site: Site::Fields,
            },
        ),
    }
}

// ---------------------------------------------------------------------------
// Enum bodies

/// The binding a named field of variant `v` is matched into: `__src_<name>`.
pub open spec fn spec_source_binding(field: FieldDef) -> Seq<char> {
    "__src_"@ + field_ident(field)
}

pub fn source_binding_for_field(field: &FieldDef) -> (r: String)
    requires
        field.ident is Some,
    ensures
        r@ == spec_source_binding(*field),
{
    let mut r = owned("__src_");
    r.append(field.ident.as_ref().unwrap().as_str());
    r
}

/// The error for a variant field whose binding `__src_<name>` is not an
/// identifier (as for a raw identifier `r#name`).
pub open spec fn msg_binding(binding: Seq<char>) -> Seq<char> {
    "`"@ + binding + "` is not a valid identifier for a variant field binding."@
}

/// The pattern part for field `i` of variant `v`: nothing for a skipped
/// field, an error when the binding is not an identifier, `source` when it
/// already is the binding, `source: binding` otherwise.
pub open spec fn spec_source_destructure(field: FieldDef, v: int, i: int) -> Result<
    Seq<Seq<char>>,
    DiagView,
> {
    match spec_parse_field_morph_attrs(field, Owner::VariantField(v as usize, i as usize)) {
        Err(d) => Err(d),
        Ok(a) => if a.skip {
            Ok(Seq::empty())
        } else if !is_ident_text(spec_source_binding(field)) {
            Err(
                diag(
                    msg_binding(spec_source_binding(field)),
                    Site::Field(Owner::VariantField(v as usize, i as usize)),
                ),
            )
        } else {
            let source = spec_source_name(field, a);
            let binding = spec_source_binding(field);
            if source == binding {
                Ok(seq![source])
            } else {
                Ok(seq![source + ": "@ + binding])
            }
        },
    }
}

pub open spec fn destructure_fn(fields: Seq<FieldDef>, v: int) -> spec_fn(int) -> Result<
    Seq<Seq<char>>,
    DiagView,
> {
    |i: int| spec_source_destructure(fields[i], v, i)
}

/// The field patterns of named variant `v`, in order (skipped fields left
/// out), or the first error.
pub open spec fn spec_build_named_source_destructures(fields: Seq<FieldDef>, v: int) -> Result<
    Seq<Seq<char>>,
    DiagView,
> {
    collect(fields.len() as int, destructure_fn(fields, v))
}

fn source_destructure(field: &FieldDef, v: usize, i: usize) -> (r: Result<Vec<String>, Diagnostic>)
    requires
        field.ident is Some,
    ensures
        match r {
            Ok(d) => spec_source_destructure(*field, v as int, i as int) == Ok::<
                Seq<Seq<char>>,
                DiagView,
            >(views(d@)),
            Err(d) => spec_source_destructure(*field, v as int, i as int) == Err::<
                Seq<Seq<char>>,
                DiagView,
            >(d@),
        },
{
    let attrs = parse_field_morph_attrs(field, Owner::VariantField(v, i))?;
    let mut out: Vec<String> = Vec::new();
    if attrs.skip {
        assert(views(out@) =~= Seq::<Seq<char>>::empty());
        return Ok(out);
    }
    let source = match &attrs.from {
        Some(s) => s.clone(),
        None => field.ident.as_ref().unwrap().clone(),
    };
    let binding = source_binding_for_field(field);
    if !is_identifier(binding.as_str()) {
        let mut message = owned("`");
        message.append(binding.as_str());
        message.append("` is not a valid identifier for a variant field binding.");
        return Err(Diagnostic { message, site: Site::Field(Owner::VariantField(v, i)) });
    }
    if crate::model::string_eq(source.as_str(), binding.as_str()) {
        out.push(source);
    } else {
        let mut d = source;
        d.append(": ");
        d.append(binding.as_str());
        out.push(d);
    }
    assert(views(out@) =~= seq![out@[0]@]);
    Ok(out)
}

/// The field patterns of named variant `v`, in order.
pub fn build_named_source_destructures(fields: &Vec<FieldDef>, v: usize) -> (r: Result<
    Vec<String>,
    Diagnostic,
>)
    requires
        named_fields_wf(fields@),
    ensures
        match r {
            Ok(d) => spec_build_named_source_destructures(fields@, v as int) == Ok::<
                Seq<Seq<char>>,
                DiagView,
            >(views(d@)),
            Err(d) => spec_build_named_source_destructures(fields@, v as int) == Err::<
                Seq<Seq<char>>,
                DiagView,
            >(d@),
        },
{
    let ghost f = destructure_fn(fields@, v as int);
    let mut out: Vec<String> = Vec::new();
    let mut i: usize = 0;
    assert(views(out@) =~= Seq::<Seq<char>>::empty());
    while i < fields.len()
        invariant
            i <= fields.len(),
            named_fields_wf(fields@),
            f == destructure_fn(fields@, v as int),
            collect(i as int, f) == Ok::<Seq<Seq<char>>, DiagView>(views(out@)),
        decreases fields.len() - i,
    {
        assert(fields@[i as int].ident is Some);
        match source_destructure(&fields[i], v, i) {
            Ok(mut part) => {
                let ghost before = views(out@);
                let ghost added = views(part@);
                out.append(&mut part);
                assert(views(out@) =~= before + added);
            },
            Err(d) => {
                proof {
                    lemma_collect_err_stays(i + 1, fields.len() as int, f);
                }
                return Err(d);
            },
        }
        i = i + 1;
    }
    Ok(out)
}

/// `name: expr` for field `i` of named variant `v`, reading its binding.
pub open spec fn spec_variant_mapping(field: FieldDef, v: int, i: int) -> Result<
    Seq<Seq<char>>,
    DiagView,
> {
    let o = Owner::VariantField(v as usize, i as usize);
    match spec_parse_field_morph_attrs(field, o) {
        Err(d) => Err(d),
        Ok(a) => match spec_build_field_expr(field, a, spec_source_binding(field), o) {
            Err(d) => Err(d),
            Ok(e) => Ok(seq![field_ident(field) + ": "@ + e]),
        },
    }
}

pub open spec fn variant_mapping_fn(fields: Seq<FieldDef>, v: int) -> spec_fn(int) -> Result<
    Seq<Seq<char>>,
    DiagView,
> {
    |i: int| spec_variant_mapping(fields[i], v, i)
}

/// The `name: expr` initializers of named variant `v`, in order, or the
/// first error.
pub open spec fn spec_build_named_variant_mappings(fields: Seq<FieldDef>, v: int) -> Result<
    Seq<Seq<char>>,
    DiagView,
> {
    collect(fields.len() as int, variant_mapping_fn(fields, v))
}

fn variant_mapping(field: &FieldDef, v: usize, i: usize) -> (r: Result<String, Diagnostic>)
    requires
        field.ident is Some,
    ensures
        match r {
            Ok(m) => spec_variant_mapping(*field, v as int, i as int) == Ok::<
                Seq<Seq<char>>,
                DiagView,
            >(seq![m@]),
            Err(d) => spec_variant_mapping(*field, v as int, i as int) == Err::<
                Seq<Seq<char>>,
                DiagView,
            >(d@),
        },
{
    let o = Owner::VariantField(v, i);
    let attrs = parse_field_morph_attrs(field, o)?;
    // A skipped field renders as `Default::default()`, which is what the
    // field expression of a skipped field is.
    let binding = source_binding_for_field(field);
    let e = build_field_expr(field, &attrs, binding.as_str(), o)?;
    let mut m = field.ident.as_ref().unwrap().clone();
    m.append(": ");
    m.append(e.as_str());
    Ok(m)
}

/// The `name: expr` initializers of named variant `v`, in order.
pub fn build_named_variant_mappings(fields: &Vec<FieldDef>, v: usize) -> (r: Result<
    Vec<String>,
    Diagnostic,
>)
    requires
        named_fields_wf(fields@),
    ensures
        match r {
            Ok(ms) => spec_build_named_variant_mappings(fields@, v as int) == Ok::<
                Seq<Seq<char>>,
                DiagView,
            >(views(ms@)),
            Err(d) => spec_build_named_variant_mappings(fields@, v as int) == Err::<
                Seq<Seq<char>>,
                DiagView,
            >(d@),
        },
{
    let ghost f = variant_mapping_fn(fields@, v as int);
    let mut out: Vec<String> = Vec::new();
    let mut i: usize = 0;
    assert(views(out@) =~= Seq::<Seq<char>>::empty());
    while i < fields.len()
        invariant
            i <= fields.len(),
            named_fields_wf(fields@),
            f == variant_mapping_fn(fields@, v as int),
            collect(i as int, f) == Ok::<Seq<Seq<char>>, DiagView>(views(out@)),
        decreases fields.len() - i,
    {
        assert(fields@[i as int].ident is Some);
        match variant_mapping(&fields[i], v, i) {
            Ok(m) => {
                let ghost before = views(out@);
                out.push(m);
                assert(views(out@) =~= before + seq![m@]);
            },
            Err(d) => {
                proof {
                    lemma_collect_err_stays(i + 1, fields.len() as int, f);
                }
                return Err(d);
            },
        }
        i = i + 1;
    }
    Ok(out)
}

pub open spec fn msg_tuple_from() -> Seq<char> {
    "`from` is not supported on tuple enum fields."@
}

/// The binding of positional field `i`: `__v<i>`.
pub open spec fn positional_binding(i: int) -> Seq<char> {
    "__v"@ + decimal(i as nat)
}

/// The expression for positional field `i` of variant `v`, read from its
/// binding `binding`: `from` is refused there.
pub open spec fn spec_build_positional_field_expr(
    field: FieldDef,
    binding: Seq<char>,
    v: int,
    i: int,
) -> Result<Seq<char>, DiagView> {
    let o = Owner::VariantField(v as usize, i as usize);
    match spec_parse_field_morph_attrs(field, o) {
        Err(d) => Err(d),
        Ok(a) => if a.from is Some {
            Err(diag(msg_tuple_from(), Site::Field(o)))
        } else {
            spec_build_field_expr(field, a, binding, o)
        },
    }
}

pub fn build_positional_field_expr(field: &FieldDef, binding: &str, v: usize, i: usize) -> (r:
    Result<String, Diagnostic>)
    ensures
        str_res_view(r) == spec_build_positional_field_expr(*field, binding@, v as int, i as int),
{
    let o = Owner::VariantField(v, i);
    let attrs = parse_field_morph_attrs(field, o)?;
    if attrs.from.is_some() {
        return Err(
            Diagnostic {
                message: owned("`from` is not supported on tuple enum fields."),
                site: Site::Field(o),
            },
        );
    }
    // A skipped field gets `Default::default()` from `build_field_expr`.
    build_field_expr(field, &attrs, binding, o)
}

pub open spec fn positional_fn(fields: Seq<FieldDef>, v: int) -> spec_fn(int) -> Result<
    Seq<Seq<char>>,
    DiagView,
> {
    |i: int|
        match spec_build_positional_field_expr(fields[i], positional_binding(i), v, i) {
            Ok(e) => Ok(seq![e]),
            Err(d) => Err(d),
        }
}

/// The bindings `__v0, __v1, ...` of `n` positional fields.
pub open spec fn positional_bindings(n: int) -> Seq<Seq<char>> {
    Seq::new(n as nat, |i: int| positional_binding(i))
}

/// The arm `pattern => { let mapped = value; <validate> Ok(mapped) }`.
pub open spec fn arm_text(pattern: Seq<char>, value: Seq<char>, validate: Seq<char>) -> Seq<char> {
    pattern + " => { "@ + mapped_block(value, validate) + " }"@
}

fn arm_text_exec(pattern: &str, value: &str, validate: &str) -> (r: String)
    ensures
        r@ == arm_text(pattern@, value@, validate@),
{
    let mut r = owned(pattern);
    r.append(" => { ");
    r.append(mapped_block_text(value, validate).as_str());
    r.append(" }");
    r
}

/// The match arm for variant `v` of enum `name`: it matches the source
/// variant (the variant's `from`, or the same name) and builds the target
/// variant from the source's fields.
pub open spec fn spec_variant_arm(
    name: Seq<char>,
    variant: VariantDef,
    v: int,
    validate: Seq<char>,
) -> Result<Seq<Seq<char>>, DiagView> {
    match spec_resolve_source_variant_ident(variant, v as usize) {
        Err(d) => Err(d),
        Ok(sv) => {
            let target = name + "::"@ + variant.ident@;
            match variant.fields {
                FieldsDef::Unit => Ok(seq![arm_text("Self::"@ + sv, target, validate)]),
                FieldsDef::Named(fs) => match spec_build_named_source_destructures(fs@, v) {
                    Err(d) => Err(d),
                    Ok(ds) => match spec_build_named_variant_mappings(fs@, v) {
                        Err(d) => Err(d),
                        Ok(ms) => Ok(
                            seq![
                                arm_text(
                                    "Self::"@ + sv + " { "@ + join(ds, ", "@) + " }"@,
                                    target + " { "@ + join(ms, ", "@) + " }"@,
                                    validate,
                                ),
                            ],
                        ),
                    },
                },
                FieldsDef::Unnamed(fs) => match collect(fs.len() as int, positional_fn(fs@, v)) {
                    Err(d) => Err(d),
                    Ok(es) => Ok(
                        seq![
                            arm_text(
                                "Self::"@ + sv + "( "@ + join(positional_bindings(fs.len() as int), ", "@)
                                    + " )"@,
                                target + "( "@ + join(es, ", "@) + " )"@,
                                validate,
                            ),
                        ],
                    ),
                },
            }
        },
    }
}

fn positional_arm_parts(fields: &Vec<FieldDef>, v: usize) -> (r: Result<
    (Vec<String>, Vec<String>),
    Diagnostic,
>)
    ensures
        match r {
            Ok((bs, es)) => collect(fields.len() as int, positional_fn(fields@, v as int)) == Ok::<
                Seq<Seq<char>>,
                DiagView,
            >(views(es@)) && views(bs@) == positional_bindings(fields.len() as int),
            Err(d) => collect(fields.len() as int, positional_fn(fields@, v as int)) == Err::<
                Seq<Seq<char>>,
                DiagView,
            >(d@),
        },
{
    let ghost f = positional_fn(fields@, v as int);
    let mut bindings: Vec<String> = Vec::new();
    let mut exprs: Vec<String> = Vec::new();
    let mut i: usize = 0;
    assert(views(exprs@) =~= Seq::<Seq<char>>::empty());
    assert(views(bindings@) =~= positional_bindings(0));
    while i < fields.len()
        invariant
            i <= fields.len(),
            f == positional_fn(fields@, v as int),
            exprs.len() == i,
            bindings.len() == i,
            collect(i as int, f) == Ok::<Seq<Seq<char>>, DiagView>(views(exprs@)),
            views(bindings@) == positional_bindings(i as int),
        decreases fields.len() - i,
    {
        let mut binding = owned("__v");
        binding.append(decimal_string(i).as_str());
        match build_positional_field_expr(&fields[i], binding.as_str(), v, i) {
            Ok(e) => {
                let ghost before = views(exprs@);
                exprs.push(e);
                assert(views(exprs@) =~= before + seq![exprs@[i as int]@]);
            },
            Err(d) => {
                proof {
                    lemma_collect_err_stays(i + 1, fields.len() as int, f);
                }
                return Err(d);
            },
        }
        let ghost bs_before = views(bindings@);
        assert(binding@ == positional_binding(i as int));
        bindings.push(binding);
        assert(views(bindings@) =~= bs_before.push(positional_binding(i as int)));
        assert(views(bindings@) =~= positional_bindings(i + 1));
        i = i + 1;
    }
    Ok((bindings, exprs))
}

fn variant_arm(name: &str, variant: &VariantDef, v: usize, validate: &str) -> (r: Result<
    String,
    Diagnostic,
>)
    requires
        fields_wf(variant.fields),
    ensures
        match r {
            Ok(a) => spec_variant_arm(name@, *variant, v as int, validate@) == Ok::<
                Seq<Seq<char>>,
                DiagView,
            >(seq![a@]),
            Err(d) => spec_variant_arm(name@, *variant, v as int, validate@) == Err::<
                Seq<Seq<char>>,
                DiagView,
            >(d@),
        },
{
    let sv = resolve_source_variant_ident(variant, v)?;
    let mut target = owned(name);
    target.append("::");
    target.append(variant.ident.as_str());
    let mut pattern = owned("Self::");
    pattern.append(sv.as_str());
    match &variant.fields {
        FieldsDef::Unit => Ok(arm_text_exec(pattern.as_str(), target.as_str(), validate)),
        FieldsDef::Named(fs) => {
            let ds = build_named_source_destructures(fs, v)?;
            let ms = build_named_variant_mappings(fs, v)?;
            pattern.append(" { ");
            pattern.append(join_strings(&ds, ", ").as_str());
            pattern.append(" }");
            target.append(" { ");
            target.append(join_strings(&ms, ", ").as_str());
            target.append(" }");
            Ok(arm_text_exec(pattern.as_str(), target.as_str(), validate))
        },
        FieldsDef::Unnamed(fs) => {
            let (bs, es) = positional_arm_parts(fs, v)?;
            pattern.append("( ");
            pattern.append(join_strings(&bs, ", ").as_str());
            pattern.append(" )");
            target.append("( ");
            target.append(join_strings(&es, ", ").as_str());
            target.append(" )");
            Ok(arm_text_exec(pattern.as_str(), target.as_str(), validate))
        },
    }
}

pub open spec fn arm_fn(name: Seq<char>, variants: Seq<VariantDef>, validate: Seq<char>) -> spec_fn(
    int,
) -> Result<Seq<Seq<char>>, DiagView> {
    |v: int| spec_variant_arm(name, variants[v], v, validate)
}

/// The body of `try_morph` for an enum `name`: a `match` on the source with
/// one arm per target variant, in order, or the first error.
pub open spec fn spec_expand_enum_body(
    name: Seq<char>,
    variants: Seq<VariantDef>,
    validate_path: Option<Seq<char>>,
) -> Result<Seq<char>, DiagView> {
    match collect(variants.len() as int, arm_fn(name, variants, spec_validate_call(validate_path))) {
        Err(d) => Err(d),
        Ok(arms) => Ok("match old { "@ + join(arms, ", "@) + " }"@),
    }
}

pub fn expand_enum_body(name: &str, variants: &Vec<VariantDef>, validate_path: &Option<String>) -> (r:
    Result<String, Diagnostic>)
    requires
        forall|v: int| 0 <= v < variants.len() ==> fields_wf((#[trigger] variants@[v]).fields),
    ensures
        str_res_view(r) == spec_expand_enum_body(name@, variants@, opt_str_view(*validate_path)),
{
    let validate = generate_validate_call(validate_path);
    let ghost f = arm_fn(name@, variants@, validate@);
    let mut arms: Vec<String> = Vec::new();
    let mut v: usize = 0;
    assert(views(arms@) =~= Seq::<Seq<char>>::empty());
    while v < variants.len()
        invariant
            v <= variants.len(),
            arms.len() == v,
            f == arm_fn(name@, variants@, validate@),
            validate@ == spec_validate_call(opt_str_view(*validate_path)),
            forall|k: int| 0 <= k < variants.len() ==> fields_wf((#[trigger] variants@[k]).fields),
            collect(v as int, f) == Ok::<Seq<Seq<char>>, DiagView>(views(arms@)),
        decreases variants.len() - v,
    {
        assert(fields_wf(variants@[v as int].fields));
        match variant_arm(name, &variants[v], v, validate.as_str()) {
            Ok(a) => {
                let ghost before = views(arms@);
                arms.push(a);
                assert(views(arms@) =~= before + seq![arms@[v as int]@]);
            },
            Err(d) => {
                proof {
                    lemma_collect_err_stays(v + 1, variants.len() as int, f);
                }
                return Err(d);
            },
        }
        v = v + 1;
    }
    let mut body = owned("match old { ");
    body.append(join_strings(&arms, ", ").as_str());
    body.append(" }");
    Ok(body)
}

// ---------------------------------------------------------------------------
// The whole implementation

pub open spec fn msg_not_struct_or_enum() -> Seq<char> {
    "Velomorph can only be derived for structs or enums."@
}

/// The source type when the item names none: `RawInput` with the item's
/// generics.
pub open spec fn default_source_type(def: DeriveDef) -> Seq<char> {
    "RawInput "@ + def.ty_generics@
}

/// The header `impl<..> velomorph::TryMorph<Target> for Source where .. {`.
pub open spec fn impl_header(def: DeriveDef, trait_path: Seq<char>, from_type: Seq<char>) -> Seq<
    char,
> {
    "impl"@ + def.impl_generics@ + " "@ + trait_path + "<"@ + def.ident@ + def.ty_generics@
        + "> for "@ + from_type + " "@ + def.where_clause@ + " {\n"@
}

/// The return type and opening brace of `try_morph`.
pub open spec fn impl_return(def: DeriveDef) -> Seq<char> {
    "Result<"@ + def.ident@ + def.ty_generics@ + ", velomorph::MorphError> {\n"@
}

/// The implementation for builds with the `janitor` feature: `try_morph`
/// takes the janitor, binds it to `_`, then runs `body`.
pub open spec fn janitor_impl_text(def: DeriveDef, from_type: Seq<char>, body: Seq<char>) -> Seq<
    char,
> {
    "#[cfg(feature = \"janitor\")]\n"@ + impl_header(def, "velomorph::TryMorph"@, from_type)
        + "fn try_morph(self, janitor: &velomorph::Janitor) -> "@ + impl_return(def)
        + "let _ = janitor;\nlet old = self;\n"@ + body + "\n}\n}\n"@
}

/// The implementation for builds without the `janitor` feature: the same
/// `body` in the `try_morph` of `velomorph::plain::TryMorph`, which takes only
/// `self`.
pub open spec fn plain_impl_text(def: DeriveDef, from_type: Seq<char>, body: Seq<char>) -> Seq<
    char,
> {
    "#[cfg(not(feature = \"janitor\"))]\n"@ + impl_header(def, "velomorph::plain::TryMorph"@, from_type)
        + "fn try_morph(self) -> "@
        + impl_return(def) + "let old = self;\n"@ + body + "\n}\n}\n"@
}

/// Both implementations of `velomorph::TryMorph<Target> for Source` around
/// `body`, one per setting of the `janitor` feature.
pub open spec fn impl_text(def: DeriveDef, from_type: Seq<char>, body: Seq<char>) -> Seq<char> {
    janitor_impl_text(def, from_type, body) + plain_impl_text(def, from_type, body)
}

/// The source text that `#[derive(Morph)]` writes for `def`, or the first
/// error: the item's attributes are read first, then the struct's fields or
/// the enum's variants, in order.
pub open spec fn spec_expand_morph(def: DeriveDef) -> Result<Seq<char>, DiagView> {
    match spec_parse_type_morph_attrs(def) {
        Err(d) => Err(d),
        Ok(ta) => {
            let from_type = match ta.from_type {
                Some(t) => t,
                None => default_source_type(def),
            };
            let body = match def.data {
                DataDef::Struct(fields) => spec_expand_struct_body(def.ident@, fields, ta.validate_path),
                DataDef::Enum(vs) => spec_expand_enum_body(def.ident@, vs@, ta.validate_path),
                DataDef::Union => Err(diag(msg_not_struct_or_enum(), Site::Ident)),
            };
            match body {
                Err(d) => Err(d),
                Ok(b) => Ok(impl_text(def, from_type, b)),
            }
        },
    }
}

/// The header of an implementation of `trait_path` for `from_type`.
fn impl_header_text(def: &DeriveDef, trait_path: &str, from_type: &str) -> (r: String)
    ensures
        r@ == impl_header(*def, trait_path@, from_type@),
{
    let mut header = owned("impl");
    header.append(def.impl_generics.as_str());
    header.append(" ");
    header.append(trait_path);
    header.append("<");
    header.append(def.ident.as_str());
    header.append(def.ty_generics.as_str());
    header.append("> for ");
    header.append(from_type);
    header.append(" ");
    header.append(def.where_clause.as_str());
    header.append(" {\n");
    assert(header@ =~= impl_header(*def, trait_path@, from_type@));
    header
}

/// The source text of the `TryMorph` implementation that `#[derive(Morph)]`
/// writes for `def`, or the compile error it reports.
pub fn expand_morph(def: &DeriveDef) -> (r: Result<String, Diagnostic>)
    requires
        def.well_formed(),
    ensures
        str_res_view(r) == spec_expand_morph(*def),
{
    let type_attrs = parse_type_morph_attrs(def)?;
    let from_type = match &type_attrs.from_type {
        Some(t) => t.clone(),
        None => {
            let mut t = owned("RawInput ");
            t.append(def.ty_generics.as_str());
            t
        },
    };
    let body = match &def.data {
        DataDef::Struct(fields) => expand_struct_body(
            def.ident.as_str(),
            fields,
            &type_attrs.validate_path,
        )?,
        DataDef::Enum(vs) => expand_enum_body(def.ident.as_str(), vs, &type_attrs.validate_path)?,
        DataDef::Union => {
            return Err(
                Diagnostic {
                    message: owned("Velomorph can only be derived for structs or enums."),
                    site: Site::Ident,
                },
            );
        },
    };
    let header = impl_header_text(def, "velomorph::TryMorph", from_type.as_str());
    let plain_header = impl_header_text(def, "velomorph::plain::TryMorph", from_type.as_str());
    let mut ret = owned("Result<");
    ret.append(def.ident.as_str());
    ret.append(def.ty_generics.as_str());
    ret.append(", velomorph::MorphError> {\n");
    assert(ret@ =~= impl_return(*def));
    let mut out = owned("#[cfg(feature = \"janitor\")]\n");
    out.append(header.as_str());
    out.append("fn try_morph(self, janitor: &velomorph::Janitor) -> ");
    out.append(ret.as_str());
    out.append("let _ = janitor;\nlet old = self;\n");
    out.append(body.as_str());
    out.append("\n}\n}\n");
    assert(out@ =~= janitor_impl_text(*def, from_type@, body@));
    let mut plain = owned("#[cfg(not(feature = \"janitor\"))]\n");
    plain.append(plain_header.as_str());
    plain.append("fn try_morph(self) -> ");
    plain.append(ret.as_str());
    plain.append("let old = self;\n");
    plain.append(body.as_str());
    plain.append("\n}\n}\n");
    assert(plain@ =~= plain_impl_text(*def, from_type@, body@));
    out.append(plain.as_str());
    Ok(out)
}

} // verus!
