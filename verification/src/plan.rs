//! How each target field is produced from its source value: the mapping
//! strategy the derive picks for a field, and the Rust expression it writes
//! for that strategy.
use vstd::prelude::*;
use crate::model::{Diagnostic, DiagView, FieldDef, Owner, Site, diag, is_type_name};
use crate::attrs::{DefaultKind, DefaultKindView, FieldAttrsView, FieldMorphAttrs};
use crate::text::owned;

verus! {

/// The mapping strategy of one target field.
pub enum FieldPlan {
    /// `#[morph(skip)]`: the field is `Default::default()`.
    DefaultValue,
    /// `#[morph(with = "path")]`: `path(source)`, its error turned into
    /// `MorphError::TransformError`.
    Transform(String),
    /// A `Cow` field: `Cow::from(source)`, which borrows a `&str` source.
    Borrow,
    /// An `Option` field: the source value as it is.
    Passthrough,
    /// A strict field with `#[morph(default)]`: the source's `Some` value, or
    /// `Default::default()` for `None`.
    OrDefault,
    /// A strict field with `#[morph(default = "expr")]`: the source's `Some`
    /// value, or the expression for `None`.
    OrExpr(String),
    /// A strict field: the source's `Some` value, or
    /// `MorphError::MissingField(name)` for `None`.
    Strict(String),
}

pub enum FieldPlanView {
    DefaultValue,
    Transform(Seq<char>),
    Borrow,
    Passthrough,
    OrDefault,
    OrExpr(Seq<char>),
    Strict(Seq<char>),
}

impl View for FieldPlan {
    type V = FieldPlanView;

    open spec fn view(&self) -> FieldPlanView {
        match self {
            FieldPlan::DefaultValue => FieldPlanView::DefaultValue,
            FieldPlan::Transform(p) => FieldPlanView::Transform(p@),
            FieldPlan::Borrow => FieldPlanView::Borrow,
            FieldPlan::Passthrough => FieldPlanView::Passthrough,
            FieldPlan::OrDefault => FieldPlanView::OrDefault,
            FieldPlan::OrExpr(e) => FieldPlanView::OrExpr(e@),
            FieldPlan::Strict(n) => FieldPlanView::Strict(n@),
        }
    }
}

pub open spec fn msg_default_on_option() -> Seq<char> {
    "`default` is only valid for strict Option<T> -> T mappings."@
}

/// The name a strict field reports when its source value is missing: the
/// field's name, or `unknown_field` for a positional field.
pub open spec fn spec_field_name_for_error(field: FieldDef) -> Seq<char> {
    match field.ident {
        Some(id) => id@,
        None => "unknown_field"@,
    }
}

pub fn field_name_for_error(field: &FieldDef) -> (r: String)
    ensures
        r@ == spec_field_name_for_error(*field),
{
    match &field.ident {
        Some(id) => id.clone(),
        None => owned("unknown_field"),
    }
}

/// The strategy for `field` given what its attributes say, or the error:
/// - `skip` wins over everything;
/// - `default` on an `Option` field is an error;
/// - `with` comes next, then the field's type: `Cow` borrows, `Option`
///   passes through;
/// - any other field is strict, falling back to its `default` if it has one.
pub open spec fn spec_plan_field(field: FieldDef, attrs: FieldAttrsView, o: Owner) -> Result<
    FieldPlanView,
    DiagView,
> {
    if attrs.skip {
        Ok(FieldPlanView::DefaultValue)
    } else if attrs.default_kind is Some && field.ty.spec_is_type_name("Option"@) {
        Err(diag(msg_default_on_option(), Site::Field(o)))
    } else if attrs.with_path is Some {
        Ok(FieldPlanView::Transform(attrs.with_path.unwrap()))
    } else if field.ty.spec_is_type_name("Cow"@) {
        Ok(FieldPlanView::Borrow)
    } else if field.ty.spec_is_type_name("Option"@) {
        Ok(FieldPlanView::Passthrough)
    } else {
        match attrs.default_kind {
            Some(DefaultKindView::TraitDefault) => Ok(FieldPlanView::OrDefault),
            Some(DefaultKindView::Expr(e)) => Ok(FieldPlanView::OrExpr(e)),
            None => Ok(FieldPlanView::Strict(spec_field_name_for_error(field))),
        }
    }
}

/// The strategy for `field` (owned by `o`) given its attributes.
pub fn plan_field(field: &FieldDef, attrs: &FieldMorphAttrs, o: Owner) -> (r: Result<
    FieldPlan,
    Diagnostic,
>)
    ensures
        match r {
            Ok(p) => spec_plan_field(*field, attrs@, o) == Ok::<FieldPlanView, DiagView>(p@),
            Err(d) => spec_plan_field(*field, attrs@, o) == Err::<FieldPlanView, DiagView>(d@),
        },
{
    if attrs.skip {
        return Ok(FieldPlan::DefaultValue);
    }
    if attrs.default_kind.is_some() && is_type_name(&field.ty, "Option") {
        return Err(
            Diagnostic {
                message: owned("`default` is only valid for strict Option<T> -> T mappings."),
                site: Site::Field(o),
            },
        );
    }
    if let Some(path) = &attrs.with_path {
        return Ok(FieldPlan::Transform(path.clone()));
    }
    if is_type_name(&field.ty, "Cow") {
        return Ok(FieldPlan::Borrow);
    }
    if is_type_name(&field.ty, "Option") {
        return Ok(FieldPlan::Passthrough);
    }
    match &attrs.default_kind {
        Some(DefaultKind::TraitDefault) => Ok(FieldPlan::OrDefault),
        Some(DefaultKind::Expr(e)) => Ok(FieldPlan::OrExpr(e.clone())),
        None => Ok(FieldPlan::Strict(field_name_for_error(field))),
    }
}

/// The expression that `Default::default()` is written as.
pub open spec fn default_call() -> Seq<char> {
    "std::default::Default::default()"@
}

/// The Rust expression for a field with strategy `plan`, whose source value
/// is the expression `src`. Text taken from the user's attributes (a `with`
/// path, a `default` expression) ends its own line, so that a comment written
/// inside it cannot swallow the code after it.
pub open spec fn spec_render_field_expr(plan: FieldPlanView, src: Seq<char>) -> Seq<char> {
    match plan {
        FieldPlanView::DefaultValue => default_call(),
        FieldPlanView::Transform(path) => path + "\n("@ + src
            + ").map_err(|e| velomorph::MorphError::TransformError(e.to_string()))?"@,
        FieldPlanView::Borrow => "std::borrow::Cow::from("@ + src + ")"@,
        FieldPlanView::Passthrough => src,
        FieldPlanView::OrDefault => "match "@ + src + " { Some(value) => value, None => "@
            + default_call() + ", }"@,
        FieldPlanView::OrExpr(e) => "match "@ + src + " { Some(value) => value, None => "@ + e
            + "\n, }"@,
        FieldPlanView::Strict(name) => src + ".ok_or(velomorph::MorphError::MissingField(\""@ + name
            + "\".to_string()))?"@,
    }
}

pub fn render_field_expr(plan: &FieldPlan, src: &str) -> (r: String)
    ensures
        r@ == spec_render_field_expr(plan@, src@),
{
    match plan {
        FieldPlan::DefaultValue => owned("std::default::Default::default()"),
        FieldPlan::Transform(path) => {
            let mut r = path.clone();
            r.append("\n(");
            r.append(src);
            r.append(").map_err(|e| velomorph::MorphError::TransformError(e.to_string()))?");
            r
        },
        FieldPlan::Borrow => {
            let mut r = owned("std::borrow::Cow::from(");
            r.append(src);
            r.append(")");
            r
        },
        FieldPlan::Passthrough => owned(src),
        FieldPlan::OrDefault => {
            let mut r = owned("match ");
            r.append(src);
            r.append(" { Some(value) => value, None => ");
            r.append("std::default::Default::default()");
            r.append(", }");
            r
        },
        FieldPlan::OrExpr(e) => {
            let mut r = owned("match ");
            r.append(src);
            r.append(" { Some(value) => value, None => ");
            r.append(e.as_str());
            r.append("\n, }");
            r
        },
        FieldPlan::Strict(name) => {
            let mut r = owned(src);
            r.append(".ok_or(velomorph::MorphError::MissingField(\"");
            r.append(name.as_str());
            r.append("\".to_string()))?");
            r
        },
    }
}

/// The expression for `field` (owned by `o`) whose source value is `src`, or
/// the error.
pub open spec fn spec_build_field_expr(
    field: FieldDef,
    attrs: FieldAttrsView,
    src: Seq<char>,
    o: Owner,
) -> Result<Seq<char>, DiagView> {
    match spec_plan_field(field, attrs, o) {
        Ok(plan) => Ok(spec_render_field_expr(plan, src)),
        Err(d) => Err(d),
    }
}

pub fn build_field_expr(field: &FieldDef, attrs: &FieldMorphAttrs, src: &str, o: Owner) -> (r:
    Result<String, Diagnostic>)
    ensures
        crate::model::str_res_view(r) == spec_build_field_expr(*field, attrs@, src@, o),
{
    let plan = plan_field(field, attrs, o)?;
    Ok(render_field_expr(&plan, src))
}

/// The statement that runs the `validate` function on the mapped value, if
/// there is one. The path ends its own line, as in `spec_render_field_expr`.
pub open spec fn spec_validate_call(validate_path: Option<Seq<char>>) -> Seq<char> {
    match validate_path {
        Some(path) => path
            + "\n(&mapped).map_err(|e| velomorph::MorphError::ValidationError(e.to_string()))?;"@,
        None => Seq::empty(),
    }
}

pub fn generate_validate_call(validate_path: &Option<String>) -> (r: String)
    ensures
        r@ == spec_validate_call(crate::attrs::opt_str_view(*validate_path)),
{
    match validate_path {
        Some(path) => {
            let mut r = path.clone();
            r.append(
                "\n(&mapped).map_err(|e| velomorph::MorphError::ValidationError(e.to_string()))?;",
            );
            r
        },
        None => String::new(),
    }
}

} // verus!
