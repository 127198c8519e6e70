//! The derive's rules on attribute syntax, field strategies and errors,
//! checked on small item models.
use velomorph::attrs::{parse_field_morph_attrs, parse_type_morph_attrs, resolve_source_variant_ident, DefaultKind};
use velomorph::expand::{
    build_named_field_mappings, build_named_source_destructures, build_positional_field_expr,
    expand_morph, expand_struct_body,
};
use velomorph::model::{
    is_type_name, AttrArgs, AttrDef, AttrPath, DataDef, DeriveDef, Diagnostic, FieldDef, FieldsDef,
    LitFacts, Owner, Site, StrFacts, Tok, TypeDef, VariantDef,
};
use velomorph::plan::{build_field_expr, plan_field, FieldPlan};
use velomorph::read::{read_literal, read_literals};
use velomorph::syntax::is_identifier;
use velomorph::text::{decimal_string, join_strings};
use velomorph::MorphError;

fn ident(s: &str) -> Tok {
    Tok::Ident(s.to_string())
}

fn punct(c: char) -> Tok {
    Tok::Punct(c, false)
}

/// A string literal, read.
fn lit(s: &str) -> Tok {
    let text = format!("{:?}", s);
    let facts = read_literal(&text);
    Tok::Lit(text, facts)
}

/// A literal written as `text`, read.
fn raw_lit(text: &str) -> Tok {
    Tok::Lit(text.to_string(), read_literal(text))
}

fn key_value(key: &str, value: &str) -> Vec<Tok> {
    vec![ident(key), punct('='), lit(value)]
}

fn morph(toks: Vec<Tok>) -> AttrDef {
    AttrDef {
        path: AttrPath { leading_colon: false, segments: vec!["morph".to_string()] },
        args: AttrArgs::List(toks),
    }
}

fn morph_args(args: AttrArgs) -> AttrDef {
    AttrDef { path: AttrPath { leading_colon: false, segments: vec!["morph".to_string()] }, args }
}

fn other_attr(name: &str) -> AttrDef {
    AttrDef {
        path: AttrPath { leading_colon: false, segments: vec![name.to_string()] },
        args: AttrArgs::List(vec![ident("anything")]),
    }
}

fn field(name: &str, last_segment: &str, attrs: Vec<AttrDef>) -> FieldDef {
    FieldDef {
        ident: Some(name.to_string()),
        ty: TypeDef { last_segment: Some(last_segment.to_string()) },
        attrs,
    }
}

fn positional(last_segment: &str, attrs: Vec<AttrDef>) -> FieldDef {
    FieldDef { ident: None, ty: TypeDef { last_segment: Some(last_segment.to_string()) }, attrs }
}

fn item(name: &str, attrs: Vec<AttrDef>, data: DataDef) -> DeriveDef {
    DeriveDef {
        ident: name.to_string(),
        impl_generics: String::new(),
        ty_generics: String::new(),
        where_clause: String::new(),
        attrs,
        data,
    }
}

fn named(fields: Vec<FieldDef>) -> DataDef {
    DataDef::Struct(FieldsDef::Named(fields))
}

fn err(message: &str, site: Site) -> Result<String, Diagnostic> {
    Err(Diagnostic { message: message.to_string(), site })
}

fn both_impls(header: &str, ret: &str, body: &str) -> String {
    let plain_header = header.replace("velomorph::TryMorph<", "velomorph::plain::TryMorph<");
    format!(
        "#[cfg(feature = \"janitor\")]\n{header}fn try_morph(self, janitor: &velomorph::Janitor) -> {ret}let _ = janitor;\nlet old = self;\n{body}\n}}\n}}\n#[cfg(not(feature = \"janitor\"))]\n{plain_header}fn try_morph(self) -> {ret}let old = self;\n{body}\n}}\n}}\n"
    )
}

fn field_err(def: &DeriveDef, message: &str, site: Site) {
    assert_eq!(expand_morph(def), err(message, site));
}

// ---------------------------------------------------------------------------
// Malformed attributes fail to compile, each with a clear message.

#[test]
fn malformed_morph_attributes_fail_with_clear_errors() {
    // #[morph(default)] on an Option field.
    let def = item(
        "Target",
        vec![morph(key_value("from", "Source"))],
        named(vec![field("maybe", "Option", vec![morph(vec![ident("default")])])]),
    );
    field_err(&def, "`default` is only valid for strict Option<T> -> T mappings.", Site::Field(Owner::Field(0)));

    // #[morph(renamed = "id")] on a field.
    let def = item("Target", vec![], named(vec![field("id", "u64", vec![morph(key_value("renamed", "id"))])]));
    field_err(
        &def,
        "Unsupported field morph key. Expected one of: from, with, default, skip",
        Site::AttrTokens(Owner::Field(0), 0, 0, 0),
    );

    // #[morph(skip, with = "convert")]: `skip` sees the rest of the list.
    let mut toks = vec![ident("skip"), punct(',')];
    toks.extend(key_value("with", "convert"));
    let def = item(
        "Target",
        vec![morph(key_value("from", "Source"))],
        named(vec![field("field", "u32", vec![morph(toks)])]),
    );
    field_err(&def, "`skip` does not take a value.", Site::AttrTokens(Owner::Field(0), 0, 0, 0));

    // #[morph(source = "RawInput")] on the struct.
    let def = item("Target", vec![morph(key_value("source", "RawInput"))], named(vec![field("id", "u64", vec![])]));
    field_err(
        &def,
        "Unsupported type-level morph key. Expected one of: from, validate",
        Site::AttrTokens(Owner::Item, 0, 0, 0),
    );

    // #[morph(bad = "A")] on a variant.
    let def = item(
        "Target",
        vec![morph(key_value("from", "Source"))],
        DataDef::Enum(vec![VariantDef {
            ident: "A".to_string(),
            attrs: vec![morph(key_value("bad", "A"))],
            fields: FieldsDef::Named(vec![field("field", "u32", vec![])]),
        }]),
    );
    field_err(&def, "Unsupported enum variant morph key. Expected: from", Site::AttrTokens(Owner::Variant(0), 0, 0, 0));
}

// ---------------------------------------------------------------------------
// Attribute syntax

#[test]
fn attribute_without_list_is_refused() {
    let word = field("id", "u64", vec![morph_args(AttrArgs::Word)]);
    assert_eq!(
        parse_field_morph_attrs(&word, Owner::Field(3)).err(),
        Some(Diagnostic {
            message: "expected attribute arguments in parentheses: #[morph(...)]".to_string(),
            site: Site::AttrPath(Owner::Field(3), 0),
        })
    );
    let name_value = field("id", "u64", vec![other_attr("doc"), morph_args(AttrArgs::NameValue)]);
    assert_eq!(
        parse_field_morph_attrs(&name_value, Owner::Field(0)).err(),
        Some(Diagnostic {
            message: "expected parentheses: #[morph(...)]".to_string(),
            site: Site::AttrEq(Owner::Field(0), 1),
        })
    );
}

#[test]
fn value_syntax_errors_follow_the_token_stream() {
    let missing_eq = field("id", "u64", vec![morph(vec![ident("from")])]);
    assert_eq!(
        parse_field_morph_attrs(&missing_eq, Owner::Field(0)).err().unwrap(),
        Diagnostic { message: "expected `=`".to_string(), site: Site::AttrTokens(Owner::Field(0), 0, 1, 1) }
    );
    let missing_lit = field("id", "u64", vec![morph(vec![ident("from"), punct('=')])]);
    assert_eq!(
        parse_field_morph_attrs(&missing_lit, Owner::Field(0)).err().unwrap().message,
        "unexpected end of input, expected string literal"
    );
    let number = field("id", "u64", vec![morph(vec![ident("from"), punct('='), raw_lit("5")])]);
    assert_eq!(
        parse_field_morph_attrs(&number, Owner::Field(0)).err().unwrap(),
        Diagnostic { message: "expected string literal".to_string(), site: Site::AttrTokens(Owner::Field(0), 0, 2, 2) }
    );
    let mut trailing = key_value("from", "a");
    trailing.push(lit("b"));
    let trailing = field("id", "u64", vec![morph(trailing)]);
    assert_eq!(
        parse_field_morph_attrs(&trailing, Owner::Field(0)).err().unwrap(),
        Diagnostic { message: "expected `,`".to_string(), site: Site::AttrTokens(Owner::Field(0), 0, 3, 3) }
    );
    let literal_key = field("id", "u64", vec![morph(vec![lit("from")])]);
    assert_eq!(
        parse_field_morph_attrs(&literal_key, Owner::Field(0)).err().unwrap().message,
        "unexpected literal in nested attribute, expected ident"
    );
    let negative_key = field("id", "u64", vec![morph(vec![punct('-'), raw_lit("1")])]);
    assert_eq!(
        parse_field_morph_attrs(&negative_key, Owner::Field(0)).err().unwrap().message,
        "unexpected literal in nested attribute, expected ident"
    );
    let group_key = field("id", "u64", vec![morph(vec![Tok::Group])]);
    assert_eq!(
        parse_field_morph_attrs(&group_key, Owner::Field(0)).err().unwrap().message,
        "unexpected token in nested attribute, expected ident"
    );
    let dangling_path = field("id", "u64", vec![morph(vec![ident("a"), Tok::Punct(':', true), punct(':')])]);
    assert_eq!(
        parse_field_morph_attrs(&dangling_path, Owner::Field(0)).err().unwrap(),
        Diagnostic {
            message: "unexpected end of input, expected ident".to_string(),
            site: Site::AttrTokens(Owner::Field(0), 0, 3, 3),
        }
    );
    // A path key is never one of the derive's keys.
    let path_key = field(
        "id",
        "u64",
        vec![morph(vec![ident("a"), Tok::Punct(':', true), punct(':'), ident("from"), punct('='), lit("x")])],
    );
    assert_eq!(
        parse_field_morph_attrs(&path_key, Owner::Field(0)).err().unwrap(),
        Diagnostic {
            message: "Unsupported field morph key. Expected one of: from, with, default, skip".to_string(),
            site: Site::AttrTokens(Owner::Field(0), 0, 0, 3),
        }
    );
}

#[test]
fn bare_default_must_end_the_list() {
    let toks = vec![ident("default"), punct(','), ident("from"), punct('='), lit("x")];
    let f = field("n", "u32", vec![morph(toks)]);
    assert_eq!(
        parse_field_morph_attrs(&f, Owner::Field(0)).err().unwrap(),
        Diagnostic { message: "expected `=`".to_string(), site: Site::AttrTokens(Owner::Field(0), 0, 1, 1) }
    );
    let mut toks = key_value("from", "x");
    toks.push(punct(','));
    toks.push(ident("default"));
    let f = field("n", "u32", vec![morph(toks.clone())]);
    let attrs = parse_field_morph_attrs(&f, Owner::Field(0)).unwrap();
    assert_eq!(attrs.from.as_deref(), Some("x"));
    assert!(matches!(attrs.default_kind, Some(DefaultKind::TraitDefault)));
    // Even a trailing comma counts as something after a bare `default`.
    toks.push(punct(','));
    let f = field("n", "u32", vec![morph(toks)]);
    assert_eq!(
        parse_field_morph_attrs(&f, Owner::Field(0)).err().unwrap(),
        Diagnostic { message: "expected `=`".to_string(), site: Site::AttrTokens(Owner::Field(0), 0, 5, 5) }
    );
}

#[test]
fn later_values_win_and_other_attributes_are_ignored() {
    let f = field(
        "n",
        "u32",
        vec![other_attr("serde"), morph(key_value("from", "a")), morph(vec![]), morph(key_value("from", "b"))],
    );
    let attrs = parse_field_morph_attrs(&f, Owner::Field(0)).unwrap();
    assert_eq!(attrs.from.as_deref(), Some("b"));
    assert!(!attrs.skip);
    assert!(attrs.with_path.is_none());
}

#[test]
fn skip_and_with_in_separate_attributes_are_refused() {
    let f = field("n", "u32", vec![morph(vec![ident("skip")]), morph(key_value("with", "convert"))]);
    assert_eq!(
        parse_field_morph_attrs(&f, Owner::Field(2)).err().unwrap(),
        Diagnostic {
            message: "`skip` and `with` cannot be used together.".to_string(),
            site: Site::Field(Owner::Field(2)),
        }
    );
}

#[test]
fn malformed_strings_are_refused_at_the_literal() {
    let with = field("n", "u32", vec![morph(key_value("with", "not a path"))]);
    assert_eq!(
        parse_field_morph_attrs(&with, Owner::Field(0)).err().unwrap(),
        Diagnostic {
            message: "Malformed #[morph(with = \"...\")] attribute. `with` must be a valid Rust path string.".to_string(),
            site: Site::AttrTokens(Owner::Field(0), 0, 2, 2),
        }
    );
    let default = field("n", "u32", vec![morph(key_value("default", "1 +"))]);
    assert_eq!(
        parse_field_morph_attrs(&default, Owner::Field(0)).err().unwrap().message,
        "Malformed #[morph(default = \"...\")] expression."
    );
    let from = item("T", vec![morph(key_value("from", "a b"))], named(vec![]));
    assert_eq!(
        parse_type_morph_attrs(&from).err().unwrap(),
        Diagnostic {
            message: "Malformed #[morph(from = \"...\")] on struct. `from` must be a valid Rust type path string.".to_string(),
            site: Site::AttrTokens(Owner::Item, 0, 2, 2),
        }
    );
    let validate = item("T", vec![morph(key_value("validate", "9"))], named(vec![]));
    assert_eq!(
        parse_type_morph_attrs(&validate).err().unwrap().message,
        "Malformed #[morph(validate = \"...\")] on type. `validate` must be a valid Rust path string."
    );
}

// ---------------------------------------------------------------------------
// Source types

#[test]
fn source_type_gets_the_item_generics_unless_it_names_its_own() {
    let mut def = item("Event", vec![morph(key_value("from", "Packet"))], named(vec![]));
    def.ty_generics = "<'a>".to_string();
    assert_eq!(parse_type_morph_attrs(&def).unwrap().from_type.as_deref(), Some("Packet\n<'a>"));
    def.attrs = vec![morph(key_value("from", "Packet<'b>"))];
    assert_eq!(parse_type_morph_attrs(&def).unwrap().from_type.as_deref(), Some("Packet<'b>\n"));
    def.attrs = vec![];
    def.impl_generics = "<'a>".to_string();
    let text = expand_morph(&def).unwrap();
    assert!(text.starts_with(
        "#[cfg(feature = \"janitor\")]\nimpl<'a> velomorph::TryMorph<Event<'a>> for RawInput <'a>  {\nfn try_morph(self, janitor: &velomorph::Janitor) -> Result<Event<'a>, velomorph::MorphError> {\nlet _ = janitor;\n"
    ));
    assert!(text.contains(
        "#[cfg(not(feature = \"janitor\"))]\nimpl<'a> velomorph::plain::TryMorph<Event<'a>> for RawInput <'a>  {\nfn try_morph(self) -> Result<Event<'a>, velomorph::MorphError> {\nlet old = self;\n"
    ));
}

// ---------------------------------------------------------------------------
// Field strategies

#[test]
fn field_strategy_follows_the_target_type() {
    let none = parse_field_morph_attrs(&field("x", "u8", vec![]), Owner::Field(0)).unwrap();
    assert!(matches!(plan_field(&field("x", "Option", vec![]), &none, Owner::Field(0)), Ok(FieldPlan::Passthrough)));
    assert!(matches!(plan_field(&field("x", "Cow", vec![]), &none, Owner::Field(0)), Ok(FieldPlan::Borrow)));
    match plan_field(&field("x", "u8", vec![]), &none, Owner::Field(0)) {
        Ok(FieldPlan::Strict(name)) => assert_eq!(name, "x"),
        _ => panic!("a plain field is strict"),
    }
    let not_a_path = FieldDef { ident: Some("r".to_string()), ty: TypeDef { last_segment: None }, attrs: vec![] };
    assert!(matches!(plan_field(&not_a_path, &none, Owner::Field(0)), Ok(FieldPlan::Strict(_))));
    assert!(is_type_name(&TypeDef { last_segment: Some("Option".to_string()) }, "Option"));
    assert!(!is_type_name(&TypeDef { last_segment: Some("Options".to_string()) }, "Option"));
}

#[test]
fn field_expressions_for_each_strategy() {
    let expr = |f: FieldDef| {
        let attrs = parse_field_morph_attrs(&f, Owner::Field(0)).unwrap();
        build_field_expr(&f, &attrs, "old.x", Owner::Field(0)).unwrap()
    };
    assert_eq!(expr(field("x", "u8", vec![morph(vec![ident("skip")])])), "std::default::Default::default()");
    assert_eq!(
        expr(field("x", "u8", vec![morph(key_value("with", "conv::parse"))])),
        "conv::parse\n(old.x).map_err(|e| velomorph::MorphError::TransformError(e.to_string()))?"
    );
    assert_eq!(expr(field("x", "Cow", vec![])), "std::borrow::Cow::from(old.x)");
    assert_eq!(expr(field("x", "Option", vec![])), "old.x");
    assert_eq!(
        expr(field("x", "u16", vec![morph(key_value("default", "3"))])),
        "match old.x { Some(value) => value, None => 3\n, }"
    );
    assert_eq!(
        expr(field("x", "u16", vec![])),
        "old.x.ok_or(velomorph::MorphError::MissingField(\"x\".to_string()))?"
    );
    // `skip` wins even over `default` on an Option field.
    assert_eq!(
        expr(field("x", "Option", vec![morph(vec![ident("skip")]), morph(vec![ident("default")])])),
        "std::default::Default::default()"
    );
}

#[test]
fn struct_fields_report_the_first_error_in_declaration_order() {
    let fields = vec![
        field("a", "u8", vec![]),
        field("b", "Option", vec![morph(vec![ident("default")])]),
        field("c", "u8", vec![morph(key_value("bogus", "x"))]),
    ];
    assert_eq!(
        build_named_field_mappings(&fields).err().unwrap().site,
        Site::Field(Owner::Field(1))
    );
    let ok = vec![field("a", "u8", vec![morph(key_value("from", "legacy_a"))]), field("b", "Option", vec![])];
    assert_eq!(
        build_named_field_mappings(&ok).unwrap(),
        vec![
            "a: old.legacy_a.ok_or(velomorph::MorphError::MissingField(\"a\".to_string()))?".to_string(),
            "b: old.b".to_string(),
        ]
    );
}

#[test]
fn tuple_structs_and_unions_are_refused() {
    assert_eq!(
        expand_struct_body("T", &FieldsDef::Unnamed(vec![positional("u8", vec![])]), &None),
        err("Velomorph requires named fields for structs.", Site::Fields)
    );
    assert_eq!(
        expand_morph(&item("T", vec![], named(vec![])).clone_with_data(DataDef::Union)),
        err("Velomorph can only be derived for structs or enums.", Site::Ident)
    );
}

trait WithData {
    fn clone_with_data(&self, data: DataDef) -> DeriveDef;
}

impl WithData for DeriveDef {
    fn clone_with_data(&self, data: DataDef) -> DeriveDef {
        DeriveDef {
            ident: self.ident.clone(),
            impl_generics: self.impl_generics.clone(),
            ty_generics: self.ty_generics.clone(),
            where_clause: self.where_clause.clone(),
            attrs: self.attrs.clone(),
            data,
        }
    }
}

// ---------------------------------------------------------------------------
// Enums

#[test]
fn variants_map_by_name_or_by_their_first_morph_attribute() {
    let plain = VariantDef { ident: "Up".to_string(), attrs: vec![other_attr("doc")], fields: FieldsDef::Unit };
    assert_eq!(resolve_source_variant_ident(&plain, 0).unwrap(), "Up");
    let renamed = VariantDef {
        ident: "Down".to_string(),
        attrs: vec![morph(key_value("from", "LegacyDown")), morph(key_value("from", "Ignored"))],
        fields: FieldsDef::Unit,
    };
    assert_eq!(resolve_source_variant_ident(&renamed, 1).unwrap(), "LegacyDown");
    let empty = VariantDef { ident: "X".to_string(), attrs: vec![morph(vec![])], fields: FieldsDef::Unit };
    assert_eq!(
        resolve_source_variant_ident(&empty, 2).err().unwrap(),
        Diagnostic {
            message: "Malformed #[morph(...)] on enum variant. Expected: #[morph(from = \"SourceVariant\")].".to_string(),
            site: Site::Attr(Owner::Variant(2), 0),
        }
    );
}

#[test]
fn named_variant_patterns_leave_out_skipped_fields() {
    let fields = vec![
        field("code", "u32", vec![morph(key_value("from", "raw_code"))]),
        field("cache", "String", vec![morph(vec![ident("skip")])]),
        field("label", "Cow", vec![morph(key_value("from", "__src_label"))]),
    ];
    assert_eq!(
        build_named_source_destructures(&fields, 0).unwrap(),
        vec!["raw_code: __src_code".to_string(), "__src_label".to_string()]
    );
}

#[test]
fn tuple_variants_bind_positions_and_refuse_from() {
    let def = item(
        "Shape",
        vec![morph(key_value("from", "Raw"))],
        DataDef::Enum(vec![VariantDef {
            ident: "Pair".to_string(),
            attrs: vec![],
            fields: FieldsDef::Unnamed(vec![positional("u8", vec![]), positional("Option", vec![])]),
        }]),
    );
    assert_eq!(
        expand_morph(&def).unwrap(),
        both_impls(
            "impl velomorph::TryMorph<Shape> for Raw\n  {\n",
            "Result<Shape, velomorph::MorphError> {\n",
            "match old { Self::Pair( __v0, __v1 ) => { let mapped = Shape::Pair( __v0.ok_or(velomorph::MorphError::MissingField(\"unknown_field\".to_string()))?, __v1 );\n\nOk(mapped) } }",
        )
    );
    let with_from = positional("u8", vec![morph(key_value("from", "x"))]);
    assert_eq!(
        build_positional_field_expr(&with_from, "__v0", 4, 1).err().unwrap(),
        Diagnostic {
            message: "`from` is not supported on tuple enum fields.".to_string(),
            site: Site::Field(Owner::VariantField(4, 1)),
        }
    );
    let unit = item("E", vec![], DataDef::Enum(vec![VariantDef { ident: "A".to_string(), attrs: vec![], fields: FieldsDef::Unit }]));
    assert_eq!(
        expand_morph(&unit).unwrap(),
        both_impls(
            "impl velomorph::TryMorph<E> for RawInput   {\n",
            "Result<E, velomorph::MorphError> {\n",
            "match old { Self::A => { let mapped = E::A;\n\nOk(mapped) } }",
        )
    );
}

// ---------------------------------------------------------------------------
// Text helpers and the syntax read through `syn`

#[test]
fn decimal_and_join() {
    assert_eq!(decimal_string(0), "0");
    assert_eq!(decimal_string(10), "10");
    assert_eq!(decimal_string(407), "407");
    assert_eq!(join_strings(&vec![], ", "), "");
    assert_eq!(join_strings(&vec!["a".to_string()], ", "), "a");
    assert_eq!(join_strings(&vec!["a".to_string(), "b".to_string(), "c".to_string()], ", "), "a, b, c");
}

#[test]
fn syntax_reads_literals_paths_and_expressions() {
    let str_facts = |text: &str| match read_literal(text) {
        LitFacts::Str(f) => f,
        other => panic!("{text} should read as a string literal, got {other:?}"),
    };
    assert_eq!(
        read_literal("\"a\\tb\""),
        LitFacts::Str(StrFacts { value: "a\tb".to_string(), path_args: None, is_expr: false })
    );
    assert_eq!(
        read_literal("r\"x\""),
        LitFacts::Str(StrFacts { value: "x".to_string(), path_args: Some(false), is_expr: true })
    );
    assert_eq!(read_literal("5"), LitFacts::NotStr);
    assert_eq!(read_literal("'c'"), LitFacts::NotStr);
    assert_eq!(str_facts("\"Packet\"").path_args, Some(false));
    assert_eq!(str_facts("\"crate::Packet<'a>\"").path_args, Some(true));
    assert_eq!(str_facts("\"1x\"").path_args, None);
    assert!(str_facts("\"3\"").is_expr);
    assert!(!str_facts("\"a,\"").is_expr);
}

#[test]
fn reading_literals_changes_only_the_literals() {
    let unread = |s: &str| Tok::Lit(format!("{:?}", s), LitFacts::Unread);
    let def = item(
        "Target",
        vec![morph(vec![ident("from"), punct('='), unread("Source")])],
        named(vec![field("id", "u64", vec![morph(vec![ident("from"), punct('='), unread("raw_id")])])]),
    );
    let read = read_literals(def.clone());
    let expected = item(
        "Target",
        vec![morph(key_value("from", "Source"))],
        named(vec![field("id", "u64", vec![morph(key_value("from", "raw_id"))])]),
    );
    assert_eq!(read, expected);
    assert_ne!(read, def);
    // Unread literals are no string literals to the derive.
    assert_eq!(
        expand_morph(&def),
        err("expected string literal", Site::AttrTokens(Owner::Item, 0, 2, 2))
    );
    assert_eq!(velomorph::derive_text(def), expand_morph(&expected));
}

#[test]
fn morph_error_messages() {
    assert_eq!(MorphError::MissingField("request_id".to_string()).message(), "Required field is missing: request_id");
    assert_eq!(MorphError::TransformError("too high".to_string()).message(), "Field transform failed: too high");
    assert_eq!(MorphError::ValidationError("zero".to_string()).message(), "Validation failed: zero");
}

#[test]
fn from_names_must_be_identifiers() {
    for bad in ["legacy id", "a.b", "", "42", "r#type", "-x"] {
        let f = field("id", "u64", vec![morph(key_value("from", bad))]);
        assert_eq!(
            parse_field_morph_attrs(&f, Owner::Field(0)).err().unwrap(),
            Diagnostic {
                message: "Malformed #[morph(from = \"...\")] attribute. `from` must be a valid Rust identifier."
                    .to_string(),
                site: Site::AttrTokens(Owner::Field(0), 0, 2, 2),
            },
            "{bad:?}"
        );
    }
    for good in ["legacy_id", "_x", "type", "café", "x9"] {
        let f = field("id", "u64", vec![morph(key_value("from", good))]);
        assert_eq!(parse_field_morph_attrs(&f, Owner::Field(0)).unwrap().from.as_deref(), Some(good));
    }
    let v = VariantDef { ident: "Down".to_string(), attrs: vec![morph(key_value("from", "Legacy Down"))], fields: FieldsDef::Unit };
    assert_eq!(
        resolve_source_variant_ident(&v, 1).err().unwrap(),
        Diagnostic {
            message: "Malformed #[morph(from = \"...\")] on enum variant. `from` must be a valid Rust identifier."
                .to_string(),
            site: Site::AttrTokens(Owner::Variant(1), 0, 2, 2),
        }
    );
}

#[test]
fn raw_field_names_cannot_be_bound_in_variants() {
    let fields = vec![field("r#type", "u32", vec![])];
    assert_eq!(
        build_named_source_destructures(&fields, 3).err().unwrap(),
        Diagnostic {
            message: "`__src_r#type` is not a valid identifier for a variant field binding.".to_string(),
            site: Site::Field(Owner::VariantField(3, 0)),
        }
    );
    // A skipped field is never bound, whatever its name.
    let skipped = vec![field("r#type", "u32", vec![morph(vec![ident("skip")])])];
    assert_eq!(build_named_source_destructures(&skipped, 0).unwrap(), Vec::<String>::new());
}

#[test]
fn identifier_check() {
    assert!(is_identifier("request_id"));
    assert!(is_identifier("_"));
    assert!(is_identifier("Übung"));
    assert!(!is_identifier(""));
    assert!(!is_identifier("123"));
    assert!(!is_identifier("1a"));
    assert!(!is_identifier("a-b"));
}
