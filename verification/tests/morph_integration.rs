//! Integration scenarios of the derive and the runtime. Each target type is described to the
//! derive as a model; the test checks the exact source the derive writes and
//! then runs that same implementation (written out below) on the scenario's
//! values. The library is the `janitor` build, so the implementation written
//! out is the one for that setting.
use std::borrow::Cow;

use velomorph::model::{
    AttrArgs, AttrDef, AttrPath, DataDef, DeriveDef, FieldDef, FieldsDef, LitFacts, Tok, TypeDef,
    VariantDef,
};
use velomorph::janitor::Disposable;
use velomorph::{derive_text, Janitor, MorphError, TryMorph};

fn ident(s: &str) -> Tok {
    Tok::Ident(s.to_string())
}

fn punct(c: char) -> Tok {
    Tok::Punct(c, false)
}

/// A string literal as the compiler hands it over: not read yet.
fn lit(s: &str) -> Tok {
    Tok::Lit(format!("{:?}", s), LitFacts::Unread)
}

fn key_value(key: &str, value: &str) -> Vec<Tok> {
    vec![ident(key), punct('='), lit(value)]
}

fn morph(toks: Vec<Tok>) -> AttrDef {
    AttrDef {
        path: AttrPath { leading_colon: false, segments: vec!["morph".to_string()] },
        args: AttrArgs::List(toks),
    }
}

fn field(name: &str, last_segment: &str, attrs: Vec<AttrDef>) -> FieldDef {
    FieldDef {
        ident: Some(name.to_string()),
        ty: TypeDef { last_segment: Some(last_segment.to_string()) },
        attrs,
    }
}

fn item(name: &str, generics: &str, attrs: Vec<AttrDef>, data: DataDef) -> DeriveDef {
    DeriveDef {
        ident: name.to_string(),
        impl_generics: generics.to_string(),
        ty_generics: generics.to_string(),
        where_clause: String::new(),
        attrs,
        data,
    }
}

// ---------------------------------------------------------------------------
// ProcessedEvent<'a>, from the default source `RawInput<'a>`.

pub struct RawInput<'a> {
    pub request_id: Option<u64>,
    pub user_tag: &'a str,
    pub metadata: Option<String>,
    pub payload: Option<Vec<u8>>,
}

#[derive(Debug)]
pub struct ProcessedEvent<'a> {
    pub request_id: u64,
    pub user_tag: Cow<'a, str>,
    pub metadata: Option<String>,
}

fn processed_event_model() -> DeriveDef {
    item(
        "ProcessedEvent",
        "<'a>",
        vec![],
        DataDef::Struct(FieldsDef::Named(vec![
            field("request_id", "u64", vec![]),
            field("user_tag", "Cow", vec![]),
            field("metadata", "Option", vec![]),
        ])),
    )
}

const PROCESSED_EVENT_IMPL: (&str, &str, &str) = (
    "impl<'a> velomorph::TryMorph<ProcessedEvent<'a>> for RawInput <'a>  {\n",
    "Result<ProcessedEvent<'a>, velomorph::MorphError> {\n",
    "let mapped = ProcessedEvent { request_id: old.request_id.ok_or(velomorph::MorphError::MissingField(\"request_id\".to_string()))?, user_tag: std::borrow::Cow::from(old.user_tag), metadata: old.metadata };\n\nOk(mapped)",
);

impl<'a> velomorph::TryMorph<ProcessedEvent<'a>> for RawInput<'a> {
    fn try_morph(self, janitor: &velomorph::Janitor) -> Result<ProcessedEvent<'a>, velomorph::MorphError> {
        let _ = janitor;
        let old = self;
        let mapped = ProcessedEvent {
            request_id: old
                .request_id
                .ok_or(velomorph::MorphError::MissingField("request_id".to_string()))?,
            user_tag: std::borrow::Cow::from(old.user_tag),
            metadata: old.metadata,
        };

        Ok(mapped)
    }
}

// ---------------------------------------------------------------------------
// PacketView<'a>, from `#[morph(from = "Packet")]`.

pub struct Packet<'a> {
    pub id: Option<u64>,
    pub user_tag: &'a str,
    pub payload: Option<Vec<u8>>,
}

#[derive(Debug)]
pub struct PacketView<'a> {
    pub id: u64,
    pub user_tag: Cow<'a, str>,
}

fn packet_view_model() -> DeriveDef {
    item(
        "PacketView",
        "<'a>",
        vec![morph(key_value("from", "Packet"))],
        DataDef::Struct(FieldsDef::Named(vec![field("id", "u64", vec![]), field("user_tag", "Cow", vec![])])),
    )
}

const PACKET_VIEW_IMPL: (&str, &str, &str) = (
    "impl<'a> velomorph::TryMorph<PacketView<'a>> for Packet\n<'a>  {\n",
    "Result<PacketView<'a>, velomorph::MorphError> {\n",
    "let mapped = PacketView { id: old.id.ok_or(velomorph::MorphError::MissingField(\"id\".to_string()))?, user_tag: std::borrow::Cow::from(old.user_tag) };\n\nOk(mapped)",
);

impl<'a> velomorph::TryMorph<PacketView<'a>> for Packet<'a> {
    fn try_morph(self, janitor: &velomorph::Janitor) -> Result<PacketView<'a>, velomorph::MorphError> {
        let _ = janitor;
        let old = self;
        let mapped = PacketView {
            id: old.id.ok_or(velomorph::MorphError::MissingField("id".to_string()))?,
            user_tag: std::borrow::Cow::from(old.user_tag),
        };

        Ok(mapped)
    }
}

// ---------------------------------------------------------------------------
// TransformTarget: `with`, `default = "7"`, `skip` and `validate`.

pub struct TransformSource {
    pub count_raw: u32,
    pub threshold: Option<u8>,
    pub payload: Option<Vec<u8>>,
}

#[derive(Debug)]
pub struct TransformTarget {
    pub count: u64,
    pub threshold: u8,
    pub skipped: String,
}

fn to_count(value: u32) -> Result<u64, &'static str> {
    if value > 1000 {
        return Err("count is too high");
    }
    Ok(value as u64)
}

fn validate_transform_target(value: &TransformTarget) -> Result<(), &'static str> {
    if value.count == 0 {
        return Err("count must be greater than zero");
    }
    Ok(())
}

fn transform_target_model() -> DeriveDef {
    let mut type_attr = key_value("from", "TransformSource");
    type_attr.push(punct(','));
    type_attr.extend(key_value("validate", "validate_transform_target"));
    let mut count_attr = key_value("from", "count_raw");
    count_attr.push(punct(','));
    count_attr.extend(key_value("with", "to_count"));
    item(
        "TransformTarget",
        "",
        vec![morph(type_attr)],
        DataDef::Struct(FieldsDef::Named(vec![
            field("count", "u64", vec![morph(count_attr)]),
            field("threshold", "u8", vec![morph(key_value("default", "7"))]),
            field("skipped", "String", vec![morph(vec![ident("skip")])]),
        ])),
    )
}

const TRANSFORM_TARGET_IMPL: (&str, &str, &str) = (
    "impl velomorph::TryMorph<TransformTarget> for TransformSource\n  {\n",
    "Result<TransformTarget, velomorph::MorphError> {\n",
    "let mapped = TransformTarget { count: to_count\n(old.count_raw).map_err(|e| velomorph::MorphError::TransformError(e.to_string()))?, threshold: match old.threshold { Some(value) => value, None => 7\n, }, skipped: std::default::Default::default() };\nvalidate_transform_target\n(&mapped).map_err(|e| velomorph::MorphError::ValidationError(e.to_string()))?;\nOk(mapped)",
);

impl velomorph::TryMorph<TransformTarget> for TransformSource {
    fn try_morph(self, janitor: &velomorph::Janitor) -> Result<TransformTarget, velomorph::MorphError> {
        let _ = janitor;
        let old = self;
        let mapped = TransformTarget {
            count: to_count(old.count_raw)
                .map_err(|e| velomorph::MorphError::TransformError(e.to_string()))?,
            threshold: match old.threshold {
                Some(value) => value,
                None => 7,
            },
            skipped: std::default::Default::default(),
        };
        validate_transform_target(&mapped)
            .map_err(|e| velomorph::MorphError::ValidationError(e.to_string()))?;
        Ok(mapped)
    }
}

// ---------------------------------------------------------------------------
// DefaultOnlyTarget: `#[morph(default)]`.

pub struct DefaultOnlySource {
    pub amount: Option<u32>,
    pub payload: Option<Vec<u8>>,
}

#[derive(Debug)]
pub struct DefaultOnlyTarget {
    pub amount: u32,
}

fn default_only_model() -> DeriveDef {
    item(
        "DefaultOnlyTarget",
        "",
        vec![morph(key_value("from", "DefaultOnlySource"))],
        DataDef::Struct(FieldsDef::Named(vec![field("amount", "u32", vec![morph(vec![ident("default")])])])),
    )
}

const DEFAULT_ONLY_IMPL: (&str, &str, &str) = (
    "impl velomorph::TryMorph<DefaultOnlyTarget> for DefaultOnlySource\n  {\n",
    "Result<DefaultOnlyTarget, velomorph::MorphError> {\n",
    "let mapped = DefaultOnlyTarget { amount: match old.amount { Some(value) => value, None => std::default::Default::default(), } };\n\nOk(mapped)",
);

impl velomorph::TryMorph<DefaultOnlyTarget> for DefaultOnlySource {
    fn try_morph(self, janitor: &velomorph::Janitor) -> Result<DefaultOnlyTarget, velomorph::MorphError> {
        let _ = janitor;
        let old = self;
        let mapped = DefaultOnlyTarget {
            amount: match old.amount {
                Some(value) => value,
                None => std::default::Default::default(),
            },
        };

        Ok(mapped)
    }
}

// ---------------------------------------------------------------------------
// TargetSignal: same-name variant and `#[morph(from = "LegacyDown")]`.

pub enum SourceSignal {
    Up { code: Option<u32>, label: &'static str },
    LegacyDown { code: Option<u32>, label: &'static str },
}

#[derive(Debug)]
pub enum TargetSignal {
    Up { code: u32, label: Cow<'static, str> },
    Down { code: u32, label: Cow<'static, str> },
}

fn target_signal_model() -> DeriveDef {
    let fields = || FieldsDef::Named(vec![field("code", "u32", vec![]), field("label", "Cow", vec![])]);
    item(
        "TargetSignal",
        "",
        vec![morph(key_value("from", "SourceSignal"))],
        DataDef::Enum(vec![
            VariantDef { ident: "Up".to_string(), attrs: vec![], fields: fields() },
            VariantDef {
                ident: "Down".to_string(),
                attrs: vec![morph(key_value("from", "LegacyDown"))],
                fields: fields(),
            },
        ]),
    )
}

const TARGET_SIGNAL_IMPL: (&str, &str, &str) = (
    "impl velomorph::TryMorph<TargetSignal> for SourceSignal\n  {\n",
    "Result<TargetSignal, velomorph::MorphError> {\n",
    "match old { Self::Up { code: __src_code, label: __src_label } => { let mapped = TargetSignal::Up { code: __src_code.ok_or(velomorph::MorphError::MissingField(\"code\".to_string()))?, label: std::borrow::Cow::from(__src_label) };\n\nOk(mapped) }, Self::LegacyDown { code: __src_code, label: __src_label } => { let mapped = TargetSignal::Down { code: __src_code.ok_or(velomorph::MorphError::MissingField(\"code\".to_string()))?, label: std::borrow::Cow::from(__src_label) };\n\nOk(mapped) } }",
);

#[allow(non_snake_case)]
impl velomorph::TryMorph<TargetSignal> for SourceSignal {
    fn try_morph(self, janitor: &velomorph::Janitor) -> Result<TargetSignal, velomorph::MorphError> {
        let _ = janitor;
        let old = self;
        match old {
            Self::Up { code: __src_code, label: __src_label } => {
                let mapped = TargetSignal::Up {
                    code: __src_code
                        .ok_or(velomorph::MorphError::MissingField("code".to_string()))?,
                    label: std::borrow::Cow::from(__src_label),
                };

                Ok(mapped)
            }
            Self::LegacyDown { code: __src_code, label: __src_label } => {
                let mapped = TargetSignal::Down {
                    code: __src_code
                        .ok_or(velomorph::MorphError::MissingField("code".to_string()))?,
                    label: std::borrow::Cow::from(__src_label),
                };

                Ok(mapped)
            }
        }
    }
}

fn generated(def: &DeriveDef) -> String {
    derive_text(def.clone()).expect("the derive should accept the item")
}

/// The two implementations the derive writes, one per setting of the
/// `janitor` feature, from their shared header, return type and body.
fn both_impls(parts: (&str, &str, &str)) -> String {
    let (header, ret, body) = parts;
    let plain_header = header.replace("velomorph::TryMorph<", "velomorph::plain::TryMorph<");
    format!(
        "#[cfg(feature = \"janitor\")]\n{header}fn try_morph(self, janitor: &velomorph::Janitor) -> {ret}let _ = janitor;\nlet old = self;\n{body}\n}}\n}}\n#[cfg(not(feature = \"janitor\"))]\n{plain_header}fn try_morph(self) -> {ret}let old = self;\n{body}\n}}\n}}\n"
    )
}

/// A janitor whose queue is drained by nobody: the generated implementations
/// never use it.
fn new_janitor() -> (Janitor, tokio::sync::mpsc::UnboundedReceiver<Box<dyn Disposable>>) {
    let (tx, rx) = tokio::sync::mpsc::unbounded_channel();
    (Janitor::from_unbounded(tx), rx)
}

// ---------------------------------------------------------------------------

#[test]
fn morph_maps_fields_and_uses_borrowed_cow() {
    let (janitor, _queue) = new_janitor();
    assert_eq!(generated(&processed_event_model()), both_impls(PROCESSED_EVENT_IMPL));
    let raw = RawInput {
        request_id: Some(7),
        user_tag: "alpha",
        metadata: Some("region-a".to_string()),
        payload: Some(vec![1, 2, 3, 4]),
    };

    let mapped: ProcessedEvent = raw.try_morph(&janitor).expect("morph should succeed");

    assert_eq!(mapped.request_id, 7);
    assert_eq!(mapped.metadata.as_deref(), Some("region-a"));
    assert!(matches!(mapped.user_tag, Cow::Borrowed("alpha")));
}

#[test]
fn morph_returns_missing_field_error_for_strict_fields() {
    let (janitor, _queue) = new_janitor();
    assert_eq!(generated(&processed_event_model()), both_impls(PROCESSED_EVENT_IMPL));
    let raw = RawInput { request_id: None, user_tag: "alpha", metadata: None, payload: None };

    let err = TryMorph::<ProcessedEvent>::try_morph(raw, &janitor).expect_err("missing strict field should fail");

    assert!(matches!(err, MorphError::MissingField(field) if field == "request_id"));
}

#[test]
fn morph_supports_custom_source_type_attribute() {
    let (janitor, _queue) = new_janitor();
    assert_eq!(generated(&packet_view_model()), both_impls(PACKET_VIEW_IMPL));
    let packet = Packet { id: Some(99), user_tag: "tag-99", payload: Some(vec![0; 16]) };

    let view: PacketView = TryMorph::try_morph(packet, &janitor).expect("custom source should morph");

    assert_eq!(view.id, 99);
    assert!(matches!(view.user_tag, Cow::Borrowed("tag-99")));
}

#[test]
fn morph_supports_with_default_skip_and_validate() {
    let (janitor, _queue) = new_janitor();
    assert_eq!(generated(&transform_target_model()), both_impls(TRANSFORM_TARGET_IMPL));
    let src = TransformSource { count_raw: 22, threshold: None, payload: None };

    let out: TransformTarget = TryMorph::try_morph(src, &janitor).expect("morph should succeed");

    assert_eq!(out.count, 22);
    assert_eq!(out.threshold, 7);
    assert_eq!(out.skipped, String::default());
}

#[test]
fn morph_reports_transform_errors_from_with_attribute() {
    let (janitor, _queue) = new_janitor();
    assert_eq!(generated(&transform_target_model()), both_impls(TRANSFORM_TARGET_IMPL));
    let src = TransformSource { count_raw: 2001, threshold: Some(1), payload: None };

    let err = TryMorph::<TransformTarget>::try_morph(src, &janitor).expect_err("should fail");

    assert!(matches!(err, MorphError::TransformError(msg) if msg.contains("too high")));
}

#[test]
fn morph_reports_validation_errors_from_validate_attribute() {
    let (janitor, _queue) = new_janitor();
    assert_eq!(generated(&transform_target_model()), both_impls(TRANSFORM_TARGET_IMPL));
    let src = TransformSource { count_raw: 0, threshold: Some(1), payload: None };

    let err = TryMorph::<TransformTarget>::try_morph(src, &janitor).expect_err("should fail");

    assert!(matches!(err, MorphError::ValidationError(msg) if msg.contains("greater than zero")));
}

#[test]
fn morph_supports_default_trait_attribute() {
    let (janitor, _queue) = new_janitor();
    assert_eq!(generated(&default_only_model()), both_impls(DEFAULT_ONLY_IMPL));
    let src = DefaultOnlySource { amount: None, payload: None };

    let out: DefaultOnlyTarget = TryMorph::try_morph(src, &janitor).expect("morph should succeed");

    assert_eq!(out.amount, 0);
}

#[test]
fn morph_supports_enum_same_name_and_variant_override() {
    let (janitor, _queue) = new_janitor();
    assert_eq!(generated(&target_signal_model()), both_impls(TARGET_SIGNAL_IMPL));
    let up = SourceSignal::Up { code: Some(10), label: "u" };
    let down = SourceSignal::LegacyDown { code: Some(11), label: "d" };

    let mapped_up: TargetSignal = TryMorph::try_morph(up, &janitor).expect("up should morph");
    let mapped_down: TargetSignal = TryMorph::try_morph(down, &janitor).expect("down should morph");

    assert!(matches!(mapped_up, TargetSignal::Up { code: 10, label: Cow::Borrowed("u") }));
    assert!(matches!(mapped_down, TargetSignal::Down { code: 11, label: Cow::Borrowed("d") }));
}

#[test]
fn morph_supports_vec_to_vec_mapping() {
    let (janitor, _queue) = new_janitor();
    let input = vec![
        TransformSource { count_raw: 10, threshold: Some(3), payload: None },
        TransformSource { count_raw: 20, threshold: None, payload: Some(vec![1, 2, 3]) },
    ];

    let out: Vec<TransformTarget> = TryMorph::try_morph(input, &janitor).expect("vec morph succeeds");

    assert_eq!(out.len(), 2);
    assert_eq!(out[0].count, 10);
    assert_eq!(out[0].threshold, 3);
    assert_eq!(out[1].count, 20);
    assert_eq!(out[1].threshold, 7);
}

#[test]
fn morph_vec_to_vec_propagates_first_error() {
    let (janitor, _queue) = new_janitor();
    let input = vec![
        TransformSource { count_raw: 10, threshold: Some(1), payload: None },
        TransformSource { count_raw: 2001, threshold: Some(1), payload: None },
        TransformSource { count_raw: 15, threshold: Some(1), payload: None },
    ];

    let err = TryMorph::<Vec<TransformTarget>>::try_morph(input, &janitor).expect_err("vec morph fails");

    assert!(matches!(err, MorphError::TransformError(msg) if msg.contains("too high")));
}

// ---------------------------------------------------------------------------
// The implementation for builds without the `janitor` feature, written out
// as the derive writes it (`plain_impl_text`): the same body as above.

impl<'a> velomorph::plain::TryMorph<ProcessedEvent<'a>> for RawInput<'a> {
    fn try_morph(self) -> Result<ProcessedEvent<'a>, velomorph::MorphError> {
        let old = self;
        let mapped = ProcessedEvent {
            request_id: old
                .request_id
                .ok_or(velomorph::MorphError::MissingField("request_id".to_string()))?,
            user_tag: std::borrow::Cow::from(old.user_tag),
            metadata: old.metadata,
        };

        Ok(mapped)
    }
}

impl velomorph::plain::TryMorph<TransformTarget> for TransformSource {
    fn try_morph(self) -> Result<TransformTarget, velomorph::MorphError> {
        let old = self;
        let mapped = TransformTarget {
            count: to_count(old.count_raw)
                .map_err(|e| velomorph::MorphError::TransformError(e.to_string()))?,
            threshold: match old.threshold {
                Some(value) => value,
                None => 7,
            },
            skipped: std::default::Default::default(),
        };
        validate_transform_target(&mapped)
            .map_err(|e| velomorph::MorphError::ValidationError(e.to_string()))?;
        Ok(mapped)
    }
}

#[test]
fn plain_morph_takes_only_self() {
    assert_eq!(generated(&processed_event_model()), both_impls(PROCESSED_EVENT_IMPL));
    let raw = RawInput { request_id: Some(3), user_tag: "beta", metadata: None, payload: None };

    let mapped: ProcessedEvent = velomorph::plain::TryMorph::try_morph(raw).expect("morph should succeed");

    assert_eq!(mapped.request_id, 3);
    assert!(matches!(mapped.user_tag, Cow::Borrowed("beta")));
    let missing = RawInput { request_id: None, user_tag: "beta", metadata: None, payload: None };
    let err = velomorph::plain::TryMorph::<ProcessedEvent>::try_morph(missing).expect_err("should fail");
    assert!(matches!(err, MorphError::MissingField(field) if field == "request_id"));
}

#[test]
fn plain_vec_morph_maps_in_order_and_stops_at_first_error() {
    let input = vec![
        TransformSource { count_raw: 10, threshold: Some(3), payload: None },
        TransformSource { count_raw: 20, threshold: None, payload: None },
    ];
    let out: Vec<TransformTarget> = velomorph::plain::TryMorph::try_morph(input).expect("vec morph succeeds");
    assert_eq!(out.len(), 2);
    assert_eq!((out[0].count, out[0].threshold), (10, 3));
    assert_eq!((out[1].count, out[1].threshold), (20, 7));

    let failing = vec![
        TransformSource { count_raw: 10, threshold: Some(1), payload: None },
        TransformSource { count_raw: 0, threshold: Some(1), payload: None },
        TransformSource { count_raw: 2001, threshold: Some(1), payload: None },
    ];
    let err = velomorph::plain::TryMorph::<Vec<TransformTarget>>::try_morph(failing).expect_err("fails");
    assert!(matches!(err, MorphError::ValidationError(msg) if msg.contains("greater than zero")));
}

#[test]
fn user_text_ends_its_own_line() {
    let def = item(
        "Commented",
        "",
        vec![morph(key_value("from", "Source // the raw form"))],
        DataDef::Struct(FieldsDef::Named(vec![
            field("level", "u8", vec![morph(key_value("default", "7 // seven"))]),
            field("count", "u64", vec![morph(key_value("with", "to_count // checked"))]),
        ])),
    );
    let text = generated(&def);
    assert!(text.contains("for Source // the raw form\n  {\n"));
    assert!(text.contains("None => 7 // seven\n, }"));
    assert!(text.contains("count: to_count // checked\n(old.count)"));
}
