//! The engine's own surfaces: the attribute grammar and its errors, the
//! merge rule, the generic-parameter projector, the emitted header, the
//! shim import, whole-type templates, zero-variant enums, and the combined
//! derivation.

use fmt_derive::Contract;
use fmt_derive::attribute::FieldAttribute;
use fmt_derive::driver::{CrateLocation, RenderPlan, debug, display, fmt, use_rt};
use fmt_derive::generics::{GenericParam, GenericVariants, Generics};
use fmt_derive::render::{render, run_plan};
use fmt_derive::shape::{FieldSpec, FieldsShape, TypeDef, TypeShape, Value, ValueBody};
use fmt_derive::syntax::{Annotation, AttrName, AttrToken, Span, TokenKind};
use fmt_derive::text::decimal_string;

fn tok(kind: TokenKind, text: &str, start: usize) -> AttrToken {
    AttrToken { kind, text: text.to_string(), span: Span { start, end: start + 1 } }
}

fn annotation(name: AttrName, tokens: Vec<AttrToken>) -> Annotation {
    Annotation { name, tokens, span: Span { start: 0, end: 0 } }
}

fn plain_def(name: &str, shape: TypeShape, attrs: Vec<Annotation>) -> TypeDef {
    TypeDef {
        name: name.to_string(),
        generics: Generics { params: Vec::new(), where_clause: None },
        attrs,
        shape,
    }
}

fn unit_value() -> Value {
    Value { substituted: String::new(), body: ValueBody::Fields(Vec::new()) }
}

#[test]
fn merge_is_last_writer_wins_per_contract() {
    // A shared `fmt` template, then a `debug`-only one: the debug contract
    // sees the later writer, the display contract keeps the shared one.
    let attrs = vec![
        annotation(AttrName::Fmt, vec![tok(TokenKind::LitStr, "\"shared\"", 0)]),
        annotation(AttrName::Debug, vec![tok(TokenKind::LitStr, "\"diagnostic\"", 0)]),
    ];
    let mut errors = Vec::new();
    let debug_cfg = FieldAttribute::resolve(&attrs, Contract::Debug, &mut errors);
    let display_cfg = FieldAttribute::resolve(&attrs, Contract::Display, &mut errors);
    assert!(errors.is_empty());
    assert_eq!(debug_cfg.format.unwrap().text, "\"diagnostic\"");
    assert_eq!(display_cfg.format.unwrap().text, "\"shared\"");
    assert!(!debug_cfg.ignore);
}

#[test]
fn merge_keeps_ignore_and_template_independent() {
    let attrs = vec![
        annotation(AttrName::Debug, vec![tok(TokenKind::Word, "ignore", 0)]),
        annotation(AttrName::Debug, vec![tok(TokenKind::LitStr, "\"later\"", 0)]),
    ];
    let mut errors = Vec::new();
    let cfg = FieldAttribute::resolve(&attrs, Contract::Debug, &mut errors);
    assert!(errors.is_empty());
    assert!(cfg.ignore);
    assert_eq!(cfg.format.unwrap().text, "\"later\"");
}

#[test]
fn field_payload_errors() {
    // An unrecognized payload names what was expected, pinned to the token.
    let bad = annotation(AttrName::Debug, vec![tok(TokenKind::Word, "skip", 7)]);
    let e = FieldAttribute::parse(&bad).unwrap_err();
    assert_eq!(e.message, "expected a string literal or `ignore`");
    assert_eq!(e.span.start, 7);

    // Trailing content after `ignore` is refused at the trailing token.
    let bad = annotation(
        AttrName::Debug,
        vec![tok(TokenKind::Word, "ignore", 0), tok(TokenKind::Other, ",", 6)],
    );
    let e = FieldAttribute::parse(&bad).unwrap_err();
    assert_eq!(e.message, "unexpected tokens after `ignore`");
    assert_eq!(e.span.start, 6);

    // An empty payload is the default configuration.
    let empty = annotation(AttrName::Debug, Vec::new());
    let cfg = FieldAttribute::parse(&empty).unwrap();
    assert!(!cfg.ignore);
    assert!(cfg.format.is_none());
}

#[test]
fn errors_accumulate_across_the_whole_traversal() {
    // A malformed type-scope annotation and a malformed member annotation
    // are both reported, in traversal order, and nothing is rendered.
    let def = plain_def(
        "Broken",
        TypeShape::Struct(FieldsShape::Ordered(vec![FieldSpec {
            name: None,
            ty: "u32".to_string(),
            attrs: vec![annotation(AttrName::Debug, vec![tok(TokenKind::Word, "skip", 9)])],
        }])),
        vec![annotation(AttrName::Debug, vec![tok(TokenKind::Word, "nope", 3)])],
    );
    let val = Value {
        substituted: String::new(),
        body: ValueBody::Fields(vec![fmt_derive::rt::MemberValue {
            debug: Some("0".to_string()),
            display: Some("0".to_string()),
            substituted: String::new(),
        }]),
    };
    let errors = render(&def, &val, Contract::Debug).unwrap_err();
    assert_eq!(errors.len(), 2);
    assert_eq!(errors[0].message, "expected a string literal");
    assert_eq!(errors[0].span.start, 3);
    assert_eq!(errors[1].message, "expected a string literal or `ignore`");
    assert_eq!(errors[1].span.start, 9);

    // Under the other contract the same annotations are not addressed at
    // all, so the derivation succeeds.
    assert!(render(&def, &val, Contract::Display).is_ok());
}

#[test]
fn whole_item_template_wins_everywhere() {
    // A type-scope template replaces default rendering for a struct and
    // even for a union.
    let attrs = vec![annotation(AttrName::Fmt, vec![tok(TokenKind::LitStr, "\"custom {}\"", 0)])];
    let def = plain_def("Thing", TypeShape::Struct(FieldsShape::Unit), attrs);
    let val = Value { substituted: "custom 42".to_string(), body: ValueBody::Fields(Vec::new()) };
    assert_eq!(render(&def, &val, Contract::Debug).unwrap(), "custom 42");

    let attrs = vec![annotation(AttrName::Fmt, vec![tok(TokenKind::LitStr, "\"u!\"", 0)])];
    let def = plain_def("U", TypeShape::UntaggedUnion, attrs);
    let val = Value { substituted: "u!".to_string(), body: ValueBody::Opaque };
    assert_eq!(render(&def, &val, Contract::Display).unwrap(), "u!");
}

#[test]
fn zero_variant_enum_is_unreachable() {
    let def = plain_def("Never", TypeShape::Enum(Vec::new()), Vec::new());
    let fi = debug(&def, "use crate::_rt;").unwrap();
    assert!(matches!(fi.plan, RenderPlan::Unreachable));
}

#[test]
fn combined_derivation_equals_each_alone() {
    let def = plain_def(
        "Pair",
        TypeShape::Struct(FieldsShape::Named(vec![
            FieldSpec { name: Some("x".to_string()), ty: "u32".to_string(), attrs: Vec::new() },
            FieldSpec {
                name: Some("y".to_string()),
                ty: "Unprintable".to_string(),
                attrs: Vec::new(),
            },
        ])),
        Vec::new(),
    );
    let val = Value {
        substituted: String::new(),
        body: ValueBody::Fields(vec![
            fmt_derive::rt::MemberValue {
                debug: Some("7".to_string()),
                display: Some("7".to_string()),
                substituted: String::new(),
            },
            fmt_derive::rt::MemberValue { debug: None, display: None, substituted: String::new() },
        ]),
    };
    let (both_debug, both_display) = fmt(&def, "use crate::_rt;").unwrap();
    let alone_debug = debug(&def, "use crate::_rt;").unwrap();
    let alone_display = display(&def, "use crate::_rt;").unwrap();
    assert_eq!(
        run_plan(&both_debug.plan, Contract::Debug, &val),
        run_plan(&alone_debug.plan, Contract::Debug, &val)
    );
    assert_eq!(
        run_plan(&both_display.plan, Contract::Display, &val),
        run_plan(&alone_display.plan, Contract::Display, &val)
    );
    assert_eq!(
        run_plan(&both_debug.plan, Contract::Debug, &val),
        "Pair { x: 7, y: <Unprintable> }"
    );
    assert_eq!(both_debug.impl_header(), alone_debug.impl_header());
    assert_eq!(both_display.impl_header(), alone_display.impl_header());
}

#[test]
fn projector_drops_defaults_and_keeps_bounds() {
    let generics = Generics {
        params: vec![
            GenericParam::Lifetime { name: "'a".to_string(), bounds: None },
            GenericParam::Type {
                name: "T".to_string(),
                bounds: Some("Clone".to_string()),
                default: Some("u32".to_string()),
            },
            GenericParam::Const {
                name: "N".to_string(),
                ty: "usize".to_string(),
                default: Some("4".to_string()),
            },
        ],
        where_clause: Some("where T: Send".to_string()),
    };
    let v = GenericVariants::new(&generics);
    assert_eq!(v.params_bare, "'a, T, N");
    assert_eq!(v.params_no_defaults, "'a, T: Clone, const N: usize");
    assert_eq!(v.where_clause, "where T: Send");

    let none = GenericVariants::new(&Generics { params: Vec::new(), where_clause: None });
    assert_eq!(none.params_bare, "");
    assert_eq!(none.params_no_defaults, "");
    assert_eq!(none.where_clause, "");
}

#[test]
fn header_and_shim_import() {
    assert_eq!(use_rt(&CrateLocation::Itself), "use crate::_rt;");
    assert_eq!(
        use_rt(&CrateLocation::Named("fmt_derive".to_string())),
        "use ::fmt_derive::_rt;"
    );

    let def = TypeDef {
        name: "Wrapper".to_string(),
        generics: Generics {
            params: vec![GenericParam::Type {
                name: "T".to_string(),
                bounds: Some("Clone".to_string()),
                default: None,
            }],
            where_clause: None,
        },
        attrs: Vec::new(),
        shape: TypeShape::Struct(FieldsShape::Unit),
    };
    let fi = display(&def, "use crate::_rt;").unwrap();
    assert_eq!(
        fi.impl_header(),
        "impl<T: Clone> ::core::fmt::Display for Wrapper<T> "
    );
    assert_eq!(fi.rt_import, "use crate::_rt;");
}

#[test]
fn decimal_rendering() {
    assert_eq!(decimal_string(0), "0");
    assert_eq!(decimal_string(7), "7");
    assert_eq!(decimal_string(10), "10");
    assert_eq!(decimal_string(4294967295), "4294967295");
}

#[test]
fn unit_rendering_is_the_bare_name() {
    let def = plain_def("Lone", TypeShape::Struct(FieldsShape::Unit), Vec::new());
    assert_eq!(render(&def, &unit_value(), Contract::Debug).unwrap(), "Lone");
    assert_eq!(render(&def, &unit_value(), Contract::Display).unwrap(), "Lone");
}

#[test]
fn printable_wrapper_scenario() {
    // A one-member tuple struct around an unprintable type renders the
    // member as its placeholder inside an otherwise untouched structure.
    let def = plain_def(
        "Printable",
        TypeShape::Struct(FieldsShape::Ordered(vec![FieldSpec {
            name: None,
            ty: "Unprintable".to_string(),
            attrs: Vec::new(),
        }])),
        Vec::new(),
    );
    let val = Value {
        substituted: String::new(),
        body: ValueBody::Fields(vec![fmt_derive::rt::MemberValue {
            debug: None,
            display: None,
            substituted: String::new(),
        }]),
    };
    assert_eq!(render(&def, &val, Contract::Debug).unwrap(), "Printable(<Unprintable>)");
    assert_eq!(render(&def, &val, Contract::Display).unwrap(), "Printable(<Unprintable>)");
}

#[test]
fn each_contract_uses_its_own_capability() {
    // A string-like member renders quoted under the debug contract and
    // bare under the display contract, exactly as its own capabilities do.
    let def = plain_def(
        "Holder",
        TypeShape::Struct(FieldsShape::Ordered(vec![FieldSpec {
            name: None,
            ty: "String".to_string(),
            attrs: Vec::new(),
        }])),
        Vec::new(),
    );
    let text = "hi";
    let val = Value {
        substituted: String::new(),
        body: ValueBody::Fields(vec![fmt_derive::rt::MemberValue {
            debug: Some(format!("{:?}", text)),
            display: Some(format!("{}", text)),
            substituted: String::new(),
        }]),
    };
    assert_eq!(render(&def, &val, Contract::Debug).unwrap(), "Holder(\"hi\")");
    assert_eq!(render(&def, &val, Contract::Display).unwrap(), "Holder(hi)");
}

#[test]
fn emitted_source_text() {
    // The emitted implementation source, character for character.
    let def = fmt_derive::catalog::structs::Tuple::definition();
    let fi = debug(&def, "use crate::_rt;").unwrap();
    assert_eq!(
        fi.source(),
        "impl<> ::core::fmt::Debug for Tuple<> \
         { fn fmt(&self, f: &mut ::core::fmt::Formatter) -> ::core::fmt::Result { \
         use crate::_rt; \
         let Tuple (x0, ) = self; \
         use _rt::Replacement; let mut w = f.debug_tuple(\"Tuple\"); \
         _rt::DebugOrReplacement::<u32>(&x0).tuple_field(\"<u32>\", &mut w); \
         w.finish() } }"
    );
}
