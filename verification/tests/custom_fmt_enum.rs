//! Whole-variant templates replace the variant's default rendering, under
//! both contracts, whatever the members' capabilities.

use fmt_derive::Contract;
use fmt_derive::generics::Generics;
use fmt_derive::render::render;
use fmt_derive::shape::{FieldSpec, FieldsShape, TypeDef, TypeShape, Value, ValueBody, VariantSpec};
use fmt_derive::syntax::{Annotation, AttrName, AttrToken, Span, TokenKind};
use fmt_derive::rt::MemberValue;

fn tok(kind: TokenKind, text: &str) -> AttrToken {
    AttrToken { kind, text: text.to_string(), span: Span { start: 0, end: 0 } }
}

fn fmt_template(text: &str, args: &[&str]) -> Annotation {
    // the literal token carries its source form, quotes included
    let mut tokens = vec![tok(TokenKind::LitStr, &format!("{:?}", text))];
    for a in args {
        tokens.push(tok(TokenKind::Other, ","));
        tokens.push(tok(TokenKind::Word, a));
    }
    Annotation { name: AttrName::Fmt, tokens, span: Span { start: 0, end: 0 } }
}

fn enum_def(name: &str, variants: Vec<VariantSpec>) -> TypeDef {
    TypeDef {
        name: name.to_string(),
        generics: Generics { params: Vec::new(), where_clause: None },
        attrs: Vec::new(),
        shape: TypeShape::Enum(variants),
    }
}

fn printable(text: &str) -> MemberValue {
    MemberValue {
        debug: Some(text.to_string()),
        display: Some(text.to_string()),
        substituted: String::new(),
    }
}

fn unprintable() -> MemberValue {
    MemberValue { debug: None, display: None, substituted: String::new() }
}

fn variant_value(index: usize, substituted: &str, members: Vec<MemberValue>) -> Value {
    Value {
        substituted: String::new(),
        body: ValueBody::Variant { index, substituted: substituted.to_string(), members },
    }
}

#[test]
fn tuple_variant_test() {
    let def = enum_def(
        "Tuple",
        vec![VariantSpec {
            name: "Variant".to_string(),
            fields: FieldsShape::Ordered(vec![FieldSpec {
                name: None,
                ty: "u32".to_string(),
                attrs: Vec::new(),
            }]),
            attrs: vec![fmt_template("V({})", &["t0"])],
        }],
    );
    let val = variant_value(0, &format!("V({})", 0), vec![printable("0")]);
    assert_eq!(render(&def, &val, Contract::Debug).unwrap(), "V(0)");
    assert_eq!(render(&def, &val, Contract::Display).unwrap(), "V(0)");

    let def = enum_def(
        "TupleUnprintable",
        vec![VariantSpec {
            name: "Variant".to_string(),
            fields: FieldsShape::Ordered(vec![FieldSpec {
                name: None,
                ty: "Unprintable".to_string(),
                attrs: Vec::new(),
            }]),
            attrs: vec![fmt_template("V({})", &["t0"])],
        }],
    );
    let val = variant_value(0, &format!("V({})", 0), vec![unprintable()]);
    assert_eq!(render(&def, &val, Contract::Debug).unwrap(), "V(0)");
    assert_eq!(render(&def, &val, Contract::Display).unwrap(), "V(0)");
}

#[test]
fn struct_variant_test() {
    let def = enum_def(
        "Struct",
        vec![
            VariantSpec {
                name: "VariantA".to_string(),
                fields: FieldsShape::Named(vec![FieldSpec {
                    name: Some("x".to_string()),
                    ty: "u32".to_string(),
                    attrs: Vec::new(),
                }]),
                attrs: vec![fmt_template("A({})", &["x"])],
            },
            VariantSpec {
                name: "VariantB".to_string(),
                fields: FieldsShape::Named(vec![FieldSpec {
                    name: Some("x".to_string()),
                    ty: "u64".to_string(),
                    attrs: Vec::new(),
                }]),
                attrs: vec![fmt_template("B({})", &["x"])],
            },
        ],
    );
    let val_a = variant_value(0, &format!("A({})", 0), vec![printable("0")]);
    assert_eq!(render(&def, &val_a, Contract::Debug).unwrap(), "A(0)");
    assert_eq!(render(&def, &val_a, Contract::Display).unwrap(), "A(0)");
    let val_b = variant_value(1, &format!("B({})", 0), vec![printable("0")]);
    assert_eq!(render(&def, &val_b, Contract::Debug).unwrap(), "B(0)");
    assert_eq!(render(&def, &val_b, Contract::Display).unwrap(), "B(0)");

    let def = enum_def(
        "StructUnprintable",
        vec![VariantSpec {
            name: "Variant".to_string(),
            fields: FieldsShape::Named(vec![FieldSpec {
                name: Some("x".to_string()),
                ty: "Unprintable".to_string(),
                attrs: Vec::new(),
            }]),
            attrs: vec![fmt_template("V({})", &["x"])],
        }],
    );
    let val = variant_value(0, &format!("V({})", 0), vec![unprintable()]);
    assert_eq!(render(&def, &val, Contract::Debug).unwrap(), "V(0)");
    assert_eq!(render(&def, &val, Contract::Display).unwrap(), "V(0)");
}
