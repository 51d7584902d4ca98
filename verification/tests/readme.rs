//! The worked example: one struct mixing an incapable member, a
//! contract-specific ignore, and a per-member template, rendered under both
//! contracts.

use fmt_derive::Contract;
use fmt_derive::generics::Generics;
use fmt_derive::render::render;
use fmt_derive::rt::MemberValue;
use fmt_derive::shape::{FieldSpec, FieldsShape, TypeDef, TypeShape, Value, ValueBody};
use fmt_derive::syntax::{Annotation, AttrName, AttrToken, Span, TokenKind};

fn tok(kind: TokenKind, text: &str) -> AttrToken {
    AttrToken { kind, text: text.to_string(), span: Span { start: 0, end: 0 } }
}

fn annotation(name: AttrName, tokens: Vec<AttrToken>) -> Annotation {
    Annotation { name, tokens, span: Span { start: 0, end: 0 } }
}

#[test]
fn main() {
    let def = TypeDef {
        name: "Printable".to_string(),
        generics: Generics { params: Vec::new(), where_clause: None },
        attrs: Vec::new(),
        shape: TypeShape::Struct(FieldsShape::Named(vec![
            FieldSpec {
                name: Some("unprintable".to_string()),
                ty: "Unprintable".to_string(),
                attrs: Vec::new(),
            },
            FieldSpec {
                name: Some("ignored".to_string()),
                ty: "u32".to_string(),
                attrs: vec![annotation(
                    AttrName::Display,
                    vec![tok(TokenKind::Word, "ignore")],
                )],
            },
            FieldSpec {
                name: Some("hex_number".to_string()),
                ty: "u32".to_string(),
                attrs: vec![annotation(
                    AttrName::Fmt,
                    vec![
                        tok(TokenKind::LitStr, "\"{:#08X}\""),
                        tok(TokenKind::Other, ","),
                        tok(TokenKind::Word, "self"),
                        tok(TokenKind::Other, "."),
                        tok(TokenKind::Word, "hex_number"),
                    ],
                )],
            },
        ])),
    };
    let hex_number: u32 = 0xDEADBEEF;
    let ignored: u32 = 42;
    let val = Value {
        substituted: String::new(),
        body: ValueBody::Fields(vec![
            MemberValue { debug: None, display: None, substituted: String::new() },
            MemberValue {
                debug: Some(format!("{:?}", ignored)),
                display: Some(format!("{}", ignored)),
                substituted: String::new(),
            },
            MemberValue {
                debug: Some(format!("{:?}", hex_number)),
                display: Some(format!("{}", hex_number)),
                substituted: format!("{:#08X}", hex_number),
            },
        ]),
    };

    assert_eq!(
        render(&def, &val, Contract::Debug).unwrap(),
        "Printable { unprintable: <Unprintable>, ignored: 42, hex_number: 0xDEADBEEF }"
    );
    assert_eq!(
        render(&def, &val, Contract::Display).unwrap(),
        "Printable { unprintable: <Unprintable>, hex_number: 0xDEADBEEF }"
    );
}
