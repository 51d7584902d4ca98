//! Ignored members are completely absent from the output and never shift
//! their siblings.

use fmt_derive::Contract;
use fmt_derive::generics::Generics;
use fmt_derive::render::render;
use fmt_derive::rt::MemberValue;
use fmt_derive::shape::{FieldSpec, FieldsShape, TypeDef, TypeShape, Value, ValueBody};
use fmt_derive::syntax::{Annotation, AttrName, AttrToken, Span, TokenKind};

#[derive(Debug)]
struct Unit;

#[derive(Debug)]
struct Tuple(u32);

#[derive(Debug)]
struct Struct {
    x: u32,
}

fn debug_ignore() -> Annotation {
    Annotation {
        name: AttrName::Debug,
        tokens: vec![AttrToken {
            kind: TokenKind::Word,
            text: "ignore".to_string(),
            span: Span { start: 0, end: 0 },
        }],
        span: Span { start: 0, end: 0 },
    }
}

fn struct_def(name: &str, shape: FieldsShape) -> TypeDef {
    TypeDef {
        name: name.to_string(),
        generics: Generics { params: Vec::new(), where_clause: None },
        attrs: Vec::new(),
        shape: TypeShape::Struct(shape),
    }
}

fn printable(text: &str) -> MemberValue {
    MemberValue {
        debug: Some(text.to_string()),
        display: Some(text.to_string()),
        substituted: String::new(),
    }
}

fn fields_value(members: Vec<MemberValue>) -> Value {
    Value { substituted: String::new(), body: ValueBody::Fields(members) }
}

#[test]
fn not_unit_test() {
    let def = struct_def(
        "Unit",
        FieldsShape::Ordered(vec![FieldSpec {
            name: None,
            ty: "u32".to_string(),
            attrs: vec![debug_ignore()],
        }]),
    );
    let val = fields_value(vec![printable("0")]);
    assert_eq!(format!("{:?}", Unit), render(&def, &val, Contract::Debug).unwrap());

    let def = struct_def(
        "Unit",
        FieldsShape::Named(vec![FieldSpec {
            name: Some("x".to_string()),
            ty: "u32".to_string(),
            attrs: vec![debug_ignore()],
        }]),
    );
    let val = fields_value(vec![printable("0")]);
    assert_eq!(format!("{:?}", Unit), render(&def, &val, Contract::Debug).unwrap());
}

#[test]
fn ignored_field_tuple_struct_test() {
    let def = struct_def(
        "Tuple",
        FieldsShape::Ordered(vec![
            FieldSpec { name: None, ty: "u32".to_string(), attrs: Vec::new() },
            FieldSpec { name: None, ty: "u32".to_string(), attrs: vec![debug_ignore()] },
        ]),
    );
    let val = fields_value(vec![printable("0"), printable("1")]);
    assert_eq!(format!("{:?}", Tuple(0)), render(&def, &val, Contract::Debug).unwrap());
}

#[test]
fn ignored_field_struct_test() {
    let def = struct_def(
        "Struct",
        FieldsShape::Named(vec![
            FieldSpec { name: Some("x".to_string()), ty: "u32".to_string(), attrs: Vec::new() },
            FieldSpec {
                name: Some("y".to_string()),
                ty: "u32".to_string(),
                attrs: vec![debug_ignore()],
            },
        ]),
    );
    let val = fields_value(vec![printable("0"), printable("1")]);
    assert_eq!(
        format!("{:?}", Struct { x: 0 }),
        render(&def, &val, Contract::Debug).unwrap()
    );
}
