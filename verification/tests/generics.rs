//! Generic types: the projector's forms feed the header while rendering is
//! unaffected by parameters, and an unbounded member type lacks the debug
//! capability.

use fmt_derive::Contract;
use fmt_derive::generics::{GenericParam, Generics};
use fmt_derive::render::render;
use fmt_derive::rt::MemberValue;
use fmt_derive::shape::{FieldSpec, FieldsShape, TypeDef, TypeShape, Value, ValueBody};

#[derive(Debug)]
struct Unit(&'static str);

fn unit_def(params: Vec<GenericParam>, ty: &str) -> TypeDef {
    TypeDef {
        name: "Unit".to_string(),
        generics: Generics { params, where_clause: None },
        attrs: Vec::new(),
        shape: TypeShape::Struct(FieldsShape::Ordered(vec![FieldSpec {
            name: None,
            ty: ty.to_string(),
            attrs: Vec::new(),
        }])),
    }
}

fn member_value(m: MemberValue) -> Value {
    Value { substituted: String::new(), body: ValueBody::Fields(vec![m]) }
}

#[test]
fn test_a() {
    let def = unit_def(
        vec![GenericParam::Lifetime { name: "'a".to_string(), bounds: None }],
        "&'a str",
    );
    let val = member_value(MemberValue {
        debug: Some(format!("{:?}", "a")),
        display: Some("a".to_string()),
        substituted: String::new(),
    });
    assert_eq!(format!("{:?}", Unit("a")), render(&def, &val, Contract::Debug).unwrap());
}

#[test]
fn test_b() {
    let def = unit_def(
        vec![
            GenericParam::Lifetime { name: "'a".to_string(), bounds: None },
            GenericParam::Type { name: "T".to_string(), bounds: None, default: None },
        ],
        "& 'a T",
    );
    let val = member_value(MemberValue {
        debug: None,
        display: None,
        substituted: String::new(),
    });
    assert_ne!(format!("{:?}", Unit("a")), render(&def, &val, Contract::Debug).unwrap());
    assert_eq!(render(&def, &val, Contract::Debug).unwrap(), "Unit(<& 'a T>)");
}

#[test]
fn test_c() {
    let def = unit_def(
        vec![
            GenericParam::Lifetime { name: "'a".to_string(), bounds: None },
            GenericParam::Type {
                name: "T".to_string(),
                bounds: Some("Debug + ?Sized".to_string()),
                default: None,
            },
        ],
        "& 'a T",
    );
    let val = member_value(MemberValue {
        debug: Some(format!("{:?}", "a")),
        display: Some("a".to_string()),
        substituted: String::new(),
    });
    assert_eq!(format!("{:?}", Unit("a")), render(&def, &val, Contract::Debug).unwrap());
}
