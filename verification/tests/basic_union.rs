//! Untagged unions render as the opaque placeholder of their name, under
//! both contracts, without any configuration.

use fmt_derive::Contract;
use fmt_derive::generics::Generics;
use fmt_derive::render::render;
use fmt_derive::shape::{TypeDef, TypeShape, Value, ValueBody};

fn union_def(name: &str) -> TypeDef {
    TypeDef {
        name: name.to_string(),
        generics: Generics { params: Vec::new(), where_clause: None },
        attrs: Vec::new(),
        shape: TypeShape::UntaggedUnion,
    }
}

fn union_value() -> Value {
    Value { substituted: String::new(), body: ValueBody::Opaque }
}

#[test]
fn union_test() {
    let def = union_def("UnionDebug");
    assert_eq!(render(&def, &union_value(), Contract::Debug).unwrap(), "<UnionDebug>");
    let def = union_def("UnionDisplay");
    assert_eq!(
        render(&def, &union_value(), Contract::Display).unwrap(),
        "<UnionDisplay>"
    );
}
