//! Enum shapes with no customization: each variant kind matches the
//! built-in derivation, and an incapable member renders as its placeholder.

use fmt_derive::Contract;
use fmt_derive::render::render;

#[derive(Debug)]
enum Unit {
    Variant,
}

#[derive(Debug)]
enum Tuple {
    Variant(u32),
}

#[derive(Debug)]
enum Struct {
    Variant { x: u32 },
}

#[test]
fn basic_enum_unit_struct_test() {
    let def = fmt_derive::catalog::enums::Unit::definition();
    let val = fmt_derive::catalog::enums::Unit::Variant.value();
    assert_eq!(
        format!("{:?}", Unit::Variant),
        render(&def, &val, Contract::Debug).unwrap()
    );
}

#[test]
fn basic_enum_tuple_struct_test() {
    let def = fmt_derive::catalog::enums::Tuple::definition();
    let val = fmt_derive::catalog::enums::Tuple::Variant(0).value();
    assert_eq!(
        format!("{:?}", Tuple::Variant(0)),
        render(&def, &val, Contract::Debug).unwrap()
    );

    let def = fmt_derive::catalog::enums::TupleUnprintable::definition();
    let val = fmt_derive::catalog::enums::TupleUnprintable::Variant(
        fmt_derive::catalog::structs::Unprintable,
    ).value();
    assert_eq!(render(&def, &val, Contract::Debug).unwrap(), "Variant(<Unprintable>)");
}

#[test]
fn basic_enum_struct_test() {
    let def = fmt_derive::catalog::enums::Struct::definition();
    let val = fmt_derive::catalog::enums::Struct::Variant { x: 0 }.value();
    assert_eq!(
        format!("{:?}", Struct::Variant { x: 0 }),
        render(&def, &val, Contract::Debug).unwrap()
    );

    let def = fmt_derive::catalog::enums::StructUnprintable::definition();
    let val = fmt_derive::catalog::enums::StructUnprintable::Variant {
        x: fmt_derive::catalog::structs::Unprintable,
    }.value();
    assert_eq!(
        render(&def, &val, Contract::Debug).unwrap(),
        "Variant { x: <Unprintable> }"
    );
}
