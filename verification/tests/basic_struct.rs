//! Struct shapes with no customization: default rendering matches the
//! built-in derivation, and an incapable member renders as its placeholder.

use fmt_derive::Contract;
use fmt_derive::render::render;

#[derive(Debug)]
struct Unit;

#[derive(Debug)]
struct Tuple(u32);

#[derive(Debug)]
struct Struct {
    x: u32,
}

#[test]
fn basic_struct_unit_struct_test() {
    let def = fmt_derive::catalog::structs::Unit::definition();
    let val = fmt_derive::catalog::structs::Unit.value();
    assert_eq!(format!("{:?}", Unit), render(&def, &val, Contract::Debug).unwrap());
}

#[test]
fn basic_struct_tuple_struct_test() {
    let def = fmt_derive::catalog::structs::Tuple::definition();
    let val = fmt_derive::catalog::structs::Tuple(0).value();
    assert_eq!(format!("{:?}", Tuple(0)), render(&def, &val, Contract::Debug).unwrap());

    let def = fmt_derive::catalog::structs::TupleUnprintable::definition();
    let val = fmt_derive::catalog::structs::TupleUnprintable(
        fmt_derive::catalog::structs::Unprintable,
    ).value();
    assert_eq!(
        render(&def, &val, Contract::Debug).unwrap(),
        "TupleUnprintable(<Unprintable>)"
    );
}

#[test]
fn basic_struct_struct_test() {
    let def = fmt_derive::catalog::structs::Struct::definition();
    let val = fmt_derive::catalog::structs::Struct { x: 0 }.value();
    assert_eq!(
        format!("{:?}", Struct { x: 0 }),
        render(&def, &val, Contract::Debug).unwrap()
    );

    let def = fmt_derive::catalog::structs::StructUnprintable::definition();
    let val = fmt_derive::catalog::structs::StructUnprintable {
        x: fmt_derive::catalog::structs::Unprintable,
    }.value();
    assert_eq!(
        render(&def, &val, Contract::Debug).unwrap(),
        "StructUnprintable { x: <Unprintable> }"
    );
}
