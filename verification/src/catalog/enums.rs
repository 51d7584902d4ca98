//! Concrete enum shapes: one variant per member layout, each with and
//! without a member whose type offers no formatting capability.

use vstd::prelude::*;

use crate::catalog::structs::Unprintable;
use crate::catalog::{
    bare_member, no_annotations, plain_def, plain_member, positional_field, named_field,
    spec_bare_member, spec_plain_member,
};
use crate::push_deep;
use crate::rt::MemberValue;
use crate::shape::{
    FieldSpec, FieldsShape, SpecFieldsShape, SpecTypeShape, SpecValueBody, SpecVariantSpec,
    TypeDef, TypeShape, Value, ValueBody, VariantSpec,
};
use crate::text::{decimal_string, spec_decimal};

verus! {

/// Builds a one-variant enum definition around the given member layout.
fn one_variant_def(name: &str, fields: FieldsShape) -> (r: TypeDef)
    ensures
        r.deep_view().name == name@,
        r.deep_view().attrs.len() == 0,
        r.deep_view().generics.params.len() == 0,
        ({
            let s = r.deep_view().shape;
            s matches SpecTypeShape::Enum(vs) && vs.len() == 1 && vs[0].name == "Variant"@
                && vs[0].attrs.len() == 0 && vs[0].fields == fields.deep_view()
        }),
{
    let mut vs: Vec<VariantSpec> = Vec::new();
    proof {
        assert(vs.deep_view() =~= Seq::<SpecVariantSpec>::empty());
    }
    push_deep(
        &mut vs,
        VariantSpec { name: String::from_str("Variant"), fields, attrs: no_annotations() },
    );
    plain_def(name, TypeShape::Enum(vs))
}

/// Builds the value of a one-variant enum around the given members.
fn one_variant_value(ms: Vec<MemberValue>) -> (r: Value)
    ensures
        r.deep_view().body == (SpecValueBody::Variant {
            index: 0,
            substituted: Seq::empty(),
            members: ms.deep_view(),
        }),
{
    Value {
        substituted: String::new(),
        body: ValueBody::Variant { index: 0, substituted: String::new(), members: ms },
    }
}

/// An enum with one unit variant.
pub enum Unit {
    Variant,
}

impl Unit {
    /// The model of this declaration.
    pub fn definition() -> (r: TypeDef)
        ensures
            r.deep_view().name == "Unit"@,
            r.deep_view().attrs.len() == 0,
            r.deep_view().generics.params.len() == 0,
            ({
                let s = r.deep_view().shape;
                s matches SpecTypeShape::Enum(vs) && vs.len() == 1 && vs[0].name == "Variant"@
                    && vs[0].attrs.len() == 0 && vs[0].fields is Unit
            }),
    {
        one_variant_def("Unit", FieldsShape::Unit)
    }

    /// How a value of this type looks to the engine.
    pub fn value(&self) -> (r: Value)
        ensures
            r.deep_view().body == (SpecValueBody::Variant {
                index: 0,
                substituted: Seq::empty(),
                members: Seq::<crate::rt::SpecMemberValue>::empty(),
            }),
    {
        let ms: Vec<MemberValue> = Vec::new();
        proof {
            assert(ms.deep_view() =~= Seq::<crate::rt::SpecMemberValue>::empty());
        }
        one_variant_value(ms)
    }
}

/// An enum with one tuple variant of a printable member.
pub enum Tuple {
    Variant(u32),
}

impl Tuple {
    /// The model of this declaration.
    pub fn definition() -> (r: TypeDef)
        ensures
            r.deep_view().name == "Tuple"@,
            r.deep_view().attrs.len() == 0,
            r.deep_view().generics.params.len() == 0,
            ({
                let s = r.deep_view().shape;
                s matches SpecTypeShape::Enum(vs) && vs.len() == 1 && vs[0].name == "Variant"@
                    && vs[0].attrs.len() == 0 && (vs[0].fields matches SpecFieldsShape::Ordered(fs)
                    && fs.len() == 1 && fs[0].ty == "u32"@ && fs[0].name is None
                    && fs[0].attrs.len() == 0)
            }),
    {
        let mut fs: Vec<FieldSpec> = Vec::new();
        proof {
            assert(fs.deep_view() =~= Seq::<crate::shape::SpecFieldSpec>::empty());
        }
        push_deep(&mut fs, positional_field("u32"));
        one_variant_def("Tuple", FieldsShape::Ordered(fs))
    }

    /// How a value of this type looks to the engine.
    pub fn value(&self) -> (r: Value)
        ensures
            self matches Tuple::Variant(x) ==> r.deep_view().body == (SpecValueBody::Variant {
                index: 0,
                substituted: Seq::empty(),
                members: seq![spec_plain_member(spec_decimal(x as nat))],
            }),
    {
        match self {
            Tuple::Variant(x) => {
                let mut ms: Vec<MemberValue> = Vec::new();
                proof {
                    assert(ms.deep_view() =~= Seq::<crate::rt::SpecMemberValue>::empty());
                }
                push_deep(&mut ms, plain_member(decimal_string(*x as usize)));
                proof {
                    assert(ms.deep_view() =~= seq![spec_plain_member(spec_decimal(*x as nat))]);
                }
                one_variant_value(ms)
            },
        }
    }
}

/// An enum with one struct variant of a printable named member.
pub enum Struct {
    Variant { x: u32 },
}

impl Struct {
    /// The model of this declaration.
    pub fn definition() -> (r: TypeDef)
        ensures
            r.deep_view().name == "Struct"@,
            r.deep_view().attrs.len() == 0,
            r.deep_view().generics.params.len() == 0,
            ({
                let s = r.deep_view().shape;
                s matches SpecTypeShape::Enum(vs) && vs.len() == 1 && vs[0].name == "Variant"@
                    && vs[0].attrs.len() == 0 && (vs[0].fields matches SpecFieldsShape::Named(fs)
                    && fs.len() == 1 && fs[0].ty == "u32"@ && fs[0].name == Some("x"@)
                    && fs[0].attrs.len() == 0)
            }),
    {
        let mut fs: Vec<FieldSpec> = Vec::new();
        proof {
            assert(fs.deep_view() =~= Seq::<crate::shape::SpecFieldSpec>::empty());
        }
        push_deep(&mut fs, named_field("x", "u32"));
        one_variant_def("Struct", FieldsShape::Named(fs))
    }

    /// How a value of this type looks to the engine.
    pub fn value(&self) -> (r: Value)
        ensures
            self matches Struct::Variant { x } ==> r.deep_view().body == (SpecValueBody::Variant {
                index: 0,
                substituted: Seq::empty(),
                members: seq![spec_plain_member(spec_decimal(x as nat))],
            }),
    {
        match self {
            Struct::Variant { x } => {
                let mut ms: Vec<MemberValue> = Vec::new();
                proof {
                    assert(ms.deep_view() =~= Seq::<crate::rt::SpecMemberValue>::empty());
                }
                push_deep(&mut ms, plain_member(decimal_string(*x as usize)));
                proof {
                    assert(ms.deep_view() =~= seq![spec_plain_member(spec_decimal(*x as nat))]);
                }
                one_variant_value(ms)
            },
        }
    }
}

/// An enum with one tuple variant whose member's type offers no formatting
/// capability.
pub enum TupleUnprintable {
    Variant(Unprintable),
}

impl TupleUnprintable {
    /// The model of this declaration.
    pub fn definition() -> (r: TypeDef)
        ensures
            r.deep_view().name == "TupleUnprintable"@,
            r.deep_view().attrs.len() == 0,
            r.deep_view().generics.params.len() == 0,
            ({
                let s = r.deep_view().shape;
                s matches SpecTypeShape::Enum(vs) && vs.len() == 1 && vs[0].name == "Variant"@
                    && vs[0].attrs.len() == 0 && (vs[0].fields matches SpecFieldsShape::Ordered(fs)
                    && fs.len() == 1 && fs[0].ty == "Unprintable"@ && fs[0].name is None
                    && fs[0].attrs.len() == 0)
            }),
    {
        let mut fs: Vec<FieldSpec> = Vec::new();
        proof {
            assert(fs.deep_view() =~= Seq::<crate::shape::SpecFieldSpec>::empty());
        }
        push_deep(&mut fs, positional_field("Unprintable"));
        one_variant_def("TupleUnprintable", FieldsShape::Ordered(fs))
    }

    /// How a value of this type looks to the engine.
    pub fn value(&self) -> (r: Value)
        ensures
            r.deep_view().body == (SpecValueBody::Variant {
                index: 0,
                substituted: Seq::empty(),
                members: seq![spec_bare_member()],
            }),
    {
        let mut ms: Vec<MemberValue> = Vec::new();
        proof {
            assert(ms.deep_view() =~= Seq::<crate::rt::SpecMemberValue>::empty());
        }
        push_deep(&mut ms, bare_member());
        proof {
            assert(ms.deep_view() =~= seq![spec_bare_member()]);
        }
        one_variant_value(ms)
    }
}

/// An enum with one struct variant whose named member's type offers no
/// formatting capability.
pub enum StructUnprintable {
    Variant { x: Unprintable },
}

impl StructUnprintable {
    /// The model of this declaration.
    pub fn definition() -> (r: TypeDef)
        ensures
            r.deep_view().name == "StructUnprintable"@,
            r.deep_view().attrs.len() == 0,
            r.deep_view().generics.params.len() == 0,
            ({
                let s = r.deep_view().shape;
                s matches SpecTypeShape::Enum(vs) && vs.len() == 1 && vs[0].name == "Variant"@
                    && vs[0].attrs.len() == 0 && (vs[0].fields matches SpecFieldsShape::Named(fs)
                    && fs.len() == 1 && fs[0].ty == "Unprintable"@ && fs[0].name == Some("x"@)
                    && fs[0].attrs.len() == 0)
            }),
    {
        let mut fs: Vec<FieldSpec> = Vec::new();
        proof {
            assert(fs.deep_view() =~= Seq::<crate::shape::SpecFieldSpec>::empty());
        }
        push_deep(&mut fs, named_field("x", "Unprintable"));
        one_variant_def("StructUnprintable", FieldsShape::Named(fs))
    }

    /// How a value of this type looks to the engine.
    pub fn value(&self) -> (r: Value)
        ensures
            r.deep_view().body == (SpecValueBody::Variant {
                index: 0,
                substituted: Seq::empty(),
                members: seq![spec_bare_member()],
            }),
    {
        let mut ms: Vec<MemberValue> = Vec::new();
        proof {
            assert(ms.deep_view() =~= Seq::<crate::rt::SpecMemberValue>::empty());
        }
        push_deep(&mut ms, bare_member());
        proof {
            assert(ms.deep_view() =~= seq![spec_bare_member()]);
        }
        one_variant_value(ms)
    }
}

} // verus!
