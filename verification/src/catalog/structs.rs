//! Concrete struct shapes: one per member layout, each with and without a
//! member whose type offers no formatting capability.

use vstd::prelude::*;

use crate::catalog::{
    bare_member, plain_def, plain_member, positional_field, named_field, spec_bare_member,
    spec_plain_member,
};
use crate::push_deep;
use crate::rt::MemberValue;
use crate::shape::{
    FieldSpec, FieldsShape, SpecFieldsShape, SpecTypeShape, SpecValueBody, TypeDef, TypeShape,
    Value, ValueBody,
};
use crate::text::{decimal_string, spec_decimal};

verus! {

/// A marker type that offers neither the debug nor the display capability.
pub struct Unprintable;

impl Unprintable {
    /// How a member of this type looks to the engine: no capability either
    /// way.
    pub fn member(&self) -> (r: MemberValue)
        ensures
            r.deep_view() == spec_bare_member(),
    {
        bare_member()
    }
}

/// A unit struct.
pub struct Unit;

impl Unit {
    /// The model of this declaration.
    pub fn definition() -> (r: TypeDef)
        ensures
            r.deep_view().name == "Unit"@,
            r.deep_view().attrs.len() == 0,
            r.deep_view().generics.params.len() == 0,
            r.deep_view().shape == SpecTypeShape::Struct(SpecFieldsShape::Unit),
    {
        plain_def("Unit", TypeShape::Struct(FieldsShape::Unit))
    }

    /// How a value of this type looks to the engine.
    pub fn value(&self) -> (r: Value)
        ensures
            r.deep_view().body == SpecValueBody::Fields(
                Seq::<crate::rt::SpecMemberValue>::empty(),
            ),
    {
        let ms: Vec<MemberValue> = Vec::new();
        proof {
            assert(ms.deep_view() =~= Seq::<crate::rt::SpecMemberValue>::empty());
        }
        Value { substituted: String::new(), body: ValueBody::Fields(ms) }
    }
}

/// A tuple struct of one printable member.
pub struct Tuple(pub u32);

impl Tuple {
    /// The model of this declaration.
    pub fn definition() -> (r: TypeDef)
        ensures
            r.deep_view().name == "Tuple"@,
            r.deep_view().attrs.len() == 0,
            r.deep_view().generics.params.len() == 0,
            ({
                let s = r.deep_view().shape;
                s matches SpecTypeShape::Struct(SpecFieldsShape::Ordered(fs)) && fs.len() == 1
                    && fs[0].ty == "u32"@ && fs[0].name is None && fs[0].attrs.len() == 0
            }),
    {
        let mut fs: Vec<FieldSpec> = Vec::new();
        proof {
            assert(fs.deep_view() =~= Seq::<crate::shape::SpecFieldSpec>::empty());
        }
        push_deep(&mut fs, positional_field("u32"));
        plain_def("Tuple", TypeShape::Struct(FieldsShape::Ordered(fs)))
    }

    /// How a value of this type looks to the engine: the member renders in
    /// decimal under both capabilities.
    pub fn value(&self) -> (r: Value)
        ensures
            r.deep_view().body == SpecValueBody::Fields(
                seq![spec_plain_member(spec_decimal(self.0 as nat))],
            ),
    {
        let mut ms: Vec<MemberValue> = Vec::new();
        proof {
            assert(ms.deep_view() =~= Seq::<crate::rt::SpecMemberValue>::empty());
        }
        push_deep(&mut ms, plain_member(decimal_string(self.0 as usize)));
        proof {
            assert(ms.deep_view() =~= seq![spec_plain_member(spec_decimal(self.0 as nat))]);
        }
        Value { substituted: String::new(), body: ValueBody::Fields(ms) }
    }
}

/// A struct of one printable named member.
pub struct Struct {
    pub x: u32,
}

impl Struct {
    /// The model of this declaration.
    pub fn definition() -> (r: TypeDef)
        ensures
            r.deep_view().name == "Struct"@,
            r.deep_view().attrs.len() == 0,
            r.deep_view().generics.params.len() == 0,
            ({
                let s = r.deep_view().shape;
                s matches SpecTypeShape::Struct(SpecFieldsShape::Named(fs)) && fs.len() == 1
                    && fs[0].ty == "u32"@ && fs[0].name == Some("x"@) && fs[0].attrs.len() == 0
            }),
    {
        let mut fs: Vec<FieldSpec> = Vec::new();
        proof {
            assert(fs.deep_view() =~= Seq::<crate::shape::SpecFieldSpec>::empty());
        }
        push_deep(&mut fs, named_field("x", "u32"));
        plain_def("Struct", TypeShape::Struct(FieldsShape::Named(fs)))
    }

    /// How a value of this type looks to the engine.
    pub fn value(&self) -> (r: Value)
        ensures
            r.deep_view().body == SpecValueBody::Fields(
                seq![spec_plain_member(spec_decimal(self.x as nat))],
            ),
    {
        let mut ms: Vec<MemberValue> = Vec::new();
        proof {
            assert(ms.deep_view() =~= Seq::<crate::rt::SpecMemberValue>::empty());
        }
        push_deep(&mut ms, plain_member(decimal_string(self.x as usize)));
        proof {
            assert(ms.deep_view() =~= seq![spec_plain_member(spec_decimal(self.x as nat))]);
        }
        Value { substituted: String::new(), body: ValueBody::Fields(ms) }
    }
}

/// A tuple struct whose member's type offers no formatting capability.
pub struct TupleUnprintable(pub Unprintable);

impl TupleUnprintable {
    /// The model of this declaration.
    pub fn definition() -> (r: TypeDef)
        ensures
            r.deep_view().name == "TupleUnprintable"@,
            r.deep_view().attrs.len() == 0,
            r.deep_view().generics.params.len() == 0,
            ({
                let s = r.deep_view().shape;
                s matches SpecTypeShape::Struct(SpecFieldsShape::Ordered(fs)) && fs.len() == 1
                    && fs[0].ty == "Unprintable"@ && fs[0].name is None && fs[0].attrs.len() == 0
            }),
    {
        let mut fs: Vec<FieldSpec> = Vec::new();
        proof {
            assert(fs.deep_view() =~= Seq::<crate::shape::SpecFieldSpec>::empty());
        }
        push_deep(&mut fs, positional_field("Unprintable"));
        plain_def("TupleUnprintable", TypeShape::Struct(FieldsShape::Ordered(fs)))
    }

    /// How a value of this type looks to the engine.
    pub fn value(&self) -> (r: Value)
        ensures
            r.deep_view().body == SpecValueBody::Fields(seq![spec_bare_member()]),
    {
        let mut ms: Vec<MemberValue> = Vec::new();
        proof {
            assert(ms.deep_view() =~= Seq::<crate::rt::SpecMemberValue>::empty());
        }
        push_deep(&mut ms, self.0.member());
        proof {
            assert(ms.deep_view() =~= seq![spec_bare_member()]);
        }
        Value { substituted: String::new(), body: ValueBody::Fields(ms) }
    }
}

/// A struct whose named member's type offers no formatting capability.
pub struct StructUnprintable {
    pub x: Unprintable,
}

impl StructUnprintable {
    /// The model of this declaration.
    pub fn definition() -> (r: TypeDef)
        ensures
            r.deep_view().name == "StructUnprintable"@,
            r.deep_view().attrs.len() == 0,
            r.deep_view().generics.params.len() == 0,
            ({
                let s = r.deep_view().shape;
                s matches SpecTypeShape::Struct(SpecFieldsShape::Named(fs)) && fs.len() == 1
                    && fs[0].ty == "Unprintable"@ && fs[0].name == Some("x"@) && fs[0].attrs.len()
                    == 0
            }),
    {
        let mut fs: Vec<FieldSpec> = Vec::new();
        proof {
            assert(fs.deep_view() =~= Seq::<crate::shape::SpecFieldSpec>::empty());
        }
        push_deep(&mut fs, named_field("x", "Unprintable"));
        plain_def("StructUnprintable", TypeShape::Struct(FieldsShape::Named(fs)))
    }

    /// How a value of this type looks to the engine.
    pub fn value(&self) -> (r: Value)
        ensures
            r.deep_view().body == SpecValueBody::Fields(seq![spec_bare_member()]),
    {
        let mut ms: Vec<MemberValue> = Vec::new();
        proof {
            assert(ms.deep_view() =~= Seq::<crate::rt::SpecMemberValue>::empty());
        }
        push_deep(&mut ms, self.x.member());
        proof {
            assert(ms.deep_view() =~= seq![spec_bare_member()]);
        }
        Value { substituted: String::new(), body: ValueBody::Fields(ms) }
    }
}

} // verus!
