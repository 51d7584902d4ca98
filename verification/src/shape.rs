//! The structural model of a type definition, and of a runtime value of
//! such a type as the synthesized implementation sees one.

use vstd::prelude::*;

use crate::rt::{MemberValue, SpecMemberValue};
use crate::syntax::{Annotation, SpecAnnotation};
use crate::generics::{Generics, SpecGenerics};

verus! {

/// One member of a struct shape or of a variant: its name (absent for a
/// positional member), its declared type's textual form, and its
/// customization annotations.
pub struct FieldSpec {
    pub name: Option<String>,
    pub ty: String,
    pub attrs: Vec<Annotation>,
}

/// The mathematical model of a member declaration.
pub struct SpecFieldSpec {
    pub name: Option<Seq<char>>,
    pub ty: Seq<char>,
    pub attrs: Seq<SpecAnnotation>,
}

impl DeepView for FieldSpec {
    type V = SpecFieldSpec;

    open spec fn deep_view(&self) -> SpecFieldSpec {
        SpecFieldSpec {
            name: self.name.deep_view(),
            ty: self.ty.deep_view(),
            attrs: self.attrs.deep_view(),
        }
    }
}

/// The member layout of a struct or of one enum variant: no members at all,
/// ordered (positional) members, or named members.
pub enum FieldsShape {
    Unit,
    Ordered(Vec<FieldSpec>),
    Named(Vec<FieldSpec>),
}

/// The mathematical model of a member layout.
pub enum SpecFieldsShape {
    Unit,
    Ordered(Seq<SpecFieldSpec>),
    Named(Seq<SpecFieldSpec>),
}

impl DeepView for FieldsShape {
    type V = SpecFieldsShape;

    open spec fn deep_view(&self) -> SpecFieldsShape {
        match self {
            FieldsShape::Unit => SpecFieldsShape::Unit,
            FieldsShape::Ordered(fs) => SpecFieldsShape::Ordered(fs.deep_view()),
            FieldsShape::Named(fs) => SpecFieldsShape::Named(fs.deep_view()),
        }
    }
}

impl SpecFieldsShape {
    /// The member declarations of this layout, in declaration order.
    pub open spec fn fields(self) -> Seq<SpecFieldSpec> {
        match self {
            SpecFieldsShape::Unit => Seq::empty(),
            SpecFieldsShape::Ordered(fs) => fs,
            SpecFieldsShape::Named(fs) => fs,
        }
    }
}

/// One enum variant: its name, its member layout, and its customization
/// annotations.
pub struct VariantSpec {
    pub name: String,
    pub fields: FieldsShape,
    pub attrs: Vec<Annotation>,
}

/// The mathematical model of a variant declaration.
pub struct SpecVariantSpec {
    pub name: Seq<char>,
    pub fields: SpecFieldsShape,
    pub attrs: Seq<SpecAnnotation>,
}

impl DeepView for VariantSpec {
    type V = SpecVariantSpec;

    open spec fn deep_view(&self) -> SpecVariantSpec {
        SpecVariantSpec {
            name: self.name.deep_view(),
            fields: self.fields.deep_view(),
            attrs: self.attrs.deep_view(),
        }
    }
}

/// The five structural kinds a type definition can have: a struct shape
/// (unit, ordered members or named members), an enumeration of variants, or
/// an untagged union. An enum with zero variants is legal and distinct: no
/// value of it can ever exist.
pub enum TypeShape {
    Struct(FieldsShape),
    Enum(Vec<VariantSpec>),
    UntaggedUnion,
}

/// The mathematical model of a type's structural kind.
pub enum SpecTypeShape {
    Struct(SpecFieldsShape),
    Enum(Seq<SpecVariantSpec>),
    UntaggedUnion,
}

impl DeepView for TypeShape {
    type V = SpecTypeShape;

    open spec fn deep_view(&self) -> SpecTypeShape {
        match self {
            TypeShape::Struct(fs) => SpecTypeShape::Struct(fs.deep_view()),
            TypeShape::Enum(vs) => SpecTypeShape::Enum(vs.deep_view()),
            TypeShape::UntaggedUnion => SpecTypeShape::UntaggedUnion,
        }
    }
}

/// A whole type definition: its name, declared generics, type-scope
/// annotations, and structural shape. All of it is transient input to one
/// generation pass.
pub struct TypeDef {
    pub name: String,
    pub generics: Generics,
    pub attrs: Vec<Annotation>,
    pub shape: TypeShape,
}

/// The mathematical model of a type definition.
pub struct SpecTypeDef {
    pub name: Seq<char>,
    pub generics: SpecGenerics,
    pub attrs: Seq<SpecAnnotation>,
    pub shape: SpecTypeShape,
}

impl DeepView for TypeDef {
    type V = SpecTypeDef;

    open spec fn deep_view(&self) -> SpecTypeDef {
        SpecTypeDef {
            name: self.name.deep_view(),
            generics: self.generics.deep_view(),
            attrs: self.attrs.deep_view(),
            shape: self.shape.deep_view(),
        }
    }
}

/// The body of a runtime value: the members of a struct-shaped value, the
/// active variant of an enum value, or nothing for a union (whose members
/// are never inspected).
pub enum ValueBody {
    Fields(Vec<MemberValue>),
    Variant {
        /// Which variant, by declaration position, the value inhabits.
        index: usize,
        /// The evaluated text of the variant's template; read only where
        /// the configuration sets one.
        substituted: String,
        members: Vec<MemberValue>,
    },
    Opaque,
}

/// The mathematical model of a value body.
pub enum SpecValueBody {
    Fields(Seq<SpecMemberValue>),
    Variant { index: int, substituted: Seq<char>, members: Seq<SpecMemberValue> },
    Opaque,
}

impl DeepView for ValueBody {
    type V = SpecValueBody;

    open spec fn deep_view(&self) -> SpecValueBody {
        match self {
            ValueBody::Fields(ms) => SpecValueBody::Fields(ms.deep_view()),
            ValueBody::Variant { index, substituted, members } => SpecValueBody::Variant {
                index: *index as int,
                substituted: substituted.deep_view(),
                members: members.deep_view(),
            },
            ValueBody::Opaque => SpecValueBody::Opaque,
        }
    }
}

/// A runtime value of the type being formatted, as the synthesized
/// implementation sees it: each member reduced to its capability renderings,
/// plus the host's evaluation of any configured template.
pub struct Value {
    /// The evaluated text of a type-scope template; read only where the
    /// configuration sets one.
    pub substituted: String,
    pub body: ValueBody,
}

/// The mathematical model of a runtime value.
pub struct SpecValue {
    pub substituted: Seq<char>,
    pub body: SpecValueBody,
}

impl DeepView for Value {
    type V = SpecValue;

    open spec fn deep_view(&self) -> SpecValue {
        SpecValue { substituted: self.substituted.deep_view(), body: self.body.deep_view() }
    }
}

/// Whether a value body provides members aligned with a member layout.
pub open spec fn members_match(fs: SpecFieldsShape, ms: Seq<SpecMemberValue>) -> bool {
    ms.len() == fs.fields().len()
}

/// Whether a value is structurally a value of the given type definition:
/// struct-shaped values carry one member value per declared member, enum
/// values inhabit a declared variant and carry its members, union values
/// carry nothing. No value of a zero-variant enum exists.
pub open spec fn value_matches(d: SpecTypeDef, v: SpecValue) -> bool {
    match d.shape {
        SpecTypeShape::Struct(fs) => v.body matches SpecValueBody::Fields(ms) && members_match(
            fs,
            ms,
        ),
        SpecTypeShape::Enum(vs) => v.body matches SpecValueBody::Variant { index, members, .. }
            && 0 <= index < vs.len() && members_match(vs[index].fields, members),
        SpecTypeShape::UntaggedUnion => v.body is Opaque,
    }
}

} // verus!
