//! A catalogue of concrete shapes, one per structural kind the engine
//! handles, together with builders for their model definitions and values.
//! The test suite renders these and holds the output against the
//! denotational specification on concrete strings.

use vstd::prelude::*;

pub mod enums;
pub mod structs;

use crate::generics::Generics;
use crate::rt::{MemberValue, SpecMemberValue};
use crate::shape::{FieldSpec, TypeDef, TypeShape};
use crate::syntax::Annotation;

verus! {

/// The model of a member value whose type offers both capabilities, with
/// the same rendering under each.
pub open spec fn spec_plain_member(text: Seq<char>) -> SpecMemberValue {
    SpecMemberValue { debug: Some(text), display: Some(text), substituted: Seq::empty() }
}

/// The model of a member value whose type offers neither capability.
pub open spec fn spec_bare_member() -> SpecMemberValue {
    SpecMemberValue { debug: None, display: None, substituted: Seq::empty() }
}

/// An empty annotation list.
pub fn no_annotations() -> (r: Vec<Annotation>)
    ensures
        r.deep_view() == Seq::<crate::syntax::SpecAnnotation>::empty(),
{
    let r: Vec<Annotation> = Vec::new();
    proof {
        assert(r.deep_view() =~= Seq::<crate::syntax::SpecAnnotation>::empty());
    }
    r
}

/// A declaration without generic parameters or where clause.
pub fn empty_generics() -> (r: Generics)
    ensures
        r.deep_view().params == Seq::<crate::generics::SpecGenericParam>::empty(),
        r.deep_view().where_clause is None,
{
    let r = Generics { params: Vec::new(), where_clause: None };
    proof {
        assert(r.deep_view().params =~= Seq::<crate::generics::SpecGenericParam>::empty());
    }
    r
}

/// A positional member declaration of the given type, with no annotations.
pub fn positional_field(ty: &str) -> (r: FieldSpec)
    ensures
        r.deep_view().name is None,
        r.deep_view().ty == ty@,
        r.deep_view().attrs == Seq::<crate::syntax::SpecAnnotation>::empty(),
{
    FieldSpec { name: None, ty: String::from_str(ty), attrs: no_annotations() }
}

/// A named member declaration of the given type, with no annotations.
pub fn named_field(name: &str, ty: &str) -> (r: FieldSpec)
    ensures
        r.deep_view().name == Some(name@),
        r.deep_view().ty == ty@,
        r.deep_view().attrs == Seq::<crate::syntax::SpecAnnotation>::empty(),
{
    FieldSpec { name: Some(String::from_str(name)), ty: String::from_str(ty), attrs: no_annotations() }
}

/// A member value whose type offers both capabilities, rendering as the
/// given text under each.
pub fn plain_member(text: String) -> (r: MemberValue)
    ensures
        r.deep_view() == spec_plain_member(text@),
{
    let display = String::from_str(text.as_str());
    MemberValue { debug: Some(text), display: Some(display), substituted: String::new() }
}

/// A member value whose type offers neither capability.
pub fn bare_member() -> (r: MemberValue)
    ensures
        r.deep_view() == spec_bare_member(),
{
    MemberValue { debug: None, display: None, substituted: String::new() }
}

/// A definition with no annotations and no generics, of the given name and
/// shape.
pub fn plain_def(name: &str, shape: TypeShape) -> (r: TypeDef)
    ensures
        r.deep_view().name == name@,
        r.deep_view().attrs == Seq::<crate::syntax::SpecAnnotation>::empty(),
        r.deep_view().generics.params == Seq::<crate::generics::SpecGenericParam>::empty(),
        r.deep_view().generics.where_clause is None,
        r.deep_view().shape == shape.deep_view(),
        r.shape == shape,
{
    TypeDef {
        name: String::from_str(name),
        generics: empty_generics(),
        attrs: no_annotations(),
        shape,
    }
}

} // verus!
