//! A verified model of a robust textual-formatting derivation engine.
//!
//! Given the structural definition of a data type (struct, enum, or untagged
//! union, with optional per-type, per-variant and per-field customization
//! annotations), the engine synthesizes a formatting routine for two
//! contracts: a diagnostic `Debug` rendering and a user-facing `Display`
//! rendering. Synthesis never fails because a member's type lacks the needed
//! formatting capability: such a member is rendered as the opaque placeholder
//! `<TypeName>` instead.
//!
//! The engine is a pure function from a type definition to an emission plan,
//! and the plan's meaning is pinned by a direct denotational specification:
//! running the plan against any value of the type is proved to produce
//! exactly the string that the specification assigns.

use vstd::prelude::*;

pub mod attribute;
pub mod catalog;
pub mod driver;
pub mod emit;
pub mod generics;
pub mod laws;
pub mod render;
pub mod rt;
pub mod shape;
pub mod synthesize;
pub mod syntax;
pub mod text;

verus! {

/// Appends an element to a vector, keeping the vector's mathematical model
/// in step.
pub fn push_deep<T: DeepView>(v: &mut Vec<T>, x: T)
    ensures
        final(v).deep_view() == old(v).deep_view().push(x.deep_view()),
{
    let ghost pre = v.deep_view();
    let ghost xv = x.deep_view();
    v.push(x);
    proof {
        assert(v.deep_view() =~= pre.push(xv));
    }
}

/// The two formatting contracts the engine can derive.
#[derive(Clone, Copy, PartialEq, Eq, Structural)]
pub enum Contract {
    /// Diagnostic rendering, not necessarily intended for end users.
    Debug,
    /// User-facing rendering.
    Display,
}

} // verus!
