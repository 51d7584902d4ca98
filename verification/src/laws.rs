//! The engine's laws: properties that hold of every definition and value,
//! stated over the denotational specification and proved once and for all.

use vstd::prelude::*;

use crate::Contract;
use crate::attribute::{spec_field_config, spec_simple_config};
use crate::rt::{SpecMemberValue, spec_struct_body, spec_struct_entry, spec_tuple_body};
use crate::shape::{
    SpecFieldSpec, SpecFieldsShape, SpecTypeDef, SpecTypeShape, SpecValue, value_matches,
};
use crate::render::{spec_entries, spec_member_text, spec_render};
use crate::synthesize::spec_opaque;

verus! {

/// A member's rendering capability for a contract: the rendering the
/// member's concrete type offers under that contract, where it offers one.
pub open spec fn spec_capability(m: SpecMemberValue, c: Contract) -> Option<Seq<char>> {
    match c {
        Contract::Debug => m.debug,
        Contract::Display => m.display,
    }
}

/// Whether a member's annotations resolve to the untouched default for a
/// contract: not ignored, no template.
pub open spec fn default_config(f: SpecFieldSpec, c: Contract) -> bool {
    !spec_field_config(f.attrs, c).ignore && spec_field_config(f.attrs, c).format is None
}

/// A unit-shaped type with no whole-type template renders as the bare type
/// name: no members exist, so no braces or parentheses follow.
pub proof fn lemma_unit_default(d: SpecTypeDef, v: SpecValue, c: Contract)
    requires
        d.shape == SpecTypeShape::Struct(SpecFieldsShape::Unit),
        spec_simple_config(d.attrs, c) is None,
    ensures
        spec_render(d, v, c) == d.name,
{
}

/// The entries of a member list read nothing of the member values beyond
/// the list's length: values that agree there render the same entries.
proof fn lemma_entries_prefix(
    fs: Seq<SpecFieldSpec>,
    ms1: Seq<SpecMemberValue>,
    ms2: Seq<SpecMemberValue>,
    named: bool,
    c: Contract,
)
    requires
        fs.len() <= ms1.len(),
        fs.len() <= ms2.len(),
        forall|i: int| 0 <= i < fs.len() ==> ms1[i] == ms2[i],
    ensures
        spec_entries(fs, ms1, named, c) == spec_entries(fs, ms2, named, c),
    decreases fs.len(),
{
    if fs.len() > 0 {
        lemma_entries_prefix(fs.drop_last(), ms1, ms2, named, c);
        assert(ms1[fs.len() - 1] == ms2[fs.len() - 1]);
    }
}

/// Where every member keeps its default configuration and its type offers
/// the contract's capability, the entries are exactly the members' own
/// renderings, in declaration order — what the host language's built-in
/// derivation prints.
proof fn lemma_entries_builtin(
    fs: Seq<SpecFieldSpec>,
    ms: Seq<SpecMemberValue>,
    named: bool,
    c: Contract,
)
    requires
        fs.len() <= ms.len(),
        forall|i: int| 0 <= i < fs.len() ==> default_config(#[trigger] fs[i], c),
        forall|i: int| 0 <= i < fs.len() ==> spec_capability(#[trigger] ms[i], c) is Some,
    ensures
        spec_entries(fs, ms, named, c) == Seq::new(
            fs.len(),
            |i: int|
                if named {
                    spec_struct_entry(fs[i].name->Some_0, spec_capability(ms[i], c)->Some_0)
                } else {
                    spec_capability(ms[i], c)->Some_0
                },
        ),
    decreases fs.len(),
{
    let whole = Seq::new(
        fs.len(),
        |i: int|
            if named {
                spec_struct_entry(fs[i].name->Some_0, spec_capability(ms[i], c)->Some_0)
            } else {
                spec_capability(ms[i], c)->Some_0
            },
    );
    if fs.len() == 0 {
        assert(spec_entries(fs, ms, named, c) =~= whole);
    } else {
        let prev = fs.drop_last();
        lemma_entries_builtin(prev, ms, named, c);
        assert(default_config(fs[fs.len() - 1], c));
        assert(spec_capability(ms[fs.len() - 1], c) is Some);
        assert(spec_entries(fs, ms, named, c) =~= whole);
    }
}

/// Where every member of an ordered-member type keeps its default
/// configuration and offers the needed capability, rendering equals the
/// built-in derivation: the type name and the members' own renderings.
pub proof fn lemma_builtin_ordered(d: SpecTypeDef, v: SpecValue, c: Contract, fs: Seq<
    SpecFieldSpec,
>)
    requires
        d.shape == SpecTypeShape::Struct(SpecFieldsShape::Ordered(fs)),
        value_matches(d, v),
        spec_simple_config(d.attrs, c) is None,
        forall|i: int| 0 <= i < fs.len() ==> default_config(#[trigger] fs[i], c),
        forall|i: int|
            0 <= i < fs.len() ==> spec_capability(#[trigger] v.body->Fields_0[i], c) is Some,
    ensures
        spec_render(d, v, c) == spec_tuple_body(
            d.name,
            Seq::new(fs.len(), |i: int| spec_capability(v.body->Fields_0[i], c)->Some_0),
        ),
{
    lemma_entries_builtin(fs, v.body->Fields_0, false, c);
    assert(spec_entries(fs, v.body->Fields_0, false, c) =~= Seq::new(
        fs.len(),
        |i: int| spec_capability(v.body->Fields_0[i], c)->Some_0,
    ));
}

/// As `lemma_builtin_ordered`, for named members: the entries stand under
/// their declared names.
pub proof fn lemma_builtin_named(d: SpecTypeDef, v: SpecValue, c: Contract, fs: Seq<SpecFieldSpec>)
    requires
        d.shape == SpecTypeShape::Struct(SpecFieldsShape::Named(fs)),
        value_matches(d, v),
        spec_simple_config(d.attrs, c) is None,
        forall|i: int| 0 <= i < fs.len() ==> default_config(#[trigger] fs[i], c),
        forall|i: int|
            0 <= i < fs.len() ==> spec_capability(#[trigger] v.body->Fields_0[i], c) is Some,
    ensures
        spec_render(d, v, c) == spec_struct_body(
            d.name,
            Seq::new(
                fs.len(),
                |i: int|
                    spec_struct_entry(
                        fs[i].name->Some_0,
                        spec_capability(v.body->Fields_0[i], c)->Some_0,
                    ),
            ),
        ),
{
    lemma_entries_builtin(fs, v.body->Fields_0, true, c);
    assert(spec_entries(fs, v.body->Fields_0, true, c) =~= Seq::new(
        fs.len(),
        |i: int|
            spec_struct_entry(
                fs[i].name->Some_0,
                spec_capability(v.body->Fields_0[i], c)->Some_0,
            ),
    ));
}

/// A member whose type lacks the contract's capability (and carries no
/// template and is not ignored) renders as the opaque placeholder of its
/// declared type — and nothing else of the output depends on that member:
/// replacing it by any other capability-lacking member value changes no
/// entry.
pub proof fn lemma_unprintable_member(
    fs: Seq<SpecFieldSpec>,
    ms: Seq<SpecMemberValue>,
    named: bool,
    c: Contract,
    i: int,
    m2: SpecMemberValue,
)
    requires
        0 <= i < fs.len() <= ms.len(),
        spec_field_config(fs[i].attrs, c).format is None,
        spec_capability(ms[i], c) is None,
        spec_capability(m2, c) is None,
    ensures
        !spec_field_config(fs[i].attrs, c).ignore ==> spec_member_text(fs[i], ms[i], c)
            == spec_opaque(fs[i].ty),
        spec_entries(fs, ms.update(i, m2), named, c) == spec_entries(fs, ms, named, c),
    decreases fs.len(),
{
    let ms2 = ms.update(i, m2);
    if i == fs.len() - 1 {
        lemma_entries_prefix(fs.drop_last(), ms, ms2, named, c);
        assert(spec_member_text(fs[i], ms[i], c) == spec_member_text(fs[i], ms2[i], c));
    } else {
        lemma_unprintable_member(fs.drop_last(), ms, named, c, i, m2);
        assert(fs.drop_last()[i] == fs[i]);
        assert(ms2[fs.len() - 1] == ms[fs.len() - 1]);
    }
}

/// An ignored member never appears in the output, and removing it from the
/// definition (together with its member value) changes no other entry:
/// sibling order and presence are untouched.
pub proof fn lemma_ignored_member(
    fs: Seq<SpecFieldSpec>,
    ms: Seq<SpecMemberValue>,
    named: bool,
    c: Contract,
    i: int,
)
    requires
        0 <= i < fs.len() <= ms.len(),
        spec_field_config(fs[i].attrs, c).ignore,
    ensures
        spec_entries(fs, ms, named, c) == spec_entries(fs.remove(i), ms.remove(i), named, c),
    decreases fs.len(),
{
    let rfs = fs.remove(i);
    let rms = ms.remove(i);
    if i == fs.len() - 1 {
        assert(rfs =~= fs.drop_last());
        lemma_entries_prefix(fs.drop_last(), ms, rms, named, c);
    } else {
        lemma_ignored_member(fs.drop_last(), ms, named, c, i);
        assert(rfs.drop_last() =~= fs.drop_last().remove(i));
        assert(rfs.last() == fs.last());
        assert(rms[rfs.len() - 1] == ms[fs.len() - 1]);
        lemma_entries_prefix(fs.drop_last().remove(i), ms.remove(i), rms, named, c);
    }
}

/// Removing an ignored member from a struct-shaped definition (together
/// with its member value) changes nothing of the rendering: the member
/// never appeared, and its siblings keep their order and presence.
pub proof fn lemma_ignored_member_render(
    d1: SpecTypeDef,
    d2: SpecTypeDef,
    v1: SpecValue,
    v2: SpecValue,
    c: Contract,
    i: int,
    fs: Seq<SpecFieldSpec>,
    named: bool,
)
    requires
        d1.shape == if named {
            SpecTypeShape::Struct(SpecFieldsShape::Named(fs))
        } else {
            SpecTypeShape::Struct(SpecFieldsShape::Ordered(fs))
        },
        d2.shape == if named {
            SpecTypeShape::Struct(SpecFieldsShape::Named(fs.remove(i)))
        } else {
            SpecTypeShape::Struct(SpecFieldsShape::Ordered(fs.remove(i)))
        },
        d2.name == d1.name,
        d2.attrs == d1.attrs,
        spec_simple_config(d1.attrs, c) is None,
        0 <= i < fs.len(),
        spec_field_config(fs[i].attrs, c).ignore,
        value_matches(d1, v1),
        v1.body matches crate::shape::SpecValueBody::Fields(ms) && v2.body
            == crate::shape::SpecValueBody::Fields(ms.remove(i)),
    ensures
        spec_render(d2, v2, c) == spec_render(d1, v1, c),
{
    let ms = v1.body->Fields_0;
    lemma_ignored_member(fs, ms, named, c, i);
}

/// A whole-type template, once applied, fully replaces default rendering:
/// the output is exactly the template's evaluated text, whatever the shape.
pub proof fn lemma_type_template(d: SpecTypeDef, v: SpecValue, c: Contract)
    requires
        spec_simple_config(d.attrs, c) is Some,
    ensures
        spec_render(d, v, c) == v.substituted,
{
}

/// A whole-variant template fully replaces the active variant's default
/// rendering.
pub proof fn lemma_variant_template(d: SpecTypeDef, v: SpecValue, c: Contract, vs: Seq<
    crate::shape::SpecVariantSpec,
>)
    requires
        d.shape == SpecTypeShape::Enum(vs),
        value_matches(d, v),
        spec_simple_config(d.attrs, c) is None,
        spec_simple_config(vs[v.body->index].attrs, c) is Some,
    ensures
        spec_render(d, v, c) == v.body->substituted,
{
}

/// A per-member template fully replaces that member's default rendering:
/// its entry is the template's evaluated text, with no added quoting or
/// escaping, whatever capabilities the member's type offers.
pub proof fn lemma_member_template(f: SpecFieldSpec, m: SpecMemberValue, c: Contract)
    requires
        spec_field_config(f.attrs, c).format is Some,
    ensures
        spec_member_text(f, m, c) == m.substituted,
{
}

/// An untagged union without a whole-type template renders as the opaque
/// placeholder of its name, under both contracts alike, whatever its other
/// configuration; a whole-type template is the one thing that overrides
/// this.
pub proof fn lemma_union_opaque(d: SpecTypeDef, v: SpecValue, c: Contract)
    requires
        d.shape is UntaggedUnion,
        spec_simple_config(d.attrs, c) is None,
    ensures
        spec_render(d, v, c) == spec_opaque(d.name),
{
}

} // verus!
