//! The meaning of a synthesized implementation.
//!
//! `spec_render` states directly, shape by shape, what rendering a value of
//! a definition must produce: ignored members are absent, templated scopes
//! are replaced by their evaluated text, every other member is its own
//! rendering where its type has the contract's capability and the opaque
//! placeholder where it does not.
//!
//! `run_plan` executes a synthesized plan against a value, through the same
//! sink builders and dispatch shim the synthesized source would call; the
//! soundness theorem proves that running the driver's plan produces exactly
//! the string `spec_render` assigns.

use vstd::prelude::*;

use crate::Contract;
use crate::attribute::{SyntaxError, spec_field_config, spec_simple_config};
use crate::driver::{
    RenderPlan, SpecRenderPlan, debug, def_wf, display, spec_errors, spec_plan,
};
use crate::rt::{
    DebugDisplay, DebugOrReplacement, DisplayOrReplacement, MemberValue, SpecMemberValue,
    StructSink, TupleSink, spec_member_rendering, spec_struct_body, spec_struct_entry,
    spec_tuple_body,
};
use crate::shape::{
    SpecFieldSpec, SpecFieldsShape, SpecTypeDef, SpecTypeShape, SpecValue, SpecValueBody, TypeDef,
    Value, ValueBody, value_matches,
};
use crate::synthesize::{
    Emission, EmitStep, SinkStyle, SpecEmission, SpecEmitStep, SpecVariantBody, fields_named,
    layout_wf, spec_opaque, spec_steps, spec_variant_plan,
};

verus! {

/// The rendered text of one non-ignored member: its evaluated template
/// where one is set, else the shim's choice between the member's own
/// rendering and the opaque placeholder of its declared type.
pub open spec fn spec_member_text(
    f: SpecFieldSpec,
    m: SpecMemberValue,
    c: Contract,
) -> Seq<char> {
    match spec_field_config(f.attrs, c).format {
        Some(_) => m.substituted,
        None => spec_member_rendering(c, m, spec_opaque(f.ty)),
    }
}

/// The rendered entries of a member list, in declaration order; ignored
/// members contribute nothing. Named members stand under their names.
pub open spec fn spec_entries(
    fs: Seq<SpecFieldSpec>,
    ms: Seq<SpecMemberValue>,
    named: bool,
    c: Contract,
) -> Seq<Seq<char>>
    decreases fs.len(),
{
    if fs.len() == 0 {
        Seq::empty()
    } else {
        let prev = spec_entries(fs.drop_last(), ms, named, c);
        let i = fs.len() - 1;
        let f = fs.last();
        if spec_field_config(f.attrs, c).ignore {
            prev
        } else {
            let body = spec_member_text(f, ms[i as int], c);
            prev.push(
                if named {
                    spec_struct_entry(f.name->Some_0, body)
                } else {
                    body
                },
            )
        }
    }
}

/// The default rendering of one struct shape or variant: its label and its
/// entries in the style's brackets, the label alone where no entry exists.
pub open spec fn spec_shape_render(
    label: Seq<char>,
    shape: SpecFieldsShape,
    ms: Seq<SpecMemberValue>,
    c: Contract,
) -> Seq<char> {
    match shape {
        SpecFieldsShape::Unit => spec_struct_body(label, Seq::empty()),
        SpecFieldsShape::Ordered(fs) => spec_tuple_body(label, spec_entries(fs, ms, false, c)),
        SpecFieldsShape::Named(fs) => spec_struct_body(label, spec_entries(fs, ms, true, c)),
    }
}

/// What rendering a value of a definition produces under one contract: a
/// whole-type template's evaluation where one is set; the opaque
/// placeholder for a union; the active variant's template evaluation or
/// default rendering for an enum; the shape's default rendering otherwise.
pub open spec fn spec_render(d: SpecTypeDef, v: SpecValue, c: Contract) -> Seq<char> {
    match spec_simple_config(d.attrs, c) {
        Some(_) => v.substituted,
        None => match d.shape {
            SpecTypeShape::Struct(l) => spec_shape_render(d.name, l, v.body->Fields_0, c),
            SpecTypeShape::UntaggedUnion => spec_opaque(d.name),
            SpecTypeShape::Enum(vs) => {
                let variant = vs[v.body->index];
                match spec_simple_config(variant.attrs, c) {
                    Some(_) => v.body->substituted,
                    None => spec_shape_render(
                        variant.name,
                        variant.fields,
                        v.body->members,
                        c,
                    ),
                }
            },
        },
    }
}

/// The text one emission step writes, before any name prefix.
pub open spec fn spec_step_text(s: SpecEmitStep, ms: Seq<SpecMemberValue>, c: Contract) -> Seq<
    char,
> {
    match s {
        SpecEmitStep::Substituted { index, .. } => ms[index].substituted,
        SpecEmitStep::Dispatch { index, replacement, .. } => spec_member_rendering(
            c,
            ms[index],
            replacement,
        ),
    }
}

/// The entry one emission step writes into its sink.
pub open spec fn spec_step_entry(s: SpecEmitStep, ms: Seq<SpecMemberValue>, c: Contract) -> Seq<
    char,
> {
    let name = match s {
        SpecEmitStep::Substituted { name, .. } => name,
        SpecEmitStep::Dispatch { name, .. } => name,
    };
    match name {
        Some(n) => spec_struct_entry(n, spec_step_text(s, ms, c)),
        None => spec_step_text(s, ms, c),
    }
}

/// The entries a step sequence writes, in order.
pub open spec fn spec_run_entries(
    steps: Seq<SpecEmitStep>,
    ms: Seq<SpecMemberValue>,
    c: Contract,
) -> Seq<Seq<char>>
    decreases steps.len(),
{
    if steps.len() == 0 {
        Seq::empty()
    } else {
        spec_run_entries(steps.drop_last(), ms, c).push(spec_step_entry(steps.last(), ms, c))
    }
}

/// What running a whole emission against a value's members produces.
pub open spec fn spec_run_emission(
    e: SpecEmission,
    ms: Seq<SpecMemberValue>,
    c: Contract,
) -> Seq<char> {
    match e.style {
        SinkStyle::TupleStyle => spec_tuple_body(e.label, spec_run_entries(e.steps, ms, c)),
        SinkStyle::StructStyle => spec_struct_body(e.label, spec_run_entries(e.steps, ms, c)),
    }
}

/// Whether one step fits a member list of length `n` under a style.
pub open spec fn step_fits(s: SpecEmitStep, n: int, named: bool) -> bool {
    match s {
        SpecEmitStep::Substituted { index, name, .. } => 0 <= index < n && (if named {
            name is Some
        } else {
            name is None
        }),
        SpecEmitStep::Dispatch { index, name, .. } => 0 <= index < n && (if named {
            name is Some
        } else {
            name is None
        }),
    }
}

/// Whether an emission fits a member list of length `n`.
pub open spec fn emission_fits(e: SpecEmission, n: int) -> bool {
    forall|k: int|
        0 <= k < e.steps.len() ==> step_fits(#[trigger] e.steps[k], n, e.style is StructStyle)
}

/// Whether a plan can run against a value: the value provides the members
/// the plan's steps reach. A zero-variant enum's plan fits no value, since
/// no value of such a type exists.
pub open spec fn plan_fits(p: SpecRenderPlan, v: SpecValue) -> bool {
    match p {
        SpecRenderPlan::Template { .. } => true,
        SpecRenderPlan::Opaque(_) => true,
        SpecRenderPlan::Unreachable => false,
        SpecRenderPlan::Structure { emission, .. } => v.body matches SpecValueBody::Fields(ms)
            && emission_fits(emission, ms.len() as int),
        SpecRenderPlan::Choice(vps) => v.body matches SpecValueBody::Variant {
            index,
            members,
            ..
        } && 0 <= index < vps.len() && (match vps[index].body {
            SpecVariantBody::Template(_) => true,
            SpecVariantBody::Emit(e) => emission_fits(e, members.len() as int),
        }),
    }
}

/// What running a plan against a value produces. (The unreachable plan fits
/// no value; its clause is vacuous.)
pub open spec fn spec_run_plan(p: SpecRenderPlan, c: Contract, v: SpecValue) -> Seq<char> {
    match p {
        SpecRenderPlan::Template { .. } => v.substituted,
        SpecRenderPlan::Opaque(s) => s,
        SpecRenderPlan::Unreachable => Seq::empty(),
        SpecRenderPlan::Structure { emission, .. } => spec_run_emission(
            emission,
            v.body->Fields_0,
            c,
        ),
        SpecRenderPlan::Choice(vps) => match vps[v.body->index].body {
            SpecVariantBody::Template(_) => v.body->substituted,
            SpecVariantBody::Emit(e) => spec_run_emission(e, v.body->members, c),
        },
    }
}

/// Runs one emission against a value's members, writing through the
/// dispatch shim into the style's sink.
pub fn run_emission(e: &Emission, members: &Vec<MemberValue>, c: Contract) -> (r: String)
    requires
        emission_fits(e.deep_view(), members.deep_view().len() as int),
    ensures
        r@ == spec_run_emission(e.deep_view(), members.deep_view(), c),
{
    let ghost ev = e.deep_view();
    let ghost ms = members.deep_view();
    match e.style {
        SinkStyle::TupleStyle => {
            let mut w = TupleSink::new(e.label.as_str());
            let mut i: usize = 0;
            while i < e.steps.len()
                invariant
                    i <= e.steps@.len(),
                    ev == e.deep_view(),
                    ms == members.deep_view(),
                    ev.steps.len() == e.steps@.len(),
                    ev.style is TupleStyle,
                    emission_fits(ev, ms.len() as int),
                    ms.len() == members@.len(),
                    w.label@ == ev.label,
                    w.entries.deep_view() == spec_run_entries(ev.steps.take(i as int), ms, c),
                decreases e.steps@.len() - i,
            {
                proof {
                    assert(step_fits(ev.steps[i as int], ms.len() as int, false));
                }
                match &e.steps[i] {
                    EmitStep::Substituted { index, .. } => {
                        let s = DebugDisplay(members[*index].substituted.as_str()).fmt();
                        w.entry(s);
                    },
                    EmitStep::Dispatch { index, replacement, .. } => {
                        match c {
                            Contract::Debug => DebugOrReplacement(&members[*index]).tuple_field(
                                replacement.as_str(),
                                &mut w,
                            ),
                            Contract::Display => DisplayOrReplacement(
                                &members[*index],
                            ).tuple_field(replacement.as_str(), &mut w),
                        }
                    },
                }
                i = i + 1;
                proof {
                    assert(ev.steps.take(i as int).drop_last() =~= ev.steps.take(i - 1));
                    assert(ev.steps.take(i as int).last() == ev.steps[i - 1]);
                }
            }
            proof {
                assert(ev.steps.take(e.steps@.len() as int) =~= ev.steps);
            }
            w.finish()
        },
        SinkStyle::StructStyle => {
            let mut w = StructSink::new(e.label.as_str());
            let mut i: usize = 0;
            while i < e.steps.len()
                invariant
                    i <= e.steps@.len(),
                    ev == e.deep_view(),
                    ms == members.deep_view(),
                    ev.steps.len() == e.steps@.len(),
                    ev.style is StructStyle,
                    emission_fits(ev, ms.len() as int),
                    ms.len() == members@.len(),
                    w.label@ == ev.label,
                    w.entries.deep_view() == spec_run_entries(ev.steps.take(i as int), ms, c),
                decreases e.steps@.len() - i,
            {
                proof {
                    assert(step_fits(ev.steps[i as int], ms.len() as int, true));
                }
                match &e.steps[i] {
                    EmitStep::Substituted { index, name, .. } => {
                        let n: &String = match name {
                            Some(n) => n,
                            None => vstd::pervasive::unreached(),
                        };
                        let s = DebugDisplay(members[*index].substituted.as_str()).fmt();
                        w.entry(n.as_str(), s);
                    },
                    EmitStep::Dispatch { index, name, replacement, .. } => {
                        let n: &String = match name {
                            Some(n) => n,
                            None => vstd::pervasive::unreached(),
                        };
                        match c {
                            Contract::Debug => DebugOrReplacement(&members[*index]).struct_field(
                                n.as_str(),
                                replacement.as_str(),
                                &mut w,
                            ),
                            Contract::Display => DisplayOrReplacement(
                                &members[*index],
                            ).struct_field(n.as_str(), replacement.as_str(), &mut w),
                        }
                    },
                }
                i = i + 1;
                proof {
                    assert(ev.steps.take(i as int).drop_last() =~= ev.steps.take(i - 1));
                    assert(ev.steps.take(i as int).last() == ev.steps[i - 1]);
                }
            }
            proof {
                assert(ev.steps.take(e.steps@.len() as int) =~= ev.steps);
            }
            w.finish()
        },
    }
}

/// Runs a whole plan against a value under one contract.
pub fn run_plan(plan: &RenderPlan, c: Contract, value: &Value) -> (r: String)
    requires
        plan_fits(plan.deep_view(), value.deep_view()),
    ensures
        r@ == spec_run_plan(plan.deep_view(), c, value.deep_view()),
{
    match plan {
        RenderPlan::Template { .. } => DebugDisplay(value.substituted.as_str()).fmt(),
        RenderPlan::Opaque(s) => String::from_str(s.as_str()),
        RenderPlan::Unreachable => vstd::pervasive::unreached(),
        RenderPlan::Structure { emission, .. } => match &value.body {
            ValueBody::Fields(ms) => run_emission(emission, ms, c),
            _ => vstd::pervasive::unreached(),
        },
        RenderPlan::Choice(vps) => match &value.body {
            ValueBody::Variant { index, substituted, members } => {
                proof {
                    assert(vps.deep_view().len() == vps@.len());
                }
                let vp = &vps[*index];
                match &vp.body {
                    crate::synthesize::VariantBody::Template(_) => DebugDisplay(
                        substituted.as_str(),
                    ).fmt(),
                    crate::synthesize::VariantBody::Emit(e) => run_emission(e, members, c),
                }
            },
            _ => vstd::pervasive::unreached(),
        },
    }
}

/// Every step a member list synthesizes fits that list.
proof fn lemma_steps_fit(fs: Seq<SpecFieldSpec>, named: bool, c: Contract)
    requires
        named ==> fields_named(fs),
    ensures
        forall|k: int|
            0 <= k < spec_steps(fs, named, c).len() ==> step_fits(
                #[trigger] spec_steps(fs, named, c)[k],
                fs.len() as int,
                named,
            ),
    decreases fs.len(),
{
    if fs.len() > 0 {
        let prev = fs.drop_last();
        assert(named ==> fields_named(prev)) by {
            if named {
                assert forall|i: int| 0 <= i < prev.len() implies prev[i].name is Some by {
                    assert(prev[i] == fs[i]);
                }
            }
        }
        lemma_steps_fit(prev, named, c);
        assert forall|k: int| 0 <= k < spec_steps(fs, named, c).len() implies step_fits(
            #[trigger] spec_steps(fs, named, c)[k],
            fs.len() as int,
            named,
        ) by {
            let steps = spec_steps(fs, named, c);
            let psteps = spec_steps(prev, named, c);
            if k < psteps.len() {
                assert(steps[k] == psteps[k]);
                assert(step_fits(psteps[k], prev.len() as int, named));
            }
        }
    }
}

/// Running the steps a member list synthesizes writes exactly the entries
/// the denotational specification assigns.
proof fn lemma_entries_sound(
    fs: Seq<SpecFieldSpec>,
    ms: Seq<SpecMemberValue>,
    named: bool,
    c: Contract,
)
    requires
        named ==> fields_named(fs),
        fs.len() <= ms.len(),
    ensures
        spec_run_entries(spec_steps(fs, named, c), ms, c) == spec_entries(fs, ms, named, c),
    decreases fs.len(),
{
    if fs.len() > 0 {
        let prev = fs.drop_last();
        assert(named ==> fields_named(prev)) by {
            if named {
                assert forall|i: int| 0 <= i < prev.len() implies prev[i].name is Some by {
                    assert(prev[i] == fs[i]);
                }
            }
        }
        lemma_entries_sound(prev, ms, named, c);
        let f = fs.last();
        let i = fs.len() - 1;
        let cfg = spec_field_config(f.attrs, c);
        let steps = spec_steps(fs, named, c);
        let psteps = spec_steps(prev, named, c);
        if cfg.ignore {
            assert(steps == psteps);
        } else {
            assert(steps.drop_last() =~= psteps);
            assert(steps.last() == steps[steps.len() - 1]);
            if named {
                assert(f.name is Some) by {
                    assert(fs[i as int].name is Some);
                }
            }
        }
    }
}

/// Soundness of the driver: for any value of the definition, running the
/// synthesized plan produces exactly the string the denotational
/// specification assigns — and the plan fits every such value.
pub proof fn lemma_plan_sound(d: SpecTypeDef, v: SpecValue, c: Contract)
    requires
        def_wf(d),
        value_matches(d, v),
    ensures
        plan_fits(spec_plan(d, c), v),
        spec_run_plan(spec_plan(d, c), c, v) == spec_render(d, v, c),
{
    let p = spec_plan(d, c);
    match spec_simple_config(d.attrs, c) {
        Some(_) => {},
        None => match d.shape {
            SpecTypeShape::Struct(l) => {
                let ms = v.body->Fields_0;
                match l {
                    SpecFieldsShape::Unit => {
                        assert(spec_steps(Seq::<SpecFieldSpec>::empty(), true, c)
                            =~= Seq::<SpecEmitStep>::empty());
                        assert(spec_run_entries(Seq::<SpecEmitStep>::empty(), ms, c)
                            =~= Seq::<Seq<char>>::empty());
                        assert(spec_entries(Seq::<SpecFieldSpec>::empty(), ms, true, c)
                            =~= Seq::<Seq<char>>::empty());
                    },
                    SpecFieldsShape::Ordered(fs) => {
                        lemma_steps_fit(fs, false, c);
                        lemma_entries_sound(fs, ms, false, c);
                    },
                    SpecFieldsShape::Named(fs) => {
                        lemma_steps_fit(fs, true, c);
                        lemma_entries_sound(fs, ms, true, c);
                    },
                }
            },
            SpecTypeShape::UntaggedUnion => {},
            SpecTypeShape::Enum(vs) => {
                let idx = v.body->index;
                let ms = v.body->members;
                let variant = vs[idx];
                let vps = p->Choice_0;
                assert(vps[idx] == spec_variant_plan(variant, c));
                assert(layout_wf(variant.fields));
                match spec_simple_config(variant.attrs, c) {
                    Some(_) => {},
                    None => match variant.fields {
                        SpecFieldsShape::Unit => {
                            assert(spec_steps(Seq::<SpecFieldSpec>::empty(), true, c)
                                =~= Seq::<SpecEmitStep>::empty());
                            assert(spec_run_entries(Seq::<SpecEmitStep>::empty(), ms, c)
                                =~= Seq::<Seq<char>>::empty());
                            assert(spec_entries(Seq::<SpecFieldSpec>::empty(), ms, true, c)
                                =~= Seq::<Seq<char>>::empty());
                        },
                        SpecFieldsShape::Ordered(fs) => {
                            lemma_steps_fit(fs, false, c);
                            lemma_entries_sound(fs, ms, false, c);
                        },
                        SpecFieldsShape::Named(fs) => {
                            lemma_steps_fit(fs, true, c);
                            lemma_entries_sound(fs, ms, true, c);
                        },
                    },
                }
            },
        },
    }
}

/// Derives one contract for a definition and renders a value of it in one
/// step: the string the denotational specification assigns, or every
/// syntax error the traversal found.
pub fn render(def: &TypeDef, value: &Value, c: Contract) -> (r: Result<String, Vec<SyntaxError>>)
    requires
        def_wf(def.deep_view()),
        value_matches(def.deep_view(), value.deep_view()),
    ensures
        r is Ok <==> spec_errors(def.deep_view(), c).len() == 0,
        r matches Ok(s) ==> s@ == spec_render(def.deep_view(), value.deep_view(), c),
        r matches Err(es) ==> es.deep_view() == spec_errors(def.deep_view(), c),
{
    let derived = match c {
        Contract::Debug => debug(def, ""),
        Contract::Display => display(def, ""),
    };
    match derived {
        Ok(fi) => {
            proof {
                lemma_plan_sound(def.deep_view(), value.deep_view(), c);
            }
            Ok(run_plan(&fi.plan, c, value))
        },
        Err(es) => Err(es),
    }
}

} // verus!
