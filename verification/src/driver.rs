//! The top-level driver: reads the type's own configuration, short-circuits
//! to a whole-type template where one is set, otherwise delegates to the
//! shape synthesizer, and wraps the result with the projected generics and
//! the runtime-shim import.
//!
//! Syntax errors are accumulated across the whole traversal — the type's
//! annotations, then every variant's and member's — and the invocation
//! aborts once, after traversal, reporting all of them; no partial output
//! is ever produced.

use vstd::prelude::*;

use crate::Contract;
use crate::attribute::{
    ItemAttribute, SyntaxError, SpecSyntaxError, SpecTemplate, Template, spec_simple_config,
    spec_simple_errors,
};
use crate::generics::{
    GenericVariants, spec_params_bare, spec_params_no_defaults, spec_where_clause,
};
use crate::push_deep;
use crate::shape::{FieldsShape, SpecFieldsShape, SpecTypeDef, SpecTypeShape, TypeDef, TypeShape};
use crate::synthesize::{
    Emission, Pattern, SpecEmission, SpecPattern, SpecVariantPlan, VariantPlan, layout_wf,
    opaque_object_string, process_struct, process_tuple, process_unit, process_variant,
    spec_emission, spec_fields_errors, spec_opaque, spec_parts, spec_template_pattern,
    spec_variant_plan, spec_variants_errors, template_pattern,
};

verus! {

/// The complete plan of one synthesized implementation body.
pub enum RenderPlan {
    /// A whole-type template replaces everything: destructure far enough to
    /// bind the members the template may reference, then write its
    /// evaluation.
    Template { pattern: Option<Pattern>, template: Template },
    /// An untagged union: always the opaque placeholder of the type's name
    /// (member access is inherently unsafe there, so no member is ever
    /// rendered).
    Opaque(String),
    /// A zero-variant enum: no value can ever match, so the body is an
    /// unreachable marker.
    Unreachable,
    /// A struct shape: one destructuring and one emission.
    Structure { pattern: Option<Pattern>, emission: Emission },
    /// An enum: one arm per variant, in declaration order.
    Choice(Vec<VariantPlan>),
}

/// The mathematical model of a body plan.
pub enum SpecRenderPlan {
    Template { pattern: Option<SpecPattern>, template: SpecTemplate },
    Opaque(Seq<char>),
    Unreachable,
    Structure { pattern: Option<SpecPattern>, emission: SpecEmission },
    Choice(Seq<SpecVariantPlan>),
}

impl DeepView for RenderPlan {
    type V = SpecRenderPlan;

    open spec fn deep_view(&self) -> SpecRenderPlan {
        match self {
            RenderPlan::Template { pattern, template } => SpecRenderPlan::Template {
                pattern: pattern.deep_view(),
                template: template.deep_view(),
            },
            RenderPlan::Opaque(s) => SpecRenderPlan::Opaque(s.deep_view()),
            RenderPlan::Unreachable => SpecRenderPlan::Unreachable,
            RenderPlan::Structure { pattern, emission } => SpecRenderPlan::Structure {
                pattern: pattern.deep_view(),
                emission: emission.deep_view(),
            },
            RenderPlan::Choice(vs) => SpecRenderPlan::Choice(vs.deep_view()),
        }
    }
}

/// One synthesized implementation: the contract it implements, the type it
/// is for, the projected generics for its header, the runtime-shim import
/// injected into its body, and the body plan.
pub struct FmtImpl {
    pub contract: Contract,
    pub item_name: String,
    pub generics: GenericVariants,
    pub rt_import: String,
    pub plan: RenderPlan,
}

/// Whether a type definition is well formed: every named member carries its
/// declared name (the host syntax guarantees this; the model keeps the
/// obligation explicit).
pub open spec fn def_wf(d: SpecTypeDef) -> bool {
    match d.shape {
        SpecTypeShape::Struct(l) => layout_wf(l),
        SpecTypeShape::Enum(vs) => forall|i: int| 0 <= i < vs.len() ==> layout_wf(#[trigger] vs[i].fields),
        SpecTypeShape::UntaggedUnion => true,
    }
}

/// The pattern a whole-type template destructures with: struct shapes bind
/// all their members; enums and unions bind nothing.
pub open spec fn spec_type_template_pattern(s: SpecTypeShape) -> Option<SpecPattern> {
    match s {
        SpecTypeShape::Struct(l) => spec_template_pattern(l),
        _ => None,
    }
}

/// The body plan the driver produces for a definition under one contract.
pub open spec fn spec_plan(d: SpecTypeDef, c: Contract) -> SpecRenderPlan {
    match spec_simple_config(d.attrs, c) {
        Some(t) => SpecRenderPlan::Template {
            pattern: spec_type_template_pattern(d.shape),
            template: t,
        },
        None => match d.shape {
            SpecTypeShape::Struct(SpecFieldsShape::Unit) => SpecRenderPlan::Structure {
                pattern: None,
                emission: spec_emission(d.name, Seq::empty(), true, c),
            },
            SpecTypeShape::Struct(SpecFieldsShape::Ordered(fs)) => SpecRenderPlan::Structure {
                pattern: Some(SpecPattern { named: false, parts: spec_parts(fs, false, c) }),
                emission: spec_emission(d.name, fs, false, c),
            },
            SpecTypeShape::Struct(SpecFieldsShape::Named(fs)) => SpecRenderPlan::Structure {
                pattern: Some(SpecPattern { named: true, parts: spec_parts(fs, true, c) }),
                emission: spec_emission(d.name, fs, true, c),
            },
            SpecTypeShape::UntaggedUnion => SpecRenderPlan::Opaque(spec_opaque(d.name)),
            SpecTypeShape::Enum(vs) => {
                if vs.len() == 0 {
                    SpecRenderPlan::Unreachable
                } else {
                    SpecRenderPlan::Choice(
                        Seq::new(vs.len(), |i: int| spec_variant_plan(vs[i], c)),
                    )
                }
            },
        },
    }
}

/// The syntax errors a definition's shape contributes under one contract:
/// none where a whole-type template short-circuits the shape.
pub open spec fn spec_body_errors(d: SpecTypeDef, c: Contract) -> Seq<SpecSyntaxError> {
    match spec_simple_config(d.attrs, c) {
        Some(_) => Seq::empty(),
        None => match d.shape {
            SpecTypeShape::Struct(SpecFieldsShape::Ordered(fs)) => spec_fields_errors(fs, c),
            SpecTypeShape::Struct(SpecFieldsShape::Named(fs)) => spec_fields_errors(fs, c),
            SpecTypeShape::Enum(vs) => spec_variants_errors(vs, c),
            _ => Seq::empty(),
        },
    }
}

/// All syntax errors one invocation reports under one contract, in
/// traversal order: the type's own annotations first, then its variants'
/// and members'.
pub open spec fn spec_errors(d: SpecTypeDef, c: Contract) -> Seq<SpecSyntaxError> {
    spec_simple_errors(d.attrs, c) + spec_body_errors(d, c)
}

/// Derives one contract's implementation for a definition: the plan as
/// `spec_plan` gives it, or every syntax error the traversal found.
fn generate(def: &TypeDef, c: Contract, rt_import: &str) -> (r: Result<FmtImpl, Vec<SyntaxError>>)
    requires
        def_wf(def.deep_view()),
    ensures
        r is Ok <==> spec_errors(def.deep_view(), c).len() == 0,
        r matches Err(es) ==> es.deep_view() == spec_errors(def.deep_view(), c),
        r matches Ok(fi) ==> fi.contract == c && fi.item_name@ == def.deep_view().name
            && fi.rt_import@ == rt_import@ && fi.generics.params_bare@ == spec_params_bare(
            def.deep_view().generics.params,
        ) && fi.generics.params_no_defaults@ == spec_params_no_defaults(
            def.deep_view().generics.params,
        ) && fi.generics.where_clause@ == spec_where_clause(
            def.deep_view().generics.where_clause,
        ) && fi.plan.deep_view() == spec_plan(def.deep_view(), c),
{
    let ghost d = def.deep_view();
    let mut errors: Vec<SyntaxError> = Vec::new();
    proof {
        assert(errors.deep_view() =~= Seq::<SpecSyntaxError>::empty());
    }
    let item_cfg = ItemAttribute::resolve(&def.attrs, c, &mut errors);
    let ghost item_errors = errors.deep_view();
    let plan: RenderPlan = match item_cfg.format {
        Some(t) => RenderPlan::Template {
            pattern: match &def.shape {
                TypeShape::Struct(l) => template_pattern(l),
                _ => None,
            },
            template: t,
        },
        None => match &def.shape {
            TypeShape::Struct(FieldsShape::Unit) => RenderPlan::Structure {
                pattern: None,
                emission: process_unit(def.name.as_str()),
            },
            TypeShape::Struct(FieldsShape::Ordered(fs)) => {
                let (p, e) = process_tuple(def.name.as_str(), fs, c, &mut errors);
                RenderPlan::Structure { pattern: Some(p), emission: e }
            },
            TypeShape::Struct(FieldsShape::Named(fs)) => {
                let (p, e) = process_struct(def.name.as_str(), fs, c, &mut errors);
                RenderPlan::Structure { pattern: Some(p), emission: e }
            },
            TypeShape::UntaggedUnion => RenderPlan::Opaque(
                opaque_object_string(def.name.as_str()),
            ),
            TypeShape::Enum(vs) => {
                if vs.len() == 0 {
                    RenderPlan::Unreachable
                } else {
                    let ghost vsv = vs.deep_view();
                    let mut plans: Vec<VariantPlan> = Vec::new();
                    let mut i: usize = 0;
                    while i < vs.len()
                        invariant
                            i <= vs@.len(),
                            vsv == vs.deep_view(),
                            vsv.len() == vs@.len(),
                            forall|j: int|
                                0 <= j < vsv.len() ==> layout_wf(#[trigger] vsv[j].fields),
                            plans.deep_view() == Seq::new(
                                i as nat,
                                |j: int| spec_variant_plan(vsv[j], c),
                            ),
                            errors.deep_view() == item_errors + spec_variants_errors(
                                vsv.take(i as int),
                                c,
                            ),
                        decreases vs@.len() - i,
                    {
                        proof {
                            assert(layout_wf(vsv[i as int].fields));
                        }
                        let vp = process_variant(&vs[i], c, &mut errors);
                        push_deep(&mut plans, vp);
                        i = i + 1;
                        proof {
                            assert(plans.deep_view() =~= Seq::new(
                                i as nat,
                                |j: int| spec_variant_plan(vsv[j], c),
                            ));
                            assert(vsv.take(i as int).drop_last() =~= vsv.take(i - 1));
                            assert(vsv.take(i as int).last() == vsv[i - 1]);
                        }
                    }
                    proof {
                        assert(vsv.take(vs@.len() as int) =~= vsv);
                        assert(Seq::new(vs@.len() as nat, |j: int| spec_variant_plan(vsv[j], c))
                            =~= Seq::new(vsv.len(), |j: int| spec_variant_plan(vsv[j], c)));
                    }
                    RenderPlan::Choice(plans)
                }
            },
        },
    };
    if errors.len() > 0 {
        return Err(errors);
    }
    Ok(
        FmtImpl {
            contract: c,
            item_name: String::from_str(def.name.as_str()),
            generics: GenericVariants::new(&def.generics),
            rt_import: String::from_str(rt_import),
            plan,
        },
    )
}

/// Derives the diagnostic contract's implementation for a definition.
pub fn debug(def: &TypeDef, rt_import: &str) -> (r: Result<FmtImpl, Vec<SyntaxError>>)
    requires
        def_wf(def.deep_view()),
    ensures
        r is Ok <==> spec_errors(def.deep_view(), Contract::Debug).len() == 0,
        r matches Err(es) ==> es.deep_view() == spec_errors(def.deep_view(), Contract::Debug),
        r matches Ok(fi) ==> fi.contract == Contract::Debug && fi.item_name@
            == def.deep_view().name && fi.rt_import@ == rt_import@ && fi.plan.deep_view()
            == spec_plan(def.deep_view(), Contract::Debug) && fi.generics.params_bare@
            == spec_params_bare(def.deep_view().generics.params)
            && fi.generics.params_no_defaults@ == spec_params_no_defaults(
            def.deep_view().generics.params,
        ) && fi.generics.where_clause@ == spec_where_clause(
            def.deep_view().generics.where_clause,
        ),
{
    generate(def, Contract::Debug, rt_import)
}

/// Derives the user-facing contract's implementation for a definition.
pub fn display(def: &TypeDef, rt_import: &str) -> (r: Result<FmtImpl, Vec<SyntaxError>>)
    requires
        def_wf(def.deep_view()),
    ensures
        r is Ok <==> spec_errors(def.deep_view(), Contract::Display).len() == 0,
        r matches Err(es) ==> es.deep_view() == spec_errors(def.deep_view(), Contract::Display),
        r matches Ok(fi) ==> fi.contract == Contract::Display && fi.item_name@
            == def.deep_view().name && fi.rt_import@ == rt_import@ && fi.plan.deep_view()
            == spec_plan(def.deep_view(), Contract::Display) && fi.generics.params_bare@
            == spec_params_bare(def.deep_view().generics.params)
            && fi.generics.params_no_defaults@ == spec_params_no_defaults(
            def.deep_view().generics.params,
        ) && fi.generics.where_clause@ == spec_where_clause(
            def.deep_view().generics.where_clause,
        ),
{
    generate(def, Contract::Display, rt_import)
}

/// Derives both contracts at once. The two runs are independent: each
/// output is exactly what requesting that contract alone produces, and the
/// reported errors are the diagnostic run's followed by the user-facing
/// run's.
pub fn fmt(def: &TypeDef, rt_import: &str) -> (r: Result<(FmtImpl, FmtImpl), Vec<SyntaxError>>)
    requires
        def_wf(def.deep_view()),
    ensures
        r is Ok <==> spec_errors(def.deep_view(), Contract::Debug).len() == 0 && spec_errors(
            def.deep_view(),
            Contract::Display,
        ).len() == 0,
        r matches Err(es) ==> es.deep_view() == spec_errors(def.deep_view(), Contract::Debug)
            + spec_errors(def.deep_view(), Contract::Display),
        r matches Ok(pair) ==> pair.0.contract == Contract::Debug && pair.0.plan.deep_view()
            == spec_plan(def.deep_view(), Contract::Debug) && pair.1.contract == Contract::Display
            && pair.1.plan.deep_view() == spec_plan(def.deep_view(), Contract::Display)
            && pair.0.item_name@ == def.deep_view().name && pair.1.item_name@
            == def.deep_view().name && pair.0.rt_import@ == rt_import@ && pair.1.rt_import@
            == rt_import@,
{
    let first = generate(def, Contract::Debug, rt_import);
    let second = generate(def, Contract::Display, rt_import);
    match (first, second) {
        (Ok(a), Ok(b)) => Ok((a, b)),
        (Err(ea), Ok(_)) => {
            proof {
                assert(ea.deep_view() =~= ea.deep_view() + spec_errors(
                    def.deep_view(),
                    Contract::Display,
                ));
            }
            Err(ea)
        },
        (Ok(_), Err(eb)) => {
            proof {
                assert(eb.deep_view() =~= spec_errors(def.deep_view(), Contract::Debug)
                    + eb.deep_view());
            }
            Err(eb)
        },
        (Err(mut ea), Err(mut eb)) => {
            let ghost eav = ea.deep_view();
            let ghost ebv = eb.deep_view();
            ea.append(&mut eb);
            proof {
                assert(ea.deep_view() =~= eav + ebv);
            }
            Err(ea)
        },
    }
}

/// How the synthesized implementation should reach the runtime shim.
pub enum CrateLocation {
    /// The invocation happens inside the shim's own defining crate.
    Itself,
    /// The shim's crate is an external dependency, visible under this name.
    Named(String),
}

/// The mathematical model of a shim location.
pub enum SpecCrateLocation {
    Itself,
    Named(Seq<char>),
}

impl DeepView for CrateLocation {
    type V = SpecCrateLocation;

    open spec fn deep_view(&self) -> SpecCrateLocation {
        match self {
            CrateLocation::Itself => SpecCrateLocation::Itself,
            CrateLocation::Named(n) => SpecCrateLocation::Named(n.deep_view()),
        }
    }
}

/// The import line injected into a synthesized body so it can reach the
/// runtime shim from where the invocation happens.
pub open spec fn spec_use_rt(loc: SpecCrateLocation) -> Seq<char> {
    match loc {
        SpecCrateLocation::Itself => "use crate::_rt;"@,
        SpecCrateLocation::Named(n) => "use ::"@ + n + "::_rt;"@,
    }
}

/// Renders the runtime-shim import for a resolved location. Resolution
/// itself (asking the build which name the shim's crate is visible under)
/// is the host environment's job; failure there aborts the whole invocation
/// before anything here runs.
pub fn use_rt(loc: &CrateLocation) -> (r: String)
    ensures
        r@ == spec_use_rt(loc.deep_view()),
{
    match loc {
        CrateLocation::Itself => String::from_str("use crate::_rt;"),
        CrateLocation::Named(n) => {
            let mut r = String::from_str("use ::");
            r.append(n.as_str());
            r.append("::_rt;");
            r
        },
    }
}

/// The textual name of a contract, as it stands in the emitted header.
pub open spec fn spec_contract_name(c: Contract) -> Seq<char> {
    match c {
        Contract::Debug => "Debug"@,
        Contract::Display => "Display"@,
    }
}

/// The emitted implementation header: contract name, type name and the
/// projected generics, in the exact textual form the synthesized source
/// carries.
pub open spec fn spec_impl_header(
    c: Contract,
    name: Seq<char>,
    bare: Seq<char>,
    no_defaults: Seq<char>,
    where_clause: Seq<char>,
) -> Seq<char> {
    "impl<"@ + no_defaults + "> ::core::fmt::"@ + spec_contract_name(c) + " for "@ + name + "<"@
        + bare + "> "@ + where_clause
}

impl FmtImpl {
    /// Renders this implementation's header.
    pub fn impl_header(&self) -> (r: String)
        ensures
            r@ == spec_impl_header(
                self.contract,
                self.item_name@,
                self.generics.params_bare@,
                self.generics.params_no_defaults@,
                self.generics.where_clause@,
            ),
    {
        let mut r = String::from_str("impl<");
        r.append(self.generics.params_no_defaults.as_str());
        r.append("> ::core::fmt::");
        match self.contract {
            Contract::Debug => r.append("Debug"),
            Contract::Display => r.append("Display"),
        }
        r.append(" for ");
        r.append(self.item_name.as_str());
        r.append("<");
        r.append(self.generics.params_bare.as_str());
        r.append("> ");
        r.append(self.generics.where_clause.as_str());
        r
    }
}

} // verus!
