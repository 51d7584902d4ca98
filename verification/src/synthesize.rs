//! The shape synthesizer: for each member layout it produces a
//! destructuring pattern binding each member, and the ordered sequence of
//! emission steps the synthesized implementation performs.
//!
//! Per member, in declaration order: an ignored member is bound and
//! discarded (it is completely absent from the output, not rendered as
//! empty); a member with a template becomes a substitution step; any other
//! member becomes a call through the capability-dispatch shim, carrying the
//! opaque placeholder of its declared type as the fallback text.

use vstd::prelude::*;

use crate::Contract;
use crate::attribute::{
    FieldAttribute, SyntaxError, SpecSyntaxError, SpecTemplate, Template, VariantAttribute,
    spec_field_config, spec_field_errors, spec_simple_config, spec_simple_errors,
};
use crate::push_deep;
use crate::shape::{FieldSpec, FieldsShape, SpecFieldSpec, SpecFieldsShape, SpecVariantSpec, VariantSpec};
use crate::text::{decimal_string, spec_decimal};

verus! {

/// How one member stands in a destructuring pattern: discarded, or bound
/// under a name.
pub enum Binding {
    Discard,
    Bind(String),
}

/// The mathematical model of a binding.
pub enum SpecBinding {
    Discard,
    Bind(Seq<char>),
}

impl DeepView for Binding {
    type V = SpecBinding;

    open spec fn deep_view(&self) -> SpecBinding {
        match self {
            Binding::Discard => SpecBinding::Discard,
            Binding::Bind(n) => SpecBinding::Bind(n.deep_view()),
        }
    }
}

/// One position of a destructuring pattern: the declared member name it
/// destructures (absent for positional members) and the binding taken.
pub struct PatternPart {
    pub field: Option<String>,
    pub bind: Binding,
}

/// The mathematical model of a pattern position.
pub struct SpecPatternPart {
    pub field: Option<Seq<char>>,
    pub bind: SpecBinding,
}

impl DeepView for PatternPart {
    type V = SpecPatternPart;

    open spec fn deep_view(&self) -> SpecPatternPart {
        SpecPatternPart { field: self.field.deep_view(), bind: self.bind.deep_view() }
    }
}

/// A whole destructuring pattern: parenthesized for positional members,
/// braced for named members.
pub struct Pattern {
    pub named: bool,
    pub parts: Vec<PatternPart>,
}

/// The mathematical model of a pattern.
pub struct SpecPattern {
    pub named: bool,
    pub parts: Seq<SpecPatternPart>,
}

impl DeepView for Pattern {
    type V = SpecPattern;

    open spec fn deep_view(&self) -> SpecPattern {
        SpecPattern { named: self.named, parts: self.parts.deep_view() }
    }
}

/// Which sink style an emission writes into: tuple-style parentheses or
/// struct-style braces.
#[derive(Clone, Copy, PartialEq, Eq, Structural)]
pub enum SinkStyle {
    TupleStyle,
    StructStyle,
}

/// One emission step, referring to the member it renders by declaration
/// position.
pub enum EmitStep {
    /// Write the host's evaluation of the member's template in place of the
    /// member; nothing of the member's own rendering is used.
    Substituted { index: usize, name: Option<String>, template: Template },
    /// Call through the capability-dispatch shim for the member bound under
    /// `binding`, falling back to the opaque `replacement` text where the
    /// member's type lacks the contract's capability.
    Dispatch { index: usize, name: Option<String>, binding: String, ty: String, replacement: String },
}

/// The mathematical model of an emission step.
pub enum SpecEmitStep {
    Substituted { index: int, name: Option<Seq<char>>, template: SpecTemplate },
    Dispatch {
        index: int,
        name: Option<Seq<char>>,
        binding: Seq<char>,
        ty: Seq<char>,
        replacement: Seq<char>,
    },
}

impl DeepView for EmitStep {
    type V = SpecEmitStep;

    open spec fn deep_view(&self) -> SpecEmitStep {
        match self {
            EmitStep::Substituted { index, name, template } => SpecEmitStep::Substituted {
                index: *index as int,
                name: name.deep_view(),
                template: template.deep_view(),
            },
            EmitStep::Dispatch { index, name, binding, ty, replacement } => SpecEmitStep::Dispatch {
                index: *index as int,
                name: name.deep_view(),
                binding: binding.deep_view(),
                ty: ty.deep_view(),
                replacement: replacement.deep_view(),
            },
        }
    }
}

/// A synthesized emission: the sink's label, its style, and the steps that
/// write into it, in declaration order of the members they render.
pub struct Emission {
    pub label: String,
    pub style: SinkStyle,
    pub steps: Vec<EmitStep>,
}

/// The mathematical model of an emission.
pub struct SpecEmission {
    pub label: Seq<char>,
    pub style: SinkStyle,
    pub steps: Seq<SpecEmitStep>,
}

impl DeepView for Emission {
    type V = SpecEmission;

    open spec fn deep_view(&self) -> SpecEmission {
        SpecEmission {
            label: self.label.deep_view(),
            style: self.style,
            steps: self.steps.deep_view(),
        }
    }
}

/// The opaque placeholder for a declared type: its textual form in angle
/// brackets.
pub open spec fn spec_opaque(ty: Seq<char>) -> Seq<char> {
    "<"@ + ty + ">"@
}

/// Renders the opaque placeholder for a declared type.
pub fn opaque_object_string(ty: &str) -> (r: String)
    ensures
        r@ == spec_opaque(ty@),
{
    let mut r = String::from_str("<");
    r.append(ty);
    r.append(">");
    r
}

/// The synthesized name for positional member `i` in a dispatch
/// destructuring.
pub open spec fn spec_x_name(i: int) -> Seq<char> {
    "x"@ + spec_decimal(i as nat)
}

/// The synthesized name for positional member `i` in a template scope.
pub open spec fn spec_t_name(i: int) -> Seq<char> {
    "t"@ + spec_decimal(i as nat)
}

/// The name under which a member is emitted: its declared name in a
/// struct-style emission, nothing in a tuple-style one.
pub open spec fn spec_field_label(f: SpecFieldSpec, named: bool) -> Option<Seq<char>> {
    if named {
        f.name
    } else {
        None
    }
}

/// The name a dispatched member is bound under: its declared name, or the
/// synthesized positional name.
pub open spec fn spec_binding_name(f: SpecFieldSpec, i: int, named: bool) -> Seq<char> {
    if named {
        f.name->Some_0
    } else {
        spec_x_name(i)
    }
}

/// The pattern position for member `i` in a dispatch destructuring: bound
/// and discarded when ignored or templated, bound under its name otherwise.
pub open spec fn spec_dispatch_part(
    f: SpecFieldSpec,
    i: int,
    named: bool,
    c: Contract,
) -> SpecPatternPart {
    let cfg = spec_field_config(f.attrs, c);
    SpecPatternPart {
        field: spec_field_label(f, named),
        bind: if cfg.ignore || cfg.format is Some {
            SpecBinding::Discard
        } else {
            SpecBinding::Bind(spec_binding_name(f, i, named))
        },
    }
}

/// The dispatch destructuring pattern of a member list.
pub open spec fn spec_parts(fs: Seq<SpecFieldSpec>, named: bool, c: Contract) -> Seq<
    SpecPatternPart,
> {
    Seq::new(fs.len(), |i: int| spec_dispatch_part(fs[i], i, named, c))
}

/// The pattern position for member `i` in a template scope: every member is
/// bound, so the template may reference it (members it does not reference
/// are merely unused bindings, not errors).
pub open spec fn spec_template_part(f: SpecFieldSpec, i: int, named: bool) -> SpecPatternPart {
    SpecPatternPart {
        field: spec_field_label(f, named),
        bind: SpecBinding::Bind(
            if named {
                f.name->Some_0
            } else {
                spec_t_name(i)
            },
        ),
    }
}

/// The bind-everything pattern a template scope uses, per member layout; a
/// unit layout needs no pattern.
pub open spec fn spec_template_pattern(s: SpecFieldsShape) -> Option<SpecPattern> {
    match s {
        SpecFieldsShape::Unit => None,
        SpecFieldsShape::Ordered(fs) => Some(
            SpecPattern {
                named: false,
                parts: Seq::new(fs.len(), |i: int| spec_template_part(fs[i], i, false)),
            },
        ),
        SpecFieldsShape::Named(fs) => Some(
            SpecPattern {
                named: true,
                parts: Seq::new(fs.len(), |i: int| spec_template_part(fs[i], i, true)),
            },
        ),
    }
}

/// The emission steps of a member list, in declaration order: ignored
/// members yield no step, templated members a substitution step, all others
/// a dispatch step.
pub open spec fn spec_steps(fs: Seq<SpecFieldSpec>, named: bool, c: Contract) -> Seq<SpecEmitStep>
    decreases fs.len(),
{
    if fs.len() == 0 {
        Seq::empty()
    } else {
        let prev = spec_steps(fs.drop_last(), named, c);
        let i = fs.len() - 1;
        let f = fs.last();
        let cfg = spec_field_config(f.attrs, c);
        if cfg.ignore {
            prev
        } else {
            match cfg.format {
                Some(t) => prev.push(
                    SpecEmitStep::Substituted {
                        index: i as int,
                        name: spec_field_label(f, named),
                        template: t,
                    },
                ),
                None => prev.push(
                    SpecEmitStep::Dispatch {
                        index: i as int,
                        name: spec_field_label(f, named),
                        binding: spec_binding_name(f, i as int, named),
                        ty: f.ty,
                        replacement: spec_opaque(f.ty),
                    },
                ),
            }
        }
    }
}

/// The whole emission synthesized for an entity with the given member list.
pub open spec fn spec_emission(
    label: Seq<char>,
    fs: Seq<SpecFieldSpec>,
    named: bool,
    c: Contract,
) -> SpecEmission {
    SpecEmission {
        label,
        style: if named {
            SinkStyle::StructStyle
        } else {
            SinkStyle::TupleStyle
        },
        steps: spec_steps(fs, named, c),
    }
}

/// The syntax errors of a member list's annotations, in declaration order.
pub open spec fn spec_fields_errors(fs: Seq<SpecFieldSpec>, c: Contract) -> Seq<SpecSyntaxError>
    decreases fs.len(),
{
    if fs.len() == 0 {
        Seq::empty()
    } else {
        spec_fields_errors(fs.drop_last(), c) + spec_field_errors(fs.last().attrs, c)
    }
}

/// Whether every member of a named layout carries its declared name (a
/// named member always does; the model keeps the obligation explicit).
pub open spec fn fields_named(fs: Seq<SpecFieldSpec>) -> bool {
    forall|i: int| 0 <= i < fs.len() ==> fs[i].name is Some
}

/// Whether a member layout is well formed: named members carry names.
pub open spec fn layout_wf(s: SpecFieldsShape) -> bool {
    match s {
        SpecFieldsShape::Named(fs) => fields_named(fs),
        _ => true,
    }
}

/// Synthesizes the emission of a unit-shaped entity: open a struct-style
/// sink under the entity's name, then close it.
pub fn process_unit(name: &str) -> (r: Emission)
    ensures
        r.deep_view() == spec_emission(name@, Seq::empty(), true, Contract::Debug),
        r.deep_view() == spec_emission(name@, Seq::empty(), true, Contract::Display),
        r.deep_view().steps.len() == 0,
{
    let r = Emission {
        label: String::from_str(name),
        style: SinkStyle::StructStyle,
        steps: Vec::new(),
    };
    proof {
        assert(r.steps.deep_view() =~= Seq::<SpecEmitStep>::empty());
    }
    r
}

/// Synthesizes the pattern and emission of an ordered-member entity,
/// collecting the members' annotation errors in declaration order.
pub fn process_tuple(
    name: &str,
    fields: &Vec<FieldSpec>,
    c: Contract,
    errors: &mut Vec<SyntaxError>,
) -> (r: (Pattern, Emission))
    ensures
        r.0.deep_view() == (SpecPattern { named: false, parts: spec_parts(fields.deep_view(), false, c) }),
        r.1.deep_view() == spec_emission(name@, fields.deep_view(), false, c),
        final(errors).deep_view() == old(errors).deep_view() + spec_fields_errors(
            fields.deep_view(),
            c,
        ),
{
    let ghost fs = fields.deep_view();
    let ghost orig = errors.deep_view();
    let mut parts: Vec<PatternPart> = Vec::new();
    let mut steps: Vec<EmitStep> = Vec::new();
    let mut i: usize = 0;
    while i < fields.len()
        invariant
            i <= fields@.len(),
            fs == fields.deep_view(),
            fs.len() == fields@.len(),
            parts.deep_view() == spec_parts(fs.take(i as int), false, c),
            steps.deep_view() == spec_steps(fs.take(i as int), false, c),
            errors.deep_view() == orig + spec_fields_errors(fs.take(i as int), c),
        decreases fields@.len() - i,
    {
        let f = &fields[i];
        let cfg = FieldAttribute::resolve(&f.attrs, c, errors);
        if cfg.ignore {
            push_deep(&mut parts, PatternPart { field: None, bind: Binding::Discard });
        } else {
            match cfg.format {
                Some(t) => {
                    push_deep(&mut parts, PatternPart { field: None, bind: Binding::Discard });
                    push_deep(
                        &mut steps,
                        EmitStep::Substituted { index: i, name: None, template: t },
                    );
                },
                None => {
                    let mut b = String::from_str("x");
                    b.append(decimal_string(i).as_str());
                    let binding = String::from_str(b.as_str());
                    let replacement = opaque_object_string(f.ty.as_str());
                    let ty = String::from_str(f.ty.as_str());
                    push_deep(&mut parts, PatternPart { field: None, bind: Binding::Bind(b) });
                    push_deep(
                        &mut steps,
                        EmitStep::Dispatch { index: i, name: None, binding, ty, replacement },
                    );
                },
            }
        }
        i = i + 1;
        proof {
            lemma_fields_take_step(fs, i as int, false, c);
        }
    }
    proof {
        assert(fs.take(fields@.len() as int) =~= fs);
    }
    let pattern = Pattern { named: false, parts };
    let emission = Emission { label: String::from_str(name), style: SinkStyle::TupleStyle, steps };
    (pattern, emission)
}

/// Synthesizes the pattern and emission of a named-member entity,
/// collecting the members' annotation errors in declaration order.
pub fn process_struct(
    name: &str,
    fields: &Vec<FieldSpec>,
    c: Contract,
    errors: &mut Vec<SyntaxError>,
) -> (r: (Pattern, Emission))
    requires
        fields_named(fields.deep_view()),
    ensures
        r.0.deep_view() == (SpecPattern { named: true, parts: spec_parts(fields.deep_view(), true, c) }),
        r.1.deep_view() == spec_emission(name@, fields.deep_view(), true, c),
        final(errors).deep_view() == old(errors).deep_view() + spec_fields_errors(
            fields.deep_view(),
            c,
        ),
{
    let ghost fs = fields.deep_view();
    let ghost orig = errors.deep_view();
    let mut parts: Vec<PatternPart> = Vec::new();
    let mut steps: Vec<EmitStep> = Vec::new();
    let mut i: usize = 0;
    while i < fields.len()
        invariant
            i <= fields@.len(),
            fs == fields.deep_view(),
            fs.len() == fields@.len(),
            fields_named(fs),
            parts.deep_view() == spec_parts(fs.take(i as int), true, c),
            steps.deep_view() == spec_steps(fs.take(i as int), true, c),
            errors.deep_view() == orig + spec_fields_errors(fs.take(i as int), c),
        decreases fields@.len() - i,
    {
        let f = &fields[i];
        proof {
            assert(fs[i as int].name is Some);
        }
        let n: &String = match &f.name {
            Some(n) => n,
            None => vstd::pervasive::unreached(),
        };
        let cfg = FieldAttribute::resolve(&f.attrs, c, errors);
        if cfg.ignore {
            push_deep(
                &mut parts,
                PatternPart {
                    field: Some(String::from_str(n.as_str())),
                    bind: Binding::Discard,
                },
            );
        } else {
            match cfg.format {
                Some(t) => {
                    push_deep(
                        &mut parts,
                        PatternPart {
                            field: Some(String::from_str(n.as_str())),
                            bind: Binding::Discard,
                        },
                    );
                    push_deep(
                        &mut steps,
                        EmitStep::Substituted {
                            index: i,
                            name: Some(String::from_str(n.as_str())),
                            template: t,
                        },
                    );
                },
                None => {
                    let replacement = opaque_object_string(f.ty.as_str());
                    let ty = String::from_str(f.ty.as_str());
                    push_deep(
                        &mut parts,
                        PatternPart {
                            field: Some(String::from_str(n.as_str())),
                            bind: Binding::Bind(String::from_str(n.as_str())),
                        },
                    );
                    push_deep(
                        &mut steps,
                        EmitStep::Dispatch {
                            index: i,
                            name: Some(String::from_str(n.as_str())),
                            binding: String::from_str(n.as_str()),
                            ty,
                            replacement,
                        },
                    );
                },
            }
        }
        i = i + 1;
        proof {
            lemma_fields_take_step(fs, i as int, true, c);
        }
    }
    proof {
        assert(fs.take(fields@.len() as int) =~= fs);
    }
    let pattern = Pattern { named: true, parts };
    let emission = Emission { label: String::from_str(name), style: SinkStyle::StructStyle, steps };
    (pattern, emission)
}

/// Builds the bind-everything pattern a template scope uses.
pub fn template_pattern(s: &FieldsShape) -> (r: Option<Pattern>)
    requires
        layout_wf(s.deep_view()),
    ensures
        r.deep_view() == spec_template_pattern(s.deep_view()),
{
    let (named, fields): (bool, &Vec<FieldSpec>) = match s {
        FieldsShape::Unit => {
            return None;
        },
        FieldsShape::Ordered(fs) => (false, fs),
        FieldsShape::Named(fs) => (true, fs),
    };
    let ghost fs = fields.deep_view();
    let mut parts: Vec<PatternPart> = Vec::new();
    let mut i: usize = 0;
    while i < fields.len()
        invariant
            i <= fields@.len(),
            fs == fields.deep_view(),
            fs.len() == fields@.len(),
            named ==> fields_named(fs),
            parts.deep_view() == Seq::new(i as nat, |j: int| spec_template_part(fs[j], j, named)),
        decreases fields@.len() - i,
    {
        let f = &fields[i];
        if named {
            proof {
                assert(fs[i as int].name is Some);
            }
            let n: &String = match &f.name {
                Some(n) => n,
                None => vstd::pervasive::unreached(),
            };
            push_deep(
                &mut parts,
                PatternPart {
                    field: Some(String::from_str(n.as_str())),
                    bind: Binding::Bind(String::from_str(n.as_str())),
                },
            );
        } else {
            let mut b = String::from_str("t");
            b.append(decimal_string(i).as_str());
            push_deep(&mut parts, PatternPart { field: None, bind: Binding::Bind(b) });
        }
        i = i + 1;
        proof {
            assert(parts.deep_view() =~= Seq::new(
                i as nat,
                |j: int| spec_template_part(fs[j], j, named),
            ));
        }
    }
    proof {
        assert(Seq::new(fields@.len() as nat, |j: int| spec_template_part(fs[j], j, named))
            =~= Seq::new(fs.len(), |j: int| spec_template_part(fs[j], j, named)));
    }
    Some(Pattern { named, parts })
}

/// One synthesis step of the member loop, seen from the specification side:
/// extending the processed prefix by one member extends the pattern, the
/// steps and the errors by that member's contribution.
proof fn lemma_fields_take_step(fs: Seq<SpecFieldSpec>, i: int, named: bool, c: Contract)
    requires
        1 <= i <= fs.len(),
    ensures
        spec_parts(fs.take(i), named, c) == spec_parts(fs.take(i - 1), named, c).push(
            spec_dispatch_part(fs[i - 1], i - 1, named, c),
        ),
        spec_steps(fs.take(i), named, c) == {
            let cfg = spec_field_config(fs[i - 1].attrs, c);
            if cfg.ignore {
                spec_steps(fs.take(i - 1), named, c)
            } else {
                match cfg.format {
                    Some(t) => spec_steps(fs.take(i - 1), named, c).push(
                        SpecEmitStep::Substituted {
                            index: i - 1,
                            name: spec_field_label(fs[i - 1], named),
                            template: t,
                        },
                    ),
                    None => spec_steps(fs.take(i - 1), named, c).push(
                        SpecEmitStep::Dispatch {
                            index: i - 1,
                            name: spec_field_label(fs[i - 1], named),
                            binding: spec_binding_name(fs[i - 1], i - 1, named),
                            ty: fs[i - 1].ty,
                            replacement: spec_opaque(fs[i - 1].ty),
                        },
                    ),
                }
            }
        },
        spec_fields_errors(fs.take(i), c) == spec_fields_errors(fs.take(i - 1), c)
            + spec_field_errors(fs[i - 1].attrs, c),
{
    assert(fs.take(i).drop_last() =~= fs.take(i - 1));
    assert(fs.take(i).last() == fs[i - 1]);
    assert(spec_parts(fs.take(i), named, c) =~= spec_parts(fs.take(i - 1), named, c).push(
        spec_dispatch_part(fs[i - 1], i - 1, named, c),
    ));
}

/// The plan for one enum variant: a whole-variant template replaces the
/// variant's default rendering entirely; otherwise the variant's own member
/// layout is synthesized like a struct shape.
pub struct VariantPlan {
    pub name: String,
    pub pattern: Option<Pattern>,
    pub body: VariantBody,
}

/// What a variant's match arm does.
pub enum VariantBody {
    /// Write the host's evaluation of the variant's template.
    Template(Template),
    /// Run the variant's synthesized emission.
    Emit(Emission),
}

/// The mathematical model of a variant plan.
pub struct SpecVariantPlan {
    pub name: Seq<char>,
    pub pattern: Option<SpecPattern>,
    pub body: SpecVariantBody,
}

/// The mathematical model of a variant body.
pub enum SpecVariantBody {
    Template(SpecTemplate),
    Emit(SpecEmission),
}

impl DeepView for VariantBody {
    type V = SpecVariantBody;

    open spec fn deep_view(&self) -> SpecVariantBody {
        match self {
            VariantBody::Template(t) => SpecVariantBody::Template(t.deep_view()),
            VariantBody::Emit(e) => SpecVariantBody::Emit(e.deep_view()),
        }
    }
}

impl DeepView for VariantPlan {
    type V = SpecVariantPlan;

    open spec fn deep_view(&self) -> SpecVariantPlan {
        SpecVariantPlan {
            name: self.name.deep_view(),
            pattern: self.pattern.deep_view(),
            body: self.body.deep_view(),
        }
    }
}

/// The plan synthesized for one variant under one contract.
pub open spec fn spec_variant_plan(v: SpecVariantSpec, c: Contract) -> SpecVariantPlan {
    match spec_simple_config(v.attrs, c) {
        Some(t) => SpecVariantPlan {
            name: v.name,
            pattern: spec_template_pattern(v.fields),
            body: SpecVariantBody::Template(t),
        },
        None => match v.fields {
            SpecFieldsShape::Unit => SpecVariantPlan {
                name: v.name,
                pattern: None,
                body: SpecVariantBody::Emit(spec_emission(v.name, Seq::empty(), true, c)),
            },
            SpecFieldsShape::Ordered(fs) => SpecVariantPlan {
                name: v.name,
                pattern: Some(SpecPattern { named: false, parts: spec_parts(fs, false, c) }),
                body: SpecVariantBody::Emit(spec_emission(v.name, fs, false, c)),
            },
            SpecFieldsShape::Named(fs) => SpecVariantPlan {
                name: v.name,
                pattern: Some(SpecPattern { named: true, parts: spec_parts(fs, true, c) }),
                body: SpecVariantBody::Emit(spec_emission(v.name, fs, true, c)),
            },
        },
    }
}

/// The syntax errors one variant contributes: its own annotations' errors,
/// then — only where no variant template short-circuits its members — its
/// members' errors, in declaration order.
pub open spec fn spec_variant_errors(v: SpecVariantSpec, c: Contract) -> Seq<SpecSyntaxError> {
    spec_simple_errors(v.attrs, c) + (match spec_simple_config(v.attrs, c) {
        Some(_) => Seq::empty(),
        None => match v.fields {
            SpecFieldsShape::Ordered(fs) => spec_fields_errors(fs, c),
            SpecFieldsShape::Named(fs) => spec_fields_errors(fs, c),
            SpecFieldsShape::Unit => Seq::empty(),
        },
    })
}

/// The syntax errors of a whole variant list, in declaration order.
pub open spec fn spec_variants_errors(vs: Seq<SpecVariantSpec>, c: Contract) -> Seq<
    SpecSyntaxError,
>
    decreases vs.len(),
{
    if vs.len() == 0 {
        Seq::empty()
    } else {
        spec_variants_errors(vs.drop_last(), c) + spec_variant_errors(vs.last(), c)
    }
}

/// Synthesizes the plan of one variant, collecting its annotation errors.
pub fn process_variant(v: &VariantSpec, c: Contract, errors: &mut Vec<SyntaxError>) -> (r:
    VariantPlan)
    requires
        layout_wf(v.fields.deep_view()),
    ensures
        r.deep_view() == spec_variant_plan(v.deep_view(), c),
        final(errors).deep_view() == old(errors).deep_view() + spec_variant_errors(
            v.deep_view(),
            c,
        ),
{
    let cfg = VariantAttribute::resolve(&v.attrs, c, errors);
    match cfg.format {
        Some(t) => VariantPlan {
            name: String::from_str(v.name.as_str()),
            pattern: template_pattern(&v.fields),
            body: VariantBody::Template(t),
        },
        None => match &v.fields {
            FieldsShape::Unit => VariantPlan {
                name: String::from_str(v.name.as_str()),
                pattern: None,
                body: VariantBody::Emit(process_unit(v.name.as_str())),
            },
            FieldsShape::Ordered(fs) => {
                let (p, e) = process_tuple(v.name.as_str(), fs, c, errors);
                VariantPlan {
                    name: String::from_str(v.name.as_str()),
                    pattern: Some(p),
                    body: VariantBody::Emit(e),
                }
            },
            FieldsShape::Named(fs) => {
                let (p, e) = process_struct(v.name.as_str(), fs, c, errors);
                VariantPlan {
                    name: String::from_str(v.name.as_str()),
                    pattern: Some(p),
                    body: VariantBody::Emit(e),
                }
            },
        },
    }
}

} // verus!
