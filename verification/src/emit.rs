//! The emitted implementation source: the synthesized plan printed back as
//! the Rust text the derivation hands to the host compiler, pinned
//! character by character.
//!
//! Templates pass through verbatim — their tokens are printed as they
//! stood in the annotation, with no added escaping or quoting.

use vstd::prelude::*;

use crate::Contract;
use crate::attribute::{SpecTemplate, Template};
use crate::driver::{FmtImpl, RenderPlan, SpecRenderPlan, spec_impl_header};
use crate::syntax::SpecToken;
use crate::synthesize::{
    Binding, EmitStep, Emission, Pattern, SinkStyle, SpecBinding, SpecEmission, SpecEmitStep,
    SpecPattern, SpecPatternPart, SpecVariantPlan, VariantBody, VariantPlan,
};

verus! {

/// Payload tokens printed in order, each preceded by one space.
pub open spec fn spec_tokens_text(toks: Seq<SpecToken>) -> Seq<char>
    decreases toks.len(),
{
    if toks.len() == 0 {
        Seq::empty()
    } else {
        spec_tokens_text(toks.drop_last()) + " "@ + toks.last().text
    }
}

/// A template printed verbatim: the literal as written, then the rest of
/// the payload.
pub open spec fn spec_template_text(t: SpecTemplate) -> Seq<char> {
    t.text + spec_tokens_text(t.rest)
}

/// A name in string-literal position (names are plain identifiers, so
/// quoting them is bracketing alone).
pub open spec fn spec_quoted(s: Seq<char>) -> Seq<char> {
    "\""@ + s + "\""@
}

/// One destructuring position as written: the member name with `_` or its
/// binding, shorthand where the two coincide; a bare binding for a
/// positional member.
pub open spec fn spec_part_text(p: SpecPatternPart) -> Seq<char> {
    match p.field {
        Some(n) => match p.bind {
            SpecBinding::Discard => n + ": _"@,
            SpecBinding::Bind(b) => if b == n {
                n
            } else {
                n + ": "@ + b
            },
        },
        None => match p.bind {
            SpecBinding::Discard => "_"@,
            SpecBinding::Bind(b) => b,
        },
    }
}

/// The positions of a pattern, each with a trailing comma.
pub open spec fn spec_parts_text(parts: Seq<SpecPatternPart>) -> Seq<char>
    decreases parts.len(),
{
    if parts.len() == 0 {
        Seq::empty()
    } else {
        spec_parts_text(parts.drop_last()) + spec_part_text(parts.last()) + ", "@
    }
}

/// A whole destructuring pattern: braced for named members, parenthesized
/// for positional ones.
pub open spec fn spec_pattern_text(p: SpecPattern) -> Seq<char> {
    if p.named {
        "{ "@ + spec_parts_text(p.parts) + "}"@
    } else {
        "("@ + spec_parts_text(p.parts) + ")"@
    }
}

/// The shim entry a contract's emission calls through.
pub open spec fn spec_shim_path(c: Contract) -> Seq<char> {
    match c {
        Contract::Debug => "_rt::DebugOrReplacement"@,
        Contract::Display => "_rt::DisplayOrReplacement"@,
    }
}

/// One emission step as written: a template write through the adapter, or
/// a call through the dispatch shim.
pub open spec fn spec_step_code(s: SpecEmitStep, c: Contract) -> Seq<char> {
    match s {
        SpecEmitStep::Substituted { name, template, .. } => match name {
            Some(n) => "w.field("@ + spec_quoted(n) + ", &_rt::DebugDisplay(&::core::format_args!("@
                + spec_template_text(template) + ")));"@,
            None => "w.field(&_rt::DebugDisplay(&::core::format_args!("@ + spec_template_text(
                template,
            ) + ")));"@,
        },
        SpecEmitStep::Dispatch { name, binding, ty, replacement, .. } => match name {
            Some(n) => spec_shim_path(c) + "::<"@ + ty + ">(&"@ + binding + ").struct_field("@
                + spec_quoted(n) + ", "@ + spec_quoted(replacement) + ", &mut w);"@,
            None => spec_shim_path(c) + "::<"@ + ty + ">(&"@ + binding + ").tuple_field("@
                + spec_quoted(replacement) + ", &mut w);"@,
        },
    }
}

/// The steps of an emission, each followed by one space.
pub open spec fn spec_steps_code(steps: Seq<SpecEmitStep>, c: Contract) -> Seq<char>
    decreases steps.len(),
{
    if steps.len() == 0 {
        Seq::empty()
    } else {
        spec_steps_code(steps.drop_last(), c) + spec_step_code(steps.last(), c) + " "@
    }
}

/// A whole emission as written: open the style's sink under the label, run
/// the steps, close it.
pub open spec fn spec_emission_code(e: SpecEmission, c: Contract) -> Seq<char> {
    "use _rt::Replacement; let mut w = f."@ + (match e.style {
        SinkStyle::TupleStyle => "debug_tuple("@,
        SinkStyle::StructStyle => "debug_struct("@,
    }) + spec_quoted(e.label) + "); "@ + spec_steps_code(e.steps, c) + "w.finish()"@
}

/// One variant's match arm as written.
pub open spec fn spec_arm_code(vp: SpecVariantPlan, c: Contract) -> Seq<char> {
    "Self::"@ + vp.name + (match vp.pattern {
        Some(p) => " "@ + spec_pattern_text(p),
        None => Seq::empty(),
    }) + " => { "@ + (match vp.body {
        crate::synthesize::SpecVariantBody::Template(t) => "::core::write!(f, "@
            + spec_template_text(t) + ")"@,
        crate::synthesize::SpecVariantBody::Emit(e) => spec_emission_code(e, c),
    }) + " } "@
}

/// The arms of an enum body, in declaration order.
pub open spec fn spec_arms_code(vps: Seq<SpecVariantPlan>, c: Contract) -> Seq<char>
    decreases vps.len(),
{
    if vps.len() == 0 {
        Seq::empty()
    } else {
        spec_arms_code(vps.drop_last(), c) + spec_arm_code(vps.last(), c)
    }
}

/// The body of the synthesized method, per plan.
pub open spec fn spec_body_code(p: SpecRenderPlan, c: Contract, item: Seq<char>) -> Seq<char> {
    match p {
        SpecRenderPlan::Template { pattern, template } => match pattern {
            Some(pat) => "#[allow(unused_variables)] let "@ + item + " "@ + spec_pattern_text(pat)
                + " = self; ::core::write!(f, "@ + spec_template_text(template) + ")"@,
            None => "::core::write!(f, "@ + spec_template_text(template) + ")"@,
        },
        SpecRenderPlan::Opaque(text) => "::core::write!(f, "@ + spec_quoted(text) + ")"@,
        SpecRenderPlan::Unreachable => "::core::unreachable!()"@,
        SpecRenderPlan::Structure { pattern, emission } => match pattern {
            Some(pat) => "let "@ + item + " "@ + spec_pattern_text(pat) + " = self; "@
                + spec_emission_code(emission, c),
            None => "f.debug_struct("@ + spec_quoted(emission.label) + ").finish()"@,
        },
        SpecRenderPlan::Choice(vps) => "match self { "@ + spec_arms_code(vps, c) + "}"@,
    }
}

/// The complete emitted implementation: the header, then the method
/// wrapping the shim import and the body.
pub open spec fn spec_impl_code(
    header: Seq<char>,
    rt_import: Seq<char>,
    body: Seq<char>,
) -> Seq<char> {
    header + "{ fn fmt(&self, f: &mut ::core::fmt::Formatter) -> ::core::fmt::Result { "@
        + rt_import + " "@ + body + " } }"@
}

/// Prints a template verbatim.
fn template_text(t: &Template) -> (r: String)
    ensures
        r@ == spec_template_text(t.deep_view()),
{
    let mut r = String::from_str(t.text.as_str());
    let ghost toks = t.rest.deep_view();
    let mut i: usize = 0;
    while i < t.rest.len()
        invariant
            i <= t.rest@.len(),
            toks == t.rest.deep_view(),
            toks.len() == t.rest@.len(),
            r@ == t.deep_view().text + spec_tokens_text(toks.take(i as int)),
        decreases t.rest@.len() - i,
    {
        r.append(" ");
        r.append(t.rest[i].text.as_str());
        i = i + 1;
        proof {
            assert(toks.take(i as int).drop_last() =~= toks.take(i - 1));
            assert(toks.take(i as int).last() == toks[i - 1]);
        }
    }
    proof {
        assert(toks.take(t.rest@.len() as int) =~= toks);
    }
    r
}

/// Prints a name in string-literal position.
fn quoted(s: &str) -> (r: String)
    ensures
        r@ == spec_quoted(s@),
{
    let mut r = String::from_str("\"");
    r.append(s);
    r.append("\"");
    r
}

/// Prints a destructuring pattern.
fn pattern_text(p: &Pattern) -> (r: String)
    ensures
        r@ == spec_pattern_text(p.deep_view()),
{
    let mut r = String::from_str(if p.named {
        "{ "
    } else {
        "("
    });
    let ghost parts = p.parts.deep_view();
    let ghost opened = r@;
    let mut i: usize = 0;
    while i < p.parts.len()
        invariant
            i <= p.parts@.len(),
            parts == p.parts.deep_view(),
            parts.len() == p.parts@.len(),
            r@ == opened + spec_parts_text(parts.take(i as int)),
        decreases p.parts@.len() - i,
    {
        let part = &p.parts[i];
        match (&part.field, &part.bind) {
            (Some(name), Binding::Discard) => {
                r.append(name.as_str());
                r.append(": _");
            },
            (Some(name), Binding::Bind(bind)) => {
                if *bind == *name {
                    r.append(name.as_str());
                } else {
                    r.append(name.as_str());
                    r.append(": ");
                    r.append(bind.as_str());
                }
            },
            (None, Binding::Discard) => r.append("_"),
            (None, Binding::Bind(bind)) => r.append(bind.as_str()),
        }
        r.append(", ");
        i = i + 1;
        proof {
            assert(parts.take(i as int).drop_last() =~= parts.take(i - 1));
            assert(parts.take(i as int).last() == parts[i - 1]);
        }
    }
    proof {
        assert(parts.take(p.parts@.len() as int) =~= parts);
    }
    r.append(if p.named {
        "}"
    } else {
        ")"
    });
    r
}

/// Prints one emission step.
fn step_code(s: &EmitStep, c: Contract) -> (r: String)
    ensures
        r@ == spec_step_code(s.deep_view(), c),
{
    match s {
        EmitStep::Substituted { name, template, .. } => {
            let mut r = match name {
                Some(n) => {
                    let mut r = String::from_str("w.field(");
                    r.append(quoted(n.as_str()).as_str());
                    r.append(", &_rt::DebugDisplay(&::core::format_args!(");
                    r
                },
                None => String::from_str("w.field(&_rt::DebugDisplay(&::core::format_args!("),
            };
            r.append(template_text(template).as_str());
            r.append(")));");
            r
        },
        EmitStep::Dispatch { name, binding, ty, replacement, .. } => {
            let mut r = String::from_str(match c {
                Contract::Debug => "_rt::DebugOrReplacement",
                Contract::Display => "_rt::DisplayOrReplacement",
            });
            r.append("::<");
            r.append(ty.as_str());
            r.append(">(&");
            r.append(binding.as_str());
            match name {
                Some(n) => {
                    r.append(").struct_field(");
                    r.append(quoted(n.as_str()).as_str());
                    r.append(", ");
                },
                None => {
                    r.append(").tuple_field(");
                },
            }
            r.append(quoted(replacement.as_str()).as_str());
            r.append(", &mut w);");
            r
        },
    }
}

/// Prints a whole emission.
fn emission_code(e: &Emission, c: Contract) -> (r: String)
    ensures
        r@ == spec_emission_code(e.deep_view(), c),
{
    let mut r = String::from_str("use _rt::Replacement; let mut w = f.");
    r.append(match e.style {
        SinkStyle::TupleStyle => "debug_tuple(",
        SinkStyle::StructStyle => "debug_struct(",
    });
    r.append(quoted(e.label.as_str()).as_str());
    r.append("); ");
    let ghost steps = e.steps.deep_view();
    let ghost opened = r@;
    let mut i: usize = 0;
    while i < e.steps.len()
        invariant
            i <= e.steps@.len(),
            steps == e.steps.deep_view(),
            steps.len() == e.steps@.len(),
            r@ == opened + spec_steps_code(steps.take(i as int), c),
        decreases e.steps@.len() - i,
    {
        r.append(step_code(&e.steps[i], c).as_str());
        r.append(" ");
        i = i + 1;
        proof {
            assert(steps.take(i as int).drop_last() =~= steps.take(i - 1));
            assert(steps.take(i as int).last() == steps[i - 1]);
        }
    }
    proof {
        assert(steps.take(e.steps@.len() as int) =~= steps);
    }
    r.append("w.finish()");
    r
}

/// Prints one variant's match arm.
fn arm_code(vp: &VariantPlan, c: Contract) -> (r: String)
    ensures
        r@ == spec_arm_code(vp.deep_view(), c),
{
    let mut r = String::from_str("Self::");
    r.append(vp.name.as_str());
    match &vp.pattern {
        Some(p) => {
            r.append(" ");
            r.append(pattern_text(p).as_str());
        },
        None => {},
    }
    r.append(" => { ");
    match &vp.body {
        VariantBody::Template(t) => {
            r.append("::core::write!(f, ");
            r.append(template_text(t).as_str());
            r.append(")");
        },
        VariantBody::Emit(e) => {
            r.append(emission_code(e, c).as_str());
        },
    }
    r.append(" } ");
    r
}

/// Prints the synthesized method's body.
fn body_code(plan: &RenderPlan, c: Contract, item: &str) -> (r: String)
    ensures
        r@ == spec_body_code(plan.deep_view(), c, item@),
{
    match plan {
        RenderPlan::Template { pattern, template } => {
            let mut r = match pattern {
                Some(pat) => {
                    let mut r = String::from_str("#[allow(unused_variables)] let ");
                    r.append(item);
                    r.append(" ");
                    r.append(pattern_text(pat).as_str());
                    r.append(" = self; ::core::write!(f, ");
                    r
                },
                None => String::from_str("::core::write!(f, "),
            };
            r.append(template_text(template).as_str());
            r.append(")");
            r
        },
        RenderPlan::Opaque(text) => {
            let mut r = String::from_str("::core::write!(f, ");
            r.append(quoted(text.as_str()).as_str());
            r.append(")");
            r
        },
        RenderPlan::Unreachable => String::from_str("::core::unreachable!()"),
        RenderPlan::Structure { pattern, emission } => match pattern {
            Some(pat) => {
                let mut r = String::from_str("let ");
                r.append(item);
                r.append(" ");
                r.append(pattern_text(pat).as_str());
                r.append(" = self; ");
                r.append(emission_code(emission, c).as_str());
                r
            },
            None => {
                let mut r = String::from_str("f.debug_struct(");
                r.append(quoted(emission.label.as_str()).as_str());
                r.append(").finish()");
                r
            },
        },
        RenderPlan::Choice(vps) => {
            let mut r = String::from_str("match self { ");
            let ghost plans = vps.deep_view();
            let ghost opened = r@;
            let mut i: usize = 0;
            while i < vps.len()
                invariant
                    i <= vps@.len(),
                    plans == vps.deep_view(),
                    plans.len() == vps@.len(),
                    r@ == opened + spec_arms_code(plans.take(i as int), c),
                decreases vps@.len() - i,
            {
                r.append(arm_code(&vps[i], c).as_str());
                i = i + 1;
                proof {
                    assert(plans.take(i as int).drop_last() =~= plans.take(i - 1));
                    assert(plans.take(i as int).last() == plans[i - 1]);
                }
            }
            proof {
                assert(plans.take(vps@.len() as int) =~= plans);
            }
            r.append("}");
            r
        },
    }
}

impl FmtImpl {
    /// The complete emitted implementation source for this derivation.
    pub fn source(&self) -> (r: String)
        ensures
            r@ == spec_impl_code(
                spec_impl_header(
                    self.contract,
                    self.item_name@,
                    self.generics.params_bare@,
                    self.generics.params_no_defaults@,
                    self.generics.where_clause@,
                ),
                self.rt_import@,
                spec_body_code(self.plan.deep_view(), self.contract, self.item_name@),
            ),
    {
        let mut r = self.impl_header();
        r.append("{ fn fmt(&self, f: &mut ::core::fmt::Formatter) -> ::core::fmt::Result { ");
        r.append(self.rt_import.as_str());
        r.append(" ");
        r.append(body_code(&self.plan, self.contract, self.item_name.as_str()).as_str());
        r.append(" } }");
        r
    }
}

} // verus!
