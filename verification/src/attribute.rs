//! The attribute grammar: what customization syntax is legal at each scope.
//!
//! Three sibling configuration forms exist, one per scope. They are
//! structurally identical except for which attributes are legal there:
//! a field may be ignored or given a template; a variant or the whole type
//! may only be given a template.
//!
//! The grammar of one annotation payload:
//! - an empty payload sets nothing;
//! - a payload that starts with a string literal sets the template to that
//!   literal, with everything after it handed on untouched (the template is
//!   not validated as a format string here — it may reference member names
//!   this layer does not know);
//! - at field scope only, the single keyword `ignore` sets the ignore flag;
//!   anything following `ignore` in the same payload is a syntax error;
//! - any other payload is a syntax error naming what was expected.
//!
//! Repeated annotations on one entity merge left to right, last writer wins
//! per attribute, independently per attribute. Syntax errors are collected,
//! not thrown: parsing continues so one pass reports every problem at once.

use vstd::prelude::*;

use crate::Contract;
use crate::syntax::{
    Annotation, AttrToken, SpecAnnotation, Span, TokenKind, duplicate_tokens, spec_addresses,
};

verus! {

/// A malformed annotation payload, pinned to the span that caused it.
#[derive(Debug)]
pub struct SyntaxError {
    pub message: String,
    pub span: Span,
}

/// The mathematical model of a syntax error.
pub struct SpecSyntaxError {
    pub message: Seq<char>,
    pub span: Span,
}

impl DeepView for SyntaxError {
    type V = SpecSyntaxError;

    open spec fn deep_view(&self) -> SpecSyntaxError {
        SpecSyntaxError { message: self.message.deep_view(), span: self.span }
    }
}

/// A user-supplied template: a format-string literal, as it stands in the
/// source, and whatever followed it in the payload, passed through
/// untouched.
#[derive(Debug)]
pub struct Template {
    pub text: String,
    pub rest: Vec<AttrToken>,
}

/// The mathematical model of a template.
pub struct SpecTemplate {
    pub text: Seq<char>,
    pub rest: Seq<crate::syntax::SpecToken>,
}

impl DeepView for Template {
    type V = SpecTemplate;

    open spec fn deep_view(&self) -> SpecTemplate {
        SpecTemplate { text: self.text.deep_view(), rest: self.rest.deep_view() }
    }
}

/// Field-scope configuration: an ignore flag and an optional template.
#[derive(Debug)]
pub struct FieldAttribute {
    pub ignore: bool,
    pub format: Option<Template>,
}

/// The mathematical model of a field-scope configuration.
pub struct SpecFieldAttribute {
    pub ignore: bool,
    pub format: Option<SpecTemplate>,
}

impl DeepView for FieldAttribute {
    type V = SpecFieldAttribute;

    open spec fn deep_view(&self) -> SpecFieldAttribute {
        SpecFieldAttribute { ignore: self.ignore, format: self.format.deep_view() }
    }
}

/// Type-scope configuration: an optional whole-entity template.
pub struct ItemAttribute {
    pub format: Option<Template>,
}

/// The mathematical model of a type-scope configuration.
pub struct SpecItemAttribute {
    pub format: Option<SpecTemplate>,
}

impl DeepView for ItemAttribute {
    type V = SpecItemAttribute;

    open spec fn deep_view(&self) -> SpecItemAttribute {
        SpecItemAttribute { format: self.format.deep_view() }
    }
}

/// Variant-scope configuration: an optional whole-variant template.
pub struct VariantAttribute {
    pub format: Option<Template>,
}

/// The mathematical model of a variant-scope configuration.
pub struct SpecVariantAttribute {
    pub format: Option<SpecTemplate>,
}

impl DeepView for VariantAttribute {
    type V = SpecVariantAttribute;

    open spec fn deep_view(&self) -> SpecVariantAttribute {
        SpecVariantAttribute { format: self.format.deep_view() }
    }
}

/// What a payload's template is when the payload starts with a string
/// literal: the literal as written, then the rest of the payload untouched.
pub open spec fn spec_template_of(tokens: Seq<crate::syntax::SpecToken>) -> SpecTemplate {
    SpecTemplate { text: tokens[0].text, rest: tokens.skip(1) }
}

/// The grammar at field scope, on one annotation's payload.
pub open spec fn spec_field_parse(a: SpecAnnotation) -> Result<SpecFieldAttribute, SpecSyntaxError> {
    if a.tokens.len() == 0 {
        Ok(SpecFieldAttribute { ignore: false, format: None })
    } else if a.tokens[0].kind is LitStr {
        Ok(SpecFieldAttribute { ignore: false, format: Some(spec_template_of(a.tokens)) })
    } else if a.tokens[0].kind is Word && a.tokens[0].text == "ignore"@ {
        if a.tokens.len() == 1 {
            Ok(SpecFieldAttribute { ignore: true, format: None })
        } else {
            Err(SpecSyntaxError {
                message: "unexpected tokens after `ignore`"@,
                span: a.tokens[1].span,
            })
        }
    } else {
        Err(SpecSyntaxError {
            message: "expected a string literal or `ignore`"@,
            span: a.tokens[0].span,
        })
    }
}

/// The grammar at type and variant scope, on one annotation's payload:
/// only a template (or nothing) is legal.
pub open spec fn spec_simple_parse(a: SpecAnnotation) -> Result<Option<SpecTemplate>, SpecSyntaxError> {
    if a.tokens.len() == 0 {
        Ok(None)
    } else if a.tokens[0].kind is LitStr {
        Ok(Some(spec_template_of(a.tokens)))
    } else {
        Err(SpecSyntaxError {
            message: "expected a string literal"@,
            span: a.tokens[0].span,
        })
    }
}

/// Merge of two field configurations: the later one overwrites exactly the
/// attributes it sets.
pub open spec fn spec_field_update(
    cur: SpecFieldAttribute,
    other: SpecFieldAttribute,
) -> SpecFieldAttribute {
    SpecFieldAttribute {
        ignore: cur.ignore || other.ignore,
        format: if other.format is Some {
            other.format
        } else {
            cur.format
        },
    }
}

/// Merge of two optional templates: the later one wins when set.
pub open spec fn spec_format_update(
    cur: Option<SpecTemplate>,
    other: Option<SpecTemplate>,
) -> Option<SpecTemplate> {
    if other is Some {
        other
    } else {
        cur
    }
}

/// The field configuration that a list of annotations resolves to for one
/// contract: annotations addressing the contract are parsed in declaration
/// order and merged last-writer-wins; malformed ones leave it unchanged.
pub open spec fn spec_field_config(attrs: Seq<SpecAnnotation>, c: Contract) -> SpecFieldAttribute
    decreases attrs.len(),
{
    if attrs.len() == 0 {
        SpecFieldAttribute { ignore: false, format: None }
    } else {
        let prev = spec_field_config(attrs.drop_last(), c);
        let a = attrs.last();
        if spec_addresses(a.name, c) && spec_field_parse(a) is Ok {
            spec_field_update(prev, spec_field_parse(a)->Ok_0)
        } else {
            prev
        }
    }
}

/// The template that a list of annotations resolves to for one contract, at
/// type or variant scope.
pub open spec fn spec_simple_config(attrs: Seq<SpecAnnotation>, c: Contract) -> Option<SpecTemplate>
    decreases attrs.len(),
{
    if attrs.len() == 0 {
        None
    } else {
        let prev = spec_simple_config(attrs.drop_last(), c);
        let a = attrs.last();
        if spec_addresses(a.name, c) && spec_simple_parse(a) is Ok {
            spec_format_update(prev, spec_simple_parse(a)->Ok_0)
        } else {
            prev
        }
    }
}

/// The syntax errors that a list of annotations yields for one contract, in
/// declaration order; annotations that do not address the contract yield
/// none.
pub open spec fn spec_field_errors(attrs: Seq<SpecAnnotation>, c: Contract) -> Seq<SpecSyntaxError>
    decreases attrs.len(),
{
    if attrs.len() == 0 {
        Seq::empty()
    } else {
        let prev = spec_field_errors(attrs.drop_last(), c);
        let a = attrs.last();
        if spec_addresses(a.name, c) && spec_field_parse(a) is Err {
            prev.push(spec_field_parse(a)->Err_0)
        } else {
            prev
        }
    }
}

/// As `spec_field_errors`, under the type- and variant-scope grammar.
pub open spec fn spec_simple_errors(attrs: Seq<SpecAnnotation>, c: Contract) -> Seq<SpecSyntaxError>
    decreases attrs.len(),
{
    if attrs.len() == 0 {
        Seq::empty()
    } else {
        let prev = spec_simple_errors(attrs.drop_last(), c);
        let a = attrs.last();
        if spec_addresses(a.name, c) && spec_simple_parse(a) is Err {
            prev.push(spec_simple_parse(a)->Err_0)
        } else {
            prev
        }
    }
}

/// Appends a collected error, keeping its model in step.
fn push_error(errors: &mut Vec<SyntaxError>, e: SyntaxError)
    ensures
        final(errors).deep_view() == old(errors).deep_view().push(e.deep_view()),
{
    let ghost pre = errors.deep_view();
    let ghost ev = e.deep_view();
    errors.push(e);
    proof {
        assert(errors.deep_view() =~= pre.push(ev));
    }
}

/// Reads the template out of a payload that starts with a string literal.
fn template_of(a: &Annotation) -> (r: Template)
    requires
        a.tokens@.len() > 0,
        a.deep_view().tokens[0].kind is LitStr,
    ensures
        r.deep_view() == spec_template_of(a.deep_view().tokens),
{
    let text = String::from_str(a.tokens[0].text.as_str());
    let rest = duplicate_tokens(&a.tokens, 1);
    Template { text, rest }
}

impl FieldAttribute {
    /// The configuration with nothing set.
    pub fn new() -> (r: FieldAttribute)
        ensures
            r.deep_view() == (SpecFieldAttribute { ignore: false, format: None }),
    {
        FieldAttribute { ignore: false, format: None }
    }

    /// Merges a later configuration into this one: only the attributes the
    /// later one explicitly sets are overwritten.
    pub fn update(&mut self, other: Self)
        ensures
            final(self).deep_view() == spec_field_update(old(self).deep_view(), other.deep_view()),
    {
        if other.ignore {
            self.ignore = true;
        }
        if other.format.is_some() {
            self.format = other.format;
        }
    }

    /// Parses one annotation payload under the field-scope grammar.
    pub fn parse(a: &Annotation) -> (r: Result<FieldAttribute, SyntaxError>)
        ensures
            r is Ok == spec_field_parse(a.deep_view()) is Ok,
            r matches Ok(cfg) ==> cfg.deep_view() == spec_field_parse(a.deep_view())->Ok_0,
            r matches Err(e) ==> e.deep_view() == spec_field_parse(a.deep_view())->Err_0,
    {
        if a.tokens.len() == 0 {
            Ok(FieldAttribute { ignore: false, format: None })
        } else if matches!(a.tokens[0].kind, TokenKind::LitStr) {
            Ok(FieldAttribute { ignore: false, format: Some(template_of(a)) })
        } else if matches!(a.tokens[0].kind, TokenKind::Word) && a.tokens[0].text
            == String::from_str("ignore") {
            if a.tokens.len() == 1 {
                Ok(FieldAttribute { ignore: true, format: None })
            } else {
                Err(SyntaxError {
                    message: String::from_str("unexpected tokens after `ignore`"),
                    span: a.tokens[1].span,
                })
            }
        } else {
            Err(SyntaxError {
                message: String::from_str("expected a string literal or `ignore`"),
                span: a.tokens[0].span,
            })
        }
    }

    /// Resolves a field's whole annotation list for one contract, appending
    /// any syntax errors found to `errors` in declaration order.
    pub fn resolve(attrs: &Vec<Annotation>, c: Contract, errors: &mut Vec<SyntaxError>) -> (r:
        FieldAttribute)
        ensures
            r.deep_view() == spec_field_config(attrs.deep_view(), c),
            final(errors).deep_view() == old(errors).deep_view() + spec_field_errors(
                attrs.deep_view(),
                c,
            ),
    {
        let ghost orig = errors.deep_view();
        let mut r = FieldAttribute::new();
        let mut i: usize = 0;
        while i < attrs.len()
            invariant
                i <= attrs.len(),
                r.deep_view() == spec_field_config(attrs.deep_view().take(i as int), c),
                errors.deep_view() == orig + spec_field_errors(
                    attrs.deep_view().take(i as int),
                    c,
                ),
            decreases attrs.len() - i,
        {
            let a = &attrs[i];
            if a.name.addresses(c) {
                match FieldAttribute::parse(a) {
                    Ok(cfg) => r.update(cfg),
                    Err(e) => push_error(errors, e),
                }
            }
            i = i + 1;
            proof {
                let s = attrs.deep_view();
                assert(s.take(i as int).drop_last() =~= s.take(i - 1));
                assert(s.take(i as int).last() == s[i - 1]);
                if spec_addresses(s[i - 1].name, c) && spec_field_parse(s[i - 1]) is Err {
                    assert(spec_field_errors(s.take(i as int), c) == spec_field_errors(
                        s.take(i - 1),
                        c,
                    ).push(spec_field_parse(s[i - 1])->Err_0));
                } else {
                    assert(spec_field_errors(s.take(i as int), c) == spec_field_errors(
                        s.take(i - 1),
                        c,
                    ));
                }
                assert(errors.deep_view() =~= orig + spec_field_errors(s.take(i as int), c));
            }
        }
        proof {
            assert(attrs.deep_view().take(attrs@.len() as int) =~= attrs.deep_view());
        }
        r
    }
}

impl Default for FieldAttribute {
    /// The configuration with nothing set.
    fn default() -> (r: FieldAttribute)
        ensures
            r.deep_view() == (SpecFieldAttribute { ignore: false, format: None }),
    {
        FieldAttribute { ignore: false, format: None }
    }
}

/// Parses one annotation payload under the type- and variant-scope grammar.
fn simple_parse(a: &Annotation) -> (r: Result<Option<Template>, SyntaxError>)
    ensures
        r is Ok == spec_simple_parse(a.deep_view()) is Ok,
        r matches Ok(f) ==> f.deep_view() == spec_simple_parse(a.deep_view())->Ok_0,
        r matches Err(e) ==> e.deep_view() == spec_simple_parse(a.deep_view())->Err_0,
{
    if a.tokens.len() == 0 {
        Ok(None)
    } else if matches!(a.tokens[0].kind, TokenKind::LitStr) {
        Ok(Some(template_of(a)))
    } else {
        Err(SyntaxError {
            message: String::from_str("expected a string literal"),
            span: a.tokens[0].span,
        })
    }
}

/// Resolves a type- or variant-scope annotation list for one contract,
/// appending any syntax errors found to `errors` in declaration order.
fn simple_resolve(attrs: &Vec<Annotation>, c: Contract, errors: &mut Vec<SyntaxError>) -> (r:
    Option<Template>)
    ensures
        r.deep_view() == spec_simple_config(attrs.deep_view(), c),
        final(errors).deep_view() == old(errors).deep_view() + spec_simple_errors(
            attrs.deep_view(),
            c,
        ),
{
    let ghost orig = errors.deep_view();
    let mut r: Option<Template> = None;
    let mut i: usize = 0;
    while i < attrs.len()
        invariant
            i <= attrs.len(),
            r.deep_view() == spec_simple_config(attrs.deep_view().take(i as int), c),
            errors.deep_view() == orig + spec_simple_errors(attrs.deep_view().take(i as int), c),
        decreases attrs.len() - i,
    {
        let a = &attrs[i];
        if a.name.addresses(c) {
            match simple_parse(a) {
                Ok(Some(t)) => {
                    r = Some(t);
                },
                Ok(None) => {},
                Err(e) => push_error(errors, e),
            }
        }
        i = i + 1;
        proof {
            let s = attrs.deep_view();
            assert(s.take(i as int).drop_last() =~= s.take(i - 1));
            assert(s.take(i as int).last() == s[i - 1]);
            assert(errors.deep_view() =~= orig + spec_simple_errors(s.take(i as int), c));
        }
    }
    proof {
        assert(attrs.deep_view().take(attrs@.len() as int) =~= attrs.deep_view());
    }
    r
}

impl ItemAttribute {
    /// Merges a later configuration into this one.
    pub fn update(&mut self, other: Self)
        ensures
            final(self).deep_view().format == spec_format_update(
                old(self).deep_view().format,
                other.deep_view().format,
            ),
    {
        if other.format.is_some() {
            self.format = other.format;
        }
    }

    /// Parses one annotation payload under the type-scope grammar.
    pub fn parse(a: &Annotation) -> (r: Result<ItemAttribute, SyntaxError>)
        ensures
            r is Ok == spec_simple_parse(a.deep_view()) is Ok,
            r matches Ok(cfg) ==> cfg.deep_view().format == spec_simple_parse(a.deep_view())->Ok_0,
            r matches Err(e) ==> e.deep_view() == spec_simple_parse(a.deep_view())->Err_0,
    {
        match simple_parse(a) {
            Ok(format) => Ok(ItemAttribute { format }),
            Err(e) => Err(e),
        }
    }

    /// Resolves the type's whole annotation list for one contract.
    pub fn resolve(attrs: &Vec<Annotation>, c: Contract, errors: &mut Vec<SyntaxError>) -> (r:
        ItemAttribute)
        ensures
            r.deep_view().format == spec_simple_config(attrs.deep_view(), c),
            final(errors).deep_view() == old(errors).deep_view() + spec_simple_errors(
                attrs.deep_view(),
                c,
            ),
    {
        ItemAttribute { format: simple_resolve(attrs, c, errors) }
    }
}

impl Default for ItemAttribute {
    /// The configuration with nothing set.
    fn default() -> (r: ItemAttribute)
        ensures
            r.deep_view().format is None,
    {
        ItemAttribute { format: None }
    }
}

impl VariantAttribute {
    /// Merges a later configuration into this one.
    pub fn update(&mut self, other: Self)
        ensures
            final(self).deep_view().format == spec_format_update(
                old(self).deep_view().format,
                other.deep_view().format,
            ),
    {
        if other.format.is_some() {
            self.format = other.format;
        }
    }

    /// Parses one annotation payload under the variant-scope grammar.
    pub fn parse(a: &Annotation) -> (r: Result<VariantAttribute, SyntaxError>)
        ensures
            r is Ok == spec_simple_parse(a.deep_view()) is Ok,
            r matches Ok(cfg) ==> cfg.deep_view().format == spec_simple_parse(a.deep_view())->Ok_0,
            r matches Err(e) ==> e.deep_view() == spec_simple_parse(a.deep_view())->Err_0,
    {
        match simple_parse(a) {
            Ok(format) => Ok(VariantAttribute { format }),
            Err(e) => Err(e),
        }
    }

    /// Resolves a variant's whole annotation list for one contract.
    pub fn resolve(attrs: &Vec<Annotation>, c: Contract, errors: &mut Vec<SyntaxError>) -> (r:
        VariantAttribute)
        ensures
            r.deep_view().format == spec_simple_config(attrs.deep_view(), c),
            final(errors).deep_view() == old(errors).deep_view() + spec_simple_errors(
                attrs.deep_view(),
                c,
            ),
    {
        VariantAttribute { format: simple_resolve(attrs, c, errors) }
    }
}

impl Default for VariantAttribute {
    /// The configuration with nothing set.
    fn default() -> (r: VariantAttribute)
        ensures
            r.deep_view().format is None,
    {
        VariantAttribute { format: None }
    }
}

} // verus!
