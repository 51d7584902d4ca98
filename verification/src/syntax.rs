//! The surface syntax of a customization annotation.
//!
//! An annotation is one of the recognized attribute names together with its
//! payload, a flat sequence of tokens. The grammar layer (`attribute`) reads
//! these tokens; nothing here interprets them.

use vstd::prelude::*;

verus! {

/// A half-open range of source positions, carried along so that a syntax
/// error can be pinned to the token that caused it.
#[derive(Clone, Copy, Debug, PartialEq, Eq, Structural)]
pub struct Span {
    pub start: usize,
    pub end: usize,
}

/// What kind of token a payload token is. Only the distinctions the grammar
/// needs are kept: a string literal, a bare word, or anything else.
#[derive(Clone, Copy, Debug, PartialEq, Eq, Structural)]
pub enum TokenKind {
    /// A string literal, kept exactly as it stands in the source,
    /// quotes and escapes included.
    LitStr,
    /// An identifier or keyword.
    Word,
    /// Any other token (punctuation, a number, ...), kept as raw text.
    Other,
}

/// One token of an annotation payload.
#[derive(Debug)]
pub struct AttrToken {
    pub kind: TokenKind,
    pub text: String,
    pub span: Span,
}

/// The mathematical model of a payload token.
pub struct SpecToken {
    pub kind: TokenKind,
    pub text: Seq<char>,
    pub span: Span,
}

impl DeepView for AttrToken {
    type V = SpecToken;

    open spec fn deep_view(&self) -> SpecToken {
        SpecToken { kind: self.kind, text: self.text.deep_view(), span: self.span }
    }
}

impl AttrToken {
    /// A structurally identical token (the payload is handed on untouched, so
    /// the grammar has to copy what it keeps).
    pub fn duplicate(&self) -> (r: AttrToken)
        ensures
            r.deep_view() == self.deep_view(),
    {
        AttrToken {
            kind: self.kind,
            text: String::from_str(self.text.as_str()),
            span: self.span,
        }
    }
}

/// Copies a suffix of a payload, starting at `from`.
pub fn duplicate_tokens(tokens: &Vec<AttrToken>, from: usize) -> (r: Vec<AttrToken>)
    requires
        from <= tokens.len(),
    ensures
        r.deep_view() == tokens.deep_view().skip(from as int),
{
    let mut r: Vec<AttrToken> = Vec::new();
    let mut i: usize = from;
    while i < tokens.len()
        invariant
            from <= i <= tokens.len(),
            r@.len() == i - from,
            forall|j: int|
                0 <= j < r@.len() ==> r@[j].deep_view() == tokens@[from + j].deep_view(),
        decreases tokens.len() - i,
    {
        r.push(tokens[i].duplicate());
        i = i + 1;
    }
    proof {
        assert(r.deep_view() =~= tokens.deep_view().skip(from as int));
    }
    r
}

/// The three recognized annotation names. `Fmt` addresses both formatting
/// contracts at once; the other two address one contract each.
#[derive(Clone, Copy, PartialEq, Eq, Structural)]
pub enum AttrName {
    Fmt,
    Debug,
    Display,
}

/// One customization annotation: a recognized name and its payload tokens.
/// Annotations whose name is not recognized never reach the engine.
pub struct Annotation {
    pub name: AttrName,
    pub tokens: Vec<AttrToken>,
    /// The span of the whole annotation, used when the payload ends too early.
    pub span: Span,
}

/// The mathematical model of an annotation.
pub struct SpecAnnotation {
    pub name: AttrName,
    pub tokens: Seq<SpecToken>,
    pub span: Span,
}

impl DeepView for Annotation {
    type V = SpecAnnotation;

    open spec fn deep_view(&self) -> SpecAnnotation {
        SpecAnnotation { name: self.name, tokens: self.tokens.deep_view(), span: self.span }
    }
}

/// Whether an annotation addresses the given formatting contract: `fmt`
/// addresses both, `debug` and `display` address only their own.
pub open spec fn spec_addresses(name: AttrName, contract: crate::Contract) -> bool {
    match name {
        AttrName::Fmt => true,
        AttrName::Debug => contract is Debug,
        AttrName::Display => contract is Display,
    }
}

impl AttrName {
    /// Whether this annotation name addresses the given contract.
    #[verifier::when_used_as_spec(spec_addresses_method)]
    pub fn addresses(self, contract: crate::Contract) -> (r: bool)
        ensures
            r == spec_addresses(self, contract),
    {
        match self {
            AttrName::Fmt => true,
            AttrName::Debug => matches!(contract, crate::Contract::Debug),
            AttrName::Display => matches!(contract, crate::Contract::Display),
        }
    }

    pub open spec fn spec_addresses_method(self, contract: crate::Contract) -> bool {
        spec_addresses(self, contract)
    }
}

} // verus!
