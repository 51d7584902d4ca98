//! The generic-parameter projector: a pure function from a type's declared
//! parameter list to the three textual forms an implementation header needs.
//!
//! `params_bare` keeps only the bindable names (for the use site);
//! `params_no_defaults` keeps bounds but drops defaults (defaults are
//! illegal in an implementation header); the where clause passes through
//! unchanged. There is no failure mode: no generics yield three empty
//! projections.

use vstd::prelude::*;

verus! {

/// One declared generic parameter, in textual form. Lifetime names carry
/// their leading tick; bounds and defaults are kept as raw source text.
pub enum GenericParam {
    Lifetime { name: String, bounds: Option<String> },
    Type { name: String, bounds: Option<String>, default: Option<String> },
    Const { name: String, ty: String, default: Option<String> },
}

/// The mathematical model of a generic parameter.
pub enum SpecGenericParam {
    Lifetime { name: Seq<char>, bounds: Option<Seq<char>> },
    Type { name: Seq<char>, bounds: Option<Seq<char>>, default: Option<Seq<char>> },
    Const { name: Seq<char>, ty: Seq<char>, default: Option<Seq<char>> },
}

impl DeepView for GenericParam {
    type V = SpecGenericParam;

    open spec fn deep_view(&self) -> SpecGenericParam {
        match self {
            GenericParam::Lifetime { name, bounds } => SpecGenericParam::Lifetime {
                name: name.deep_view(),
                bounds: bounds.deep_view(),
            },
            GenericParam::Type { name, bounds, default } => SpecGenericParam::Type {
                name: name.deep_view(),
                bounds: bounds.deep_view(),
                default: default.deep_view(),
            },
            GenericParam::Const { name, ty, default } => SpecGenericParam::Const {
                name: name.deep_view(),
                ty: ty.deep_view(),
                default: default.deep_view(),
            },
        }
    }
}

/// A type's declared parameter list and where clause.
pub struct Generics {
    pub params: Vec<GenericParam>,
    pub where_clause: Option<String>,
}

/// The mathematical model of a declared parameter list.
pub struct SpecGenerics {
    pub params: Seq<SpecGenericParam>,
    pub where_clause: Option<Seq<char>>,
}

impl DeepView for Generics {
    type V = SpecGenerics;

    open spec fn deep_view(&self) -> SpecGenerics {
        SpecGenerics { params: self.params.deep_view(), where_clause: self.where_clause.deep_view() }
    }
}

/// The bare projection of one parameter: only its bindable name.
pub open spec fn spec_param_bare(p: SpecGenericParam) -> Seq<char> {
    match p {
        SpecGenericParam::Lifetime { name, .. } => name,
        SpecGenericParam::Type { name, .. } => name,
        SpecGenericParam::Const { name, .. } => name,
    }
}

/// The declaration-site projection of one parameter: its name with its
/// bounds kept and its default dropped.
pub open spec fn spec_param_no_defaults(p: SpecGenericParam) -> Seq<char> {
    match p {
        SpecGenericParam::Lifetime { name, bounds } => match bounds {
            Some(b) => name + ": "@ + b,
            None => name,
        },
        SpecGenericParam::Type { name, bounds, .. } => match bounds {
            Some(b) => name + ": "@ + b,
            None => name,
        },
        SpecGenericParam::Const { name, ty, .. } => "const "@ + name + ": "@ + ty,
    }
}

/// The comma-joined bare projection of a whole parameter list.
pub open spec fn spec_params_bare(ps: Seq<SpecGenericParam>) -> Seq<char> {
    crate::text::spec_join_comma(ps.map_values(|p: SpecGenericParam| spec_param_bare(p)))
}

/// The comma-joined declaration-site projection of a whole parameter list.
pub open spec fn spec_params_no_defaults(ps: Seq<SpecGenericParam>) -> Seq<char> {
    crate::text::spec_join_comma(ps.map_values(|p: SpecGenericParam| spec_param_no_defaults(p)))
}

/// The where clause, passed through unchanged; absence projects to nothing.
pub open spec fn spec_where_clause(w: Option<Seq<char>>) -> Seq<char> {
    match w {
        Some(t) => t,
        None => Seq::empty(),
    }
}

/// The three textual forms derived from a type's declared parameters.
pub struct GenericVariants {
    pub params_bare: String,
    pub params_no_defaults: String,
    pub where_clause: String,
}

/// Renders the declaration-site form of one parameter.
fn param_no_defaults(p: &GenericParam) -> (r: String)
    ensures
        r@ == spec_param_no_defaults(p.deep_view()),
{
    match p {
        GenericParam::Lifetime { name, bounds } | GenericParam::Type { name, bounds, .. } => {
            let mut r = String::from_str(name.as_str());
            match bounds {
                Some(b) => {
                    r.append(": ");
                    r.append(b.as_str());
                },
                None => {},
            }
            r
        },
        GenericParam::Const { name, ty, .. } => {
            let mut r = String::from_str("const ");
            r.append(name.as_str());
            r.append(": ");
            r.append(ty.as_str());
            r
        },
    }
}

impl GenericVariants {
    /// Projects a declared parameter list into the three forms.
    pub fn new(generics: &Generics) -> (r: GenericVariants)
        ensures
            r.params_bare@ == spec_params_bare(generics.deep_view().params),
            r.params_no_defaults@ == spec_params_no_defaults(generics.deep_view().params),
            r.where_clause@ == spec_where_clause(generics.deep_view().where_clause),
    {
        let ghost ps = generics.deep_view().params;
        let mut bare = String::new();
        let mut no_defaults = String::new();
        let mut i: usize = 0;
        while i < generics.params.len()
            invariant
                i <= generics.params@.len(),
                ps == generics.deep_view().params,
                ps.len() == generics.params@.len(),
                bare@ == spec_params_bare(ps.take(i as int)),
                no_defaults@ == spec_params_no_defaults(ps.take(i as int)),
            decreases generics.params@.len() - i,
        {
            let p = &generics.params[i];
            let name: &String = match p {
                GenericParam::Lifetime { name, .. } => name,
                GenericParam::Type { name, .. } => name,
                GenericParam::Const { name, .. } => name,
            };
            crate::text::join_push(&mut bare, name.as_str(), i == 0);
            let nd = param_no_defaults(p);
            crate::text::join_push(&mut no_defaults, nd.as_str(), i == 0);
            i = i + 1;
            proof {
                let m = |q: SpecGenericParam| spec_param_bare(q);
                let m2 = |q: SpecGenericParam| spec_param_no_defaults(q);
                assert(ps.take(i as int).map_values(m).drop_last() =~= ps.take(i - 1).map_values(
                    m,
                ));
                assert(ps.take(i as int).map_values(m2).drop_last() =~= ps.take(i - 1).map_values(
                    m2,
                ));
                assert(ps.take(i as int).map_values(m).last() == spec_param_bare(ps[i - 1]));
                assert(ps.take(i as int).map_values(m2).last() == spec_param_no_defaults(
                    ps[i - 1],
                ));
            }
        }
        proof {
            assert(ps.take(generics.params@.len() as int) =~= ps);
        }
        let where_clause = match &generics.where_clause {
            Some(w) => String::from_str(w.as_str()),
            None => String::new(),
        };
        GenericVariants { params_bare: bare, params_no_defaults: no_defaults, where_clause }
    }
}

} // verus!
