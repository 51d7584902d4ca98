//! The runtime side of a synthesized implementation: the value being
//! formatted, the sink builders it writes into, and the capability-dispatch
//! shim.
//!
//! The host language resolves the "precise rendering, else opaque
//! placeholder" choice statically, by preferring the narrower of two
//! overlapping capability-based implementations. Verification cannot inspect
//! a host type's capabilities, so here a member's capabilities are data: a
//! member carries its rendering under each capability where it has one, and
//! the shim's choice is proved instead of resolved by specialization.

use vstd::prelude::*;

use crate::Contract;
use crate::text::spec_join_comma;

verus! {

/// One member of a value, as the dispatch shim sees it: its rendering under
/// each formatting capability its concrete type possesses, and — where a
/// template is configured for the member — the host's evaluation of that
/// template with the member's siblings in scope.
pub struct MemberValue {
    /// The member's diagnostic rendering, absent when its type lacks the
    /// debug capability.
    pub debug: Option<String>,
    /// The member's user-facing rendering, absent when its type lacks the
    /// display capability.
    pub display: Option<String>,
    /// The evaluated text of the member's template; read only where the
    /// configuration sets one.
    pub substituted: String,
}

/// The mathematical model of a member value.
pub struct SpecMemberValue {
    pub debug: Option<Seq<char>>,
    pub display: Option<Seq<char>>,
    pub substituted: Seq<char>,
}

impl DeepView for MemberValue {
    type V = SpecMemberValue;

    open spec fn deep_view(&self) -> SpecMemberValue {
        SpecMemberValue {
            debug: self.debug.deep_view(),
            display: self.display.deep_view(),
            substituted: self.substituted.deep_view(),
        }
    }
}

/// What the shim renders for a member under the debug contract: the
/// member's own debug rendering when its type has the capability, else the
/// replacement text.
pub open spec fn spec_debug_or(m: SpecMemberValue, replacement: Seq<char>) -> Seq<char> {
    match m.debug {
        Some(d) => d,
        None => replacement,
    }
}

/// What the shim renders for a member under the display contract.
pub open spec fn spec_display_or(m: SpecMemberValue, replacement: Seq<char>) -> Seq<char> {
    match m.display {
        Some(d) => d,
        None => replacement,
    }
}

/// The shim's choice for a member under either contract.
pub open spec fn spec_member_rendering(
    c: Contract,
    m: SpecMemberValue,
    replacement: Seq<char>,
) -> Seq<char> {
    match c {
        Contract::Debug => spec_debug_or(m, replacement),
        Contract::Display => spec_display_or(m, replacement),
    }
}

/// A named struct-style entry, as the struct sink stores it.
pub open spec fn spec_struct_entry(name: Seq<char>, value: Seq<char>) -> Seq<char> {
    name + ": "@ + value
}

/// The finished output of a tuple-style sink: the label alone when nothing
/// was written, else the label with the entries joined in parentheses.
pub open spec fn spec_tuple_body(label: Seq<char>, entries: Seq<Seq<char>>) -> Seq<char> {
    if entries.len() == 0 {
        label
    } else {
        label + "("@ + spec_join_comma(entries) + ")"@
    }
}

/// The finished output of a struct-style sink: the label alone when nothing
/// was written, else the label with the `name: value` entries joined in
/// braces.
pub open spec fn spec_struct_body(label: Seq<char>, entries: Seq<Seq<char>>) -> Seq<char> {
    if entries.len() == 0 {
        label
    } else {
        label + " { "@ + spec_join_comma(entries) + " }"@
    }
}

/// A tuple-style sink under construction: a label and the entries written
/// so far, finished into `Label(e1, e2)` form.
pub struct TupleSink {
    pub label: String,
    pub entries: Vec<String>,
}

impl TupleSink {
    /// Opens a tuple-style sink for the given label.
    pub fn new(label: &str) -> (r: TupleSink)
        ensures
            r.label@ == label@,
            r.entries.deep_view() == Seq::<Seq<char>>::empty(),
    {
        let r = TupleSink { label: String::from_str(label), entries: Vec::new() };
        proof {
            assert(r.entries.deep_view() =~= Seq::<Seq<char>>::empty());
        }
        r
    }

    /// Writes one finished entry.
    pub fn entry(&mut self, value: String)
        ensures
            final(self).label == old(self).label,
            final(self).entries.deep_view() == old(self).entries.deep_view().push(value@),
    {
        let ghost pre = self.entries.deep_view();
        let ghost v = value@;
        self.entries.push(value);
        proof {
            assert(self.entries.deep_view() =~= pre.push(v));
        }
    }

    /// Closes the sink and renders it.
    pub fn finish(&self) -> (r: String)
        ensures
            r@ == spec_tuple_body(self.label@, self.entries.deep_view()),
    {
        finish_body(&self.label, &self.entries, false)
    }
}

/// A struct-style sink under construction: a label and the `name: value`
/// entries written so far, finished into `Label { n1: e1, n2: e2 }` form.
pub struct StructSink {
    pub label: String,
    pub entries: Vec<String>,
}

impl StructSink {
    /// Opens a struct-style sink for the given label.
    pub fn new(label: &str) -> (r: StructSink)
        ensures
            r.label@ == label@,
            r.entries.deep_view() == Seq::<Seq<char>>::empty(),
    {
        let r = StructSink { label: String::from_str(label), entries: Vec::new() };
        proof {
            assert(r.entries.deep_view() =~= Seq::<Seq<char>>::empty());
        }
        r
    }

    /// Writes one entry under its field name.
    pub fn entry(&mut self, name: &str, value: String)
        ensures
            final(self).label == old(self).label,
            final(self).entries.deep_view() == old(self).entries.deep_view().push(
                spec_struct_entry(name@, value@),
            ),
    {
        let ghost pre = self.entries.deep_view();
        let ghost n = name@;
        let ghost v = value@;
        let mut e = String::from_str(name);
        e.append(": ");
        e.append(value.as_str());
        self.entries.push(e);
        proof {
            assert(self.entries.deep_view() =~= pre.push(spec_struct_entry(n, v)));
        }
    }

    /// Closes the sink and renders it.
    pub fn finish(&self) -> (r: String)
        ensures
            r@ == spec_struct_body(self.label@, self.entries.deep_view()),
    {
        finish_body(&self.label, &self.entries, true)
    }
}

/// Renders a finished sink: the label alone when no entry was written, else
/// the label and the joined entries between the style's brackets.
fn finish_body(label: &String, entries: &Vec<String>, braces: bool) -> (r: String)
    ensures
        braces ==> r@ == spec_struct_body(label@, entries.deep_view()),
        !braces ==> r@ == spec_tuple_body(label@, entries.deep_view()),
{
    let mut r = String::from_str(label.as_str());
    if entries.len() == 0 {
        return r;
    }
    if braces {
        r.append(" { ");
    } else {
        r.append("(");
    }
    let ghost opened = r@;
    let mut i: usize = 0;
    while i < entries.len()
        invariant
            i <= entries@.len(),
            entries@.len() > 0,
            r@ == opened + spec_join_comma(entries.deep_view().take(i as int)),
        decreases entries@.len() - i,
    {
        crate::text::join_push(&mut r, entries[i].as_str(), i == 0);
        i = i + 1;
        proof {
            let s = entries.deep_view();
            assert(s.take(i as int).drop_last() =~= s.take(i - 1));
            assert(s.take(i as int).last() == s[i - 1]);
            assert(s.take(1).drop_last() =~= Seq::<Seq<char>>::empty());
        }
    }
    proof {
        assert(entries.deep_view().take(entries@.len() as int) =~= entries.deep_view());
    }
    if braces {
        r.append(" }");
    } else {
        r.append(")");
    }
    r
}

/// The always-available fallback: render the replacement text in place of
/// the member. Every member value supports it; the narrower shim entries
/// below are preferred where the member's type has the capability they need.
pub trait Replacement {
    /// Writes the replacement into a tuple-style sink.
    fn tuple_field(&self, replacement: &str, w: &mut TupleSink)
        ensures
            final(w).label == old(w).label,
            final(w).entries.deep_view() == old(w).entries.deep_view().push(replacement@),
    {
        let s = DebugDisplay(replacement).fmt();
        w.entry(s);
    }

    /// Writes the replacement into a struct-style sink under `name`.
    fn struct_field(&self, name: &str, replacement: &str, w: &mut StructSink)
        ensures
            final(w).label == old(w).label,
            final(w).entries.deep_view() == old(w).entries.deep_view().push(
                spec_struct_entry(name@, replacement@),
            ),
    {
        let s = DebugDisplay(replacement).fmt();
        w.entry(name, s);
    }
}

impl Replacement for MemberValue {

}

/// The debug-capability entry of the dispatch shim: renders the member's
/// real content where its type has the debug capability, the replacement
/// where it does not.
pub struct DebugOrReplacement<'a>(pub &'a MemberValue);

impl<'a> DebugOrReplacement<'a> {
    /// Writes the member (or the replacement) into a tuple-style sink.
    pub fn tuple_field(&self, replacement: &str, w: &mut TupleSink)
        ensures
            final(w).label == old(w).label,
            final(w).entries.deep_view() == old(w).entries.deep_view().push(
                spec_debug_or(self.0.deep_view(), replacement@),
            ),
    {
        match &self.0.debug {
            Some(d) => w.entry(String::from_str(d.as_str())),
            None => self.0.tuple_field(replacement, w),
        }
    }

    /// Writes the member (or the replacement) into a struct-style sink.
    pub fn struct_field(&self, name: &str, replacement: &str, w: &mut StructSink)
        ensures
            final(w).label == old(w).label,
            final(w).entries.deep_view() == old(w).entries.deep_view().push(
                spec_struct_entry(name@, spec_debug_or(self.0.deep_view(), replacement@)),
            ),
    {
        match &self.0.debug {
            Some(d) => w.entry(name, String::from_str(d.as_str())),
            None => self.0.struct_field(name, replacement, w),
        }
    }
}

/// The display-capability entry of the dispatch shim: renders the member's
/// user-facing content where its type has the display capability, the
/// replacement where it does not. Its output is bridged into the same
/// debug-style sinks, so a display derivation can piggyback on them.
pub struct DisplayOrReplacement<'a>(pub &'a MemberValue);

impl<'a> DisplayOrReplacement<'a> {
    /// Writes the member (or the replacement) into a tuple-style sink.
    pub fn tuple_field(&self, replacement: &str, w: &mut TupleSink)
        ensures
            final(w).label == old(w).label,
            final(w).entries.deep_view() == old(w).entries.deep_view().push(
                spec_display_or(self.0.deep_view(), replacement@),
            ),
    {
        match &self.0.display {
            Some(d) => {
                let s = DebugDisplay(d.as_str()).fmt();
                w.entry(s);
            },
            None => self.0.tuple_field(replacement, w),
        }
    }

    /// Writes the member (or the replacement) into a struct-style sink.
    pub fn struct_field(&self, name: &str, replacement: &str, w: &mut StructSink)
        ensures
            final(w).label == old(w).label,
            final(w).entries.deep_view() == old(w).entries.deep_view().push(
                spec_struct_entry(name@, spec_display_or(self.0.deep_view(), replacement@)),
            ),
    {
        match &self.0.display {
            Some(d) => {
                let s = DebugDisplay(d.as_str()).fmt();
                w.entry(name, s);
            },
            None => self.0.struct_field(name, replacement, w),
        }
    }
}

/// Adapts already user-facing text into a debug-style sink: the text is
/// written as it stands, with no added quoting or escaping.
pub struct DebugDisplay<'a>(pub &'a str);

impl<'a> DebugDisplay<'a> {
    /// The adapted rendering: the wrapped text itself.
    pub fn fmt(&self) -> (r: String)
        ensures
            r@ == self.0@,
    {
        String::from_str(self.0)
    }
}

} // verus!
