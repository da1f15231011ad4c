//! Symbols, compared by the identity of their storage.

use crate::strref::identity_text;
use crate::strref::pair_order;
use crate::strref::StrRef;
use core::cmp::Ordering;
use vstd::prelude::*;
use vstd::std_specs::cmp::PartialEqSpec;
use vstd::std_specs::cmp::PartialEqSpecImpl;
use vstd::std_specs::cmp::PartialOrdSpec;
use vstd::std_specs::cmp::PartialOrdSpecImpl;
use vstd::std_specs::convert::FromSpecImpl;

verus! {

/// A distinguished type for symbols. A symbol is a reference to a
/// string, in practice an interned one, so that two symbols are compared
/// by looking at where they are stored and never at their text.
#[derive(Clone, Copy, Debug, Eq, Hash, Ord)]
pub struct Symbol<'a>(pub StrRef<'a>);

/// Context for creating symbols.
///
/// A context interns: it hands out one symbol for each text, however
/// often and from whichever copy of the text it is asked.
pub trait SymbolCtx<'a> {
    /// The symbols handed out so far, each under its text.
    spec fn symbols(&self) -> Map<Seq<char>, Symbol<'a>>;

    /// Convert `name` into the corresponding `Symbol`: the one handed out
    /// before for this text where there is one, and a new one, remembered
    /// from then on, where there is none.
    fn symbol(&mut self, name: &'a str) -> (r: Symbol<'a>)
        ensures
            r.0.text()@ == name@,
            old(self).symbols().contains_key(name@) ==> r == old(self).symbols()[name@],
            final(self).symbols() == old(self).symbols().insert(name@, r),
    ;
}

impl<'a> Symbol<'a> {
    /// The identity of the symbol: that of the reference it wraps.
    pub open spec fn identity(&self) -> (usize, usize) {
        self.0.identity()
    }

    /// Wraps `text` as it lies in memory, without interning it.
    pub fn new(text: &'a str) -> (r: Symbol<'a>)
        ensures
            r.0.text() == text,
    {
        Symbol(StrRef::new(text))
    }

    /// The text of the symbol.
    pub fn as_str(&self) -> (text: &'a str)
        ensures
            text == self.0.text(),
    {
        self.0.as_str()
    }

    /// The text of the symbol, in a string of its own.
    pub fn to_string(&self) -> (s: String)
        ensures
            s@ == self.0.text()@,
    {
        self.0.to_string()
    }

    /// The identity of the symbol in writing, without its text: for
    /// telling apart two symbols that read the same.
    pub fn identity_string(&self) -> (s: String)
        ensures
            s@ == identity_text(self.identity()),
    {
        self.0.identity_string()
    }
}

impl<'a> FromSpecImpl<StrRef<'a>> for Symbol<'a> {
    open spec fn obeys_from_spec() -> bool {
        true
    }

    open spec fn from_spec(r: StrRef<'a>) -> Symbol<'a> {
        Symbol(r)
    }
}

impl<'a> From<StrRef<'a>> for Symbol<'a> {
    /// Wraps a reference, in practice one that an interning table gave.
    fn from(r: StrRef<'a>) -> (f: Symbol<'a>) {
        Symbol(r)
    }
}

impl<'a> PartialEqSpecImpl for Symbol<'a> {
    open spec fn obeys_eq_spec() -> bool {
        true
    }

    open spec fn eq_spec(&self, other: &Symbol<'a>) -> bool {
        self.identity() == other.identity()
    }
}

impl<'a> PartialEq for Symbol<'a> {
    fn eq(&self, other: &Symbol<'a>) -> (r: bool) {
        self.0 == other.0
    }
}

impl<'a> PartialOrdSpecImpl for Symbol<'a> {
    open spec fn obeys_partial_cmp_spec() -> bool {
        true
    }

    open spec fn partial_cmp_spec(&self, other: &Symbol<'a>) -> Option<Ordering> {
        Some(pair_order(self.identity(), other.identity()))
    }
}

impl<'a> PartialOrd for Symbol<'a> {
    fn partial_cmp(&self, other: &Symbol<'a>) -> (r: Option<Ordering>) {
        self.0.partial_cmp(&other.0)
    }
}

/// Equality of symbols looks at the storage alone. Two symbols that lie
/// at different addresses are unequal, whether or not they read the same;
/// two with one identity are equal.
pub proof fn lemma_symbol_identity_decides<'a>(a: Symbol<'a>, b: Symbol<'a>)
    ensures
        a.0.addr() != b.0.addr() ==> !PartialEqSpec::eq_spec(&a, &b),
        PartialEqSpec::eq_spec(&a, &b) <==> a.identity() == b.identity(),
        PartialEqSpec::eq_spec(&a, &b) <==> PartialOrdSpec::partial_cmp_spec(&a, &b) == Some(
            Ordering::Equal,
        ),
{
}

} // verus!
