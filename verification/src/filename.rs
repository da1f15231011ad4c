//! Names of files, compared by the identity of their storage.

use crate::strref::identity_text;
use crate::strref::pair_order;
use crate::strref::StrRef;
use core::cmp::Ordering;
use vstd::prelude::*;
use vstd::std_specs::cmp::PartialEqSpec;
use vstd::std_specs::cmp::PartialEqSpecImpl;
use vstd::std_specs::cmp::PartialOrdSpec;
use vstd::std_specs::cmp::PartialOrdSpecImpl;
use vstd::std_specs::convert::FromSpecImpl;

verus! {

/// A distinguished type for filenames. A filename is a reference to a
/// string, in practice an interned one, so that two filenames are compared
/// by looking at where they are stored and never at their text.
#[derive(Clone, Copy, Debug, Eq, Hash, Ord)]
pub struct Filename<'a>(pub StrRef<'a>);

/// Context for creating filenames.
///
/// A context interns: it hands out one filename for each text, however
/// often and from whichever copy of the text it is asked.
pub trait FilenameCtx<'a> {
    /// The filenames handed out so far, each under its text.
    spec fn filenames(&self) -> Map<Seq<char>, Filename<'a>>;

    /// Convert `fname` into the corresponding `Filename`: the one handed out
    /// before for this text where there is one, and a new one, remembered
    /// from then on, where there is none.
    fn filename(&mut self, fname: &'a str) -> (r: Filename<'a>)
        ensures
            r.0.text()@ == fname@,
            old(self).filenames().contains_key(fname@) ==> r == old(self).filenames()[fname@],
            final(self).filenames() == old(self).filenames().insert(fname@, r),
    ;
}

impl<'a> Filename<'a> {
    /// The identity of the filename: that of the reference it wraps.
    pub open spec fn identity(&self) -> (usize, usize) {
        self.0.identity()
    }

    /// Wraps `text` as it lies in memory, without interning it.
    pub fn new(text: &'a str) -> (r: Filename<'a>)
        ensures
            r.0.text() == text,
    {
        Filename(StrRef::new(text))
    }

    /// The text of the filename.
    pub fn as_str(&self) -> (text: &'a str)
        ensures
            text == self.0.text(),
    {
        self.0.as_str()
    }

    /// The text of the filename, in a string of its own.
    pub fn to_string(&self) -> (s: String)
        ensures
            s@ == self.0.text()@,
    {
        self.0.to_string()
    }

    /// The identity of the filename in writing, without its text: for
    /// telling apart two filenames that read the same.
    pub fn identity_string(&self) -> (s: String)
        ensures
            s@ == identity_text(self.identity()),
    {
        self.0.identity_string()
    }
}

impl<'a> FromSpecImpl<StrRef<'a>> for Filename<'a> {
    open spec fn obeys_from_spec() -> bool {
        true
    }

    open spec fn from_spec(r: StrRef<'a>) -> Filename<'a> {
        Filename(r)
    }
}

impl<'a> From<StrRef<'a>> for Filename<'a> {
    /// Wraps a reference, in practice one that an interning table gave.
    fn from(r: StrRef<'a>) -> (f: Filename<'a>) {
        Filename(r)
    }
}

impl<'a> PartialEqSpecImpl for Filename<'a> {
    open spec fn obeys_eq_spec() -> bool {
        true
    }

    open spec fn eq_spec(&self, other: &Filename<'a>) -> bool {
        self.identity() == other.identity()
    }
}

impl<'a> PartialEq for Filename<'a> {
    fn eq(&self, other: &Filename<'a>) -> (r: bool) {
        self.0 == other.0
    }
}

impl<'a> PartialOrdSpecImpl for Filename<'a> {
    open spec fn obeys_partial_cmp_spec() -> bool {
        true
    }

    open spec fn partial_cmp_spec(&self, other: &Filename<'a>) -> Option<Ordering> {
        Some(pair_order(self.identity(), other.identity()))
    }
}

impl<'a> PartialOrd for Filename<'a> {
    fn partial_cmp(&self, other: &Filename<'a>) -> (r: Option<Ordering>) {
        self.0.partial_cmp(&other.0)
    }
}

/// Equality of filenames looks at the storage alone. Two filenames that lie
/// at different addresses are unequal, whether or not they read the same;
/// two with one identity are equal.
pub proof fn lemma_filename_identity_decides<'a>(a: Filename<'a>, b: Filename<'a>)
    ensures
        a.0.addr() != b.0.addr() ==> !PartialEqSpec::eq_spec(&a, &b),
        PartialEqSpec::eq_spec(&a, &b) <==> a.identity() == b.identity(),
        PartialEqSpec::eq_spec(&a, &b) <==> PartialOrdSpec::partial_cmp_spec(&a, &b) == Some(
            Ordering::Equal,
        ),
{
}

} // verus!
